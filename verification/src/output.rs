//! Cuts the byte stream of a child process into lines.
use vstd::prelude::*;
use crate::text;
use crate::unicode;

verus! {

/// A byte that ends a line.
pub open spec fn is_break(b: u8) -> bool {
    b == 10 || b == 13
}

/// The lines that `bytes` completes behind `pending`, the bytes of a line that
/// has begun, and the bytes of the line that remains open. Empty lines do not
/// count.
pub open spec fn cut_lines(pending: Seq<u8>, bytes: Seq<u8>) -> (Seq<Seq<u8>>, Seq<u8>)
    decreases bytes.len(),
{
    if bytes.len() == 0 {
        (Seq::empty(), pending)
    } else {
        let (lines, open) = cut_lines(pending, bytes.drop_last());
        if !is_break(bytes.last()) {
            (lines, open.push(bytes.last()))
        } else if open.len() == 0 {
            (lines, open)
        } else {
            (lines.push(open), Seq::empty())
        }
    }
}

/// Lines of bytes as text.
pub open spec fn line_texts(lines: Seq<Seq<u8>>) -> Seq<Seq<char>> {
    Seq::new(lines.len(), |i: int| unicode::utf8_lossy(lines[i]))
}

/// Cuts a byte stream that comes in pieces into lines.
pub struct LineSplitter {
    pending: Vec<u8>,
}

impl View for LineSplitter {
    type V = Seq<u8>;

    /// The bytes of the line that has begun.
    closed spec fn view(&self) -> Seq<u8> {
        self.pending@
    }
}

impl LineSplitter {
    /// A splitter at the start of a stream.
    pub fn new() -> (r: Self)
        ensures
            r@ == Seq::<u8>::empty(),
    {
        LineSplitter { pending: Vec::new() }
    }

    /// Takes in the next piece of the stream and hands out the lines that it
    /// completes.
    pub fn push(&mut self, bytes: &[u8]) -> (r: Vec<String>)
        ensures
            final(self)@ == cut_lines(old(self)@, bytes@).1,
            text::texts(r@) == line_texts(cut_lines(old(self)@, bytes@).0),
    {
        let mut out: Vec<String> = Vec::new();
        let mut i: usize = 0;
        assert(bytes@.take(0) =~= Seq::empty());
        while i < bytes.len()
            invariant
                i <= bytes@.len(),
                self@ == cut_lines(old(self)@, bytes@.take(i as int)).1,
                text::texts(out@) == line_texts(cut_lines(old(self)@, bytes@.take(i as int)).0),
            decreases bytes@.len() - i,
        {
            let b = bytes[i];
            assert(bytes@.take(i + 1).drop_last() =~= bytes@.take(i as int));
            let ghost (lines, open) = cut_lines(old(self)@, bytes@.take(i as int));
            if b == 10 || b == 13 {
                if self.pending.len() > 0 {
                    let line = unicode::from_utf8_lossy(self.pending.as_slice());
                    out.push(line);
                    self.pending.clear();
                    assert(self@ =~= Seq::empty());
                    assert(text::texts(out@) =~= line_texts(lines).push(
                        unicode::utf8_lossy(open),
                    ));
                    assert(text::texts(out@) =~= line_texts(lines.push(open)));
                }
            } else {
                self.pending.push(b);
            }
            i = i + 1;
        }
        assert(bytes@.take(bytes@.len() as int) =~= bytes@);
        out
    }

    /// Ends the stream and hands out the line that it left open, if there is one.
    pub fn finish(self) -> (r: Option<String>)
        ensures
            text::opt_text(r) == (if self@.len() > 0 {
                Some(unicode::utf8_lossy(self@))
            } else {
                None
            }),
    {
        if self.pending.len() > 0 {
            Some(unicode::from_utf8_lossy(self.pending.as_slice()))
        } else {
            None
        }
    }
}

/// How a stream is cut into pieces makes no difference to its lines.
pub proof fn lemma_pieces_do_not_matter(pending: Seq<u8>, a: Seq<u8>, b: Seq<u8>)
    ensures
        ({
            let (first, open) = cut_lines(pending, a);
            let (second, rest) = cut_lines(open, b);
            cut_lines(pending, a + b) == (first + second, rest)
        }),
    decreases b.len(),
{
    if b.len() == 0 {
        assert(a + b =~= a);
        let (first, open) = cut_lines(pending, a);
        assert(first + Seq::<Seq<u8>>::empty() =~= first);
    } else {
        lemma_pieces_do_not_matter(pending, a, b.drop_last());
        assert((a + b).drop_last() =~= a + b.drop_last());
        assert((a + b).last() == b.last());
        let (first, open) = cut_lines(pending, a);
        let (second, rest) = cut_lines(open, b.drop_last());
        assert((first + second).push(rest) =~= first + second.push(rest));
    }
}

/// No byte of `bytes` ends a line.
pub open spec fn holds_no_break(bytes: Seq<u8>) -> bool {
    forall|k: int| 0 <= k < bytes.len() ==> !is_break(#[trigger] bytes[k])
}

/// A line is never empty and holds no line break, and neither does the line
/// that remains open.
pub proof fn lemma_lines_hold_no_breaks(pending: Seq<u8>, bytes: Seq<u8>)
    requires
        holds_no_break(pending),
    ensures
        ({
            let (lines, open) = cut_lines(pending, bytes);
            &&& forall|i: int|
                0 <= i < lines.len() ==> holds_no_break(#[trigger] lines[i]) && lines[i].len() > 0
            &&& holds_no_break(open)
        }),
    decreases bytes.len(),
{
    if bytes.len() > 0 {
        lemma_lines_hold_no_breaks(pending, bytes.drop_last());
    }
}

/// The bytes of a stream that are not line breaks.
pub open spec fn without_breaks(bytes: Seq<u8>) -> Seq<u8> {
    bytes.filter(|b: u8| !is_break(b))
}

/// Nothing but line breaks is lost: the lines and the line that remains open
/// hold, in order, every other byte.
pub proof fn lemma_only_breaks_are_dropped(pending: Seq<u8>, bytes: Seq<u8>)
    ensures
        cut_lines(pending, bytes).0.flatten() + cut_lines(pending, bytes).1 == pending
            + without_breaks(bytes),
    decreases bytes.len(),
{
    reveal(Seq::filter);
    let keep = |b: u8| !is_break(b);
    if bytes.len() == 0 {
        assert(Seq::<Seq<u8>>::empty().flatten() =~= Seq::empty());
        assert(without_breaks(bytes) =~= Seq::empty());
    } else {
        lemma_only_breaks_are_dropped(pending, bytes.drop_last());
        let (lines, open) = cut_lines(pending, bytes.drop_last());
        let b = bytes.last();
        if !is_break(b) {
            assert(without_breaks(bytes) =~= without_breaks(bytes.drop_last()).push(b));
            assert(lines.flatten() + open.push(b) =~= (lines.flatten() + open).push(b));
            assert((pending + without_breaks(bytes.drop_last())).push(b) =~= pending
                + without_breaks(bytes));
        } else {
            assert(without_breaks(bytes) =~= without_breaks(bytes.drop_last()));
            if open.len() > 0 {
                lines.lemma_flatten_push(open);
                assert(lines.push(open).flatten() + Seq::<u8>::empty() =~= lines.flatten() + open);
            }
        }
    }
}

/// A line feed and a carriage return each end a line: what stands before one is
/// the line, what stands behind it begins the next, and two of them in a row
/// make no empty line between them.
pub proof fn lemma_breaks_end_lines(pending: Seq<u8>, head: Seq<u8>, tail: Seq<u8>, end: u8)
    requires
        holds_no_break(head),
        holds_no_break(tail),
        (pending + head).len() > 0,
        end == 10 || end == 13,
    ensures
        cut_lines(pending, head + seq![end] + tail) == (seq![pending + head], tail),
        cut_lines(pending, head + seq![13u8, 10u8] + tail) == (seq![pending + head], tail),
        cut_lines(pending, head) == (Seq::<Seq<u8>>::empty(), pending + head),
{
    lemma_open_line(pending, head);
    let none = Seq::<u8>::empty();
    lemma_open_line(none, tail);
    assert(none + tail =~= tail);
    lemma_pieces_do_not_matter(pending, head, seq![end]);
    lemma_one_break(pending + head, end);
    assert(Seq::<Seq<u8>>::empty() + seq![pending + head] =~= seq![pending + head]);
    lemma_pieces_do_not_matter(pending, head + seq![end], tail);
    assert(seq![pending + head] + Seq::<Seq<u8>>::empty() =~= seq![pending + head]);
    lemma_pieces_do_not_matter(pending, head, seq![13u8]);
    lemma_one_break(pending + head, 13);
    lemma_pieces_do_not_matter(pending, head + seq![13u8], seq![10u8]);
    lemma_one_break(none, 10);
    lemma_pieces_do_not_matter(pending, head + seq![13u8] + seq![10u8], tail);
    assert(head + seq![13u8] + seq![10u8] =~= head + seq![13u8, 10u8]);
}

proof fn lemma_one_break(open: Seq<u8>, end: u8)
    requires
        end == 10 || end == 13,
    ensures
        open.len() > 0 ==> cut_lines(open, seq![end]) == (seq![open], Seq::<u8>::empty()),
        open.len() == 0 ==> cut_lines(open, seq![end]) == (Seq::<Seq<u8>>::empty(), open),
{
    reveal_with_fuel(cut_lines, 2);
    assert(seq![end].drop_last() =~= Seq::<u8>::empty());
    assert(Seq::<Seq<u8>>::empty().push(open) =~= seq![open]);
}

proof fn lemma_open_line(pending: Seq<u8>, bytes: Seq<u8>)
    requires
        holds_no_break(bytes),
    ensures
        cut_lines(pending, bytes) == (Seq::<Seq<u8>>::empty(), pending + bytes),
    decreases bytes.len(),
{
    if bytes.len() == 0 {
        assert(pending + bytes =~= pending);
    } else {
        let before = bytes.drop_last();
        assert forall|k: int| 0 <= k < before.len() implies !is_break(#[trigger] before[k]) by {
            assert(before[k] == bytes[k]);
        }
        lemma_open_line(pending, before);
        assert(!is_break(bytes[bytes.len() - 1]));
        assert((pending + before).push(bytes.last()) =~= pending + bytes);
    }
}

} // verus!
