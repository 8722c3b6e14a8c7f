//! Text primitives: searching, trimming, splitting and joining, stated over
//! the characters of a string.
use vstd::prelude::*;
use vstd::string::*;
use vstd::utf8::*;

verus! {

/// A set of characters that a text is cut or trimmed at.
#[derive(Clone, Copy, PartialEq, Eq, Structural, Debug)]
pub enum CharClass {
    /// Unicode white space.
    Whitespace,
    /// One given character.
    Exactly(char),
    /// A single or double quotation mark.
    Quote,
    /// A character that ends an identifier inside a URL: `?`, `&`, `/` or `#`.
    UrlStop,
}

/// Unicode's `White_Space` property.
pub open spec fn is_white(c: char) -> bool {
    ||| '\u{9}' <= c <= '\u{d}'
    ||| c == '\u{20}'
    ||| c == '\u{85}'
    ||| c == '\u{a0}'
    ||| c == '\u{1680}'
    ||| '\u{2000}' <= c <= '\u{200a}'
    ||| c == '\u{2028}'
    ||| c == '\u{2029}'
    ||| c == '\u{202f}'
    ||| c == '\u{205f}'
    ||| c == '\u{3000}'
}

impl CharClass {
    /// Whether a character belongs to the class.
    pub open spec fn has(self, c: char) -> bool {
        match self {
            CharClass::Whitespace => is_white(c),
            CharClass::Exactly(d) => c == d,
            CharClass::Quote => c == '"' || c == '\'',
            CharClass::UrlStop => c == '?' || c == '&' || c == '/' || c == '#',
        }
    }

    /// Tests a character for membership.
    pub fn test(self, c: char) -> (r: bool)
        ensures
            r == self.has(c),
    {
        match self {
            CharClass::Whitespace => ('\u{9}' <= c && c <= '\u{d}') || c == '\u{20}' || c
                == '\u{85}' || c == '\u{a0}' || c == '\u{1680}' || ('\u{2000}' <= c && c
                <= '\u{200a}') || c == '\u{2028}' || c == '\u{2029}' || c == '\u{202f}' || c
                == '\u{205f}' || c == '\u{3000}',
            CharClass::Exactly(d) => c == d,
            CharClass::Quote => c == '"' || c == '\'',
            CharClass::UrlStop => c == '?' || c == '&' || c == '/' || c == '#',
        }
    }
}

/// The length of the longest prefix of `s` whose characters are all inside the
/// class (`inside`) or all outside it.
pub open spec fn span(s: Seq<char>, class: CharClass, inside: bool) -> nat
    decreases s.len(),
{
    if s.len() > 0 && class.has(s[0]) == inside {
        1 + span(s.skip(1), class, inside)
    } else {
        0
    }
}

/// The length of the longest suffix of `s` whose characters are all inside the
/// class (`inside`) or all outside it.
pub open spec fn span_back(s: Seq<char>, class: CharClass, inside: bool) -> nat
    decreases s.len(),
{
    if s.len() > 0 && class.has(s.last()) == inside {
        1 + span_back(s.drop_last(), class, inside)
    } else {
        0
    }
}

/// `s` without the class's characters at its end.
pub open spec fn trimmed_end(s: Seq<char>, class: CharClass) -> Seq<char> {
    s.take(s.len() - span_back(s, class, true))
}

/// `s` without the class's characters at its start.
pub open spec fn trimmed_start(s: Seq<char>, class: CharClass) -> Seq<char> {
    s.skip(span(s, class, true) as int)
}

/// `s` without the class's characters at either end.
pub open spec fn trimmed_of(s: Seq<char>, class: CharClass) -> Seq<char> {
    trimmed_end(trimmed_start(s, class), class)
}

/// `s` without white space at either end.
pub open spec fn trimmed(s: Seq<char>) -> Seq<char> {
    trimmed_of(s, CharClass::Whitespace)
}

/// The part of `s` before the class's first character, or all of it.
pub open spec fn before_first(s: Seq<char>, class: CharClass) -> Seq<char> {
    s.take(span(s, class, false) as int)
}

/// The part of `s` after the class's last character, or all of it.
pub open spec fn after_last(s: Seq<char>, class: CharClass) -> Seq<char> {
    s.skip(s.len() - span_back(s, class, false))
}

/// `pat` stands in `s` at index `i`.
pub open spec fn occurs_at(s: Seq<char>, pat: Seq<char>, i: int) -> bool {
    &&& 0 <= i
    &&& i + pat.len() <= s.len()
    &&& s.subrange(i, i + pat.len()) == pat
}

/// `pat` stands somewhere in `s`.
pub open spec fn holds_text(s: Seq<char>, pat: Seq<char>) -> bool {
    exists|i: int| occurs_at(s, pat, i)
}

/// `i` is the first place where `pat` stands in `s`.
pub open spec fn first_at(s: Seq<char>, pat: Seq<char>, i: int) -> bool {
    &&& occurs_at(s, pat, i)
    &&& forall|j: int| 0 <= j < i ==> !occurs_at(s, pat, j)
}

/// `i` is the last place where `pat` stands in `s`.
pub open spec fn last_at(s: Seq<char>, pat: Seq<char>, i: int) -> bool {
    &&& occurs_at(s, pat, i)
    &&& forall|j: int| i < j ==> !occurs_at(s, pat, j)
}

/// `s` starts with `pat`.
pub open spec fn begins_with(s: Seq<char>, pat: Seq<char>) -> bool {
    occurs_at(s, pat, 0)
}

/// `s` ends with `pat`.
pub open spec fn finishes_with(s: Seq<char>, pat: Seq<char>) -> bool {
    occurs_at(s, pat, s.len() - pat.len())
}

/// The parts of `s` before and after the first place where `pat` stands.
pub open spec fn split_first(s: Seq<char>, pat: Seq<char>) -> Option<(Seq<char>, Seq<char>)> {
    if holds_text(s, pat) {
        let i = choose|i: int| first_at(s, pat, i);
        Some((s.take(i), s.skip(i + pat.len())))
    } else {
        None
    }
}

/// The parts of `s` before and after the last place where `pat` stands.
pub open spec fn split_last(s: Seq<char>, pat: Seq<char>) -> Option<(Seq<char>, Seq<char>)> {
    if holds_text(s, pat) {
        let i = choose|i: int| last_at(s, pat, i);
        Some((s.take(i), s.skip(i + pat.len())))
    } else {
        None
    }
}

/// The lower-case form of an ASCII letter; any other character as it is.
pub open spec fn ascii_lower_char(c: char) -> char {
    if 'A' <= c <= 'Z' {
        ((c as u32) + 32) as char
    } else {
        c
    }
}

/// `s` with its ASCII letters in lower case.
pub open spec fn ascii_lower(s: Seq<char>) -> Seq<char> {
    s.map_values(|c: char| ascii_lower_char(c))
}

/// `s` without its space characters.
pub open spec fn without_spaces(s: Seq<char>) -> Seq<char> {
    s.filter(|c: char| c != ' ')
}

/// The contents of a list of strings.
pub open spec fn texts(v: Seq<String>) -> Seq<Seq<char>> {
    Seq::new(v.len(), |i: int| v[i]@)
}

/// The contents of a list of string slices.
pub open spec fn slice_texts(v: Seq<&str>) -> Seq<Seq<char>> {
    Seq::new(v.len(), |i: int| v[i]@)
}

/// The content of an optional string.
pub open spec fn opt_text(o: Option<String>) -> Option<Seq<char>> {
    match o {
        Some(s) => Some(s@),
        None => None,
    }
}

/// The content of an optional string slice.
pub open spec fn opt_str(o: Option<&str>) -> Option<Seq<char>> {
    match o {
        Some(s) => Some(s@),
        None => None,
    }
}

/// The texts one after the other with `sep` between each two.
pub open spec fn joined(parts: Seq<Seq<char>>, sep: Seq<char>) -> Seq<char>
    decreases parts.len(),
{
    if parts.len() == 0 {
        Seq::empty()
    } else if parts.len() == 1 {
        parts[0]
    } else {
        joined(parts.drop_last(), sep) + sep + parts.last()
    }
}

/// The number of bytes of `s` in UTF-8.
pub open spec fn byte_len(s: Seq<char>) -> nat {
    encode_utf8(s).len()
}

/// The characters of a string.
pub fn chars_of(s: &str) -> (r: Vec<char>)
    ensures
        r@ == s@,
{
    let mut out: Vec<char> = Vec::new();
    for c in it: s.chars()
        invariant
            out@ == s@.take(it.index() as int),
            it.seq() == s@,
    {
        out.push(c);
    }
    out
}

/// Whether two strings are the same.
pub fn same_text(a: &str, b: &str) -> (r: bool)
    ensures
        r == (a@ == b@),
{
    a.to_owned() == b.to_owned()
}

pub proof fn lemma_span_bound(s: Seq<char>, class: CharClass, inside: bool)
    ensures
        span(s, class, inside) <= s.len(),
        span_back(s, class, inside) <= s.len(),
    decreases s.len(),
{
    if s.len() > 0 {
        lemma_span_bound(s.skip(1), class, inside);
        lemma_span_bound(s.drop_last(), class, inside);
    }
}

/// The characters of a span are all inside (or all outside) the class, and the
/// character behind it is not.
pub proof fn lemma_span_members(s: Seq<char>, class: CharClass, inside: bool)
    ensures
        forall|i: int| 0 <= i < span(s, class, inside) ==> class.has(#[trigger] s[i]) == inside,
        span(s, class, inside) < s.len() ==> class.has(s[span(s, class, inside) as int]) != inside,
    decreases s.len(),
{
    lemma_span_bound(s, class, inside);
    if s.len() > 0 && class.has(s[0]) == inside {
        lemma_span_members(s.skip(1), class, inside);
        assert forall|i: int| 0 <= i < span(s, class, inside) implies class.has(#[trigger] s[i])
            == inside by {
            if i > 0 {
                assert(s[i] == s.skip(1)[i - 1]);
            }
        }
    }
}

/// The characters of a span at the end are all inside (or all outside) the
/// class, and the character before it is not.
pub proof fn lemma_span_back_members(s: Seq<char>, class: CharClass, inside: bool)
    ensures
        forall|i: int|
            s.len() - span_back(s, class, inside) <= i < s.len() ==> class.has(#[trigger] s[i])
                == inside,
        span_back(s, class, inside) < s.len() ==> class.has(
            s[s.len() - 1 - span_back(s, class, inside)],
        ) != inside,
    decreases s.len(),
{
    lemma_span_bound(s, class, inside);
    if s.len() > 0 && class.has(s.last()) == inside {
        lemma_span_back_members(s.drop_last(), class, inside);
        assert forall|i: int|
            s.len() - span_back(s, class, inside) <= i < s.len() implies class.has(#[trigger] s[i])
            == inside by {
            if i < s.len() - 1 {
                assert(s[i] == s.drop_last()[i]);
            }
        }
    }
}

/// Trimming takes away nothing but the class's characters at the two ends, and
/// leaves none of them there.
pub proof fn lemma_trimmed_of(s: Seq<char>, class: CharClass)
    ensures
        ({
            let t = trimmed_of(s, class);
            &&& exists|i: int| #[trigger]
                occurs_at(s, t, i) && (forall|k: int|
                    0 <= k < s.len() && !(i <= k < i + t.len()) ==> class.has(#[trigger] s[k]))
            &&& t.len() > 0 ==> !class.has(t[0]) && !class.has(t.last())
        }),
{
    let t = trimmed_of(s, class);
    let i = span(s, class, true) as int;
    let rest = trimmed_start(s, class);
    lemma_span_bound(s, class, true);
    lemma_span_members(s, class, true);
    lemma_span_bound(rest, class, true);
    lemma_span_back_members(rest, class, true);
    assert(s.subrange(i, i + t.len()) =~= t);
    assert(occurs_at(s, t, i));
    assert forall|k: int| 0 <= k < s.len() && !(i <= k < i + t.len()) implies class.has(
        #[trigger] s[k],
    ) by {
        if k >= i {
            assert(s[k] == rest[k - i]);
        }
    }
    if t.len() > 0 {
        assert(t[0] == s[i]);
        assert(t.last() == rest[rest.len() - 1 - span_back(rest, class, true)]);
    }
}

/// Where `pat` stands somewhere, it has a first place.
pub proof fn lemma_first_exists(s: Seq<char>, pat: Seq<char>)
    requires
        holds_text(s, pat),
    ensures
        exists|i: int| first_at(s, pat, i),
{
    let i = choose|i: int| occurs_at(s, pat, i);
    lemma_first_up_to(s, pat, i);
}

proof fn lemma_first_up_to(s: Seq<char>, pat: Seq<char>, i: int)
    requires
        occurs_at(s, pat, i),
    ensures
        exists|k: int| first_at(s, pat, k),
    decreases i,
{
    if exists|j: int| 0 <= j < i && occurs_at(s, pat, j) {
        let j = choose|j: int| 0 <= j < i && occurs_at(s, pat, j);
        lemma_first_up_to(s, pat, j);
    } else {
        assert(first_at(s, pat, i));
    }
}

/// Counts the leading characters of a string that are inside (or outside) the class.
pub fn span_len(s: &str, class: CharClass, inside: bool) -> (r: usize)
    ensures
        r == span(s@, class, inside),
        r <= s@.len(),
{
    let chars = chars_of(s);
    let mut n: usize = 0;
    assert(chars@.skip(0) == s@);
    while n < chars.len() && class.test(chars[n]) == inside
        invariant
            chars@ == s@,
            n <= chars@.len(),
            span(s@, class, inside) == n + span(s@.skip(n as int), class, inside),
        decreases chars@.len() - n,
    {
        assert(s@.skip(n as int).skip(1) == s@.skip(n + 1));
        n = n + 1;
    }
    n
}

/// Counts the trailing characters of a string that are inside (or outside) the class.
pub fn span_back_len(s: &str, class: CharClass, inside: bool) -> (r: usize)
    ensures
        r == span_back(s@, class, inside),
        r <= s@.len(),
{
    let chars = chars_of(s);
    let mut n: usize = 0;
    assert(chars@.take(chars@.len() as int) == s@);
    while n < chars.len() && class.test(chars[chars.len() - 1 - n]) == inside
        invariant
            chars@ == s@,
            n <= chars@.len(),
            span_back(s@, class, inside) == n + span_back(
                s@.take(s@.len() - n),
                class,
                inside,
            ),
        decreases chars@.len() - n,
    {
        assert(s@.take(s@.len() - n).drop_last() == s@.take(s@.len() - n - 1));
        n = n + 1;
    }
    n
}

/// The part of a string between two character indices.
pub fn cut(s: &str, from: usize, to: usize) -> (r: String)
    requires
        from <= to <= s@.len(),
    ensures
        r@ == s@.subrange(from as int, to as int),
{
    s.substring_char(from, to).to_owned()
}

/// Removes the class's characters from the end.
pub fn trim_end_of(s: &str, class: CharClass) -> (r: String)
    ensures
        r@ == trimmed_end(s@, class),
{
    let n = span_back_len(s, class, true);
    let len = s.unicode_len();
    cut(s, 0, len - n)
}

/// Removes the class's characters from both ends.
pub fn trim_of(s: &str, class: CharClass) -> (r: String)
    ensures
        r@ == trimmed_of(s@, class),
{
    let n = span_len(s, class, true);
    let rest = cut(s, n, s.unicode_len());
    assert(rest@ == trimmed_start(s@, class));
    trim_end_of(rest.as_str(), class)
}

/// Removes white space from both ends.
pub fn trim(s: &str) -> (r: String)
    ensures
        r@ == trimmed(s@),
{
    trim_of(s, CharClass::Whitespace)
}

/// Keeps what stands before the class's first character.
pub fn before_first_of(s: &str, class: CharClass) -> (r: String)
    ensures
        r@ == before_first(s@, class),
{
    let n = span_len(s, class, false);
    cut(s, 0, n)
}

/// Keeps what stands after the class's last character.
pub fn after_last_of(s: &str, class: CharClass) -> (r: String)
    ensures
        r@ == after_last(s@, class),
{
    let n = span_back_len(s, class, false);
    let len = s.unicode_len();
    cut(s, len - n, len)
}

/// Compares `pat` with the characters of `s` from index `i` on.
fn stands_at(s: &Vec<char>, pat: &Vec<char>, i: usize) -> (r: bool)
    requires
        i + pat@.len() <= s@.len(),
    ensures
        r == occurs_at(s@, pat@, i as int),
{
    let mut k: usize = 0;
    while k < pat.len()
        invariant
            i + pat@.len() <= s.len(),
            k <= pat@.len(),
            forall|j: int| 0 <= j < k ==> s@[i + j] == pat@[j],
        decreases pat@.len() - k,
    {
        if s[i + k] != pat[k] {
            assert(s@.subrange(i as int, i + pat@.len())[k as int] != pat@[k as int]);
            return false;
        }
        k = k + 1;
    }
    assert(s@.subrange(i as int, i + pat@.len()) =~= pat@);
    true
}

/// Finds the first place where `pat` stands in `s`.
pub fn find(s: &str, pat: &str) -> (r: Option<usize>)
    ensures
        match r {
            Some(i) => first_at(s@, pat@, i as int),
            None => !holds_text(s@, pat@),
        },
{
    let hay = chars_of(s);
    let needle = chars_of(pat);
    if needle.len() > hay.len() {
        return None;
    }
    let last: usize = hay.len() - needle.len();
    let mut i: usize = 0;
    while i <= last
        invariant
            hay@ == s@,
            needle@ == pat@,
            last == hay@.len() - needle@.len(),
            last <= hay.len(),
            i <= last + 1,
            forall|j: int| 0 <= j < i ==> !occurs_at(s@, pat@, j),
        decreases last + 1 - i,
    {
        if stands_at(&hay, &needle, i) {
            return Some(i);
        }
        if i == last {
            assert forall|j: int| !occurs_at(s@, pat@, j) by {
                if occurs_at(s@, pat@, j) {
                    assert(j <= last);
                }
            }
            return None;
        }
        i = i + 1;
    }
    None
}

/// Finds the last place where `pat` stands in `s`.
pub fn find_last(s: &str, pat: &str) -> (r: Option<usize>)
    ensures
        match r {
            Some(i) => last_at(s@, pat@, i as int),
            None => !holds_text(s@, pat@),
        },
{
    let hay = chars_of(s);
    let needle = chars_of(pat);
    if needle.len() > hay.len() {
        return None;
    }
    let last: usize = hay.len() - needle.len();
    let mut n: usize = last;
    loop
        invariant
            hay@ == s@,
            needle@ == pat@,
            last == hay@.len() - needle@.len(),
            n <= last,
            forall|j: int| n < j ==> !occurs_at(s@, pat@, j),
        decreases n,
    {
        if stands_at(&hay, &needle, n) {
            return Some(n);
        }
        if n == 0 {
            assert forall|j: int| !occurs_at(s@, pat@, j) by {}
            return None;
        }
        n = n - 1;
    }
}

/// Whether `pat` stands somewhere in `s`.
pub fn contains(s: &str, pat: &str) -> (r: bool)
    ensures
        r == holds_text(s@, pat@),
{
    find(s, pat).is_some()
}

/// Whether `s` starts with `pat`.
pub fn starts_with(s: &str, pat: &str) -> (r: bool)
    ensures
        r == begins_with(s@, pat@),
{
    let hay = chars_of(s);
    let needle = chars_of(pat);
    needle.len() <= hay.len() && stands_at(&hay, &needle, 0)
}

/// Whether `s` ends with `pat`.
pub fn ends_with(s: &str, pat: &str) -> (r: bool)
    ensures
        r == finishes_with(s@, pat@),
{
    let hay = chars_of(s);
    let needle = chars_of(pat);
    needle.len() <= hay.len() && stands_at(&hay, &needle, hay.len() - needle.len())
}

/// Whether the character stands somewhere in `s`.
pub fn contains_char(s: &str, c: char) -> (r: bool)
    ensures
        r == s@.contains(c),
{
    for d in it: s.chars()
        invariant
            it.seq() == s@,
            forall|j: int| 0 <= j < it.index() ==> s@[j] != c,
    {
        if d == c {
            assert(s@[it.index() as int] == c);
            return true;
        }
    }
    false
}

/// Splits `s` at the first place where `pat` stands.
pub fn split_once(s: &str, pat: &str) -> (r: Option<(String, String)>)
    ensures
        match r {
            Some((a, b)) => split_first(s@, pat@) == Some((a@, b@)),
            None => split_first(s@, pat@) is None,
        },
{
    match find(s, pat) {
        Some(i) => {
            proof {
                let k = choose|k: int| first_at(s@, pat@, k);
                assert(first_at(s@, pat@, k));
                assert(k == i);
            }
            let len = s.unicode_len();
            let m = pat.unicode_len();
            Some((cut(s, 0, i), cut(s, i + m, len)))
        },
        None => None,
    }
}

/// Splits `s` at the last place where `pat` stands.
pub fn rsplit_once(s: &str, pat: &str) -> (r: Option<(String, String)>)
    ensures
        match r {
            Some((a, b)) => split_last(s@, pat@) == Some((a@, b@)),
            None => split_last(s@, pat@) is None,
        },
{
    match find_last(s, pat) {
        Some(i) => {
            proof {
                let k = choose|k: int| last_at(s@, pat@, k);
                assert(last_at(s@, pat@, k));
                assert(k == i);
            }
            let len = s.unicode_len();
            let m = pat.unicode_len();
            Some((cut(s, 0, i), cut(s, i + m, len)))
        },
        None => None,
    }
}

/// `String::push` of std appends one character.
pub assume_specification[ String::push ](s: &mut String, ch: char)
    ensures
        final(s)@ == old(s)@.push(ch),
;

/// The string with its ASCII letters in lower case.
pub fn to_ascii_lowercase(s: &str) -> (r: String)
    ensures
        r@ == ascii_lower(s@),
{
    let mut out = String::new();
    for c in it: s.chars()
        invariant
            it.seq() == s@,
            out@ == ascii_lower(s@.take(it.index() as int)),
    {
        if 'A' <= c && c <= 'Z' {
            out.push(((c as u8) + 32) as char);
        } else {
            out.push(c);
        }
        assert(s@.take(it.index() + 1) == s@.take(it.index() as int).push(c));
    }
    assert(s@.take(s@.len() as int) == s@);
    out
}

/// The string without its space characters.
pub fn remove_spaces(s: &str) -> (r: String)
    ensures
        r@ == without_spaces(s@),
{
    let mut out = String::new();
    let ghost keep = |c: char| c != ' ';
    proof {
        reveal(Seq::filter);
    }
    for c in it: s.chars()
        invariant
            it.seq() == s@,
            keep == (|c: char| c != ' '),
            out@ == s@.take(it.index() as int).filter(keep),
    {
        proof {
            reveal(Seq::filter);
            assert(s@.take(it.index() + 1).drop_last() == s@.take(it.index() as int));
        }
        if c != ' ' {
            out.push(c);
        }
    }
    assert(s@.take(s@.len() as int) == s@);
    out
}

/// Whether two strings are the same but for the case of ASCII letters.
pub fn eq_ignore_ascii_case(a: &str, b: &str) -> (r: bool)
    ensures
        r == (ascii_lower(a@) == ascii_lower(b@)),
{
    to_ascii_lowercase(a) == to_ascii_lowercase(b)
}

/// Appends a copy of a string to a list.
pub fn push_text(list: &mut Vec<String>, s: &str)
    ensures
        texts(final(list)@) == texts(old(list)@).push(s@),
{
    list.push(s.to_owned());
}

/// Appends copies of several strings to a list.
pub fn push_texts(list: &mut Vec<String>, more: &[&str])
    ensures
        texts(final(list)@) == texts(old(list)@) + slice_texts(more@),
{
    let mut i: usize = 0;
    while i < more.len()
        invariant
            i <= more@.len(),
            texts(list@) == texts(old(list)@) + slice_texts(more@).take(i as int),
        decreases more@.len() - i,
    {
        push_text(list, more[i]);
        assert(slice_texts(more@).take(i + 1) == slice_texts(more@).take(i as int).push(more@[i as int]@));
        i = i + 1;
    }
    assert(slice_texts(more@).take(more@.len() as int) == slice_texts(more@));
}

/// Copies a list of strings.
pub fn clone_texts(list: &Vec<String>) -> (r: Vec<String>)
    ensures
        r@ == list@,
{
    let mut out: Vec<String> = Vec::new();
    let mut i: usize = 0;
    while i < list.len()
        invariant
            i <= list@.len(),
            out@ == list@.take(i as int),
        decreases list@.len() - i,
    {
        out.push(list[i].clone());
        i = i + 1;
    }
    out
}

/// Two strings one after the other.
pub fn concat2(a: &str, b: &str) -> (r: String)
    ensures
        r@ == a@ + b@,
{
    let mut out = a.to_owned();
    out.append(b);
    out
}

/// Three strings one after the other.
pub fn concat3(a: &str, b: &str, c: &str) -> (r: String)
    ensures
        r@ == a@ + b@ + c@,
{
    let mut out = a.to_owned();
    out.append(b);
    out.append(c);
    out
}

/// Four strings one after the other.
pub fn concat4(a: &str, b: &str, c: &str, d: &str) -> (r: String)
    ensures
        r@ == a@ + b@ + c@ + d@,
{
    let mut out = a.to_owned();
    out.append(b);
    out.append(c);
    out.append(d);
    out
}

/// Five strings one after the other.
pub fn concat5(a: &str, b: &str, c: &str, d: &str, e: &str) -> (r: String)
    ensures
        r@ == a@ + b@ + c@ + d@ + e@,
{
    let mut out = a.to_owned();
    out.append(b);
    out.append(c);
    out.append(d);
    out.append(e);
    out
}

/// The strings one after the other with `sep` between each two.
pub fn join(parts: &Vec<String>, sep: &str) -> (r: String)
    ensures
        r@ == joined(texts(parts@), sep@),
{
    let mut out = String::new();
    let mut i: usize = 0;
    while i < parts.len()
        invariant
            i <= parts@.len(),
            out@ == joined(texts(parts@).take(i as int), sep@),
        decreases parts@.len() - i,
    {
        if i > 0 {
            out.append(sep);
        }
        out.append(parts[i].as_str());
        assert(texts(parts@).take(i + 1).drop_last() == texts(parts@).take(i as int));
        i = i + 1;
    }
    assert(texts(parts@).take(parts@.len() as int) == texts(parts@));
    out
}

/// `value` stands directly behind `flag` somewhere in a list of arguments.
pub open spec fn followed_by(args: Seq<Seq<char>>, flag: Seq<char>, value: Seq<char>) -> bool {
    exists|i: int| #[trigger] stands_behind(args, flag, value, i)
}

/// `flag` is argument `i`, and `value` the next one.
pub open spec fn stands_behind(
    args: Seq<Seq<char>>,
    flag: Seq<char>,
    value: Seq<char>,
    i: int,
) -> bool {
    0 <= i && i + 1 < args.len() && args[i] == flag && args[i + 1] == value
}

/// What stands before the class's first character, where the text is written
/// as a part without any and a rest that is empty or begins with one.
pub proof fn lemma_before_first(head: Seq<char>, rest: Seq<char>, class: CharClass)
    requires
        forall|i: int| 0 <= i < head.len() ==> !class.has(#[trigger] head[i]),
        rest.len() == 0 || class.has(rest[0]),
    ensures
        before_first(head + rest, class) == head,
{
    let s = head + rest;
    let n = span(s, class, false);
    lemma_span_bound(s, class, false);
    lemma_span_members(s, class, false);
    if n < head.len() {
        assert(s[n as int] == head[n as int]);
    }
    if n > head.len() {
        assert(s[head.len() as int] == rest[0]);
    }
    assert(s.take(n as int) =~= head);
}

/// What stands behind the class's last character, where the text is written as
/// a part that is empty or ends with one and a part without any.
pub proof fn lemma_after_last(head: Seq<char>, tail: Seq<char>, class: CharClass)
    requires
        forall|i: int| 0 <= i < tail.len() ==> !class.has(#[trigger] tail[i]),
        head.len() == 0 || class.has(head.last()),
    ensures
        after_last(head + tail, class) == tail,
{
    let s = head + tail;
    let n = span_back(s, class, false);
    lemma_span_bound(s, class, false);
    lemma_span_back_members(s, class, false);
    if n < tail.len() {
        assert(s[s.len() - 1 - n] == tail[tail.len() - 1 - n]);
    }
    if n > tail.len() {
        assert(s[head.len() - 1] == head.last());
        assert(s.len() - n <= head.len() - 1);
    }
    assert(s.skip(s.len() - n) =~= tail);
}

/// Trimming a text that is written as a core between characters of the class
/// gives the core.
pub proof fn lemma_trimmed_parts(
    head: Seq<char>,
    core: Seq<char>,
    tail: Seq<char>,
    class: CharClass,
)
    requires
        forall|i: int| 0 <= i < head.len() ==> class.has(#[trigger] head[i]),
        forall|i: int| 0 <= i < tail.len() ==> class.has(#[trigger] tail[i]),
        core.len() > 0,
        !class.has(core[0]),
        !class.has(core.last()),
    ensures
        trimmed_of(head + core + tail, class) == core,
{
    let s = head + core + tail;
    let n = span(s, class, true);
    lemma_span_bound(s, class, true);
    lemma_span_members(s, class, true);
    if n < head.len() {
        assert(s[n as int] == head[n as int]);
    }
    if n > head.len() {
        assert(s[head.len() as int] == core[0]);
    }
    let rest = trimmed_start(s, class);
    assert(rest =~= core + tail);
    let m = span_back(rest, class, true);
    lemma_span_bound(rest, class, true);
    lemma_span_back_members(rest, class, true);
    if m < tail.len() {
        assert(rest[rest.len() - 1 - m] == tail[tail.len() - 1 - m]);
    }
    if m > tail.len() {
        assert(rest[core.len() - 1] == core.last());
        assert(rest.len() - m <= core.len() - 1);
    }
    assert(rest.take(rest.len() - m) =~= core);
}

/// What the classes hold: the marks that end an identifier in a URL, both
/// quotation marks, and, of ASCII, the blank, the tab and the line breaks.
pub proof fn lemma_classes(c: char)
    ensures
        CharClass::UrlStop.has(c) <==> c == '?' || c == '&' || c == '/' || c == '#',
        CharClass::Quote.has(c) <==> c == '"' || c == '\'',
        CharClass::Exactly(c).has(c),
        c <= '\u{7f}' ==> (CharClass::Whitespace.has(c) <==> c == ' ' || c == '\t' || c == '\n' || c
            == '\r' || c == '\u{b}' || c == '\u{c}'),
        '\u{80}' <= c <= '\u{ff}' ==> (CharClass::Whitespace.has(c) <==> c == '\u{85}' || c
            == '\u{a0}'),
        c == '\u{1680}' || '\u{2000}' <= c <= '\u{200a}' || c == '\u{2028}' || c == '\u{2029}' || c
            == '\u{202f}' || c == '\u{205f}' || c == '\u{3000}' ==> CharClass::Whitespace.has(c),
        c == '\u{200b}' || c == '\u{feff}' ==> !CharClass::Whitespace.has(c),
{
}

/// Splitting at the first place gives the parts that the text is written with,
/// where the pattern stands nowhere before.
pub proof fn lemma_split_first_parts(head: Seq<char>, pat: Seq<char>, tail: Seq<char>)
    requires
        forall|j: int| 0 <= j < head.len() ==> !occurs_at(head + pat + tail, pat, j),
    ensures
        split_first(head + pat + tail, pat) == Some((head, tail)),
{
    let s = head + pat + tail;
    let n = head.len() as int;
    assert(s.subrange(n, n + pat.len()) =~= pat);
    assert(occurs_at(s, pat, n));
    assert(first_at(s, pat, n));
    let i = choose|i: int| first_at(s, pat, i);
    assert(first_at(s, pat, i));
    assert(i == n);
    assert(s.take(i) =~= head);
    assert(s.skip(i + pat.len()) =~= tail);
}

/// Splitting at the last place gives the parts that the text is written with,
/// where the pattern stands nowhere behind.
pub proof fn lemma_split_last_parts(head: Seq<char>, pat: Seq<char>, tail: Seq<char>)
    requires
        forall|j: int| head.len() < j ==> !occurs_at(head + pat + tail, pat, j),
    ensures
        split_last(head + pat + tail, pat) == Some((head, tail)),
{
    let s = head + pat + tail;
    let n = head.len() as int;
    assert(s.subrange(n, n + pat.len()) =~= pat);
    assert(occurs_at(s, pat, n));
    assert(last_at(s, pat, n));
    let i = choose|i: int| last_at(s, pat, i);
    assert(last_at(s, pat, i));
    assert(i == n);
    assert(s.take(i) =~= head);
    assert(s.skip(i + pat.len()) =~= tail);
}

/// Lower case keeps the length and every character but the ASCII capitals, and
/// gives the same again when applied twice.
pub proof fn lemma_lower_case(s: Seq<char>, i: int)
    requires
        0 <= i < s.len(),
    ensures
        ascii_lower(s).len() == s.len(),
        !('A' <= s[i] <= 'Z') ==> ascii_lower(s)[i] == s[i],
        'A' <= s[i] <= 'Z' ==> 'a' <= ascii_lower(s)[i] <= 'z' && ascii_lower(s)[i] as int - 'a' as int
            == s[i] as int - 'A' as int,
        ascii_lower(ascii_lower(s)) == ascii_lower(s),
{
    let low = ascii_lower(s);
    assert(ascii_lower(low) =~= low);
}

/// Taking the spaces out leaves none, keeps every other character in its order,
/// and changes nothing of a text that has none.
pub proof fn lemma_spaces_are_taken_out(s: Seq<char>, i: int)
    ensures
        !without_spaces(s).contains(' '),
        0 <= i < s.len() && s[i] != ' ' ==> without_spaces(s).contains(s[i]),
        !s.contains(' ') ==> without_spaces(s) == s,
    decreases s.len(),
{
    reveal(Seq::filter);
    if s.len() > 0 {
        let before = s.drop_last();
        lemma_spaces_are_taken_out(before, i);
        let kept = without_spaces(before);
        if s.last() != ' ' {
            assert(without_spaces(s) == kept.push(s.last()));
            assert forall|k: int| 0 <= k < kept.push(s.last()).len() implies kept.push(
                s.last(),
            )[k] != ' ' by {
                if k < kept.len() {
                    assert(kept.contains(kept[k]));
                }
            }
            if 0 <= i < before.len() && s[i] != ' ' {
                let k = kept.index_of(before[i]);
                assert(kept.push(s.last())[k] == s[i]);
            }
            if i == s.len() - 1 {
                assert(kept.push(s.last())[kept.len() as int] == s[i]);
            }
        } else {
            assert(without_spaces(s) == kept);
            assert(s.contains(s[s.len() - 1]));
            if 0 <= i < before.len() {
                assert(before[i] == s[i]);
            }
        }
        if !s.contains(' ') {
            assert forall|k: int| 0 <= k < before.len() implies before[k] != ' ' by {
                assert(s.contains(s[k]));
            }
            assert(kept.push(s.last()) =~= s);
        }
    } else {
        assert(without_spaces(s) =~= s);
    }
}

/// Joined texts stand one behind the other with the separator between each two.
pub proof fn lemma_joined_parts(parts: Seq<Seq<char>>, last: Seq<char>, sep: Seq<char>)
    ensures
        parts.len() > 0 ==> joined(parts.push(last), sep) == joined(parts, sep) + sep + last,
        joined(seq![last], sep) == last,
        joined(Seq::empty(), sep).len() == 0,
{
    assert(parts.push(last).drop_last() =~= parts);
}

/// A text starts with its beginning, ends with its end and holds its middle; and
/// one that starts or ends with another is written with it there.
pub proof fn lemma_parts_are_held(head: Seq<char>, middle: Seq<char>, tail: Seq<char>)
    ensures
        begins_with(head + tail, head),
        finishes_with(head + tail, tail),
        holds_text(head + middle + tail, middle),
        begins_with(middle, head) ==> middle == head + middle.skip(head.len() as int),
        finishes_with(middle, tail) ==> middle == middle.take(middle.len() - tail.len()) + tail,
{
    let s = head + tail;
    assert(s.subrange(0, head.len() as int) =~= head);
    assert(s.subrange(s.len() - tail.len(), s.len() as int) =~= tail);
    let t = head + middle + tail;
    let n = head.len() as int;
    assert(t.subrange(n, n + middle.len()) =~= middle);
    assert(occurs_at(t, middle, n));
    if begins_with(middle, head) {
        assert(middle =~= middle.subrange(0, n) + middle.skip(n));
    }
    if finishes_with(middle, tail) {
        let k = middle.len() - tail.len();
        assert(middle =~= middle.take(k) + middle.subrange(k, k + tail.len()));
    }
}

} // verus!
