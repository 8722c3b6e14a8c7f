//! Parses aria2 output lines and classifies the type of failure.
use vstd::prelude::*;
use crate::regexes;

verus! {

/// The kinds of failure that aria2's output shows.
#[derive(Debug, Clone, Copy, PartialEq, Eq, Hash, Structural)]
pub enum ErrorCode {
    NoError,
    Forbidden403,
    NotFound404,
    RedirectErr,
    SslError,
    Timeout,
    Network,
    Checksum,
    Unknown,
}

impl ErrorCode {
    /// The short name of a code.
    pub open spec fn name(self) -> Seq<char> {
        match self {
            ErrorCode::NoError => "none"@,
            ErrorCode::Forbidden403 => "403"@,
            ErrorCode::NotFound404 => "404"@,
            ErrorCode::RedirectErr => "redirect"@,
            ErrorCode::SslError => "ssl"@,
            ErrorCode::Timeout => "timeout"@,
            ErrorCode::Network => "network"@,
            ErrorCode::Checksum => "checksum"@,
            ErrorCode::Unknown => "unknown"@,
        }
    }

    /// The place of a code in the order of urgency; the most urgent is 0.
    pub open spec fn rank(self) -> int {
        match self {
            ErrorCode::Forbidden403 => 0,
            ErrorCode::RedirectErr => 1,
            ErrorCode::NotFound404 => 2,
            ErrorCode::SslError => 3,
            ErrorCode::Timeout => 4,
            ErrorCode::Network => 5,
            ErrorCode::Checksum => 6,
            ErrorCode::Unknown => 7,
            ErrorCode::NoError => 8,
        }
    }

    /// The short name of a code.
    pub fn as_str(&self) -> (r: &'static str)
        ensures
            r@ == self.name(),
    {
        match self {
            ErrorCode::NoError => "none",
            ErrorCode::Forbidden403 => "403",
            ErrorCode::NotFound404 => "404",
            ErrorCode::RedirectErr => "redirect",
            ErrorCode::SslError => "ssl",
            ErrorCode::Timeout => "timeout",
            ErrorCode::Network => "network",
            ErrorCode::Checksum => "checksum",
            ErrorCode::Unknown => "unknown",
        }
    }
}

/// The rules in the order in which a line is tried against them: a pattern and
/// the code that a line it matches stands for.
pub open spec fn rules() -> Seq<(Seq<char>, ErrorCode)> {
    seq![
        (r"status=403|errorCode=22.*403|HTTP/[\d.]* 403"@, ErrorCode::Forbidden403),
        (r"status=404|HTTP/[\d.]* 404|Not Found"@, ErrorCode::NotFound404),
        (r"(?i)Redirecting to.*\b(403|404|error|login|auth)\b"@, ErrorCode::RedirectErr),
        (r"errorCode=22"@, ErrorCode::RedirectErr),
        (r"(?i)SSL|TLS|certificate|handshake"@, ErrorCode::SslError),
        (r"(?i)timed?\s?out|ETIMEDOUT|Connection reset"@, ErrorCode::Timeout),
        (r"(?i)ENETUNREACH|ECONNREFUSED|Network is unreachable"@, ErrorCode::Network),
        (r"(?i)checksum|CRC|hash mismatch"@, ErrorCode::Checksum),
        (r"\bERROR\b|\berror\b"@, ErrorCode::Unknown),
    ]
}

/// The code of the first rule, from rule `from` on, whose pattern matches the line.
pub open spec fn code_from(line: Seq<char>, from: int) -> Option<ErrorCode>
    decreases rules().len() - from,
{
    if from < 0 || from >= rules().len() {
        None
    } else if regexes::finds(rules()[from].0, line) {
        Some(rules()[from].1)
    } else {
        code_from(line, from + 1)
    }
}

/// The code of the first rule whose pattern matches the line.
pub open spec fn line_code(line: Seq<char>) -> Option<ErrorCode> {
    code_from(line, 0)
}

/// `i` is the first rule whose pattern matches the line.
pub open spec fn is_first_rule(line: Seq<char>, i: int) -> bool {
    &&& 0 <= i < rules().len()
    &&& regexes::finds(rules()[i].0, line)
    &&& forall|j: int| 0 <= j < i ==> !regexes::finds((#[trigger] rules()[j]).0, line)
}

/// Finds the first rule whose pattern matches the line.
pub fn rule_of_line(line: &str) -> (r: Option<usize>)
    ensures
        match r {
            Some(i) => is_first_rule(line@, i as int) && line_code(line@) == Some(
                rules()[i as int].1,
            ),
            None => line_code(line@) is None && (forall|j: int|
                0 <= j < rules().len() ==> !regexes::finds((#[trigger] rules()[j]).0, line@)),
        },
{
    let patterns: [&str; 9] = [
        r"status=403|errorCode=22.*403|HTTP/[\d.]* 403",
        r"status=404|HTTP/[\d.]* 404|Not Found",
        r"(?i)Redirecting to.*\b(403|404|error|login|auth)\b",
        r"errorCode=22",
        r"(?i)SSL|TLS|certificate|handshake",
        r"(?i)timed?\s?out|ETIMEDOUT|Connection reset",
        r"(?i)ENETUNREACH|ECONNREFUSED|Network is unreachable",
        r"(?i)checksum|CRC|hash mismatch",
        r"\bERROR\b|\berror\b",
    ];
    let mut i: usize = 0;
    while i < 9
        invariant
            i <= 9,
            forall|k: int| 0 <= k < 9 ==> (#[trigger] patterns@[k])@ == rules()[k].0,
            forall|j: int| 0 <= j < i ==> !regexes::finds((#[trigger] rules()[j]).0, line@),
            line_code(line@) == code_from(line@, i as int),
        decreases 9 - i,
    {
        assert(patterns@[i as int]@ == rules()[i as int].0);
        if regexes::search(patterns[i], line) {
            return Some(i);
        }
        i = i + 1;
    }
    None
}

/// The code that a rule stands for; `None` where there is no such rule.
pub fn code_of_rule(rule: usize) -> (r: Option<ErrorCode>)
    ensures
        r == (if rule < rules().len() {
            Some(rules()[rule as int].1)
        } else {
            None
        }),
{
    let codes: [ErrorCode; 9] = [
        ErrorCode::Forbidden403,
        ErrorCode::NotFound404,
        ErrorCode::RedirectErr,
        ErrorCode::RedirectErr,
        ErrorCode::SslError,
        ErrorCode::Timeout,
        ErrorCode::Network,
        ErrorCode::Checksum,
        ErrorCode::Unknown,
    ];
    if rule < 9 {
        Some(codes[rule])
    } else {
        None
    }
}

/// The code of the first rule whose pattern matches the line.
pub fn code_of_line(line: &str) -> (r: Option<ErrorCode>)
    ensures
        r == line_code(line@),
{
    match rule_of_line(line) {
        Some(rule) => code_of_rule(rule),
        None => None,
    }
}

/// `code` is the most urgent of the codes seen; `ErrorCode::NoError` where there are none.
pub open spec fn is_most_urgent(seen: Set<ErrorCode>, code: ErrorCode) -> bool {
    &&& code == ErrorCode::NoError || seen.contains(code)
    &&& forall|other: ErrorCode| seen.contains(other) ==> code.rank() <= other.rank()
}

/// Collects the failures that a run's output lines show.
pub struct ErrorClassifier {
    seen: Vec<ErrorCode>,
}

impl View for ErrorClassifier {
    type V = Set<ErrorCode>;

    closed spec fn view(&self) -> Set<ErrorCode> {
        self.seen@.to_set()
    }
}

impl ErrorClassifier {
    /// No code is held twice.
    pub closed spec fn wf(&self) -> bool {
        self.seen@.no_duplicates()
    }

    /// A classifier that has seen nothing.
    pub fn new() -> (r: Self)
        ensures
            r.wf(),
            r@ == Set::<ErrorCode>::empty(),
    {
        let r = ErrorClassifier { seen: Vec::new() };
        assert(r@ =~= Set::<ErrorCode>::empty());
        r
    }

    /// Whether a code has been seen.
    pub fn has_seen(&self, code: ErrorCode) -> (r: bool)
        ensures
            r == self@.contains(code),
    {
        let mut i: usize = 0;
        while i < self.seen.len()
            invariant
                i <= self.seen@.len(),
                forall|k: int| 0 <= k < i ==> self.seen@[k] != code,
            decreases self.seen@.len() - i,
        {
            if self.seen[i] == code {
                assert(self.seen@.contains(self.seen@[i as int]));
                return true;
            }
            i = i + 1;
        }
        false
    }

    /// Adds a code, if there is one.
    pub fn note(&mut self, code: Option<ErrorCode>)
        requires
            old(self).wf(),
        ensures
            final(self).wf(),
            final(self)@ == (match code {
                Some(c) => old(self)@.insert(c),
                None => old(self)@,
            }),
    {
        if let Some(c) = code {
            if !self.has_seen(c) {
                let ghost before = self.seen@;
                self.seen.push(c);
                proof {
                    assert(!before.contains(c));
                    assert forall|x: ErrorCode| self.seen@.contains(x) <==> (before.contains(x) || x == c) by {
                        if before.contains(x) {
                            let k = before.index_of(x);
                            assert(self.seen@[k] == x);
                        }
                        if x == c {
                            assert(self.seen@[before.len() as int] == c);
                        }
                    }
                    assert(self.seen@.to_set() =~= before.to_set().insert(c));
                }
            } else {
                assert(self@ =~= old(self)@.insert(c));
            }
        }
    }

    /// Takes in one cleaned (ANSI-stripped) output line.
    pub fn feed(&mut self, line: &str)
        requires
            old(self).wf(),
        ensures
            final(self).wf(),
            final(self)@ == (match line_code(line@) {
                Some(c) => old(self)@.insert(c),
                None => old(self)@,
            }),
    {
        let code = code_of_line(line);
        self.note(code);
    }

    /// The most urgent failure seen so far.
    pub fn classify(&self) -> (r: ErrorCode)
        ensures
            is_most_urgent(self@, r),
    {
        if self.has_seen(ErrorCode::Forbidden403) {
            ErrorCode::Forbidden403
        } else if self.has_seen(ErrorCode::RedirectErr) {
            ErrorCode::RedirectErr
        } else if self.has_seen(ErrorCode::NotFound404) {
            ErrorCode::NotFound404
        } else if self.has_seen(ErrorCode::SslError) {
            ErrorCode::SslError
        } else if self.has_seen(ErrorCode::Timeout) {
            ErrorCode::Timeout
        } else if self.has_seen(ErrorCode::Network) {
            ErrorCode::Network
        } else if self.has_seen(ErrorCode::Checksum) {
            ErrorCode::Checksum
        } else if self.has_seen(ErrorCode::Unknown) {
            ErrorCode::Unknown
        } else {
            ErrorCode::NoError
        }
    }
}

/// The most urgent code is unique: the answer depends on which codes were
/// seen, and on neither their order nor their number.
pub proof fn lemma_most_urgent_is_unique(seen: Set<ErrorCode>, a: ErrorCode, b: ErrorCode)
    requires
        is_most_urgent(seen, a),
        is_most_urgent(seen, b),
    ensures
        a == b,
{
}

/// The codes of the lines fed so far, as the classifier collects them.
pub open spec fn fed(lines: Seq<Seq<char>>) -> Set<ErrorCode>
    decreases lines.len(),
{
    if lines.len() == 0 {
        Set::empty()
    } else {
        match line_code(lines.last()) {
            Some(c) => fed(lines.drop_last()).insert(c),
            None => fed(lines.drop_last()),
        }
    }
}

/// A further line never makes the classification less urgent.
pub proof fn lemma_feeding_never_calms(seen: Set<ErrorCode>, line: Seq<char>, before: ErrorCode, after: ErrorCode)
    requires
        is_most_urgent(seen, before),
        is_most_urgent(
            match line_code(line) {
                Some(c) => seen.insert(c),
                None => seen,
            },
            after,
        ),
    ensures
        after.rank() <= before.rank(),
{
    let more = match line_code(line) {
        Some(c) => seen.insert(c),
        None => seen,
    };
    if before != ErrorCode::NoError {
        assert(more.contains(before));
    }
}

/// A code is collected exactly if some line stands for it.
pub proof fn lemma_fed_collects_line_codes(lines: Seq<Seq<char>>, code: ErrorCode)
    ensures
        fed(lines).contains(code) <==> exists|i: int|
            0 <= i < lines.len() && line_code(#[trigger] lines[i]) == Some(code),
    decreases lines.len(),
{
    if lines.len() > 0 {
        lemma_fed_collects_line_codes(lines.drop_last(), code);
        assert forall|i: int| 0 <= i < lines.len() - 1 implies lines[i] == #[trigger] lines.drop_last()[i] by {}
        if line_code(lines.last()) == Some(code) {
            assert(line_code(lines[lines.len() - 1]) == Some(code));
        }
        if exists|i: int| 0 <= i < lines.len() && line_code(#[trigger] lines[i]) == Some(code) {
            let i = choose|i: int| 0 <= i < lines.len() && line_code(#[trigger] lines[i]) == Some(code);
            if i < lines.len() - 1 {
                assert(line_code(lines.drop_last()[i]) == Some(code));
            }
        }
        if fed(lines.drop_last()).contains(code) {
            let i = choose|i: int| 0 <= i < lines.drop_last().len() && line_code(#[trigger] lines.drop_last()[i]) == Some(code);
            assert(line_code(lines[i]) == Some(code));
        }
    }
}

/// The order and the number of the lines make no difference to what is collected.
pub proof fn lemma_fed_ignores_order(a: Seq<Seq<char>>, b: Seq<Seq<char>>)
    requires
        a.to_set() == b.to_set(),
    ensures
        fed(a) == fed(b),
{
    assert forall|code: ErrorCode| fed(a).contains(code) == fed(b).contains(code) by {
        lemma_fed_collects_line_codes(a, code);
        lemma_fed_collects_line_codes(b, code);
        if fed(a).contains(code) {
            let i = choose|i: int| 0 <= i < a.len() && line_code(#[trigger] a[i]) == Some(code);
            assert(a.to_set().contains(a[i]));
            assert(b.contains(a[i]));
        }
        if fed(b).contains(code) {
            let i = choose|i: int| 0 <= i < b.len() && line_code(#[trigger] b[i]) == Some(code);
            assert(b.to_set().contains(b[i]));
            assert(a.contains(b[i]));
        }
    }
    assert(fed(a) =~= fed(b));
}

/// What the classification says, code by code: a refused access before a failed
/// redirect, that before a missing file, and so on down to an error of no known
/// kind; no error only where none was seen.
pub proof fn lemma_order_of_urgency(seen: Set<ErrorCode>, r: ErrorCode)
    requires
        is_most_urgent(seen, r),
    ensures
        ({
            let forbidden = seen.contains(ErrorCode::Forbidden403);
            let redirect = seen.contains(ErrorCode::RedirectErr);
            let missing = seen.contains(ErrorCode::NotFound404);
            let ssl = seen.contains(ErrorCode::SslError);
            let timeout = seen.contains(ErrorCode::Timeout);
            let network = seen.contains(ErrorCode::Network);
            let checksum = seen.contains(ErrorCode::Checksum);
            let unknown = seen.contains(ErrorCode::Unknown);
            &&& r == ErrorCode::Forbidden403 <==> forbidden
            &&& r == ErrorCode::RedirectErr <==> redirect && !forbidden
            &&& r == ErrorCode::NotFound404 <==> missing && !forbidden && !redirect
            &&& r == ErrorCode::SslError <==> ssl && !forbidden && !redirect && !missing
            &&& r == ErrorCode::Timeout <==> timeout && !forbidden && !redirect && !missing && !ssl
            &&& r == ErrorCode::Network <==> network && !forbidden && !redirect && !missing && !ssl
                && !timeout
            &&& r == ErrorCode::Checksum <==> checksum && !forbidden && !redirect && !missing
                && !ssl && !timeout && !network
            &&& r == ErrorCode::Unknown <==> unknown && !forbidden && !redirect && !missing && !ssl
                && !timeout && !network && !checksum
        }),
{
}

/// What a line stands for, by the patterns that match it: a status before a
/// redirect, and so on; a bare error only where nothing more is said.
pub proof fn lemma_codes_of_lines(line: Seq<char>)
    ensures
        ({
            let code = line_code(line);
            let forbidden = regexes::finds(r"status=403|errorCode=22.*403|HTTP/[\d.]* 403"@, line);
            let missing = regexes::finds(r"status=404|HTTP/[\d.]* 404|Not Found"@, line);
            let redirect = regexes::finds(
                r"(?i)Redirecting to.*\b(403|404|error|login|auth)\b"@,
                line,
            ) || regexes::finds(r"errorCode=22"@, line);
            let ssl = regexes::finds(r"(?i)SSL|TLS|certificate|handshake"@, line);
            let timeout = regexes::finds(r"(?i)timed?\s?out|ETIMEDOUT|Connection reset"@, line);
            let network = regexes::finds(
                r"(?i)ENETUNREACH|ECONNREFUSED|Network is unreachable"@,
                line,
            );
            let checksum = regexes::finds(r"(?i)checksum|CRC|hash mismatch"@, line);
            let error = regexes::finds(r"\bERROR\b|\berror\b"@, line);
            &&& code == Some(ErrorCode::Forbidden403) <==> forbidden
            &&& code == Some(ErrorCode::NotFound404) <==> missing && !forbidden
            &&& code == Some(ErrorCode::RedirectErr) <==> redirect && !forbidden && !missing
            &&& code == Some(ErrorCode::SslError) <==> ssl && !forbidden && !missing && !redirect
            &&& code == Some(ErrorCode::Timeout) <==> timeout && !forbidden && !missing && !redirect
                && !ssl
            &&& code == Some(ErrorCode::Network) <==> network && !forbidden && !missing && !redirect
                && !ssl && !timeout
            &&& code == Some(ErrorCode::Checksum) <==> checksum && !forbidden && !missing
                && !redirect && !ssl && !timeout && !network
            &&& code == Some(ErrorCode::Unknown) <==> error && !forbidden && !missing && !redirect
                && !ssl && !timeout && !network && !checksum
            &&& code is None <==> !forbidden && !missing && !redirect && !ssl && !timeout
                && !network && !checksum && !error
            &&& code != Some(ErrorCode::NoError)
        }),
{
    reveal_with_fuel(code_from, 11);
}

/// No two codes share a name, and the two HTTP codes are named by their numbers.
pub proof fn lemma_names_tell_codes_apart(a: ErrorCode, b: ErrorCode)
    requires
        a.name() == b.name(),
    ensures
        a == b,
        a.name() == "403"@ <==> a == ErrorCode::Forbidden403,
        a.name() == "404"@ <==> a == ErrorCode::NotFound404,
        a.name() == "none"@ <==> a == ErrorCode::NoError,
        a.name() == "unknown"@ <==> a == ErrorCode::Unknown,
{
    reveal_strlit("none");
    reveal_strlit("403");
    reveal_strlit("404");
    reveal_strlit("redirect");
    reveal_strlit("ssl");
    reveal_strlit("timeout");
    reveal_strlit("network");
    reveal_strlit("checksum");
    reveal_strlit("unknown");
    assert("none"@.len() == 4 && "403"@.len() == 3 && "404"@.len() == 3 && "redirect"@.len() == 8);
    assert("ssl"@.len() == 3 && "timeout"@.len() == 7 && "network"@.len() == 7 && "checksum"@.len()
        == 8 && "unknown"@.len() == 7);
    assert("403"@[2] == '3' && "404"@[2] == '4' && "ssl"@[2] == 'l');
    assert("timeout"@[0] == 't' && "network"@[0] == 'n' && "unknown"@[0] == 'u');
    assert("redirect"@[0] == 'r' && "checksum"@[0] == 'c');
}

} // verus!
