//! Reads aria2's console output and builds its command line.
use vstd::prelude::*;
use vstd::string::*;
use vstd::utf8::*;
use std::collections::VecDeque;
use crate::classifier::ErrorCode;
use crate::numbers;
use crate::regexes;
use crate::strategy::Strategy;
use crate::text;
use crate::text::CharClass;
use crate::unicode;

verus! {

/// The size, in bytes, beyond which a diagnostic is cut off.
pub const MAX_DIAGNOSTIC_CHARS: usize = 1_200;

/// The number of output lines that are remembered.
pub const MAX_LINES: usize = 60;

/// Terminal escape sequences.
pub const ANSI_RE: &'static str = r"\x1b\[[0-9;]*[mGKHF]|\x1b\][^\x07]*\x07";

/// A readout of the console: the download's id and what is said of it.
pub const PROGRESS_RE: &'static str = r"\[#(?P<gid>\S+)\s+(?P<body>[^\]]+)\]";

/// The bytes done, the total and the percentage in a readout.
pub const SIZE_PAIR_RE: &'static str = r"(?P<done>[\d.]+\s*(?:[KMGTP]?i?B|[KMGTP]?B|B))(?:/(?P<total>[\d.]+\s*(?:[KMGTP]?i?B|[KMGTP]?B|B)|\?+))?(?:\((?P<pct>[\d.]+)%\))?";

/// The speed in a readout.
pub const SPEED_RE: &'static str = r"\bDL:(?P<speed>[\d.]+\s*(?:[KMGTP]?i?B|[KMGTP]?B|B))";

/// The remaining time in a readout.
pub const ETA_RE: &'static str = r"\bETA:(?P<eta>[^\s\]]+)";

/// The line that names a completed file.
pub const COMPLETE_RE: &'static str = r"(?i)download complete:\s*(?P<path>.+)$";

/// A written size: digits and a unit.
pub const BYTES_RE: &'static str = r"(?i)^([\d.]+)([KMGTP]?i?B|[KMGTP]?B|B)$";

/// The number of bytes of a character in UTF-8.
pub open spec fn char_width(c: char) -> nat {
    encode_scalar(c as u32).len()
}

/// The number of leading characters of `s` that start before the size limit of
/// a diagnostic, where `s` itself starts at byte `start`.
pub open spec fn kept_chars(s: Seq<char>, start: nat) -> nat
    decreases s.len(),
{
    if s.len() == 0 || start >= MAX_DIAGNOSTIC_CHARS {
        0
    } else {
        1 + kept_chars(s.skip(1), start + char_width(s[0]))
    }
}

/// A diagnostic text: without white space at its ends, and cut off with three
/// dots where it is longer than the size limit.
pub open spec fn diagnostic(s: Seq<char>) -> Seq<char> {
    let clean = text::trimmed(s);
    if text::byte_len(clean) <= MAX_DIAGNOSTIC_CHARS {
        clean
    } else {
        clean.take(kept_chars(clean, 0) as int) + "..."@
    }
}

fn width_of(c: char) -> (r: usize)
    ensures
        r == char_width(c),
        1 <= r <= 4,
{
    let v = c as u32;
    proof {
        char_is_scalar(c);
    }
    if v <= 0x7f {
        1
    } else if v <= 0x7ff {
        2
    } else if v <= 0xffff {
        3
    } else {
        4
    }
}

fn kept_chars_of(s: &str) -> (r: usize)
    ensures
        r == kept_chars(s@, 0),
        r <= s@.len(),
{
    let chars = text::chars_of(s);
    let mut n: usize = 0;
    let mut start: usize = 0;
    assert(s@.skip(0) =~= s@);
    while n < chars.len() && start < MAX_DIAGNOSTIC_CHARS
        invariant
            chars@ == s@,
            n <= chars@.len(),
            start < MAX_DIAGNOSTIC_CHARS + 4,
            kept_chars(s@, 0) == n + kept_chars(s@.skip(n as int), start as nat),
        decreases chars@.len() - n,
    {
        let w = width_of(chars[n]);
        assert(s@.skip(n as int).skip(1) =~= s@.skip(n + 1));
        start = start + w;
        n = n + 1;
    }
    n
}

/// Trims a diagnostic text and cuts it off at the size limit.
pub fn trim_diagnostic(s: &str) -> (r: String)
    ensures
        r@ == diagnostic(s@),
{
    let clean = text::trim(s);
    if clean.as_str().as_bytes().len() <= MAX_DIAGNOSTIC_CHARS {
        return clean;
    }
    let n = kept_chars_of(clean.as_str());
    let head = text::cut(clean.as_str(), 0, n);
    text::concat2(head.as_str(), "...")
}

/// Describes how a program ended: its exit status and what it wrote.
pub fn output_text(status: &str, stdout: &[u8], stderr: &[u8]) -> (r: String)
    ensures
        r@ == diagnostic(
            "exit="@ + status@ + "; stdout="@ + text::trimmed(unicode::utf8_lossy(stdout@))
                + "; stderr="@ + text::trimmed(unicode::utf8_lossy(stderr@)),
        ),
{
    let out_raw = unicode::from_utf8_lossy(stdout);
    let err_raw = unicode::from_utf8_lossy(stderr);
    let out = text::trim(out_raw.as_str());
    let err = text::trim(err_raw.as_str());
    let head = text::concat4("exit=", status, "; stdout=", out.as_str());
    let all = text::concat3(head.as_str(), "; stderr=", err.as_str());
    trim_diagnostic(all.as_str())
}

/// The file name that a URL suggests: the last path component before the
/// query, unless it is blank or holds a colon.
pub open spec fn url_file_name(url: Seq<char>) -> Option<Seq<char>> {
    let slash = CharClass::Exactly('/');
    let path = text::trimmed_end(text::before_first(url, CharClass::Exactly('?')), slash);
    let leaf = text::trimmed(text::after_last(path, slash));
    if leaf.len() == 0 || text::holds_text(leaf, "://"@) || leaf.contains(':') {
        None
    } else {
        Some(leaf)
    }
}

/// Suggests a file name for a URL.
pub fn filename_hint_from_url(url: &str) -> (r: Option<String>)
    ensures
        text::opt_text(r) == url_file_name(url@),
{
    let slash = CharClass::Exactly('/');
    let before_query = text::before_first_of(url, CharClass::Exactly('?'));
    let path = text::trim_end_of(before_query.as_str(), slash);
    let last = text::after_last_of(path.as_str(), slash);
    let leaf = text::trim(last.as_str());
    if leaf.as_str().is_empty() || text::contains(leaf.as_str(), "://") || text::contains_char(
        leaf.as_str(),
        ':',
    ) {
        None
    } else {
        Some(leaf)
    }
}

/// The file name to show for a path, given the path's last component where it
/// has one that is text.
pub fn file_name_from_path(file_name: Option<&str>) -> (r: String)
    ensures
        r@ == (match file_name {
            Some(name) => name@,
            None => "download"@,
        }),
        file_name matches Some(name) ==> r@ == name@,
{
    match file_name {
        Some(name) => name.to_owned(),
        None => "download".to_owned(),
    }
}

/// The name below the download directory under which a download is expected.
pub open spec fn target_name(url: Seq<char>, custom: Option<Seq<char>>) -> Option<Seq<char>> {
    match custom {
        Some(name) => Some(name),
        None => url_file_name(url),
    }
}

/// The name below the download directory under which a download is expected:
/// the name that the user gave, else the one that the URL suggests.
pub fn known_target_path(url: &str, custom_filename: Option<&str>) -> (r: Option<String>)
    ensures
        text::opt_text(r) == target_name(url@, text::opt_str(custom_filename)),
{
    match custom_filename {
        Some(name) => Some(name.to_owned()),
        None => filename_hint_from_url(url),
    }
}

/// Whether a file with the given extension is one of aria2's control files.
pub fn is_control_file(extension: Option<&str>) -> (r: bool)
    ensures
        r == (match extension {
            Some(ext) => text::ascii_lower(ext@) == text::ascii_lower("aria2"@),
            None => false,
        }),
{
    match extension {
        Some(ext) => text::eq_ignore_ascii_case(ext, "aria2"),
        None => false,
    }
}

/// The control file that aria2 keeps beside a download.
pub fn control_file_of(path: &str) -> (r: String)
    ensures
        r@ == path@ + ".aria2"@,
{
    text::concat2(path, ".aria2")
}

/// A line without its ANSI escape sequences and the white space at its ends.
pub open spec fn cleaned(raw: Seq<char>) -> Seq<char> {
    text::trimmed(
        if regexes::regex_compiles(ANSI_RE@) {
            regexes::regex_replace_all(ANSI_RE@, raw, ""@)
        } else {
            raw
        },
    )
}

/// Cleans an output line.
pub fn clean_output_line(raw: &str) -> (r: String)
    ensures
        r@ == cleaned(raw@),
{
    match regexes::replace_all(ANSI_RE, raw, "") {
        Ok(plain) => text::trim(plain.as_str()),
        Err(_) => text::trim(raw),
    }
}

/// The path in the last column of aria2's result table, where the line is a
/// row of it that says `OK`.
pub open spec fn table_path(line: Seq<char>) -> Option<Seq<char>> {
    let last = text::trimmed(text::after_last(line, CharClass::Exactly('|')));
    if (text::holds_text(line, "|OK|"@) || text::holds_text(line, "|OK "@)) && last.len() > 0 {
        Some(last)
    } else {
        None
    }
}

/// The path that a line reports as complete, where `groups` are the groups of
/// the completion pattern in it.
pub open spec fn path_of_groups(
    groups: Option<Seq<Option<Seq<char>>>>,
    line: Seq<char>,
) -> Option<Seq<char>> {
    match groups {
        None => table_path(line),
        Some(g) => match regexes::group_of(g, 1) {
            None => None,
            Some(p) => {
                let path = text::trimmed_of(text::trimmed(p), CharClass::Exactly('"'));
                if path.len() > 0 {
                    Some(path)
                } else {
                    table_path(line)
                }
            },
        },
    }
}

/// The path that a line reports as complete.
pub open spec fn completed_path(line: Seq<char>) -> Option<Seq<char>> {
    path_of_groups(regexes::found_groups(COMPLETE_RE@, line), line)
}

fn table_path_of(line: &str) -> (r: Option<String>)
    ensures
        text::opt_text(r) == table_path(line@),
{
    if text::contains(line, "|OK|") || text::contains(line, "|OK ") {
        let last = text::after_last_of(line, CharClass::Exactly('|'));
        let path = text::trim(last.as_str());
        if !path.as_str().is_empty() {
            return Some(path);
        }
    }
    None
}

/// Reads the completed path out of the completion pattern's groups and the line.
pub fn completed_path_of_groups(groups: Option<Vec<Option<String>>>, line: &str) -> (r: Option<
    String,
>)
    ensures
        text::opt_text(r) == path_of_groups(regexes::captures_view(groups), line@),
{
    match groups {
        None => table_path_of(line),
        Some(g) => match regexes::group(&g, 1) {
            None => None,
            Some(p) => {
                let p = text::trim(p.as_str());
                let path = text::trim_of(p.as_str(), CharClass::Exactly('"'));
                if !path.as_str().is_empty() {
                    Some(path)
                } else {
                    table_path_of(line)
                }
            },
        },
    }
}

/// Reads the path that a line reports as complete.
pub fn parse_completed_path(line: &str) -> (r: Option<String>)
    ensures
        text::opt_text(r) == completed_path(line@),
{
    let groups = regexes::find_groups(COMPLETE_RE, line);
    completed_path_of_groups(groups, line)
}

/// What a line says about the cause of a failure.
pub open spec fn line_summary(line: Seq<char>) -> Option<Seq<char>> {
    let lower = text::ascii_lower(line);
    if text::holds_text(lower, "status=403"@) || text::holds_text(lower, " 403"@) {
        Some("HTTP 403 forbidden"@)
    } else if text::holds_text(lower, "status=404"@) || text::holds_text(lower, " 404"@)
        || text::holds_text(lower, "not found"@) {
        Some("HTTP 404 not found"@)
    } else if text::holds_text(lower, "certificate"@) || text::holds_text(lower, "tls"@)
        || text::holds_text(lower, "ssl"@) {
        Some("TLS certificate error"@)
    } else if text::holds_text(lower, "timed out"@) || text::holds_text(lower, "timeout"@) {
        Some("network timeout"@)
    } else if text::holds_text(lower, "error"@) || text::holds_text(lower, "failed"@) {
        Some(diagnostic(line))
    } else {
        None
    }
}

/// Summarises what a line says about the cause of a failure.
pub fn failure_summary(line: &str) -> (r: Option<String>)
    ensures
        text::opt_text(r) == line_summary(line@),
{
    let lowered = text::to_ascii_lowercase(line);
    let lower = lowered.as_str();
    if text::contains(lower, "status=403") || text::contains(lower, " 403") {
        Some("HTTP 403 forbidden".to_owned())
    } else if text::contains(lower, "status=404") || text::contains(lower, " 404")
        || text::contains(lower, "not found") {
        Some("HTTP 404 not found".to_owned())
    } else if text::contains(lower, "certificate") || text::contains(lower, "tls")
        || text::contains(lower, "ssl") {
        Some("TLS certificate error".to_owned())
    } else if text::contains(lower, "timed out") || text::contains(lower, "timeout") {
        Some("network timeout".to_owned())
    } else if text::contains(lower, "error") || text::contains(lower, "failed") {
        Some(trim_diagnostic(line))
    } else {
        None
    }
}

/// The summary of the last line that has one.
pub open spec fn last_summary(lines: Seq<Seq<char>>) -> Option<Seq<char>>
    decreases lines.len(),
{
    if lines.len() == 0 {
        None
    } else {
        match line_summary(lines.last()) {
            Some(summary) => Some(summary),
            None => last_summary(lines.drop_last()),
        }
    }
}

/// The last four lines, the newest first, on one line.
pub open spec fn recent_output(lines: Seq<Seq<char>>) -> Seq<char> {
    let n = if lines.len() < 4 {
        lines.len() as int
    } else {
        4
    };
    text::joined(lines.skip(lines.len() - n).reverse(), " | "@)
}

/// Why an attempt failed: the summary of the last line that has one, else the
/// classified error and the last lines of output; with the exit code, if there
/// was one.
pub open spec fn failure_detail(
    code: ErrorCode,
    exit_code: Option<i32>,
    lines: Seq<Seq<char>>,
) -> Seq<char> {
    let recent = recent_output(lines);
    match (last_summary(lines), exit_code) {
        (Some(summary), Some(exit)) => summary + "; exit code "@ + numbers::signed_decimal(
            exit as int,
        ),
        (Some(summary), None) => summary,
        (None, _) => {
            let head = "aria2 failed; error="@ + code.name() + (match exit_code {
                Some(exit) => "; exit code "@ + numbers::signed_decimal(exit as int),
                None => Seq::empty(),
            });
            if recent.len() == 0 {
                head
            } else {
                head + "; recent output: "@ + diagnostic(recent)
            }
        },
    }
}

fn last_summary_of(lines: &VecDeque<String>) -> (r: Option<String>)
    ensures
        text::opt_text(r) == last_summary(text::texts(lines@)),
{
    let ghost all = text::texts(lines@);
    let mut n: usize = lines.len();
    assert(all.take(n as int) =~= all);
    while n > 0
        invariant
            all == text::texts(lines@),
            n <= lines@.len(),
            last_summary(all) == last_summary(all.take(n as int)),
        decreases n,
    {
        let summary = failure_summary(lines[n - 1].as_str());
        assert(all.take(n as int).last() == lines@[n - 1]@);
        assert(all.take(n as int).drop_last() =~= all.take(n - 1));
        if summary.is_some() {
            return summary;
        }
        n = n - 1;
    }
    None
}

fn recent_output_of(lines: &VecDeque<String>) -> (r: String)
    ensures
        r@ == recent_output(text::texts(lines@)),
{
    let ghost all = text::texts(lines@);
    let len = lines.len();
    let count: usize = if len < 4 {
        len
    } else {
        4
    };
    let mut newest: Vec<String> = Vec::new();
    let mut i: usize = 0;
    while i < count
        invariant
            len == lines@.len(),
            count <= len,
            i <= count,
            newest@.len() == i,
            forall|k: int| 0 <= k < i ==> (#[trigger] newest@[k])@ == lines@[len - 1 - k]@,
        decreases count - i,
    {
        newest.push(lines[len - 1 - i].clone());
        i = i + 1;
    }
    assert(text::texts(newest@) =~= all.skip(len - count).reverse());
    text::join(&newest, " | ")
}

/// Explains why an attempt failed.
pub fn build_failure_detail(
    code: &ErrorCode,
    exit_code: Option<i32>,
    lines: &VecDeque<String>,
) -> (r: String)
    ensures
        r@ == failure_detail(*code, exit_code, text::texts(lines@)),
{
    if let Some(summary) = last_summary_of(lines) {
        return match exit_code {
            Some(exit) => {
                let number = numbers::signed_text(exit);
                text::concat3(summary.as_str(), "; exit code ", number.as_str())
            },
            None => summary,
        };
    }
    let recent = recent_output_of(lines);
    let mut out = text::concat2("aria2 failed; error=", code.as_str());
    if let Some(exit) = exit_code {
        let number = numbers::signed_text(exit);
        out.append("; exit code ");
        out.append(number.as_str());
    }
    if !recent.as_str().is_empty() {
        let shown = trim_diagnostic(recent.as_str());
        out.append("; recent output: ");
        out.append(shown.as_str());
    }
    out
}

/// The remembered lines after one more: an empty line is not remembered, and
/// the oldest ones give way.
pub open spec fn remembered(lines: Seq<Seq<char>>, line: Seq<char>) -> Seq<Seq<char>> {
    if line.len() == 0 {
        lines
    } else {
        let all = lines.push(line);
        if all.len() > MAX_LINES {
            all.skip(all.len() - MAX_LINES)
        } else {
            all
        }
    }
}

/// Remembers an output line.
pub fn remember_line(lines: &mut VecDeque<String>, line: String)
    ensures
        text::texts(final(lines)@) == remembered(text::texts(old(lines)@), line@),
{
    if line.as_str().is_empty() {
        return ;
    }
    let ghost all = text::texts(old(lines)@).push(line@);
    lines.push_back(line);
    assert(text::texts(lines@) =~= all);
    while lines.len() > MAX_LINES
        invariant
            lines@.len() <= all.len(),
            all.len() > MAX_LINES ==> lines@.len() >= MAX_LINES,
            all.len() <= MAX_LINES ==> lines@.len() == all.len(),
            text::texts(lines@) == all.skip(all.len() - lines@.len()),
        decreases lines@.len(),
    {
        let ghost before = lines@;
        let ghost shown = text::texts(before);
        let oldest = lines.pop_front();
        assert(lines@ =~= before.skip(1));
        assert forall|k: int| 0 <= k < lines@.len() implies #[trigger] lines@[k]@ == shown[k + 1] by {
            assert(lines@[k] == before[k + 1]);
        }
        assert(text::texts(lines@) =~= all.skip(all.len() - lines@.len()));
    }
}

/// The flags that every aria2 run has.
pub open spec fn base_args() -> Seq<Seq<char>> {
    seq![
        "--continue=true"@,
        "--max-tries=5"@,
        "--retry-wait=2"@,
        "--timeout=60"@,
        "--connect-timeout=30"@,
        "--summary-interval=1"@,
        "--console-log-level=notice"@,
        "--show-console-readout=true"@,
        "--file-allocation=none"@,
        "--auto-file-renaming=false"@,
        "--allow-overwrite=true"@,
    ]
}

/// The flag that names the output file, where the user gave a name that is not blank.
pub open spec fn out_args(custom: Option<Seq<char>>) -> Seq<Seq<char>> {
    match custom {
        Some(name) if text::trimmed(name).len() > 0 => seq!["--out="@ + text::trimmed(name)],
        _ => seq![],
    }
}

/// Builds aria2's command line: the flags of every run, the strategy's, the
/// directory, the output name and the URL.
pub fn aria2_command_args(
    url: &str,
    dir: &str,
    custom_filename: Option<&str>,
    strategy: &Strategy,
) -> (r: Vec<String>)
    ensures
        text::texts(r@) == base_args() + strategy@.args + seq!["--dir="@ + dir@] + out_args(
            text::opt_str(custom_filename),
        ) + seq![url@],
{
    let mut args: Vec<String> = Vec::new();
    text::push_texts(
        &mut args,
        &[
            "--continue=true",
            "--max-tries=5",
            "--retry-wait=2",
            "--timeout=60",
            "--connect-timeout=30",
            "--summary-interval=1",
            "--console-log-level=notice",
            "--show-console-readout=true",
            "--file-allocation=none",
            "--auto-file-renaming=false",
            "--allow-overwrite=true",
        ],
    );
    assert(text::texts(args@) =~= base_args());
    let mut i: usize = 0;
    while i < strategy.args.len()
        invariant
            i <= strategy.args@.len(),
            text::texts(args@) == base_args() + strategy@.args.take(i as int),
        decreases strategy.args@.len() - i,
    {
        text::push_text(&mut args, strategy.args[i].as_str());
        assert(strategy@.args.take(i + 1) =~= strategy@.args.take(i as int).push(
            strategy.args@[i as int]@,
        ));
        i = i + 1;
    }
    assert(strategy@.args.take(i as int) =~= strategy@.args);
    let dir_arg = text::concat2("--dir=", dir);
    text::push_text(&mut args, dir_arg.as_str());
    if let Some(name) = custom_filename {
        let name = text::trim(name);
        if !name.as_str().is_empty() {
            let out_arg = text::concat2("--out=", name.as_str());
            text::push_text(&mut args, out_arg.as_str());
        }
    }
    text::push_text(&mut args, url);
    args
}

proof fn lemma_kept_bytes(s: Seq<char>, start: nat)
    requires
        start < MAX_DIAGNOSTIC_CHARS + 4,
    ensures
        kept_chars(s, start) <= s.len(),
        start + text::byte_len(s.take(kept_chars(s, start) as int)) < MAX_DIAGNOSTIC_CHARS + 4,
    decreases s.len(),
{
    if s.len() > 0 && start < MAX_DIAGNOSTIC_CHARS {
        char_is_scalar(s[0]);
        let w = char_width(s[0]);
        lemma_kept_bytes(s.skip(1), start + w);
        let kept = s.take(kept_chars(s, start) as int);
        assert(kept.drop_first() =~= s.skip(1).take(kept_chars(s.skip(1), start + w) as int));
    }
}

proof fn lemma_bytes_of_both(a: Seq<char>, b: Seq<char>)
    ensures
        text::byte_len(a + b) == text::byte_len(a) + text::byte_len(b),
    decreases a.len(),
{
    if a.len() == 0 {
        assert(a + b =~= b);
    } else {
        lemma_bytes_of_both(a.drop_first(), b);
        assert((a + b).drop_first() =~= a.drop_first() + b);
    }
}

/// A diagnostic is never longer than the size limit, one character and three
/// dots; where the text fits, nothing but the white space around it is lost.
pub proof fn lemma_diagnostic_is_bounded(s: Seq<char>)
    ensures
        text::byte_len(diagnostic(s)) <= MAX_DIAGNOSTIC_CHARS + 6,
        text::byte_len(text::trimmed(s)) <= MAX_DIAGNOSTIC_CHARS ==> diagnostic(s)
            == text::trimmed(s),
        text::byte_len(text::trimmed(s)) > MAX_DIAGNOSTIC_CHARS ==> exists|n: int|
            0 <= n <= text::trimmed(s).len() && diagnostic(s) == #[trigger] text::trimmed(s).take(n)
                + "..."@,
{
    let clean = text::trimmed(s);
    if text::byte_len(clean) > MAX_DIAGNOSTIC_CHARS {
        let n = kept_chars(clean, 0) as int;
        lemma_kept_bytes(clean, 0);
        lemma_bytes_of_both(clean.take(n), "..."@);
        reveal_strlit("...");
        is_ascii_chars_encode_utf8("..."@);
        assert(diagnostic(s) == clean.take(n) + "..."@);
    }
}

/// The lines remembered of a run of output lines.
pub open spec fn remembered_of(lines: Seq<Seq<char>>) -> Seq<Seq<char>>
    decreases lines.len(),
{
    if lines.len() == 0 {
        Seq::empty()
    } else {
        remembered(remembered_of(lines.drop_last()), lines.last())
    }
}

/// Of any run of output lines that are not empty, the last ones are remembered,
/// in their order, and no more than the limit.
pub proof fn lemma_last_lines_are_remembered(lines: Seq<Seq<char>>)
    requires
        forall|i: int| 0 <= i < lines.len() ==> (#[trigger] lines[i]).len() > 0,
    ensures
        remembered_of(lines) == (if lines.len() > MAX_LINES {
            lines.skip(lines.len() - MAX_LINES)
        } else {
            lines
        }),
    decreases lines.len(),
{
    if lines.len() > 0 {
        assert forall|i: int| 0 <= i < lines.drop_last().len() implies (
        #[trigger] lines.drop_last()[i]).len() > 0 by {
            assert(lines.drop_last()[i] == lines[i]);
        }
        lemma_last_lines_are_remembered(lines.drop_last());
        assert(lines.last() == lines[lines.len() - 1]);
    }
    assert(remembered_of(lines) =~= (if lines.len() > MAX_LINES {
        lines.skip(lines.len() - MAX_LINES)
    } else {
        lines
    }));
}

/// The name that a URL suggests is a plain file name: it is not blank, has no
/// white space at its ends, and holds neither a slash nor a colon.
pub proof fn lemma_hint_is_a_file_name(url: Seq<char>)
    ensures
        url_file_name(url) matches Some(name) ==> {
            &&& name.len() > 0
            &&& !text::is_white(name[0])
            &&& !text::is_white(name.last())
            &&& !name.contains('/')
            &&& !name.contains(':')
        },
{
    let slash = CharClass::Exactly('/');
    let path = text::trimmed_end(text::before_first(url, CharClass::Exactly('?')), slash);
    let last = text::after_last(path, slash);
    let leaf = text::trimmed(last);
    text::lemma_span_bound(path, slash, false);
    text::lemma_span_back_members(path, slash, false);
    text::lemma_trimmed_of(last, CharClass::Whitespace);
    let i = choose|i: int| #[trigger] text::occurs_at(last, leaf, i);
    assert forall|k: int| 0 <= k < leaf.len() implies leaf[k] != '/' by {
        assert(leaf[k] == last.subrange(i, i + leaf.len())[k]);
        assert(last[i + k] == path[path.len() - text::span_back(path, slash, false) + i + k]);
    }
}

/// Whatever the request, aria2 continues an earlier, partial download, never
/// picks another name by itself, and gets the URL as its last argument.
pub proof fn lemma_downloads_are_continued(
    url: Seq<char>,
    dir: Seq<char>,
    custom: Option<Seq<char>>,
    strategy_args: Seq<Seq<char>>,
)
    ensures
        ({
            let args = base_args() + strategy_args + seq!["--dir="@ + dir] + out_args(custom)
                + seq![url];
            &&& args.contains("--continue=true"@)
            &&& args.contains("--auto-file-renaming=false"@)
            &&& args.last() == url
        }),
{
    let args = base_args() + strategy_args + seq!["--dir="@ + dir] + out_args(custom) + seq![url];
    assert(args[0] == "--continue=true"@);
    assert(args[9] == "--auto-file-renaming=false"@);
}

/// A URL that is written as a path, a slash, a name, perhaps more slashes, and
/// perhaps a query suggests the name.
pub proof fn lemma_hint_of_parts(
    path: Seq<char>,
    name: Seq<char>,
    slashes: Seq<char>,
    query: Seq<char>,
)
    requires
        !path.contains('?'),
        name.len() > 0,
        !name.contains('?') && !name.contains('/') && !name.contains(':'),
        !text::is_white(name[0]) && !text::is_white(name.last()),
        forall|i: int| 0 <= i < slashes.len() ==> slashes[i] == '/',
        query.len() == 0 || query[0] == '?',
    ensures
        url_file_name(path + seq!['/'] + name + slashes + query) == Some(name),
{
    let slash = CharClass::Exactly('/');
    let stop = CharClass::Exactly('?');
    let whole = path + seq!['/'] + name + slashes;
    let core = path + seq!['/'] + name;
    assert forall|i: int| 0 <= i < whole.len() implies !stop.has(#[trigger] whole[i]) by {
        if i < path.len() {
            assert(whole[i] == path[i]);
            assert(path.contains(path[i]));
        } else if path.len() < i < core.len() {
            assert(whole[i] == name[i - path.len() - 1]);
            assert(name.contains(name[i - path.len() - 1]));
        } else if i >= core.len() {
            assert(whole[i] == slashes[i - core.len()]);
        }
    }
    text::lemma_before_first(whole, query, stop);
    assert(name.contains(name.last()));
    assert(core.last() == name.last());
    let m = text::span_back(whole, slash, true);
    text::lemma_span_bound(whole, slash, true);
    text::lemma_span_back_members(whole, slash, true);
    if m < slashes.len() {
        assert(whole[whole.len() - 1 - m] == slashes[slashes.len() - 1 - m]);
    }
    if m > slashes.len() {
        assert(whole[core.len() - 1] == core.last());
        assert(whole.len() - m <= core.len() - 1);
    }
    assert(text::trimmed_end(whole, slash) =~= core);
    let head = path + seq!['/'];
    assert forall|i: int| 0 <= i < name.len() implies !slash.has(#[trigger] name[i]) by {
        assert(name.contains(name[i]));
    }
    text::lemma_after_last(head, name, slash);
    text::lemma_trimmed_parts(Seq::empty(), name, Seq::empty(), CharClass::Whitespace);
    assert(Seq::empty() + name + Seq::empty() =~= name);
    reveal_strlit("://");
    if text::holds_text(name, "://"@) {
        let i = choose|i: int| text::occurs_at(name, "://"@, i);
        assert(name.subrange(i, i + 3)[0] == ':');
        assert(name[i] == ':');
    }
}

/// The name that the user gave is the expected one whatever the URL, and it is
/// handed to aria2 without the white space around it, unless it is blank.
pub proof fn lemma_given_name_wins(
    url: Seq<char>,
    before: Seq<char>,
    name: Seq<char>,
    after: Seq<char>,
)
    requires
        forall|i: int| 0 <= i < before.len() ==> text::is_white(#[trigger] before[i]),
        forall|i: int| 0 <= i < after.len() ==> text::is_white(#[trigger] after[i]),
        name.len() > 0,
        !text::is_white(name[0]) && !text::is_white(name.last()),
    ensures
        target_name(url, Some(before + name + after)) == Some(before + name + after),
        target_name(url, None) == url_file_name(url),
        out_args(Some(before + name + after)) == seq!["--out="@ + name],
        out_args(Some(before)).len() == 0,
        out_args(None).len() == 0,
{
    text::lemma_trimmed_parts(before, name, after, CharClass::Whitespace);
    let n = text::span(before, CharClass::Whitespace, true);
    text::lemma_span_bound(before, CharClass::Whitespace, true);
    text::lemma_span_members(before, CharClass::Whitespace, true);
    if n < before.len() {
        assert(text::is_white(before[n as int]));
    }
    assert(text::trimmed_start(before, CharClass::Whitespace).len() == 0);
}

/// Every run has the same flags: how often and how long aria2 tries, what it
/// prints, and how it treats files that are there.
pub proof fn lemma_flags_of_every_run()
    ensures
        base_args().len() == 11,
        base_args().contains("--continue=true"@),
        base_args().contains("--max-tries=5"@),
        base_args().contains("--retry-wait=2"@),
        base_args().contains("--timeout=60"@),
        base_args().contains("--connect-timeout=30"@),
        base_args().contains("--summary-interval=1"@),
        base_args().contains("--console-log-level=notice"@),
        base_args().contains("--show-console-readout=true"@),
        base_args().contains("--file-allocation=none"@),
        base_args().contains("--auto-file-renaming=false"@),
        base_args().contains("--allow-overwrite=true"@),
{
    let a = base_args();
    assert(a[0] == "--continue=true"@ && a[1] == "--max-tries=5"@ && a[2] == "--retry-wait=2"@);
    assert(a[3] == "--timeout=60"@ && a[4] == "--connect-timeout=30"@);
    assert(a[5] == "--summary-interval=1"@ && a[6] == "--console-log-level=notice"@);
    assert(a[7] == "--show-console-readout=true"@ && a[8] == "--file-allocation=none"@);
    assert(a[9] == "--auto-file-renaming=false"@ && a[10] == "--allow-overwrite=true"@);
}

/// What a line is summed up as, by the words in it: a refused access before a
/// missing file, that before a certificate, that before a timeout; another line
/// that speaks of an error or a failure is its own summary, and no other line
/// has one.
pub proof fn lemma_summaries_of_lines(line: Seq<char>)
    ensures
        ({
            let lower = text::ascii_lower(line);
            let forbidden = text::holds_text(lower, "status=403"@) || text::holds_text(
                lower,
                " 403"@,
            );
            let missing = text::holds_text(lower, "status=404"@) || text::holds_text(lower, " 404"@)
                || text::holds_text(lower, "not found"@);
            let tls = text::holds_text(lower, "certificate"@) || text::holds_text(lower, "tls"@)
                || text::holds_text(lower, "ssl"@);
            let timeout = text::holds_text(lower, "timed out"@) || text::holds_text(
                lower,
                "timeout"@,
            );
            let error = text::holds_text(lower, "error"@) || text::holds_text(lower, "failed"@);
            &&& forbidden ==> line_summary(line) == Some("HTTP 403 forbidden"@)
            &&& !forbidden && missing ==> line_summary(line) == Some("HTTP 404 not found"@)
            &&& !forbidden && !missing && tls ==> line_summary(line) == Some(
                "TLS certificate error"@,
            )
            &&& !forbidden && !missing && !tls && timeout ==> line_summary(line) == Some(
                "network timeout"@,
            )
            &&& !forbidden && !missing && !tls && !timeout && error ==> line_summary(line) == Some(
                diagnostic(line),
            )
            &&& line_summary(line) is None <==> !forbidden && !missing && !tls && !timeout && !error
        }),
{
}

/// The last line with a summary gives the summary of all of them.
pub proof fn lemma_last_summary_counts(lines: Seq<Seq<char>>, i: int)
    requires
        0 <= i < lines.len(),
        line_summary(lines[i]) is Some,
        forall|j: int| i < j < lines.len() ==> line_summary(#[trigger] lines[j]) is None,
    ensures
        last_summary(lines) == line_summary(lines[i]),
    decreases lines.len(),
{
    if i < lines.len() - 1 {
        assert(line_summary(lines[lines.len() - 1]) is None);
        assert forall|j: int| i < j < lines.drop_last().len() implies line_summary(
            #[trigger] lines.drop_last()[j],
        ) is None by {
            assert(lines.drop_last()[j] == lines[j]);
        }
        lemma_last_summary_counts(lines.drop_last(), i);
    }
}

/// How a failure is explained: by the summary of the last line that has one, and
/// else by the error's name and the last lines; the exit code is told wherever
/// there is one.
pub proof fn lemma_failures_are_explained(
    code: ErrorCode,
    exit: i32,
    lines: Seq<Seq<char>>,
    i: int,
)
    ensures
        0 <= i < lines.len() && line_summary(lines[i]) is Some && (forall|j: int|
            i < j < lines.len() ==> line_summary(#[trigger] lines[j]) is None) ==> {
            &&& failure_detail(code, None, lines) == line_summary(lines[i])->0
            &&& failure_detail(code, Some(exit), lines) == line_summary(lines[i])->0
                + "; exit code "@ + numbers::signed_decimal(exit as int)
        },
        last_summary(lines) is None && recent_output(lines).len() > 0 ==> {
            &&& failure_detail(code, None, lines) == "aria2 failed; error="@ + code.name()
                + "; recent output: "@ + diagnostic(recent_output(lines))
            &&& failure_detail(code, Some(exit), lines) == "aria2 failed; error="@ + code.name()
                + "; exit code "@ + numbers::signed_decimal(exit as int) + "; recent output: "@
                + diagnostic(recent_output(lines))
        },
        failure_detail(code, None, Seq::empty()) == "aria2 failed; error="@ + code.name(),
        failure_detail(code, Some(exit), Seq::empty()) == "aria2 failed; error="@ + code.name()
            + "; exit code "@ + numbers::signed_decimal(exit as int),
{
    if 0 <= i < lines.len() && line_summary(lines[i]) is Some && (forall|j: int|
        i < j < lines.len() ==> line_summary(#[trigger] lines[j]) is None) {
        lemma_last_summary_counts(lines, i);
    }
    let none = Seq::<Seq<char>>::empty();
    assert(none.skip(0).reverse() =~= none);
    assert(recent_output(none) =~= Seq::<char>::empty());
    assert("aria2 failed; error="@ + code.name() + Seq::<char>::empty() =~= "aria2 failed; error="@
        + code.name());
    assert("aria2 failed; error="@ + code.name() + ("; exit code "@ + numbers::signed_decimal(
        exit as int,
    )) =~= "aria2 failed; error="@ + code.name() + "; exit code "@ + numbers::signed_decimal(
        exit as int,
    ));
}

/// The last lines are shown the newest first, and no more than four of them.
pub proof fn lemma_newest_lines_come_first(
    before: Seq<Seq<char>>,
    a: Seq<char>,
    b: Seq<char>,
    c: Seq<char>,
    d: Seq<char>,
)
    ensures
        recent_output(before + seq![a, b, c, d]) == d + " | "@ + c + " | "@ + b + " | "@ + a,
        recent_output(seq![a, b, c]) == c + " | "@ + b + " | "@ + a,
        recent_output(seq![a, b]) == b + " | "@ + a,
        recent_output(seq![a]) == a,
{
    reveal_with_fuel(text::joined, 5);
    let all = before + seq![a, b, c, d];
    assert(all.skip(all.len() - 4).reverse() =~= seq![d, c, b, a]);
    assert(seq![d, c, b, a].drop_last() =~= seq![d, c, b]);
    assert(seq![d, c, b].drop_last() =~= seq![d, c]);
    assert(seq![d, c].drop_last() =~= seq![d]);
    assert(seq![a, b, c].skip(0).reverse() =~= seq![c, b, a]);
    assert(seq![c, b, a].drop_last() =~= seq![c, b]);
    assert(seq![c, b].drop_last() =~= seq![c]);
    assert(seq![a, b].skip(0).reverse() =~= seq![b, a]);
    assert(seq![b, a].drop_last() =~= seq![b]);
    assert(seq![a].skip(0).reverse() =~= seq![a]);
}

/// A line is remembered as the newest of at most sixty, and an empty one not at
/// all; nothing is forgotten before there are that many.
pub proof fn lemma_sixty_lines_are_remembered(lines: Seq<Seq<char>>, line: Seq<char>)
    requires
        lines.len() <= 60,
    ensures
        remembered(lines, Seq::empty()) == lines,
        line.len() > 0 ==> {
            &&& remembered(lines, line).last() == line
            &&& lines.len() < 60 ==> remembered(lines, line) == lines.push(line)
            &&& lines.len() == 60 ==> remembered(lines, line) == lines.skip(1).push(line)
        },
{
    if lines.len() == 60 {
        assert(lines.push(line).skip(1) =~= lines.skip(1).push(line));
    }
}

/// A text of at most 1200 bytes is shown whole but for the white space around
/// it; of a longer one a beginning is shown, with three dots behind it.
pub proof fn lemma_diagnostics_are_cut(s: Seq<char>)
    ensures
        text::byte_len(text::trimmed(s)) <= 1200 ==> diagnostic(s) == text::trimmed(s),
        text::byte_len(text::trimmed(s)) > 1200 ==> ({
            let n = diagnostic(s).len() - 3;
            &&& 0 <= n <= text::trimmed(s).len()
            &&& diagnostic(s) == text::trimmed(s).take(n) + "..."@
            &&& text::byte_len(text::trimmed(s).take(n)) >= 1200 || n == text::trimmed(s).len()
        }),
{
    let clean = text::trimmed(s);
    reveal_strlit("...");
    lemma_kept_bytes(clean, 0);
    lemma_kept_enough(clean, 0);
}

proof fn lemma_kept_enough(s: Seq<char>, start: nat)
    ensures
        kept_chars(s, start) <= s.len(),
        start + text::byte_len(s.take(kept_chars(s, start) as int)) >= MAX_DIAGNOSTIC_CHARS
            || kept_chars(s, start) == s.len(),
    decreases s.len(),
{
    if s.len() > 0 && start < MAX_DIAGNOSTIC_CHARS {
        let rest = s.skip(1);
        let n = kept_chars(rest, start + char_width(s[0])) as int;
        lemma_kept_enough(rest, start + char_width(s[0]));
        assert(s.take(n + 1) =~= seq![s[0]] + rest.take(n));
        lemma_bytes_of_both(seq![s[0]], rest.take(n));
        assert(text::byte_len(seq![s[0]]) >= char_width(s[0])) by {
            assert(seq![s[0]].skip(1) =~= Seq::<char>::empty());
            reveal_with_fuel(encode_utf8, 2);
        }
    }
}

/// A row of the result table that says `OK` gives the path in its last column,
/// and a row that does not gives none.
pub proof fn lemma_table_rows(head: Seq<char>, path: Seq<char>)
    requires
        !path.contains('|'),
        path.len() > 0,
        !text::is_white(path[0]) && !text::is_white(path.last()),
    ensures
        ({
            let row = head + seq!['|'] + path;
            let ok = text::holds_text(row, "|OK|"@) || text::holds_text(row, "|OK "@);
            &&& ok ==> table_path(row) == Some(path)
            &&& !ok ==> table_path(row) is None
        }),
{
    let bar = CharClass::Exactly('|');
    assert forall|i: int| 0 <= i < path.len() implies !bar.has(#[trigger] path[i]) by {
        assert(path.contains(path[i]));
    }
    text::lemma_after_last(head + seq!['|'], path, bar);
    text::lemma_trimmed_parts(Seq::empty(), path, Seq::empty(), CharClass::Whitespace);
    assert(Seq::empty() + path + Seq::empty() =~= path);
}

/// A path that a line reports as complete is read without the quotation marks
/// and the white space around it, and goes before the result table, which counts
/// where the path is blank.
pub proof fn lemma_reported_path(
    g: Seq<Option<Seq<char>>>,
    before: Seq<char>,
    path: Seq<char>,
    after: Seq<char>,
    line: Seq<char>,
)
    requires
        g.len() >= 2,
        path.len() > 0,
        path[0] != '"' && path.last() != '"',
        forall|i: int| 0 <= i < before.len() ==> text::is_white(#[trigger] before[i]),
        forall|i: int| 0 <= i < after.len() ==> text::is_white(#[trigger] after[i]),
    ensures
        g[1] == Some(before + (seq!['"'] + path + seq!['"']) + after) ==> path_of_groups(
            Some(g),
            line,
        ) == Some(path),
        g[1] == Some(before + path + after) && !text::is_white(path[0]) && !text::is_white(
            path.last(),
        ) ==> path_of_groups(Some(g), line) == Some(path),
        path_of_groups(None, line) == table_path(line),
        g[1] == Some(before) ==> path_of_groups(Some(g), line) == table_path(line),
        g[1] is None ==> path_of_groups(Some(g), line) is None,
{
    let n = text::span(before, CharClass::Whitespace, true);
    text::lemma_span_bound(before, CharClass::Whitespace, true);
    text::lemma_span_members(before, CharClass::Whitespace, true);
    if n < before.len() {
        assert(text::is_white(before[n as int]));
    }
    assert(text::trimmed_start(before, CharClass::Whitespace).len() == 0);
    let quoted = seq!['"'] + path + seq!['"'];
    text::lemma_trimmed_parts(before, quoted, after, CharClass::Whitespace);
    text::lemma_trimmed_parts(seq!['"'], path, seq!['"'], CharClass::Exactly('"'));
    if !text::is_white(path[0]) && !text::is_white(path.last()) {
        text::lemma_trimmed_parts(before, path, after, CharClass::Whitespace);
        text::lemma_trimmed_parts(Seq::empty(), path, Seq::empty(), CharClass::Exactly('"'));
        assert(Seq::empty() + path + Seq::empty() =~= path);
    }
}

/// What each pattern looks for: the end of a download that names its file, and
/// the escape sequences that are taken out of a line.
pub proof fn lemma_patterns_of_lines(line: Seq<char>)
    ensures
        completed_path(line) == path_of_groups(
            regexes::found_groups(r"(?i)download complete:\s*(?P<path>.+)$"@, line),
            line,
        ),
        !regexes::regex_compiles(ANSI_RE@) ==> cleaned(line) == text::trimmed(line),
        regexes::regex_compiles(ANSI_RE@) ==> cleaned(line) == text::trimmed(
            regexes::regex_replace_all(r"\x1b\[[0-9;]*[mGKHF]|\x1b\][^\x07]*\x07"@, line, ""@),
        ),
{
}

} // verus!
