//! What the lines say that yt-dlp writes.
use vstd::prelude::*;
use vstd::string::*;
use crate::progress;
use crate::progress::{SizeText, SizeView};
use crate::regexes;
use crate::text;
use crate::unicode;
use crate::yt_dlp;

verus! {

/// A progress line: percentage, total, speed and remaining time.
pub const PROGRESS_RE: &'static str = r"^\[download\]\s+(?P<pct>\d+(?:\.\d+)?)%\s+(?:of\s+~?\s*(?P<total>[\d.]+\s*[KMGTP]i?B)?)?(?:\s+at\s+(?P<spd>[\d.]+\s*[KMGTP]i?B/s|Unknown speed))?(?:\s+ETA\s+(?P<eta>[\d:]+|Unknown))?";

/// A size in lower case: digits and a binary unit.
pub const SIZE_RE: &'static str = r"(?P<val>[\d.]+)\s*(?P<unit>[kmgt]ib?)";

/// The line that names the file being written.
pub const FILENAME_RE: &'static str = r"\[download\] Destination: (?P<file>.+)$";

/// The line that names a file that is there already.
pub const ALREADY_DOWNLOADED_RE: &'static str = r"\[download\] (?P<file>.+) has already been downloaded";

/// The line that names the file that streams are merged into.
pub const MERGER_RE: &'static str = r"\[Merger\] Merging formats into (?P<file>.+)$";

/// Any other line that speaks of merging.
pub const MERGE_INLINE_RE: &'static str = r"(?i)merging formats into";

/// The number of bytes of a unit in lower case; 1 for an unknown one.
pub open spec fn binary_factor(unit: Seq<char>) -> u64 {
    if unit == "k"@ || unit == "ki"@ || unit == "kib"@ {
        1_024
    } else if unit == "m"@ || unit == "mi"@ || unit == "mib"@ {
        1_048_576
    } else if unit == "g"@ || unit == "gi"@ || unit == "gib"@ {
        1_073_741_824
    } else if unit == "t"@ || unit == "ti"@ || unit == "tib"@ {
        1_099_511_627_776
    } else {
        1
    }
}

fn binary_factor_of(unit: &str) -> (r: u64)
    ensures
        r == binary_factor(unit@),
{
    if text::same_text(unit, "k") || text::same_text(unit, "ki") || text::same_text(unit, "kib") {
        1_024
    } else if text::same_text(unit, "m") || text::same_text(unit, "mi") || text::same_text(
        unit,
        "mib",
    ) {
        1_048_576
    } else if text::same_text(unit, "g") || text::same_text(unit, "gi") || text::same_text(
        unit,
        "gib",
    ) {
        1_073_741_824
    } else if text::same_text(unit, "t") || text::same_text(unit, "ti") || text::same_text(
        unit,
        "tib",
    ) {
        1_099_511_627_776
    } else {
        1
    }
}

/// A size out of the groups of the size pattern: the digits and the unit.
pub open spec fn size_in_groups(groups: Option<Seq<Option<Seq<char>>>>) -> Option<SizeView> {
    match groups {
        Some(g) => match (regexes::group_of(g, 1), regexes::group_of(g, 2)) {
            (Some(number), Some(unit)) => Some(SizeView { number, factor: binary_factor(unit) }),
            _ => None,
        },
        None => None,
    }
}

/// The size that a text holds, whatever the case of its letters.
pub open spec fn size_in(s: Seq<char>) -> Option<SizeView> {
    size_in_groups(regexes::found_groups(SIZE_RE@, unicode::lowercase(s)))
}

/// Reads a size out of the groups of the size pattern.
pub fn size_from_groups(groups: Option<Vec<Option<String>>>) -> (r: Option<SizeText>)
    ensures
        progress::size_view(r) == size_in_groups(regexes::captures_view(groups)),
{
    match groups {
        Some(g) => {
            let number = regexes::group(&g, 1);
            let unit = regexes::group(&g, 2);
            match (number, unit) {
                (Some(number), Some(unit)) => {
                    let factor = binary_factor_of(unit.as_str());
                    Some(SizeText { number, factor })
                },
                _ => None,
            }
        },
        None => None,
    }
}

/// Reads the size that a text holds. The number of bytes is the digits, as a
/// decimal fraction, times the factor.
pub fn parse_size_to_bytes(s: &str) -> (r: Option<SizeText>)
    ensures
        progress::size_view(r) == size_in(s@),
{
    let lower = unicode::to_lowercase(s);
    let groups = regexes::find_groups(SIZE_RE, lower.as_str());
    size_from_groups(groups)
}

/// The fields of a progress line, as they are written.
#[derive(Debug)]
pub struct YtFields {
    pub pct: String,
    pub total: Option<String>,
    pub speed: Option<String>,
    pub eta: Option<String>,
}

/// The fields of a progress line by their contents.
pub struct YtFieldsView {
    pub pct: Seq<char>,
    pub total: Option<Seq<char>>,
    pub speed: Option<Seq<char>>,
    pub eta: Option<Seq<char>>,
}

impl View for YtFields {
    type V = YtFieldsView;

    open spec fn view(&self) -> YtFieldsView {
        YtFieldsView {
            pct: self.pct@,
            total: text::opt_text(self.total),
            speed: text::opt_text(self.speed),
            eta: text::opt_text(self.eta),
        }
    }
}

/// What an output line says.
#[derive(Debug)]
pub enum LineKind {
    /// How far the download has come.
    Progress(YtFields),
    /// The path of the file being written.
    Destination(String),
    /// The path of a file that is there already.
    Already(String),
    /// Streams are being merged, into the path where one is named.
    Merging(Option<String>),
    /// The files that were merged are being removed.
    Deleting,
    /// The audio is being converted.
    Converting,
    /// An error.
    Error,
    /// None of these. `info` marks a line of yt-dlp's about the video, `error`
    /// one on the error stream that speaks of an error.
    Other { info: bool, error: bool },
}

/// What an output line says, by its contents.
pub enum KindView {
    Progress(YtFieldsView),
    Destination(Seq<char>),
    Already(Seq<char>),
    Merging(Option<Seq<char>>),
    Deleting,
    Converting,
    Error,
    Other { info: bool, error: bool },
}

impl View for LineKind {
    type V = KindView;

    open spec fn view(&self) -> KindView {
        match *self {
            LineKind::Progress(f) => KindView::Progress(f@),
            LineKind::Destination(p) => KindView::Destination(p@),
            LineKind::Already(p) => KindView::Already(p@),
            LineKind::Merging(p) => KindView::Merging(text::opt_text(p)),
            LineKind::Deleting => KindView::Deleting,
            LineKind::Converting => KindView::Converting,
            LineKind::Error => KindView::Error,
            LineKind::Other { info, error } => KindView::Other { info, error },
        }
    }
}

/// An output line: its text, the stream it came from, whether it asks for
/// browser verification, how it is shown as an error, and what it says.
#[derive(Debug)]
pub struct YtLine {
    pub text: String,
    pub from_stdout: bool,
    pub asks_verification: bool,
    pub shown: String,
    pub kind: LineKind,
}

/// An output line by its contents.
pub struct YtLineView {
    pub text: Seq<char>,
    pub from_stdout: bool,
    pub asks_verification: bool,
    pub shown: Seq<char>,
    pub kind: KindView,
}

impl View for YtLine {
    type V = YtLineView;

    open spec fn view(&self) -> YtLineView {
        YtLineView {
            text: self.text@,
            from_stdout: self.from_stdout,
            asks_verification: self.asks_verification,
            shown: self.shown@,
            kind: self.kind@,
        }
    }
}

/// What the line patterns find in a line.
#[derive(Debug)]
pub struct LineMatches {
    pub progress: Option<Vec<Option<String>>>,
    pub destination: Option<Vec<Option<String>>>,
    pub already: Option<Vec<Option<String>>>,
    pub merger: Option<Vec<Option<String>>>,
    pub merging: bool,
}

/// What the line patterns find in a line, by its contents.
pub struct MatchesView {
    pub progress: Option<Seq<Option<Seq<char>>>>,
    pub destination: Option<Seq<Option<Seq<char>>>>,
    pub already: Option<Seq<Option<Seq<char>>>>,
    pub merger: Option<Seq<Option<Seq<char>>>>,
    pub merging: bool,
}

impl View for LineMatches {
    type V = MatchesView;

    open spec fn view(&self) -> MatchesView {
        MatchesView {
            progress: regexes::captures_view(self.progress),
            destination: regexes::captures_view(self.destination),
            already: regexes::captures_view(self.already),
            merger: regexes::captures_view(self.merger),
            merging: self.merging,
        }
    }
}

/// What the line patterns find in a line.
pub open spec fn matches_in(line: Seq<char>) -> MatchesView {
    MatchesView {
        progress: regexes::found_groups(PROGRESS_RE@, line),
        destination: regexes::found_groups(FILENAME_RE@, line),
        already: regexes::found_groups(ALREADY_DOWNLOADED_RE@, line),
        merger: regexes::found_groups(MERGER_RE@, line),
        merging: regexes::finds(MERGE_INLINE_RE@, line),
    }
}

/// A text, or the empty one where there is none.
pub open spec fn or_empty(o: Option<Seq<char>>) -> Seq<char> {
    match o {
        Some(s) => s,
        None => Seq::empty(),
    }
}

/// The path in the first group of a pattern, without white space and quotation
/// marks around it.
pub open spec fn path_in(groups: Seq<Option<Seq<char>>>) -> Seq<char> {
    yt_dlp::cleaned_path(text::trimmed(or_empty(regexes::group_of(groups, 1))))
}

/// What a line says, given the line in lower case and what the patterns find.
/// The first of the cases that applies counts.
pub open spec fn kind_of(
    line: Seq<char>,
    lower: Seq<char>,
    from_stdout: bool,
    found: MatchesView,
) -> KindView {
    match (found.progress, found.destination, found.already) {
        (Some(g), _, _) => KindView::Progress(
            YtFieldsView {
                pct: or_empty(regexes::group_of(g, 1)),
                total: regexes::group_of(g, 2),
                speed: regexes::group_of(g, 3),
                eta: regexes::group_of(g, 4),
            },
        ),
        (None, Some(g), _) => KindView::Destination(path_in(g)),
        (None, None, Some(g)) => KindView::Already(path_in(g)),
        (None, None, None) => {
            if found.merger is Some || found.merging {
                KindView::Merging(
                    match found.merger {
                        Some(g) => Some(path_in(g)),
                        None => None,
                    },
                )
            } else if text::holds_text(lower, "deleting original file"@) {
                KindView::Deleting
            } else if text::holds_text(line, "[ExtractAudio]"@) || text::holds_text(
                lower,
                "extractaudio"@,
            ) {
                KindView::Converting
            } else if text::begins_with(line, "ERROR:"@) {
                KindView::Error
            } else {
                KindView::Other {
                    info: text::begins_with(line, "[info]"@) || text::begins_with(
                        line,
                        "[youtube]"@,
                    ),
                    error: !from_stdout && text::holds_text(lower, "error:"@),
                }
            }
        },
    }
}

/// An output line, given the line in lower case and what the patterns find.
pub open spec fn line_of(
    line: Seq<char>,
    lower: Seq<char>,
    from_stdout: bool,
    found: MatchesView,
) -> YtLineView {
    YtLineView {
        text: line,
        from_stdout,
        asks_verification: yt_dlp::asks_verification(lower),
        shown: yt_dlp::shown_error_of(line, lower),
        kind: kind_of(line, lower, from_stdout, found),
    }
}

fn group_or_empty(groups: &Vec<Option<String>>, i: usize) -> (r: String)
    ensures
        r@ == or_empty(regexes::group_of(regexes::group_texts(groups@), i as int)),
{
    match regexes::group(groups, i) {
        Some(s) => s,
        None => String::new(),
    }
}

fn path_of(groups: &Vec<Option<String>>) -> (r: String)
    ensures
        r@ == path_in(regexes::group_texts(groups@)),
{
    let raw = group_or_empty(groups, 1);
    let trimmed = text::trim(raw.as_str());
    yt_dlp::clean_yt_dlp_path(trimmed.as_str())
}

fn find_kind(line: &str, lower: &str, from_stdout: bool, found: &LineMatches) -> (r: LineKind)
    ensures
        r@ == kind_of(line@, lower@, from_stdout, found@),
{
    if let Some(g) = &found.progress {
        return LineKind::Progress(
            YtFields {
                pct: group_or_empty(g, 1),
                total: regexes::group(g, 2),
                speed: regexes::group(g, 3),
                eta: regexes::group(g, 4),
            },
        );
    }
    if let Some(g) = &found.destination {
        return LineKind::Destination(path_of(g));
    }
    if let Some(g) = &found.already {
        return LineKind::Already(path_of(g));
    }
    if let Some(g) = &found.merger {
        return LineKind::Merging(Some(path_of(g)));
    }
    if found.merging {
        return LineKind::Merging(None);
    }
    if text::contains(lower, "deleting original file") {
        LineKind::Deleting
    } else if text::contains(line, "[ExtractAudio]") || text::contains(lower, "extractaudio") {
        LineKind::Converting
    } else if text::starts_with(line, "ERROR:") {
        LineKind::Error
    } else {
        let info = text::starts_with(line, "[info]") || text::starts_with(line, "[youtube]");
        let error = !from_stdout && text::contains(lower, "error:");
        LineKind::Other { info, error }
    }
}

/// Reads a trimmed output line, given what the line patterns find in it.
pub fn classify_line(line: &str, from_stdout: bool, found: &LineMatches) -> (r: YtLine)
    ensures
        r@ == line_of(line@, unicode::lowercase(line@), from_stdout, found@),
        vstd::utf8::is_ascii_chars(line@) ==> r@ == line_of(
            line@,
            text::ascii_lower(line@),
            from_stdout,
            found@,
        ),
{
    let lower = unicode::to_lowercase(line);
    let kind = find_kind(line, lower.as_str(), from_stdout, found);
    YtLine {
        text: line.to_owned(),
        from_stdout,
        asks_verification: yt_dlp::is_youtube_cookie_required_message(line),
        shown: yt_dlp::clean_yt_dlp_error(line),
        kind,
    }
}

/// Reads a raw output line; `None` for a blank one.
pub fn read_line(raw: &str, from_stdout: bool) -> (r: Option<YtLine>)
    ensures
        match r {
            Some(line) => {
                let t = text::trimmed(raw@);
                t.len() > 0 && line@ == line_of(
                    t,
                    unicode::lowercase(t),
                    from_stdout,
                    matches_in(t),
                )
            },
            None => text::trimmed(raw@).len() == 0,
        },
{
    let trimmed = text::trim(raw);
    let line = trimmed.as_str();
    if line.is_empty() {
        return None;
    }
    let found = LineMatches {
        progress: regexes::find_groups(PROGRESS_RE, line),
        destination: regexes::find_groups(FILENAME_RE, line),
        already: regexes::find_groups(ALREADY_DOWNLOADED_RE, line),
        merger: regexes::find_groups(MERGER_RE, line),
        merging: regexes::search(MERGE_INLINE_RE, line),
    };
    Some(classify_line(line, from_stdout, &found))
}

/// The file that a path in a line stands for.
#[derive(Debug)]
pub enum OutputPlace {
    /// The path as it stands.
    AsItStands(String),
    /// The path below the download directory.
    BelowDirectory(String),
}

/// The file that a path in a line stands for, by its contents.
pub enum PlaceOf {
    AsItStands(Seq<char>),
    BelowDirectory(Seq<char>),
}

impl View for OutputPlace {
    type V = PlaceOf;

    open spec fn view(&self) -> PlaceOf {
        match *self {
            OutputPlace::AsItStands(p) => PlaceOf::AsItStands(p@),
            OutputPlace::BelowDirectory(p) => PlaceOf::BelowDirectory(p@),
        }
    }
}

/// The file that a cleaned path stands for. The path is cleaned once more, which
/// takes away what quotation marks inside quotation marks have left; `absolute`
/// says whether it is absolute then.
pub fn output_place(cleaned: &str, absolute: bool) -> (r: OutputPlace)
    ensures
        r@ == (if absolute {
            PlaceOf::AsItStands(yt_dlp::cleaned_path(cleaned@))
        } else {
            PlaceOf::BelowDirectory(yt_dlp::cleaned_path(cleaned@))
        }),
        r is AsItStands <==> absolute,
{
    let path = yt_dlp::clean_yt_dlp_path(cleaned);
    if absolute {
        OutputPlace::AsItStands(path)
    } else {
        OutputPlace::BelowDirectory(path)
    }
}

/// The units go in steps of 1024, with or without the `i` and the `b`.
pub proof fn lemma_binary_units_go_in_steps()
    ensures
        binary_factor("ki"@) == 1024 && binary_factor("kib"@) == 1024 && binary_factor("k"@) == 1024,
        binary_factor("mi"@) == 1024 * binary_factor("ki"@),
        binary_factor("gi"@) == 1024 * binary_factor("mi"@),
        binary_factor("ti"@) == 1024 * binary_factor("gi"@),
        binary_factor("mib"@) == binary_factor("mi"@) && binary_factor("m"@) == binary_factor("mi"@),
        binary_factor("gib"@) == binary_factor("gi"@) && binary_factor("g"@) == binary_factor("gi"@),
        binary_factor("tib"@) == binary_factor("ti"@) && binary_factor("t"@) == binary_factor("ti"@),
{
    reveal_strlit("k");
    reveal_strlit("ki");
    reveal_strlit("kib");
    reveal_strlit("m");
    reveal_strlit("mi");
    reveal_strlit("mib");
    reveal_strlit("g");
    reveal_strlit("gi");
    reveal_strlit("gib");
    reveal_strlit("t");
    reveal_strlit("ti");
    reveal_strlit("tib");
    assert("k"@[0] == 'k' && "ki"@[0] == 'k' && "kib"@[0] == 'k');
    assert("m"@[0] == 'm' && "mi"@[0] == 'm' && "mib"@[0] == 'm');
    assert("g"@[0] == 'g' && "gi"@[0] == 'g' && "gib"@[0] == 'g');
    assert("t"@[0] == 't' && "ti"@[0] == 't' && "tib"@[0] == 't');
}

/// What a line says: a progress line before a destination, that before a file
/// that is there already, and that before merging; the other cases go by the
/// words of the line.
pub proof fn lemma_kinds_of_lines(
    line: Seq<char>,
    lower: Seq<char>,
    from_stdout: bool,
    found: MatchesView,
)
    ensures
        ({
            let kind = kind_of(line, lower, from_stdout, found);
            let named = found.progress is Some || found.destination is Some || found.already is Some;
            let merging = !named && (found.merger is Some || found.merging);
            let deleting = !named && !merging && text::holds_text(lower, "deleting original file"@);
            let converting = !named && !merging && !deleting && (text::holds_text(
                line,
                "[ExtractAudio]"@,
            ) || text::holds_text(lower, "extractaudio"@));
            let error = !named && !merging && !deleting && !converting && text::begins_with(
                line,
                "ERROR:"@,
            );
            &&& kind is Progress <==> found.progress is Some
            &&& kind is Destination <==> found.progress is None && found.destination is Some
            &&& kind is Already <==> found.progress is None && found.destination is None
                && found.already is Some
            &&& kind is Merging <==> merging
            &&& kind is Deleting <==> deleting
            &&& kind is Converting <==> converting
            &&& kind is Error <==> error
            &&& kind matches KindView::Other { info, error } ==> {
                &&& info <==> text::begins_with(line, "[info]"@) || text::begins_with(
                    line,
                    "[youtube]"@,
                )
                &&& error <==> !from_stdout && text::holds_text(lower, "error:"@)
            }
        }),
{
}

/// The fields and the paths of a line are what the groups of the pattern hold,
/// the paths without white space and quotation marks around them.
pub proof fn lemma_groups_of_lines(
    line: Seq<char>,
    lower: Seq<char>,
    from_stdout: bool,
    found: MatchesView,
    g: Seq<Option<Seq<char>>>,
    text: Seq<char>,
)
    requires
        g.len() >= 2,
        g[1] == Some(text),
    ensures
        found.progress == Some(g) && g.len() == 5 ==> (kind_of(line, lower, from_stdout, found) matches KindView::Progress(
            f,
        ) && f.pct == text && f.total == g[2] && f.speed == g[3] && f.eta == g[4]),
        found.progress is None && found.destination == Some(g) ==> kind_of(
            line,
            lower,
            from_stdout,
            found,
        ) == KindView::Destination(yt_dlp::cleaned_path(text::trimmed(text))),
        found.progress is None && found.destination is None && found.already == Some(g)
            ==> kind_of(line, lower, from_stdout, found) == KindView::Already(
            yt_dlp::cleaned_path(text::trimmed(text)),
        ),
        found.progress is None && found.destination is None && found.already is None
            && found.merger == Some(g) ==> kind_of(line, lower, from_stdout, found)
            == KindView::Merging(Some(yt_dlp::cleaned_path(text::trimmed(text)))),
        size_in_groups(Some(g)) matches Some(size) ==> size.number == text,
{
}

/// A line that speaks of verification asks for it whatever else it says, and is
/// shown as the request.
pub proof fn lemma_lines_that_ask(
    line: Seq<char>,
    lower: Seq<char>,
    from_stdout: bool,
    found: MatchesView,
)
    requires
        text::holds_text(lower, "sign in to confirm"@) || text::holds_text(lower, "not a bot"@)
            || text::holds_text(lower, "--cookies-from-browser"@),
    ensures
        line_of(line, lower, from_stdout, found).asks_verification,
        line_of(line, lower, from_stdout, found).shown == yt_dlp::VERIFICATION_MESSAGE@,
        line_of(line, lower, from_stdout, found).text == line,
        line_of(line, lower, from_stdout, found).from_stdout == from_stdout,
{
}

/// What each pattern looks for in a line, and the one of sizes in a text.
pub proof fn lemma_patterns_of_lines(line: Seq<char>)
    ensures
        matches_in(line).progress == regexes::found_groups(
            r"^\[download\]\s+(?P<pct>\d+(?:\.\d+)?)%\s+(?:of\s+~?\s*(?P<total>[\d.]+\s*[KMGTP]i?B)?)?(?:\s+at\s+(?P<spd>[\d.]+\s*[KMGTP]i?B/s|Unknown speed))?(?:\s+ETA\s+(?P<eta>[\d:]+|Unknown))?"@,
            line,
        ),
        size_in(line) == size_in_groups(
            regexes::found_groups(
                r"(?P<val>[\d.]+)\s*(?P<unit>[kmgt]ib?)"@,
                unicode::lowercase(line),
            ),
        ),
        matches_in(line).destination == regexes::found_groups(
            r"\[download\] Destination: (?P<file>.+)$"@,
            line,
        ),
        matches_in(line).already == regexes::found_groups(
            r"\[download\] (?P<file>.+) has already been downloaded"@,
            line,
        ),
        matches_in(line).merger == regexes::found_groups(
            r"\[Merger\] Merging formats into (?P<file>.+)$"@,
            line,
        ),
        matches_in(line).merging <==> regexes::finds(r"(?i)merging formats into"@, line),
{
}

/// A written size is the digits and the unit of the pattern; a text without
/// them is none.
pub proof fn lemma_sizes_of_groups(g: Seq<Option<Seq<char>>>, number: Seq<char>, unit: Seq<char>)
    requires
        g.len() == 3,
        g[1] == Some(number),
        g[2] == Some(unit),
    ensures
        size_in_groups(Some(g)) == Some(SizeView { number, factor: binary_factor(unit) }),
        size_in_groups(None) is None,
        unit == "mib"@ ==> (size_in_groups(Some(g)) matches Some(size) && size.factor == 1024
            * 1024),
{
    lemma_binary_units_go_in_steps();
}

} // verus!
