//! Decides which file on disk is the one that a download produced.
use vstd::prelude::*;
use vstd::string::*;
use crate::aria2;
use crate::text;
use crate::text::CharClass;
use crate::unicode;

verus! {

/// The size of a file and when it was last written, in nanoseconds since the
/// Unix epoch.
#[derive(Debug, Clone, Copy, PartialEq, Eq, Structural)]
pub struct FileSnapshot {
    pub len: u64,
    pub modified: i128,
}

/// An entry of the download directory after an aria2 run. `now` is `None` where
/// its metadata cannot be read, `before` where it was not there before the run.
#[derive(Debug)]
pub struct DirEntry {
    pub is_file: bool,
    pub extension: Option<String>,
    pub now: Option<FileSnapshot>,
    pub before: Option<FileSnapshot>,
}

/// How far back, in nanoseconds, before the start of an aria2 run a file may have
/// been written and still count as the run's.
pub const START_SLACK_NS: i128 = 2_000_000_000;

/// The time from which on files count as a run's, given the time at which it
/// starts.
pub fn counted_from(now: i128) -> (r: i128)
    ensures
        r == (if now - START_SLACK_NS >= i128::MIN {
            now - START_SLACK_NS
        } else {
            now as int
        }),
        now >= 0 ==> r == now - 2_000_000_000,
{
    if now >= i128::MIN + START_SLACK_NS {
        now - START_SLACK_NS
    } else {
        now
    }
}

/// A file with this extension belongs to aria2, not to the user.
pub open spec fn control_extension(extension: Option<Seq<char>>) -> bool {
    match extension {
        Some(ext) => text::ascii_lower(ext) == text::ascii_lower("aria2"@),
        None => false,
    }
}

fn is_control(extension: &Option<String>) -> (r: bool)
    ensures
        r == control_extension(text::opt_text(*extension)),
{
    match extension {
        Some(ext) => aria2::is_control_file(Some(ext.as_str())),
        None => false,
    }
}

/// Whether an entry is one that a snapshot of the directory records.
pub fn in_snapshot(is_file: bool, extension: &Option<String>) -> (r: bool)
    ensures
        r == (is_file && !control_extension(text::opt_text(*extension))),
{
    is_file && !is_control(extension)
}

/// Whether an entry is a non-empty file of the user's that the run may have
/// written: one that is new, changed, or written since the run started.
pub open spec fn may_be_output(e: DirEntry, started_at: i128) -> bool {
    &&& e.is_file
    &&& !control_extension(text::opt_text(e.extension))
    &&& e.now matches Some(now)
    &&& now.len > 0
    &&& ({
        ||| e.before is None
        ||| e.before matches Some(old) && (old.len != now.len || old.modified < now.modified)
        ||| now.modified >= started_at
    })
}

/// `a` was written before `b`, or at the same time and is smaller.
pub open spec fn older(a: FileSnapshot, b: FileSnapshot) -> bool {
    a.modified < b.modified || (a.modified == b.modified && a.len < b.len)
}

/// `i` is the newest entry that the run may have written: none of the others
/// is newer, or as new and larger, and of those that are alike it is the last.
pub open spec fn is_newest_output(entries: Seq<DirEntry>, started_at: i128, i: int) -> bool {
    &&& 0 <= i < entries.len()
    &&& may_be_output(entries[i], started_at)
    &&& forall|j: int|
        0 <= j < entries.len() && may_be_output(#[trigger] entries[j], started_at) && j != i
            ==> older(entries[j].now->0, entries[i].now->0) || (j < i && entries[j].now->0
            == entries[i].now->0)
}

fn check_output(e: &DirEntry, started_at: i128) -> (r: Option<FileSnapshot>)
    ensures
        r == (if may_be_output(*e, started_at) {
            e.now
        } else {
            None
        }),
{
    if !e.is_file || is_control(&e.extension) {
        return None;
    }
    match e.now {
        None => None,
        Some(now) => {
            if now.len == 0 {
                return None;
            }
            let changed = match e.before {
                Some(old) => old.len != now.len || old.modified < now.modified,
                None => true,
            };
            if changed || now.modified >= started_at {
                Some(now)
            } else {
                None
            }
        },
    }
}

/// Finds the newest entry that a run may have written.
pub fn newest_changed_file(entries: &Vec<DirEntry>, started_at: i128) -> (r: Option<usize>)
    ensures
        match r {
            Some(i) => is_newest_output(entries@, started_at, i as int),
            None => forall|j: int|
                0 <= j < entries@.len() ==> !may_be_output(#[trigger] entries@[j], started_at),
        },
{
    let mut best: Option<(usize, FileSnapshot)> = None;
    let mut i: usize = 0;
    while i < entries.len()
        invariant
            i <= entries@.len(),
            match best {
                Some((b, snap)) => {
                    &&& b < i
                    &&& entries@[b as int].now == Some(snap)
                    &&& is_newest_output(entries@.take(i as int), started_at, b as int)
                },
                None => forall|j: int|
                    0 <= j < i ==> !may_be_output(#[trigger] entries@[j], started_at),
            },
        decreases entries@.len() - i,
    {
        let ghost seen = entries@.take(i as int);
        let ghost next = entries@.take(i + 1);
        assert forall|j: int| 0 <= j < i implies #[trigger] next[j] == seen[j] by {}
        if let Some(snap) = check_output(&entries[i], started_at) {
            let newer = match best {
                Some((_, old)) => !(snap.modified < old.modified || (snap.modified == old.modified
                    && snap.len < old.len)),
                None => true,
            };
            if newer {
                best = Some((i, snap));
                assert forall|j: int|
                    0 <= j < next.len() && may_be_output(#[trigger] next[j], started_at) && j
                        != i implies older(next[j].now->0, next[i as int].now->0) || (j < i
                    && next[j].now->0 == next[i as int].now->0) by {
                    assert(seen[j] == next[j]);
                }
            }
        }
        i = i + 1;
    }
    assert(entries@.take(i as int) =~= entries@);
    match best {
        Some((b, _)) => Some(b),
        None => None,
    }
}

/// Of the two places where a finished aria2 run's file may be, and the search
/// for a changed file, the one to take.
#[derive(Debug, Clone, Copy, PartialEq, Eq, Structural)]
pub enum OutputPick {
    /// The path that aria2 reported.
    Reported,
    /// The path that was expected.
    Expected,
    /// The newest changed file of the directory.
    Newest,
}

/// Picks the reported path if it is a file, else the expected one if it is,
/// else the newest changed file.
pub fn pick_output(reported_is_file: bool, expected_is_file: bool) -> (r: OutputPick)
    ensures
        r == (if reported_is_file {
            OutputPick::Reported
        } else if expected_is_file {
            OutputPick::Expected
        } else {
            OutputPick::Newest
        }),
        r == OutputPick::Reported <==> reported_is_file,
        r == OutputPick::Expected ==> expected_is_file,
        r == OutputPick::Newest ==> !reported_is_file && !expected_is_file,
{
    if reported_is_file {
        OutputPick::Reported
    } else if expected_is_file {
        OutputPick::Expected
    } else {
        OutputPick::Newest
    }
}

/// What stands in a URL behind a marker, up to the next `?`, `&`, `/` or `#`.
pub open spec fn id_behind(url: Seq<char>, marker: Seq<char>) -> Option<Seq<char>> {
    match text::split_first(url, marker) {
        Some((_, rest)) => {
            let id = text::trimmed(text::before_first(rest, CharClass::UrlStop));
            if id.len() > 0 {
                Some(id)
            } else {
                None
            }
        },
        None => None,
    }
}

/// The video id in a YouTube URL.
pub open spec fn video_id(url: Seq<char>) -> Option<Seq<char>> {
    if id_behind(url, "youtu.be/"@) is Some {
        id_behind(url, "youtu.be/"@)
    } else if id_behind(url, "v="@) is Some {
        id_behind(url, "v="@)
    } else {
        id_behind(url, "shorts/"@)
    }
}

fn find_id_behind(url: &str, marker: &str) -> (r: Option<String>)
    ensures
        text::opt_text(r) == id_behind(url@, marker@),
{
    match text::split_once(url, marker) {
        Some((_, rest)) => {
            let raw = text::before_first_of(rest.as_str(), CharClass::UrlStop);
            let id = text::trim(raw.as_str());
            if !id.as_str().is_empty() {
                Some(id)
            } else {
                None
            }
        },
        None => None,
    }
}

/// Reads the video id out of a YouTube URL.
pub fn youtube_video_id(url: &str) -> (r: Option<String>)
    ensures
        text::opt_text(r) == video_id(url@),
{
    let short = find_id_behind(url, "youtu.be/");
    if short.is_some() {
        return short;
    }
    let watch = find_id_behind(url, "v=");
    if watch.is_some() {
        return watch;
    }
    find_id_behind(url, "shorts/")
}

/// A file name in lower case that no downloader uses for a file in the making.
pub open spec fn final_lower_name(lower: Seq<char>) -> bool {
    !(text::finishes_with(lower, ".part"@) || text::finishes_with(lower, ".ytdl"@)
        || text::finishes_with(lower, ".aria2"@) || text::finishes_with(lower, ".tmp"@)
        || text::finishes_with(lower, ".temp"@) || text::finishes_with(lower, ".webm.part"@)
        || text::finishes_with(lower, ".mp4.part"@))
}

/// A file name that no downloader uses for a file in the making.
pub open spec fn final_name(name: Seq<char>) -> bool {
    final_lower_name(unicode::lowercase(name))
}

/// Whether a file, by its name, is a finished download.
pub fn is_final_download_file(name: Option<&str>) -> (r: bool)
    ensures
        r == (match name {
            Some(n) => final_name(n@),
            None => false,
        }),
        name matches Some(n) ==> (vstd::utf8::is_ascii_chars(n@) ==> r == final_lower_name(
            text::ascii_lower(n@),
        )),
{
    match name {
        None => false,
        Some(n) => {
            let lowered = unicode::to_lowercase(n);
            let lower = lowered.as_str();
            !(text::ends_with(lower, ".part") || text::ends_with(lower, ".ytdl")
                || text::ends_with(lower, ".aria2") || text::ends_with(lower, ".tmp")
                || text::ends_with(lower, ".temp") || text::ends_with(lower, ".webm.part")
                || text::ends_with(lower, ".mp4.part"))
        },
    }
}

/// An entry of the download directory after a yt-dlp run.
#[derive(Debug)]
pub struct OutputEntry {
    pub is_file: bool,
    pub file_name: Option<String>,
    pub now: Option<FileSnapshot>,
}

/// Whether an entry is a finished, non-empty download that was written since
/// the run started.
pub open spec fn is_completed(e: OutputEntry, started_at: i128) -> bool {
    &&& e.is_file
    &&& e.file_name matches Some(name)
    &&& final_name(name@)
    &&& e.now matches Some(now)
    &&& now.len > 0
    &&& now.modified >= started_at
}

/// How well an entry fits the video: 2 where its name holds the id, else 1.
pub open spec fn fit(e: OutputEntry, id: Option<Seq<char>>) -> int {
    match (id, e.file_name) {
        (Some(needle), Some(name)) => if text::holds_text(name@, needle) {
            2
        } else {
            1
        },
        _ => 1,
    }
}

/// `b` fits the video better than `a`, or as well and is newer.
pub open spec fn beats(b: OutputEntry, a: OutputEntry, id: Option<Seq<char>>) -> bool {
    fit(b, id) > fit(a, id) || (fit(b, id) == fit(a, id) && b.now->0.modified > a.now->0.modified)
}

/// `i` is the completed entry that fits best: it beats every one before it,
/// and none after it beats it.
pub open spec fn is_best_output(
    entries: Seq<OutputEntry>,
    id: Option<Seq<char>>,
    started_at: i128,
    i: int,
) -> bool {
    &&& 0 <= i < entries.len()
    &&& is_completed(entries[i], started_at)
    &&& forall|j: int|
        0 <= j < i && is_completed(#[trigger] entries[j], started_at) ==> beats(
            entries[i],
            entries[j],
            id,
        )
    &&& forall|j: int|
        i < j < entries.len() && is_completed(#[trigger] entries[j], started_at) ==> !beats(
            entries[j],
            entries[i],
            id,
        )
}

fn check_completed(e: &OutputEntry, started_at: i128) -> (r: Option<FileSnapshot>)
    ensures
        r == (if is_completed(*e, started_at) {
            e.now
        } else {
            None
        }),
{
    let named = match &e.file_name {
        Some(name) => is_final_download_file(Some(name.as_str())),
        None => false,
    };
    if !e.is_file || !named {
        return None;
    }
    match e.now {
        Some(now) => if now.len > 0 && now.modified >= started_at {
            Some(now)
        } else {
            None
        },
        None => None,
    }
}

fn fit_of(e: &OutputEntry, id: &Option<String>) -> (r: u32)
    ensures
        r == fit(*e, text::opt_text(*id)),
{
    match (id, &e.file_name) {
        (Some(needle), Some(name)) => if text::contains(name.as_str(), needle.as_str()) {
            2
        } else {
            1
        },
        _ => 1,
    }
}

/// Finds the file that a yt-dlp run for the URL left in the directory.
pub fn find_completed_output(entries: &Vec<OutputEntry>, url: &str, started_at: i128) -> (r: Option<
    usize,
>)
    ensures
        match r {
            Some(i) => is_best_output(entries@, video_id(url@), started_at, i as int),
            None => forall|j: int|
                0 <= j < entries@.len() ==> !is_completed(#[trigger] entries@[j], started_at),
        },
{
    let id = youtube_video_id(url);
    let ghost want = video_id(url@);
    let mut best: Option<(usize, FileSnapshot, u32)> = None;
    let mut i: usize = 0;
    while i < entries.len()
        invariant
            i <= entries@.len(),
            want == video_id(url@),
            text::opt_text(id) == want,
            match best {
                Some((b, snap, score)) => {
                    &&& b < i
                    &&& entries@[b as int].now == Some(snap)
                    &&& score == fit(entries@[b as int], want)
                    &&& is_best_output(entries@.take(i as int), want, started_at, b as int)
                },
                None => forall|j: int|
                    0 <= j < i ==> !is_completed(#[trigger] entries@[j], started_at),
            },
        decreases entries@.len() - i,
    {
        let ghost seen = entries@.take(i as int);
        let ghost next = entries@.take(i + 1);
        assert forall|j: int| 0 <= j < i implies #[trigger] next[j] == seen[j] by {}
        if let Some(snap) = check_completed(&entries[i], started_at) {
            let score = fit_of(&entries[i], &id);
            let replace = match best {
                Some((_, old, old_score)) => score > old_score || (score == old_score
                    && snap.modified > old.modified),
                None => true,
            };
            if replace {
                proof {
                    assert forall|j: int|
                        0 <= j < i && is_completed(#[trigger] next[j], started_at) implies beats(
                        next[i as int],
                        next[j],
                        want,
                    ) by {
                        assert(seen[j] == next[j]);
                    }
                }
                best = Some((i, snap, score));
            }
        }
        i = i + 1;
    }
    assert(entries@.take(i as int) =~= entries@);
    match best {
        Some((b, _, _)) => Some(b),
        None => None,
    }
}

/// The format markers that yt-dlp puts into the names of files it merges.
pub open spec fn markers() -> Seq<Seq<char>> {
    seq![".f137"@, ".f136"@, ".f135"@, ".f134"@, ".f140"@, ".f251"@, ".f250"@, ".f249"@]
}

/// The names that a file may have after merging: for each of the first `n`
/// markers that its name holds, the name without the last one.
pub open spec fn merged_names_upto(name: Seq<char>, n: int) -> Seq<Seq<char>>
    decreases n,
{
    if n <= 0 {
        seq![]
    } else {
        match text::split_last(name, markers()[n - 1]) {
            Some((stem, ext)) => merged_names_upto(name, n - 1).push(stem + ext),
            None => merged_names_upto(name, n - 1),
        }
    }
}

/// Lists the names that a file may have after merging.
pub fn merged_names(name: &str) -> (r: Vec<String>)
    ensures
        text::texts(r@) == merged_names_upto(name@, markers().len() as int),
{
    let table: [&str; 8] = [
        ".f137",
        ".f136",
        ".f135",
        ".f134",
        ".f140",
        ".f251",
        ".f250",
        ".f249",
    ];
    let mut out: Vec<String> = Vec::new();
    let mut i: usize = 0;
    while i < 8
        invariant
            i <= 8,
            forall|k: int| 0 <= k < 8 ==> (#[trigger] table@[k])@ == markers()[k],
            text::texts(out@) == merged_names_upto(name@, i as int),
        decreases 8 - i,
    {
        if let Some((stem, ext)) = text::rsplit_once(name, table[i]) {
            let merged = text::concat2(stem.as_str(), ext.as_str());
            text::push_text(&mut out, merged.as_str());
        }
        i = i + 1;
    }
    out
}

/// What is left of the path that a yt-dlp run named.
#[derive(Debug, Clone, Copy, PartialEq, Eq, Structural)]
pub enum VerifiedOutput {
    /// No file.
    Missing,
    /// A file of the given size, at the path itself.
    Exact(u64),
    /// A file of the given size, under the merged name with the given number.
    Merged(usize, u64),
}

/// Picks the path itself if it is a file, else the first merged name that is
/// one. `exact` and `merged` are the sizes of the files, where they are files.
pub fn verified_output_metadata(exact: Option<u64>, merged: &Vec<Option<u64>>) -> (r: VerifiedOutput)
    ensures
        match (exact, r) {
            (Some(len), _) => r == VerifiedOutput::Exact(len),
            (None, VerifiedOutput::Merged(i, len)) => {
                &&& i < merged@.len()
                &&& merged@[i as int] == Some(len)
                &&& forall|j: int| 0 <= j < i ==> (#[trigger] merged@[j]) is None
            },
            (None, VerifiedOutput::Missing) => forall|j: int|
                0 <= j < merged@.len() ==> (#[trigger] merged@[j]) is None,
            (None, VerifiedOutput::Exact(_)) => false,
        },
        r is Exact <==> exact is Some,
        r is Missing ==> exact is None,
        exact is None && merged@.len() > 0 && merged@[0] is Some ==> r == VerifiedOutput::Merged(
            0,
            merged@[0]->0,
        ),
{
    if let Some(len) = exact {
        return VerifiedOutput::Exact(len);
    }
    let mut i: usize = 0;
    while i < merged.len()
        invariant
            exact is None,
            i <= merged@.len(),
            forall|j: int| 0 <= j < i ==> (#[trigger] merged@[j]) is None,
        decreases merged@.len() - i,
    {
        if let Some(len) = merged[i] {
            return VerifiedOutput::Merged(i, len);
        }
        i = i + 1;
    }
    VerifiedOutput::Missing
}

/// The newest output is a non-empty file.
pub proof fn lemma_newest_output_is_not_empty(entries: Seq<DirEntry>, started_at: i128, i: int)
    requires
        is_newest_output(entries, started_at, i),
    ensures
        entries[i].is_file,
        entries[i].now matches Some(now) && now.len > 0,
{
}

/// At most one entry is the newest output, and at most one is the best.
pub proof fn lemma_pick_is_unique(
    entries: Seq<DirEntry>,
    outputs: Seq<OutputEntry>,
    id: Option<Seq<char>>,
    started_at: i128,
    i: int,
    j: int,
)
    ensures
        is_newest_output(entries, started_at, i) && is_newest_output(entries, started_at, j) ==> i
            == j,
        is_best_output(outputs, id, started_at, i) && is_best_output(outputs, id, started_at, j)
            ==> i == j,
{
    if is_newest_output(entries, started_at, i) && is_newest_output(entries, started_at, j) && i
        != j {
        assert(may_be_output(entries[i], started_at));
        assert(may_be_output(entries[j], started_at));
    }
    if is_best_output(outputs, id, started_at, i) && is_best_output(outputs, id, started_at, j)
        && i != j {
        assert(is_completed(outputs[i], started_at));
        assert(is_completed(outputs[j], started_at));
    }
}

/// Which entries count as a run's: a new or changed file that is not empty, and
/// one that was written since the start; never a directory, an empty file, one
/// of aria2's control files, or a file that is as it was before.
pub proof fn lemma_what_counts_as_output(e: DirEntry, started_at: i128)
    ensures
        ({
            let control = e.extension matches Some(ext) && text::ascii_lower(ext@)
                == text::ascii_lower("aria2"@);
            &&& may_be_output(e, started_at) ==> e.is_file && !control && (e.now matches Some(now)
                && now.len > 0)
            &&& e.now matches Some(now) ==> {
                let usable = e.is_file && !control && now.len > 0;
                &&& usable && e.before is None ==> may_be_output(e, started_at)
                &&& usable && now.modified >= started_at ==> may_be_output(e, started_at)
                &&& e.before matches Some(old) ==> {
                    &&& usable && old.len != now.len ==> may_be_output(e, started_at)
                    &&& usable && old.modified < now.modified ==> may_be_output(e, started_at)
                    &&& old.len == now.len && old.modified >= now.modified && now.modified
                        < started_at ==> !may_be_output(e, started_at)
                }
            }
        }),
{
}

/// No file that counts as the run's was written after the one that is picked,
/// and none that was written at the same time is larger.
pub proof fn lemma_picked_file_is_the_newest(
    entries: Seq<DirEntry>,
    started_at: i128,
    i: int,
    j: int,
)
    requires
        is_newest_output(entries, started_at, i),
        0 <= j < entries.len(),
        may_be_output(entries[j], started_at),
    ensures
        entries[j].now->0.modified <= entries[i].now->0.modified,
        entries[j].now->0.modified == entries[i].now->0.modified ==> entries[j].now->0.len
            <= entries[i].now->0.len,
{
}

/// A file whose name holds the video's id is picked before every other, and
/// among files that are alike in this the newest one.
pub proof fn lemma_best_file_holds_the_id(
    entries: Seq<OutputEntry>,
    id: Seq<char>,
    started_at: i128,
    i: int,
    j: int,
)
    requires
        is_best_output(entries, Some(id), started_at, i),
        0 <= j < entries.len(),
        is_completed(entries[j], started_at),
    ensures
        ({
            let a = text::holds_text(entries[i].file_name->0@, id);
            let b = text::holds_text(entries[j].file_name->0@, id);
            &&& b ==> a
            &&& a == b ==> entries[j].now->0.modified <= entries[i].now->0.modified
        }),
{
    assert(is_completed(entries[i], started_at));
}

/// Without an id the newest finished file is picked, the first of several.
pub proof fn lemma_best_file_without_id(
    entries: Seq<OutputEntry>,
    started_at: i128,
    i: int,
    j: int,
)
    requires
        is_best_output(entries, None, started_at, i),
        0 <= j < entries.len(),
        is_completed(entries[j], started_at),
    ensures
        entries[j].now->0.modified <= entries[i].now->0.modified,
        j < i ==> entries[j].now->0.modified < entries[i].now->0.modified,
{
}

/// A picked file is a file that is not empty, was written since the start, and
/// has the name of a finished download; an entry of this kind counts.
pub proof fn lemma_what_counts_as_completed(e: OutputEntry, started_at: i128)
    ensures
        is_completed(e, started_at) <==> e.is_file && e.file_name is Some && final_name(
            e.file_name->0@,
        ) && e.now is Some && e.now->0.len > 0 && e.now->0.modified >= started_at,
{
}

proof fn lemma_last_char(s: Seq<char>, pat: Seq<char>)
    requires
        text::finishes_with(s, pat),
        pat.len() > 0,
    ensures
        s.len() > 0,
        s.last() == pat.last(),
{
    let i = s.len() - pat.len();
    assert(s.subrange(i, s.len() as int)[pat.len() - 1] == pat.last());
}

/// Which names are those of finished downloads: none that a downloader uses for
/// a file in the making, and every name that ends in none of these ways, so
/// those of videos and of audio files.
pub proof fn lemma_names_of_finished_files(lower: Seq<char>)
    ensures
        text::finishes_with(lower, ".part"@) || text::finishes_with(lower, ".ytdl"@)
            || text::finishes_with(lower, ".aria2"@) || text::finishes_with(lower, ".tmp"@)
            || text::finishes_with(lower, ".temp"@) <==> !final_lower_name(lower),
        text::finishes_with(lower, ".mp4"@) || text::finishes_with(lower, ".mkv"@)
            || text::finishes_with(lower, ".webm"@) || text::finishes_with(lower, ".mp3"@)
            || text::finishes_with(lower, ".m4a"@) ==> final_lower_name(lower),
{
    reveal_strlit(".part");
    reveal_strlit(".ytdl");
    reveal_strlit(".aria2");
    reveal_strlit(".tmp");
    reveal_strlit(".temp");
    reveal_strlit(".webm.part");
    reveal_strlit(".mp4.part");
    reveal_strlit(".mp4");
    reveal_strlit(".mkv");
    reveal_strlit(".webm");
    reveal_strlit(".mp3");
    reveal_strlit(".m4a");
    assert(".part"@.last() == 't' && ".ytdl"@.last() == 'l' && ".aria2"@.last() == '2');
    assert(".tmp"@.last() == 'p' && ".temp"@.last() == 'p');
    assert(".mp4"@.last() == '4' && ".mkv"@.last() == 'v' && ".webm"@.last() == 'm');
    assert(".mp3"@.last() == '3' && ".m4a"@.last() == 'a');
    if text::finishes_with(lower, ".webm.part"@) {
        let n = lower.len() as int;
        assert(lower.subrange(n - 10, n).subrange(5, 10) =~= ".part"@);
        assert(lower.subrange(n - 5, n) =~= lower.subrange(n - 10, n).subrange(5, 10));
    }
    if text::finishes_with(lower, ".mp4.part"@) {
        let n = lower.len() as int;
        assert(lower.subrange(n - 9, n).subrange(4, 9) =~= ".part"@);
        assert(lower.subrange(n - 5, n) =~= lower.subrange(n - 9, n).subrange(4, 9));
    }
    if text::finishes_with(lower, ".mp4"@) {
        lemma_last_char(lower, ".mp4"@);
    }
    if text::finishes_with(lower, ".mkv"@) {
        lemma_last_char(lower, ".mkv"@);
    }
    if text::finishes_with(lower, ".webm"@) {
        lemma_last_char(lower, ".webm"@);
    }
    if text::finishes_with(lower, ".mp3"@) {
        lemma_last_char(lower, ".mp3"@);
    }
    if text::finishes_with(lower, ".m4a"@) {
        lemma_last_char(lower, ".m4a"@);
    }
    if text::finishes_with(lower, ".part"@) {
        lemma_last_char(lower, ".part"@);
    }
    if text::finishes_with(lower, ".ytdl"@) {
        lemma_last_char(lower, ".ytdl"@);
    }
    if text::finishes_with(lower, ".aria2"@) {
        lemma_last_char(lower, ".aria2"@);
    }
    if text::finishes_with(lower, ".tmp"@) {
        lemma_last_char(lower, ".tmp"@);
    }
    if text::finishes_with(lower, ".temp"@) {
        lemma_last_char(lower, ".temp"@);
    }
}

/// The id of a video: what stands behind `youtu.be/`, else behind `v=`, else
/// behind `shorts/`, up to the next mark that ends it.
pub proof fn lemma_id_of_parts(head: Seq<char>, id: Seq<char>, tail: Seq<char>)
    requires
        id.len() > 0,
        forall|i: int|
            0 <= i < id.len() ==> (#[trigger] id[i]) != '?' && id[i] != '&' && id[i] != '/' && id[i]
                != '#',
        !text::is_white(id[0]) && !text::is_white(id.last()),
        tail.len() == 0 || tail[0] == '?' || tail[0] == '&' || tail[0] == '/' || tail[0] == '#',
    ensures
        ({
            let url = head + "youtu.be/"@ + (id + tail);
            (forall|j: int| 0 <= j < head.len() ==> !text::occurs_at(url, "youtu.be/"@, j))
                ==> video_id(url) == Some(id)
        }),
        ({
            let url = head + "v="@ + (id + tail);
            (forall|j: int| 0 <= j < head.len() ==> !text::occurs_at(url, "v="@, j))
                && !text::holds_text(url, "youtu.be/"@) ==> video_id(url) == Some(id)
        }),
        ({
            let url = head + "shorts/"@ + (id + tail);
            (forall|j: int| 0 <= j < head.len() ==> !text::occurs_at(url, "shorts/"@, j))
                && !text::holds_text(url, "youtu.be/"@) && !text::holds_text(url, "v="@)
                ==> video_id(url) == Some(id)
        }),
{
    text::lemma_before_first(id, tail, CharClass::UrlStop);
    text::lemma_trimmed_parts(Seq::empty(), id, Seq::empty(), CharClass::Whitespace);
    assert(Seq::empty() + id + Seq::empty() =~= id);
    let rest = id + tail;
    if forall|j: int|
        0 <= j < head.len() ==> !text::occurs_at(head + "youtu.be/"@ + rest, "youtu.be/"@, j) {
        text::lemma_split_first_parts(head, "youtu.be/"@, rest);
    }
    if forall|j: int| 0 <= j < head.len() ==> !text::occurs_at(head + "v="@ + rest, "v="@, j) {
        text::lemma_split_first_parts(head, "v="@, rest);
    }
    if forall|j: int|
        0 <= j < head.len() ==> !text::occurs_at(head + "shorts/"@ + rest, "shorts/"@, j) {
        text::lemma_split_first_parts(head, "shorts/"@, rest);
    }
}

/// A text that holds none of the three marks has no video id.
pub proof fn lemma_no_id_without_mark(url: Seq<char>)
    requires
        !text::holds_text(url, "youtu.be/"@),
        !text::holds_text(url, "v="@),
        !text::holds_text(url, "shorts/"@),
    ensures
        video_id(url) is None,
{
}

/// The markers of the formats that are merged.
pub open spec fn is_format_marker(m: Seq<char>) -> bool {
    m == ".f137"@ || m == ".f136"@ || m == ".f135"@ || m == ".f134"@ || m == ".f140"@ || m
        == ".f251"@ || m == ".f250"@ || m == ".f249"@
}

proof fn lemma_marker_is_listed(m: Seq<char>) -> (k: int)
    requires
        is_format_marker(m),
    ensures
        0 <= k < markers().len(),
        markers()[k] == m,
{
    if m == ".f137"@ {
        0
    } else if m == ".f136"@ {
        1
    } else if m == ".f135"@ {
        2
    } else if m == ".f134"@ {
        3
    } else if m == ".f140"@ {
        4
    } else if m == ".f251"@ {
        5
    } else if m == ".f250"@ {
        6
    } else {
        7
    }
}

proof fn lemma_merged_name_is_listed(name: Seq<char>, k: int, n: int)
    requires
        0 <= k < n <= markers().len(),
        text::split_last(name, markers()[k]) is Some,
    ensures
        ({
            let (stem, ext) = text::split_last(name, markers()[k])->0;
            merged_names_upto(name, n).contains(stem + ext)
        }),
    decreases n,
{
    let (stem, ext) = text::split_last(name, markers()[k])->0;
    if k == n - 1 {
        assert(merged_names_upto(name, n).last() == stem + ext);
    } else {
        lemma_merged_name_is_listed(name, k, n - 1);
        let before = merged_names_upto(name, n - 1);
        let at = before.index_of(stem + ext);
        assert(merged_names_upto(name, n)[at] == before[at]);
    }
}

/// A name with one of the markers gives the same name without it, whichever of
/// the markers it is.
pub proof fn lemma_marker_is_left_out(stem: Seq<char>, marker: Seq<char>, ext: Seq<char>)
    requires
        is_format_marker(marker),
        forall|j: int| stem.len() < j ==> !text::occurs_at(stem + marker + ext, marker, j),
    ensures
        merged_names_upto(stem + marker + ext, markers().len() as int).contains(stem + ext),
{
    text::lemma_split_last_parts(stem, marker, ext);
    let k = lemma_marker_is_listed(marker);
    lemma_merged_name_is_listed(stem + marker + ext, k, markers().len() as int);
}

/// A merged name is as much shorter as a marker is long, and there is none for a
/// name without markers.
pub proof fn lemma_merged_names_are_shorter(name: Seq<char>, n: int)
    requires
        0 <= n <= markers().len(),
    ensures
        forall|i: int|
            0 <= i < merged_names_upto(name, n).len() ==> (#[trigger] merged_names_upto(
                name,
                n,
            )[i]).len() + 5 == name.len(),
        (forall|m: Seq<char>| is_format_marker(m) ==> !text::holds_text(name, m))
            ==> merged_names_upto(name, n).len() == 0,
    decreases n,
{
    if n > 0 {
        lemma_merged_names_are_shorter(name, n - 1);
        let m = markers()[n - 1];
        reveal_strlit(".f137");
        reveal_strlit(".f136");
        reveal_strlit(".f135");
        reveal_strlit(".f134");
        reveal_strlit(".f140");
        reveal_strlit(".f251");
        reveal_strlit(".f250");
        reveal_strlit(".f249");
        assert(m.len() == 5);
        assert(is_format_marker(m));
        let before = merged_names_upto(name, n - 1);
        let all = merged_names_upto(name, n);
        if text::holds_text(name, m) {
            lemma_last_exists(name, m);
            let i = choose|i: int| text::last_at(name, m, i);
            assert(text::last_at(name, m, i));
        }
        assert forall|i: int| 0 <= i < all.len() implies (#[trigger] all[i]).len() + 5
            == name.len() by {
            if i < before.len() {
                assert(all[i] == before[i]);
            }
        }
    }
}

proof fn lemma_last_exists(s: Seq<char>, pat: Seq<char>)
    requires
        text::holds_text(s, pat),
    ensures
        exists|i: int| text::last_at(s, pat, i),
{
    let i = choose|i: int| text::occurs_at(s, pat, i);
    lemma_last_from(s, pat, i);
}

proof fn lemma_last_from(s: Seq<char>, pat: Seq<char>, i: int)
    requires
        text::occurs_at(s, pat, i),
    ensures
        exists|k: int| text::last_at(s, pat, k),
    decreases s.len() - i,
{
    if exists|j: int| i < j && text::occurs_at(s, pat, j) {
        let j = choose|j: int| i < j && text::occurs_at(s, pat, j);
        lemma_last_from(s, pat, j);
    } else {
        assert(text::last_at(s, pat, i));
    }
}

} // verus!
