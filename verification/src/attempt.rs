//! One run of aria2: what its output says, and how the run ends.
use vstd::prelude::*;
use vstd::string::*;
use std::collections::VecDeque;
use crate::aria2;
use crate::classifier;
use crate::classifier::{ErrorClassifier, ErrorCode};
use crate::events;
use crate::events::{Notice, NoticeView, UiSession, UiView};
use crate::numbers;
use crate::progress;
use crate::progress::{FieldsView, ProgressFields, ProgressSnapshot, SnapshotView};
use crate::text;

verus! {

/// How long, in milliseconds, the user interface rests between two updates.
pub const UPDATE_INTERVAL_MS: u64 = 250;

/// What a run has shown so far.
pub struct Attempt {
    lines: VecDeque<String>,
    classifier: ErrorClassifier,
    progress: ProgressSnapshot,
    reported: Option<String>,
}

/// What a run has shown so far, by its contents: the remembered lines, the
/// failures seen, the last progress, and the path reported as complete.
pub struct AttemptView {
    pub lines: Seq<Seq<char>>,
    pub seen: Set<ErrorCode>,
    pub progress: SnapshotView,
    pub reported: Option<Seq<char>>,
}

impl View for Attempt {
    type V = AttemptView;

    closed spec fn view(&self) -> AttemptView {
        AttemptView {
            lines: text::texts(self.lines@),
            seen: self.classifier@,
            progress: self.progress@,
            reported: text::opt_text(self.reported),
        }
    }
}

/// A run that has shown nothing.
pub open spec fn silent() -> AttemptView {
    AttemptView {
        lines: Seq::empty(),
        seen: Set::empty(),
        progress: progress::no_progress(),
        reported: None,
    }
}

/// An output line, cleaned, and its progress fields, where it is a progress line.
#[derive(Debug)]
pub struct OutputLine {
    pub text: String,
    pub fields: Option<ProgressFields>,
}

/// Reads a raw output line; `None` where nothing is left of it after cleaning.
pub fn read_line(raw: &str) -> (r: Option<OutputLine>)
    ensures
        match r {
            Some(line) => {
                &&& line.text@ == aria2::cleaned(raw@)
                &&& line.text@.len() > 0
                &&& progress::opt_fields(line.fields) == progress::progress_fields(line.text@)
            },
            None => aria2::cleaned(raw@).len() == 0,
        },
{
    let text = aria2::clean_output_line(raw);
    if text.as_str().is_empty() {
        return None;
    }
    let fields = progress::read_progress(text.as_str());
    Some(OutputLine { text, fields })
}

/// The state after a line. `fields` are the line's progress fields, `given` and
/// `from_sizes` the two percentages that they give.
pub open spec fn after_line(
    state: AttemptView,
    line: Seq<char>,
    fields: Option<FieldsView>,
    given: Option<u32>,
    from_sizes: Option<u32>,
) -> AttemptView {
    AttemptView {
        lines: aria2::remembered(state.lines, line),
        seen: match classifier::line_code(line) {
            Some(c) => state.seen.insert(c),
            None => state.seen,
        },
        progress: match fields {
            Some(f) => progress::snapshot_after(f, given, from_sizes, state.progress),
            None => state.progress,
        },
        reported: match aria2::completed_path(line) {
            Some(p) => Some(p),
            None => state.reported,
        },
    }
}

/// What the user interface is told of progress.
pub open spec fn progress_notices(ui: UiView, p: SnapshotView) -> Seq<NoticeView> {
    seq![
        NoticeView::Transfer(
            events::transfer_view(
                ui,
                p.pct as int,
                Some(p.speed),
                Some(p.eta),
                Some(p.downloaded),
                Some(p.total),
                "downloading"@,
            ),
        ),
        NoticeView::Status {
            text: "Downloading... "@ + numbers::decimal(p.pct as nat) + "%"@,
            kind: "dl"@,
        },
    ]
}

/// A file that a finished run may have produced.
#[derive(Debug)]
pub struct OutputFile {
    pub path: String,
    pub file_name: Option<String>,
    pub bytes: u64,
}

/// How a run of aria2 came to its end.
#[derive(Debug)]
pub enum RunEnd {
    /// The program could not be started.
    NotStarted { error: String },
    /// The program's state could not be read.
    StatusUnreadable { error: String },
    /// The program is no longer there.
    Gone,
    /// The user stopped it; the flag says whether they paused it.
    Stopped { paused: bool },
    /// It ended by itself; the file is the one found after a success.
    Exited { success: bool, exit_code: Option<i32>, output: Option<OutputFile> },
}

/// The result of an attempt.
#[derive(Debug)]
pub enum AttemptResult {
    Completed { path: String, file_name: String, bytes: u64 },
    Failed { detail: String },
    Paused,
    Cancelled,
}

/// The result of an attempt by its contents.
pub enum ResultView {
    Completed { path: Seq<char>, file_name: Seq<char>, bytes: u64 },
    Failed { detail: Seq<char> },
    Paused,
    Cancelled,
}

impl View for AttemptResult {
    type V = ResultView;

    open spec fn view(&self) -> ResultView {
        match *self {
            AttemptResult::Completed { path, file_name, bytes } => ResultView::Completed {
                path: path@,
                file_name: file_name@,
                bytes,
            },
            AttemptResult::Failed { detail } => ResultView::Failed { detail: detail@ },
            AttemptResult::Paused => ResultView::Paused,
            AttemptResult::Cancelled => ResultView::Cancelled,
        }
    }
}

/// `r` is the result of an attempt that has shown `state` and ended with `end`.
/// A success counts only with a file that is not empty.
pub open spec fn is_result(state: AttemptView, end: RunEnd, r: ResultView) -> bool {
    match end {
        RunEnd::NotStarted { error } => r == (ResultView::Failed {
            detail: "Failed to launch aria2: "@ + error@,
        }),
        RunEnd::StatusUnreadable { error } => r == (ResultView::Failed {
            detail: "Could not read aria2 process status: "@ + error@,
        }),
        RunEnd::Gone => r == ResultView::Cancelled,
        RunEnd::Stopped { paused } => r == (if paused {
            ResultView::Paused
        } else {
            ResultView::Cancelled
        }),
        RunEnd::Exited { success, exit_code, output } => if !success {
            exists|code: ErrorCode| #[trigger]
                classifier::is_most_urgent(state.seen, code) && r == (ResultView::Failed {
                    detail: aria2::failure_detail(code, exit_code, state.lines),
                })
        } else {
            match output {
                None => r == (ResultView::Failed {
                    detail: "aria2 exited successfully but no output file was found"@,
                }),
                Some(file) => if file.bytes == 0 {
                    r == (ResultView::Failed { detail: "aria2 created a 0B file: "@ + file.path@ })
                } else {
                    r == (ResultView::Completed {
                        path: file.path@,
                        file_name: match file.file_name {
                            Some(name) => name@,
                            None => "download"@,
                        },
                        bytes: file.bytes,
                    })
                },
            }
        },
    }
}

/// aria2 ended with success and left a file that is not empty.
pub open spec fn leaves_file(end: RunEnd) -> bool {
    end matches RunEnd::Exited { success: true, output: Some(file), .. } && file.bytes > 0
}

/// The transfer update of a run that is complete.
pub open spec fn completed_update(ui: UiView, p: SnapshotView) -> NoticeView {
    NoticeView::Transfer(
        events::transfer_view(
            ui,
            100,
            Some("Completed"@),
            Some("Done"@),
            Some(p.downloaded),
            Some(p.total),
            "completed"@,
        ),
    )
}

/// A transfer update that shows a download as complete.
pub open spec fn shows_completed(n: NoticeView) -> bool {
    n matches NoticeView::Transfer(t) && t.phase == "completed"@
}

impl Attempt {
    /// The codes are held once each, the lines are no more than are remembered,
    /// and the percentage is one.
    pub closed spec fn wf(&self) -> bool {
        &&& self.classifier.wf()
        &&& self.lines@.len() <= aria2::MAX_LINES
        &&& self.progress.pct <= 100
    }

    /// What a well-formed attempt guarantees.
    pub proof fn lemma_wf(&self)
        requires
            self.wf(),
        ensures
            self@.lines.len() <= aria2::MAX_LINES,
            self@.progress.pct <= 100,
    {
    }

    /// A run that has shown nothing, and what the user interface is told before
    /// it is started.
    pub fn start(ui: &UiSession) -> (r: (Attempt, Vec<Notice>))
        ensures
            r.0.wf(),
            r.0@ == silent(),
            events::notices(r.1@) == seq![
                NoticeView::Status { text: "Connecting..."@, kind: "dl"@ },
                events::bare_transfer(ui@, "connecting"@),
            ],
    {
        let attempt = Attempt {
            lines: VecDeque::new(),
            classifier: ErrorClassifier::new(),
            progress: ProgressSnapshot::default(),
            reported: None,
        };
        assert(attempt@.lines =~= Seq::empty());
        let mut list: Vec<Notice> = Vec::new();
        list.push(events::status("Connecting...", "dl"));
        list.push(events::phase_notice(ui, "connecting"));
        (attempt, list)
    }

    /// The last progress.
    pub fn progress(&self) -> (r: &ProgressSnapshot)
        ensures
            r@ == self@.progress,
    {
        &self.progress
    }

    /// The path that aria2 reported as complete.
    pub fn reported(&self) -> (r: Option<String>)
        ensures
            text::opt_text(r) == self@.reported,
    {
        self.reported.clone()
    }

    /// Takes in an output line. `given` and `from_sizes` are the percentages
    /// that its progress fields give.
    pub fn absorb(&mut self, line: &OutputLine, given: Option<u32>, from_sizes: Option<u32>)
        requires
            old(self).wf(),
        ensures
            final(self).wf(),
            final(self)@ == after_line(
                old(self)@,
                line.text@,
                progress::opt_fields(line.fields),
                given,
                from_sizes,
            ),
    {
        self.classifier.feed(line.text.as_str());
        aria2::remember_line(&mut self.lines, line.text.clone());
        assert(text::texts(self.lines@).len() == self.lines@.len());
        assert(text::texts(old(self).lines@).len() == old(self).lines@.len());
        if let Some(path) = aria2::parse_completed_path(line.text.as_str()) {
            self.reported = Some(path);
        }
        if let Some(fields) = &line.fields {
            let next = progress::next_snapshot(fields, given, from_sizes, &self.progress);
            self.progress = next;
        }
    }

    /// Takes in an output line while aria2 runs, and tells of progress where the
    /// last update was long enough ago.
    pub fn on_line(
        &mut self,
        ui: &UiSession,
        line: &OutputLine,
        given: Option<u32>,
        from_sizes: Option<u32>,
        since_update_ms: u64,
    ) -> (r: Vec<Notice>)
        requires
            old(self).wf(),
        ensures
            final(self).wf(),
            final(self)@ == after_line(
                old(self)@,
                line.text@,
                progress::opt_fields(line.fields),
                given,
                from_sizes,
            ),
            events::notices(r@) == (if line.fields is Some && since_update_ms
                >= UPDATE_INTERVAL_MS {
                progress_notices(ui@, final(self)@.progress)
            } else {
                seq![]
            }),
    {
        self.absorb(line, given, from_sizes);
        let mut list: Vec<Notice> = Vec::new();
        if line.fields.is_some() && since_update_ms >= UPDATE_INTERVAL_MS {
            let p = &self.progress;
            list.push(
                Notice::Transfer(
                    events::transfer_update(
                        ui,
                        p.pct,
                        Some(p.speed.as_str()),
                        Some(p.eta.as_str()),
                        Some(p.downloaded.as_str()),
                        Some(p.total.as_str()),
                        "downloading",
                    ),
                ),
            );
            let pct = numbers::decimal_text(p.pct as u64);
            let shown = text::concat3("Downloading... ", pct.as_str(), "%");
            list.push(events::status(shown.as_str(), "dl"));
        }
        list
    }

    /// What the user interface is told of a run that is complete: nothing unless
    /// aria2 ended with success and left a file that is not empty.
    pub fn success_notice(&self, ui: &UiSession, end: &RunEnd) -> (r: Option<Notice>)
        ensures
            r is Some <==> leaves_file(*end),
            r matches Some(n) ==> n@ == completed_update(ui@, self@.progress),
    {
        match end {
            RunEnd::Exited { success: true, output: Some(file), .. } => {
                if file.bytes == 0 {
                    return None;
                }
                Some(
                    Notice::Transfer(
                        events::transfer_update(
                            ui,
                            100,
                            Some("Completed"),
                            Some("Done"),
                            Some(self.progress.downloaded.as_str()),
                            Some(self.progress.total.as_str()),
                            "completed",
                        ),
                    ),
                )
            },
            _ => None,
        }
    }

    /// The result of the attempt.
    pub fn conclude(&self, end: RunEnd) -> (r: AttemptResult)
        ensures
            is_result(self@, end, r@),
    {
        match end {
            RunEnd::NotStarted { error } => AttemptResult::Failed {
                detail: text::concat2("Failed to launch aria2: ", error.as_str()),
            },
            RunEnd::StatusUnreadable { error } => AttemptResult::Failed {
                detail: text::concat2("Could not read aria2 process status: ", error.as_str()),
            },
            RunEnd::Gone => AttemptResult::Cancelled,
            RunEnd::Stopped { paused } => if paused {
                AttemptResult::Paused
            } else {
                AttemptResult::Cancelled
            },
            RunEnd::Exited { success, exit_code, output } => {
                if !success {
                    let code = self.classifier.classify();
                    let detail = aria2::build_failure_detail(&code, exit_code, &self.lines);
                    assert(classifier::is_most_urgent(self@.seen, code));
                    return AttemptResult::Failed { detail };
                }
                match output {
                    None => AttemptResult::Failed {
                        detail: "aria2 exited successfully but no output file was found".to_owned(),
                    },
                    Some(file) => {
                        if file.bytes == 0 {
                            AttemptResult::Failed {
                                detail: text::concat2(
                                    "aria2 created a 0B file: ",
                                    file.path.as_str(),
                                ),
                            }
                        } else {
                            let file_name = match &file.file_name {
                                Some(name) => aria2::file_name_from_path(Some(name.as_str())),
                                None => aria2::file_name_from_path(None),
                            };
                            AttemptResult::Completed {
                                path: file.path,
                                file_name,
                                bytes: file.bytes,
                            }
                        }
                    },
                }
            },
        }
    }
}

/// An attempt is reported as completed only where aria2 ended with success and
/// left a file that is not empty.
pub proof fn lemma_completed_means_nonempty_file(state: AttemptView, end: RunEnd, r: ResultView)
    requires
        is_result(state, end, r),
        r is Completed,
    ensures
        r->bytes > 0,
        end matches RunEnd::Exited { success, exit_code, output } && success && (output matches Some(
            file,
        ) && file.bytes == r->bytes && file.path@ == r->path),
{
}

/// A run is shown as complete exactly where its result is a completed attempt,
/// and so only once its file is known to be there and not empty.
pub proof fn lemma_shown_complete_means_completed(state: AttemptView, end: RunEnd, r: ResultView)
    requires
        is_result(state, end, r),
    ensures
        leaves_file(end) <==> r is Completed,
{
}

/// Nothing that the user interface is told before the end of a run shows it as
/// complete; the update of a complete run does.
pub proof fn lemma_only_the_end_shows_completion(ui: UiView, p: SnapshotView)
    ensures
        !shows_completed(events::bare_transfer(ui, "connecting"@)),
        forall|i: int|
            0 <= i < progress_notices(ui, p).len() ==> !shows_completed(
                #[trigger] progress_notices(ui, p)[i],
            ),
        shows_completed(completed_update(ui, p)),
{
    reveal_strlit("connecting");
    reveal_strlit("downloading");
    reveal_strlit("completed");
    assert("connecting"@.len() != "completed"@.len());
    assert("downloading"@.len() != "completed"@.len());
}

/// The result is determined by what the run showed and how it ended.
pub proof fn lemma_result_is_unique(state: AttemptView, end: RunEnd, a: ResultView, b: ResultView)
    requires
        is_result(state, end, a),
        is_result(state, end, b),
    ensures
        a == b,
{
    if let RunEnd::Exited { success, exit_code, output } = end {
        if !success {
            let x = choose|code: ErrorCode| #[trigger]
                classifier::is_most_urgent(state.seen, code) && a == (ResultView::Failed {
                    detail: aria2::failure_detail(code, exit_code, state.lines),
                });
            let y = choose|code: ErrorCode| #[trigger]
                classifier::is_most_urgent(state.seen, code) && b == (ResultView::Failed {
                    detail: aria2::failure_detail(code, exit_code, state.lines),
                });
            classifier::lemma_most_urgent_is_unique(state.seen, x, y);
        }
    }
}

/// What comes of an attempt: a success with a file that is not empty is
/// completed with that file, a stop is a pause or a cancellation, and all else
/// is a failure that says why.
pub proof fn lemma_results_of_ends(state: AttemptView, end: RunEnd, r: ResultView)
    requires
        is_result(state, end, r),
    ensures
        end matches RunEnd::NotStarted { error } ==> r == (ResultView::Failed {
            detail: "Failed to launch aria2: "@ + error@,
        }),
        end matches RunEnd::StatusUnreadable { error } ==> r == (ResultView::Failed {
            detail: "Could not read aria2 process status: "@ + error@,
        }),
        r is Paused <==> end == (RunEnd::Stopped { paused: true }),
        r is Cancelled <==> end == (RunEnd::Stopped { paused: false }) || end is Gone,
        end matches RunEnd::Exited { success, exit_code, output } ==> {
            &&& !success ==> r is Failed
            &&& success && output is None ==> r == (ResultView::Failed {
                detail: "aria2 exited successfully but no output file was found"@,
            })
            &&& output matches Some(file) ==> {
                &&& success && file.bytes == 0 ==> r == (ResultView::Failed {
                    detail: "aria2 created a 0B file: "@ + file.path@,
                })
                &&& success && file.bytes > 0 ==> r is Completed && r->path == file.path@
                    && r->bytes == file.bytes
                &&& success && file.bytes > 0 ==> (file.file_name matches Some(name)
                    ==> r->file_name == name@)
                &&& success && file.bytes > 0 && file.file_name is None ==> r->file_name
                    == "download"@
            }
        },
{
}

/// A failed run is explained by the most urgent error that its lines showed, its
/// exit code and the lines that are remembered.
pub proof fn lemma_failed_run_is_explained(
    state: AttemptView,
    exit_code: Option<i32>,
    output: Option<OutputFile>,
    code: ErrorCode,
    r: ResultView,
)
    requires
        is_result(state, RunEnd::Exited { success: false, exit_code, output }, r),
        classifier::is_most_urgent(state.seen, code),
    ensures
        r == (ResultView::Failed {
            detail: aria2::failure_detail(code, exit_code, state.lines),
        }),
{
    let x = choose|c: ErrorCode| #[trigger]
        classifier::is_most_urgent(state.seen, c) && r == (ResultView::Failed {
            detail: aria2::failure_detail(c, exit_code, state.lines),
        });
    classifier::lemma_most_urgent_is_unique(state.seen, x, code);
}

/// What a line changes: it is remembered as the newest, an error that it shows
/// is added to those seen, a completed path that it names takes the place of
/// the last one, and only a progress line changes the progress.
pub proof fn lemma_lines_are_taken_in(
    state: AttemptView,
    line: Seq<char>,
    fields: Option<FieldsView>,
    given: Option<u32>,
    from_sizes: Option<u32>,
)
    requires
        state.lines.len() <= 60,
    ensures
        ({
            let s = after_line(state, line, fields, given, from_sizes);
            &&& line.len() > 0 ==> s.lines.last() == line
            &&& line.len() > 0 && state.lines.len() < 60 ==> s.lines.drop_last() == state.lines
            &&& s.lines.len() <= 60
            &&& state.seen.subset_of(s.seen)
            &&& classifier::line_code(line) matches Some(c) ==> s.seen.contains(c)
            &&& classifier::line_code(line) is None ==> s.seen == state.seen
            &&& aria2::completed_path(line) is Some ==> s.reported == aria2::completed_path(line)
            &&& aria2::completed_path(line) is None ==> s.reported == state.reported
            &&& fields is None ==> s.progress == state.progress
            &&& fields is Some ==> (given matches Some(n) ==> (n <= 100 ==> s.progress.pct == n))
        }),
{
    aria2::lemma_sixty_lines_are_remembered(state.lines, line);
    if line.len() > 0 && state.lines.len() < 60 {
        assert(state.lines.push(line).drop_last() =~= state.lines);
    }
}

/// Progress is told as it stands: the percentage, the speed, the remaining time
/// and the sizes, as a download that is under way.
pub proof fn lemma_progress_is_told(ui: UiView, p: SnapshotView)
    requires
        p.pct <= 100,
    ensures
        ({
            let told = progress_notices(ui, p);
            &&& told.len() == 2
            &&& told[0] matches NoticeView::Transfer(t)
            &&& t.pct == p.pct
            &&& t.speed == p.speed
            &&& t.eta == p.eta
            &&& t.downloaded == p.downloaded
            &&& t.total == p.total
            &&& t.phase == "downloading"@
            &&& t.filename == ui.filename
            &&& t.strategy_name == ui.strategy_name
            &&& told[1] matches NoticeView::Status { text, kind }
            &&& text == "Downloading... "@ + numbers::decimal(p.pct as nat) + "%"@
            &&& kind == "dl"@
        }),
        completed_update(ui, p) matches NoticeView::Transfer(t) && t.pct == 100 && t.speed
            == "Completed"@ && t.eta == "Done"@ && t.downloaded == p.downloaded && t.total
            == p.total && t.filename == ui.filename,
{
}

} // verus!
