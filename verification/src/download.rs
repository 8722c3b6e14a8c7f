//! A download through aria2: one strategy after the other until one succeeds.
use vstd::prelude::*;
use vstd::string::*;
use crate::aria2;
use crate::attempt;
use crate::attempt::{AttemptResult, AttemptView, ResultView, RunEnd};
use crate::events;
use crate::events::{
    EventCategory, EventType, FileView, Finished, FinishedFile, FinishedView, Notice, NoticeView,
    UiSession, UiView,
};
use crate::numbers;
use crate::resolve;
use crate::resolve::{Aria2ResolutionError, DirProbe};
use crate::strategy;
use crate::strategy::Strategy;
use crate::text;

verus! {

/// What the user has asked for while the download runs.
#[derive(Debug, Clone, Copy, PartialEq, Eq, Structural)]
pub struct Flags {
    pub abort: bool,
    pub paused: bool,
}

/// The end of a run: what the user interface is told, and whether the session
/// is kept for resuming.
#[derive(Debug)]
pub struct RunEnded {
    pub notices: Vec<Notice>,
    pub keep_session: bool,
}

/// The end of a run by its contents.
pub struct EndView {
    pub notices: Seq<NoticeView>,
    pub keep_session: bool,
}

impl View for RunEnded {
    type V = EndView;

    open spec fn view(&self) -> EndView {
        EndView { notices: events::notices(self.notices@), keep_session: self.keep_session }
    }
}

/// No file to report.
pub open spec fn no_file() -> FileView {
    FileView { path: None, name: None, downloaded_bytes: None, total_bytes: None }
}

/// The report that ends an aria2 download.
pub open spec fn finished_view(
    id: Seq<char>,
    success: bool,
    status: Seq<char>,
    message: Seq<char>,
    file: FileView,
) -> NoticeView {
    NoticeView::Finished(
        FinishedView {
            download_id: id,
            success,
            status,
            engine: "aria2"@,
            message,
            file: Some(file),
            url: None,
        },
    )
}

fn finished(id: &str, success: bool, status: &str, message: &str, file: FinishedFile) -> (r: Notice)
    ensures
        r@ == finished_view(id@, success, status@, message@, file@),
{
    Notice::Finished(
        Finished {
            download_id: id.to_owned(),
            success,
            status: status.to_owned(),
            engine: "aria2".to_owned(),
            message: message.to_owned(),
            file: Some(file),
            url: None,
        },
    )
}

fn empty_file() -> (r: FinishedFile)
    ensures
        r@ == no_file(),
{
    FinishedFile { path: None, name: None, downloaded_bytes: None, total_bytes: None }
}

/// No aria2 is usable.
pub open spec fn missing_end(ui: UiView, detail: Seq<char>) -> EndView {
    EndView {
        notices: seq![
            NoticeView::Status { text: "aria2 not found"@, kind: "err"@ },
            NoticeView::Event {
                event_type: EventType::DownloadFailed,
                category: EventCategory::Error,
                title: "aria2 missing"@,
                details: Some(detail),
                update_key: None,
            },
            finished_view(ui.download_id, false, "failed"@, detail, no_file()),
        ],
        keep_session: false,
    }
}

/// The download directory is not usable.
pub open spec fn folder_end(ui: UiView, error: Seq<char>) -> EndView {
    EndView {
        notices: seq![
            NoticeView::Status { text: "Download folder unavailable"@, kind: "err"@ },
            finished_view(ui.download_id, false, "failed"@, error, no_file()),
        ],
        keep_session: false,
    }
}

/// The file is there already.
pub open spec fn exists_end(ui: UiView, path: Seq<char>, name: Seq<char>, len: u64) -> EndView {
    EndView {
        notices: seq![
            NoticeView::Status { text: "File already exists"@, kind: "warn"@ },
            finished_view(
                ui.download_id,
                false,
                "already_exists"@,
                "File already exists. No new download was made."@,
                FileView {
                    path: Some(path),
                    name: Some(name),
                    downloaded_bytes: Some(len),
                    total_bytes: Some(len),
                },
            ),
        ],
        keep_session: false,
    }
}

/// The download is complete.
pub open spec fn completed_end(ui: UiView, path: Seq<char>, name: Seq<char>, bytes: u64) -> EndView {
    EndView {
        notices: seq![
            NoticeView::Event {
                event_type: EventType::DownloadCompleted,
                category: EventCategory::Success,
                title: "Download completed"@,
                details: Some(
                    "Saved: "@ + path + " ("@ + numbers::byte_text(bytes as nat) + ")"@,
                ),
                update_key: None,
            },
            NoticeView::Status { text: "Download complete"@, kind: "ok"@ },
            finished_view(
                ui.download_id,
                true,
                "completed"@,
                "Download completed"@,
                FileView {
                    path: Some(path),
                    name: Some(name),
                    downloaded_bytes: Some(bytes),
                    total_bytes: Some(bytes),
                },
            ),
        ],
        keep_session: false,
    }
}

/// The user paused the download.
pub open spec fn paused_end(ui: UiView) -> EndView {
    EndView {
        notices: seq![
            events::bare_transfer(ui, "paused"@),
            NoticeView::Status { text: "Download paused"@, kind: "warn"@ },
            NoticeView::Paused { download_id: ui.download_id },
        ],
        keep_session: true,
    }
}

/// The user cancelled the download.
pub open spec fn cancelled_end(ui: UiView) -> EndView {
    EndView {
        notices: seq![
            events::bare_transfer(ui, "cancelled"@),
            NoticeView::Status { text: "Download cancelled"@, kind: "err"@ },
            finished_view(ui.download_id, false, "cancelled"@, "Download cancelled"@, no_file()),
        ],
        keep_session: false,
    }
}

/// No strategy succeeded.
pub open spec fn failed_end(ui: UiView, error: Seq<char>) -> EndView {
    EndView {
        notices: seq![
            events::bare_transfer(ui, "error"@),
            NoticeView::Event {
                event_type: EventType::DownloadFailed,
                category: EventCategory::Error,
                title: "Download failed"@,
                details: Some(error),
                update_key: None,
            },
            NoticeView::Status { text: "Download failed"@, kind: "err"@ },
            finished_view(ui.download_id, false, "failed"@, error, no_file()),
        ],
        keep_session: false,
    }
}

/// What the path of the expected file leads to.
#[derive(Debug, Clone, Copy, PartialEq, Eq, Structural)]
pub enum TargetMeta {
    /// Nothing that can be looked at.
    Unreadable,
    /// A file of the given size.
    File(u64),
    /// Something that is not a file.
    NotAFile,
}

/// The expected file: its path, the path's last component, and what is there.
#[derive(Debug)]
pub struct Target {
    pub path: String,
    pub file_name: Option<String>,
    pub meta: TargetMeta,
}

/// The name to show for the expected file.
pub open spec fn shown_name(target: Target) -> Seq<char> {
    match target.file_name {
        Some(name) => name@,
        None => "download"@,
    }
}

/// What to do about the expected file before the first attempt.
#[derive(Debug)]
pub enum TargetStep {
    /// It is there already: the run ends.
    Exists(RunEnded),
    /// What is left over there is to be removed if it is empty.
    RemoveStale,
    /// Nothing.
    Proceed,
}

/// Whether a left-over file is to be removed.
pub fn is_stale(is_file: bool, len: u64) -> (r: bool)
    ensures
        r == (is_file && len == 0),
{
    is_file && len == 0
}

/// The next step of a run.
#[derive(Debug)]
pub enum AttemptStep {
    /// aria2 is to be started with the arguments.
    Run { args: Vec<String>, notices: Vec<Notice> },
    /// The run ends.
    End(RunEnded),
}

/// What follows an attempt.
#[derive(Debug)]
pub enum AfterAttempt {
    /// The next step is due.
    Next(Vec<Notice>),
    /// The run ends.
    End(RunEnded),
}

/// A download through aria2.
pub struct DownloadRun {
    url: String,
    dir: String,
    custom_filename: Option<String>,
    resume_existing: bool,
    strategies: Vec<Strategy>,
    attempt: usize,
    final_error: String,
}

/// A run by its contents: the request, the number of attempts that failed, and
/// the reason of the last one.
pub struct RunView {
    pub url: Seq<char>,
    pub dir: Seq<char>,
    pub custom_filename: Option<Seq<char>>,
    pub resume_existing: bool,
    pub attempt: int,
    pub final_error: Seq<char>,
}

impl View for DownloadRun {
    type V = RunView;

    closed spec fn view(&self) -> RunView {
        RunView {
            url: self.url@,
            dir: self.dir@,
            custom_filename: text::opt_text(self.custom_filename),
            resume_existing: self.resume_existing,
            attempt: self.attempt as int,
            final_error: self.final_error@,
        }
    }
}

/// The number of strategies.
pub open spec fn strategy_count(url: Seq<char>) -> int {
    strategy::strategies(url).len() as int
}

/// What the user interface is told when an attempt starts.
pub open spec fn attempt_notices(s: strategy::StrategyView, attempt: int) -> Seq<NoticeView> {
    seq![
        NoticeView::StrategyChanged {
            attempt: (attempt + 1) as u32,
            name: s.name,
            description: s.description,
        },
        NoticeView::Event {
            event_type: EventType::MetadataUpdated,
            category: EventCategory::Info,
            title: "Using "@ + s.name,
            details: Some(s.description),
            update_key: Some("aria2-strategy"@),
        },
        NoticeView::Status {
            text: "Starting aria2 attempt "@ + numbers::decimal((attempt + 1) as nat) + "..."@,
            kind: "dl"@,
        },
    ]
}

/// What the user interface is told when the next strategy is due.
pub open spec fn retry_notices(next: strategy::StrategyView, error: Seq<char>) -> Seq<NoticeView> {
    seq![
        NoticeView::Event {
            event_type: EventType::Retrying,
            category: EventCategory::Warn,
            title: "Retrying with "@ + next.name,
            details: Some(error),
            update_key: Some("aria2-retry"@),
        },
        NoticeView::Status { text: "Retrying with "@ + next.name + "..."@, kind: "retry"@ },
    ]
}

/// The arguments that an attempt starts aria2 with.
pub open spec fn attempt_args(run: RunView) -> Seq<Seq<char>> {
    aria2::base_args() + strategy::strategies(run.url)[run.attempt].args + seq![
        "--dir="@ + run.dir,
    ] + aria2::out_args(run.custom_filename) + seq![run.url]
}

/// The end of a run for which no attempt is left, or that the user stopped.
pub open spec fn run_end(run: RunView, ui: UiView, flags: Flags) -> EndView {
    if flags.paused {
        paused_end(ui)
    } else if flags.abort {
        cancelled_end(ui)
    } else {
        failed_end(ui, run.final_error)
    }
}

/// The run after an attempt that failed.
pub open spec fn after_failure(run: RunView, detail: Seq<char>) -> RunView {
    RunView { attempt: run.attempt + 1, final_error: detail, ..run }
}

/// A run that has not begun.
pub open spec fn fresh_run(
    url: Seq<char>,
    dir: Seq<char>,
    custom_filename: Option<Seq<char>>,
    resume_existing: bool,
) -> RunView {
    RunView {
        url,
        dir,
        custom_filename,
        resume_existing,
        attempt: 0,
        final_error: "aria2 did not complete the download"@,
    }
}

fn paused(ui: &UiSession) -> (r: RunEnded)
    ensures
        r@ == paused_end(ui@),
{
    let mut list: Vec<Notice> = Vec::new();
    list.push(events::phase_notice(ui, "paused"));
    list.push(events::status("Download paused", "warn"));
    list.push(Notice::Paused { download_id: ui.download_id.clone() });
    assert(events::notices(list@) =~= paused_end(ui@).notices);
    RunEnded { notices: list, keep_session: true }
}

fn cancelled(ui: &UiSession) -> (r: RunEnded)
    ensures
        r@ == cancelled_end(ui@),
{
    let mut list: Vec<Notice> = Vec::new();
    list.push(events::phase_notice(ui, "cancelled"));
    list.push(events::status("Download cancelled", "err"));
    list.push(
        finished(
            ui.download_id.as_str(),
            false,
            "cancelled",
            "Download cancelled",
            empty_file(),
        ),
    );
    assert(events::notices(list@) =~= cancelled_end(ui@).notices);
    RunEnded { notices: list, keep_session: false }
}

fn failed(ui: &UiSession, error: &str) -> (r: RunEnded)
    ensures
        r@ == failed_end(ui@, error@),
{
    let mut list: Vec<Notice> = Vec::new();
    list.push(events::phase_notice(ui, "error"));
    list.push(
        events::event(
            EventType::DownloadFailed,
            EventCategory::Error,
            "Download failed",
            Some(error.to_owned()),
            None,
        ),
    );
    list.push(events::status("Download failed", "err"));
    list.push(finished(ui.download_id.as_str(), false, "failed", error, empty_file()));
    assert(events::notices(list@) =~= failed_end(ui@, error@).notices);
    RunEnded { notices: list, keep_session: false }
}

/// Ends a run for which no aria2 is usable.
pub fn runtime_missing(ui: &UiSession, error: &Aria2ResolutionError) -> (r: RunEnded)
    ensures
        r@ == missing_end(
            ui@,
            resolve::missing_text(error.message@, text::texts(error.diagnostics@)),
        ),
{
    let detail = resolve::missing_detail(error);
    let mut list: Vec<Notice> = Vec::new();
    list.push(events::status("aria2 not found", "err"));
    list.push(
        events::event(
            EventType::DownloadFailed,
            EventCategory::Error,
            "aria2 missing",
            Some(detail.clone()),
            None,
        ),
    );
    list.push(finished(ui.download_id.as_str(), false, "failed", detail.as_str(), empty_file()));
    assert(events::notices(list@) =~= missing_end(ui@, detail@).notices);
    RunEnded { notices: list, keep_session: false }
}

impl DownloadRun {
    /// The strategies are those for the URL, and no more attempts have failed
    /// than there are strategies.
    pub closed spec fn wf(&self) -> bool {
        &&& strategy::strategy_views(self.strategies@) == strategy::strategies(self.url@)
        &&& self.attempt <= self.strategies@.len()
    }

    /// What a well-formed run guarantees.
    pub proof fn lemma_wf(&self)
        requires
            self.wf(),
        ensures
            0 <= self@.attempt <= strategy_count(self@.url),
    {
        assert(strategy::strategy_views(self.strategies@).len() == self.strategies@.len());
    }

    /// A run that has not begun.
    pub fn new(
        url: String,
        dir: String,
        custom_filename: Option<String>,
        resume_existing: bool,
    ) -> (r: Self)
        ensures
            r.wf(),
            r@ == fresh_run(url@, dir@, text::opt_text(custom_filename), resume_existing),
    {
        let strategies = strategy::build_strategies(url.as_str());
        DownloadRun {
            url,
            dir,
            custom_filename,
            resume_existing,
            strategies,
            attempt: 0,
            final_error: "aria2 did not complete the download".to_owned(),
        }
    }

    /// Ends the run if the download directory is not usable.
    pub fn dir_checked(&self, ui: &UiSession, probe: &DirProbe) -> (r: Option<RunEnded>)
        ensures
            match r {
                Some(end) => resolve::dir_error(self@.dir, *probe) matches Some(e) && end@
                    == folder_end(ui@, e),
                None => resolve::dir_error(self@.dir, *probe) is None,
            },
    {
        match resolve::validate_output_dir(self.dir.as_str(), probe) {
            Ok(()) => None,
            Err(e) => {
                let mut list: Vec<Notice> = Vec::new();
                list.push(events::status("Download folder unavailable", "err"));
                list.push(
                    finished(ui.download_id.as_str(), false, "failed", e.as_str(), empty_file()),
                );
                assert(events::notices(list@) =~= folder_end(ui@, e@).notices);
                Some(RunEnded { notices: list, keep_session: false })
            },
        }
    }

    /// The name below the download directory under which the file is expected.
    pub fn target_name(&self) -> (r: Option<String>)
        ensures
            text::opt_text(r) == aria2::target_name(self@.url, self@.custom_filename),
    {
        match &self.custom_filename {
            Some(name) => aria2::known_target_path(self.url.as_str(), Some(name.as_str())),
            None => aria2::known_target_path(self.url.as_str(), None),
        }
    }

    /// Takes in what is at the expected path. Unless an earlier download is
    /// resumed, a file that is not empty ends the run, and anything else there
    /// is looked at as a left-over. If the run goes on, the session shows the
    /// file's name.
    pub fn target_checked(&self, ui: &mut UiSession, target: &Target) -> (r: TargetStep)
        ensures
            ({
                let exists = !self@.resume_existing && (target.meta matches TargetMeta::File(len)
                    && len > 0);
                &&& exists ==> (r matches TargetStep::Exists(end) && end@ == exists_end(
                    old(ui)@,
                    target.path@,
                    shown_name(*target),
                    target.meta->File_0,
                ))
                &&& !exists ==> r == (if !self@.resume_existing && target.meta
                    != TargetMeta::Unreadable {
                    TargetStep::RemoveStale
                } else {
                    TargetStep::Proceed
                })
                &&& final(ui)@ == (if exists {
                    old(ui)@
                } else {
                    UiView {
                        filename: Some(shown_name(*target)),
                        last_filename: Some(shown_name(*target)),
                        ..old(ui)@
                    }
                })
            }),
            self@.resume_existing ==> r is Proceed,
            target.meta is Unreadable ==> r is Proceed,
            target.meta matches TargetMeta::File(len) ==> (r is Exists <==> len > 0
                && !self@.resume_existing),
            target.meta == TargetMeta::File(0) && !self@.resume_existing ==> r is RemoveStale,
            target.meta is NotAFile && !self@.resume_existing ==> r is RemoveStale,
            r matches TargetStep::Exists(end) ==> report_of(end@).status == "already_exists"@,
    {
        let name = match &target.file_name {
            Some(name) => aria2::file_name_from_path(Some(name.as_str())),
            None => aria2::file_name_from_path(None),
        };
        let mut step = TargetStep::Proceed;
        if !self.resume_existing {
            match target.meta {
                TargetMeta::File(len) => {
                    if len > 0 {
                        let mut list: Vec<Notice> = Vec::new();
                        list.push(events::status("File already exists", "warn"));
                        list.push(
                            finished(
                                ui.download_id.as_str(),
                                false,
                                "already_exists",
                                "File already exists. No new download was made.",
                                FinishedFile {
                                    path: Some(target.path.clone()),
                                    name: Some(name.clone()),
                                    downloaded_bytes: Some(len),
                                    total_bytes: Some(len),
                                },
                            ),
                        );
                        assert(events::notices(list@) =~= exists_end(
                            old(ui)@,
                            target.path@,
                            name@,
                            len,
                        ).notices);
                        return TargetStep::Exists(
                            RunEnded { notices: list, keep_session: false },
                        );
                    }
                    step = TargetStep::RemoveStale;
                },
                TargetMeta::NotAFile => {
                    step = TargetStep::RemoveStale;
                },
                TargetMeta::Unreadable => {},
            }
        }
        ui.filename = Some(name.clone());
        ui.event_state.last_filename = Some(name);
        step
    }

    /// The next step: the attempt with the strategy that is due, unless the user
    /// stopped the download or no strategy is left.
    pub fn next_step(&self, ui: &mut UiSession, flags: Flags) -> (r: AttemptStep)
        requires
            self.wf(),
        ensures
            ({
                let due = !flags.abort && self@.attempt < strategy_count(self@.url);
                let s = strategy::strategies(self@.url)[self@.attempt];
                &&& due ==> {
                    &&& r matches AttemptStep::Run { args, notices }
                    &&& text::texts(args@) == attempt_args(self@)
                    &&& events::notices(notices@) == attempt_notices(s, self@.attempt)
                    &&& final(ui)@ == (UiView {
                        strategy_name: s.name,
                        strategy_attempt: (self@.attempt + 1) as u32,
                        ..old(ui)@
                    })
                }
                &&& !due ==> {
                    &&& r matches AttemptStep::End(end)
                    &&& end@ == run_end(self@, old(ui)@, flags)
                    &&& final(ui)@ == old(ui)@
                }
            }),
            flags.abort ==> r is End,
            r is Run <==> !flags.abort && self@.attempt < strategy::strategies(self@.url).len(),
            r matches AttemptStep::Run { args, notices } ==> text::texts(args@).last() == self@.url
                && final(ui)@.strategy_attempt == self@.attempt + 1,
    {
        proof {
            self.lemma_wf();
            assert(strategy::strategy_views(self.strategies@).len() == self.strategies@.len());
        }
        if self.attempt >= self.strategies.len() || flags.abort {
            let end = if flags.paused {
                paused(ui)
            } else if flags.abort {
                cancelled(ui)
            } else {
                failed(ui, self.final_error.as_str())
            };
            return AttemptStep::End(end);
        }
        let s = &self.strategies[self.attempt];
        assert(strategy::strategy_views(self.strategies@)[self.attempt as int] == s@);
        let number: u32 = self.attempt as u32 + 1;
        ui.strategy_name = s.name.clone();
        ui.strategy_attempt = number;
        let mut list: Vec<Notice> = Vec::new();
        list.push(
            Notice::StrategyChanged {
                attempt: number,
                name: s.name.clone(),
                description: s.description.clone(),
            },
        );
        let title = text::concat2("Using ", s.name.as_str());
        list.push(
            events::event(
                EventType::MetadataUpdated,
                EventCategory::Info,
                title.as_str(),
                Some(s.description.clone()),
                Some("aria2-strategy".to_owned()),
            ),
        );
        let digits = numbers::decimal_text(number as u64);
        let shown = text::concat3("Starting aria2 attempt ", digits.as_str(), "...");
        list.push(events::status(shown.as_str(), "dl"));
        assert(events::notices(list@) =~= attempt_notices(s@, self.attempt as int));
        let args = match &self.custom_filename {
            Some(name) => aria2::aria2_command_args(
                self.url.as_str(),
                self.dir.as_str(),
                Some(name.as_str()),
                s,
            ),
            None => aria2::aria2_command_args(self.url.as_str(), self.dir.as_str(), None, s),
        };
        AttemptStep::Run { args, notices: list }
    }

    /// Takes in the result of an attempt. A failure makes the next strategy due;
    /// any other result ends the run.
    pub fn attempt_ended(&mut self, ui: &mut UiSession, result: AttemptResult) -> (r: AfterAttempt)
        requires
            old(self).wf(),
            old(self)@.attempt < strategy_count(old(self)@.url),
        ensures
            final(self).wf(),
            match result@ {
                ResultView::Completed { path, file_name, bytes } => {
                    &&& r matches AfterAttempt::End(end)
                    &&& end@ == completed_end(old(ui)@, path, file_name, bytes)
                    &&& final(self)@ == old(self)@
                    &&& final(ui)@ == (UiView { filename: Some(file_name), ..old(ui)@ })
                },
                ResultView::Paused => {
                    &&& r matches AfterAttempt::End(end)
                    &&& end@ == paused_end(old(ui)@)
                    &&& final(self)@ == old(self)@
                    &&& final(ui)@ == old(ui)@
                },
                ResultView::Cancelled => {
                    &&& r matches AfterAttempt::End(end)
                    &&& end@ == cancelled_end(old(ui)@)
                    &&& final(self)@ == old(self)@
                    &&& final(ui)@ == old(ui)@
                },
                ResultView::Failed { detail } => {
                    &&& r matches AfterAttempt::Next(notices)
                    &&& final(self)@ == after_failure(old(self)@, detail)
                    &&& final(ui)@ == old(ui)@
                    &&& events::notices(notices@) == (if final(self)@.attempt < strategy_count(
                        old(self)@.url,
                    ) {
                        retry_notices(
                            strategy::strategies(old(self)@.url)[final(self)@.attempt],
                            detail,
                        )
                    } else {
                        seq![]
                    })
                },
            },
    {
        proof {
            self.lemma_wf();
            assert(strategy::strategy_views(self.strategies@).len() == self.strategies@.len());
        }
        match result {
            AttemptResult::Completed { path, file_name, bytes } => {
                let size = numbers::format_bytes(bytes);
                let saved = text::concat5("Saved: ", path.as_str(), " (", size.as_str(), ")");
                ui.filename = Some(file_name.clone());
                let mut list: Vec<Notice> = Vec::new();
                list.push(
                    events::event(
                        EventType::DownloadCompleted,
                        EventCategory::Success,
                        "Download completed",
                        Some(saved),
                        None,
                    ),
                );
                list.push(events::status("Download complete", "ok"));
                let ghost shown = path@;
                let ghost name = file_name@;
                list.push(
                    finished(
                        ui.download_id.as_str(),
                        true,
                        "completed",
                        "Download completed",
                        FinishedFile {
                            path: Some(path),
                            name: Some(file_name),
                            downloaded_bytes: Some(bytes),
                            total_bytes: Some(bytes),
                        },
                    ),
                );
                assert(events::notices(list@) =~= completed_end(
                    old(ui)@,
                    shown,
                    name,
                    bytes,
                ).notices);
                AfterAttempt::End(RunEnded { notices: list, keep_session: false })
            },
            AttemptResult::Paused => AfterAttempt::End(paused(ui)),
            AttemptResult::Cancelled => AfterAttempt::End(cancelled(ui)),
            AttemptResult::Failed { detail } => {
                self.final_error = detail;
                self.attempt = self.attempt + 1;
                let mut list: Vec<Notice> = Vec::new();
                if self.attempt < self.strategies.len() {
                    let next = &self.strategies[self.attempt];
                    assert(strategy::strategy_views(self.strategies@)[self.attempt as int]
                        == next@);
                    let title = text::concat2("Retrying with ", next.name.as_str());
                    list.push(
                        events::event(
                            EventType::Retrying,
                            EventCategory::Warn,
                            title.as_str(),
                            Some(self.final_error.clone()),
                            Some("aria2-retry".to_owned()),
                        ),
                    );
                    let shown = text::concat2(title.as_str(), "...");
                    list.push(events::status(shown.as_str(), "retry"));
                    assert(events::notices(list@) =~= retry_notices(next@, self.final_error@));
                }
                AfterAttempt::Next(list)
            },
        }
    }
}

/// A notice after which the user interface expects nothing more of the download.
pub open spec fn is_closing(n: NoticeView) -> bool {
    n is Paused || n is Finished
}

/// Every end of a run closes the download with its last notice and with no
/// other, names the download, and keeps the session exactly if it was paused.
pub proof fn lemma_ends_close_once(
    ui: UiView,
    detail: Seq<char>,
    path: Seq<char>,
    name: Seq<char>,
    len: u64,
    end: EndView,
)
    requires
        end == missing_end(ui, detail) || end == folder_end(ui, detail) || end == exists_end(
            ui,
            path,
            name,
            len,
        ) || end == completed_end(ui, path, name, len) || end == paused_end(ui) || end
            == cancelled_end(ui) || end == failed_end(ui, detail),
    ensures
        end.notices.len() > 0,
        is_closing(end.notices.last()),
        forall|i: int| 0 <= i < end.notices.len() - 1 ==> !is_closing(#[trigger] end.notices[i]),
        end.keep_session <==> end.notices.last() is Paused,
        end.notices.last() matches NoticeView::Finished(f) ==> f.download_id == ui.download_id
            && f.engine == "aria2"@,
        end.notices.last() matches NoticeView::Paused { download_id } ==> download_id
            == ui.download_id,
{
}

/// Success is reported for a completed attempt and for nothing else.
pub proof fn lemma_success_only_when_completed(
    ui: UiView,
    detail: Seq<char>,
    path: Seq<char>,
    name: Seq<char>,
    len: u64,
)
    ensures
        completed_end(ui, path, name, len).notices.last()->Finished_0.success,
        !missing_end(ui, detail).notices.last()->Finished_0.success,
        !folder_end(ui, detail).notices.last()->Finished_0.success,
        !exists_end(ui, path, name, len).notices.last()->Finished_0.success,
        !cancelled_end(ui).notices.last()->Finished_0.success,
        !failed_end(ui, detail).notices.last()->Finished_0.success,
{
}

/// A reported success is backed by a file: aria2 ended well, and left a file
/// that is not empty, of the reported path and size.
pub proof fn lemma_success_is_backed_by_a_file(
    ui: UiView,
    state: AttemptView,
    end: RunEnd,
    path: Seq<char>,
    name: Seq<char>,
    bytes: u64,
)
    requires
        attempt::is_result(
            state,
            end,
            ResultView::Completed { path, file_name: name, bytes },
        ),
    ensures
        ({
            let report = completed_end(ui, path, name, bytes).notices.last()->Finished_0;
            &&& report.success
            &&& report.file matches Some(f)
            &&& f.path == Some(path)
            &&& f.downloaded_bytes matches Some(n)
            &&& n > 0
            &&& end matches RunEnd::Exited { success: true, output: Some(file), .. }
            &&& file.path@ == path
            &&& file.bytes == n
        }),
{
}

/// A run after its first attempts failed for the given reasons.
pub open spec fn run_after(run: RunView, details: Seq<Seq<char>>) -> RunView
    decreases details.len(),
{
    if details.len() == 0 {
        run
    } else {
        after_failure(run_after(run, details.drop_last()), details.last())
    }
}

/// Each attempt uses the next strategy of the ordered list: after as many
/// failures as attempts, the attempt that is due is the one with that number,
/// and once every strategy has failed the reason that is reported is the last
/// attempt's.
pub proof fn lemma_strategies_are_tried_in_order(
    url: Seq<char>,
    dir: Seq<char>,
    custom: Option<Seq<char>>,
    resume: bool,
    details: Seq<Seq<char>>,
    ui: UiView,
)
    ensures
        ({
            let run = run_after(fresh_run(url, dir, custom, resume), details);
            &&& run.attempt == details.len()
            &&& run.url == url
            &&& run.dir == dir
            &&& run.custom_filename == custom
            &&& run.resume_existing == resume
            &&& details.len() > 0 ==> run.final_error == details.last() && run_end(
                run,
                ui,
                Flags { abort: false, paused: false },
            ) == failed_end(ui, details.last())
        }),
    decreases details.len(),
{
    if details.len() > 0 {
        lemma_strategies_are_tried_in_order(url, dir, custom, resume, details.drop_last(), ui);
    }
}

/// The flags that an attempt starts aria2 with are those of the strategy that
/// is due, the one that the user interface is told of: after `k` failures the
/// strategy with number `k` of the ordered list. They stand between the flags
/// of every run and the directory.
pub proof fn lemma_attempt_runs_its_strategy(
    url: Seq<char>,
    dir: Seq<char>,
    custom: Option<Seq<char>>,
    resume: bool,
    details: Seq<Seq<char>>,
)
    requires
        details.len() < strategy_count(url),
    ensures
        ({
            let run = run_after(fresh_run(url, dir, custom, resume), details);
            let k = details.len() as int;
            let s = strategy::strategies(url)[k];
            let args = attempt_args(run);
            let b = aria2::base_args().len() as int;
            let told = attempt_notices(s, run.attempt);
            &&& args.take(b) == aria2::base_args()
            &&& args.subrange(b, b + s.args.len()) == s.args
            &&& args[b + s.args.len()] == "--dir="@ + dir
            &&& args.last() == url
            &&& told[0] == (NoticeView::StrategyChanged {
                attempt: (k + 1) as u32,
                name: s.name,
                description: s.description,
            })
            &&& told[1] matches NoticeView::Event { title, .. }
            &&& title == "Using "@ + s.name
            &&& strategy::sets_user_agent(args.subrange(b, b + s.args.len())) <==> k >= 4
        }),
{
    lemma_strategies_are_tried_in_order(
        url,
        dir,
        custom,
        resume,
        details,
        events::fresh_ui(),
    );
    let run = run_after(fresh_run(url, dir, custom, resume), details);
    let k = details.len() as int;
    let s = strategy::strategies(url)[k];
    let args = attempt_args(run);
    let b = aria2::base_args().len() as int;
    assert(args.take(b) =~= aria2::base_args());
    assert(args.subrange(b, b + s.args.len()) =~= s.args);
    strategy::lemma_strategies_become_more_permissive(url, k);
}

/// The report that ends a run.
pub open spec fn report_of(end: EndView) -> FinishedView {
    end.notices.last()->Finished_0
}

/// What the ends of a run report: the status, what is said of it, and the file,
/// where there is one.
pub proof fn lemma_reports_of_ends(
    ui: UiView,
    detail: Seq<char>,
    path: Seq<char>,
    name: Seq<char>,
    len: u64,
)
    ensures
        ({
            let f = report_of(completed_end(ui, path, name, len));
            &&& f.status == "completed"@
            &&& f.message == "Download completed"@
            &&& f.file matches Some(file)
            &&& file.path == Some(path)
            &&& file.name == Some(name)
            &&& file.downloaded_bytes == Some(len)
            &&& file.total_bytes == Some(len)
        }),
        ({
            let f = report_of(exists_end(ui, path, name, len));
            &&& f.status == "already_exists"@
            &&& f.message == "File already exists. No new download was made."@
            &&& f.file matches Some(file)
            &&& file.path == Some(path)
            &&& file.name == Some(name)
            &&& file.downloaded_bytes == Some(len)
            &&& file.total_bytes == Some(len)
        }),
        report_of(missing_end(ui, detail)).status == "failed"@,
        report_of(missing_end(ui, detail)).message == detail,
        report_of(folder_end(ui, detail)).status == "failed"@,
        report_of(folder_end(ui, detail)).message == detail,
        report_of(failed_end(ui, detail)).status == "failed"@,
        report_of(failed_end(ui, detail)).message == detail,
        report_of(cancelled_end(ui)).status == "cancelled"@,
        report_of(cancelled_end(ui)).message == "Download cancelled"@,
        report_of(failed_end(ui, detail)).file matches Some(file) ==> file.path is None
            && file.downloaded_bytes is None,
        completed_end(ui, path, name, len).notices[0] matches NoticeView::Event {
            event_type,
            title,
            details,
            ..
        } && event_type == EventType::DownloadCompleted && title == "Download completed"@
            && details == Some("Saved: "@ + path + " ("@ + numbers::byte_text(len as nat) + ")"@),
        failed_end(ui, detail).notices[1] matches NoticeView::Event { event_type, details, .. }
            && event_type == EventType::DownloadFailed && details == Some(detail),
        paused_end(ui).notices.last() == (NoticeView::Paused { download_id: ui.download_id }),
{
}

/// How a run ends for which no attempt is made: paused wherever the user paused
/// it, else cancelled where they stopped it, and else failed with the reason of
/// the last attempt; a run without attempts says that nothing was completed.
pub proof fn lemma_stops_end_a_run(run: RunView, ui: UiView, flags: Flags)
    ensures
        ({
            let end = run_end(run, ui, flags);
            &&& end.keep_session <==> flags.paused
            &&& flags.paused <==> end.notices.last() is Paused
            &&& !flags.paused && flags.abort ==> report_of(end).status == "cancelled"@
            &&& !flags.paused && !flags.abort ==> report_of(end).status == "failed"@ && report_of(
                end,
            ).message == run.final_error
        }),
        fresh_run(run.url, run.dir, run.custom_filename, run.resume_existing).attempt == 0,
        fresh_run(run.url, run.dir, run.custom_filename, run.resume_existing).final_error
            == "aria2 did not complete the download"@,
{
}

/// A failure is told with its reason and the name of the strategy that comes
/// next; attempts are counted from one.
pub proof fn lemma_retries_are_told(s: strategy::StrategyView, attempt: int, error: Seq<char>)
    requires
        0 <= attempt < 1000,
    ensures
        retry_notices(s, error)[0] matches NoticeView::Event { event_type, title, details, .. }
            && event_type == EventType::Retrying && title == "Retrying with "@ + s.name && details
            == Some(error),
        retry_notices(s, error)[1] == (NoticeView::Status {
            text: "Retrying with "@ + s.name + "..."@,
            kind: "retry"@,
        }),
        attempt_notices(s, attempt)[0] matches NoticeView::StrategyChanged {
            attempt: n,
            name,
            description,
        } && n == attempt + 1 && name == s.name && description == s.description,
        attempt_notices(s, attempt)[2] == (NoticeView::Status {
            text: "Starting aria2 attempt "@ + numbers::decimal((attempt + 1) as nat) + "..."@,
            kind: "dl"@,
        }),
{
}

/// Every attempt of a run downloads the same URL to the same directory under the
/// same name, with the flags of every run; only the strategy's own flags differ.
pub proof fn lemma_attempts_differ_in_strategy_only(
    url: Seq<char>,
    dir: Seq<char>,
    custom: Option<Seq<char>>,
    resume: bool,
    some: Seq<Seq<char>>,
    more: Seq<Seq<char>>,
)
    requires
        some.len() < strategy_count(url),
        more.len() < strategy_count(url),
    ensures
        ({
            let a = attempt_args(run_after(fresh_run(url, dir, custom, resume), some));
            let b = attempt_args(run_after(fresh_run(url, dir, custom, resume), more));
            let m = strategy::strategies(url)[some.len() as int].args.len() as int;
            let n = strategy::strategies(url)[more.len() as int].args.len() as int;
            &&& a.take(11) == b.take(11)
            &&& a.skip(11 + m) == b.skip(11 + n)
            &&& a.skip(11 + m)[0] == "--dir="@ + dir
            &&& a.last() == url
        }),
{
    lemma_attempt_runs_its_strategy(url, dir, custom, resume, some);
    lemma_attempt_runs_its_strategy(url, dir, custom, resume, more);
    lemma_strategies_are_tried_in_order(url, dir, custom, resume, some, events::fresh_ui());
    lemma_strategies_are_tried_in_order(url, dir, custom, resume, more, events::fresh_ui());
    let a = attempt_args(run_after(fresh_run(url, dir, custom, resume), some));
    let b = attempt_args(run_after(fresh_run(url, dir, custom, resume), more));
    let m = strategy::strategies(url)[some.len() as int].args.len() as int;
    let n = strategy::strategies(url)[more.len() as int].args.len() as int;
    let tail = seq!["--dir="@ + dir] + aria2::out_args(custom) + seq![url];
    assert(a.skip(11 + m) =~= tail);
    assert(b.skip(11 + n) =~= tail);
}

} // verus!
