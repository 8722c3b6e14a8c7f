//! One run of yt-dlp: what it has shown, and how it ends.
use vstd::prelude::*;
use vstd::string::*;
use crate::attempt;
use crate::download;
use crate::download::{EndView, Flags, RunEnded};
use crate::events;
use crate::events::{
    EventCategory, EventType, FileView, Finished, FinishedFile, FinishedView, Notice, NoticeView,
    UiSession, UiView,
};
use crate::numbers;
use crate::text;
use crate::yt_dlp;
use crate::yt_output::{KindView, LineKind, YtFields, YtFieldsView, YtLine, YtLineView};

verus! {

/// How long, in milliseconds, the user interface rests between two updates.
pub const UPDATE_INTERVAL_MS: u64 = 250;

/// Whether the end of a run keeps the session for resuming: every end does.
pub const KEEP_SESSION: bool = true;

/// Where a run of yt-dlp stands.
#[derive(Debug, Clone, Copy, PartialEq, Eq, Structural)]
pub enum YtPhase {
    Idle,
    ExtractingInfo,
    Downloading,
    PostProcessing,
    Completed,
    Failed,
    Cancelled,
    Paused,
}

impl YtPhase {
    /// The name that the user interface knows the phase by.
    pub open spec fn name(self) -> Seq<char> {
        match self {
            YtPhase::Idle => "idle"@,
            YtPhase::ExtractingInfo => "extracting"@,
            YtPhase::Downloading => "downloading"@,
            YtPhase::PostProcessing => "post_processing"@,
            YtPhase::Completed => "completed"@,
            YtPhase::Failed => "failed"@,
            YtPhase::Cancelled => "cancelled"@,
            YtPhase::Paused => "paused"@,
        }
    }

    /// The name that the user interface knows the phase by.
    pub fn as_str(self) -> (r: &'static str)
        ensures
            r@ == self.name(),
    {
        match self {
            YtPhase::Idle => "idle",
            YtPhase::ExtractingInfo => "extracting",
            YtPhase::Downloading => "downloading",
            YtPhase::PostProcessing => "post_processing",
            YtPhase::Completed => "completed",
            YtPhase::Failed => "failed",
            YtPhase::Cancelled => "cancelled",
            YtPhase::Paused => "paused",
        }
    }
}

/// What a run has shown so far.
pub struct YtRun {
    percent: String,
    whole: u32,
    speed: String,
    eta: String,
    total: String,
    downloaded: String,
    phase: YtPhase,
    saw_already: bool,
    saw_error: bool,
    saw_progress: bool,
    saw_destination: bool,
    saw_merger: bool,
    cookie_required: bool,
    final_path: Option<String>,
    last_error: Option<String>,
    last_stderr: Option<String>,
}

/// What a run has shown so far, by its contents. `percent` is the percentage as
/// it was written, `whole` its whole part.
pub struct YtView {
    pub percent: Seq<char>,
    pub whole: u32,
    pub speed: Seq<char>,
    pub eta: Seq<char>,
    pub total: Seq<char>,
    pub downloaded: Seq<char>,
    pub phase: YtPhase,
    pub saw_already: bool,
    pub saw_error: bool,
    pub saw_progress: bool,
    pub saw_destination: bool,
    pub saw_merger: bool,
    pub cookie_required: bool,
    pub final_path: Option<Seq<char>>,
    pub last_error: Option<Seq<char>>,
    pub last_stderr: Option<Seq<char>>,
}

impl View for YtRun {
    type V = YtView;

    closed spec fn view(&self) -> YtView {
        YtView {
            percent: self.percent@,
            whole: self.whole,
            speed: self.speed@,
            eta: self.eta@,
            total: self.total@,
            downloaded: self.downloaded@,
            phase: self.phase,
            saw_already: self.saw_already,
            saw_error: self.saw_error,
            saw_progress: self.saw_progress,
            saw_destination: self.saw_destination,
            saw_merger: self.saw_merger,
            cookie_required: self.cookie_required,
            final_path: text::opt_text(self.final_path),
            last_error: text::opt_text(self.last_error),
            last_stderr: text::opt_text(self.last_stderr),
        }
    }
}

/// A run that has shown nothing.
pub open spec fn silent() -> YtView {
    YtView {
        percent: "0"@,
        whole: 0,
        speed: "—"@,
        eta: "—"@,
        total: "—"@,
        downloaded: "—"@,
        phase: YtPhase::ExtractingInfo,
        saw_already: false,
        saw_error: false,
        saw_progress: false,
        saw_destination: false,
        saw_merger: false,
        cookie_required: false,
        final_path: None,
        last_error: None,
        last_stderr: None,
    }
}

/// The transfer update that shows a phase. A completed download shows one
/// hundred percent; post-processing shows no speed, and no less than what was
/// downloaded.
pub open spec fn phase_view(
    state: YtView,
    ui: UiView,
    phase: YtPhase,
    pct: u32,
    speed: Option<Seq<char>>,
    eta: Option<Seq<char>>,
) -> NoticeView {
    let shown_pct = match phase {
        YtPhase::Completed => 100,
        YtPhase::PostProcessing => if pct > state.whole {
            pct
        } else {
            state.whole
        },
        _ => pct,
    };
    let shown_speed = match (phase, speed) {
        (YtPhase::Completed, None) => Some("Completed"@),
        (YtPhase::PostProcessing, _) => Some("—"@),
        _ => speed,
    };
    let shown_eta = match (phase, eta) {
        (YtPhase::Completed, None) => Some("Done"@),
        (YtPhase::PostProcessing, _) => Some("—"@),
        _ => eta,
    };
    NoticeView::Transfer(
        events::transfer_view(
            ui,
            shown_pct as int,
            shown_speed,
            shown_eta,
            Some(state.downloaded),
            Some(state.total),
            phase.name(),
        ),
    )
}

/// The file that a line names: the last component of its cleaned path, where
/// there is one, and its path, with the download directory in front where it
/// is relative.
#[derive(Debug)]
pub struct NamedFile {
    pub file_name: Option<String>,
    pub path: String,
}

/// What the percentage and the total that a progress line leaves in force come
/// to as numbers: whether the line's percentage is a number, its whole part,
/// whether it is above zero, and the bytes it stands for, where the total is a
/// number.
#[derive(Debug, Clone, Copy, PartialEq, Eq, Structural)]
pub struct Measured {
    pub readable: bool,
    pub whole: u32,
    pub positive: bool,
    pub bytes: Option<u64>,
}

/// The name to show for a file that a line names.
pub open spec fn shown_name(cleaned: Seq<char>, file: NamedFile) -> Seq<char> {
    match file.file_name {
        Some(name) => name@,
        None => cleaned,
    }
}

/// A written speed that says something.
pub open spec fn tells_speed(s: Seq<char>) -> bool {
    s != "Unknown speed"@ && s != "Unknown"@ && s.len() > 0
}

/// A written remaining time that says something.
pub open spec fn tells_eta(s: Seq<char>) -> bool {
    s != "Unknown"@ && s != "0"@ && s != "00:00"@ && s.len() > 0
}

/// The state after a progress line.
pub open spec fn after_progress(state: YtView, f: YtFieldsView, m: Measured) -> YtView {
    YtView {
        percent: if m.readable {
            f.pct
        } else {
            state.percent
        },
        whole: m.whole,
        total: match f.total {
            Some(t) => t,
            None => state.total,
        },
        speed: match f.speed {
            Some(s) => if tells_speed(s) {
                s
            } else {
                state.speed
            },
            None => state.speed,
        },
        eta: match f.eta {
            Some(e) => if tells_eta(e) {
                e
            } else {
                state.eta
            },
            None => state.eta,
        },
        downloaded: match m.bytes {
            Some(n) => numbers::byte_text(n as nat),
            None => state.downloaded,
        },
        saw_progress: state.saw_progress || m.positive,
        phase: if state.phase == YtPhase::PostProcessing {
            YtPhase::PostProcessing
        } else {
            YtPhase::Downloading
        },
        ..state
    }
}

/// The state after what every line may say, whatever else it says: that YouTube
/// wants verification, and that it came from the error stream.
pub open spec fn after_any(state: YtView, line: YtLineView) -> YtView {
    YtView {
        cookie_required: state.cookie_required || line.asks_verification,
        saw_error: state.saw_error || line.asks_verification,
        last_error: if line.asks_verification {
            Some(line.shown)
        } else {
            state.last_error
        },
        last_stderr: if line.from_stdout {
            state.last_stderr
        } else {
            Some(line.text)
        },
        ..state
    }
}

/// The state after what a line says in particular. `file` counts for a line that
/// names a file, `m` for a progress line.
pub open spec fn after_kind(s: YtView, line: YtLineView, file: NamedFile, m: Measured) -> YtView {
    match line.kind {
        KindView::Progress(f) => after_progress(s, f, m),
        KindView::Destination(_) => YtView {
            final_path: Some(file.path@),
            saw_destination: true,
            phase: if s.phase == YtPhase::ExtractingInfo {
                YtPhase::Downloading
            } else {
                s.phase
            },
            ..s
        },
        KindView::Already(_) => YtView {
            saw_already: true,
            percent: "100"@,
            whole: 100,
            final_path: Some(file.path@),
            phase: YtPhase::Downloading,
            ..s
        },
        KindView::Merging(Some(_)) => YtView {
            final_path: Some(file.path@),
            saw_merger: true,
            phase: YtPhase::PostProcessing,
            ..s
        },
        KindView::Merging(None) => YtView { phase: YtPhase::PostProcessing, ..s },
        KindView::Deleting => YtView { phase: YtPhase::PostProcessing, ..s },
        KindView::Converting => YtView { phase: YtPhase::PostProcessing, ..s },
        KindView::Error => YtView { saw_error: true, last_error: Some(line.shown), ..s },
        KindView::Other { info, error } => if s.phase == YtPhase::ExtractingInfo && info {
            s
        } else if error {
            YtView { saw_error: true, last_error: Some(line.shown), ..s }
        } else {
            s
        },
    }
}

/// The state after a line.
pub open spec fn after_line(state: YtView, line: YtLineView, file: NamedFile, m: Measured) -> YtView {
    after_kind(after_any(state, line), line, file, m)
}

/// The session after a line: it shows the name of the file that the line names.
pub open spec fn ui_after_line(ui: UiView, line: YtLineView, file: NamedFile) -> UiView {
    match line.kind {
        KindView::Destination(p) => UiView { filename: Some(shown_name(p, file)), ..ui },
        KindView::Already(p) => UiView { filename: Some(shown_name(p, file)), ..ui },
        KindView::Merging(Some(p)) => UiView { filename: Some(shown_name(p, file)), ..ui },
        _ => ui,
    }
}

/// Whether a line shows progress: only a progress line does, and only once the
/// last update is long enough ago or the download is full.
pub open spec fn shows_progress(line: YtLineView, m: Measured, since_update_ms: u64) -> bool {
    line.kind is Progress && (since_update_ms >= UPDATE_INTERVAL_MS || m.whole >= 100)
}

/// An event of the log.
pub open spec fn log_view(
    event_type: EventType,
    category: EventCategory,
    title: Seq<char>,
    details: Option<Seq<char>>,
) -> NoticeView {
    NoticeView::Event { event_type, category, title, details, update_key: None }
}

/// What the user interface is told of a line that led to state `s`, with the
/// session as the line leaves it.
pub open spec fn line_notices(
    s: YtView,
    ui: UiView,
    line: YtLineView,
    file: NamedFile,
    m: Measured,
    since_update_ms: u64,
) -> Seq<NoticeView> {
    let post = phase_view(s, ui, YtPhase::PostProcessing, 100, None, None);
    match line.kind {
        KindView::Progress(_) => if shows_progress(line, m, since_update_ms) {
            seq![phase_view(s, ui, s.phase, s.whole, Some(s.speed), Some(s.eta))]
        } else {
            seq![]
        },
        KindView::Destination(p) => seq![
            log_view(
                EventType::MetadataUpdated,
                EventCategory::Info,
                "File name detected"@,
                Some(shown_name(p, file)),
            ),
        ],
        KindView::Already(_) => seq![
            NoticeView::Status { text: "Already downloaded"@, kind: "ok"@ },
            phase_view(s, ui, YtPhase::Downloading, 100, Some(s.speed), Some(s.eta)),
        ],
        KindView::Merging(Some(p)) => seq![
            log_view(
                EventType::MetadataUpdated,
                EventCategory::Info,
                "Merging started"@,
                Some(shown_name(p, file)),
            ),
            NoticeView::Status { text: "Merging formats…"@, kind: "info"@ },
            post,
        ],
        KindView::Merging(None) => seq![
            NoticeView::Status { text: "Merging formats…"@, kind: "info"@ },
            post,
        ],
        KindView::Deleting => seq![
            NoticeView::Status { text: "Post-processing…"@, kind: "info"@ },
            post,
        ],
        KindView::Converting => seq![
            NoticeView::Status { text: "Converting audio…"@, kind: "info"@ },
            post,
        ],
        KindView::Error => seq![
            NoticeView::Status { text: "yt-dlp error"@, kind: "error"@ },
            log_view(
                EventType::DownloadFailed,
                EventCategory::Error,
                "yt-dlp reported error"@,
                Some(line.shown),
            ),
        ],
        KindView::Other { info, error } => if s.phase == YtPhase::ExtractingInfo && info {
            seq![phase_view(s, ui, YtPhase::ExtractingInfo, 0, None, None)]
        } else if error {
            seq![
                log_view(
                    EventType::DownloadFailed,
                    EventCategory::Error,
                    "yt-dlp error"@,
                    Some(line.shown),
                ),
            ]
        } else {
            seq![]
        },
    }
}

/// What follows a line: what the user interface is told, and whether that was
/// an update of the progress, from which the next rest counts.
#[derive(Debug)]
pub struct LineStep {
    pub notices: Vec<Notice>,
    pub progress_shown: bool,
}

fn log(event_type: EventType, category: EventCategory, title: &str, details: Option<String>) -> (r:
    Notice)
    ensures
        r@ == log_view(event_type, category, title@, text::opt_text(details)),
{
    events::event(event_type, category, title, details, None)
}

impl YtRun {
    /// A run that has shown nothing, and what the user interface is told when
    /// it begins.
    pub fn start(ui: &UiSession) -> (r: (YtRun, Vec<Notice>))
        ensures
            r.0@ == silent(),
            events::notices(r.1@) == seq![
                phase_view(silent(), ui@, YtPhase::ExtractingInfo, 0, None, None),
            ],
    {
        let run = YtRun {
            percent: "0".to_owned(),
            whole: 0,
            speed: "—".to_owned(),
            eta: "—".to_owned(),
            total: "—".to_owned(),
            downloaded: "—".to_owned(),
            phase: YtPhase::ExtractingInfo,
            saw_already: false,
            saw_error: false,
            saw_progress: false,
            saw_destination: false,
            saw_merger: false,
            cookie_required: false,
            final_path: None,
            last_error: None,
            last_stderr: None,
        };
        let mut list: Vec<Notice> = Vec::new();
        list.push(run.phase_update(ui, YtPhase::ExtractingInfo, 0, None, None));
        (run, list)
    }

    /// The path of the file that the run last named.
    pub fn final_path(&self) -> (r: Option<String>)
        ensures
            text::opt_text(r) == self@.final_path,
    {
        self.final_path.clone()
    }

    /// The percentage that a progress line leaves in force, as it is written:
    /// the line's own if it is a number, else the last one.
    pub fn percent_in_force(&self, fields: &YtFields, readable: bool) -> (r: String)
        ensures
            r@ == (if readable {
                fields@.pct
            } else {
                self@.percent
            }),
            forall|m: Measured|
                m.readable == readable ==> r@ == (#[trigger] after_progress(
                    self@,
                    fields@,
                    m,
                )).percent,
    {
        if readable {
            fields.pct.clone()
        } else {
            self.percent.clone()
        }
    }

    /// The total that a progress line leaves in force: its own, else the last one.
    pub fn total_in_force(&self, fields: &YtFields) -> (r: String)
        ensures
            r@ == (match fields@.total {
                Some(t) => t,
                None => self@.total,
            }),
            forall|m: Measured|
                r@ == (#[trigger] after_progress(self@, fields@, m)).total,
    {
        match &fields.total {
            Some(t) => t.clone(),
            None => self.total.clone(),
        }
    }

    /// The transfer update that shows a phase.
    pub fn phase_update(
        &self,
        ui: &UiSession,
        phase: YtPhase,
        pct: u32,
        speed: Option<&str>,
        eta: Option<&str>,
    ) -> (r: Notice)
        ensures
            r@ == phase_view(self@, ui@, phase, pct, text::opt_str(speed), text::opt_str(eta)),
    {
        let mut shown_pct = pct;
        let mut shown_speed = speed;
        let mut shown_eta = eta;
        match phase {
            YtPhase::Completed => {
                shown_pct = 100;
                if shown_speed.is_none() {
                    shown_speed = Some("Completed");
                }
                if shown_eta.is_none() {
                    shown_eta = Some("Done");
                }
            },
            YtPhase::PostProcessing => {
                if shown_pct < self.whole {
                    shown_pct = self.whole;
                }
                shown_speed = Some("—");
                shown_eta = Some("—");
            },
            _ => {},
        }
        Notice::Transfer(
            events::transfer_update(
                ui,
                shown_pct,
                shown_speed,
                shown_eta,
                Some(self.downloaded.as_str()),
                Some(self.total.as_str()),
                phase.as_str(),
            ),
        )
    }

    fn take_progress(&mut self, f: &YtFields, m: &Measured)
        ensures
            final(self)@ == after_progress(old(self)@, f@, *m),
    {
        if m.readable {
            self.percent = f.pct.clone();
        }
        self.whole = m.whole;
        if let Some(t) = &f.total {
            self.total = t.clone();
        }
        if let Some(s) = &f.speed {
            if !text::same_text(s.as_str(), "Unknown speed") && !text::same_text(
                s.as_str(),
                "Unknown",
            ) && !s.as_str().is_empty() {
                self.speed = s.clone();
            }
        }
        if let Some(e) = &f.eta {
            if !text::same_text(e.as_str(), "Unknown") && !text::same_text(e.as_str(), "0")
                && !text::same_text(e.as_str(), "00:00") && !e.as_str().is_empty() {
                self.eta = e.clone();
            }
        }
        if let Some(n) = m.bytes {
            self.downloaded = numbers::format_bytes(n);
        }
        if m.positive {
            self.saw_progress = true;
        }
        match self.phase {
            YtPhase::PostProcessing => {},
            _ => {
                self.phase = YtPhase::Downloading;
            },
        }
    }

    /// Shows the name of the file that a line names, and keeps its path.
    fn set_detected_output_file(&mut self, ui: &mut UiSession, cleaned: &str, file: &NamedFile) -> (r:
        String)
        ensures
            r@ == shown_name(cleaned@, *file),
            final(self)@ == (YtView { final_path: Some(file.path@), ..old(self)@ }),
            final(ui)@ == (UiView { filename: Some(r@), ..old(ui)@ }),
    {
        let name = match &file.file_name {
            Some(name) => name.clone(),
            None => cleaned.to_owned(),
        };
        ui.filename = Some(name.clone());
        self.final_path = Some(file.path.clone());
        name
    }

    fn on_destination(&mut self, ui: &mut UiSession, cleaned: &str, file: &NamedFile) -> (r: Vec<
        Notice,
    >)
        ensures
            final(self)@ == (YtView {
                final_path: Some(file.path@),
                saw_destination: true,
                phase: if old(self)@.phase == YtPhase::ExtractingInfo {
                    YtPhase::Downloading
                } else {
                    old(self)@.phase
                },
                ..old(self)@
            }),
            final(ui)@ == (UiView { filename: Some(shown_name(cleaned@, *file)), ..old(ui)@ }),
            events::notices(r@) == seq![
                log_view(
                    EventType::MetadataUpdated,
                    EventCategory::Info,
                    "File name detected"@,
                    Some(shown_name(cleaned@, *file)),
                ),
            ],
    {
        let name = self.set_detected_output_file(ui, cleaned, file);
        self.saw_destination = true;
        match self.phase {
            YtPhase::ExtractingInfo => {
                self.phase = YtPhase::Downloading;
            },
            _ => {},
        }
        let mut list: Vec<Notice> = Vec::new();
        list.push(
            log(
                EventType::MetadataUpdated,
                EventCategory::Info,
                "File name detected",
                Some(name),
            ),
        );
        list
    }

    fn on_already(&mut self, ui: &mut UiSession, cleaned: &str, file: &NamedFile) -> (r: Vec<Notice>)
        ensures
            final(self)@ == (YtView {
                saw_already: true,
                percent: "100"@,
                whole: 100,
                final_path: Some(file.path@),
                phase: YtPhase::Downloading,
                ..old(self)@
            }),
            final(ui)@ == (UiView { filename: Some(shown_name(cleaned@, *file)), ..old(ui)@ }),
            events::notices(r@) == seq![
                NoticeView::Status { text: "Already downloaded"@, kind: "ok"@ },
                phase_view(
                    final(self)@,
                    final(ui)@,
                    YtPhase::Downloading,
                    100,
                    Some(final(self)@.speed),
                    Some(final(self)@.eta),
                ),
            ],
    {
        self.saw_already = true;
        self.percent = "100".to_owned();
        self.whole = 100;
        self.set_detected_output_file(ui, cleaned, file);
        self.phase = YtPhase::Downloading;
        let mut list: Vec<Notice> = Vec::new();
        list.push(events::status("Already downloaded", "ok"));
        list.push(
            self.phase_update(
                ui,
                YtPhase::Downloading,
                100,
                Some(self.speed.as_str()),
                Some(self.eta.as_str()),
            ),
        );
        list
    }

    fn on_merging_into(&mut self, ui: &mut UiSession, cleaned: &str, file: &NamedFile) -> (r: Vec<
        Notice,
    >)
        ensures
            final(self)@ == (YtView {
                final_path: Some(file.path@),
                saw_merger: true,
                phase: YtPhase::PostProcessing,
                ..old(self)@
            }),
            final(ui)@ == (UiView { filename: Some(shown_name(cleaned@, *file)), ..old(ui)@ }),
            events::notices(r@) == seq![
                log_view(
                    EventType::MetadataUpdated,
                    EventCategory::Info,
                    "Merging started"@,
                    Some(shown_name(cleaned@, *file)),
                ),
                NoticeView::Status { text: "Merging formats…"@, kind: "info"@ },
                phase_view(final(self)@, final(ui)@, YtPhase::PostProcessing, 100, None, None),
            ],
    {
        self.phase = YtPhase::PostProcessing;
        let name = self.set_detected_output_file(ui, cleaned, file);
        self.saw_merger = true;
        let mut list: Vec<Notice> = Vec::new();
        list.push(
            log(EventType::MetadataUpdated, EventCategory::Info, "Merging started", Some(name)),
        );
        list.push(events::status("Merging formats…", "info"));
        list.push(self.phase_update(ui, YtPhase::PostProcessing, 100, None, None));
        list
    }

    fn on_post_processing(&mut self, ui: &UiSession, what: &str) -> (r: Vec<Notice>)
        ensures
            final(self)@ == (YtView { phase: YtPhase::PostProcessing, ..old(self)@ }),
            events::notices(r@) == seq![
                NoticeView::Status { text: what@, kind: "info"@ },
                phase_view(final(self)@, ui@, YtPhase::PostProcessing, 100, None, None),
            ],
    {
        self.phase = YtPhase::PostProcessing;
        let mut list: Vec<Notice> = Vec::new();
        list.push(events::status(what, "info"));
        list.push(self.phase_update(ui, YtPhase::PostProcessing, 100, None, None));
        list
    }

    fn on_error(&mut self, shown: &str, title: &str) -> (r: Notice)
        ensures
            final(self)@ == (YtView {
                saw_error: true,
                last_error: Some(shown@),
                ..old(self)@
            }),
            r@ == log_view(
                EventType::DownloadFailed,
                EventCategory::Error,
                title@,
                Some(shown@),
            ),
    {
        self.saw_error = true;
        self.last_error = Some(shown.to_owned());
        log(EventType::DownloadFailed, EventCategory::Error, title, Some(shown.to_owned()))
    }

    fn on_any(&mut self, line: &YtLine)
        ensures
            final(self)@ == after_any(old(self)@, line@),
    {
        if line.asks_verification {
            self.cookie_required = true;
            self.saw_error = true;
            self.last_error = Some(line.shown.clone());
        }
        if !line.from_stdout {
            self.last_stderr = Some(line.text.clone());
        }
    }

    fn on_kind(
        &mut self,
        ui: &mut UiSession,
        line: &YtLine,
        file: &NamedFile,
        m: &Measured,
        since_update_ms: u64,
    ) -> (r: Vec<Notice>)
        ensures
            final(self)@ == after_kind(old(self)@, line@, *file, *m),
            final(ui)@ == ui_after_line(old(ui)@, line@, *file),
            events::notices(r@) == line_notices(
                final(self)@,
                final(ui)@,
                line@,
                *file,
                *m,
                since_update_ms,
            ),
    {
        match &line.kind {
            LineKind::Progress(f) => {
                self.take_progress(f, m);
                let mut list: Vec<Notice> = Vec::new();
                if since_update_ms >= UPDATE_INTERVAL_MS || m.whole >= 100 {
                    list.push(
                        self.phase_update(
                            ui,
                            self.phase,
                            self.whole,
                            Some(self.speed.as_str()),
                            Some(self.eta.as_str()),
                        ),
                    );
                }
                list
            },
            LineKind::Destination(path) => self.on_destination(ui, path.as_str(), file),
            LineKind::Already(path) => self.on_already(ui, path.as_str(), file),
            LineKind::Merging(Some(path)) => self.on_merging_into(ui, path.as_str(), file),
            LineKind::Merging(None) => self.on_post_processing(ui, "Merging formats…"),
            LineKind::Deleting => self.on_post_processing(ui, "Post-processing…"),
            LineKind::Converting => self.on_post_processing(ui, "Converting audio…"),
            LineKind::Error => {
                let mut list: Vec<Notice> = Vec::new();
                list.push(events::status("yt-dlp error", "error"));
                list.push(self.on_error(line.shown.as_str(), "yt-dlp reported error"));
                list
            },
            LineKind::Other { info, error } => {
                let mut list: Vec<Notice> = Vec::new();
                if self.phase == YtPhase::ExtractingInfo && *info {
                    list.push(self.phase_update(ui, YtPhase::ExtractingInfo, 0, None, None));
                } else if *error {
                    list.push(self.on_error(line.shown.as_str(), "yt-dlp error"));
                }
                list
            },
        }
    }

    /// Takes in an output line. `file` is the file that the line names, where it
    /// names one, and `m` what a progress line's numbers come to.
    pub fn on_line(
        &mut self,
        ui: &mut UiSession,
        line: &YtLine,
        file: &NamedFile,
        m: &Measured,
        since_update_ms: u64,
    ) -> (r: LineStep)
        ensures
            final(self)@ == after_line(old(self)@, line@, *file, *m),
            final(ui)@ == ui_after_line(old(ui)@, line@, *file),
            r.progress_shown == shows_progress(line@, *m, since_update_ms),
            events::notices(r.notices@) == line_notices(
                final(self)@,
                final(ui)@,
                line@,
                *file,
                *m,
                since_update_ms,
            ),
    {
        self.on_any(line);
        let notices = self.on_kind(ui, line, file, m, since_update_ms);
        let progress_shown = match &line.kind {
            LineKind::Progress(_) => since_update_ms >= UPDATE_INTERVAL_MS || m.whole >= 100,
            _ => false,
        };
        LineStep { notices, progress_shown }
    }
}

/// A file that was found on disk: its path, the path's last component, and its
/// size.
#[derive(Debug)]
pub struct FoundFile {
    pub path: String,
    pub file_name: Option<String>,
    pub bytes: u64,
}

/// What was found of the file that the run last named.
#[derive(Debug)]
pub enum NamedOutput {
    /// Nothing.
    Missing,
    /// A file of the given size, at the path itself.
    Exact(u64),
    /// A file under a name that merging gives it.
    Merged(FoundFile),
}

/// What is known of the run's file in the end: whether there is one, its size,
/// its path, whether the run named a destination, and what the session shows.
pub struct Settled {
    pub there: bool,
    pub size: u64,
    pub path: Option<Seq<char>>,
    pub destination: bool,
    pub ui: UiView,
}

/// The session after a file was found: it shows the file's name.
pub open spec fn ui_naming(ui: UiView, file: FoundFile) -> UiView {
    match file.file_name {
        Some(name) => UiView { filename: Some(name@), ..ui },
        None => ui,
    }
}

/// The run's file: the one that the run named, under its own name or the name
/// that merging gives it, else, after a success, the one that was found.
pub open spec fn settled(
    state: YtView,
    ui: UiView,
    exit_ok: bool,
    output: NamedOutput,
    found: Option<FoundFile>,
) -> Settled {
    match (output, found) {
        (NamedOutput::Exact(bytes), _) => Settled {
            there: true,
            size: bytes,
            path: state.final_path,
            destination: state.saw_destination,
            ui,
        },
        (NamedOutput::Merged(file), _) => Settled {
            there: true,
            size: file.bytes,
            path: Some(file.path@),
            destination: state.saw_destination,
            ui: ui_naming(ui, file),
        },
        (NamedOutput::Missing, Some(file)) if exit_ok => Settled {
            there: true,
            size: file.bytes,
            path: Some(file.path@),
            destination: true,
            ui: ui_naming(ui, file),
        },
        _ => Settled {
            there: false,
            size: 0,
            path: state.final_path,
            destination: state.saw_destination,
            ui,
        },
    }
}

/// The report that ends a yt-dlp download.
pub open spec fn finished_view(
    id: Seq<char>,
    success: bool,
    status: Seq<char>,
    message: Seq<char>,
    file: Option<FileView>,
    url: Option<Seq<char>>,
) -> FinishedView {
    FinishedView {
        download_id: id,
        success,
        status,
        engine: "yt-dlp"@,
        message,
        file,
        url,
    }
}

/// An end of a run that says no more than a message. The session is kept.
pub open spec fn plain_end(
    state: YtView,
    ui: UiView,
    phase: YtPhase,
    shown: Seq<char>,
    kind: Seq<char>,
    status: Seq<char>,
    message: Seq<char>,
) -> EndView {
    EndView {
        notices: seq![
            phase_view(state, ui, phase, 0, None, None),
            NoticeView::Status { text: shown, kind },
            NoticeView::Finished(
                finished_view(ui.download_id, false, status, message, None, None),
            ),
        ],
        keep_session: KEEP_SESSION,
    }
}

/// The user paused the download.
pub open spec fn paused_end(state: YtView, ui: UiView) -> EndView {
    EndView {
        notices: seq![
            phase_view(state, ui, YtPhase::Paused, 0, None, None),
            NoticeView::Status { text: "Download paused"@, kind: "warn"@ },
            NoticeView::Paused { download_id: ui.download_id },
        ],
        keep_session: KEEP_SESSION,
    }
}

/// The user cancelled the download.
pub open spec fn cancelled_end(state: YtView, ui: UiView, message: Seq<char>) -> EndView {
    plain_end(
        state,
        ui,
        YtPhase::Cancelled,
        "Download cancelled"@,
        "err"@,
        "cancelled"@,
        message,
    )
}

/// YouTube wants browser verification.
pub open spec fn verification_end(state: YtView, ui: UiView, url: Seq<char>) -> EndView {
    let report = finished_view(
        ui.download_id,
        false,
        "youtube_cookie_required"@,
        yt_dlp::VERIFICATION_MESSAGE@,
        None,
        Some(url),
    );
    EndView {
        notices: seq![
            phase_view(state, ui, YtPhase::Failed, 0, None, None),
            NoticeView::Status { text: "YouTube verification required"@, kind: "warn"@ },
            NoticeView::CookieRequired(report),
            NoticeView::Finished(report),
        ],
        keep_session: KEEP_SESSION,
    }
}

/// The file that the end of a run reports.
pub open spec fn reported_file(st: Settled) -> FileView {
    FileView {
        path: st.path,
        name: st.ui.filename,
        downloaded_bytes: Some(st.size),
        total_bytes: None,
    }
}

/// The file was there before the run.
pub open spec fn exists_end(state: YtView, st: Settled) -> EndView {
    EndView {
        notices: seq![
            phase_view(state, st.ui, YtPhase::PostProcessing, 100, None, None),
            NoticeView::Status { text: "File already exists"@, kind: "warn"@ },
            NoticeView::Finished(
                finished_view(
                    st.ui.download_id,
                    false,
                    "already_exists"@,
                    "File already exists. No new download was made."@,
                    Some(reported_file(st)),
                    None,
                ),
            ),
        ],
        keep_session: KEEP_SESSION,
    }
}

/// The download failed.
pub open spec fn failed_end(state: YtView, ui: UiView, detail: Seq<char>) -> EndView {
    EndView {
        notices: seq![
            phase_view(state, ui, YtPhase::Failed, 0, None, None),
            log_view(
                EventType::DownloadFailed,
                EventCategory::Error,
                "Download failed"@,
                Some(detail),
            ),
            NoticeView::Status { text: "Download failed"@, kind: "error"@ },
            NoticeView::Finished(
                finished_view(ui.download_id, false, "failed"@, detail, None, None),
            ),
        ],
        keep_session: KEEP_SESSION,
    }
}

/// The download is complete.
pub open spec fn completed_end(state: YtView, st: Settled) -> EndView {
    EndView {
        notices: seq![
            phase_view(
                state,
                st.ui,
                YtPhase::Completed,
                100,
                Some("Completed"@),
                Some("Done"@),
            ),
            log_view(
                EventType::DownloadCompleted,
                EventCategory::Success,
                "Download completed successfully"@,
                match st.ui.filename {
                    Some(name) => Some("File: "@ + name),
                    None => None,
                },
            ),
            NoticeView::Status { text: "Download complete ✓"@, kind: "ok"@ },
            NoticeView::Finished(
                finished_view(
                    st.ui.download_id,
                    true,
                    "completed"@,
                    "Download completed"@,
                    Some(reported_file(st)),
                    None,
                ),
            ),
        ],
        keep_session: KEEP_SESSION,
    }
}

/// Why a run failed: the last error, else the last line of the error stream,
/// else what its exit says.
pub open spec fn failure_reason(state: YtView) -> Seq<char> {
    match (state.last_error, state.last_stderr) {
        (Some(e), _) => e,
        (None, Some(line)) => yt_dlp::shown_error(line),
        (None, None) => if state.saw_error {
            "yt-dlp reported an error during the run"@
        } else {
            "yt-dlp exited with a non-zero status"@
        },
    }
}

/// The message for a run that left no file.
pub const NO_OUTPUT_MESSAGE: &'static str = "yt-dlp exited successfully but no verified output file was produced";

/// Whether a run left a file that counts as its own: one that is not empty, and
/// of which the run spoke.
pub open spec fn has_output(state: YtView, st: Settled) -> bool {
    st.there && st.size > 0 && (state.saw_progress || state.saw_merger || st.destination)
}

/// The end of a run that the user did not stop before its file was looked for.
/// `late` is what the user has asked for since.
pub open spec fn conclusion(
    state: YtView,
    st: Settled,
    url: Seq<char>,
    exit_ok: bool,
    late: Flags,
) -> EndView {
    if state.cookie_required {
        verification_end(state, st.ui, url)
    } else if state.saw_already {
        exists_end(state, st)
    } else if late.abort {
        cancelled_end(state, st.ui, "User cancelled the download"@)
    } else if late.paused {
        plain_end(
            state,
            st.ui,
            YtPhase::Paused,
            "Download paused"@,
            "warn"@,
            "paused"@,
            "Download paused"@,
        )
    } else if !exit_ok || state.saw_error {
        failed_end(state, st.ui, failure_reason(state))
    } else if has_output(state, st) {
        completed_end(state, st)
    } else {
        failed_end(state, st.ui, NO_OUTPUT_MESSAGE@)
    }
}

/// No yt-dlp is there.
pub open spec fn missing_end(ui: UiView) -> EndView {
    EndView {
        notices: seq![
            NoticeView::Status { text: "yt-dlp not found"@, kind: "error"@ },
            log_view(
                EventType::DownloadFailed,
                EventCategory::Error,
                "yt-dlp missing"@,
                Some("Could not find yt-dlp binary in resources or bin folder."@),
            ),
            NoticeView::Finished(
                finished_view(
                    ui.download_id,
                    false,
                    "failed"@,
                    "Could not find yt-dlp binary"@,
                    None,
                    None,
                ),
            ),
        ],
        keep_session: KEEP_SESSION,
    }
}

/// yt-dlp could not be started.
pub open spec fn spawn_end(ui: UiView, error: Seq<char>) -> EndView {
    EndView {
        notices: seq![
            NoticeView::Status { text: "Failed to launch yt-dlp"@, kind: "error"@ },
            log_view(
                EventType::DownloadFailed,
                EventCategory::Error,
                "Spawn failed"@,
                Some("Error: "@ + error),
            ),
            NoticeView::Finished(
                finished_view(
                    ui.download_id,
                    false,
                    "failed"@,
                    "Failed to spawn yt-dlp: "@ + error,
                    None,
                    None,
                ),
            ),
        ],
        keep_session: KEEP_SESSION,
    }
}

fn report(
    ui: &UiSession,
    success: bool,
    status: &str,
    message: &str,
    file: Option<FinishedFile>,
    url: Option<&str>,
) -> (r: Finished)
    ensures
        r@ == finished_view(
            ui@.download_id,
            success,
            status@,
            message@,
            match file {
                Some(f) => Some(f@),
                None => None,
            },
            text::opt_str(url),
        ),
{
    Finished {
        download_id: ui.download_id.clone(),
        success,
        status: status.to_owned(),
        engine: "yt-dlp".to_owned(),
        message: message.to_owned(),
        file,
        url: match url {
            Some(u) => Some(u.to_owned()),
            None => None,
        },
    }
}

/// Ends a run for which there is no yt-dlp.
pub fn runtime_missing(ui: &UiSession) -> (r: RunEnded)
    ensures
        r@ == missing_end(ui@),
{
    let mut list: Vec<Notice> = Vec::new();
    list.push(events::status("yt-dlp not found", "error"));
    list.push(
        log(
            EventType::DownloadFailed,
            EventCategory::Error,
            "yt-dlp missing",
            Some("Could not find yt-dlp binary in resources or bin folder.".to_owned()),
        ),
    );
    list.push(
        Notice::Finished(report(ui, false, "failed", "Could not find yt-dlp binary", None, None)),
    );
    assert(events::notices(list@) =~= missing_end(ui@).notices);
    RunEnded { notices: list, keep_session: KEEP_SESSION }
}

/// Ends a run for which yt-dlp could not be started.
pub fn spawn_failed(ui: &UiSession, error: &str) -> (r: RunEnded)
    ensures
        r@ == spawn_end(ui@, error@),
{
    let detail = text::concat2("Error: ", error);
    let message = text::concat2("Failed to spawn yt-dlp: ", error);
    let mut list: Vec<Notice> = Vec::new();
    list.push(events::status("Failed to launch yt-dlp", "error"));
    list.push(
        log(EventType::DownloadFailed, EventCategory::Error, "Spawn failed", Some(detail)),
    );
    list.push(Notice::Finished(report(ui, false, "failed", message.as_str(), None, None)));
    assert(events::notices(list@) =~= spawn_end(ui@, error@).notices);
    RunEnded { notices: list, keep_session: KEEP_SESSION }
}

impl YtRun {
    fn plain(
        &self,
        ui: &UiSession,
        phase: YtPhase,
        shown: &str,
        kind: &str,
        status: &str,
        message: &str,
    ) -> (r: RunEnded)
        ensures
            r@ == plain_end(self@, ui@, phase, shown@, kind@, status@, message@),
    {
        let mut list: Vec<Notice> = Vec::new();
        list.push(self.phase_update(ui, phase, 0, None, None));
        list.push(events::status(shown, kind));
        list.push(Notice::Finished(report(ui, false, status, message, None, None)));
        assert(events::notices(list@) =~= plain_end(
            self@,
            ui@,
            phase,
            shown@,
            kind@,
            status@,
            message@,
        ).notices);
        RunEnded { notices: list, keep_session: KEEP_SESSION }
    }

    fn cancelled(&self, ui: &UiSession, message: &str) -> (r: RunEnded)
        ensures
            r@ == cancelled_end(self@, ui@, message@),
    {
        self.plain(ui, YtPhase::Cancelled, "Download cancelled", "err", "cancelled", message)
    }

    fn verification(&self, ui: &UiSession, url: &str) -> (r: RunEnded)
        ensures
            r@ == verification_end(self@, ui@, url@),
    {
        let first = report(
            ui,
            false,
            "youtube_cookie_required",
            yt_dlp::VERIFICATION_MESSAGE,
            None,
            Some(url),
        );
        let second = report(
            ui,
            false,
            "youtube_cookie_required",
            yt_dlp::VERIFICATION_MESSAGE,
            None,
            Some(url),
        );
        let mut list: Vec<Notice> = Vec::new();
        list.push(self.phase_update(ui, YtPhase::Failed, 0, None, None));
        list.push(events::status("YouTube verification required", "warn"));
        list.push(Notice::CookieRequired(first));
        list.push(Notice::Finished(second));
        assert(events::notices(list@) =~= verification_end(self@, ui@, url@).notices);
        RunEnded { notices: list, keep_session: KEEP_SESSION }
    }

    fn there_already(&self, ui: &UiSession, file: FinishedFile, Ghost(st): Ghost<Settled>) -> (r: RunEnded)
        requires
            ui@ == st.ui,
            file@ == reported_file(st),
        ensures
            r@ == exists_end(self@, st),
    {
        let mut list: Vec<Notice> = Vec::new();
        list.push(self.phase_update(ui, YtPhase::PostProcessing, 100, None, None));
        list.push(events::status("File already exists", "warn"));
        list.push(
            Notice::Finished(
                report(
                    ui,
                    false,
                    "already_exists",
                    "File already exists. No new download was made.",
                    Some(file),
                    None,
                ),
            ),
        );
        assert(events::notices(list@) =~= exists_end(self@, st).notices);
        RunEnded { notices: list, keep_session: KEEP_SESSION }
    }

    fn failed(&self, ui: &UiSession, detail: &str) -> (r: RunEnded)
        ensures
            r@ == failed_end(self@, ui@, detail@),
    {
        let mut list: Vec<Notice> = Vec::new();
        list.push(self.phase_update(ui, YtPhase::Failed, 0, None, None));
        list.push(
            log(
                EventType::DownloadFailed,
                EventCategory::Error,
                "Download failed",
                Some(detail.to_owned()),
            ),
        );
        list.push(events::status("Download failed", "error"));
        list.push(Notice::Finished(report(ui, false, "failed", detail, None, None)));
        assert(events::notices(list@) =~= failed_end(self@, ui@, detail@).notices);
        RunEnded { notices: list, keep_session: KEEP_SESSION }
    }

    fn completed(&self, ui: &UiSession, file: FinishedFile, Ghost(st): Ghost<Settled>) -> (r:
        RunEnded)
        requires
            ui@ == st.ui,
            file@ == reported_file(st),
        ensures
            r@ == completed_end(self@, st),
    {
        let mut list: Vec<Notice> = Vec::new();
        list.push(
            self.phase_update(ui, YtPhase::Completed, 100, Some("Completed"), Some("Done")),
        );
        let details = match &ui.filename {
            Some(name) => Some(text::concat2("File: ", name.as_str())),
            None => None,
        };
        list.push(
            log(
                EventType::DownloadCompleted,
                EventCategory::Success,
                "Download completed successfully",
                details,
            ),
        );
        list.push(events::status("Download complete ✓", "ok"));
        list.push(
            Notice::Finished(
                report(ui, true, "completed", "Download completed", Some(file), None),
            ),
        );
        assert(events::notices(list@) =~= completed_end(self@, st).notices);
        RunEnded { notices: list, keep_session: KEEP_SESSION }
    }

    fn reason(&self) -> (r: String)
        ensures
            r@ == failure_reason(self@),
    {
        if let Some(e) = &self.last_error {
            return e.clone();
        }
        if let Some(line) = &self.last_stderr {
            return yt_dlp::clean_yt_dlp_error(line.as_str());
        }
        if self.saw_error {
            "yt-dlp reported an error during the run".to_owned()
        } else {
            "yt-dlp exited with a non-zero status".to_owned()
        }
    }

    /// Ends a run that the user stopped.
    pub fn stopped(&self, ui: &UiSession, flags: Flags) -> (r: Option<RunEnded>)
        ensures
            match r {
                Some(end) => (flags.paused || flags.abort) && end@ == (if flags.paused {
                    paused_end(self@, ui@)
                } else {
                    cancelled_end(self@, ui@, "Download cancelled"@)
                }),
                None => !flags.paused && !flags.abort,
            },
            r is None <==> !flags.paused && !flags.abort,
            r matches Some(end) ==> (end@.notices.last() is Paused <==> flags.paused),
            r matches Some(end) ==> (!flags.paused ==> last_report(end@).status == "cancelled"@
                && last_report(end@).message == "Download cancelled"@),
    {
        if flags.paused {
            let mut list: Vec<Notice> = Vec::new();
            list.push(self.phase_update(ui, YtPhase::Paused, 0, None, None));
            list.push(events::status("Download paused", "warn"));
            list.push(Notice::Paused { download_id: ui.download_id.clone() });
            assert(events::notices(list@) =~= paused_end(self@, ui@).notices);
            return Some(RunEnded { notices: list, keep_session: KEEP_SESSION });
        }
        if flags.abort {
            return Some(self.cancelled(ui, "Download cancelled"));
        }
        None
    }

    /// Ends a run that the user did not stop. `output` is what was found of the
    /// file that the run named, `found` the file that a search of the directory
    /// found after that, and `late` what the user has asked for by then.
    pub fn conclude(
        &self,
        ui: &mut UiSession,
        url: &str,
        exit_ok: bool,
        output: &NamedOutput,
        found: &Option<FoundFile>,
        late: Flags,
    ) -> (r: RunEnded)
        ensures
            ({
                let st = settled(self@, old(ui)@, exit_ok, *output, *found);
                &&& final(ui)@ == st.ui
                &&& r@ == conclusion(self@, st, url@, exit_ok, late)
            }),
    {
        let ghost st = settled(self@, ui@, exit_ok, *output, *found);
        let mut there = false;
        let mut size: u64 = 0;
        let mut path = self.final_path.clone();
        let mut destination = self.saw_destination;
        match output {
            NamedOutput::Missing => {
                if exit_ok {
                    if let Some(file) = found {
                        there = true;
                        size = file.bytes;
                        path = Some(file.path.clone());
                        destination = true;
                        if let Some(name) = &file.file_name {
                            ui.filename = Some(name.clone());
                        }
                    }
                }
            },
            NamedOutput::Exact(bytes) => {
                there = true;
                size = *bytes;
            },
            NamedOutput::Merged(file) => {
                there = true;
                size = file.bytes;
                path = Some(file.path.clone());
                if let Some(name) = &file.file_name {
                    ui.filename = Some(name.clone());
                }
            },
        }
        let file = FinishedFile {
            path,
            name: ui.filename.clone(),
            downloaded_bytes: Some(size),
            total_bytes: None,
        };
        assert(ui@ == st.ui);
        assert(file@ == reported_file(st));
        if self.cookie_required {
            self.verification(ui, url)
        } else if self.saw_already {
            self.there_already(ui, file, Ghost(st))
        } else if late.abort {
            self.cancelled(ui, "User cancelled the download")
        } else if late.paused {
            self.plain(
                ui,
                YtPhase::Paused,
                "Download paused",
                "warn",
                "paused",
                "Download paused",
            )
        } else if !exit_ok || self.saw_error {
            let reason = self.reason();
            self.failed(ui, reason.as_str())
        } else if there && size > 0 && (self.saw_progress || self.saw_merger || destination) {
            self.completed(ui, file, Ghost(st))
        } else {
            self.failed(ui, NO_OUTPUT_MESSAGE)
        }
    }
}

/// Every end of a run closes the download with its last notice and with no
/// other, and names the download.
pub proof fn lemma_ends_close_once(
    state: YtView,
    st: Settled,
    url: Seq<char>,
    exit_ok: bool,
    late: Flags,
)
    ensures
        ({
            let end = conclusion(state, st, url, exit_ok, late);
            &&& end.notices.len() > 0
            &&& end.notices.last() matches NoticeView::Finished(f)
            &&& f.download_id == st.ui.download_id
            &&& f.engine == "yt-dlp"@
            &&& forall|i: int|
                0 <= i < end.notices.len() - 1 ==> !download::is_closing(
                    #[trigger] end.notices[i],
                )
        }),
{
}

/// So does every end that comes before a run's file is looked for; only a pause
/// closes it without a report.
pub proof fn lemma_early_ends_close_once(
    state: YtView,
    ui: UiView,
    text: Seq<char>,
    end: EndView,
)
    requires
        end == paused_end(state, ui) || end == cancelled_end(state, ui, text) || end == missing_end(
            ui,
        ) || end == spawn_end(ui, text),
    ensures
        end.notices.len() > 0,
        download::is_closing(end.notices.last()),
        forall|i: int|
            0 <= i < end.notices.len() - 1 ==> !download::is_closing(#[trigger] end.notices[i]),
        end.notices.last() is Paused <==> end == paused_end(state, ui),
        end.notices.last() matches NoticeView::Finished(f) ==> f.download_id == ui.download_id
            && f.engine == "yt-dlp"@ && !f.success,
        end.notices.last() matches NoticeView::Paused { download_id } ==> download_id
            == ui.download_id,
{
}

/// Success is reported exactly for a run that ended well, spoke of no error,
/// was not stopped, and left a file that is not empty and that was not there
/// before.
pub proof fn lemma_success_needs_a_file(
    state: YtView,
    st: Settled,
    url: Seq<char>,
    exit_ok: bool,
    late: Flags,
)
    ensures
        ({
            let end = conclusion(state, st, url, exit_ok, late);
            end.notices.last()->Finished_0.success <==> {
                &&& exit_ok
                &&& !state.saw_error
                &&& !state.cookie_required
                &&& !state.saw_already
                &&& !late.abort
                &&& !late.paused
                &&& has_output(state, st)
            }
        }),
{
}

/// A line that a run took in: the line, the file it names, and what its numbers
/// come to.
pub struct TakenLine {
    pub line: YtLineView,
    pub file: NamedFile,
    pub measured: Measured,
}

/// The state after a run of lines.
pub open spec fn after_lines(state: YtView, lines: Seq<TakenLine>) -> YtView
    decreases lines.len(),
{
    if lines.len() == 0 {
        state
    } else {
        let l = lines.last();
        after_line(after_lines(state, lines.drop_last()), l.line, l.file, l.measured)
    }
}

/// What a run has seen it does not forget: once a line asked for verification,
/// spoke of an error, or named a file that is there already, no later line
/// takes that back.
pub proof fn lemma_nothing_is_forgotten(state: YtView, lines: Seq<TakenLine>)
    ensures
        ({
            let s = after_lines(state, lines);
            &&& state.cookie_required ==> s.cookie_required
            &&& state.saw_error ==> s.saw_error
            &&& state.saw_already ==> s.saw_already
            &&& state.saw_progress ==> s.saw_progress
            &&& state.saw_merger ==> s.saw_merger
            &&& state.saw_destination ==> s.saw_destination
            &&& state.last_error is Some ==> s.last_error is Some
        }),
    decreases lines.len(),
{
    if lines.len() > 0 {
        lemma_nothing_is_forgotten(state, lines.drop_last());
    }
}

/// A phase that a run has before its end.
pub open spec fn under_way(phase: YtPhase) -> bool {
    phase == YtPhase::ExtractingInfo || phase == YtPhase::Downloading || phase
        == YtPhase::PostProcessing
}

/// No line ends a run: whatever yt-dlp writes, the run stays under way, and
/// nothing that the user interface is told of a line shows it as complete.
pub proof fn lemma_no_line_shows_completion(
    lines: Seq<TakenLine>,
    l: TakenLine,
    ui: UiView,
    since_update_ms: u64,
)
    ensures
        ({
            let s = after_line(after_lines(silent(), lines), l.line, l.file, l.measured);
            let told = line_notices(s, ui, l.line, l.file, l.measured, since_update_ms);
            &&& under_way(s.phase)
            &&& forall|i: int|
                0 <= i < told.len() ==> !attempt::shows_completed(#[trigger] told[i])
        }),
{
    lemma_lines_stay_under_way(lines);
    reveal_strlit("extracting");
    reveal_strlit("downloading");
    reveal_strlit("post_processing");
    reveal_strlit("completed");
    assert("extracting"@.len() != "completed"@.len());
    assert("downloading"@.len() != "completed"@.len());
    assert("post_processing"@.len() != "completed"@.len());
}

proof fn lemma_lines_stay_under_way(lines: Seq<TakenLine>)
    ensures
        under_way(after_lines(silent(), lines).phase),
    decreases lines.len(),
{
    if lines.len() > 0 {
        lemma_lines_stay_under_way(lines.drop_last());
    }
}

/// A run in which a line asked for browser verification ends by asking the user
/// for it, whatever else it wrote and however it ended.
pub proof fn lemma_verification_prevails(
    state: YtView,
    l: TakenLine,
    lines: Seq<TakenLine>,
    st: Settled,
    url: Seq<char>,
    exit_ok: bool,
    late: Flags,
)
    requires
        l.line.asks_verification,
    ensures
        ({
            let s = after_lines(after_line(state, l.line, l.file, l.measured), lines);
            conclusion(s, st, url, exit_ok, late) == verification_end(s, st.ui, url)
        }),
{
    lemma_nothing_is_forgotten(after_line(state, l.line, l.file, l.measured), lines);
}

/// A line that raises no objection: it asks for no verification, speaks of no
/// error, and names no file that is there already.
pub open spec fn is_untroubled(l: TakenLine) -> bool {
    &&& !l.line.asks_verification
    &&& !(l.line.kind is Error)
    &&& !(l.line.kind is Already)
    &&& l.line.kind matches KindView::Other { error, .. } ==> !error
}

/// A line that speaks of the download's file: it names the file, or shows that
/// some of it has come.
pub open spec fn speaks_of_file(l: TakenLine) -> bool {
    ||| l.line.kind is Destination
    ||| l.line.kind matches KindView::Merging(target) && target is Some
    ||| l.line.kind is Progress && l.measured.positive
}

/// No stop was asked for.
pub open spec fn no_stop() -> Flags {
    Flags { abort: false, paused: false }
}

/// The report that ends a run.
pub open spec fn last_report(end: EndView) -> FinishedView {
    end.notices.last()->Finished_0
}

proof fn lemma_untroubled_lines(lines: Seq<TakenLine>)
    requires
        forall|i: int| 0 <= i < lines.len() ==> is_untroubled(#[trigger] lines[i]),
    ensures
        ({
            let s = after_lines(silent(), lines);
            &&& !s.cookie_required && !s.saw_error && !s.saw_already
            &&& s.last_error is None
            &&& (exists|i: int| 0 <= i < lines.len() && speaks_of_file(#[trigger] lines[i]))
                ==> s.saw_progress || s.saw_merger || s.saw_destination
        }),
    decreases lines.len(),
{
    if lines.len() > 0 {
        let before = lines.drop_last();
        assert forall|i: int| 0 <= i < before.len() implies is_untroubled(#[trigger] before[i]) by {
            assert(before[i] == lines[i]);
        }
        lemma_untroubled_lines(before);
        assert(is_untroubled(lines[lines.len() - 1]));
        if exists|i: int| 0 <= i < lines.len() && speaks_of_file(#[trigger] lines[i]) {
            let i = choose|i: int| 0 <= i < lines.len() && speaks_of_file(#[trigger] lines[i]);
            if i < before.len() {
                assert(speaks_of_file(before[i]));
            } else {
                assert(lines[i] == lines.last());
            }
        }
    }
}

/// A run that raised no objection, spoke of its file, ended well and was not
/// stopped, and whose file is on disk and not empty, ends with success; the
/// report names the file that the run named last, and its size.
pub proof fn lemma_good_run_succeeds(
    lines: Seq<TakenLine>,
    ui: UiView,
    url: Seq<char>,
    bytes: u64,
    found: Option<FoundFile>,
)
    requires
        forall|i: int| 0 <= i < lines.len() ==> is_untroubled(#[trigger] lines[i]),
        exists|i: int| 0 <= i < lines.len() && speaks_of_file(#[trigger] lines[i]),
        bytes > 0,
    ensures
        ({
            let s = after_lines(silent(), lines);
            let st = settled(s, ui, true, NamedOutput::Exact(bytes), found);
            let end = conclusion(s, st, url, true, no_stop());
            let f = last_report(end);
            &&& end.notices.last() is Finished
            &&& f.success
            &&& f.status == "completed"@
            &&& f.message == "Download completed"@
            &&& f.file matches Some(file)
            &&& file.downloaded_bytes == Some(bytes)
            &&& file.path == s.final_path
            &&& file.name == ui.filename
        }),
{
    lemma_untroubled_lines(lines);
}

/// A run that raised no objection and ended well, and after which a file that
/// is not empty was found, under the name that merging gives it or by a search
/// of the directory, ends with success, and reports that file.
pub proof fn lemma_found_file_is_reported(
    lines: Seq<TakenLine>,
    ui: UiView,
    url: Seq<char>,
    file: FoundFile,
    other: Option<FoundFile>,
)
    requires
        forall|i: int| 0 <= i < lines.len() ==> is_untroubled(#[trigger] lines[i]),
        file.bytes > 0,
    ensures
        ({
            let s = after_lines(silent(), lines);
            let searched = settled(s, ui, true, NamedOutput::Missing, Some(file));
            let f = last_report(conclusion(s, searched, url, true, no_stop()));
            &&& f.success
            &&& f.file matches Some(r)
            &&& r.path == Some(file.path@)
            &&& r.downloaded_bytes == Some(file.bytes)
            &&& file.file_name matches Some(name) ==> r.name == Some(name@)
            &&& file.file_name is None ==> r.name == ui.filename
        }),
        (exists|i: int| 0 <= i < lines.len() && speaks_of_file(#[trigger] lines[i])) ==> ({
            let s = after_lines(silent(), lines);
            let merged = settled(s, ui, true, NamedOutput::Merged(file), other);
            let f = last_report(conclusion(s, merged, url, true, no_stop()));
            &&& f.success
            &&& f.file matches Some(r)
            &&& r.path == Some(file.path@)
            &&& r.downloaded_bytes == Some(file.bytes)
            &&& file.file_name matches Some(name) ==> r.name == Some(name@)
        }),
{
    lemma_untroubled_lines(lines);
}

/// A progress line that asks for no verification never turns a success into a
/// failure, wherever it comes.
pub proof fn lemma_progress_never_spoils(
    state: YtView,
    l: TakenLine,
    ui: UiView,
    url: Seq<char>,
    exit_ok: bool,
    output: NamedOutput,
    found: Option<FoundFile>,
    late: Flags,
)
    requires
        l.line.kind is Progress,
        !l.line.asks_verification,
        last_report(
            conclusion(state, settled(state, ui, exit_ok, output, found), url, exit_ok, late),
        ).success,
    ensures
        ({
            let s = after_line(state, l.line, l.file, l.measured);
            last_report(
                conclusion(s, settled(s, ui, exit_ok, output, found), url, exit_ok, late),
            ).success
        }),
{
}

/// A run that did not end well, or that spoke of an error, is never a success,
/// and neither is one without a file or with an empty one.
pub proof fn lemma_no_success_without_cause(
    state: YtView,
    ui: UiView,
    url: Seq<char>,
    exit_ok: bool,
    output: NamedOutput,
    found: Option<FoundFile>,
    late: Flags,
)
    ensures
        ({
            let st = settled(state, ui, exit_ok, output, found);
            let f = last_report(conclusion(state, st, url, exit_ok, late));
            &&& !exit_ok ==> !f.success
            &&& state.saw_error ==> !f.success
            &&& output is Missing && found is None ==> !f.success
            &&& output matches NamedOutput::Exact(n) ==> (n == 0 ==> !f.success)
            &&& output matches NamedOutput::Merged(file) ==> (file.bytes == 0 ==> !f.success)
            &&& late.abort || late.paused ==> !f.success
            &&& f.success ==> f.status == "completed"@ && f.url is None
            &&& !f.success ==> f.status != "completed"@
        }),
{
    reveal_strlit("completed");
    reveal_strlit("failed");
    reveal_strlit("cancelled");
    reveal_strlit("paused");
    reveal_strlit("already_exists");
    reveal_strlit("youtube_cookie_required");
    assert("completed"@.len() == 9 && "failed"@.len() == 6 && "cancelled"@.len() == 9
        && "paused"@.len() == 6 && "already_exists"@.len() == 14
        && "youtube_cookie_required"@.len() == 23);
    assert("completed"@[1] == 'o' && "cancelled"@[1] == 'a');
}

/// How a run that is no success is reported: a request for verification before
/// a file that was there already, that before a late stop, and that before a
/// failure.
pub proof fn lemma_reports_of_the_others(
    state: YtView,
    ui: UiView,
    url: Seq<char>,
    exit_ok: bool,
    output: NamedOutput,
    found: Option<FoundFile>,
    late: Flags,
)
    ensures
        ({
            let st = settled(state, ui, exit_ok, output, found);
            let f = last_report(conclusion(state, st, url, exit_ok, late));
            let usual = !state.cookie_required && !state.saw_already;
            &&& state.cookie_required ==> f.status == "youtube_cookie_required"@ && f.url == Some(
                url,
            ) && f.message == "YouTube requires browser verification for this video."@
            &&& !state.cookie_required && state.saw_already ==> f.status == "already_exists"@
                && f.message == "File already exists. No new download was made."@
            &&& usual && late.abort ==> f.status == "cancelled"@
            &&& usual && late.paused && !late.abort ==> f.status == "paused"@
            &&& usual && !late.abort && !late.paused && !f.success ==> f.status == "failed"@
            &&& usual && !late.abort && !late.paused && (!exit_ok || state.saw_error) ==> f.message
                == (match (state.last_error, state.last_stderr) {
                (Some(e), _) => e,
                (None, Some(line)) => yt_dlp::shown_error(line),
                (None, None) => f.message,
            })
        }),
{
}

/// The file that a run ends with is the one that the last line with a file
/// named, and so is the name that is shown; other lines change neither.
pub proof fn lemma_last_named_file_counts(
    state: YtView,
    ui: UiView,
    line: YtLineView,
    file: NamedFile,
    m: Measured,
)
    ensures
        ({
            let s = after_line(state, line, file, m);
            let shown = ui_after_line(ui, line, file).filename;
            let names = line.kind is Destination || line.kind is Already || (
            line.kind matches KindView::Merging(target) && target is Some);
            &&& names ==> s.final_path == Some(file.path@)
            &&& names ==> (file.file_name matches Some(name) ==> shown == Some(name@))
            &&& !names ==> s.final_path == state.final_path && shown == ui.filename
            &&& file.file_name is None ==> (line.kind matches KindView::Destination(p) ==> shown
                == Some(p))
            &&& file.file_name is None ==> (line.kind matches KindView::Already(p) ==> shown == Some(
                p,
            ))
        }),
{
}

/// What a line makes of the run: errors and requests for verification are kept
/// with the text that is shown, a file that was there already is noted, and the
/// last line of the error stream is remembered.
pub proof fn lemma_lines_are_noted(state: YtView, line: YtLineView, file: NamedFile, m: Measured)
    ensures
        ({
            let s = after_line(state, line, file, m);
            &&& line.asks_verification ==> s.cookie_required && s.saw_error && s.last_error
                == Some(line.shown)
            &&& line.kind is Error ==> s.saw_error && s.last_error == Some(line.shown)
            &&& line.kind is Already ==> s.saw_already && s.whole == 100
            &&& line.kind is Destination ==> s.saw_destination
            &&& line.kind matches KindView::Merging(target) ==> (target is Some ==> s.saw_merger)
            &&& line.kind matches KindView::Other { info, error } ==> (error && !(info
                && state.phase == YtPhase::ExtractingInfo) ==> s.saw_error && s.last_error
                == Some(line.shown))
            &&& !line.from_stdout ==> s.last_stderr == Some(line.text)
            &&& line.from_stdout ==> s.last_stderr == state.last_stderr
            &&& !line.asks_verification ==> s.cookie_required == state.cookie_required
            &&& !line.asks_verification && !(line.kind is Error) && !(line.kind is Other)
                ==> s.saw_error == state.saw_error && s.last_error == state.last_error
            &&& !(line.kind is Already) ==> s.saw_already == state.saw_already
            &&& !(line.kind is Destination) ==> s.saw_destination == state.saw_destination
            &&& !(line.kind matches KindView::Merging(target) && target is Some) ==> s.saw_merger
                == state.saw_merger
            &&& !(line.kind is Progress) ==> s.saw_progress == state.saw_progress
            &&& !(line.kind is Progress) && !(line.kind is Already) ==> s.percent == state.percent
            &&& line.kind is Already ==> s.percent == "100"@ && s.total == state.total && s.speed
                == state.speed && s.eta == state.eta && s.downloaded == state.downloaded
            &&& !line.asks_verification ==> (line.kind matches KindView::Other { error, .. } ==> (
            !error ==> s.saw_error == state.saw_error && s.last_error == state.last_error))
            &&& !(line.kind is Progress) && !(line.kind is Already) ==> s.whole == state.whole
                && s.downloaded == state.downloaded && s.total == state.total && s.speed
                == state.speed && s.eta == state.eta
        }),
{
}

/// What a progress line gives is kept: its percentage, its total, and a speed
/// and a remaining time that say something; and the bytes that it stands for
/// are shown as a byte count.
pub proof fn lemma_progress_is_kept(state: YtView, line: YtLineView, file: NamedFile, m: Measured)
    requires
        line.kind is Progress,
    ensures
        ({
            let f = line.kind->Progress_0;
            let s = after_line(state, line, file, m);
            &&& s.whole == m.whole
            &&& m.readable ==> s.percent == f.pct
            &&& !m.readable ==> s.percent == state.percent
            &&& f.total matches Some(t) ==> s.total == t
            &&& f.total is None ==> s.total == state.total
            &&& f.speed matches Some(v) ==> (v.len() > 0 && v != "Unknown speed"@ && v
                != "Unknown"@ ==> s.speed == v)
            &&& f.speed == Some("Unknown speed"@) || f.speed is None ==> s.speed == state.speed
            &&& f.eta matches Some(v) ==> (v.len() > 0 && v != "Unknown"@ && v != "0"@ && v
                != "00:00"@ ==> s.eta == v)
            &&& f.eta == Some("Unknown"@) || f.eta == Some("00:00"@) || f.eta == Some("0"@)
                || f.eta is None ==> s.eta == state.eta
            &&& m.bytes matches Some(n) ==> s.downloaded == numbers::byte_text(n as nat)
            &&& m.bytes is None ==> s.downloaded == state.downloaded
            &&& m.positive ==> s.saw_progress
            &&& !m.positive ==> s.saw_progress == state.saw_progress
            &&& s.phase == YtPhase::Downloading || s.phase == YtPhase::PostProcessing
            &&& s.phase == YtPhase::PostProcessing <==> state.phase == YtPhase::PostProcessing
        }),
{
}

/// Progress is told at most every quarter of a second, but for a full download;
/// what is told is the percentage in force, capped, and what is known of the
/// sizes, the speed and the remaining time.
pub proof fn lemma_progress_is_told(
    s: YtView,
    ui: UiView,
    line: YtLineView,
    file: NamedFile,
    m: Measured,
    since_update_ms: u64,
)
    requires
        line.kind is Progress,
        s.phase == YtPhase::Downloading,
    ensures
        ({
            let told = line_notices(s, ui, line, file, m, since_update_ms);
            &&& since_update_ms < 250 && m.whole < 100 ==> told.len() == 0
            &&& since_update_ms >= 250 || m.whole >= 100 ==> {
                &&& told.len() == 1
                &&& told[0] matches NoticeView::Transfer(t)
                &&& s.whole <= 100 ==> t.pct == s.whole
                &&& s.whole > 100 ==> t.pct == 100
                &&& t.phase == "downloading"@
                &&& t.speed == s.speed
                &&& t.eta == s.eta
                &&& t.downloaded == s.downloaded
                &&& t.total == s.total
                &&& t.filename == ui.filename
                &&& t.download_id == ui.download_id
            }
        }),
{
}

/// What the phases show: a completed download all of it, post-processing no
/// less than what has come and neither speed nor time, and every other phase
/// the percentage that it is told.
pub proof fn lemma_phases_show(
    state: YtView,
    ui: UiView,
    pct: u32,
    speed: Option<Seq<char>>,
    eta: Option<Seq<char>>,
)
    ensures
        phase_view(state, ui, YtPhase::Completed, pct, speed, eta) matches NoticeView::Transfer(t)
            && t.pct == 100 && t.phase == "completed"@ && (speed is None ==> t.speed
            == "Completed"@) && (eta is None ==> t.eta == "Done"@),
        phase_view(state, ui, YtPhase::PostProcessing, pct, speed, eta) matches NoticeView::Transfer(
            t,
        ) && t.phase == "post_processing"@ && t.speed == "—"@ && t.eta == "—"@ && (pct <= 100
            ==> t.pct >= pct) && (state.whole <= 100 ==> t.pct >= state.whole) && (t.pct == pct
            || t.pct == state.whole || t.pct == 100),
        phase_view(state, ui, YtPhase::Failed, 0, speed, eta) matches NoticeView::Transfer(t)
            && t.pct == 0 && t.phase == "failed"@,
        phase_view(state, ui, YtPhase::Cancelled, 0, speed, eta) matches NoticeView::Transfer(t)
            && t.pct == 0 && t.phase == "cancelled"@,
        phase_view(state, ui, YtPhase::Paused, 0, speed, eta) matches NoticeView::Transfer(t)
            && t.pct == 0 && t.phase == "paused"@,
        phase_view(state, ui, YtPhase::ExtractingInfo, 0, speed, eta) matches NoticeView::Transfer(
            t,
        ) && t.pct == 0 && t.phase == "extracting"@,
{
}

/// Work after the download is told under its own name, and always as
/// post-processing.
pub proof fn lemma_post_processing_is_told(
    state: YtView,
    ui: UiView,
    line: YtLineView,
    file: NamedFile,
    m: Measured,
    since_update_ms: u64,
)
    ensures
        ({
            let s = after_line(state, line, file, m);
            let told = line_notices(s, ui, line, file, m, since_update_ms);
            let working = line.kind is Merging || line.kind is Deleting || line.kind is Converting;
            &&& working ==> {
                &&& s.phase == YtPhase::PostProcessing
                &&& told.len() >= 2
                &&& told.last() matches NoticeView::Transfer(t)
                &&& t.phase == "post_processing"@
                &&& t.pct == 100
                &&& told[told.len() - 2] matches NoticeView::Status { text, kind }
                &&& kind == "info"@
                &&& line.kind is Merging ==> text == "Merging formats…"@
                &&& line.kind is Deleting ==> text == "Post-processing…"@
                &&& line.kind is Converting ==> text == "Converting audio…"@
            }
            &&& line.kind is Already ==> (told.last() matches NoticeView::Transfer(t) && t.pct
                == 100)
            &&& line.kind is Destination ==> (told[0] matches NoticeView::Event { title, details, .. }
                && title == "File name detected"@ && details == Some(
                shown_name(line.kind->Destination_0, file),
            ))
            &&& line.kind is Error ==> (told[1] matches NoticeView::Event { event_type, details, .. }
                && event_type == EventType::DownloadFailed && details == Some(line.shown))
        }),
{
}

/// A line that names a file.
pub open spec fn names_file(line: YtLineView) -> bool {
    line.kind is Destination || line.kind is Already || (line.kind matches KindView::Merging(target)
        && target is Some)
}

/// The path that a run leaves is the one that the last line with a file named;
/// a run without such a line leaves none.
pub proof fn lemma_path_of_the_last_naming_line(lines: Seq<TakenLine>, i: int)
    requires
        0 <= i < lines.len(),
        forall|j: int| i < j < lines.len() ==> !names_file((#[trigger] lines[j]).line),
    ensures
        names_file(lines[i].line) ==> after_lines(silent(), lines).final_path == Some(
            lines[i].file.path@,
        ),
        (forall|j: int| 0 <= j < lines.len() ==> !names_file((#[trigger] lines[j]).line))
            ==> after_lines(silent(), lines).final_path is None,
    decreases lines.len(),
{
    let before = lines.drop_last();
    assert forall|j: int| 0 <= j < before.len() implies before[j] == lines[j] by {}
    if i < before.len() {
        assert(!names_file(lines[lines.len() - 1].line));
        lemma_path_of_the_last_naming_line(before, i);
        if forall|j: int| 0 <= j < lines.len() ==> !names_file((#[trigger] lines[j]).line) {
            assert forall|j: int| 0 <= j < before.len() implies !names_file(
                (#[trigger] before[j]).line,
            ) by {
                assert(before[j] == lines[j]);
            }
        }
    } else if before.len() > 0 {
        if forall|j: int| 0 <= j < lines.len() ==> !names_file((#[trigger] lines[j]).line) {
            assert(!names_file(lines[lines.len() - 1].line));
            assert forall|j: int| 0 <= j < before.len() implies !names_file(
                (#[trigger] before[j]).line,
            ) by {
                assert(before[j] == lines[j]);
            }
            lemma_path_of_the_last_naming_line(before, before.len() - 1);
        }
    } else {
        assert(after_lines(silent(), before) == silent());
        if forall|j: int| 0 <= j < lines.len() ==> !names_file((#[trigger] lines[j]).line) {
            assert(!names_file(lines[0].line));
        }
    }
}

/// Which file a run settles on: the one that it named, wherever that is there
/// under its own name or a merged one, and after a success else the one that
/// was found; a failed run settles on no file that it did not name.
pub proof fn lemma_settled_file(
    state: YtView,
    ui: UiView,
    exit_ok: bool,
    output: NamedOutput,
    found: Option<FoundFile>,
)
    ensures
        ({
            let st = settled(state, ui, exit_ok, output, found);
            &&& st.there <==> !(output is Missing) || (exit_ok && found is Some)
            &&& output matches NamedOutput::Exact(n) ==> st.size == n && st.path
                == state.final_path && st.ui == ui
            &&& output matches NamedOutput::Merged(file) ==> st.size == file.bytes && st.path
                == Some(file.path@)
            &&& output is Missing && exit_ok ==> (found matches Some(file) ==> st.size == file.bytes
                && st.path == Some(file.path@))
            &&& !st.there ==> st.size == 0 && st.path == state.final_path && st.ui == ui
            &&& st.ui.download_id == ui.download_id && st.ui.engine == ui.engine
        }),
{
}

/// A run that did not end well is told with the last error, else with the last
/// line of the error stream, else with what its exit says; one that ended well
/// without a file that counts says so.
pub proof fn lemma_reasons_of_failures(
    state: YtView,
    ui: UiView,
    url: Seq<char>,
    output: NamedOutput,
    found: Option<FoundFile>,
)
    requires
        !state.cookie_required,
        !state.saw_already,
    ensures
        ({
            let bad = last_report(
                conclusion(state, settled(state, ui, false, output, found), url, false, no_stop()),
            );
            &&& state.last_error matches Some(e) ==> bad.message == e
            &&& state.last_error is None ==> (state.last_stderr matches Some(l) ==> bad.message
                == yt_dlp::shown_error(l))
            &&& state.last_error is None && state.last_stderr is None && !state.saw_error
                ==> bad.message == "yt-dlp exited with a non-zero status"@
            &&& state.last_error is None && state.last_stderr is None && state.saw_error
                ==> bad.message == "yt-dlp reported an error during the run"@
            &&& bad.status == "failed"@
        }),
        ({
            let end = conclusion(
                state,
                settled(state, ui, true, NamedOutput::Missing, None),
                url,
                true,
                no_stop(),
            );
            !state.saw_error ==> last_report(end).message
                == "yt-dlp exited successfully but no verified output file was produced"@
                && last_report(end).status == "failed"@
        }),
{
}

/// What the ends of a run tell besides the report: a success its file's name, a
/// failure its reason, a request for verification the request itself; the
/// session is always kept.
pub proof fn lemma_ends_are_told(
    state: YtView,
    ui: UiView,
    url: Seq<char>,
    exit_ok: bool,
    output: NamedOutput,
    found: Option<FoundFile>,
    late: Flags,
    error: Seq<char>,
)
    ensures
        ({
            let st = settled(state, ui, exit_ok, output, found);
            let end = conclusion(state, st, url, exit_ok, late);
            let f = last_report(end);
            let n = end.notices.len();
            &&& end.keep_session
            &&& end.notices[0] is Transfer
            &&& f.success ==> {
                &&& end.notices[0]->Transfer_0.phase == "completed"@
                &&& end.notices[0]->Transfer_0.pct == 100
                &&& end.notices[1] matches NoticeView::Event { event_type, category, title, details, .. }
                &&& event_type == EventType::DownloadCompleted
                &&& category == EventCategory::Success
                &&& title == "Download completed successfully"@
                &&& st.ui.filename matches Some(name) ==> details == Some("File: "@ + name)
                &&& end.notices[2] == (NoticeView::Status {
                    text: "Download complete ✓"@,
                    kind: "ok"@,
                })
            }
            &&& f.status == "failed"@ && !state.cookie_required && !state.saw_already && !late.abort
                && !late.paused ==> {
                &&& end.notices[0]->Transfer_0.phase == "failed"@
                &&& end.notices[1] matches NoticeView::Event { event_type, details, .. }
                &&& event_type == EventType::DownloadFailed
                &&& details == Some(f.message)
            }
            &&& state.cookie_required ==> n >= 2 && end.notices[n - 2] == NoticeView::CookieRequired(
                f,
            )
            &&& state.saw_already && !state.cookie_required ==> (f.file matches Some(file)
                && file.path == st.path && file.downloaded_bytes == Some(st.size))
            &&& f.url is Some <==> state.cookie_required
            &&& state.cookie_required ==> end.notices[0]->Transfer_0.phase == "failed"@
                && end.notices[1] == (NoticeView::Status {
                text: "YouTube verification required"@,
                kind: "warn"@,
            })
            &&& state.saw_already && !state.cookie_required ==> end.notices[0]->Transfer_0.phase
                == "post_processing"@ && end.notices[1] == (NoticeView::Status {
                text: "File already exists"@,
                kind: "warn"@,
            })
            &&& !state.cookie_required && !state.saw_already && late.abort
                ==> end.notices[0]->Transfer_0.phase == "cancelled"@ && f.message
                == "User cancelled the download"@
            &&& !state.cookie_required && !state.saw_already && late.paused && !late.abort
                ==> end.notices[0]->Transfer_0.phase == "paused"@ && f.message
                == "Download paused"@
        }),
        paused_end(state, ui).keep_session,
        paused_end(state, ui).notices[0] matches NoticeView::Transfer(t) && t.phase == "paused"@,
        cancelled_end(state, ui, error).keep_session,
        last_report(cancelled_end(state, ui, error)).status == "cancelled"@,
        last_report(cancelled_end(state, ui, error)).message == error,
        missing_end(ui).keep_session,
        last_report(missing_end(ui)).status == "failed"@,
        last_report(missing_end(ui)).message == "Could not find yt-dlp binary"@,
        spawn_end(ui, error).keep_session,
        last_report(spawn_end(ui, error)).status == "failed"@,
        last_report(spawn_end(ui, error)).message == "Failed to spawn yt-dlp: "@ + error,
{
    reveal_strlit("completed");
    reveal_strlit("failed");
    reveal_strlit("cancelled");
    reveal_strlit("paused");
    assert("failed"@.len() == 6 && "completed"@.len() == 9 && "cancelled"@.len() == 9
        && "paused"@.len() == 6);
    assert("failed"@[0] == 'f' && "paused"@[0] == 'p' && "completed"@[1] == 'o' && "cancelled"@[1]
        == 'a');
}

/// How a run begins: with nothing seen, nothing named and nothing known of its
/// progress, reading the video's information.
pub proof fn lemma_silent_run()
    ensures
        !silent().saw_already && !silent().saw_error && !silent().saw_progress,
        !silent().saw_destination && !silent().saw_merger && !silent().cookie_required,
        silent().final_path is None && silent().last_error is None && silent().last_stderr is None,
        silent().whole == 0 && silent().percent == "0"@,
        silent().speed == "—"@ && silent().eta == "—"@ && silent().total == "—"@
            && silent().downloaded == "—"@,
        silent().phase == YtPhase::ExtractingInfo,
{
}

/// How the phases follow each other: a destination or progress starts the
/// download, work after it starts post-processing, which progress does not end,
/// and remarks change nothing.
pub proof fn lemma_phases_follow(state: YtView, line: YtLineView, file: NamedFile, m: Measured)
    ensures
        ({
            let s = after_line(state, line, file, m);
            &&& line.kind is Destination && state.phase == YtPhase::ExtractingInfo ==> s.phase
                == YtPhase::Downloading
            &&& line.kind is Destination && state.phase != YtPhase::ExtractingInfo ==> s.phase
                == state.phase
            &&& line.kind is Progress && state.phase != YtPhase::PostProcessing ==> s.phase
                == YtPhase::Downloading
            &&& line.kind is Progress && state.phase == YtPhase::PostProcessing ==> s.phase
                == YtPhase::PostProcessing
            &&& line.kind is Merging || line.kind is Deleting || line.kind is Converting ==> s.phase
                == YtPhase::PostProcessing
            &&& line.kind is Already ==> s.phase == YtPhase::Downloading
            &&& line.kind is Error || line.kind is Other ==> s.phase == state.phase
        }),
{
}

/// What else is told of lines: that the file is there already, that the merging
/// into a file began, that the video's information is being read, and the
/// errors of the error stream; nothing is told of any other remark.
pub proof fn lemma_remarks_are_told(
    s: YtView,
    ui: UiView,
    line: YtLineView,
    file: NamedFile,
    m: Measured,
    since_update_ms: u64,
)
    ensures
        ({
            let told = line_notices(s, ui, line, file, m, since_update_ms);
            &&& line.kind is Already ==> told.len() == 2 && told[0] == (NoticeView::Status {
                text: "Already downloaded"@,
                kind: "ok"@,
            })
            &&& line.kind is Already ==> (told[1] matches NoticeView::Transfer(t) && t.pct == 100
                && t.phase == "downloading"@ && t.speed == s.speed && t.eta == s.eta)
            &&& line.kind matches KindView::Merging(target) ==> (target matches Some(p) ==> (
            told[0] matches NoticeView::Event { title, details, .. } && title
                == "Merging started"@ && details == Some(
                match file.file_name {
                    Some(name) => name@,
                    None => p,
                },
            )))
            &&& line.kind is Error ==> told[0] == (NoticeView::Status {
                text: "yt-dlp error"@,
                kind: "error"@,
            })
            &&& line.kind matches KindView::Other { info, error } ==> {
                let reading = s.phase == YtPhase::ExtractingInfo && info;
                &&& reading ==> told.len() == 1 && (told[0] matches NoticeView::Transfer(t)
                    && t.phase == "extracting"@ && t.pct == 0)
                &&& !reading && error ==> told.len() == 1 && (told[0] matches NoticeView::Event {
                    event_type,
                    details,
                    ..
                } && event_type == EventType::DownloadFailed && details == Some(line.shown))
                &&& !reading && !error ==> told.len() == 0
            }
        }),
{
}

/// An update of the progress counts as shown exactly if the user interface was
/// told of it.
pub proof fn lemma_shown_progress_is_told(
    s: YtView,
    ui: UiView,
    line: YtLineView,
    file: NamedFile,
    m: Measured,
    since_update_ms: u64,
)
    ensures
        shows_progress(line, m, since_update_ms) <==> line.kind is Progress && line_notices(
            s,
            ui,
            line,
            file,
            m,
            since_update_ms,
        ).len() > 0,
        shows_progress(line, m, since_update_ms) <==> line.kind is Progress && (since_update_ms
            >= 250 || m.whole >= 100),
{
}

} // verus!
