//! What the user interface is told: log events, status lines, transfer
//! updates and the end of a download.
use vstd::prelude::*;
use vstd::string::*;
use crate::clock;
use crate::numbers;
use crate::text;

verus! {

/// The heading under which the events of a download are grouped.
pub const LOG_GROUP: &'static str = "Download Session";

#[derive(Debug, Clone, Copy, PartialEq, Eq, Structural)]
pub enum EventType {
    DownloadStarted,
    DownloadProgress,
    DownloadResumed,
    DownloadPaused,
    ConnectionChanged,
    SpeedChanged,
    FileAllocated,
    ChecksumOk,
    DownloadCompleted,
    DownloadFailed,
    Retrying,
    MetadataUpdated,
}

#[derive(Debug, Clone, Copy, PartialEq, Eq, Structural)]
pub enum EventCategory {
    Success,
    Warn,
    Info,
    Error,
    Network,
    Progress,
}

/// One entry of the event log.
#[derive(Debug)]
pub struct EventPayload {
    pub timestamp: String,
    pub event_type: EventType,
    pub category: EventCategory,
    pub title: String,
    pub details: Option<String>,
    pub update_key: Option<String>,
    pub group: Option<String>,
    pub download_id: Option<String>,
}

/// What the event log last spoke of.
#[derive(Debug)]
pub struct EventState {
    pub last_filename: Option<String>,
    pub last_phase: Option<String>,
    pub last_percent: Option<u32>,
}

/// What the user interface shows of the download.
#[derive(Debug)]
pub struct UiSession {
    pub engine: String,
    pub strategy_name: String,
    pub strategy_attempt: u32,
    pub filename: Option<String>,
    pub last_log_line: Option<String>,
    pub event_state: EventState,
    pub download_id: String,
}

/// An event by its contents.
pub struct EventView {
    pub timestamp: Seq<char>,
    pub event_type: EventType,
    pub category: EventCategory,
    pub title: Seq<char>,
    pub details: Option<Seq<char>>,
    pub update_key: Option<Seq<char>>,
    pub group: Option<Seq<char>>,
    pub download_id: Option<Seq<char>>,
}

/// A session by its contents.
pub struct UiView {
    pub engine: Seq<char>,
    pub strategy_name: Seq<char>,
    pub strategy_attempt: u32,
    pub filename: Option<Seq<char>>,
    pub last_log_line: Option<Seq<char>>,
    pub last_filename: Option<Seq<char>>,
    pub last_phase: Option<Seq<char>>,
    pub last_percent: Option<u32>,
    pub download_id: Seq<char>,
}

impl View for EventPayload {
    type V = EventView;

    open spec fn view(&self) -> EventView {
        EventView {
            timestamp: self.timestamp@,
            event_type: self.event_type,
            category: self.category,
            title: self.title@,
            details: text::opt_text(self.details),
            update_key: text::opt_text(self.update_key),
            group: text::opt_text(self.group),
            download_id: text::opt_text(self.download_id),
        }
    }
}

impl View for UiSession {
    type V = UiView;

    open spec fn view(&self) -> UiView {
        UiView {
            engine: self.engine@,
            strategy_name: self.strategy_name@,
            strategy_attempt: self.strategy_attempt,
            filename: text::opt_text(self.filename),
            last_log_line: text::opt_text(self.last_log_line),
            last_filename: text::opt_text(self.event_state.last_filename),
            last_phase: text::opt_text(self.event_state.last_phase),
            last_percent: self.event_state.last_percent,
            download_id: self.download_id@,
        }
    }
}

/// The session that no download has touched.
pub open spec fn fresh_ui() -> UiView {
    UiView {
        engine: "aria2"@,
        strategy_name: "Default"@,
        strategy_attempt: 1,
        filename: None,
        last_log_line: None,
        last_filename: None,
        last_phase: None,
        last_percent: None,
        download_id: Seq::empty(),
    }
}

impl Default for EventState {
    fn default() -> (r: Self)
        ensures
            r.last_filename is None,
            r.last_phase is None,
            r.last_percent is None,
    {
        EventState { last_filename: None, last_phase: None, last_percent: None }
    }
}

impl Default for UiSession {
    fn default() -> (r: Self)
        ensures
            r@ == fresh_ui(),
    {
        UiSession {
            engine: "aria2".to_owned(),
            strategy_name: "Default".to_owned(),
            strategy_attempt: 1,
            filename: None,
            last_log_line: None,
            event_state: EventState::default(),
            download_id: String::new(),
        }
    }
}

impl Clone for EventState {
    fn clone(&self) -> (r: Self)
        ensures
            text::opt_text(r.last_filename) == text::opt_text(self.last_filename),
            text::opt_text(r.last_phase) == text::opt_text(self.last_phase),
            r.last_percent == self.last_percent,
    {
        EventState {
            last_filename: self.last_filename.clone(),
            last_phase: self.last_phase.clone(),
            last_percent: self.last_percent,
        }
    }
}

impl Clone for EventPayload {
    fn clone(&self) -> (r: Self)
        ensures
            r@ == self@,
    {
        EventPayload {
            timestamp: self.timestamp.clone(),
            event_type: self.event_type,
            category: self.category,
            title: self.title.clone(),
            details: self.details.clone(),
            update_key: self.update_key.clone(),
            group: self.group.clone(),
            download_id: self.download_id.clone(),
        }
    }
}

/// Makes an event that carries the current time of day and no download's id.
pub fn make_event(
    event_type: EventType,
    category: EventCategory,
    title: &str,
    details: Option<String>,
    update_key: Option<String>,
    group: Option<String>,
) -> (r: EventPayload)
    ensures
        exists|now: Option<(u64, u32)>|
            r@ == (EventView {
                timestamp: numbers::clock_text(#[trigger] clock::seconds(now)),
                event_type,
                category,
                title: title@,
                details: text::opt_text(details),
                update_key: text::opt_text(update_key),
                group: text::opt_text(group),
                download_id: None,
            }),
{
    let timestamp = clock::ts_hms();
    EventPayload {
        timestamp,
        event_type,
        category,
        title: title.to_owned(),
        details,
        update_key,
        group,
        download_id: None,
    }
}

/// Gives an event the id of the current download, unless it has one.
pub fn address_event(payload: EventPayload, current_id: &str) -> (r: EventPayload)
    ensures
        r@ == (EventView {
            download_id: match payload@.download_id {
                Some(id) => Some(id),
                None => Some(current_id@),
            },
            ..payload@
        }),
        payload@.download_id is Some ==> r@ == payload@,
        r@.download_id is Some,
        payload@.download_id is None ==> r@.download_id == Some(current_id@),
        r@.title == payload@.title && r@.details == payload@.details && r@.timestamp
            == payload@.timestamp,
{
    let mut out = payload;
    if out.download_id.is_none() {
        out.download_id = Some(current_id.to_owned());
    }
    out
}

/// A total that is neither missing nor a question mark.
pub open spec fn known_total(total: Seq<char>) -> bool {
    let t = text::trimmed(total);
    t.len() > 0 && t != "-"@ && t != "?"@ && !t.contains('?')
}

/// Whether a total names a size.
pub fn total_is_known(total: &str) -> (r: bool)
    ensures
        r == known_total(total@),
{
    let t = text::trim(total);
    !t.as_str().is_empty() && !text::same_text(t.as_str(), "-") && !text::same_text(t.as_str(), "?")
        && !text::contains_char(t.as_str(), '?')
}

/// How far a download has come.
#[derive(Debug)]
pub struct TransferUpdate {
    pub download_id: String,
    pub pct: u32,
    pub speed: String,
    pub eta: String,
    pub downloaded: String,
    pub total: String,
    pub total_known: bool,
    pub phase: String,
    pub strategy_name: String,
    pub strategy_attempt: u32,
    pub engine: String,
    pub filename: Option<String>,
}

/// A transfer update by its contents.
pub struct TransferView {
    pub download_id: Seq<char>,
    pub pct: u32,
    pub speed: Seq<char>,
    pub eta: Seq<char>,
    pub downloaded: Seq<char>,
    pub total: Seq<char>,
    pub total_known: bool,
    pub phase: Seq<char>,
    pub strategy_name: Seq<char>,
    pub strategy_attempt: u32,
    pub engine: Seq<char>,
    pub filename: Option<Seq<char>>,
}

impl View for TransferUpdate {
    type V = TransferView;

    open spec fn view(&self) -> TransferView {
        TransferView {
            download_id: self.download_id@,
            pct: self.pct,
            speed: self.speed@,
            eta: self.eta@,
            downloaded: self.downloaded@,
            total: self.total@,
            total_known: self.total_known,
            phase: self.phase@,
            strategy_name: self.strategy_name@,
            strategy_attempt: self.strategy_attempt,
            engine: self.engine@,
            filename: text::opt_text(self.filename),
        }
    }
}

/// A text, or a dash where there is none.
pub open spec fn or_dash(o: Option<Seq<char>>) -> Seq<char> {
    match o {
        Some(s) => s,
        None => "-"@,
    }
}

/// The transfer update that a session shows: the percentage is capped at 100,
/// and what is not known is a dash.
pub open spec fn transfer_view(
    ui: UiView,
    pct: int,
    speed: Option<Seq<char>>,
    eta: Option<Seq<char>>,
    downloaded: Option<Seq<char>>,
    total: Option<Seq<char>>,
    phase: Seq<char>,
) -> TransferView {
    TransferView {
        download_id: ui.download_id,
        pct: (if pct > 100 {
            100
        } else {
            pct
        }) as u32,
        speed: or_dash(speed),
        eta: or_dash(eta),
        downloaded: or_dash(downloaded),
        total: or_dash(total),
        total_known: known_total(or_dash(total)),
        phase,
        strategy_name: ui.strategy_name,
        strategy_attempt: ui.strategy_attempt,
        engine: ui.engine,
        filename: ui.filename,
    }
}

fn text_or_dash(o: Option<&str>) -> (r: String)
    ensures
        r@ == or_dash(text::opt_str(o)),
{
    match o {
        Some(s) => s.to_owned(),
        None => "-".to_owned(),
    }
}

/// Builds the transfer update that the session shows.
pub fn transfer_update(
    ui: &UiSession,
    pct: u32,
    speed: Option<&str>,
    eta: Option<&str>,
    downloaded: Option<&str>,
    total: Option<&str>,
    phase: &str,
) -> (r: TransferUpdate)
    ensures
        r@ == transfer_view(
            ui@,
            pct as int,
            text::opt_str(speed),
            text::opt_str(eta),
            text::opt_str(downloaded),
            text::opt_str(total),
            phase@,
        ),
{
    let total_text = text_or_dash(total);
    let total_known = total_is_known(total_text.as_str());
    TransferUpdate {
        download_id: ui.download_id.clone(),
        pct: if pct > 100 {
            100
        } else {
            pct
        },
        speed: text_or_dash(speed),
        eta: text_or_dash(eta),
        downloaded: text_or_dash(downloaded),
        total: total_text,
        total_known,
        phase: phase.to_owned(),
        strategy_name: ui.strategy_name.clone(),
        strategy_attempt: ui.strategy_attempt,
        engine: ui.engine.clone(),
        filename: ui.filename.clone(),
    }
}

/// The file that the end of a download reports.
#[derive(Debug)]
pub struct FinishedFile {
    pub path: Option<String>,
    pub name: Option<String>,
    pub downloaded_bytes: Option<u64>,
    pub total_bytes: Option<u64>,
}

/// The end of a download. `file` and `url` are `None` where the report has no
/// such fields at all.
#[derive(Debug)]
pub struct Finished {
    pub download_id: String,
    pub success: bool,
    pub status: String,
    pub engine: String,
    pub message: String,
    pub file: Option<FinishedFile>,
    pub url: Option<String>,
}

/// A reported file by its contents.
pub struct FileView {
    pub path: Option<Seq<char>>,
    pub name: Option<Seq<char>>,
    pub downloaded_bytes: Option<u64>,
    pub total_bytes: Option<u64>,
}

/// The end of a download by its contents.
pub struct FinishedView {
    pub download_id: Seq<char>,
    pub success: bool,
    pub status: Seq<char>,
    pub engine: Seq<char>,
    pub message: Seq<char>,
    pub file: Option<FileView>,
    pub url: Option<Seq<char>>,
}

impl View for FinishedFile {
    type V = FileView;

    open spec fn view(&self) -> FileView {
        FileView {
            path: text::opt_text(self.path),
            name: text::opt_text(self.name),
            downloaded_bytes: self.downloaded_bytes,
            total_bytes: self.total_bytes,
        }
    }
}

impl View for Finished {
    type V = FinishedView;

    open spec fn view(&self) -> FinishedView {
        FinishedView {
            download_id: self.download_id@,
            success: self.success,
            status: self.status@,
            engine: self.engine@,
            message: self.message@,
            file: match self.file {
                Some(f) => Some(f@),
                None => None,
            },
            url: text::opt_text(self.url),
        }
    }
}

/// One thing that the user interface is told.
#[derive(Debug)]
pub enum Notice {
    /// A status line and its kind.
    Status { text: String, kind: String },
    /// An entry of the event log, under the download's heading.
    Event {
        event_type: EventType,
        category: EventCategory,
        title: String,
        details: Option<String>,
        update_key: Option<String>,
    },
    /// How far the download has come.
    Transfer(TransferUpdate),
    /// The strategy that aria2 is started with; attempts are counted from 1.
    StrategyChanged { attempt: u32, name: String, description: String },
    /// The download is paused.
    Paused { download_id: String },
    /// YouTube asks for browser verification.
    CookieRequired(Finished),
    /// The download has ended.
    Finished(Finished),
}

/// A notice by its contents.
pub enum NoticeView {
    Status { text: Seq<char>, kind: Seq<char> },
    Event {
        event_type: EventType,
        category: EventCategory,
        title: Seq<char>,
        details: Option<Seq<char>>,
        update_key: Option<Seq<char>>,
    },
    Transfer(TransferView),
    StrategyChanged { attempt: u32, name: Seq<char>, description: Seq<char> },
    Paused { download_id: Seq<char> },
    CookieRequired(FinishedView),
    Finished(FinishedView),
}

impl View for Notice {
    type V = NoticeView;

    open spec fn view(&self) -> NoticeView {
        match *self {
            Notice::Status { text, kind } => NoticeView::Status { text: text@, kind: kind@ },
            Notice::Event { event_type, category, title, details, update_key } => NoticeView::Event {
                event_type,
                category,
                title: title@,
                details: text::opt_text(details),
                update_key: text::opt_text(update_key),
            },
            Notice::Transfer(t) => NoticeView::Transfer(t@),
            Notice::StrategyChanged { attempt, name, description } => NoticeView::StrategyChanged {
                attempt,
                name: name@,
                description: description@,
            },
            Notice::Paused { download_id } => NoticeView::Paused { download_id: download_id@ },
            Notice::CookieRequired(f) => NoticeView::CookieRequired(f@),
            Notice::Finished(f) => NoticeView::Finished(f@),
        }
    }
}

/// A list of notices by its contents.
pub open spec fn notices(list: Seq<Notice>) -> Seq<NoticeView> {
    Seq::new(list.len(), |i: int| list[i]@)
}

/// Makes a status line.
pub fn status(text: &str, kind: &str) -> (r: Notice)
    ensures
        r@ == (NoticeView::Status { text: text@, kind: kind@ }),
{
    Notice::Status { text: text.to_owned(), kind: kind.to_owned() }
}

/// Makes an entry of the event log.
pub fn event(
    event_type: EventType,
    category: EventCategory,
    title: &str,
    details: Option<String>,
    update_key: Option<String>,
) -> (r: Notice)
    ensures
        r@ == (NoticeView::Event {
            event_type,
            category,
            title: title@,
            details: text::opt_text(details),
            update_key: text::opt_text(update_key),
        }),
{
    Notice::Event { event_type, category, title: title.to_owned(), details, update_key }
}

/// The transfer update that says no more than the phase.
pub open spec fn bare_transfer(ui: UiView, phase: Seq<char>) -> NoticeView {
    NoticeView::Transfer(transfer_view(ui, 0, None, None, None, None, phase))
}

/// Makes the transfer update that says no more than the phase.
pub fn phase_notice(ui: &UiSession, phase: &str) -> (r: Notice)
    ensures
        r@ == bare_transfer(ui@, phase@),
{
    Notice::Transfer(transfer_update(ui, 0, None, None, None, None, phase))
}

/// The event that a log notice turns into when it is sent: it carries the time
/// of day, the download's heading and no id.
pub fn log_event(
    event_type: EventType,
    category: EventCategory,
    title: &str,
    details: Option<String>,
    update_key: Option<String>,
) -> (r: EventPayload)
    ensures
        exists|now: Option<(u64, u32)>|
            r@ == (EventView {
                timestamp: numbers::clock_text(#[trigger] clock::seconds(now)),
                event_type,
                category,
                title: title@,
                details: text::opt_text(details),
                update_key: text::opt_text(update_key),
                group: Some(LOG_GROUP@),
                download_id: None,
            }),
{
    make_event(event_type, category, title, details, update_key, Some(LOG_GROUP.to_owned()))
}

/// A transfer update never shows more than one hundred percent.
pub proof fn lemma_transfer_is_capped(
    ui: UiView,
    pct: u32,
    speed: Option<Seq<char>>,
    eta: Option<Seq<char>>,
    downloaded: Option<Seq<char>>,
    total: Option<Seq<char>>,
    phase: Seq<char>,
)
    ensures
        transfer_view(ui, pct as int, speed, eta, downloaded, total, phase).pct <= 100,
{
}

/// An update shows what it is told, a dash for what is not known, and of the
/// session whose download it is.
pub proof fn lemma_transfer_shows_what_is_told(
    ui: UiView,
    pct: u32,
    speed: Seq<char>,
    eta: Seq<char>,
    downloaded: Seq<char>,
    total: Seq<char>,
    phase: Seq<char>,
)
    ensures
        ({
            let t = transfer_view(
                ui,
                pct as int,
                Some(speed),
                Some(eta),
                Some(downloaded),
                Some(total),
                phase,
            );
            &&& pct <= 100 ==> t.pct == pct
            &&& pct > 100 ==> t.pct == 100
            &&& t.speed == speed
            &&& t.eta == eta
            &&& t.downloaded == downloaded
            &&& t.total == total
            &&& total.len() > 0 && !text::is_white(total[0]) && !text::is_white(total.last()) ==> (
            t.total_known <==> total != "-"@ && !total.contains('?'))
            &&& t.phase == phase
            &&& t.download_id == ui.download_id
            &&& t.filename == ui.filename
            &&& t.engine == ui.engine
            &&& t.strategy_name == ui.strategy_name
            &&& t.strategy_attempt == ui.strategy_attempt
        }),
        ({
            let t = transfer_view(ui, pct as int, None, None, None, None, phase);
            t.speed == "-"@ && t.eta == "-"@ && t.downloaded == "-"@ && t.total == "-"@
                && !t.total_known
        }),
        bare_transfer(ui, phase) matches NoticeView::Transfer(t) && t.pct == 0 && t.phase == phase
            && t.speed == "-"@,
{
    lemma_known_totals(Seq::empty(), "-"@, Seq::empty());
    assert(Seq::empty() + "-"@ + Seq::empty() =~= "-"@);
    lemma_known_totals(Seq::empty(), total, Seq::empty());
    assert(Seq::empty() + total + Seq::empty() =~= total);
}

/// A total is known unless it is blank, a dash, or holds a question mark; white
/// space around it makes no difference.
pub proof fn lemma_known_totals(before: Seq<char>, total: Seq<char>, after: Seq<char>)
    requires
        forall|i: int| 0 <= i < before.len() ==> text::is_white(#[trigger] before[i]),
        forall|i: int| 0 <= i < after.len() ==> text::is_white(#[trigger] after[i]),
    ensures
        total.len() > 0 && !text::is_white(total[0]) && !text::is_white(total.last()) ==> (
        known_total(before + total + after) <==> total != "-"@ && !total.contains('?')),
        !known_total(before),
        !known_total("-"@),
{
    if total.len() > 0 && !text::is_white(total[0]) && !text::is_white(total.last()) {
        text::lemma_trimmed_parts(before, total, after, text::CharClass::Whitespace);
        reveal_strlit("?");
        if total == "?"@ {
            assert(total[0] == '?');
        }
    }
    let n = text::span(before, text::CharClass::Whitespace, true);
    text::lemma_span_bound(before, text::CharClass::Whitespace, true);
    text::lemma_span_members(before, text::CharClass::Whitespace, true);
    if n < before.len() {
        assert(text::is_white(before[n as int]));
    }
    assert(text::trimmed_start(before, text::CharClass::Whitespace).len() == 0);
    reveal_strlit("-");
    text::lemma_trimmed_parts(Seq::empty(), "-"@, Seq::empty(), text::CharClass::Whitespace);
    assert(Seq::empty() + "-"@ + Seq::empty() =~= "-"@);
}

} // verus!
