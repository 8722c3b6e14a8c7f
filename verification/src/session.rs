//! The download that is running or paused: starting, pausing, resuming and
//! stopping it.
use vstd::prelude::*;
use vstd::string::*;
use vstd::utf8::*;
use crate::aria2;
use crate::events;
use crate::events::{EventCategory, EventType, Notice, NoticeView, UiSession, UiView};
use crate::resolve;
use crate::resolve::DirProbe;
use crate::text;
use crate::unicode;
use crate::yt_dlp;

verus! {

/// How often resuming looks whether the previous download has ended.
pub const RESUME_POLLS: u32 = 30;

/// How long, in milliseconds, resuming waits between two looks.
pub const RESUME_WAIT_MS: u64 = 100;

/// The program that carries out a download.
#[derive(Debug, Clone, Copy, PartialEq, Eq, Structural)]
pub enum Engine {
    Aria2,
    YtDlp,
}

impl Engine {
    /// The name of the program.
    pub open spec fn name(self) -> Seq<char> {
        match self {
            Engine::Aria2 => "aria2"@,
            Engine::YtDlp => "yt-dlp"@,
        }
    }

    /// The name of the program.
    pub fn as_str(&self) -> (r: &'static str)
        ensures
            r@ == self.name(),
    {
        match self {
            Engine::Aria2 => "aria2",
            Engine::YtDlp => "yt-dlp",
        }
    }
}

/// A download that can be resumed.
#[derive(Debug)]
pub struct PausedSession {
    pub url: String,
    pub dir: String,
    pub engine: String,
    pub quality: Option<String>,
    pub playlist: Option<bool>,
    pub custom_filename: Option<String>,
    pub browser_cookie_source: Option<String>,
    pub download_id: String,
}

/// What the user asks for.
#[derive(Debug)]
pub struct DownloadRequest {
    pub url: String,
    pub dir: String,
    pub quality: Option<String>,
    pub playlist: Option<bool>,
    pub custom_filename: Option<String>,
    pub browser_cookie_source: Option<String>,
    pub download_id: String,
}

/// A request by its contents.
pub struct RequestView {
    pub url: Seq<char>,
    pub dir: Seq<char>,
    pub quality: Option<Seq<char>>,
    pub playlist: Option<bool>,
    pub custom_filename: Option<Seq<char>>,
    pub browser_cookie_source: Option<Seq<char>>,
    pub download_id: Seq<char>,
}

/// A session by its contents: the request and the engine's name.
pub struct SessionView {
    pub request: RequestView,
    pub engine: Seq<char>,
}

impl View for DownloadRequest {
    type V = RequestView;

    open spec fn view(&self) -> RequestView {
        RequestView {
            url: self.url@,
            dir: self.dir@,
            quality: text::opt_text(self.quality),
            playlist: self.playlist,
            custom_filename: text::opt_text(self.custom_filename),
            browser_cookie_source: text::opt_text(self.browser_cookie_source),
            download_id: self.download_id@,
        }
    }
}

impl View for PausedSession {
    type V = SessionView;

    open spec fn view(&self) -> SessionView {
        SessionView {
            request: RequestView {
                url: self.url@,
                dir: self.dir@,
                quality: text::opt_text(self.quality),
                playlist: self.playlist,
                custom_filename: text::opt_text(self.custom_filename),
                browser_cookie_source: text::opt_text(self.browser_cookie_source),
                download_id: self.download_id@,
            },
            engine: self.engine@,
        }
    }
}

impl Clone for PausedSession {
    fn clone(&self) -> (r: Self)
        ensures
            r@ == self@,
    {
        PausedSession {
            url: self.url.clone(),
            dir: self.dir.clone(),
            engine: self.engine.clone(),
            quality: self.quality.clone(),
            playlist: self.playlist,
            custom_filename: self.custom_filename.clone(),
            browser_cookie_source: self.browser_cookie_source.clone(),
            download_id: self.download_id.clone(),
        }
    }
}

/// An optional session by its contents.
pub open spec fn opt_session(o: Option<PausedSession>) -> Option<SessionView> {
    match o {
        Some(s) => Some(s@),
        None => None,
    }
}

/// The program's state, but for the child process.
#[derive(Debug)]
pub struct AppState {
    pub abort: bool,
    pub running: bool,
    pub paused: bool,
    pub ui_session: UiSession,
    pub paused_session: Option<PausedSession>,
}

/// The program's state by its contents.
pub struct AppView {
    pub abort: bool,
    pub running: bool,
    pub paused: bool,
    pub ui: UiView,
    pub session: Option<SessionView>,
}

impl View for AppState {
    type V = AppView;

    open spec fn view(&self) -> AppView {
        AppView {
            abort: self.abort,
            running: self.running,
            paused: self.paused,
            ui: self.ui_session@,
            session: opt_session(self.paused_session),
        }
    }
}

/// The state in which the program starts.
pub open spec fn idle() -> AppView {
    AppView { abort: false, running: false, paused: false, ui: events::fresh_ui(), session: None }
}

/// A URL in lower case that can be downloaded.
pub open spec fn has_scheme(lower: Seq<char>) -> bool {
    text::begins_with(lower, "http://"@) || text::begins_with(lower, "https://"@)
        || text::begins_with(lower, "ftp://"@)
}

/// The engine for a URL: yt-dlp for video platforms and HLS playlists, else aria2.
pub open spec fn engine_of(url: Seq<char>) -> Engine {
    if yt_dlp::names_platform(unicode::lowercase(url)) || yt_dlp::hls_url(url) {
        Engine::YtDlp
    } else {
        Engine::Aria2
    }
}

/// The engine for a URL.
pub fn engine_for(url: &str) -> (r: Engine)
    ensures
        r == engine_of(url@),
        is_ascii_chars(url@) && yt_dlp::names_platform(text::ascii_lower(url@)) ==> r
            == Engine::YtDlp,
{
    if yt_dlp::is_video_platform_url(url) || yt_dlp::is_hls_url(url) {
        Engine::YtDlp
    } else {
        Engine::Aria2
    }
}

/// The file name that is shown before the download has begun.
pub open spec fn early_name(request: RequestView, engine: Engine) -> Option<Seq<char>> {
    match (request.custom_filename, engine) {
        (Some(name), _) => Some(name),
        (None, Engine::YtDlp) => None,
        (None, Engine::Aria2) => aria2::url_file_name(request.url),
    }
}

/// Why a request is refused; `None` where it is accepted.
pub open spec fn refusal(state: AppView, request: RequestView, probe: DirProbe) -> Option<
    Seq<char>,
> {
    if state.running {
        Some("A download is already running"@)
    } else if !has_scheme(unicode::lowercase(request.url)) {
        Some("Please enter a valid http, https, or ftp URL."@)
    } else {
        resolve::dir_error(request.dir, probe)
    }
}

/// The request continues the session: it has the same id, URL and directory.
pub open spec fn continues(session: Option<SessionView>, request: RequestView) -> bool {
    session matches Some(s) && s.request.download_id == request.download_id && s.request.url
        == request.url && s.request.dir == request.dir
}

/// The state in which a download runs, given its engine.
pub open spec fn started(request: RequestView, engine: Engine) -> AppView {
    AppView {
        abort: false,
        running: true,
        paused: false,
        ui: UiView {
            engine: engine.name(),
            strategy_name: engine.name(),
            filename: early_name(request, engine),
            last_filename: early_name(request, engine),
            download_id: request.download_id,
            ..events::fresh_ui()
        },
        session: Some(SessionView { request, engine: engine.name() }),
    }
}

/// What the user interface is told when a download starts.
pub open spec fn start_notices(request: RequestView, engine: Engine) -> Seq<NoticeView> {
    let first = NoticeView::Event {
        event_type: EventType::DownloadStarted,
        category: EventCategory::Info,
        title: "Download started (Engine: "@ + engine.name() + ")"@,
        details: Some("URL: "@ + request.url),
        update_key: None,
    };
    match early_name(request, engine) {
        Some(name) => seq![
            first,
            NoticeView::Event {
                event_type: EventType::MetadataUpdated,
                category: EventCategory::Info,
                title: "Metadata updated"@,
                details: Some("File: "@ + name),
                update_key: None,
            },
        ],
        None => seq![first],
    }
}

/// What is to be done for a download that was started.
#[derive(Debug)]
pub struct StartPlan {
    pub engine: Engine,
    pub resume_existing: bool,
    pub quality: String,
    pub playlist: bool,
    pub notices: Vec<Notice>,
}

impl AppState {
    /// The state in which the program starts.
    pub fn new() -> (r: Self)
        ensures
            r@ == idle(),
    {
        AppState {
            abort: false,
            running: false,
            paused: false,
            ui_session: UiSession::default(),
            paused_session: None,
        }
    }

    /// Refuses a request while a download runs, and one whose URL has no scheme
    /// that can be downloaded.
    pub fn check_request(&self, url: &str) -> (r: Result<(), String>)
        ensures
            match r {
                Ok(()) => !self@.running && has_scheme(unicode::lowercase(url@)),
                Err(e) => if self@.running {
                    e@ == "A download is already running"@
                } else {
                    e@ == "Please enter a valid http, https, or ftp URL."@ && !has_scheme(
                        unicode::lowercase(url@),
                    )
                },
            },
            !self@.running && is_ascii_chars(url@) ==> (r is Ok <==> has_scheme(
                text::ascii_lower(url@),
            )),
    {
        if self.running {
            return Err("A download is already running".to_owned());
        }
        let lowered = unicode::to_lowercase(url);
        let lower = lowered.as_str();
        if text::starts_with(lower, "http://") || text::starts_with(lower, "https://")
            || text::starts_with(lower, "ftp://") {
            Ok(())
        } else {
            Err("Please enter a valid http, https, or ftp URL.".to_owned())
        }
    }

    /// Whether a request continues the session that is kept.
    pub fn continues_session(&self, request: &DownloadRequest) -> (r: bool)
        ensures
            r == continues(self@.session, request@),
    {
        match &self.paused_session {
            Some(s) => text::same_text(s.download_id.as_str(), request.download_id.as_str())
                && text::same_text(s.url.as_str(), request.url.as_str()) && text::same_text(
                s.dir.as_str(),
                request.dir.as_str(),
            ),
            None => false,
        }
    }

    /// Starts a download, given what came of trying its directory.
    pub fn start_download(&mut self, request: &DownloadRequest, probe: &DirProbe) -> (r: Result<
        StartPlan,
        String,
    >)
        ensures
            match (r, refusal(old(self)@, request@, *probe)) {
                (Err(e), Some(why)) => e@ == why && *final(self) == *old(self),
                (Ok(plan), None) => {
                    &&& plan.engine == engine_of(request@.url)
                    &&& plan.resume_existing == continues(old(self)@.session, request@)
                    &&& plan.quality@ == (match request@.quality {
                        Some(q) => q,
                        None => "best"@,
                    })
                    &&& plan.playlist == (request@.playlist == Some(true))
                    &&& events::notices(plan.notices@) == start_notices(request@, plan.engine)
                    &&& final(self)@ == started(request@, plan.engine)
                },
                _ => false,
            },
            r is Ok ==> final(self)@.running && !old(self)@.running,
            r matches Ok(plan) ==> {
                &&& request@.quality is None ==> plan.quality@ == "best"@
                &&& request@.quality matches Some(q) ==> plan.quality@ == q
                &&& request@.playlist is None ==> !plan.playlist
                &&& request@.playlist matches Some(p) ==> plan.playlist == p
                &&& plan.resume_existing ==> old(self)@.session is Some
            },
    {
        match self.check_request(request.url.as_str()) {
            Ok(()) => {},
            Err(e) => {
                return Err(e);
            },
        }
        match resolve::validate_output_dir(request.dir.as_str(), probe) {
            Ok(()) => {},
            Err(e) => {
                return Err(e);
            },
        }
        let resume_existing = self.continues_session(request);
        let engine = engine_for(request.url.as_str());
        let hint = match &request.custom_filename {
            Some(name) => Some(name.clone()),
            None => match engine {
                Engine::YtDlp => None,
                Engine::Aria2 => aria2::filename_hint_from_url(request.url.as_str()),
            },
        };
        let mut ui = UiSession::default();
        ui.engine = engine.as_str().to_owned();
        ui.filename = hint.clone();
        ui.event_state.last_filename = hint.clone();
        ui.strategy_name = engine.as_str().to_owned();
        ui.download_id = request.download_id.clone();
        self.ui_session = ui;
        self.paused_session = Some(
            PausedSession {
                url: request.url.clone(),
                dir: request.dir.clone(),
                engine: engine.as_str().to_owned(),
                quality: request.quality.clone(),
                playlist: request.playlist,
                custom_filename: request.custom_filename.clone(),
                browser_cookie_source: request.browser_cookie_source.clone(),
                download_id: request.download_id.clone(),
            },
        );
        let mut list: Vec<Notice> = Vec::new();
        let title = text::concat3("Download started (Engine: ", engine.as_str(), ")");
        let link = text::concat2("URL: ", request.url.as_str());
        list.push(
            events::event(
                EventType::DownloadStarted,
                EventCategory::Info,
                title.as_str(),
                Some(link),
                None,
            ),
        );
        if let Some(name) = hint {
            let shown = text::concat2("File: ", name.as_str());
            list.push(
                events::event(
                    EventType::MetadataUpdated,
                    EventCategory::Info,
                    "Metadata updated",
                    Some(shown),
                    None,
                ),
            );
        }
        assert(events::notices(list@) =~= start_notices(request@, engine));
        self.abort = false;
        self.paused = false;
        self.running = true;
        let quality = match &request.quality {
            Some(q) => q.clone(),
            None => "best".to_owned(),
        };
        let playlist = match request.playlist {
            Some(p) => p,
            None => false,
        };
        Ok(StartPlan { engine, resume_existing, quality, playlist, notices: list })
    }

    /// Asks the running download to stop and forgets the session. The child
    /// process is to be killed.
    pub fn shutdown_active_download(&mut self)
        ensures
            final(self)@ == (AppView { abort: true, paused: false, session: None, ..old(self)@ }),
            final(self)@.abort && !final(self)@.paused && final(self)@.session is None,
            final(self)@.running == old(self)@.running,
    {
        self.abort = true;
        self.paused = false;
        self.paused_session = None;
    }

    /// Asks the running download to pause. The child process is to be killed.
    pub fn pause_download(&mut self) -> (r: Result<Vec<Notice>, String>)
        ensures
            match r {
                Err(e) => {
                    &&& !old(self)@.running
                    &&& e@ == "No active download to pause"@
                    &&& *final(self) == *old(self)
                },
                Ok(notices) => {
                    &&& old(self)@.running
                    &&& final(self)@ == (AppView { abort: true, paused: true, ..old(self)@ })
                    &&& events::notices(notices@) == seq![
                        NoticeView::Status { text: "Download paused"@, kind: "warn"@ },
                        NoticeView::Event {
                            event_type: EventType::DownloadPaused,
                            category: EventCategory::Warn,
                            title: "Download paused"@,
                            details: None,
                            update_key: None,
                        },
                    ]
                },
            },
            r is Ok <==> old(self)@.running,
            r is Ok ==> final(self)@.abort && final(self)@.paused && final(self)@.session
                == old(self)@.session,
    {
        if !self.running {
            return Err("No active download to pause".to_owned());
        }
        self.paused = true;
        self.abort = true;
        let mut list: Vec<Notice> = Vec::new();
        list.push(events::status("Download paused", "warn"));
        list.push(
            events::event(
                EventType::DownloadPaused,
                EventCategory::Warn,
                "Download paused",
                None,
                None,
            ),
        );
        Ok(list)
    }

    /// Prepares to resume the session that is kept: hands out its request, with
    /// which the download is then started.
    pub fn resume_download(&mut self) -> (r: Result<(DownloadRequest, Vec<Notice>), String>)
        ensures
            match (r, old(self)@.running, old(self)@.session) {
                (Err(e), true, _) => {
                    &&& e@ == "Previous download is still shutting down, try again in a moment"@
                    &&& *final(self) == *old(self)
                },
                (Err(e), false, None) => {
                    &&& e@ == "No paused session found to resume"@
                    &&& *final(self) == *old(self)
                },
                (Ok((request, notices)), false, Some(s)) => {
                    &&& request@ == s.request
                    &&& final(self)@ == (AppView { abort: false, paused: false, ..old(self)@ })
                    &&& events::notices(notices@) == seq![
                        NoticeView::Status {
                            text: "Resuming "@ + s.engine + " download..."@,
                            kind: "info"@,
                        },
                        NoticeView::Event {
                            event_type: EventType::DownloadResumed,
                            category: EventCategory::Info,
                            title: "Download resumed"@,
                            details: Some("Engine: "@ + s.engine),
                            update_key: None,
                        },
                    ]
                },
                _ => false,
            },
            r is Ok <==> !old(self)@.running && old(self)@.session is Some,
            final(self)@.session == old(self)@.session,
            r matches Ok((request, _)) ==> continues(final(self)@.session, request@),
    {
        if self.running {
            return Err(
                "Previous download is still shutting down, try again in a moment".to_owned(),
            );
        }
        match &self.paused_session {
            None => Err("No paused session found to resume".to_owned()),
            Some(kept) => {
                let s = kept.clone();
                self.abort = false;
                self.paused = false;
                let mut list: Vec<Notice> = Vec::new();
                let shown = text::concat3("Resuming ", s.engine.as_str(), " download...");
                list.push(events::status(shown.as_str(), "info"));
                let which = text::concat2("Engine: ", s.engine.as_str());
                list.push(
                    events::event(
                        EventType::DownloadResumed,
                        EventCategory::Info,
                        "Download resumed",
                        Some(which),
                        None,
                    ),
                );
                let request = DownloadRequest {
                    url: s.url,
                    dir: s.dir,
                    quality: s.quality,
                    playlist: s.playlist,
                    custom_filename: s.custom_filename,
                    browser_cookie_source: s.browser_cookie_source,
                    download_id: s.download_id,
                };
                Ok((request, list))
            },
        }
    }

    /// Forgets the session if it is the given download's.
    pub fn clear_paused_session_if_current(&mut self, download_id: &str)
        ensures
            final(self)@ == (AppView {
                session: match old(self)@.session {
                    Some(s) => if s.request.download_id == download_id@ {
                        None
                    } else {
                        Some(s)
                    },
                    None => None,
                },
                ..old(self)@
            }),
    {
        let current = match &self.paused_session {
            Some(s) => text::same_text(s.download_id.as_str(), download_id),
            None => false,
        };
        if current {
            self.paused_session = None;
        }
    }

    /// Takes in the end of a download. Its session is kept for resuming, or
    /// forgotten.
    pub fn download_ended(&mut self, download_id: &str, keep_session: bool)
        ensures
            final(self)@ == ended(old(self)@, download_id@, keep_session),
    {
        if !keep_session {
            self.clear_paused_session_if_current(download_id);
        }
        self.running = false;
    }
}

/// The state after the end of a download.
pub open spec fn ended(state: AppView, download_id: Seq<char>, keep_session: bool) -> AppView {
    AppView {
        running: false,
        session: match state.session {
            Some(s) => if !keep_session && s.request.download_id == download_id {
                None
            } else {
                Some(s)
            },
            None => None,
        },
        ..state
    }
}

/// A download that was started, paused and has ended so is resumed with the
/// request that it was started with; that request continues it, and starts it
/// anew wherever its directory can still be written to.
pub proof fn lemma_pause_then_resume(state: AppView, request: RequestView, probe: DirProbe)
    requires
        refusal(state, request, probe) is None,
    ensures
        ({
            let engine = engine_of(request.url);
            let pausing = AppView { abort: true, paused: true, ..started(request, engine) };
            let stopped = ended(pausing, request.download_id, true);
            let resumed = AppView { abort: false, paused: false, ..stopped };
            &&& !stopped.running
            &&& stopped.session matches Some(s) && s.request == request && s.engine
                == engine.name()
            &&& continues(resumed.session, request)
            &&& refusal(resumed, request, DirProbe::Writable) is None
        }),
{
}

/// A download that was stopped, or whose end does not keep its session, leaves
/// nothing to resume.
pub proof fn lemma_stop_leaves_nothing(request: RequestView, engine: Engine, keep: bool)
    ensures
        ({
            let running = started(request, engine);
            let stopping = AppView { abort: true, paused: false, session: None, ..running };
            &&& ended(stopping, request.download_id, keep).session is None
            &&& ended(running, request.download_id, false).session is None
        }),
{
}

/// While a download runs, every other request is refused.
pub proof fn lemma_one_download_at_a_time(
    first: RequestView,
    engine: Engine,
    second: RequestView,
    probe: DirProbe,
)
    ensures
        refusal(started(first, engine), second, probe) == Some("A download is already running"@),
{
}

/// Whatever names a video platform, host by host, is given to yt-dlp, and so is
/// every HLS playlist, whatever gets TikTok's network arguments and whatever
/// gets YouTube's formats; the rest is given to aria2.
pub proof fn lemma_engine_by_host(url: Seq<char>)
    ensures
        ({
            let lower = unicode::lowercase(url);
            &&& text::holds_text(lower, "youtube.com"@) ==> engine_of(url) == Engine::YtDlp
            &&& text::holds_text(lower, "youtu.be"@) ==> engine_of(url) == Engine::YtDlp
            &&& text::holds_text(lower, "twitch.tv"@) ==> engine_of(url) == Engine::YtDlp
            &&& text::holds_text(lower, "tiktok.com"@) ==> engine_of(url) == Engine::YtDlp
            &&& text::holds_text(lower, "instagram.com"@) ==> engine_of(url) == Engine::YtDlp
            &&& text::holds_text(lower, "facebook.com/watch"@) ==> engine_of(url) == Engine::YtDlp
            &&& text::holds_text(lower, "facebook.com/share/v/"@) ==> engine_of(url)
                == Engine::YtDlp
            &&& text::holds_text(lower, "facebook.com/share/r/"@) ==> engine_of(url)
                == Engine::YtDlp
            &&& text::holds_text(lower, "facebook.com/reel/"@) ==> engine_of(url) == Engine::YtDlp
            &&& text::holds_text(lower, "facebook.com/reels/"@) ==> engine_of(url) == Engine::YtDlp
            &&& text::holds_text(lower, "facebook.com/videos/"@) ==> engine_of(url)
                == Engine::YtDlp
            &&& text::holds_text(lower, "fb.watch/"@) ==> engine_of(url) == Engine::YtDlp
            &&& text::holds_text(lower, "vimeo.com"@) ==> engine_of(url) == Engine::YtDlp
            &&& text::holds_text(lower, "dailymotion.com"@) ==> engine_of(url) == Engine::YtDlp
            &&& yt_dlp::hls_url(url) ==> engine_of(url) == Engine::YtDlp
            &&& yt_dlp::network_args_of(lower).len() > 0 ==> engine_of(url) == Engine::YtDlp
            &&& yt_dlp::names_youtube(lower) ==> engine_of(url) == Engine::YtDlp
            &&& !yt_dlp::names_platform(lower) && !yt_dlp::hls_url(url) ==> engine_of(url)
                == Engine::Aria2
        }),
{
    yt_dlp::lemma_platform_names(unicode::lowercase(url));
    yt_dlp::lemma_network_args_are_for_tiktok(unicode::lowercase(url));
    if yt_dlp::names_youtube(unicode::lowercase(url)) {
        yt_dlp::lemma_youtube_is_a_platform(unicode::lowercase(url));
    }
}

/// A request is refused exactly while a download runs, where its URL has none
/// of the three schemes, or where its directory is not usable; the first of
/// these reasons is the one that is told.
pub proof fn lemma_refusals(state: AppView, request: RequestView, probe: DirProbe)
    ensures
        ({
            let lower = unicode::lowercase(request.url);
            let schemed = text::begins_with(lower, "http://"@) || text::begins_with(
                lower,
                "https://"@,
            ) || text::begins_with(lower, "ftp://"@);
            let why = refusal(state, request, probe);
            &&& why is None <==> !state.running && schemed && probe is Writable
            &&& state.running ==> why == Some("A download is already running"@)
            &&& !state.running && !schemed ==> why == Some(
                "Please enter a valid http, https, or ftp URL."@,
            )
            &&& !state.running && schemed && probe is NotADirectory ==> why == Some(
                "Download folder does not exist: "@ + request.dir,
            )
            &&& !state.running && schemed ==> (probe matches DirProbe::NotWritable(e) ==> why
                == Some("Download folder is not writable: "@ + e@))
        }),
{
}

/// A download that starts shows its engine and its id, keeps its whole request
/// for resuming, and is neither stopped nor paused. The name that is shown is
/// the user's, else for aria2 the one that the URL suggests.
pub proof fn lemma_started_state(request: RequestView, engine: Engine)
    ensures
        ({
            let s = started(request, engine);
            &&& s.running && !s.abort && !s.paused
            &&& s.ui.download_id == request.download_id
            &&& s.ui.engine == s.ui.strategy_name
            &&& s.ui.engine == (if engine == Engine::YtDlp {
                "yt-dlp"@
            } else {
                "aria2"@
            })
            &&& s.session matches Some(kept)
            &&& kept.request == request
            &&& kept.engine == s.ui.engine
            &&& s.ui.filename == s.ui.last_filename
            &&& request.custom_filename is Some ==> s.ui.filename == request.custom_filename
            &&& request.custom_filename is None && engine == Engine::YtDlp ==> s.ui.filename is None
            &&& request.custom_filename is None && engine == Engine::Aria2 ==> s.ui.filename
                == aria2::url_file_name(request.url)
        }),
{
}

/// What a start tells: the engine and the URL, and the name where one is shown.
pub proof fn lemma_start_tells_the_name(request: RequestView, engine: Engine)
    ensures
        ({
            let told = start_notices(request, engine);
            let s = started(request, engine);
            &&& told[0] matches NoticeView::Event { event_type, title, details, .. }
            &&& event_type == EventType::DownloadStarted
            &&& title == "Download started (Engine: "@ + s.ui.engine + ")"@
            &&& details == Some("URL: "@ + request.url)
            &&& told.len() == 2 <==> s.ui.filename is Some
            &&& told.len() == 1 <==> s.ui.filename is None
            &&& s.ui.filename matches Some(name) ==> (told[1] matches NoticeView::Event {
                details,
                ..
            } && details == Some("File: "@ + name))
        }),
{
}

/// A request continues the session that a download left if and only if it has
/// the same id, URL and directory.
pub proof fn lemma_only_the_same_request_continues(
    first: RequestView,
    second: RequestView,
    engine: Engine,
)
    ensures
        continues(started(first, engine).session, second) <==> first.download_id
            == second.download_id && first.url == second.url && first.dir == second.dir,
        !continues(None, second),
{
}

/// The end of a download stops it from running and touches nothing else but,
/// where it is not kept, the download's own session.
pub proof fn lemma_end_touches_its_own_session(
    state: AppView,
    download_id: Seq<char>,
    keep: bool,
)
    ensures
        ({
            let after = ended(state, download_id, keep);
            &&& !after.running
            &&& after.abort == state.abort && after.paused == state.paused && after.ui == state.ui
            &&& keep ==> after.session == state.session
            &&& state.session matches Some(s) ==> (s.request.download_id != download_id
                ==> after.session == state.session)
            &&& !keep ==> (state.session matches Some(s) ==> (s.request.download_id == download_id
                ==> after.session is None))
        }),
{
}

/// How the program starts: nothing runs, nothing is kept, and what is shown is
/// no download's.
pub proof fn lemma_idle_state()
    ensures
        !idle().running && !idle().abort && !idle().paused,
        idle().session is None,
        idle().ui.filename is None && idle().ui.last_percent is None && idle().ui.last_phase is None,
        idle().ui.download_id.len() == 0,
        idle().ui.engine == "aria2"@,
        idle().ui.strategy_name == "Default"@,
        idle().ui.strategy_attempt == 1,
{
}

} // verus!
