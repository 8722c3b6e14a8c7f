use download_manager::events::Notice;
use download_manager::resolve::DirProbe;
use download_manager::session;
use download_manager::session::{AppState, DownloadRequest, Engine, StartPlan};

fn request(url: &str, id: &str) -> DownloadRequest {
    DownloadRequest {
        url: url.to_string(),
        dir: "/d".to_string(),
        quality: None,
        playlist: None,
        custom_filename: None,
        browser_cookie_source: Some("edge".to_string()),
        download_id: id.to_string(),
    }
}

fn start(state: &mut AppState, r: &DownloadRequest) -> StartPlan {
    match state.start_download(r, &DirProbe::Writable) {
        Ok(plan) => plan,
        Err(e) => panic!("{}", e),
    }
}

fn details(n: &Notice) -> (String, Option<String>) {
    match n {
        Notice::Event { title, details, .. } => (title.clone(), details.clone()),
        other => panic!("{:?}", other),
    }
}

#[test]
fn engines_are_chosen_by_the_url() {
    assert_eq!(session::engine_for("https://YouTu.be/x"), Engine::YtDlp);
    assert_eq!(session::engine_for("https://h/live.M3U8?token=1"), Engine::YtDlp);
    assert_eq!(session::engine_for("https://h/a.zip?x=.m3u8"), Engine::Aria2);
    assert_eq!(Engine::Aria2.as_str(), "aria2");
    assert_eq!(Engine::YtDlp.as_str(), "yt-dlp");
}

#[test]
fn a_download_starts() {
    let mut state = AppState::new();
    let plan = start(&mut state, &request("https://h/a.zip", "1"));
    assert_eq!(plan.engine, Engine::Aria2);
    assert!(!plan.resume_existing);
    assert_eq!((plan.quality.as_str(), plan.playlist), ("best", false));
    assert_eq!(
        details(&plan.notices[0]),
        ("Download started (Engine: aria2)".to_string(), Some("URL: https://h/a.zip".to_string()))
    );
    assert_eq!(
        details(&plan.notices[1]),
        ("Metadata updated".to_string(), Some("File: a.zip".to_string()))
    );
    assert!(state.running && !state.abort && !state.paused);
    assert_eq!(state.ui_session.filename.as_deref(), Some("a.zip"));
    assert_eq!(state.ui_session.download_id, "1");
    let kept = match &state.paused_session {
        Some(s) => s.clone(),
        None => panic!("no session"),
    };
    assert_eq!(kept.browser_cookie_source.as_deref(), Some("edge"));
}

#[test]
fn a_video_has_no_name_before_it_is_known() {
    let mut state = AppState::new();
    let mut r = request("HTTPS://www.youtube.com/watch?v=1", "1");
    let plan = start(&mut state, &r);
    assert_eq!(plan.engine, Engine::YtDlp);
    assert_eq!(plan.notices.len(), 1);
    assert_eq!(state.ui_session.filename, None);
    state.download_ended("1", true);
    r.custom_filename = Some("mine".to_string());
    r.quality = Some("mp3".to_string());
    r.playlist = Some(true);
    let plan = start(&mut state, &r);
    assert_eq!(plan.notices.len(), 2);
    assert_eq!((plan.quality.as_str(), plan.playlist), ("mp3", true));
    assert_eq!(state.ui_session.event_state.last_filename.as_deref(), Some("mine"));
}

#[test]
fn requests_are_refused() {
    let mut state = AppState::new();
    let bad = request("file:///x", "1");
    let refused = state.start_download(&bad, &DirProbe::NotADirectory).err();
    assert_eq!(refused.as_deref(), Some("Please enter a valid http, https, or ftp URL."));
    let good = request("ftp://h/x", "1");
    let refused = state.start_download(&good, &DirProbe::NotADirectory).err();
    assert_eq!(refused.as_deref(), Some("Download folder does not exist: /d"));
    assert!(!state.running && state.paused_session.is_none());
    start(&mut state, &good);
    let refused = state.start_download(&bad, &DirProbe::NotADirectory).err();
    assert_eq!(refused.as_deref(), Some("A download is already running"));
    assert_eq!(state.check_request("http://h").err().as_deref(), Some("A download is already running"));
}

#[test]
fn a_paused_download_is_resumed_with_its_request() {
    let mut state = AppState::new();
    assert_eq!(state.pause_download().err().as_deref(), Some("No active download to pause"));
    let r = request("https://h/a.zip", "1");
    start(&mut state, &r);
    let told = match state.pause_download() {
        Ok(told) => told,
        Err(e) => panic!("{}", e),
    };
    assert_eq!(told.len(), 2);
    assert!(state.abort && state.paused);
    assert_eq!(
        state.resume_download().err().as_deref(),
        Some("Previous download is still shutting down, try again in a moment")
    );
    state.download_ended("1", true);
    let (again, told) = match state.resume_download() {
        Ok(x) => x,
        Err(e) => panic!("{}", e),
    };
    match &told[0] {
        Notice::Status { text, kind } => {
            assert_eq!((text.as_str(), kind.as_str()), ("Resuming aria2 download...", "info"))
        }
        other => panic!("{:?}", other),
    }
    assert_eq!(details(&told[1]).1.as_deref(), Some("Engine: aria2"));
    assert!(!state.abort && !state.paused);
    assert_eq!(again.url, r.url);
    assert!(state.continues_session(&again));
    assert!(start(&mut state, &again).resume_existing);
}

#[test]
fn another_request_does_not_continue_the_session() {
    let mut state = AppState::new();
    start(&mut state, &request("https://h/a.zip", "1"));
    state.download_ended("1", true);
    assert!(!state.continues_session(&request("https://h/a.zip", "2")));
    assert!(!state.continues_session(&request("https://h/b.zip", "1")));
    assert!(!start(&mut state, &request("https://h/b.zip", "1")).resume_existing);
}

#[test]
fn a_stopped_download_cannot_be_resumed() {
    let mut state = AppState::new();
    start(&mut state, &request("https://h/a.zip", "1"));
    state.shutdown_active_download();
    assert!(state.abort && !state.paused && state.paused_session.is_none());
    state.download_ended("1", false);
    assert_eq!(
        state.resume_download().err().as_deref(),
        Some("No paused session found to resume")
    );
}

#[test]
fn only_the_current_session_is_forgotten() {
    let mut state = AppState::new();
    start(&mut state, &request("https://h/a.zip", "1"));
    state.clear_paused_session_if_current("2");
    assert!(state.paused_session.is_some());
    state.download_ended("1", false);
    assert!(!state.running && state.paused_session.is_none());
}
