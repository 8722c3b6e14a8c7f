use download_manager::download::{Flags, RunEnded};
use download_manager::events::{EventCategory, EventType, Finished, Notice, TransferUpdate, UiSession};
use download_manager::yt_command;
use download_manager::yt_command::YtJob;
use download_manager::yt_dlp;
use download_manager::yt_output;
use download_manager::yt_output::{LineKind, LineMatches, OutputPlace, YtLine};
use download_manager::yt_run;
use download_manager::yt_run::{FoundFile, Measured, NamedFile, NamedOutput, YtPhase, YtRun};

const GO_ON: Flags = Flags { abort: false, paused: false };

#[test]
fn platforms_are_recognised() {
    for url in [
        "https://music.YOUTUBE.com/x",
        "https://youtu.be/x",
        "https://twitch.tv/x",
        "https://vm.tiktok.com/x",
        "https://instagram.com/p",
        "https://facebook.com/watch?v=1",
        "https://facebook.com/reel/1",
        "https://fb.watch/1",
        "https://vimeo.com/1",
        "https://dailymotion.com/1",
    ] {
        assert!(yt_dlp::is_video_platform_url(url), "{}", url);
    }
    assert!(!yt_dlp::is_video_platform_url("https://facebook.com/someone"));
    assert!(!yt_dlp::is_video_platform_url("https://example.com/"));
    assert!(yt_dlp::is_hls_url("https://h/a.M3u8?x"));
    assert!(!yt_dlp::is_hls_url("https://h/a?x=.m3u8"));
    assert!(yt_dlp::is_youtube_url("https://YOUTUBE.COM"));
    assert!(!yt_dlp::is_youtube_url("https://vimeo.com"));
}

#[test]
fn errors_are_shown_in_plain_words() {
    let asks = "ERROR: Sign in to confirm you're not a bot";
    assert!(yt_dlp::is_youtube_cookie_required_message(asks));
    assert_eq!(yt_dlp::clean_yt_dlp_error(asks), yt_dlp::VERIFICATION_MESSAGE);
    assert_eq!(
        yt_dlp::clean_yt_dlp_error("Failed to decrypt with DPAPI"),
        yt_dlp::COOKIES_MESSAGE
    );
    assert_eq!(
        yt_dlp::clean_yt_dlp_error("could not copy Cookies Database"),
        yt_dlp::COOKIES_MESSAGE
    );
    assert_eq!(
        yt_dlp::clean_yt_dlp_error("bad cookies: see from-browser"),
        yt_dlp::COOKIES_MESSAGE
    );
    assert_eq!(yt_dlp::clean_yt_dlp_error("ERROR: Ünknown"), "ERROR: Ünknown");
}

#[test]
fn paths_lose_their_quotation_marks() {
    assert_eq!(yt_dlp::clean_yt_dlp_path(" \"/d/a b.mp4\" "), "/d/a b.mp4");
    assert_eq!(yt_dlp::clean_yt_dlp_path("'\" x '"), "x");
    assert_eq!(yt_dlp::clean_yt_dlp_path("' \"x\" '"), "\"x\"");
}

#[test]
fn relative_paths_are_below_the_directory() {
    match yt_output::output_place("\"/d/a.mp4\"", true) {
        OutputPlace::AsItStands(p) => assert_eq!(p, "/d/a.mp4"),
        other => panic!("{:?}", other),
    }
    match yt_output::output_place("a.mp4", false) {
        OutputPlace::BelowDirectory(p) => assert_eq!(p, "a.mp4"),
        other => panic!("{:?}", other),
    }
}

#[test]
fn cleaning_an_error_twice_changes_nothing_more() {
    for m in ["ERROR: Not a bot", "cookies database", "ERROR: Ünknown", ""] {
        let once = yt_dlp::clean_yt_dlp_error(m);
        assert_eq!(yt_dlp::clean_yt_dlp_error(&once), once);
    }
}

fn formats(quality: &str, ffmpeg_ok: bool, url: &str) -> Vec<String> {
    let mut args = vec!["first".to_string()];
    yt_dlp::append_format_args(&mut args, quality, ffmpeg_ok, url);
    args.remove(0);
    args
}

#[test]
fn formats_follow_the_quality() {
    let yt = "https://youtube.com/x";
    let other = "https://vimeo.com/x";
    assert_eq!(
        formats("best", true, yt),
        vec![
            "-S",
            "vcodec:h264,acodec:m4a,res,ext:mp4:m4a",
            "-f",
            "bv*[ext=mp4]+ba[ext=m4a]/b[ext=mp4]/b",
            "--merge-output-format",
            "mp4",
        ]
    );
    assert_eq!(formats("best_mp4", true, yt), formats("best", true, yt));
    assert_eq!(
        formats("best_mp4", true, other)[1],
        "bestvideo[vcodec^=avc1][ext=mp4]+bestaudio[ext=m4a]/best[ext=mp4]/best"
    );
    assert_eq!(
        formats("best", true, other),
        vec!["-f", "bestvideo+bestaudio/best", "--merge-output-format", "mp4"]
    );
    assert_eq!(formats("best_any_mkv", true, yt)[3], "mkv");
    assert_eq!(
        formats("1080p_mp4", true, yt)[1],
        "bestvideo[height<=1080][vcodec^=avc1][ext=mp4]+bestaudio[ext=m4a]/best[height<=1080]"
    );
    assert_eq!(
        formats("720p_mp4", true, yt)[1],
        "bestvideo[height<=720][vcodec^=avc1][ext=mp4]+bestaudio[ext=m4a]/best[height<=720]"
    );
    assert_eq!(
        formats("mp3", true, yt),
        vec!["-x", "--audio-format", "mp3", "--audio-quality", "0"]
    );
    assert_eq!(
        formats("m4a", true, yt),
        vec!["-f", "ba[ext=m4a]/ba", "--extract-audio", "--audio-format", "m4a"]
    );
    assert_eq!(formats("best_single", false, yt), vec!["-f", "best"]);
    assert_eq!(formats("mp3", false, yt), vec!["-f", "best[ext=mp4]/best"]);
}

fn job() -> YtJob {
    YtJob {
        url: "https://www.tiktok.com/v".to_string(),
        dir: "/d".to_string(),
        quality: "mp3".to_string(),
        playlist: false,
        custom_filename: None,
        browser_cookie_source: Some("chrome".to_string()),
        ffmpeg_ok: true,
        ffmpeg_location: Some("/ff".to_string()),
        node_found: true,
    }
}

#[test]
fn the_command_line_is_complete() {
    assert_eq!(
        yt_command::yt_dlp_command_args(&job()),
        vec![
            "https://www.tiktok.com/v",
            "--newline",
            "--progress",
            "--continue",
            "--part",
            "-P",
            "/d",
            "-o",
            "%(title).180B [%(id)s].%(ext)s",
            "--no-playlist",
            "--ffmpeg-location",
            "/ff",
            "--js-runtimes",
            "node",
            "--cookies-from-browser",
            "chrome",
            "-x",
            "--audio-format",
            "mp3",
            "--audio-quality",
            "0",
            "--socket-timeout",
            "60",
            "--retries",
            "5",
            "--fragment-retries",
            "5",
            "--force-ipv4",
        ]
    );
    let mut bare = job();
    bare.url = "https://vimeo.com/1".to_string();
    bare.playlist = true;
    bare.custom_filename = Some("mine".to_string());
    bare.browser_cookie_source = Some("firefox".to_string());
    bare.ffmpeg_ok = false;
    bare.ffmpeg_location = None;
    bare.node_found = false;
    assert_eq!(
        yt_command::yt_dlp_command_args(&bare),
        vec![
            "https://vimeo.com/1",
            "--newline",
            "--progress",
            "--continue",
            "--part",
            "-P",
            "/d",
            "-o",
            "mine",
            "-f",
            "best[ext=mp4]/best",
        ]
    );
    assert_eq!(yt_command::prepare(&bare, &session()).len(), 5);
}

#[test]
fn the_preparation_is_told() {
    let told = yt_command::prepare(&job(), &session());
    assert_eq!(told.len(), 6);
    match &told[0] {
        Notice::Event { event_type, category, title, details, .. } => {
            assert_eq!((*event_type, *category), (EventType::MetadataUpdated, EventCategory::Info));
            assert_eq!(title, "FFmpeg detected");
            assert_eq!(details.as_deref(), Some("FFmpeg detected — full quality mode enabled"));
        }
        other => panic!("{:?}", other),
    }
    match &told[1] {
        Notice::Event { details, .. } => {
            assert_eq!(details.as_deref(), Some("Using --cookies-from-browser chrome"))
        }
        other => panic!("{:?}", other),
    }
    assert_eq!(transfer(&told[5]).phase, "extracting");
    let notes: [(&str, bool, &str); 5] = [
        ("mp3", false, "Using single-file format selection (FFmpeg not available)."),
        ("best_any_mkv", true, "Using best-quality format selection with MKV merge output."),
        ("m4a", true, "Using audio extraction mode."),
        ("best_mp4", true, "Using H.264 MP4-compatible format selection with merge when needed."),
        ("best", true, "Using best-quality MP4 merge format selection."),
    ];
    for (quality, ok, note) in notes {
        assert_eq!(yt_command::format_description(quality, ok), note);
    }
}

fn session() -> UiSession {
    let mut ui = UiSession::default();
    ui.download_id = "id".to_string();
    ui.engine = "yt-dlp".to_string();
    ui
}

fn transfer(n: &Notice) -> &TransferUpdate {
    match n {
        Notice::Transfer(t) => t,
        other => panic!("{:?}", other),
    }
}

fn status(n: &Notice) -> (&str, &str) {
    match n {
        Notice::Status { text, kind } => (text, kind),
        other => panic!("{:?}", other),
    }
}

fn read(raw: &str, from_stdout: bool) -> YtLine {
    match yt_output::read_line(raw, from_stdout) {
        Some(line) => line,
        None => panic!("blank"),
    }
}

#[test]
fn lines_are_read() {
    assert!(yt_output::read_line("  \t", true).is_none());
    match read("[download]  42.5% of ~ 10.00MiB at  1.50MiB/s ETA 00:04", true).kind {
        LineKind::Progress(f) => {
            assert_eq!(f.pct, "42.5");
            assert_eq!(f.total.as_deref(), Some("10.00MiB"));
            assert_eq!(f.speed.as_deref(), Some("1.50MiB/s"));
            assert_eq!(f.eta.as_deref(), Some("00:04"));
        }
        other => panic!("{:?}", other),
    }
    match read("[download] Destination: \"/d/a b.f137.mp4\" ", true).kind {
        LineKind::Destination(p) => assert_eq!(p, "/d/a b.f137.mp4"),
        other => panic!("{:?}", other),
    }
    match read("[download] a.mp4 has already been downloaded", true).kind {
        LineKind::Already(p) => assert_eq!(p, "a.mp4"),
        other => panic!("{:?}", other),
    }
    match read("[Merger] Merging formats into \"a.mp4\"", true).kind {
        LineKind::Merging(p) => assert_eq!(p.as_deref(), Some("a.mp4")),
        other => panic!("{:?}", other),
    }
    match read("now MERGING formats into x", true).kind {
        LineKind::Merging(p) => assert_eq!(p, None),
        other => panic!("{:?}", other),
    }
    assert!(matches!(read("Deleting original file a", true).kind, LineKind::Deleting));
    assert!(matches!(read("[ExtractAudio] Destination", true).kind, LineKind::Converting));
    assert!(matches!(read("ERROR: no", true).kind, LineKind::Error));
    assert!(matches!(
        read("[info] error: x", false).kind,
        LineKind::Other { info: true, error: true }
    ));
    assert!(matches!(
        read("Some Error: x", false).kind,
        LineKind::Other { info: false, error: true }
    ));
    assert!(matches!(
        read("Some Error: x", true).kind,
        LineKind::Other { info: false, error: false }
    ));
    assert!(read("please sign in to confirm", true).asks_verification);
}

#[test]
fn what_the_patterns_find_decides() {
    let none = LineMatches {
        progress: None,
        destination: None,
        already: None,
        merger: None,
        merging: false,
    };
    let line = yt_output::classify_line("ERROR: x", true, &none);
    assert!(matches!(line.kind, LineKind::Error));
    let found = LineMatches {
        progress: None,
        destination: Some(vec![None, Some(" 'p' ".to_string())]),
        already: Some(vec![None, Some("q".to_string())]),
        merger: None,
        merging: true,
    };
    match yt_output::classify_line("ERROR: x", true, &found).kind {
        LineKind::Destination(p) => assert_eq!(p, "p"),
        other => panic!("{:?}", other),
    }
}

#[test]
fn sizes_are_read() {
    match yt_output::parse_size_to_bytes("~ 12.50 MiB") {
        Some(s) => assert_eq!((s.number.as_str(), s.factor), ("12.50", 1_048_576)),
        None => panic!("no size"),
    }
    match yt_output::parse_size_to_bytes("1gi") {
        Some(s) => assert_eq!(s.factor, 1_073_741_824),
        None => panic!("no size"),
    }
    assert!(yt_output::parse_size_to_bytes("—").is_none());
    assert!(yt_output::parse_size_to_bytes("12 MB").is_none());
    assert!(yt_output::size_from_groups(Some(vec![None, Some("1".to_string())])).is_none());
    let unknown = yt_output::size_from_groups(Some(vec![
        None,
        Some("1".to_string()),
        Some("x".to_string()),
    ]));
    assert_eq!(unknown.map(|s| s.factor), Some(1));
}

fn no_file() -> NamedFile {
    NamedFile { file_name: None, path: String::new() }
}

fn file(name: &str) -> NamedFile {
    NamedFile { file_name: Some(name.to_string()), path: format!("/d/{}", name) }
}

const NOTHING: Measured = Measured { readable: false, whole: 0, positive: false, bytes: None };

fn say(run: &mut YtRun, ui: &mut UiSession, raw: &str, from_stdout: bool) -> Vec<Notice> {
    run.on_line(ui, &read(raw, from_stdout), &file("a.mp4"), &NOTHING, 0).notices
}

#[test]
fn phases_have_names() {
    let names: Vec<&str> = [
        YtPhase::Idle,
        YtPhase::ExtractingInfo,
        YtPhase::Downloading,
        YtPhase::PostProcessing,
        YtPhase::Completed,
        YtPhase::Failed,
        YtPhase::Cancelled,
        YtPhase::Paused,
    ]
    .iter()
    .map(|p| p.as_str())
    .collect();
    assert_eq!(
        names,
        vec![
            "idle",
            "extracting",
            "downloading",
            "post_processing",
            "completed",
            "failed",
            "cancelled",
            "paused",
        ]
    );
}

#[test]
fn progress_is_shown_after_a_rest_or_when_full() {
    let mut ui = session();
    let (mut run, first) = YtRun::start(&ui);
    assert_eq!(transfer(&first[0]).total, "—");
    let line = read("[download]  42.5% of 10.00MiB at 1.50MiB/s ETA 00:04", true);
    let half = Measured { readable: true, whole: 42, positive: true, bytes: Some(4_456_448) };
    let quiet = run.on_line(&mut ui, &line, &no_file(), &half, 249);
    assert!(!quiet.progress_shown && quiet.notices.is_empty());
    let step = run.on_line(&mut ui, &line, &no_file(), &half, 250);
    assert!(step.progress_shown);
    let t = transfer(&step.notices[0]);
    assert_eq!((t.pct, t.phase.as_str(), t.downloaded.as_str()), (42, "downloading", "4.25MiB"));
    assert_eq!((t.speed.as_str(), t.eta.as_str(), t.total.as_str()), ("1.50MiB/s", "00:04", "10.00MiB"));
    let last = read("[download] 100% of 10.00MiB at Unknown speed ETA 00:00", true);
    let full = Measured { readable: true, whole: 100, positive: true, bytes: None };
    let step = run.on_line(&mut ui, &last, &no_file(), &full, 0);
    assert!(step.progress_shown);
    assert_eq!(transfer(&step.notices[0]).speed, "1.50MiB/s");
    assert_eq!(transfer(&step.notices[0]).eta, "00:04");
    match &last.kind {
        LineKind::Progress(f) => {
            assert_eq!(run.percent_in_force(f, false), "100");
            assert_eq!(run.total_in_force(f), "10.00MiB");
        }
        other => panic!("{:?}", other),
    }
}

#[test]
fn named_files_are_shown() {
    let mut ui = session();
    let (mut run, _) = YtRun::start(&ui);
    let told = say(&mut run, &mut ui, "[info] x", true);
    assert_eq!(transfer(&told[0]).phase, "extracting");
    let told = say(&mut run, &mut ui, "[download] Destination: a.mp4", true);
    assert_eq!(told.len(), 1);
    assert_eq!(ui.filename.as_deref(), Some("a.mp4"));
    assert_eq!(run.final_path().as_deref(), Some("/d/a.mp4"));
    assert!(say(&mut run, &mut ui, "[info] x", true).is_empty());
    let line = read("[download] Destination: other", true);
    let unnamed = NamedFile { file_name: None, path: "/d/other".to_string() };
    run.on_line(&mut ui, &line, &unnamed, &NOTHING, 0);
    assert_eq!(ui.filename.as_deref(), Some("other"));
    let told = say(&mut run, &mut ui, "[Merger] Merging formats into \"a.mp4\"", true);
    assert_eq!(told.len(), 3);
    assert_eq!(status(&told[1]), ("Merging formats…", "info"));
    let t = transfer(&told[2]);
    assert_eq!((t.pct, t.phase.as_str(), t.speed.as_str()), (100, "post_processing", "—"));
    let told = say(&mut run, &mut ui, "Deleting original file x", true);
    assert_eq!(status(&told[0]), ("Post-processing…", "info"));
    let told = say(&mut run, &mut ui, "[ExtractAudio] x", true);
    assert_eq!(status(&told[0]), ("Converting audio…", "info"));
}

fn report(end: &RunEnded) -> &Finished {
    assert!(end.keep_session);
    match end.notices.last() {
        Some(Notice::Finished(f)) => f,
        other => panic!("{:?}", other),
    }
}

fn end(run: &YtRun, ui: &mut UiSession, exit_ok: bool, output: NamedOutput) -> RunEnded {
    run.conclude(ui, "u", exit_ok, &output, &None, GO_ON)
}

#[test]
fn a_run_completes_with_a_file_that_is_not_empty() {
    let mut ui = session();
    let (mut run, _) = YtRun::start(&ui);
    let silent = end(&run, &mut ui, true, NamedOutput::Exact(5));
    assert_eq!(report(&silent).message, yt_run::NO_OUTPUT_MESSAGE);
    say(&mut run, &mut ui, "[download] Destination: a.mp4", true);
    let done = end(&run, &mut ui, true, NamedOutput::Exact(5));
    let f = report(&done);
    assert_eq!((f.success, f.status.as_str(), f.engine.as_str()), (true, "completed", "yt-dlp"));
    let reported = match &f.file {
        Some(file) => file,
        None => panic!("no file"),
    };
    assert_eq!(reported.path.as_deref(), Some("/d/a.mp4"));
    assert_eq!((reported.downloaded_bytes, reported.total_bytes), (Some(5), None));
    assert_eq!(transfer(&done.notices[0]).pct, 100);
    assert_eq!(status(&done.notices[2]), ("Download complete ✓", "ok"));
    let empty = end(&run, &mut ui, true, NamedOutput::Exact(0));
    assert!(!report(&empty).success);
    let gone = end(&run, &mut ui, true, NamedOutput::Missing);
    assert_eq!(report(&gone).message, yt_run::NO_OUTPUT_MESSAGE);
    let failed = end(&run, &mut ui, false, NamedOutput::Exact(5));
    assert_eq!(report(&failed).message, "yt-dlp exited with a non-zero status");
}

#[test]
fn a_file_may_be_found_under_another_name() {
    let mut ui = session();
    let (run, _) = YtRun::start(&ui);
    let found = |name: &str| FoundFile {
        path: format!("/d/{}", name),
        file_name: Some(name.to_string()),
        bytes: 7,
    };
    let done = run.conclude(&mut ui, "u", true, &NamedOutput::Missing, &Some(found("b.mp4")), GO_ON);
    assert!(report(&done).success);
    assert_eq!(ui.filename.as_deref(), Some("b.mp4"));
    let kept = run.conclude(&mut ui, "u", false, &NamedOutput::Missing, &Some(found("c.mp4")), GO_ON);
    assert!(!report(&kept).success);
    assert_eq!(ui.filename.as_deref(), Some("b.mp4"));
    let (mut run, _) = YtRun::start(&ui);
    say(&mut run, &mut ui, "[download] Destination: d.f137.mp4", true);
    let merged = NamedOutput::Merged(found("d.mp4"));
    let done = run.conclude(&mut ui, "u", true, &merged, &Some(found("e.mp4")), GO_ON);
    let path = report(&done).file.as_ref().and_then(|f| f.path.clone());
    assert_eq!(path.as_deref(), Some("/d/d.mp4"));
    assert_eq!(ui.filename.as_deref(), Some("d.mp4"));
}

#[test]
fn errors_fail_a_run() {
    let mut ui = session();
    let (mut run, _) = YtRun::start(&ui);
    say(&mut run, &mut ui, "[download] Destination: a.mp4", true);
    say(&mut run, &mut ui, "WARNING: odd", false);
    let failed = end(&run, &mut ui, false, NamedOutput::Exact(5));
    assert_eq!(report(&failed).message, "WARNING: odd");
    let told = say(&mut run, &mut ui, "oops error: bad", false);
    assert_eq!(told.len(), 1);
    let failed = end(&run, &mut ui, true, NamedOutput::Exact(5));
    assert_eq!(report(&failed).message, "oops error: bad");
    let told = say(&mut run, &mut ui, "ERROR: worse", true);
    assert_eq!(status(&told[0]), ("yt-dlp error", "error"));
    let failed = end(&run, &mut ui, true, NamedOutput::Exact(5));
    assert_eq!(report(&failed).message, "ERROR: worse");
}

#[test]
fn verification_prevails() {
    let mut ui = session();
    let (mut run, _) = YtRun::start(&ui);
    say(&mut run, &mut ui, "ERROR: Sign in to confirm your age", true);
    say(&mut run, &mut ui, "[download] Destination: a.mp4", true);
    let ended = end(&run, &mut ui, true, NamedOutput::Exact(5));
    let f = report(&ended);
    assert_eq!((f.success, f.status.as_str()), (false, "youtube_cookie_required"));
    assert_eq!(f.url.as_deref(), Some("u"));
    assert!(f.file.is_none());
    match &ended.notices[2] {
        Notice::CookieRequired(c) => assert_eq!(c.message, f.message),
        other => panic!("{:?}", other),
    }
}

#[test]
fn a_file_that_was_there_is_reported() {
    let mut ui = session();
    let (mut run, _) = YtRun::start(&ui);
    let told = say(&mut run, &mut ui, "[download] a.mp4 has already been downloaded", true);
    assert_eq!(status(&told[0]), ("Already downloaded", "ok"));
    assert_eq!(transfer(&told[1]).pct, 100);
    let ended = run.conclude(
        &mut ui,
        "u",
        true,
        &NamedOutput::Exact(5),
        &None,
        Flags { abort: true, paused: false },
    );
    let f = report(&ended);
    assert_eq!((f.success, f.status.as_str()), (false, "already_exists"));
    assert_eq!(f.file.as_ref().and_then(|x| x.downloaded_bytes), Some(5));
}

#[test]
fn stopping_a_run() {
    let mut ui = session();
    let (run, _) = YtRun::start(&ui);
    assert!(run.stopped(&ui, GO_ON).is_none());
    match run.stopped(&ui, Flags { abort: true, paused: true }) {
        Some(ended) => assert!(matches!(ended.notices.last(), Some(Notice::Paused { .. }))),
        None => panic!("goes on"),
    }
    match run.stopped(&ui, Flags { abort: true, paused: false }) {
        Some(ended) => assert_eq!(report(&ended).message, "Download cancelled"),
        None => panic!("goes on"),
    }
    let late = |abort: bool, paused: bool| Flags { abort, paused };
    let ended = run.conclude(&mut ui, "u", true, &NamedOutput::Missing, &None, late(true, true));
    assert_eq!(report(&ended).message, "User cancelled the download");
    let ended = run.conclude(&mut ui, "u", true, &NamedOutput::Missing, &None, late(false, true));
    assert_eq!((report(&ended).status.as_str(), report(&ended).message.as_str()), ("paused", "Download paused"));
}

#[test]
fn a_run_needs_yt_dlp() {
    let ui = session();
    let ended = yt_run::runtime_missing(&ui);
    assert_eq!(status(&ended.notices[0]), ("yt-dlp not found", "error"));
    assert_eq!(report(&ended).message, "Could not find yt-dlp binary");
    let ended = yt_run::spawn_failed(&ui, "no");
    assert_eq!(report(&ended).message, "Failed to spawn yt-dlp: no");
    match &ended.notices[1] {
        Notice::Event { details, .. } => assert_eq!(details.as_deref(), Some("Error: no")),
        other => panic!("{:?}", other),
    }
}
