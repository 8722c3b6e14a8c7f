use download_manager::attempt;
use download_manager::attempt::{Attempt, AttemptResult, OutputFile, RunEnd};
use download_manager::download;
use download_manager::download::{
    AfterAttempt, AttemptStep, DownloadRun, Flags, RunEnded, Target, TargetMeta, TargetStep,
};
use download_manager::events::{EventType, Finished, Notice, UiSession};
use download_manager::resolve::{Aria2ResolutionError, DirProbe};

const GO_ON: Flags = Flags { abort: false, paused: false };

fn session() -> UiSession {
    let mut ui = UiSession::default();
    ui.download_id = "id".to_string();
    ui
}

fn run(resume: bool) -> DownloadRun {
    DownloadRun::new("https://h/a.zip".to_string(), "/d".to_string(), None, resume)
}

fn report(end: &RunEnded) -> &Finished {
    match end.notices.last() {
        Some(Notice::Finished(f)) => f,
        other => panic!("{:?}", other),
    }
}

fn status(n: &Notice) -> (&str, &str) {
    match n {
        Notice::Status { text, kind } => (text, kind),
        other => panic!("{:?}", other),
    }
}

fn feed(a: &mut Attempt, ui: &UiSession, raw: &str, given: Option<u32>, since: u64) -> Vec<Notice> {
    match attempt::read_line(raw) {
        Some(line) => a.on_line(ui, &line, given, None, since),
        None => Vec::new(),
    }
}

#[test]
fn blank_lines_say_nothing() {
    assert!(attempt::read_line(" \u{1b}[0m ").is_none());
    assert_eq!(attempt::read_line(" x ").map(|l| l.text), Some("x".to_string()));
}

#[test]
fn progress_is_told_after_a_rest() {
    let ui = session();
    let (mut a, first) = Attempt::start(&ui);
    assert_eq!(first.len(), 2);
    assert_eq!(status(&first[0]), ("Connecting...", "dl"));
    let line = "[#1 1MiB/4MiB(25%) CN:1 DL:1MiB ETA:3s]";
    assert!(feed(&mut a, &ui, line, Some(25), 249).is_empty());
    let told = feed(&mut a, &ui, line, Some(25), 250);
    assert_eq!(told.len(), 2);
    match &told[0] {
        Notice::Transfer(t) => {
            assert_eq!((t.pct, t.phase.as_str(), t.speed.as_str()), (25, "downloading", "1MiB/s"));
            assert_eq!((t.download_id.as_str(), t.total.as_str()), ("id", "4MiB"));
        }
        other => panic!("{:?}", other),
    }
    assert_eq!(status(&told[1]), ("Downloading... 25%", "dl"));
    assert_eq!(a.progress().pct, 25);
}

#[test]
fn the_reported_path_is_kept() {
    let ui = session();
    let (mut a, _) = Attempt::start(&ui);
    assert_eq!(a.reported(), None);
    feed(&mut a, &ui, "Download complete: /d/a.zip", None, 0);
    feed(&mut a, &ui, "something else", None, 0);
    assert_eq!(a.reported().as_deref(), Some("/d/a.zip"));
}

fn exited(success: bool, bytes: Option<u64>) -> RunEnd {
    RunEnd::Exited {
        success,
        exit_code: Some(if success { 0 } else { 1 }),
        output: bytes.map(|bytes| OutputFile {
            path: "/d/a".to_string(),
            file_name: None,
            bytes,
        }),
    }
}

#[test]
fn a_run_with_a_file_is_shown_as_complete() {
    let ui = session();
    let (mut a, _) = Attempt::start(&ui);
    feed(&mut a, &ui, "[#1 4MiB/4MiB(100%)]", Some(100), 0);
    match a.success_notice(&ui, &exited(true, Some(5))) {
        Some(Notice::Transfer(t)) => {
            assert_eq!((t.pct, t.phase.as_str()), (100, "completed"));
            assert_eq!((t.speed.as_str(), t.eta.as_str()), ("Completed", "Done"));
            assert_eq!((t.downloaded.as_str(), t.total.as_str()), ("4MiB", "4MiB"));
        }
        other => panic!("{:?}", other),
    }
    assert!(matches!(a.conclude(exited(true, Some(5))), AttemptResult::Completed { .. }));
}

#[test]
fn a_run_without_a_file_is_not_shown_as_complete() {
    let ui = session();
    let (a, _) = Attempt::start(&ui);
    let ends = || {
        vec![
            exited(true, None),
            exited(true, Some(0)),
            exited(false, None),
            exited(false, Some(5)),
            RunEnd::Gone,
            RunEnd::Stopped { paused: true },
        ]
    };
    for end in ends() {
        assert!(a.success_notice(&ui, &end).is_none(), "{:?}", end);
    }
    for end in ends() {
        assert!(!matches!(a.conclude(end), AttemptResult::Completed { .. }));
    }
}

fn detail(r: AttemptResult) -> String {
    match r {
        AttemptResult::Failed { detail } => detail,
        other => panic!("{:?}", other),
    }
}

#[test]
fn an_attempt_completes_only_with_a_file_that_is_not_empty() {
    let ui = session();
    let (mut a, _) = Attempt::start(&ui);
    let file = |bytes: u64| OutputFile { path: "/d/a".to_string(), file_name: None, bytes };
    let ended = |output: Option<OutputFile>| RunEnd::Exited {
        success: true,
        exit_code: Some(0),
        output,
    };
    match a.conclude(ended(Some(file(5)))) {
        AttemptResult::Completed { path, file_name, bytes } => {
            assert_eq!((path.as_str(), file_name.as_str(), bytes), ("/d/a", "download", 5))
        }
        other => panic!("{:?}", other),
    }
    assert_eq!(detail(a.conclude(ended(Some(file(0))))), "aria2 created a 0B file: /d/a");
    assert_eq!(
        detail(a.conclude(ended(None))),
        "aria2 exited successfully but no output file was found"
    );
    let error = || "why".to_string();
    assert_eq!(
        detail(a.conclude(RunEnd::NotStarted { error: error() })),
        "Failed to launch aria2: why"
    );
    assert_eq!(
        detail(a.conclude(RunEnd::StatusUnreadable { error: error() })),
        "Could not read aria2 process status: why"
    );
    assert!(matches!(a.conclude(RunEnd::Gone), AttemptResult::Cancelled));
    assert!(matches!(a.conclude(RunEnd::Stopped { paused: false }), AttemptResult::Cancelled));
    assert!(matches!(a.conclude(RunEnd::Stopped { paused: true }), AttemptResult::Paused));
    feed(&mut a, &ui, "network is unreachable", None, 0);
    let failed = RunEnd::Exited { success: false, exit_code: Some(6), output: None };
    assert_eq!(
        detail(a.conclude(failed)),
        "aria2 failed; error=network; exit code 6; recent output: network is unreachable"
    );
}

#[test]
fn every_strategy_is_tried_once() {
    let mut ui = session();
    let mut r = run(false);
    let mut names = Vec::new();
    loop {
        match r.next_step(&mut ui, GO_ON) {
            AttemptStep::Run { args, notices } => {
                assert_eq!(args.last().map(|s| s.as_str()), Some("https://h/a.zip"));
                match &notices[0] {
                    Notice::StrategyChanged { attempt, name, .. } => {
                        assert_eq!(*attempt as usize, names.len() + 1);
                        assert_eq!(ui.strategy_name, *name);
                        names.push(name.clone());
                    }
                    other => panic!("{:?}", other),
                }
            }
            AttemptStep::End(end) => {
                let f = report(&end);
                assert_eq!((f.success, f.status.as_str()), (false, "failed"));
                assert_eq!(f.message, format!("reason {}", names.len()));
                assert!(!end.keep_session);
                break;
            }
        }
        let why = format!("reason {}", names.len());
        match r.attempt_ended(&mut ui, AttemptResult::Failed { detail: why.clone() }) {
            AfterAttempt::Next(told) => {
                if names.len() < 9 {
                    assert_eq!(told.len(), 2);
                    match &told[0] {
                        Notice::Event { event_type, details, .. } => {
                            assert_eq!(*event_type, EventType::Retrying);
                            assert_eq!(details.as_deref(), Some(why.as_str()));
                        }
                        other => panic!("{:?}", other),
                    }
                    assert_eq!(status(&told[1]).1, "retry");
                } else {
                    assert!(told.is_empty());
                }
            }
            other => panic!("{:?}", other),
        }
    }
    assert_eq!(names.len(), 9);
    assert_eq!(names[0], "Default");
    assert_eq!(names[8], "Safari / Relaxed");
}

#[test]
fn a_completed_attempt_ends_the_run() {
    let mut ui = session();
    let mut r = run(false);
    r.next_step(&mut ui, GO_ON);
    let done = AttemptResult::Completed {
        path: "/d/b.zip".to_string(),
        file_name: "b.zip".to_string(),
        bytes: 1_536,
    };
    match r.attempt_ended(&mut ui, done) {
        AfterAttempt::End(end) => {
            match &end.notices[0] {
                Notice::Event { details, .. } => {
                    assert_eq!(details.as_deref(), Some("Saved: /d/b.zip (1.50KiB)"))
                }
                other => panic!("{:?}", other),
            }
            assert_eq!(status(&end.notices[1]), ("Download complete", "ok"));
            let f = report(&end);
            assert!(f.success);
            let file = match &f.file {
                Some(file) => file,
                None => panic!("no file"),
            };
            assert_eq!(file.downloaded_bytes, Some(1_536));
            assert_eq!(file.total_bytes, Some(1_536));
            assert_eq!(ui.filename.as_deref(), Some("b.zip"));
        }
        other => panic!("{:?}", other),
    }
}

#[test]
fn stopping_ends_the_run() {
    let mut ui = session();
    let mut r = run(false);
    match r.attempt_ended(&mut ui, AttemptResult::Paused) {
        AfterAttempt::End(end) => {
            assert!(end.keep_session);
            assert!(matches!(end.notices.last(), Some(Notice::Paused { .. })));
        }
        other => panic!("{:?}", other),
    }
    match r.attempt_ended(&mut ui, AttemptResult::Cancelled) {
        AfterAttempt::End(end) => assert_eq!(report(&end).status, "cancelled"),
        other => panic!("{:?}", other),
    }
    match r.next_step(&mut ui, Flags { abort: true, paused: false }) {
        AttemptStep::End(end) => assert_eq!(report(&end).message, "Download cancelled"),
        other => panic!("{:?}", other),
    }
    match r.next_step(&mut ui, Flags { abort: true, paused: true }) {
        AttemptStep::End(end) => assert!(end.keep_session),
        other => panic!("{:?}", other),
    }
}

#[test]
fn an_existing_file_is_not_downloaded_again() {
    let target = |meta: TargetMeta| Target {
        path: "/d/a.zip".to_string(),
        file_name: Some("a.zip".to_string()),
        meta,
    };
    let mut ui = session();
    let fresh = run(false);
    assert_eq!(fresh.target_name().as_deref(), Some("a.zip"));
    match fresh.target_checked(&mut ui, &target(TargetMeta::File(9))) {
        TargetStep::Exists(end) => {
            let f = report(&end);
            assert_eq!((f.success, f.status.as_str()), (false, "already_exists"));
            assert_eq!(f.file.as_ref().and_then(|x| x.total_bytes), Some(9));
            assert_eq!(ui.filename, None);
        }
        other => panic!("{:?}", other),
    }
    assert!(matches!(
        fresh.target_checked(&mut ui, &target(TargetMeta::File(0))),
        TargetStep::RemoveStale
    ));
    assert!(matches!(
        fresh.target_checked(&mut ui, &target(TargetMeta::NotAFile)),
        TargetStep::RemoveStale
    ));
    assert!(matches!(
        fresh.target_checked(&mut ui, &target(TargetMeta::Unreadable)),
        TargetStep::Proceed
    ));
    assert_eq!(ui.filename.as_deref(), Some("a.zip"));
    assert_eq!(ui.event_state.last_filename.as_deref(), Some("a.zip"));
    assert!(matches!(
        run(true).target_checked(&mut ui, &target(TargetMeta::File(9))),
        TargetStep::Proceed
    ));
    assert!(download::is_stale(true, 0));
    assert!(!download::is_stale(true, 1));
    assert!(!download::is_stale(false, 0));
}

#[test]
fn a_run_needs_aria2_and_a_folder() {
    let ui = session();
    let error = Aria2ResolutionError {
        message: "aria2c not found or not usable.".to_string(),
        diagnostics: vec!["a".to_string(), "b".to_string()],
    };
    let end = download::runtime_missing(&ui, &error);
    assert_eq!(status(&end.notices[0]), ("aria2 not found", "err"));
    assert_eq!(report(&end).message, "aria2c not found or not usable. Diagnostics: a | b");
    assert!(run(false).dir_checked(&ui, &DirProbe::Writable).is_none());
    match run(false).dir_checked(&ui, &DirProbe::NotADirectory) {
        Some(end) => assert_eq!(report(&end).message, "Download folder does not exist: /d"),
        None => panic!("accepted"),
    }
}
