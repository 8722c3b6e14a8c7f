use download_manager::clock;
use download_manager::events;
use download_manager::events::{EventCategory, EventType, UiSession};
use download_manager::ffmpeg;
use download_manager::ffmpeg::{ChosenPath, FfmpegCandidate, FfmpegOverride};
use download_manager::files;
use download_manager::files::{DirEntry, FileSnapshot, OutputEntry, OutputPick, VerifiedOutput};
use download_manager::platform;
use download_manager::platform::{
    Arch, Base, Flavour, KnownBases, Launch, OpenWhat, Os, PathKind, Target,
};
use download_manager::resolve;
use download_manager::resolve::{Aria2Search, DirProbe, ProbeOutcome, SearchStep};

fn entry(len: u64, modified: i128, before: Option<FileSnapshot>) -> DirEntry {
    DirEntry {
        is_file: true,
        extension: Some("zip".to_string()),
        now: Some(FileSnapshot { len, modified }),
        before,
    }
}

#[test]
fn the_newest_changed_file_is_found() {
    let same = Some(FileSnapshot { len: 5, modified: 10 });
    let mut control = entry(9, 99, None);
    control.extension = Some("Aria2".to_string());
    let mut gone = entry(9, 99, None);
    gone.now = None;
    let all = vec![
        entry(5, 10, same),
        entry(0, 99, None),
        control,
        gone,
        entry(7, 20, None),
        entry(8, 20, None),
        entry(8, 20, None),
        entry(9, 15, None),
    ];
    assert_eq!(files::newest_changed_file(&all, 50), Some(6));
    assert_eq!(files::newest_changed_file(&vec![entry(5, 10, same)], 50), None);
    assert_eq!(files::newest_changed_file(&vec![entry(5, 10, same)], 10), Some(0));
    assert_eq!(files::newest_changed_file(&vec![entry(6, 10, same)], 50), Some(0));
    assert_eq!(files::newest_changed_file(&Vec::new(), 0), None);
    assert_eq!(files::counted_from(5_000_000_000), 3_000_000_000);
    assert_eq!(files::counted_from(i128::MIN), i128::MIN);
}

#[test]
fn control_files_are_not_recorded() {
    assert!(files::in_snapshot(true, &None));
    assert!(!files::in_snapshot(false, &None));
    assert!(!files::in_snapshot(true, &Some("aria2".to_string())));
}

#[test]
fn the_reported_path_comes_first() {
    assert_eq!(files::pick_output(true, true), OutputPick::Reported);
    assert_eq!(files::pick_output(false, true), OutputPick::Expected);
    assert_eq!(files::pick_output(false, false), OutputPick::Newest);
}

#[test]
fn video_ids_are_read() {
    let cases: [(&str, Option<&str>); 7] = [
        ("https://youtu.be/abc?t=1", Some("abc")),
        ("https://www.youtube.com/watch?v=xyz&list=1", Some("xyz")),
        ("https://www.youtube.com/shorts/short1/", Some("short1")),
        ("https://youtu.be/?v=zzz", Some("zzz")),
        ("https://youtu.be/", None),
        ("https://example.com/", None),
        ("https://www.youtube.com/watch?v=a#b", Some("a")),
    ];
    for (url, id) in cases {
        assert_eq!(files::youtube_video_id(url).as_deref(), id, "{}", url);
    }
}

#[test]
fn unfinished_files_are_told_by_their_names() {
    for name in ["a.part", "a.YTDL", "a.aria2", "a.tmp", "a.Temp", "a.mp4.part"] {
        assert!(!files::is_final_download_file(Some(name)), "{}", name);
    }
    assert!(files::is_final_download_file(Some("a.mp4")));
    assert!(!files::is_final_download_file(None));
}

fn output(name: &str, len: u64, modified: i128) -> OutputEntry {
    OutputEntry {
        is_file: true,
        file_name: Some(name.to_string()),
        now: Some(FileSnapshot { len, modified }),
    }
}

#[test]
fn the_file_with_the_id_is_preferred() {
    let url = "https://youtu.be/abc";
    let all = vec![
        output("other.mp4", 1, 90),
        output("v [abc].mp4", 1, 20),
        output("v [abc].mkv", 1, 30),
        output("v [abc].webm", 1, 30),
        output("v [abc].part", 1, 99),
        output("v [abc] old.mp4", 1, 5),
        output("v [abc] empty.mp4", 0, 99),
    ];
    assert_eq!(files::find_completed_output(&all, url, 10), Some(2));
    assert_eq!(files::find_completed_output(&all, "https://x/", 10), Some(0));
    assert_eq!(files::find_completed_output(&all, url, 100), None);
}

#[test]
fn merged_names_lose_their_format() {
    assert_eq!(files::merged_names("v.f137.mp4"), vec!["v.mp4"]);
    assert_eq!(files::merged_names("v.f251.f140.m4a"), vec!["v.f251.m4a", "v.f140.m4a"]);
    assert!(files::merged_names("v.mp4").is_empty());
    assert_eq!(
        files::verified_output_metadata(Some(3), &vec![Some(4)]),
        VerifiedOutput::Exact(3)
    );
    assert_eq!(
        files::verified_output_metadata(None, &vec![None, Some(4), Some(5)]),
        VerifiedOutput::Merged(1, 4)
    );
    assert_eq!(files::verified_output_metadata(None, &vec![None]), VerifiedOutput::Missing);
}

fn target(os: Os, arch: Arch, flavour: Flavour) -> Target {
    Target { os, arch, flavour }
}

#[test]
fn bundled_programs_are_named_after_their_target() {
    assert_eq!(
        platform::bundled_aria2_names(target(Os::Windows, Arch::X86_64, Flavour::Msvc)),
        vec!["aria2c-x86_64-pc-windows-msvc.exe", "aria2c.exe"]
    );
    assert_eq!(
        platform::bundled_aria2_names(target(Os::MacOs, Arch::Aarch64, Flavour::Other)),
        vec!["aria2c-aarch64-apple-darwin", "aria2c"]
    );
    assert_eq!(
        platform::bundled_yt_dlp_names(target(Os::Linux, Arch::X86_64, Flavour::Gnu)),
        vec!["yt-dlp-x86_64-unknown-linux-gnu", "yt-dlp"]
    );
    assert_eq!(
        platform::bundled_yt_dlp_names(target(Os::Windows, Arch::Aarch64, Flavour::Msvc)),
        vec!["yt-dlp.exe"]
    );
    assert_eq!(
        platform::bundled_aria2_names(target(Os::OtherUnix, Arch::X86_64, Flavour::Gnu)),
        vec!["aria2c"]
    );
    assert_eq!(platform::aria2_binary_name(Os::Windows), "aria2c.exe");
    assert_eq!(platform::yt_dlp_binary_name(Os::Linux), "yt-dlp");
    assert_eq!(platform::path_probe_names(Os::Linux, "node"), vec!["node"]);
    assert_eq!(
        platform::path_probe_names(Os::Windows, "aria2c.exe"),
        vec!["aria2c.exe", "aria2c.exe"]
    );
}

#[test]
fn programs_are_looked_for_in_order() {
    let none = KnownBases {
        resources: false,
        executable: false,
        working: false,
        manifest: false,
        manifest_parent: false,
    };
    assert!(platform::bundled_aria2_places(none).is_empty());
    let all = KnownBases {
        resources: true,
        executable: true,
        working: true,
        manifest: true,
        manifest_parent: true,
    };
    let aria2 = platform::bundled_aria2_places(all);
    assert_eq!(aria2.len(), 7);
    assert_eq!(aria2[0].base, Base::Resources);
    assert!(aria2[0].parts.is_empty());
    assert_eq!(aria2[6].base, Base::Working);
    assert_eq!(aria2[6].parts, vec!["..", "src-tauri", "bin"]);
    let ffmpeg = platform::bundled_ffmpeg_places(all);
    assert_eq!(ffmpeg.len(), 14);
    assert_eq!(ffmpeg[0].parts, vec!["bin", "ffmpeg", "windows"]);
    assert_eq!(ffmpeg[13].base, Base::ManifestParent);
    assert_eq!(ffmpeg[13].parts, vec!["target", "debug"]);
    let yt = platform::bundled_yt_dlp_places(all, target(Os::Linux, Arch::X86_64, Flavour::Gnu));
    assert_eq!(yt.len(), 8);
    assert_eq!(yt[0].parts, vec!["bin", "yt-dlp-x86_64-unknown-linux-gnu"]);
    assert_eq!(yt[7].base, Base::Executable);
    assert_eq!(yt[7].parts, vec!["yt-dlp"]);
}

#[test]
fn folders_are_opened_where_they_are() {
    assert_eq!(platform::opener(Os::Windows), Some("explorer"));
    assert_eq!(platform::opener(Os::MacOs), Some("open"));
    assert_eq!(platform::opener(Os::Linux), Some("xdg-open"));
    assert_eq!(platform::opener(Os::OtherUnix), Some("xdg-open"));
    assert_eq!(platform::opener(Os::Other), None);
    assert_eq!(
        platform::open_download_folder(" /d ", PathKind::Directory, None),
        Ok("/d".to_string())
    );
    assert_eq!(
        platform::open_download_folder("/d/f", PathKind::File, Some("/d")),
        Ok("/d".to_string())
    );
    assert_eq!(
        platform::open_download_folder("f", PathKind::File, None),
        Err("Could not resolve parent folder: f".to_string())
    );
    assert_eq!(
        platform::open_download_folder("/x", PathKind::Neither, None),
        Err("Folder does not exist: /x".to_string())
    );
    assert_eq!(platform::YOUTUBE_URL, "https://www.youtube.com");
    assert_eq!(platform::launch_result(OpenWhat::Folder, Launch::Started), Ok(()));
    assert_eq!(
        platform::launch_result(OpenWhat::Folder, Launch::NoOpener),
        Err("Open folder is not supported on this platform".to_string())
    );
    assert_eq!(
        platform::launch_result(OpenWhat::YouTube, Launch::NoOpener),
        Err("Opening YouTube is not supported on this platform".to_string())
    );
    assert_eq!(
        platform::launch_result(OpenWhat::Folder, Launch::Failed("e".to_string())),
        Err("Failed to open folder: e".to_string())
    );
    assert_eq!(
        platform::launch_result(OpenWhat::YouTube, Launch::Failed("e".to_string())),
        Err("Failed to open YouTube: e".to_string())
    );
}

#[test]
fn the_default_directory_is_the_users() {
    assert_eq!(
        platform::get_default_download_dir(Some("/d".to_string()), Some("/h".to_string())),
        Ok("/d".to_string())
    );
    for home in ["/h", "/h/", ""] {
        let below = std::path::Path::new(home).join("Downloads");
        assert_eq!(
            platform::get_default_download_dir(None, Some(home.to_string())),
            Ok(below.to_string_lossy().to_string())
        );
    }
    assert_eq!(
        platform::get_default_download_dir(None, None),
        Err("Could not resolve Downloads directory".to_string())
    );
}

#[test]
fn candidates_that_do_not_run_are_explained() {
    let mut search = Aria2Search::new(2);
    assert_eq!(search.next_step(), SearchStep::TryBundled(0));
    assert!(!search.probed("/a", &ProbeOutcome::NotAFile));
    assert_eq!(search.next_step(), SearchStep::TryBundled(1));
    let failed = ProbeOutcome::Exited {
        success: false,
        status: "exit status: 1".to_string(),
        stdout: b"o".to_vec(),
        stderr: b"e".to_vec(),
    };
    assert!(!search.probed("/b", &failed));
    assert_eq!(search.next_step(), SearchStep::LookOnPath);
    assert!(!search.probed("/c", &ProbeOutcome::NotAFile));
    assert_eq!(search.next_step(), SearchStep::GiveUp);
    let error = search.into_error(Os::Linux);
    assert_eq!(error.message, "aria2c not found or not usable.");
    assert_eq!(
        error.diagnostics,
        vec![
            "bundled sidecar candidate is not a file: /a",
            "aria2c validation failed at /b: exit=exit status: 1; stdout=o; stderr=e",
            "system PATH candidate is not a file: /c",
        ]
    );
    assert!(resolve::missing_detail(&error).starts_with(
        "aria2c not found or not usable. Diagnostics: bundled sidecar candidate is not a file: /a | "
    ));
    let bare = Aria2Search::new(0).into_error(Os::Windows);
    assert_eq!(resolve::missing_detail(&bare), "aria2c.exe not found or not usable.");
}

#[test]
fn the_search_path_is_looked_at_once() {
    let mut search = Aria2Search::new(1);
    let broken = ProbeOutcome::NotStarted { error: "no".to_string() };
    assert!(!search.probed("/a", &broken));
    assert_eq!(search.next_step(), SearchStep::LookOnPath);
    search.not_on_path(Os::Linux);
    assert_eq!(search.next_step(), SearchStep::GiveUp);
    assert_eq!(
        search.into_error(Os::Linux).diagnostics,
        vec!["aria2c failed to start at /a: no", "aria2c not found on PATH"]
    );
    let good = ProbeOutcome::Exited {
        success: true,
        status: "exit status: 0".to_string(),
        stdout: Vec::new(),
        stderr: Vec::new(),
    };
    assert!(Aria2Search::new(1).probed("/d", &good));
    assert!(Aria2Search::new(0).probed("/d", &good));
    assert_eq!(resolve::validate_aria2_candidate("/d", "system PATH", &good), Ok(()));
}

#[test]
fn the_download_folder_is_tried() {
    assert_eq!(resolve::write_test_name(12), ".aria2-manager-write-test-12");
    assert_eq!(resolve::validate_output_dir("/d", &DirProbe::Writable), Ok(()));
    assert_eq!(
        resolve::validate_output_dir("/d", &DirProbe::NotADirectory),
        Err("Download folder does not exist: /d".to_string())
    );
    assert_eq!(
        resolve::validate_output_dir("/d", &DirProbe::NotWritable("why".to_string())),
        Err("Download folder is not writable: why".to_string())
    );
}

#[test]
fn the_users_ffmpeg_comes_first() {
    let works = |path: &str, works: bool| FfmpegCandidate { path: path.to_string(), works };
    let info = ffmpeg::check_ffmpeg_info(
        Some(works("/u", true)),
        Some("/b".to_string()),
        Some(works("/p", true)),
    );
    assert_eq!((info.path.as_deref(), info.source.as_str()), (Some("/u"), "user"));
    let info = ffmpeg::check_ffmpeg_info(Some(works("/u", false)), Some("/b".to_string()), None);
    assert_eq!((info.path.as_deref(), info.source.as_str()), (Some("/b"), "bundled"));
    let info = ffmpeg::check_ffmpeg_info(None, None, Some(works("/p", true)));
    assert_eq!((info.path.as_deref(), info.source.as_str()), (Some("/p"), "path"));
    let info = ffmpeg::check_ffmpeg_info(None, None, Some(works("/p", false)));
    assert_eq!((info.path.as_deref(), info.source.as_str()), (None, "missing"));
    assert!(!ffmpeg::check_ffmpeg(&info));
    assert_eq!(ffmpeg::check_failed().source, "check failed");
    assert_eq!(ffmpeg::ffmpeg_name(Os::Windows), "ffmpeg.exe");
    assert_eq!(ffmpeg::ffprobe_name(Os::Linux), "ffprobe");
    assert!(ffmpeg::validate_ffmpeg_dir(true, true, true, true));
    assert!(!ffmpeg::validate_ffmpeg_dir(true, false, true, true));
    assert!(!ffmpeg::validate_ffmpeg_dir(true, true, true, false));
}

#[test]
fn a_chosen_ffmpeg_is_kept_until_it_is_cleared() {
    let mut choice = FfmpegOverride::new();
    assert_eq!(
        ffmpeg::set_ffmpeg_path(&mut choice, " /x ", ChosenPath::NotAFile).err(),
        Some("FFmpeg not found: /x".to_string())
    );
    assert_eq!(
        ffmpeg::set_ffmpeg_path(&mut choice, "/x", ChosenPath::NoParent).err(),
        Some("Selected file does not have a parent directory".to_string())
    );
    assert_eq!(
        ffmpeg::set_ffmpeg_path(&mut choice, "/x", ChosenPath::InDirectory(false)).err(),
        Some("Selected folder must contain both working ffmpeg and ffprobe".to_string())
    );
    assert_eq!(choice.path, None);
    let info = ffmpeg::set_ffmpeg_path(&mut choice, " /x ", ChosenPath::InDirectory(true));
    assert_eq!(info.map(|i| (i.available, i.source)), Ok((true, "user".to_string())));
    assert_eq!(choice.path.as_deref(), Some("/x"));
    ffmpeg::clear_ffmpeg_override(&mut choice);
    assert_eq!(choice.path, None);
}

#[test]
fn the_clock_is_read() {
    assert_eq!(clock::millis_of(Some((12, 345_999_999))), 12_345);
    assert_eq!(clock::millis_of(None), 0);
    assert_eq!(clock::hms_of(Some((3_661, 0))), "01:01:01");
    assert_eq!(clock::hms_of(None), "00:00:00");
    let before = std::time::SystemTime::now()
        .duration_since(std::time::UNIX_EPOCH)
        .map(|d| d.as_millis())
        .unwrap_or(0);
    let now = clock::now_ms();
    assert!(before <= now && now < before + 10_000);
    let stamp = clock::ts_hms();
    assert_eq!(stamp.len(), 8);
    assert_eq!(stamp.matches(':').count(), 2);
}

#[test]
fn events_carry_their_parts() {
    let e = events::make_event(
        EventType::Retrying,
        EventCategory::Warn,
        "t",
        Some("d".to_string()),
        None,
        Some(events::LOG_GROUP.to_string()),
    );
    assert_eq!((e.event_type, e.category, e.title.as_str()), (EventType::Retrying, EventCategory::Warn, "t"));
    assert_eq!(e.group.as_deref(), Some("Download Session"));
    assert_eq!(e.timestamp.len(), 8);
    assert_eq!(e.download_id, None);
    let copy = e.clone();
    assert_eq!(copy.details.as_deref(), Some("d"));
    let sent = events::address_event(e, "7");
    assert_eq!(sent.download_id.as_deref(), Some("7"));
    assert_eq!(events::address_event(sent, "8").download_id.as_deref(), Some("7"));
}

#[test]
fn transfer_updates_are_capped_and_dashed() {
    let ui = UiSession::default();
    let t = events::transfer_update(&ui, 250, None, Some("e"), None, Some("3MiB"), "p");
    assert_eq!((t.pct, t.speed.as_str(), t.eta.as_str(), t.downloaded.as_str()), (100, "-", "e", "-"));
    assert!(t.total_known);
    assert_eq!((t.engine.as_str(), t.strategy_name.as_str(), t.strategy_attempt), ("aria2", "Default", 1));
    for (total, known) in [("", false), (" - ", false), ("?", false), ("1??", false), ("5B", true)] {
        assert_eq!(events::total_is_known(total), known, "{}", total);
    }
}
