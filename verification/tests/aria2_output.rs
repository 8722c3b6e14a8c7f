use std::collections::VecDeque;

use download_manager::aria2;
use download_manager::classifier::ErrorCode;
use download_manager::output::LineSplitter;
use download_manager::progress;
use download_manager::progress::ProgressSnapshot;
use download_manager::strategy;

#[test]
fn short_diagnostics_are_only_trimmed() {
    assert_eq!(aria2::trim_diagnostic("  a b \n"), "a b");
    let exact = "x".repeat(1_200);
    assert_eq!(aria2::trim_diagnostic(&exact), exact);
}

#[test]
fn long_diagnostics_are_cut_at_a_character() {
    let long = "x".repeat(1_201);
    assert_eq!(aria2::trim_diagnostic(&long), format!("{}...", "x".repeat(1_200)));
    let wide = format!("{}{}", "x".repeat(1_199), "é".repeat(10));
    let cut = aria2::trim_diagnostic(&wide);
    assert_eq!(cut, format!("{}é...", "x".repeat(1_199)));
    assert!(cut.len() <= 1_206);
    let emoji = "😀".repeat(400);
    assert_eq!(aria2::trim_diagnostic(&emoji), format!("{}...", "😀".repeat(300)));
}

#[test]
fn the_output_of_a_program_is_described() {
    assert_eq!(
        aria2::output_text("exit status: 1", b" out \n", &[b'e', 0xff]),
        "exit=exit status: 1; stdout=out; stderr=e\u{fffd}"
    );
}

#[test]
fn urls_suggest_file_names() {
    let cases: [(&str, Option<&str>); 9] = [
        ("https://h/a/file.zip?x=/y", Some("file.zip")),
        ("https://h/a/dir///", Some("dir")),
        ("https://h/ a b ", Some("a b")),
        ("https://h", Some("h")),
        ("https://", None),
        ("https://h:80", None),
        ("", None),
        ("?q", None),
        ("https://h/a%20b", Some("a%20b")),
    ];
    for (url, name) in cases {
        assert_eq!(aria2::filename_hint_from_url(url).as_deref(), name, "{}", url);
    }
    assert_eq!(
        aria2::known_target_path("https://h/x", Some("mine")).as_deref(),
        Some("mine")
    );
    assert_eq!(aria2::known_target_path("https://h/x", None).as_deref(), Some("x"));
    assert_eq!(aria2::file_name_from_path(None), "download");
    assert_eq!(aria2::file_name_from_path(Some("a")), "a");
}

#[test]
fn control_files_are_told_by_their_extension() {
    assert!(aria2::is_control_file(Some("aria2")));
    assert!(aria2::is_control_file(Some("ARIA2")));
    assert!(!aria2::is_control_file(Some("zip")));
    assert!(!aria2::is_control_file(None));
    assert_eq!(aria2::control_file_of("/d/a.zip"), "/d/a.zip.aria2");
}

#[test]
fn escape_sequences_are_removed() {
    assert_eq!(aria2::clean_output_line("\u{1b}[1;32m[NOTICE]\u{1b}[0m ok \r"), "[NOTICE] ok");
    assert_eq!(aria2::clean_output_line("\u{1b}]0;title\u{7}  x"), "x");
    assert_eq!(aria2::clean_output_line("\u{1b}[0m"), "");
    assert_eq!(aria2::clean_output_line("plain"), "plain");
}

#[test]
fn completed_paths_are_read() {
    let cases: [(&str, Option<&str>); 7] = [
        ("[NOTICE] Download complete: /d/a b.zip", Some("/d/a b.zip")),
        ("DOWNLOAD COMPLETE: \"/d/q.zip\"", Some("/d/q.zip")),
        ("2089b0|OK  |   1.2MiB/s|/d/t.zip", Some("/d/t.zip")),
        ("2089b0|OK|x| ", None),
        ("2089b0|ERR |x|/d/t.zip", None),
        ("Download complete: \"\" |OK|/d/u.zip", Some("\"\" |OK|/d/u.zip")),
        ("nothing", None),
    ];
    for (line, path) in cases {
        let expected = match path {
            Some(p) => Some(p.trim_matches('"').to_string()),
            None => None,
        };
        assert_eq!(aria2::parse_completed_path(line), expected, "{}", line);
    }
    assert_eq!(
        aria2::completed_path_of_groups(Some(vec![None, Some(" \"\" ".to_string())]), "a|OK|b"),
        Some("b".to_string())
    );
    assert_eq!(aria2::completed_path_of_groups(Some(vec![None]), "a|OK|b"), None);
}

#[test]
fn lines_are_summarised() {
    let cases: [(&str, Option<&str>); 9] = [
        ("Status=403", Some("HTTP 403 forbidden")),
        ("got 403", Some("HTTP 403 forbidden")),
        ("got 404", Some("HTTP 404 not found")),
        ("File NOT FOUND", Some("HTTP 404 not found")),
        ("bad Certificate", Some("TLS certificate error")),
        ("Timeout.", Some("network timeout")),
        (" something failed ", Some("something failed")),
        ("an ERROR", Some("an ERROR")),
        ("fine", None),
    ];
    for (line, summary) in cases {
        assert_eq!(aria2::failure_summary(line).as_deref(), summary, "{}", line);
    }
}

fn lines(all: &[&str]) -> VecDeque<String> {
    all.iter().map(|s| s.to_string()).collect()
}

#[test]
fn failures_are_explained() {
    let code = ErrorCode::Timeout;
    assert_eq!(
        aria2::build_failure_detail(&code, Some(2), &lines(&["a", "got 404", "b"])),
        "HTTP 404 not found; exit code 2"
    );
    assert_eq!(
        aria2::build_failure_detail(&code, None, &lines(&["got 404", "got 403", "b"])),
        "HTTP 403 forbidden"
    );
    assert_eq!(
        aria2::build_failure_detail(&code, Some(-1), &lines(&[])),
        "aria2 failed; error=timeout; exit code -1"
    );
    assert_eq!(
        aria2::build_failure_detail(&code, Some(1), &lines(&["1", "2", "3", "4", "5"])),
        "aria2 failed; error=timeout; exit code 1; recent output: 5 | 4 | 3 | 2"
    );
    assert_eq!(
        aria2::build_failure_detail(&code, None, &lines(&[])),
        "aria2 failed; error=timeout"
    );
    assert_eq!(
        aria2::build_failure_detail(&code, None, &lines(&["x"])),
        "aria2 failed; error=timeout; recent output: x"
    );
}

#[test]
fn the_last_lines_are_remembered() {
    let mut kept = VecDeque::new();
    aria2::remember_line(&mut kept, String::new());
    assert!(kept.is_empty());
    for i in 0..75 {
        aria2::remember_line(&mut kept, i.to_string());
    }
    assert_eq!(kept.len(), 60);
    assert_eq!(kept.front().map(|s| s.as_str()), Some("15"));
    assert_eq!(kept.back().map(|s| s.as_str()), Some("74"));
}

#[test]
fn the_command_line_ends_with_the_url() {
    let s = &strategy::build_strategies("https://h/x")[0];
    let args = aria2::aria2_command_args("https://h/x", "/d", Some(" a.zip "), s);
    assert_eq!(
        args,
        vec![
            "--continue=true",
            "--max-tries=5",
            "--retry-wait=2",
            "--timeout=60",
            "--connect-timeout=30",
            "--summary-interval=1",
            "--console-log-level=notice",
            "--show-console-readout=true",
            "--file-allocation=none",
            "--auto-file-renaming=false",
            "--allow-overwrite=true",
            "-x",
            "1",
            "-s",
            "1",
            "--dir=/d",
            "--out=a.zip",
            "https://h/x",
        ]
    );
    let blank = aria2::aria2_command_args("u", "/d", Some("  "), s);
    assert!(!blank.iter().any(|a| a.starts_with("--out=")));
}

#[test]
fn progress_lines_are_read() {
    let f = progress::read_progress("[#2089b0 400.0KiB/33.2MiB(1%) CN:1 DL:115.7KiB ETA:4m51s]");
    let f = match f {
        Some(f) => f,
        None => panic!("no progress"),
    };
    assert_eq!(f.downloaded, "400.0KiB");
    assert_eq!(f.total.as_deref(), Some("33.2MiB"));
    assert_eq!(f.pct.as_deref(), Some("1"));
    assert_eq!(f.speed.as_deref(), Some("115.7KiB"));
    assert_eq!(f.eta.as_deref(), Some("4m51s"));
    let last = ProgressSnapshot {
        pct: 7,
        downloaded: "a".to_string(),
        total: "b".to_string(),
        speed: "c".to_string(),
        eta: "d".to_string(),
    };
    let next = progress::next_snapshot(&f, Some(1), None, &last);
    assert_eq!(next.pct, 1);
    assert_eq!(next.speed, "115.7KiB/s");
    assert_eq!(next.total, "33.2MiB");
    assert_eq!(next.eta, "4m51s");
    assert!(progress::read_progress("[NOTICE] nothing here").is_none());
}

#[test]
fn what_a_progress_line_leaves_out_stays() {
    let last = ProgressSnapshot {
        pct: 7,
        downloaded: "a".to_string(),
        total: "b".to_string(),
        speed: "c".to_string(),
        eta: "d".to_string(),
    };
    let next = match progress::parse_progress_line("[#1 0B CN:1]", None, None, &last) {
        Some(next) => next,
        None => panic!("no progress"),
    };
    assert_eq!(
        (next.pct, next.downloaded.as_str(), next.total.as_str(), next.speed.as_str(), next.eta.as_str()),
        (7, "0B", "b", "c", "d")
    );
    let over = progress::parse_progress_line("[#1 1B/1B(250%)]", Some(250), Some(3), &last);
    assert_eq!(over.map(|s| s.pct), Some(100));
    let sized = progress::parse_progress_line("[#1 1B/2B]", None, Some(50), &last);
    assert_eq!(sized.map(|s| s.pct), Some(50));
    assert!(progress::parse_progress_line("nothing", Some(1), None, &last).is_none());
    let fresh = ProgressSnapshot::default();
    assert_eq!((fresh.pct, fresh.total.as_str()), (0, "-"));
}

#[test]
fn written_sizes_are_read() {
    let cases: [(&str, &str, u64); 8] = [
        ("12B", "12", 1),
        (" 1.5 KiB ", "1.5", 1_024),
        ("1.5kb", "1.5", 1_000),
        ("2MiB", "2", 1_048_576),
        ("2GB", "2", 1_000_000_000),
        ("3TIB", "3", 1_099_511_627_776),
        ("1PB", "1", 1_000_000_000_000_000),
        ("1iB", "1", 1),
    ];
    for (s, number, factor) in cases {
        match progress::parse_bytes(s) {
            Some(size) => assert_eq!((size.number.as_str(), size.factor), (number, factor), "{}", s),
            None => panic!("{}", s),
        }
    }
    assert!(progress::parse_bytes("x").is_none());
    assert!(progress::parse_bytes("12").is_none());
    assert_eq!(progress::comparable_sizes(Some(1), Some(2)), Some((1, 2)));
    assert_eq!(progress::comparable_sizes(Some(1), Some(0)), None);
    assert_eq!(progress::comparable_sizes(None, Some(2)), None);
}

#[test]
fn bytes_become_lines_however_they_arrive() {
    let all = b"one\r\ntwo\n\n\xffthree";
    let mut whole = LineSplitter::new();
    let mut got = whole.push(all);
    got.extend(whole.finish());
    assert_eq!(got, vec!["one", "two", "\u{fffd}three"]);
    let mut pieces = LineSplitter::new();
    let mut bit = Vec::new();
    for b in all.iter() {
        bit.extend(pieces.push(&[*b]));
    }
    bit.extend(pieces.finish());
    assert_eq!(bit, got);
    assert_eq!(LineSplitter::new().finish(), None);
}
