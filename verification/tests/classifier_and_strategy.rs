use download_manager::classifier;
use download_manager::classifier::{ErrorClassifier, ErrorCode};
use download_manager::strategy;

#[test]
fn every_code_has_its_text() {
    assert_eq!(ErrorCode::NoError.as_str(), "none");
    assert_eq!(ErrorCode::Forbidden403.as_str(), "403");
    assert_eq!(ErrorCode::NotFound404.as_str(), "404");
    assert_eq!(ErrorCode::RedirectErr.as_str(), "redirect");
    assert_eq!(ErrorCode::SslError.as_str(), "ssl");
    assert_eq!(ErrorCode::Timeout.as_str(), "timeout");
    assert_eq!(ErrorCode::Network.as_str(), "network");
    assert_eq!(ErrorCode::Checksum.as_str(), "checksum");
    assert_eq!(ErrorCode::Unknown.as_str(), "unknown");
}

#[test]
fn lines_are_classified_by_the_first_rule_that_fits() {
    let cases: [(&str, Option<ErrorCode>); 14] = [
        ("The response status is not successful. status=403", Some(ErrorCode::Forbidden403)),
        ("errorCode=22 after HTTP 403", Some(ErrorCode::Forbidden403)),
        ("HTTP/1.1 403 Forbidden", Some(ErrorCode::Forbidden403)),
        ("HTTP/1.1 404 gone", Some(ErrorCode::NotFound404)),
        ("Resource Not Found", Some(ErrorCode::NotFound404)),
        ("Redirecting to https://a.b/login", Some(ErrorCode::RedirectErr)),
        ("errorCode=22 something", Some(ErrorCode::RedirectErr)),
        ("ssl HANDSHAKE failure", Some(ErrorCode::SslError)),
        ("operation timed out", Some(ErrorCode::Timeout)),
        ("Connection reset by peer", Some(ErrorCode::Timeout)),
        ("network is unreachable", Some(ErrorCode::Network)),
        ("hash mismatch", Some(ErrorCode::Checksum)),
        ("an error happened", Some(ErrorCode::Unknown)),
        ("Error with a capital letter", None),
    ];
    for (line, code) in cases {
        assert_eq!(classifier::code_of_line(line), code, "{}", line);
    }
}

#[test]
fn the_most_urgent_error_wins_in_any_order() {
    let mut c = ErrorClassifier::new();
    assert_eq!(c.classify(), ErrorCode::NoError);
    c.feed("all is well");
    assert_eq!(c.classify(), ErrorCode::NoError);
    c.feed("an error happened");
    assert_eq!(c.classify(), ErrorCode::Unknown);
    c.feed("operation timed out");
    assert_eq!(c.classify(), ErrorCode::Timeout);
    c.feed("status=404");
    assert_eq!(c.classify(), ErrorCode::NotFound404);
    c.feed("errorCode=22");
    assert_eq!(c.classify(), ErrorCode::RedirectErr);
    c.feed("status=403");
    assert_eq!(c.classify(), ErrorCode::Forbidden403);
    c.feed("an error happened");
    assert_eq!(c.classify(), ErrorCode::Forbidden403);
    assert!(c.has_seen(ErrorCode::Timeout));
    assert!(!c.has_seen(ErrorCode::Checksum));
    let mut d = ErrorClassifier::new();
    for line in ["status=403", "errorCode=22", "status=404", "timed out", "an error"] {
        d.feed(line);
    }
    assert_eq!(d.classify(), c.classify());
}

#[test]
fn origin_and_referer_of_a_url() {
    assert_eq!(
        strategy::url_origin_referer("https://cdn.example.com/a/b?c"),
        ("https://cdn.example.com".to_string(), "https://cdn.example.com/".to_string())
    );
    assert_eq!(
        strategy::url_origin_referer("ftp://host"),
        ("ftp://host".to_string(), "ftp://host/".to_string())
    );
    for url in ["https://cdn.example.com/a/b?c", "ftp://host", "no scheme", "://x/y"] {
        let both = strategy::url_origin_referer(url);
        assert_eq!(strategy::url_origin_referer(&both.0), both);
        assert_eq!(strategy::url_origin_referer(&both.1), both);
    }
    assert_eq!(strategy::url_origin_referer("no scheme"), (String::new(), String::new()));
}

#[test]
fn headers_name_the_origin() {
    let h = strategy::http_headers("UA", "https://h/x");
    assert_eq!(h.len(), 13);
    assert_eq!(h[0], "--user-agent=UA");
    assert_eq!(h[4], "--header=Referer: https://h/");
    assert_eq!(h[5], "--header=Origin: https://h");
    assert_eq!(h[12], "--header=Pragma: no-cache");
}

#[test]
fn strategies_come_in_their_order() {
    let all = strategy::build_strategies("https://h/x");
    let names: Vec<&str> = all.iter().map(|s| s.name.as_str()).collect();
    assert_eq!(
        names,
        vec![
            "Default",
            "Single Connection",
            "IPv4 Only",
            "Reduced Split",
            "Desktop Headers",
            "Desktop / 1-conn",
            "Desktop / Skip-TLS",
            "Desktop / HTTP1.1",
            "Safari / Relaxed",
        ]
    );
    assert_eq!(all[0].args, vec!["-x", "1", "-s", "1"]);
    assert_eq!(
        all[0].description,
        "Single connection — safest starting point; avoids CDN range stalls"
    );
    assert_eq!(all[2].args, vec!["--disable-ipv6=true"]);
    assert_eq!(
        all[4].args[0],
        "--user-agent=Mozilla/5.0 (Windows NT 10.0; Win64; x64) AppleWebKit/537.36 (KHTML, like Gecko) Safari/537.36"
    );
    assert_eq!(all[6].args.last().map(|s| s.as_str()), Some("--check-certificate=false"));
    assert_eq!(
        all[8].args[0],
        "--user-agent=Mozilla/5.0 (Macintosh; Intel Mac OS X 14_4_1) AppleWebKit/605.1.15 (KHTML, like Gecko) Version/17.4.1 Safari/605.1.15"
    );
    assert_eq!(all[8].args[13..], ["--check-certificate=false", "-x", "4", "-s", "4"]);
    assert_eq!(all[8].clone().args, all[8].args);
}

#[test]
fn rules_stand_for_their_codes() {
    assert_eq!(classifier::rule_of_line("errorCode=22 and status=404"), Some(1));
    assert_eq!(classifier::rule_of_line("fine"), None);
    assert_eq!(classifier::code_of_rule(0), Some(ErrorCode::Forbidden403));
    assert_eq!(classifier::code_of_rule(3), Some(ErrorCode::RedirectErr));
    assert_eq!(classifier::code_of_rule(8), Some(ErrorCode::Unknown));
    assert_eq!(classifier::code_of_rule(9), None);
}
