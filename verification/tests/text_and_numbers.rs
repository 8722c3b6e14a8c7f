use download_manager::numbers;
use download_manager::text;
use download_manager::text::CharClass;

#[test]
fn white_space_is_what_unicode_says() {
    let mut n: u32 = 0;
    while n <= 0x10ffff {
        if let Some(c) = char::from_u32(n) {
            assert_eq!(CharClass::Whitespace.test(c), c.is_whitespace(), "{:x}", n);
        }
        n += 1;
    }
}

#[test]
fn trimming_agrees_with_std() {
    for s in ["", "  ", " a b ", "\u{3000}x\t\n", "é ", "\u{a0}\u{2028}ß\u{85}"] {
        assert_eq!(text::trim(s), s.trim());
        assert_eq!(
            text::trim_of(s, CharClass::Exactly('a')),
            s.trim_matches('a')
        );
    }
    assert_eq!(text::trim_of("\"'a'\"", CharClass::Quote), "a");
    assert_eq!(text::trim_end_of("a//b///", CharClass::Exactly('/')), "a//b");
}

#[test]
fn searching_agrees_with_std() {
    let hay = "aé|OK|b|OK |é";
    for pat in ["", "é", "|OK|", "|OK ", "zz", "aé|OK|b|OK |é", "longer than the haystack"] {
        assert_eq!(text::contains(hay, pat), hay.contains(pat));
        assert_eq!(text::starts_with(hay, pat), hay.starts_with(pat));
        assert_eq!(text::ends_with(hay, pat), hay.ends_with(pat));
        let first = hay.split_once(pat).map(|(a, b)| (a.to_string(), b.to_string()));
        assert_eq!(text::split_once(hay, pat), first);
        let last = hay.rsplit_once(pat).map(|(a, b)| (a.to_string(), b.to_string()));
        assert_eq!(text::rsplit_once(hay, pat), last);
    }
    assert_eq!(text::find("xéx", "x"), Some(0));
    assert_eq!(text::find_last("xéx", "x"), Some(2));
}

#[test]
fn pieces_before_and_after_a_separator() {
    assert_eq!(text::before_first_of("a?b?c", CharClass::Exactly('?')), "a");
    assert_eq!(text::before_first_of("abc", CharClass::Exactly('?')), "abc");
    assert_eq!(text::after_last_of("a/b/c", CharClass::Exactly('/')), "c");
    assert_eq!(text::after_last_of("abc", CharClass::Exactly('/')), "abc");
    assert_eq!(text::before_first_of("id#x", CharClass::UrlStop), "id");
    assert_eq!(text::remove_spaces(" 1 2 "), "12");
}

#[test]
fn case_folding_of_ascii_letters() {
    assert_eq!(text::to_ascii_lowercase("ÀBC Xyz"), "Àbc xyz");
    assert!(text::eq_ignore_ascii_case("ARIA2", "aria2"));
    assert!(!text::eq_ignore_ascii_case("ária2", "aria2"));
}

#[test]
fn joining_puts_the_separator_between() {
    let parts = vec!["a".to_string(), "b".to_string(), "c".to_string()];
    assert_eq!(text::join(&parts, " | "), parts.join(" | "));
    assert_eq!(text::join(&Vec::new(), " | "), "");
    assert_eq!(text::concat5("a", "b", "c", "d", "é"), "abcdé");
}

#[test]
fn numbers_are_written_in_decimal() {
    for n in [0u64, 7, 10, 1_234_567_890, u64::MAX] {
        assert_eq!(numbers::decimal_text(n), n.to_string());
    }
    for n in [0u128, 99, u128::MAX] {
        assert_eq!(numbers::wide_decimal_text(n), n.to_string());
    }
    for n in [0i32, -1, 23, i32::MIN, i32::MAX] {
        assert_eq!(numbers::signed_text(n), n.to_string());
    }
}

#[test]
fn time_of_day_has_two_digits_each() {
    assert_eq!(numbers::hms_text(0), "00:00:00");
    assert_eq!(numbers::hms_text(86_399), "23:59:59");
    assert_eq!(numbers::hms_text(86_400 + 3_661), "01:01:01");
}

fn formatted(n: u64) -> String {
    let units: [(u64, &str); 4] = [
        (1 << 40, "TiB"),
        (1 << 30, "GiB"),
        (1 << 20, "MiB"),
        (1 << 10, "KiB"),
    ];
    for (size, unit) in units {
        if n >= size {
            return format!("{:.2}{}", n as f64 / size as f64, unit);
        }
    }
    format!("{}B", n)
}

#[test]
fn byte_counts_are_shown_as_floating_point_shows_them() {
    assert_eq!(numbers::format_bytes(0), "0B");
    assert_eq!(numbers::format_bytes(1_023), "1023B");
    assert_eq!(numbers::format_bytes(1_024), "1.00KiB");
    assert_eq!(numbers::format_bytes(1_536), "1.50KiB");
    assert_eq!(numbers::format_bytes(1_048_575), "1024.00KiB");
    assert_eq!(numbers::format_bytes(5 * 1_048_576 + 131_072), "5.12MiB");
    assert_eq!(numbers::format_bytes(u64::MAX), formatted(u64::MAX));
}

#[test]
fn byte_counts_agree_with_floating_point_on_many_numbers() {
    let mut x: u64 = 0x9e37_79b9_7f4a_7c15;
    let mut i: u32 = 0;
    while i < 200_000 {
        x = x.wrapping_mul(6_364_136_223_846_793_005).wrapping_add(1_442_695_040_888_963_407);
        let n = x >> (i % 64);
        assert_eq!(numbers::format_bytes(n), formatted(n), "{}", n);
        i += 1;
    }
    for shift in 10..64u32 {
        for step in 0..64u64 {
            let n = (1u64 << shift).wrapping_add(step.wrapping_mul(1 << (shift - 10)) * 5);
            assert_eq!(numbers::format_bytes(n), formatted(n), "{}", n);
        }
    }
}
