use lofigirl_cli::ui::fit_to_width;
use lofigirl_cli::text::{decimal, lowercase, parse_u64, str_contains, str_eq};
use lofigirl_cli::ui::{
    sleep_timer_label, stations_visible_label, truncate_str, try_truncate_str, volume_bar,
};

#[test]
fn parse_like_std() {
    assert_eq!(parse_u64("15"), Some(15));
    assert_eq!(parse_u64("+5"), Some(5));
    assert_eq!(parse_u64("007"), Some(7));
    assert_eq!(parse_u64(""), None);
    assert_eq!(parse_u64("+"), None);
    assert_eq!(parse_u64("-1"), None);
    assert_eq!(parse_u64("12a"), None);
    assert_eq!(parse_u64("18446744073709551615"), Some(u64::MAX));
    assert_eq!(parse_u64("18446744073709551616"), None);
    for s in ["0", "42", "+9", "x", "", "99999999999999999999"] {
        assert_eq!(parse_u64(s), s.parse::<u64>().ok());
    }
}

#[test]
fn decimal_writing() {
    assert_eq!(decimal(0), "0");
    assert_eq!(decimal(1234), "1234");
    assert_eq!(decimal(u64::MAX), u64::MAX.to_string());
}

#[test]
fn decimal_parse_round_trip() {
    for n in [0u64, 7, 10, 65535, u64::MAX] {
        assert_eq!(parse_u64(&decimal(n)), Some(n));
    }
}

#[test]
fn substring_search() {
    assert!(str_contains("lofi girl", "girl"));
    assert!(str_contains("lofi", ""));
    assert!(!str_contains("lo", "lofi"));
    assert!(!str_contains("jazz vibes", "lofi"));
    assert!(str_contains("日本語", "本"));
    assert!(str_eq("abc", "abc"));
    assert!(!str_eq("abc", "abd"));
}

#[test]
fn lowercase_is_std() {
    assert_eq!(lowercase("LoFi ÄÖ"), "lofi äö");
}

#[test]
fn truncation() {
    assert_eq!(truncate_str("hi", 8), "hi");
    assert_eq!(truncate_str("hello world", 8), "hello...");
    assert_eq!(truncate_str("hello world", 11), "hello world");
    assert_eq!(truncate_str("日本語テキスト", 7), "日本...");
    assert_eq!(truncate_str("abcdef", 3), "...");
    assert_eq!(try_truncate_str("hello", 2), None);
    assert_eq!(try_truncate_str("hi", 2), Some("hi".to_string()));
    assert_eq!(try_truncate_str("hello world", 8), Some("hello...".to_string()));
}

#[test]
fn volume_bar_cells() {
    let (lit, unlit, label) = volume_bar(50);
    assert_eq!(lit, "█".repeat(20));
    assert_eq!(unlit, "░".repeat(20));
    assert_eq!(label, "  50%");
    let (lit, unlit, label) = volume_bar(100);
    assert_eq!(lit.chars().count(), 40);
    assert_eq!(unlit, "");
    assert_eq!(label, " 100%");
    let (lit, unlit, label) = volume_bar(5);
    assert_eq!(lit, "██");
    assert_eq!(unlit.chars().count(), 38);
    assert_eq!(label, "   5%");
}

#[test]
fn timer_labels() {
    assert_eq!(sleep_timer_label(Some(125_000_000_000)), " ⏲ Sleep: 02:05 ");
    assert_eq!(sleep_timer_label(Some(3_600_000_000_000 * 2)), " ⏲ Sleep: 120:00 ");
    assert_eq!(sleep_timer_label(Some(500_000_000)), " ⏲ Timer expired ");
    assert_eq!(sleep_timer_label(None), "");
}

#[test]
fn count_label() {
    assert_eq!(stations_visible_label(8), "8 stations visible");
    assert_eq!(stations_visible_label(0), "0 stations visible");
}

#[test]
fn fitting_with_a_given_width() {
    assert_eq!(fit_to_width("hello world", 11, 8), "hello...");
    assert_eq!(fit_to_width("hello world", 8, 8), "hello world");
    assert_eq!(fit_to_width("ab", 1, 2), "ab");
}

#[test]
fn volume_bar_above_hundred() {
    let (lit, unlit, label) = volume_bar(102);
    assert_eq!(lit.chars().count(), 40);
    assert_eq!(unlit, "");
    assert_eq!(label, " 102%");
    let (lit, _, label) = volume_bar(101);
    assert_eq!(lit.chars().count(), 40);
    assert_eq!(label, " 101%");
}
