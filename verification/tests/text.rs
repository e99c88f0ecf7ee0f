use ortie::text::{decimal_text, eq_ignore_ascii_case, lower_hex_text, same_text, second_word_of};

#[test]
fn decimal_text_renders_digits() {
    assert_eq!(decimal_text(0), "0");
    assert_eq!(decimal_text(9), "9");
    assert_eq!(decimal_text(10), "10");
    assert_eq!(decimal_text(3600), "3600");
    assert_eq!(decimal_text(u64::MAX), "18446744073709551615");
}

#[test]
fn lower_hex_text_matches_std_formatting() {
    for byte in 0..=255u8 {
        assert_eq!(lower_hex_text(byte), format!("{byte:x}"));
    }
}

#[test]
fn eq_ignore_ascii_case_folds_ascii_letters_only() {
    assert!(eq_ignore_ascii_case("HTTPS", "https"));
    assert!(eq_ignore_ascii_case("hTtPs", "https"));
    assert!(!eq_ignore_ascii_case("http", "https"));
    assert!(!eq_ignore_ascii_case("httpz", "https"));
    assert!(eq_ignore_ascii_case("", ""));
    assert!(!eq_ignore_ascii_case("É", "é"));
    assert!(!eq_ignore_ascii_case("@", "`"));
    assert!(!eq_ignore_ascii_case("[", "{"));
}

#[test]
fn same_text_compares_characters() {
    assert!(same_text("AccessDenied", "AccessDenied"));
    assert!(!same_text("AccessDenied", "accessdenied"));
    assert!(!same_text("abc", "abcd"));
    assert!(same_text("…", "…"));
}

#[test]
fn second_word_of_splits_on_white_space() {
    assert_eq!(second_word_of("GET /callback?code=abc HTTP/1.1\r\n"), Some("/callback?code=abc"));
    assert_eq!(second_word_of("  GET\t\t/x  "), Some("/x"));
    assert_eq!(second_word_of("GET /é\u{3000}next"), Some("/é"));
    assert_eq!(second_word_of("GET"), None);
    assert_eq!(second_word_of("GET   "), None);
    assert_eq!(second_word_of(""), None);
    assert_eq!(second_word_of(" \r\n"), None);
}

#[test]
fn second_word_of_agrees_with_split_whitespace() {
    let lines = [
        "GET / HTTP/1.0",
        "a\u{85}b\u{a0}c",
        "\u{2003}x\u{2028}y\u{205f}",
        "one",
        "one two",
        "\u{1680}\u{2000}\u{200a}\u{202f}q r",
        "x\u{200b}y z",
    ];
    for line in lines {
        assert_eq!(second_word_of(line), line.split_whitespace().nth(1));
    }
}
