use luuma::text::{count_tokens_str, decimal_string, is_blank_str, same_text};

#[test]
fn empty_text_has_no_token() {
    assert_eq!(count_tokens_str(""), 0);
}

#[test]
fn runs_of_spaces_separate_once() {
    assert_eq!(count_tokens_str("a b  c"), 3);
}

#[test]
fn spaces_alone_hold_no_token() {
    assert_eq!(count_tokens_str("  "), 0);
}

#[test]
fn a_single_word_is_one_token() {
    assert_eq!(count_tokens_str("hello"), 1);
}

#[test]
fn leading_and_trailing_whitespace_is_ignored() {
    assert_eq!(count_tokens_str("  hi there \n"), 2);
}

#[test]
fn tabs_and_line_breaks_separate_tokens() {
    assert_eq!(count_tokens_str("one\ttwo\nthree\r\nfour\u{b}five\u{c}six"), 6);
}

#[test]
fn unicode_spaces_separate_tokens() {
    assert_eq!(count_tokens_str("a\u{a0}b\u{2003}c\u{3000}d\u{85}e\u{1680}f"), 6);
    assert_eq!(count_tokens_str("a\u{2028}b\u{2029}c\u{202f}d\u{205f}e\u{200a}f\u{2000}g"), 7);
}

#[test]
fn characters_that_look_like_spaces_but_are_none_do_not_separate() {
    // the zero-width space and the mongolian vowel separator are no whitespace
    assert_eq!(count_tokens_str("a\u{200b}b"), 1);
    assert_eq!(count_tokens_str("a\u{180e}b"), 1);
    assert_eq!(count_tokens_str("a\u{feff}b"), 1);
}

#[test]
fn token_count_agrees_with_splitting_at_whitespace() {
    let samples = [
        "",
        " ",
        "a",
        " a",
        "a ",
        "the quick  brown\tfox",
        "\u{2009}thin\u{2009}spaces\u{2009}",
        "no-break\u{a0}space",
        "日本語 の テキスト",
        "x\u{1f}y",
        "x\u{1c}y",
    ];
    for sample in samples {
        assert_eq!(count_tokens_str(sample), sample.split_whitespace().count(), "{:?}", sample);
    }
}

fn has_white_space_property(code: u32) -> bool {
    matches!(
        code,
        0x09..=0x0D
            | 0x20
            | 0x85
            | 0xA0
            | 0x1680
            | 0x2000..=0x200A
            | 0x2028
            | 0x2029
            | 0x202F
            | 0x205F
            | 0x3000
    )
}

#[test]
fn whitespace_is_the_unicode_property() {
    let mut code: u32 = 0;
    while code <= 0x10FFFF {
        if let Some(c) = char::from_u32(code) {
            assert_eq!(c.is_whitespace(), has_white_space_property(code), "U+{:04X}", code);
        }
        code += 1;
    }
}

#[test]
fn every_whitespace_character_is_blank_and_separates() {
    let mut code: u32 = 0;
    while code <= 0x3000 {
        if let Some(c) = char::from_u32(code) {
            let alone = c.to_string();
            let between = format!("a{}b", c);
            let white = has_white_space_property(code);
            assert_eq!(is_blank_str(&alone), white, "U+{:04X}", code);
            assert_eq!(count_tokens_str(&between), if white { 2 } else { 1 }, "U+{:04X}", code);
        }
        code += 1;
    }
}

#[test]
fn blank_means_nothing_is_left_after_trimming() {
    assert!(is_blank_str(""));
    assert!(is_blank_str(" \t\r\n"));
    assert!(is_blank_str("\u{3000}"));
    assert!(!is_blank_str(" x "));
    assert!(!is_blank_str("."));
    for sample in ["", "  ", " a ", "\n", "\u{a0}\u{2002}", "a\u{a0}"] {
        assert_eq!(is_blank_str(sample), sample.trim().is_empty(), "{:?}", sample);
    }
}

#[test]
fn a_blank_text_has_no_token_and_any_other_has_one() {
    for sample in ["", " ", "\t\n", "a", " a", "a b"] {
        assert_eq!(is_blank_str(sample), count_tokens_str(sample) == 0, "{:?}", sample);
    }
}

#[test]
fn same_text_compares_characters() {
    assert!(same_text("", ""));
    assert!(same_text("GET", "GET"));
    assert!(!same_text("GET", "get"));
    assert!(!same_text("GET", "GET "));
}

#[test]
fn numerals_are_decimal_without_padding() {
    assert_eq!(decimal_string(0), "0");
    assert_eq!(decimal_string(7), "7");
    assert_eq!(decimal_string(10), "10");
    assert_eq!(decimal_string(120), "120");
    assert_eq!(decimal_string(9_999), "9999");
    assert_eq!(decimal_string(1_000_000), "1000000");
    assert_eq!(decimal_string(usize::MAX), usize::MAX.to_string());
}
