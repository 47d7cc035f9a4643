use kaiju_academy::text::{
    chars_of, contains, count_to_string, is_whitespace, parse_u64, same_text, same_trimmed,
    split_whitespace, starts_with, trimmed_range,
};

#[test]
fn counts_are_written_in_decimal() {
    assert_eq!(count_to_string(0), "0");
    assert_eq!(count_to_string(7), "7");
    assert_eq!(count_to_string(10), "10");
    assert_eq!(count_to_string(1090), "1090");
    assert_eq!(count_to_string(usize::MAX), usize::MAX.to_string());
    for n in [9usize, 11, 99, 100, 101, 12345, 999_999, 1_000_000] {
        assert_eq!(count_to_string(n), n.to_string());
    }
}

#[test]
fn numbers_are_read_as_the_standard_parser_reads_them() {
    let samples = [
        "0", "7", "42", "+42", "007", "+0", "18446744073709551615", "18446744073709551616",
        "99999999999999999999999", "", "+", "++1", "-1", "1-", " 1", "1 ", "1_0", "0x10", "1e3",
        "\u{661}", "1\u{e9}", "+\u{e9}", "12a", "a12", "+ 1",
    ];
    for s in samples {
        assert_eq!(parse_u64(s), s.parse::<u64>().ok(), "{:?}", s);
    }
    assert_eq!(parse_u64("18446744073709551615"), Some(u64::MAX));
    assert_eq!(parse_u64("18446744073709551616"), None);
    assert_eq!(parse_u64("+00012"), Some(12));
}

#[test]
fn texts_are_the_same_when_their_characters_are() {
    assert!(same_text("", ""));
    assert!(same_text("abc", "abc"));
    assert!(same_text("h\u{e9}llo \u{1f600}", "h\u{e9}llo \u{1f600}"));
    assert!(!same_text("abc", "abd"));
    assert!(!same_text("abc", "ab"));
    assert!(!same_text("", "a"));
    assert!(!same_text("e\u{301}", "\u{e9}"));
    assert!(!same_text("ABC", "abc"));
}

#[test]
fn white_space_is_what_unicode_says_it_is() {
    let mut count = 0;
    for code in 0..=0x10ffffu32 {
        if let Some(c) = char::from_u32(code) {
            assert_eq!(is_whitespace(c), c.is_whitespace(), "U+{:04X}", code);
            if is_whitespace(c) {
                count += 1;
            }
        }
    }
    assert_eq!(count, 25);
    for c in ['\u{200b}', '\u{180e}', '\u{feff}', '\u{2060}', '\0', 'a'] {
        assert!(!is_whitespace(c));
    }
}

const SAMPLES: [&str; 14] = [
    "",
    " ",
    "a",
    " a ",
    "\t\n a b \r\n",
    "\u{a0}x\u{3000}",
    "\u{2028}\u{2029}",
    "x\u{200b}",
    "\u{200b} x",
    "  two  words  ",
    "h\u{e9}llo w\u{f6}rld",
    "\u{1f600}",
    "a\u{85}b\u{1680}c\u{202f}d\u{205f}e",
    "tab\tseparated\u{b}values\u{c}here",
];

#[test]
fn trimming_agrees_with_the_standard_library() {
    for a in SAMPLES {
        let chars = chars_of(a);
        assert_eq!(chars, a.chars().collect::<Vec<char>>());
        let (lo, hi) = trimmed_range(&chars);
        assert_eq!(chars[lo..hi].iter().collect::<String>(), a.trim(), "{:?}", a);
        for b in SAMPLES {
            assert_eq!(same_trimmed(a, b), a.trim() == b.trim(), "{:?} {:?}", a, b);
        }
    }
}

#[test]
fn searching_agrees_with_the_standard_library() {
    let patterns = ["", " ", "a", "b ", "wo", "words", "\u{e9}", "llo w", "x\u{200b}", "d\u{205f}e"];
    for s in SAMPLES {
        for p in patterns.iter().copied().chain(SAMPLES.iter().copied()) {
            assert_eq!(contains(s, p), s.contains(p), "{:?} {:?}", s, p);
            assert_eq!(starts_with(s, p), s.starts_with(p), "{:?} {:?}", s, p);
        }
    }
    assert!(contains("abcabd", "abd"));
    assert!(contains("aaab", "aab"));
    assert!(!contains("aaab", "aba"));
    assert!(contains("x", ""));
    assert!(contains("", ""));
    assert!(!contains("", "x"));
    assert!(starts_with("abc", "abc"));
    assert!(!starts_with("ab", "abc"));
}

#[test]
fn splitting_agrees_with_the_standard_library() {
    for s in SAMPLES {
        let expected: Vec<String> = s.split_whitespace().map(str::to_string).collect();
        assert_eq!(split_whitespace(s), expected, "{:?}", s);
    }
    assert_eq!(split_whitespace("  Bearer \t abc.def\n"), vec!["Bearer", "abc.def"]);
    assert!(split_whitespace(" \u{3000} ").is_empty());
}
