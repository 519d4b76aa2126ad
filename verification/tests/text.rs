use secluso::decimal::{i64_to_decimal, parse_u64, u64_to_decimal};
use secluso::text::{
    contains, contains_word, eq_ignore_ascii_case, lines, str_eq, strip_prefix, trim, trim_char,
    trim_end_char,
};

const SAMPLES: &[&str] = &[
    "",
    " ",
    "abc",
    "  abc  ",
    "\t\n abc \r\n",
    "a\nb",
    "a\nb\n",
    "a\r\nb\r\n",
    "a\n\nb",
    "\n",
    "\r\n",
    "line\r",
    "x\r\ny\rz\n",
    "\u{a0}wide\u{3000}",
    "\u{2028}sep\u{85}",
    "\"quoted\"",
    "\"\"x\"\"",
    "//a//",
    "ünïcödé  ",
];

#[test]
fn trim_agrees_with_std() {
    for s in SAMPLES {
        assert_eq!(trim(s), s.trim(), "{:?}", s);
    }
}

#[test]
fn lines_agree_with_std() {
    for s in SAMPLES {
        let std_lines: Vec<String> = s.lines().map(|l| l.to_string()).collect();
        assert_eq!(lines(s), std_lines, "{:?}", s);
    }
}

#[test]
fn trim_char_agrees_with_std() {
    for s in SAMPLES {
        assert_eq!(trim_char(s, '"'), s.trim_matches('"'), "{:?}", s);
        assert_eq!(trim_end_char(s, '/'), s.trim_end_matches('/'), "{:?}", s);
    }
}

#[test]
fn strip_prefix_and_contains_agree_with_std() {
    for s in SAMPLES {
        for p in ["", "a", "ab", "\"", "line", "abc"] {
            assert_eq!(strip_prefix(s, p), s.strip_prefix(p), "{:?} {:?}", s, p);
            assert_eq!(contains(s, p), s.contains(p), "{:?} {:?}", s, p);
        }
    }
}

#[test]
fn words_agree_with_split_whitespace() {
    let texts = ["debian", "ubuntu debian", " rhel  fedora ", "debianish", "xdebian", "a\tdebian\n", ""];
    for t in texts {
        for w in ["debian", "ubuntu", "fedora"] {
            assert_eq!(contains_word(t, w), t.split_whitespace().any(|v| v == w), "{:?} {:?}", t, w);
        }
    }
}

#[test]
fn ascii_case_and_equality() {
    assert!(eq_ignore_ascii_case("iOS", "ios"));
    assert!(eq_ignore_ascii_case("IOS", "ios"));
    assert!(!eq_ignore_ascii_case("ios ", "ios"));
    assert!(!eq_ignore_ascii_case("İos", "ios"));
    assert!(str_eq("Linux", "Linux"));
    assert!(!str_eq("linux", "Linux"));
}

#[test]
fn parse_u64_agrees_with_std() {
    let inputs = [
        "", "0", "7", "+7", "-7", "+", "12a", " 12", "007", "18446744073709551615",
        "18446744073709551616", "99999999999999999999", "3145728", "+0",
    ];
    for s in inputs {
        assert_eq!(parse_u64(s), s.parse::<u64>().ok(), "{:?}", s);
    }
}

#[test]
fn decimal_rendering_agrees_with_std() {
    for n in [0u64, 9, 10, 8000, 65535, u64::MAX] {
        assert_eq!(u64_to_decimal(n), n.to_string());
    }
    for n in [0i64, -1, 255, -255, i64::MIN, i64::MAX] {
        assert_eq!(i64_to_decimal(n), n.to_string());
    }
}
