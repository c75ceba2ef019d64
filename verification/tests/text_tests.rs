use soulbook::text::{
    contains, i64_to_decimal, parse_u32, starts_with, str_equal, trim, trim_start_matches,
    u64_to_decimal,
};

#[test]
fn decimal_rendering_matches_display() {
    for n in [0u64, 7, 10, 99, 100, 12345, u32::MAX as u64, u64::MAX] {
        assert_eq!(u64_to_decimal(n), n.to_string());
    }
    for n in [0i64, -1, -1024, 1023, i64::MIN, i64::MAX] {
        assert_eq!(i64_to_decimal(n), n.to_string());
    }
}

#[test]
fn parse_u32_matches_std() {
    let cases = [
        "0", "42", "+42", "", "+", "-", "-0", "-5", "4294967295", "4294967296",
        "99999999999999999999", "12a", " 1", "1 ", "007", "٣", "+-1",
    ];
    for c in cases {
        assert_eq!(parse_u32(c), c.parse::<u32>().ok(), "input {:?}", c);
    }
}

#[test]
fn parse_reads_back_rendering() {
    for n in [0u32, 1, 9, 10, 65535, 4294967295] {
        assert_eq!(parse_u32(&u64_to_decimal(n as u64)), Some(n));
    }
}

#[test]
fn trim_matches_std() {
    let cases = [
        "", "   ", "abc", "  abc  ", "\t\n a b \r\n", "\u{3000}全角\u{3000}", "\u{85}x\u{a0}",
        "\u{200b}zero-width\u{200b}", "\u{2028}line\u{2029}", "x\u{1680}",
    ];
    for c in cases {
        assert_eq!(trim(c), c.trim(), "input {:?}", c);
    }
}

#[test]
fn trim_is_idempotent() {
    for c in ["  a  ", "\u{3000}b\t", "", " "] {
        let once = trim(c);
        assert_eq!(trim(&once), once);
    }
}

#[test]
fn prefix_and_substring_tests_match_std() {
    let hay = ["", "abc", "error 401 unauthorized", "HTTP 403", "40", "aaa"];
    let needles = ["", "a", "401", "403", "abc", "aa", "abcd"];
    for h in hay {
        for n in needles {
            assert_eq!(contains(h, n), h.contains(n), "{:?} {:?}", h, n);
            assert_eq!(starts_with(h, n), h.starts_with(n), "{:?} {:?}", h, n);
        }
    }
}

#[test]
fn trim_start_matches_matches_std() {
    let cases = [
        ("doc_template:abc", "doc_template:"),
        ("doc_template:doc_template:abc", "doc_template:"),
        ("abc", "doc_template:"),
        ("doc_template:", "doc_template:"),
        ("xxy", "x"),
        ("abc", ""),
        ("", "a"),
    ];
    for (s, p) in cases {
        assert_eq!(trim_start_matches(s, p), s.trim_start_matches(p), "{:?} {:?}", s, p);
    }
}

#[test]
fn str_equal_compares_text() {
    assert!(str_equal("published", "published"));
    assert!(!str_equal("published", "Published"));
    assert!(!str_equal("", "a"));
}
