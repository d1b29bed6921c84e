use plumbrowser::text::{
    contains, decimal, has_char, has_white_space, head_before, is_white_space, parse_usize,
    remove_all, remove_leading, remove_trailing, starts_with, strip_prefix, trim,
};

#[test]
fn white_space_is_that_of_unicode() {
    for n in 0u32..=0x10FFFF {
        if let Some(c) = char::from_u32(n) {
            assert_eq!(is_white_space(c), c.is_whitespace());
        }
    }
}

#[test]
fn trimming_takes_white_space_off_both_ends() {
    for s in ["", " ", "\t a b\u{3000}", "\u{a0}x", "ya \n", "\u{85}", "plain"] {
        assert_eq!(trim(s), s.trim());
    }
}

#[test]
fn texts_are_searched() {
    assert!(contains("abcabd", "abd"));
    assert!(contains("abc", ""));
    assert!(!contains("ab", "abc"));
    assert!(starts_with("load:x", "load:"));
    assert!(!starts_with("loa", "load:"));
    assert!(has_char("a.b", '.'));
    assert!(!has_char("", '.'));
    assert!(has_white_space("a\u{2003}b"));
    assert!(!has_white_space("ab"));
}

#[test]
fn prefixes_are_taken_off_once() {
    assert_eq!(strip_prefix("load:load:x", "load:"), Some("load:x".to_string()));
    assert_eq!(strip_prefix("xload:", "load:"), None);
    assert_eq!(strip_prefix("load:", "load:"), Some(String::new()));
}

#[test]
fn parts_are_removed() {
    for s in ["", "aaa", "xaay", "https://a/https://b", "https:https:////"] {
        assert_eq!(remove_all(s, "https://"), s.replace("https://", ""));
        assert_eq!(remove_all(s, "aa"), s.replace("aa", ""));
    }
    assert_eq!(remove_leading("ws://ws://x", "ws://"), "x");
    assert_eq!(remove_leading("xws://", "ws://"), "xws://");
    assert_eq!(remove_trailing("http://a/b//", '/'), "http://a/b");
    assert_eq!(remove_trailing("//", '/'), "");
    assert_eq!(head_before("host/path", '/'), "host");
    assert_eq!(head_before("host", '/'), "host");
    assert_eq!(head_before("/path", '/'), "");
}

#[test]
fn numbers_are_written_and_read() {
    for n in [0usize, 7, 10, 99, 100, 12345, usize::MAX] {
        assert_eq!(decimal(n), n.to_string());
        assert_eq!(parse_usize(&decimal(n)), Some(n));
    }
}

#[test]
fn numbers_are_read_as_the_standard_library_reads_them() {
    for s in [
        "", "+", "-", "+5", "-5", "-0", "007", "1_0", " 1", "1 ", "0x1", "٣", "++1", "+ 1",
        "18446744073709551615", "18446744073709551616", "99999999999999999999999",
        "000000000000000000000000000001",
    ] {
        assert_eq!(parse_usize(s), s.parse::<usize>().ok());
    }
}

/// The lower case of a text, put together from its ASCII beginning and the rest.
fn lower_case_by_parts(s: &str) -> String {
    let ascii = s.find(|c: char| !c.is_ascii()).unwrap_or(s.len());
    let slash = s[..ascii].rfind('/').map_or(0, |i| i + 1);
    let word = s[slash..].to_ascii_lowercase();
    let rest = word.to_lowercase()[ascii - slash..].to_string();
    format!("{}{}", s[..ascii].to_ascii_lowercase(), rest)
}

#[test]
fn lower_case_is_that_of_the_parts() {
    let parts = ["", "A", "b/", "/", "Σ", "ΑΣ", "Σa", ":", "'", ".", " ", "\u{130}", "\u{212A}", "Ж"];
    for a in parts {
        for b in parts {
            for c in parts {
                for d in parts {
                    let s = format!("{a}{b}{c}{d}");
                    assert_eq!(lower_case_by_parts(&s), s.to_lowercase());
                }
            }
        }
    }
}
