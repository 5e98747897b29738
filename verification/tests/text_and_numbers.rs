use zoohelp_backend::number::{parse_i32, parse_i64, parse_u16, parse_u32, parse_u64, parse_usize};
use zoohelp_backend::text::{
    ascii_digit_count, ascii_lowercase, contains_str, find_char, rfind_char, split_trimmed_nonempty,
    starts_with_str, str_eq, trim_matches_char_str, trim_str,
};

#[test]
fn trim_removes_unicode_white_space_on_both_sides() {
    assert_eq!(trim_str("  \t hello world \n"), "hello world");
    assert_eq!(trim_str("\u{3000}\u{a0}x\u{2029}"), "x");
    assert_eq!(trim_str("   "), "");
    assert_eq!(trim_str(""), "");
    assert_eq!(trim_str("a b"), "a b");
}

#[test]
fn trim_agrees_with_std() {
    for s in ["", " ", " a ", "\u{85}b\u{85}", "\u{200b}c", "d\u{1680}", "\u{feff}e"] {
        assert_eq!(trim_str(s), s.trim());
    }
}

#[test]
fn ascii_lowercase_only_changes_ascii_letters() {
    assert_eq!(ascii_lowercase("PuSh-WORKER"), "push-worker");
    assert_eq!(ascii_lowercase("ÉCOLE"), "École");
    assert_eq!(ascii_lowercase("123"), "123");
}

#[test]
fn string_equality_compares_characters() {
    assert!(str_eq("api", "api"));
    assert!(!str_eq("api", "apis"));
    assert!(!str_eq("Api", "api"));
    assert!(str_eq("", ""));
}

#[test]
fn split_keeps_trimmed_non_empty_pieces_in_order() {
    assert_eq!(
        split_trimmed_nonempty(" https://a.app , ,https://b.app,", ','),
        vec!["https://a.app".to_string(), "https://b.app".to_string()]
    );
    assert!(split_trimmed_nonempty("", ',').is_empty());
    assert!(split_trimmed_nonempty(" , ", ',').is_empty());
    assert_eq!(split_trimmed_nonempty("one", ','), vec!["one".to_string()]);
}

#[test]
fn trim_matches_strips_every_surrounding_slash() {
    assert_eq!(trim_matches_char_str("//cloud/", '/'), "cloud");
    assert_eq!(trim_matches_char_str("///", '/'), "");
    assert_eq!(trim_matches_char_str("a/b", '/'), "a/b");
}

#[test]
fn searching_characters_and_slices() {
    assert_eq!(find_char("a@b@c", '@'), Some(1));
    assert_eq!(rfind_char("a@b@c", '@'), Some(3));
    assert_eq!(find_char("abc", '@'), None);
    assert!(starts_with_str("Bearer xyz", "Bearer "));
    assert!(!starts_with_str("Bear", "Bearer "));
    assert!(contains_str("https://x/zoohelp/ong-logos/image/1.png", "/zoohelp/ong-logos/image/"));
    assert!(!contains_str("https://x/zoohelp/other/1.png", "/zoohelp/ong-logos/image/"));
    assert!(contains_str("abc", ""));
    assert_eq!(ascii_digit_count("12.345.678/0001-90"), 14);
}

#[test]
fn unsigned_parsing_follows_std() {
    assert_eq!(parse_u32("20"), Some(20));
    assert_eq!(parse_u32("+7"), Some(7));
    assert_eq!(parse_u32("-0"), None);
    assert_eq!(parse_u32(""), None);
    assert_eq!(parse_u32("+"), None);
    assert_eq!(parse_u32(" 5"), None);
    assert_eq!(parse_u32("4294967295"), Some(u32::MAX));
    assert_eq!(parse_u32("4294967296"), None);
    assert_eq!(parse_u16("65536"), None);
    assert_eq!(parse_u16("00587"), Some(587));
    assert_eq!(parse_u64("18446744073709551615"), Some(u64::MAX));
    assert_eq!(parse_u64("18446744073709551616"), None);
    assert_eq!(parse_usize("10"), Some(10));
    for s in ["0", "12", "+3", "-3", "x", "99999999999", "1_000", "٣"] {
        assert_eq!(parse_u32(s), s.parse::<u32>().ok(), "{s}");
        assert_eq!(parse_i64(s), s.parse::<i64>().ok(), "{s}");
    }
}

#[test]
fn signed_parsing_follows_std() {
    assert_eq!(parse_i64("-15"), Some(-15));
    assert_eq!(parse_i64("-9223372036854775808"), Some(i64::MIN));
    assert_eq!(parse_i64("9223372036854775807"), Some(i64::MAX));
    assert_eq!(parse_i64("9223372036854775808"), None);
    assert_eq!(parse_i64("-9223372036854775809"), None);
    assert_eq!(parse_i64("-"), None);
    assert_eq!(parse_i32("2024"), Some(2024));
    assert_eq!(parse_i32("3000000000"), None);
    assert_eq!(parse_i32("-2147483648"), Some(i32::MIN));
}
