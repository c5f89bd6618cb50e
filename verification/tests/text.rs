use teleemix::text::{
    capitalize, chars_of, clip, cut_at, eq_ignore_ascii_case, has, join, parse_u8, replace, same,
    starts_with, strip_prefix, trim, trim_end_char, write_decimal, write_number, write_signed,
};

#[test]
fn trim_takes_white_space_of_both_ends() {
    assert_eq!(trim("  a b \n\t"), "a b");
    assert_eq!(trim("\u{a0}x\u{3000}"), "x");
    assert_eq!(trim("   "), "");
    assert_eq!(trim(""), "");
    assert_eq!(trim("plain"), "plain");
}

#[test]
fn trailing_slashes_go() {
    assert_eq!(trim_end_char("http://x//", '/'), "http://x");
    assert_eq!(trim_end_char("///", '/'), "");
    assert_eq!(trim_end_char("a/b", '/'), "a/b");
}

#[test]
fn prefixes_and_parts() {
    assert!(starts_with("dl:abc", "dl:"));
    assert!(!starts_with("dl", "dl:"));
    assert!(starts_with("x", ""));
    assert_eq!(strip_prefix("vt:12", "vt:"), Some("12".to_string()));
    assert_eq!(strip_prefix("vr:12", "vt:"), None);
    assert!(has("beyoncé & jay", "é &"));
    assert!(has("abc", ""));
    assert!(!has("ab", "abc"));
    assert!(same("é", "é"));
    assert!(!same("e", "é"));
}

#[test]
fn cutting_and_replacing() {
    assert_eq!(cut_at("a?b?c", '?'), "a");
    assert_eq!(cut_at("abc", '?'), "abc");
    assert_eq!(replace("aXbXc", "X", "--"), "a--b--c");
    assert_eq!(replace("aaa", "aa", "b"), "ba");
    assert_eq!(replace("none", "X", "y"), "none");
}

#[test]
fn joining() {
    let list: Vec<String> = vec!["a".to_string(), "".to_string(), "c".to_string()];
    assert_eq!(join(&list, ", "), "a, , c");
    assert_eq!(join(&Vec::new(), ", "), "");
}

#[test]
fn ascii_case_is_ignored() {
    assert!(eq_ignore_ascii_case("My Mix", "mY mIX"));
    assert!(!eq_ignore_ascii_case("É", "é"));
    assert!(!eq_ignore_ascii_case("mix", "mixx"));
}

#[test]
fn capitalize_first_letter() {
    assert_eq!(capitalize("track"), "Track");
    assert_eq!(capitalize("album"), "Album");
    assert_eq!(capitalize("ß"), "SS");
    assert_eq!(capitalize("Éa"), "Éa");
    assert_eq!(capitalize(""), "");
}

#[test]
fn clipping_counts_characters() {
    assert_eq!(clip("éééé", 4, 2, "..."), "éééé");
    assert_eq!(clip("ééééé", 4, 2, "..."), "éé...");
    assert_eq!(chars_of("aé").len(), 2);
}

#[test]
fn numbers_are_written_as_usual() {
    assert_eq!(write_decimal(0), "0");
    assert_eq!(write_decimal(1907), "1907");
    assert_eq!(write_decimal(u64::MAX), "18446744073709551615");
    assert_eq!(write_signed(-1), "-1");
    assert_eq!(write_signed(i64::MIN), "-9223372036854775808");
    assert_eq!(write_signed(40), "40");
    assert_eq!(write_number(255, 16), "ff");
    assert_eq!(write_number(0x18f3a2b1c0de, 16), "18f3a2b1c0de");
    assert_eq!(write_number(0, 16), "0");
    assert_ne!(write_signed(12), write_signed(-12));
}

#[test]
fn small_numbers_are_read_as_usual() {
    for text in ["9", "3", "+7", "255", "256", "-1", "", "+", "007", " 9", "9 ", "a"] {
        assert_eq!(parse_u8(text), text.parse::<u8>().ok(), "{}", text);
    }
}
