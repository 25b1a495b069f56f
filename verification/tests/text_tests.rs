use fates_api::text::{chars_eq, matches_at, push_decimal, push_signed_decimal, replace_all};

#[test]
fn replace_all_replaces_every_occurrence() {
    assert_eq!(replace_all("aXbXc", "X", "--"), "a--b--c");
    assert_eq!(replace_all("core::option::Option<i64>", "core::option::Option", "Optional "), "Optional <i64>");
}

#[test]
fn replace_all_scans_left_to_right_without_overlap() {
    assert_eq!(replace_all("aaa", "aa", "b"), "ba");
    assert_eq!(replace_all("aaaa", "aa", "b"), "bb");
}

#[test]
fn replace_all_without_occurrence_is_identity() {
    assert_eq!(replace_all("i64", "alloc::string::", ""), "i64");
    assert_eq!(replace_all("", "x", "y"), "");
}

#[test]
fn replace_all_matches_std_replace() {
    let cases = [
        ("core::option::Option<alloc::string::String>", "alloc::string::", ""),
        ("abcabcab", "ab", "XYZ"),
        ("héllo wörld", "ö", "o"),
        ("xxx", "x", ""),
    ];
    for (s, from, to) in cases {
        assert_eq!(replace_all(s, from, to), s.replace(from, to));
    }
}

#[test]
fn chars_eq_compares_characters() {
    assert!(chars_eq("bot", "bot"));
    assert!(!chars_eq("bot", "server"));
    assert!(!chars_eq("bot", "bots"));
    assert!(chars_eq("", ""));
}

#[test]
fn matches_at_finds_pattern_positions() {
    assert!(matches_at("hello", "ll", 2));
    assert!(!matches_at("hello", "ll", 1));
    assert!(!matches_at("hello", "lo!", 3));
    assert!(matches_at("hello", "", 5));
}

#[test]
fn decimal_text_matches_display() {
    for v in [0i64, 7, 10, 42, -1, -42, 1234567890, i64::MAX, i64::MIN] {
        let mut s = String::new();
        push_signed_decimal(&mut s, v);
        assert_eq!(s, v.to_string());
    }
    let mut s = String::from("n=");
    push_decimal(&mut s, 9050);
    assert_eq!(s, "n=9050");
}
