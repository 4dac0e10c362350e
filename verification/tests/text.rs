use cdp_bindings::text::{
    chars_capitalize_pieces, chars_contain, chars_find, chars_match_at, chars_of, chars_replace,
    contains, replace_all, string_of, to_ascii_upper, StringUtils,
};

#[test]
fn first_uppercase_changes_only_the_first_character() {
    let mut s = String::from("attachToTarget");
    s.first_uppercase();
    assert_eq!(s, "AttachToTarget");
    let mut t = String::from("already");
    t.first_uppercase();
    assert_eq!(t, "Already");
    let mut u = String::from("Upper");
    u.first_uppercase();
    assert_eq!(u, "Upper");
}

#[test]
fn first_uppercase_of_empty_text_is_empty() {
    let mut s = String::new();
    s.first_uppercase();
    assert_eq!(s, "");
    assert_eq!(String::new().first_uppercased(), "");
}

#[test]
fn first_uppercased_leaves_other_scripts_alone() {
    assert_eq!(String::from("éa").first_uppercased(), "éa");
    assert_eq!(String::from("1a").first_uppercased(), "1a");
    assert_eq!(String::from("zz").first_uppercased(), "Zz");
}

#[test]
fn ascii_upper_maps_the_lower_case_letters() {
    assert_eq!(to_ascii_upper('a'), 'A');
    assert_eq!(to_ascii_upper('z'), 'Z');
    assert_eq!(to_ascii_upper('A'), 'A');
    assert_eq!(to_ascii_upper('{'), '{');
    assert_eq!(to_ascii_upper('`'), '`');
    assert_eq!(to_ascii_upper('ß'), 'ß');
}

#[test]
fn replace_all_agrees_with_the_standard_library() {
    let cases = [
        ("type", "type", "Type"),
        ("content_type", "type", "Type"),
        ("typetype", "type", "Type"),
        ("aaa", "aa", "b"),
        ("abc", "", "-"),
        ("", "", "-"),
        ("", "x", "y"),
        ("ab", "abc", "z"),
        ("xoverridex", "override", "Override"),
        ("ababab", "ab", ""),
    ];
    for (s, from, to) in cases {
        assert_eq!(replace_all(s, from, to), s.replace(from, to));
    }
}

#[test]
fn replace_all_gives_the_expected_text() {
    assert_eq!(replace_all("pointer_type", "type", "Type"), "pointer_Type");
    assert_eq!(replace_all("aaa", "aa", "b"), "ba");
    assert_eq!(replace_all("abc", "", "-"), "-a-b-c-");
}

#[test]
fn replace_if_follows_the_predicate() {
    let name = String::from("typeName");
    assert_eq!(name.clone().replace_if("type", "Type", || true), "TypeName");
    assert_eq!(name.replace_if("type", "Type", || false), "typeName");
}

#[test]
fn contains_finds_a_pattern_anywhere() {
    assert!(contains("TargetCreated", "Target"));
    assert!(contains("AttachedToTarget", "Target"));
    assert!(contains("abc", ""));
    assert!(contains("", ""));
    assert!(!contains("FrameNavigated", "Page"));
    assert!(!contains("ab", "abc"));
}

#[test]
fn chars_and_strings_convert_both_ways() {
    let v = chars_of("naïve");
    assert_eq!(v, vec!['n', 'a', 'ï', 'v', 'e']);
    assert_eq!(string_of(&v), "naïve");
}

#[test]
fn find_gives_the_first_index_at_or_after_the_start() {
    let v = chars_of("a.b.c");
    assert_eq!(chars_find(&v, 0, '.'), 1);
    assert_eq!(chars_find(&v, 1, '.'), 1);
    assert_eq!(chars_find(&v, 2, '.'), 3);
    assert_eq!(chars_find(&v, 4, '.'), 5);
    assert_eq!(chars_find(&v, 5, '.'), 5);
    assert_eq!(chars_find(&v, 0, 'x'), 5);
    assert_eq!(chars_find(&Vec::new(), 0, 'x'), 0);
}

#[test]
fn match_at_compares_in_place() {
    let v = chars_of("override");
    assert!(chars_match_at(&v, 0, &chars_of("over")));
    assert!(chars_match_at(&v, 4, &chars_of("ride")));
    assert!(chars_match_at(&v, 8, &chars_of("")));
    assert!(!chars_match_at(&v, 9, &chars_of("")));
    assert!(!chars_match_at(&v, 5, &chars_of("ride")));
    assert!(!chars_match_at(&v, 1, &chars_of("over")));
    assert!(chars_contain(&v, &chars_of("err")));
    assert!(!chars_contain(&v, &chars_of("overrides")));
}

#[test]
fn capitalize_pieces_splits_capitalises_and_joins() {
    let pieces = |s: &str| string_of(&chars_capitalize_pieces(&chars_of(s), '-'));
    assert_eq!(pieces("same-origin"), "SameOrigin");
    assert_eq!(pieces("plain"), "Plain");
    assert_eq!(pieces("--a--b"), "AB");
    assert_eq!(pieces("X-y-Z"), "XYZ");
    assert_eq!(pieces(""), "");
}

#[test]
fn chars_replace_works_on_characters() {
    let r = chars_replace(&chars_of("ünïcode"), &chars_of("ï"), &chars_of("ii"));
    assert_eq!(string_of(&r), "üniicode");
}
