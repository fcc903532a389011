use steam_patch::text::{
    concat2, concat3, contains, decimal_string, equal_text, replace, starts_with, trim,
    trim_start_matches,
};
use steam_patch::utils::get_username;

#[test]
fn contains_finds_text_like_std() {
    let cases = [("hello world", "lo w"), ("hello", ""), ("", ""), ("", "a"), ("abc", "abcd"), ("aab", "ab")];
    for (hay, pat) in cases {
        assert_eq!(contains(hay, pat), hay.contains(pat), "{:?} {:?}", hay, pat);
    }
}

#[test]
fn replace_matches_std_replace() {
    let cases = [
        ("aaa", "aa", "b"),
        ("abcabc", "bc", "X"),
        ("ab", "", "-"),
        ("", "", "-"),
        ("no match here", "zz", "y"),
        ("return[o,t,n,e=>r", "n", "28"),
        ("héllo wörld", "ö", "oe"),
    ];
    for (s, from, to) in cases {
        assert_eq!(replace(s, from, to), s.replace(from, to), "{:?} {:?} {:?}", s, from, to);
    }
}

#[test]
fn replace_empty_pattern_surrounds_every_char() {
    assert_eq!(replace("ab", "", "-"), "-a-b-");
}

#[test]
fn replace_is_left_to_right_without_overlap() {
    assert_eq!(replace("aaaa", "aa", "b"), "bb");
    assert_eq!(replace("aaa", "aa", "b"), "ba");
}

#[test]
fn replace_round_trip_restores_text() {
    let s = "const t=c.Hm.deserializeBinary(e).toObject();Object.keys(t) and more";
    let from = "Object.keys(t)";
    let to = "fetch(x); Object.keys(t)";
    let patched = replace(s, from, to);
    assert_ne!(patched, s);
    assert_eq!(replace(&patched, to, from), s);
}

#[test]
fn trim_matches_std_trim() {
    let cases = ["  a b  ", "\t\nx\r\n", "", "   ", "\u{3000}wide\u{a0}", "no-space"];
    for s in cases {
        assert_eq!(trim(s), s.trim(), "{:?}", s);
    }
}

#[test]
fn trim_start_matches_removes_repeated_prefix() {
    assert_eq!(trim_start_matches("--user=--user=bob", "--user="), "bob");
    assert_eq!(trim_start_matches("bob", "--user="), "bob");
    assert_eq!(trim_start_matches("abc", ""), "abc");
}

#[test]
fn starts_with_like_std() {
    assert!(starts_with("chunk~1.js", "chunk"));
    assert!(!starts_with("xchunk", "chunk"));
    assert!(starts_with("x", ""));
    assert!(!starts_with("ch", "chunk"));
}

#[test]
fn decimal_string_matches_to_string() {
    for n in [0, 7, 10, -1, -128, 127, 1000, 30000, i32::MAX, i32::MIN, -2147483647] {
        assert_eq!(decimal_string(n), n.to_string());
    }
}

#[test]
fn equal_and_concat() {
    assert!(equal_text("abc", "abc"));
    assert!(!equal_text("abc", "abd"));
    assert!(!equal_text("abc", "ab"));
    assert_eq!(concat2("a", "b"), "ab");
    assert_eq!(concat3("a", "b", "c"), "abc");
}

#[test]
fn username_from_arguments() {
    let args = |v: &[&str]| v.iter().map(|s| s.to_string()).collect::<Vec<String>>();
    assert_eq!(get_username(&args(&["prog"])), "gamer");
    assert_eq!(get_username(&args(&["prog", "--user=deck"])), "deck");
    assert_eq!(get_username(&args(&["prog", "--user=--user=deck"])), "deck");
    assert_eq!(get_username(&args(&["prog", "--user="])), "");
    assert_eq!(get_username(&args(&["prog", "deck"])), "gamer");
    assert_eq!(get_username(&args(&["prog", "--user=deck", "x"])), "gamer");
}
