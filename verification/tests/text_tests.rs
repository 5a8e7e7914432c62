use twitch_cli::digits::{parse_u64, u64_to_string};
use twitch_cli::json::Json;
use twitch_cli::text::{str_eq, token_list, trim};

#[test]
fn numerals_render_in_base_ten() {
    assert_eq!(u64_to_string(0), "0");
    assert_eq!(u64_to_string(7), "7");
    assert_eq!(u64_to_string(12345), "12345");
    assert_eq!(u64_to_string(u64::MAX), "18446744073709551615");
}

#[test]
fn numerals_parse_back() {
    assert_eq!(parse_u64("0"), Some(0));
    assert_eq!(parse_u64("007"), Some(7));
    assert_eq!(parse_u64("12345"), Some(12345));
    assert_eq!(parse_u64("18446744073709551615"), Some(u64::MAX));
}

#[test]
fn parse_rejects_non_digits_and_overflow() {
    assert_eq!(parse_u64(""), None);
    assert_eq!(parse_u64("12a"), None);
    assert_eq!(parse_u64("-1"), None);
    assert_eq!(parse_u64("18446744073709551616"), None);
}

#[test]
fn trim_removes_ascii_whitespace() {
    assert_eq!(trim("  x\t\n"), "x");
    assert_eq!(trim("x"), "x");
    assert_eq!(trim(""), "");
    assert_eq!(trim(" \t "), "");
}

#[test]
fn trim_removes_unicode_whitespace() {
    assert_eq!(trim("\u{a0}x\u{a0}"), "x");
    assert_eq!(trim("\u{2003}a b\u{2003}"), "a b");
}

#[test]
fn string_equality_is_by_characters() {
    assert!(str_eq("abc", "abc"));
    assert!(!str_eq("abc", "abd"));
    assert!(!str_eq("abc", "ab"));
    assert!(str_eq("", ""));
}

#[test]
fn tokens_split_on_whitespace_runs() {
    assert_eq!(
        token_list("Channel foo does not exist"),
        vec!["Channel", "foo", "does", "not", "exist"]
    );
    assert_eq!(token_list("  a   b "), vec!["a", "b"]);
    assert_eq!(token_list(""), Vec::<String>::new());
    assert_eq!(token_list("   "), Vec::<String>::new());
}

#[test]
fn json_duplicate_is_deep_equality() {
    let doc = Json::Obj(vec![
        (
            "a".to_string(),
            Json::Arr(vec![Json::Num(1), Json::Bool(true), Json::Null]),
        ),
        ("b".to_string(), Json::Str("x".to_string())),
    ]);
    assert_eq!(doc.duplicate(), doc);
}

#[test]
fn json_get_finds_first_member() {
    let doc = Json::Obj(vec![
        ("a".to_string(), Json::Num(1)),
        ("b".to_string(), Json::Num(2)),
        ("a".to_string(), Json::Num(3)),
    ]);
    assert_eq!(doc.get("a"), Some(&Json::Num(1)));
    assert_eq!(doc.get("b"), Some(&Json::Num(2)));
    assert_eq!(doc.get("c"), None);
    assert_eq!(Json::Null.get("a"), None);
}
