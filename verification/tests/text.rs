use clashrpc::common::util::normalize_tag;
use clashrpc::config::setup::get_api_key;
use clashrpc::config::setup::ApiKeySource;
use clashrpc::cr::battle::result_text;
use clashrpc::text::{
    chars_of, contains_str, find_exec, i64_decimal, parse_u64_exec, trim_chars, u64_decimal,
};

fn s(v: &[char]) -> String {
    v.iter().collect()
}

#[test]
fn trim_twice_is_trim_once() {
    for x in ["  a b \t", "\u{3000}x\u{a0}", "", "   ", "q"] {
        let once = trim_chars(&chars_of(x));
        let twice = trim_chars(&once);
        assert_eq!(once, twice);
        assert_eq!(s(&once), x.trim());
    }
}

#[test]
fn decimal_roundtrip() {
    for n in [0u64, 7, 10, 99, 12345, u64::MAX] {
        let d = u64_decimal(n);
        assert_eq!(s(&d), n.to_string());
        assert_eq!(parse_u64_exec(&d), Some(n));
    }
    assert_eq!(s(&i64_decimal(-42)), "-42");
    assert_eq!(s(&i64_decimal(i64::MIN)), i64::MIN.to_string());
}

#[test]
fn find_and_contains() {
    let c = chars_of("abcabc");
    assert_eq!(find_exec(&c, &chars_of("ca")), Some(2));
    assert_eq!(find_exec(&c, &chars_of("x")), None);
    assert!(contains_str(&c, "bca"));
    assert!(!contains_str(&c, "cc"));
}

#[test]
fn normalized_tag_has_no_whitespace() {
    let t = normalize_tag(" #a\u{2003}b c\n");
    assert!(!t.chars().any(char::is_whitespace));
    assert_eq!(t, "ABC");
}

#[test]
fn release_mode_ignores_environment_key() {
    let a = get_api_key(true, Some("one"), Some("saved"));
    let b = get_api_key(true, None, Some("saved"));
    assert!(matches!((a, b), (ApiKeySource::Found(x), ApiKeySource::Found(y)) if x == y && x == "saved"));
}

#[test]
fn results_swap() {
    assert_eq!(result_text(2, 1), "✅ Victoria");
    assert_eq!(result_text(1, 2), "❌ Derrota");
}
