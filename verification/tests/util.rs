use clashrpc::common::util::{
    get_optional_env, get_required_env, is_release_mode, normalize_clan_tag, normalize_tag,
    parse_u64_env, truthy_env,
};

#[test]
fn truthy_values() {
    assert!(truthy_env("1"));
    assert!(truthy_env(" TRUE "));
    assert!(truthy_env("Yes"));
    assert!(truthy_env("y"));
    assert!(!truthy_env("0"));
    assert!(!truthy_env("no"));
    assert!(!truthy_env(""));
    assert!(!truthy_env("yess"));
}

#[test]
fn tags_normalized() {
    assert_eq!(normalize_tag("  #abc123 "), "ABC123");
    assert_eq!(normalize_tag("##ab c\t9"), "ABC9");
    assert_eq!(normalize_tag("#"), "");
    assert_eq!(normalize_tag("straße"), "STRASSE");
}

#[test]
fn clan_tags_normalized() {
    assert_eq!(normalize_clan_tag(" ##xy9 "), "#XY9");
    assert_eq!(normalize_clan_tag(""), "#");
}

#[test]
fn numeric_settings() {
    assert_eq!(parse_u64_env(Some(" 1500 "), 30), 1500);
    assert_eq!(parse_u64_env(Some("+7"), 30), 7);
    assert_eq!(parse_u64_env(Some("0"), 30), 30);
    assert_eq!(parse_u64_env(Some("-5"), 30), 30);
    assert_eq!(parse_u64_env(Some("abc"), 30), 30);
    assert_eq!(parse_u64_env(Some("18446744073709551616"), 30), 30);
    assert_eq!(parse_u64_env(Some("18446744073709551615"), 30), u64::MAX);
    assert_eq!(parse_u64_env(None, 30), 30);
}

#[test]
fn optional_setting_prefers_environment() {
    assert_eq!(get_optional_env(Some(" a "), Some("b")).as_deref(), Some("a"));
    assert_eq!(get_optional_env(Some("  "), Some(" b ")).as_deref(), Some("b"));
    assert_eq!(get_optional_env(None, Some("")), None);
}

#[test]
fn required_setting_message() {
    assert_eq!(get_required_env("K", Some("v"), None), Ok("v".to_string()));
    assert_eq!(
        get_required_env("DISCORD_CLIENT_ID", None, None),
        Err("Falta 'DISCORD_CLIENT_ID', no está en el entorno ni embebido en el exe.".to_string())
    );
}

#[test]
fn release_mode() {
    assert!(is_release_mode(Some(" Release "), None, false));
    assert!(!is_release_mode(Some("development"), Some("release"), true));
    assert!(is_release_mode(None, Some("RELEASE"), false));
    assert!(is_release_mode(None, None, true));
    assert!(!is_release_mode(None, None, false));
}

#[test]
fn clan_tag_normalization_is_stable() {
    assert_eq!(normalize_clan_tag("  #abc "), "#ABC");
    assert_eq!(normalize_clan_tag("ABC"), "#ABC");
    for tag in ["  #abc ", "ABC", "##q2 ", "", "#"] {
        let once = normalize_clan_tag(tag);
        assert!(once.starts_with('#'));
        assert_eq!(normalize_clan_tag(&once), once);
    }
}
