use clashrpc::presence::{
    battle_changed, fetch_due, probe_due, profile_refresh_due, refresh_done, rust_env_value,
    should_load_dotenv, DiscordLink,
    small_image_for,
};

#[test]
fn readings_due() {
    assert!(fetch_due(false, 0, 30_000));
    assert!(!fetch_due(true, 29_999_999_999, 30_000));
    assert!(fetch_due(true, 30_000_000_000, 30_000));
}

#[test]
fn battle_changes() {
    assert!(!battle_changed(None, None));
    assert!(battle_changed(None, Some("a")));
    assert!(battle_changed(Some("a"), None));
    assert!(!battle_changed(Some("a"), Some("a")));
    assert!(battle_changed(Some("a"), Some("b")));
}

#[test]
fn refresh_stopping() {
    assert!(refresh_done(Some(100), Some(130), 1, 3));
    assert!(!refresh_done(Some(100), Some(100), 1, 3));
    assert!(refresh_done(None, Some(100), 1, 3));
    assert!(!refresh_done(Some(100), None, 2, 3));
    assert!(refresh_done(Some(100), None, 3, 3));
}

#[test]
fn small_images() {
    assert_eq!(small_image_for("  custom ", Some("https://a/arena1.png")), "custom");
    assert_eq!(small_image_for("  ", Some("https://a/arena1.png")), "https://a/arena1.png");
    assert_eq!(small_image_for("", None), "player");
}

#[test]
fn probes() {
    assert!(probe_due("a", "b", 0));
    assert!(!probe_due("a", "a", 300_000_000_000));
    assert!(probe_due("a", "a", 300_000_000_001));
}

#[test]
fn environments() {
    assert_eq!(rust_env_value(Some("development"), Some("release")), "development");
    assert_eq!(rust_env_value(None, Some("release")), "release");
    assert_eq!(rust_env_value(None, None), "production");
    assert!(!should_load_dotenv(" RELEASE "));
    assert!(should_load_dotenv("production"));
}

#[test]
fn profile_refresh_after_new_battle() {
    assert!(profile_refresh_due(false, Some("a"), Some(Some("b"))));
    assert!(profile_refresh_due(false, None, Some(Some("b"))));
    assert!(profile_refresh_due(false, Some("a"), Some(None)));
    assert!(!profile_refresh_due(true, Some("a"), Some(Some("b"))));
    assert!(!profile_refresh_due(false, Some("a"), Some(Some("a"))));
    assert!(!profile_refresh_due(false, Some("a"), None));
    assert!(!profile_refresh_due(false, None, Some(None)));
}

#[test]
fn discord_link_clears_once_per_connection() {
    let l = DiscordLink::connected();
    assert!(l.clear_first());
    let (l2, reconnect) = l.after_send(true);
    assert!(!reconnect);
    assert!(!l2.clear_first());
    let (l3, reconnect) = l2.after_send(false);
    assert!(reconnect);
    assert!(l3.clear_first());
}
