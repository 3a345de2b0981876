use clashrpc::cr::api::{battlelog_url, player_url};

#[test]
fn player_addresses() {
    assert_eq!(player_url("#abc123"), "https://api.clashroyale.com/v1/players/%23ABC123");
    assert_eq!(player_url("  ab c "), "https://api.clashroyale.com/v1/players/%23ABC");
    assert_eq!(
        battlelog_url("#q0"),
        "https://api.clashroyale.com/v1/players/%23Q0/battlelog"
    );
}
