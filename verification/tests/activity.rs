use clashrpc::cr::models::{Arena, BattleLogEntry, Player};
use clashrpc::discord::rpc::build_activity;

fn player(arena: Option<Arena>) -> Player {
    Player {
        name: "Kira".to_string(),
        tag: "#ABC".to_string(),
        exp_level: 14,
        trophies: 7500,
        best_trophies: 8000,
        arena,
        clan: None,
    }
}

#[test]
fn activity_with_known_arena_and_clan() {
    let p = player(Some(Arena { id: 54_000_015, name: String::new(), raw_name: None }));
    let act = build_activity(&p, None, Some("https://link/clan"), "clashroyale", "small", 1_704_067_200, 0);
    assert_eq!(act.name, "Clash Royale");
    assert_eq!(act.details, "👤Kira • ⭐14 • 🏆7500");
    assert_eq!(act.state, "Última partida: —");
    assert_eq!(act.large_image, "clashroyale");
    assert_eq!(act.large_text, "Clash Royale");
    assert_eq!(act.small_image, "small");
    assert_eq!(act.small_text, "[15] La Gran Mina");
    assert_eq!(act.buttons.len(), 2);
    assert_eq!(act.buttons[0].label, "🤝 Unirse al clan");
    assert_eq!(act.buttons[0].url, "https://link/clan");
    assert_eq!(act.buttons[1].label, "Created by: Kira Kohler");
    assert_eq!(act.buttons[1].url, "https://kirakohler.es");
}

#[test]
fn activity_without_arena() {
    let p = player(None);
    let b = BattleLogEntry {
        battle_time: "bad".to_string(),
        team: vec![],
        opponent: vec![],
        game_mode: None,
        battle_type: None,
    };
    let act = build_activity(&p, Some(&b), None, "l", "s", 1_704_067_200, 0);
    assert_eq!(act.small_text, "—");
    assert_eq!(act.state, "🤝 Empate 0-0 • Partida • hace —");
    assert_eq!(act.buttons.len(), 1);
}

#[test]
fn activity_state_tells_the_battle_time_at_the_given_instant() {
    let p = player(None);
    let b = BattleLogEntry {
        battle_time: "20240101T000000.000Z".to_string(),
        team: vec![],
        opponent: vec![],
        game_mode: None,
        battle_type: None,
    };
    let act = build_activity(&p, Some(&b), None, "l", "s", 1_704_067_200 + 7_200, 0);
    assert_eq!(act.state, "🤝 Empate 0-0 • Partida • hace 2 h");
}
