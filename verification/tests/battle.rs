use clashrpc::cr::battle::{
    ago_text_of, battle_state_line, format_ago, max_crowns, parse_battle_time_to_utc,
    result_text, state_line_with, translate_mode,
};
use clashrpc::cr::models::{BattleLogEntry, BattleSide, GameMode};

fn side(c: Option<u32>) -> BattleSide {
    BattleSide { crowns: c }
}

fn entry(time: &str, team: Vec<Option<u32>>, opp: Vec<Option<u32>>, mode: Option<&str>, kind: Option<&str>) -> BattleLogEntry {
    BattleLogEntry {
        battle_time: time.to_string(),
        team: team.into_iter().map(side).collect(),
        opponent: opp.into_iter().map(side).collect(),
        game_mode: mode.map(|m| GameMode { name: Some(m.to_string()) }),
        battle_type: kind.map(|k| k.to_string()),
    }
}

#[test]
fn crowns_maximum() {
    assert_eq!(max_crowns(&[]), 0);
    assert_eq!(max_crowns(&[side(None)]), 0);
    assert_eq!(max_crowns(&[side(Some(1)), side(None), side(Some(3)), side(Some(2))]), 3);
}

#[test]
fn results() {
    assert_eq!(result_text(3, 1), "✅ Victoria");
    assert_eq!(result_text(0, 2), "❌ Derrota");
    assert_eq!(result_text(1, 1), "🤝 Empate");
}

#[test]
fn modes() {
    assert_eq!(translate_mode("Ladder"), "Camino de trofeos");
    assert_eq!(translate_mode("PathOfLegend"), "PathOfLegend");
    assert_eq!(translate_mode("Ranked1v1"), "Ranked");
    assert_eq!(translate_mode("2v2 Touchdown"), "2c2");
    assert_eq!(translate_mode("Tournament"), "Torneo");
    assert_eq!(translate_mode("friendly"), "Amistosa");
    assert_eq!(translate_mode("ClanWar_BoatBattle"), "Guerra de clanes");
    assert_eq!(translate_mode("Grand Challenge"), "Gran desafío");
    assert_eq!(translate_mode("Classic Challenge"), "Desafío clásico");
    assert_eq!(translate_mode("Party challenge"), "Desafío");
    assert_eq!(translate_mode("  Mirror "), "  Mirror ");
}

#[test]
fn battle_times() {
    let t = parse_battle_time_to_utc("20240131T235959.000Z").unwrap();
    assert_eq!(t.as_rfc3339(), "2024-01-31T23:59:59.000Z");
    assert!(parse_battle_time_to_utc("  20240229T120000.000Z ").is_some());
    assert!(parse_battle_time_to_utc("20230229T120000.000Z").is_none());
    assert!(parse_battle_time_to_utc("20241301T120000.000Z").is_none());
    assert!(parse_battle_time_to_utc("20240101T250000.000Z").is_none());
    assert!(parse_battle_time_to_utc("20240101T235960.000Z").is_some());
    assert!(parse_battle_time_to_utc("2024").is_none());
    assert!(parse_battle_time_to_utc("2024é101T120000.000Z").is_none());
}

#[test]
fn ago_texts() {
    assert_eq!(ago_text_of(0), "hace 0 min");
    assert_eq!(ago_text_of(59), "hace 0 min");
    assert_eq!(ago_text_of(3599), "hace 59 min");
    assert_eq!(ago_text_of(3600), "hace 1 h");
    assert_eq!(ago_text_of(86399), "hace 23 h");
    assert_eq!(ago_text_of(86400), "hace 1 d");
    assert_eq!(ago_text_of(-61), "hace -1 min");
    assert_eq!(format_ago(None, 1_704_067_200, 0), "hace —");
}

#[test]
fn old_battle_is_days_ago() {
    let t = parse_battle_time_to_utc("20200101T000000").unwrap();
    let s = format_ago(Some(t), 1_704_067_200, 0);
    assert_eq!(s, "hace 1461 d");
}

#[test]
fn state_lines() {
    assert_eq!(battle_state_line(None, 1_704_067_200, 0), "Última partida: —");
    let b = entry("garbage", vec![Some(2)], vec![Some(1), Some(0)], None, Some("PvP"));
    assert_eq!(battle_state_line(Some(&b), 1_704_067_200, 0), "✅ Victoria 2-1 • PvP • hace —");
    let e = entry("20240101T000000.000Z", vec![Some(1)], vec![Some(3)], Some("Ladder"), None);
    assert_eq!(
        battle_state_line(Some(&e), 1_704_067_200 + 3 * 86_400, 0),
        "❌ Derrota 1-3 • Camino de trofeos • hace 3 d"
    );
    let c = entry("x", vec![None], vec![], Some("Ladder"), Some("PvP"));
    assert_eq!(state_line_with(Some(&c), "hace 3 min"), "🤝 Empate 0-0 • Camino de trofeos • hace 3 min");
    let d = entry("x", vec![Some(0)], vec![Some(3)], None, None);
    assert_eq!(state_line_with(Some(&d), "w"), "❌ Derrota 0-3 • Partida • w");
}

#[test]
fn ago_at_a_fixed_instant() {
    // 2024-01-01T00:00:00Z is 1704067200 seconds after the Unix epoch
    let t = || parse_battle_time_to_utc("20240101T000000.000Z");
    assert_eq!(format_ago(t(), 1_704_067_200, 0), "hace 0 min");
    assert_eq!(format_ago(t(), 1_704_067_200 + 300, 0), "hace 5 min");
    assert_eq!(format_ago(t(), 1_704_067_200 + 359, 999_999_999), "hace 5 min");
    assert_eq!(format_ago(t(), 1_704_067_200 + 7_200, 0), "hace 2 h");
    assert_eq!(format_ago(t(), 1_704_067_200 + 3 * 86_400, 0), "hace 3 d");
    assert_eq!(format_ago(t(), 1_704_067_200 - 120, 0), "hace -2 min");
    assert_eq!(format_ago(None, 1_704_067_200, 0), "hace —");
}
