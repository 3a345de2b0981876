use clashrpc::cr::arena::{
    arena_base_url, arena_id_field_to_number, arena_id_to_number, arena_name_to_number,
    arena_number_to_es, arena_raw_name_to_number, arena_url,
};
use clashrpc::cr::models::Arena;

fn arena(id: u64, name: &str, raw: Option<&str>) -> Arena {
    Arena { id, name: name.to_string(), raw_name: raw.map(|s| s.to_string()) }
}

#[test]
fn raw_name_gives_number() {
    assert_eq!(arena_raw_name_to_number(Some("Arena_L12")), Some(12));
    assert_eq!(arena_raw_name_to_number(Some("  arena_l7  ")), Some(7));
    assert_eq!(arena_raw_name_to_number(Some("Arena_L05_extra")), Some(5));
    assert_eq!(arena_raw_name_to_number(Some("TrainingCamp_Arena_L0")), Some(0));
}

#[test]
fn raw_name_rejects() {
    assert_eq!(arena_raw_name_to_number(None), None);
    assert_eq!(arena_raw_name_to_number(Some("   ")), None);
    assert_eq!(arena_raw_name_to_number(Some("Arena_L")), None);
    assert_eq!(arena_raw_name_to_number(Some("Arena_L33")), None);
    assert_eq!(arena_raw_name_to_number(Some("Arena_L99999999999")), None);
    assert_eq!(arena_raw_name_to_number(Some("Arena12")), None);
}

#[test]
fn name_gives_number() {
    assert_eq!(arena_name_to_number("Goblin Stadium"), Some(1));
    assert_eq!(arena_name_to_number("  P.E.K.K.A's Playhouse "), Some(6));
    assert_eq!(arena_name_to_number("pekka's playhouse"), Some(6));
    assert_eq!(arena_name_to_number("Lumberjack Cabin"), Some(25));
    assert_eq!(arena_name_to_number("Little Prince\u{2019}s Tavern"), Some(31));
    assert_eq!(arena_name_to_number("Spirit Square"), Some(32));
    assert_eq!(arena_name_to_number("Training Camp"), Some(0));
    assert_eq!(arena_name_to_number("Unknown Place"), None);
}

#[test]
fn id_field_gives_number() {
    assert_eq!(arena_id_field_to_number(54_000_000), Some(0));
    assert_eq!(arena_id_field_to_number(54_000_032), Some(32));
    assert_eq!(arena_id_field_to_number(54_000_033), None);
    assert_eq!(arena_id_field_to_number(53_999_999), None);
    assert_eq!(arena_id_field_to_number(54_000_000 + (1u64 << 32) + 5), None);
    assert_eq!(arena_id_field_to_number(u64::MAX), None);
}

#[test]
fn number_chooses_sources_in_order() {
    assert_eq!(arena_id_to_number(&arena(54_000_003, "Goblin Stadium", Some("Arena_L10"))), Some(10));
    assert_eq!(arena_id_to_number(&arena(54_000_003, "Goblin Stadium", Some("broken"))), Some(1));
    assert_eq!(arena_id_to_number(&arena(54_000_003, "???", None)), Some(3));
    assert_eq!(arena_id_to_number(&arena(7, "???", None)), None);
}

#[test]
fn spanish_names() {
    assert_eq!(arena_number_to_es(0), Some("Entrenamiento"));
    assert_eq!(arena_number_to_es(22), Some("¡TORTITAS!"));
    assert_eq!(arena_number_to_es(32), Some("Plaza espiritual"));
    assert_eq!(arena_number_to_es(33), None);
}

#[test]
fn every_number_up_to_32_has_a_spanish_name() {
    for n in 0..=32 {
        assert!(arena_number_to_es(n).is_some());
    }
}

#[test]
fn icon_url_built() {
    let a = arena(54_000_012, "", None);
    assert_eq!(arena_url(&a, "https://x.example/icons//").as_deref(), Some("https://x.example/icons/arena12.png"));
    assert_eq!(arena_url(&arena(1, "", None), "https://x.example"), None);
}

#[test]
fn base_url_default_and_trailing_slash() {
    assert_eq!(arena_base_url(None, None), "https://www.kirakohler.es/resources/ClashRPC");
    assert_eq!(arena_base_url(Some("  https://a.b/c/ "), None), "https://a.b/c");
    assert_eq!(arena_base_url(Some("   "), Some("https://e.f///")), "https://e.f");
}

#[test]
fn id_roundtrip_for_known_arenas() {
    for n in 0..=32u32 {
        assert_eq!(arena_id_field_to_number(54_000_000 + n as u64), Some(n));
    }
}

#[test]
fn name_lookup_ignores_trimming_and_case() {
    for name in ["Goblin Stadium", "  BONE PIT ", "pekka's playhouse", "Spirit Square", "nowhere", ""] {
        let again = name.trim().to_lowercase();
        assert_eq!(arena_name_to_number(name), arena_name_to_number(&again));
        assert!(arena_name_to_number(name).map_or(true, |n| n <= 32));
    }
}

#[test]
fn spanish_names_are_distinct() {
    assert_eq!(arena_number_to_es(15), Some("La Gran Mina"));
    let names: Vec<&str> = (0..=32u32).map(|n| arena_number_to_es(n).unwrap()).collect();
    for i in 0..names.len() {
        for j in 0..i {
            assert_ne!(names[i], names[j]);
        }
    }
    assert_eq!(arena_number_to_es(33), None);
    assert_eq!(arena_number_to_es(u32::MAX), None);
}
