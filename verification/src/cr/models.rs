//! The Clash Royale API records that the library reads, as plain values.
use vstd::prelude::*;

verus! {

/// The arena a player is in.
#[derive(Debug, Clone)]
pub struct Arena {
    pub id: u64,
    pub name: String,
    pub raw_name: Option<String>,
}

/// A clan, by tag and name.
#[derive(Debug, Clone)]
pub struct Clan {
    pub tag: String,
    pub name: String,
}

/// A player profile.
#[derive(Debug, Clone)]
pub struct Player {
    pub name: String,
    pub tag: String,
    pub exp_level: u32,
    pub trophies: u32,
    pub best_trophies: u32,
    pub arena: Option<Arena>,
    pub clan: Option<Clan>,
}

/// One side of a battle (one player of a team), with the crowns it took.
#[derive(Debug, Clone)]
pub struct BattleSide {
    pub crowns: Option<u32>,
}

/// The game mode of a battle.
#[derive(Debug, Clone)]
pub struct GameMode {
    pub name: Option<String>,
}

/// One entry of a player's battle log. `battle_type` is the API's `type` field.
#[derive(Debug, Clone)]
pub struct BattleLogEntry {
    pub battle_time: String,
    pub team: Vec<BattleSide>,
    pub opponent: Vec<BattleSide>,
    pub game_mode: Option<GameMode>,
    pub battle_type: Option<String>,
}

} // verus!
