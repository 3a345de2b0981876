//! Clash Royale data: the API records, arenas and battles.
pub mod api;
pub mod arena;
pub mod battle;
pub mod models;
