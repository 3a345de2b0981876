//! Verified core of a Discord Rich Presence client for Clash Royale.
pub mod clock;
pub mod common;
pub mod config;
pub mod cr;
pub mod discord;
pub mod presence;
pub mod text;
pub mod update;
