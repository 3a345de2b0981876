//! What the Discord Rich Presence shows.
pub mod rpc;
