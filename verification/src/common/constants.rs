//! Fixed values of the application.
use vstd::prelude::*;

verus! {

pub const APP_NAME: &'static str = "ClashRPC";

pub const GAME: &'static str = "Clash Royale";

pub const CREATOR_NAME: &'static str = "Kira Kohler";

pub const CREATOR_URL: &'static str = "https://kirakohler.es";

pub const WINDOW_TITLE: &'static str = "ClashRPC";

pub const CR_API_BASE: &'static str = "https://api.clashroyale.com";

pub const DEFAULT_ARENA_ASSET_BASE_URL: &'static str = "https://www.kirakohler.es/resources/ClashRPC";

} // verus!
