//! The addresses of the Clash Royale API that the application reads.
use vstd::prelude::*;

use crate::common::constants::CR_API_BASE;
use crate::common::util::{normalize_tag, normalized_tag};

verus! {

/// The address of a player's profile: the API base, "/v1/players/", the
/// URL-encoded `#` and the normalized tag.
pub open spec fn player_address(tag: Seq<char>) -> Seq<char> {
    CR_API_BASE@ + "/v1/players/%23"@ + normalized_tag(tag)
}

/// The address of a player's battle log.
pub open spec fn battlelog_address(tag: Seq<char>) -> Seq<char> {
    player_address(tag) + "/battlelog"@
}

/// The address of the profile of the player with tag `player_tag`.
pub fn player_url(player_tag: &str) -> (r: String)
    ensures
        r@ == player_address(player_tag@),
{
    let cleaned = normalize_tag(player_tag);
    let mut url = String::from_str(CR_API_BASE);
    url.append("/v1/players/%23");
    url.append(cleaned.as_str());
    url
}

/// The address of the battle log of the player with tag `player_tag`.
pub fn battlelog_url(player_tag: &str) -> (r: String)
    ensures
        r@ == battlelog_address(player_tag@),
{
    let mut url = player_url(player_tag);
    url.append("/battlelog");
    url
}

} // verus!
