//! The activity shown on the player's Discord profile.
use vstd::prelude::*;

use crate::common::constants::{CREATOR_URL, GAME};
use crate::cr::arena::{arena_id_to_number, arena_number, arena_number_to_es, spanish_name};
use crate::clock::utc_instant;
use crate::cr::battle::{battle_line_at, battle_state_line};
use crate::cr::models::{BattleLogEntry, Player};
use crate::text::{append_chars, decimal, u64_decimal};

verus! {

/// A button of the activity: its label and the address it opens.
#[derive(Debug, Clone)]
pub struct ActivityButton {
    pub label: String,
    pub url: String,
}

/// The content of a Discord activity.
#[derive(Debug, Clone)]
pub struct Activity {
    pub name: String,
    pub details: String,
    pub state: String,
    pub large_image: String,
    pub large_text: String,
    pub small_image: String,
    pub small_text: String,
    pub buttons: Vec<ActivityButton>,
}

/// The player's arena number, when the player has an arena and its number is known.
pub open spec fn player_arena_number(p: Player) -> Option<u32> {
    match p.arena {
        Some(a) => arena_number(a),
        None => None,
    }
}

/// The name of the player's arena: its Spanish name, else "Arena N", else "—".
pub open spec fn arena_label(n: Option<u32>) -> Seq<char> {
    match n {
        Some(k) => match spanish_name(k) {
            Some(es) => es,
            None => "Arena "@ + decimal(k as nat),
        },
        None => "—"@,
    }
}

/// "👤name • ⭐level • 🏆trophies".
pub open spec fn details_of(p: Player) -> Seq<char> {
    "👤"@ + p.name@ + " • ⭐"@ + decimal(p.exp_level as nat) + " • 🏆"@ + decimal(p.trophies as nat)
}

/// The text under the small image: "[N] arena" when the number is known.
pub open spec fn small_text_of(n: Option<u32>) -> Seq<char> {
    match n {
        Some(k) => "["@ + decimal(k as nat) + "] "@ + arena_label(n),
        None => arena_label(n),
    }
}

/// The buttons: the clan's invitation when there is a link, then the author's page.
pub open spec fn buttons_of(clan_invite_link: Option<Seq<char>>) -> Seq<(Seq<char>, Seq<char>)> {
    let creator = seq![("Created by: Kira Kohler"@, CREATOR_URL@)];
    match clan_invite_link {
        Some(url) => seq![("🤝 Unirse al clan"@, url)] + creator,
        None => creator,
    }
}

pub open spec fn button_views(b: Seq<ActivityButton>) -> Seq<(Seq<char>, Seq<char>)> {
    b.map_values(|x: ActivityButton| (x.label@, x.url@))
}

fn push_button(buttons: &mut Vec<ActivityButton>, label: &str, url: &str)
    ensures
        button_views(final(buttons)@) == button_views(old(buttons)@).push((label@, url@)),
{
    buttons.push(ActivityButton { label: String::from_str(label), url: String::from_str(url) });
    assert(button_views(buttons@) =~= button_views(old(buttons)@).push((label@, url@)));
}

/// The activity for a player, their last battle and the clan link, with the
/// battle's time told at the present instant `now_secs`, `now_nanos`.
pub fn build_activity(
    player: &Player,
    battle: Option<&BattleLogEntry>,
    clan_invite_link: Option<&str>,
    large_image: &str,
    small_image: &str,
    now_secs: i64,
    now_nanos: u32,
) -> (act: Activity)
    requires
        utc_instant(now_secs, now_nanos),
    ensures
        act.name@ == GAME@,
        act.details@ == details_of(*player),
        act.state@ == battle_line_at(
            match battle {
                Some(b) => Some(*b),
                None => None,
            },
            now_secs,
            now_nanos,
        ),
        act.large_image@ == large_image@,
        act.large_text@ == GAME@,
        act.small_image@ == small_image@,
        act.small_text@ == small_text_of(player_arena_number(*player)),
        button_views(act.buttons@) == buttons_of(
            match clan_invite_link {
                Some(u) => Some(u@),
                None => None,
            },
        ),
{
    let arena_num: Option<u32> = match &player.arena {
        Some(a) => arena_id_to_number(a),
        None => None,
    };
    let mut arena_es = String::new();
    match arena_num {
        Some(n) => match arena_number_to_es(n) {
            Some(es) => {
                arena_es.append(es);
            },
            None => {
                arena_es.append("Arena ");
                append_chars(&mut arena_es, u64_decimal(n as u64).as_slice());
            },
        },
        None => {
            arena_es.append("—");
        },
    }
    assert(arena_es@ == arena_label(arena_num));

    let mut details = String::from_str("👤");
    details.append(player.name.as_str());
    details.append(" • ⭐");
    append_chars(&mut details, u64_decimal(player.exp_level as u64).as_slice());
    details.append(" • 🏆");
    append_chars(&mut details, u64_decimal(player.trophies as u64).as_slice());

    let state = battle_state_line(battle, now_secs, now_nanos);

    let mut small_text = String::new();
    match arena_num {
        Some(n) => {
            small_text.append("[");
            append_chars(&mut small_text, u64_decimal(n as u64).as_slice());
            small_text.append("] ");
            small_text.append(arena_es.as_str());
        },
        None => {
            small_text.append(arena_es.as_str());
        },
    }

    let mut buttons: Vec<ActivityButton> = Vec::new();
    assert(button_views(buttons@) =~= Seq::empty());
    match clan_invite_link {
        Some(url) => {
            push_button(&mut buttons, "🤝 Unirse al clan", url);
        },
        None => {},
    }
    push_button(&mut buttons, "Created by: Kira Kohler", CREATOR_URL);

    Activity {
        name: String::from_str(GAME),
        details,
        state,
        large_image: String::from_str(large_image),
        large_text: String::from_str(GAME),
        small_image: String::from_str(small_image),
        small_text,
        buttons,
    }
}

} // verus!
