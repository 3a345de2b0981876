//! The decisions of the presence loop: when to read the profile and the
//! battle log again, when to stop refreshing the profile after a new battle,
//! which small image to show and when to check an icon's address.
use vstd::prelude::*;

use crate::common::util::{eq_ignore_ascii_case, eq_ignore_ascii_case_exec, opt_view};
use crate::text::{chars_eq, chars_of, string_of, trim, trim_chars};

verus! {

/// Nanoseconds in a millisecond.
pub const NANOS_PER_MILLI: u128 = 1_000_000;

/// A reading is due when there is none yet, or when at least `period_ms`
/// milliseconds went by since the last one.
pub open spec fn reading_due(have_cached: bool, elapsed_nanos: u128, period_ms: u64) -> bool {
    !have_cached || elapsed_nanos >= period_ms * 1_000_000
}

/// Whether the profile or the battle log must be read again.
pub fn fetch_due(have_cached: bool, elapsed_nanos: u128, period_ms: u64) -> (r: bool)
    ensures
        r == reading_due(have_cached, elapsed_nanos, period_ms),
{
    !have_cached || elapsed_nanos >= (period_ms as u128) * NANOS_PER_MILLI
}

/// The last battle changed: its time differs from the one seen before (a
/// battle appearing or disappearing counts as a change).
pub open spec fn battle_key_changed(old_key: Option<Seq<char>>, new_key: Option<Seq<char>>) -> bool {
    old_key != new_key
}

/// Whether the last battle changed since the previous reading of the battle log.
pub fn battle_changed(old_key: Option<&str>, new_key: Option<&str>) -> (r: bool)
    ensures
        r == battle_key_changed(opt_view(old_key), opt_view(new_key)),
{
    match (old_key, new_key) {
        (None, None) => false,
        (Some(a), Some(b)) => {
            let x = chars_of(a);
            let y = chars_of(b);
            !chars_eq(x.as_slice(), y.as_slice())
        },
        _ => true,
    }
}

/// The profile is read again right after the battle log when the battle log
/// was read at this tick (`new_read` is `Some` of its last battle's time)
/// and its last battle changed, and the regular reading of the profile at
/// this tick did not succeed.
pub open spec fn profile_refresh_wanted(
    player_read_ok: bool,
    old_key: Option<Seq<char>>,
    new_read: Option<Option<Seq<char>>>,
) -> bool {
    !player_read_ok && (new_read matches Some(k) && battle_key_changed(old_key, k))
}

/// The views of a reading that may not have happened and may have found
/// nothing.
pub open spec fn opt_opt_view(o: Option<Option<&str>>) -> Option<Option<Seq<char>>> {
    match o {
        Some(k) => Some(opt_view(k)),
        None => None,
    }
}

/// Whether to read the profile again after the battle log (see
/// `profile_refresh_wanted`).
pub fn profile_refresh_due(player_read_ok: bool, old_key: Option<&str>, new_read: Option<Option<&str>>) -> (r: bool)
    ensures
        r == profile_refresh_wanted(player_read_ok, opt_view(old_key), opt_opt_view(new_read)),
{
    if player_read_ok {
        return false;
    }
    match new_read {
        Some(k) => battle_changed(old_key, k),
        None => false,
    }
}

/// The profile refresh after a new battle stops when a reading succeeded and
/// shows trophies different from before (or there was no count before), or
/// when `attempt` reached the number of tries.
pub open spec fn refresh_stops(prev_trophies: Option<u32>, fetched_trophies: Option<u32>, attempt: u64, retries: u64) -> bool {
    (fetched_trophies is Some && (prev_trophies is None || prev_trophies->0 != fetched_trophies->0))
        || attempt >= retries
}

/// Whether to stop refreshing the profile after try number `attempt`;
/// `fetched_trophies` is the count read at this try, `None` when it failed.
pub fn refresh_done(prev_trophies: Option<u32>, fetched_trophies: Option<u32>, attempt: u64, retries: u64) -> (r: bool)
    ensures
        r == refresh_stops(prev_trophies, fetched_trophies, attempt, retries),
{
    if let Some(t) = fetched_trophies {
        let changed = match prev_trophies {
            Some(p) => p != t,
            None => true,
        };
        if changed {
            return true;
        }
    }
    attempt >= retries
}

/// What the presence loop knows of its Discord connection: whether the
/// activity was cleared since the connection was made.
#[derive(Debug, Clone, Copy)]
pub struct DiscordLink {
    pub cleared: bool,
}

impl DiscordLink {
    /// A new connection, on which nothing was cleared yet.
    pub fn connected() -> (r: DiscordLink)
        ensures
            !r.cleared,
    {
        DiscordLink { cleared: false }
    }

    /// Whether to clear the activity before sending it: once per connection.
    pub fn clear_first(&self) -> (r: bool)
        ensures
            r == !self.cleared,
    {
        !self.cleared
    }

    /// The connection after a send, and whether to reconnect: a send that
    /// worked leaves the activity cleared; one that failed means a new
    /// connection, on which the activity is cleared again first.
    pub fn after_send(&self, send_ok: bool) -> (r: (DiscordLink, bool))
        ensures
            r.0.cleared == send_ok,
            r.1 == !send_ok,
    {
        if send_ok {
            (DiscordLink { cleared: true }, false)
        } else {
            (DiscordLink::connected(), true)
        }
    }
}

/// The small image: the configured one when it holds something once
/// trimmed, else the arena's icon, else "player".
pub open spec fn small_image_choice(override_image: Seq<char>, arena_icon: Option<Seq<char>>) -> Seq<char> {
    if trim(override_image).len() > 0 {
        trim(override_image)
    } else {
        match arena_icon {
            Some(u) => u,
            None => "player"@,
        }
    }
}

/// The small image to show (see `small_image_choice`).
pub fn small_image_for(override_image: &str, arena_icon: Option<&str>) -> (r: String)
    ensures
        r@ == small_image_choice(override_image@, opt_view(arena_icon)),
{
    let t = trim_chars(chars_of(override_image).as_slice());
    if t.len() > 0 {
        return string_of(t.as_slice());
    }
    match arena_icon {
        Some(u) => String::from_str(u),
        None => String::from_str("player"),
    }
}

/// An icon address is checked again when it differs from the last one
/// checked or the last check is more than five minutes old.
pub open spec fn probe_wanted(last_url: Seq<char>, url: Seq<char>, since_last_nanos: u128) -> bool {
    last_url != url || since_last_nanos > 300_000_000_000
}

/// Whether to check the icon's address (see `probe_wanted`).
pub fn probe_due(last_url: &str, url: &str, since_last_nanos: u128) -> (r: bool)
    ensures
        r == probe_wanted(last_url@, url@, since_last_nanos),
{
    let a = chars_of(last_url);
    let b = chars_of(url);
    !chars_eq(a.as_slice(), b.as_slice()) || since_last_nanos > 300_000_000_000u128
}

/// The environment name: the process environment's, else the built-in one,
/// else "production".
pub open spec fn rust_env_choice(env_value: Option<Seq<char>>, embedded_value: Option<Seq<char>>) -> Seq<char> {
    match env_value {
        Some(v) => v,
        None => match embedded_value {
            Some(v) => v,
            None => "production"@,
        },
    }
}

/// The environment name (see `rust_env_choice`).
pub fn rust_env_value(env_value: Option<&str>, embedded_value: Option<&str>) -> (r: String)
    ensures
        r@ == rust_env_choice(opt_view(env_value), opt_view(embedded_value)),
{
    match env_value {
        Some(v) => String::from_str(v),
        None => match embedded_value {
            Some(v) => String::from_str(v),
            None => String::from_str("production"),
        },
    }
}

/// Whether the `.env` file is read: in every environment but "release".
pub fn should_load_dotenv(rust_env: &str) -> (r: bool)
    ensures
        r == !eq_ignore_ascii_case(trim(rust_env@), "release"@),
{
    let t = trim_chars(chars_of(rust_env).as_slice());
    let rel = chars_of("release");
    !eq_ignore_ascii_case_exec(t.as_slice(), rel.as_slice())
}


/// A configured small image that is not blank always wins over the arena icon.
pub proof fn law_override_image_wins(override_image: Seq<char>, icon: Option<Seq<char>>)
    requires
        trim(override_image).len() > 0,
    ensures
        small_image_choice(override_image, icon) == trim(override_image),
{
}

/// The first reading is always due, and a later one exactly once the period
/// has gone by.
pub proof fn law_reading_due(elapsed_nanos: u128, period_ms: u64)
    ensures
        reading_due(false, elapsed_nanos, period_ms),
        reading_due(true, elapsed_nanos, period_ms) <==> elapsed_nanos >= period_ms * 1_000_000,
{
}

/// The profile refresh after a new battle never goes past the number of tries.
pub proof fn law_refresh_bounded(prev: Option<u32>, fetched: Option<u32>, attempt: u64, retries: u64)
    requires
        attempt >= retries,
    ensures
        refresh_stops(prev, fetched, attempt, retries),
{
}

/// After a new battle the profile refresh stops as soon as a reading shows a
/// trophy count different from before, whether it went up or down, or a
/// count when there was none before; a failed reading or an unchanged count
/// goes on while tries are left.
pub proof fn law_refresh_stops_on_change(prev: Option<u32>, fetched: Option<u32>, attempt: u64, retries: u64)
    ensures
        fetched matches Some(t) && prev matches Some(p) && p != t ==> refresh_stops(prev, fetched, attempt, retries),
        fetched is Some && prev is None ==> refresh_stops(prev, fetched, attempt, retries),
        (fetched is None || fetched == prev) && attempt < retries ==> !refresh_stops(
            prev,
            fetched,
            attempt,
            retries,
        ),
{
}

/// An icon address is checked again at once when it changed; an unchanged
/// one only once more than five minutes went by since the last check.
pub proof fn law_probe_timing(last_url: Seq<char>, url: Seq<char>, since_last_nanos: u128)
    ensures
        last_url != url ==> probe_wanted(last_url, url, since_last_nanos),
        last_url == url ==> (probe_wanted(last_url, url, since_last_nanos) <==> since_last_nanos > 5 * 60
            * 1_000_000_000),
{
}

/// The environment name comes from the process environment first, then
/// from the built-in settings, and is "production" when neither has one.
pub proof fn law_environment_sources(env_value: Option<Seq<char>>, embedded_value: Option<Seq<char>>)
    ensures
        env_value matches Some(v) ==> rust_env_choice(env_value, embedded_value) == v,
        env_value is None && embedded_value is Some ==> rust_env_choice(env_value, embedded_value)
            == embedded_value->0,
        env_value is None && embedded_value is None ==> rust_env_choice(env_value, embedded_value)
            == "production"@,
{
}
} // verus!
