//! The line that sums up a player's last battle.
use vstd::prelude::*;

use crate::clock::{
    iso_fields_valid, iso_shape, rfc3339_accepts, rfc3339_seconds_until, rfc3339_valid, seconds_until,
    utc_instant,
};
use crate::cr::models::{BattleLogEntry, BattleSide};
use crate::text::{
    all_ascii, append_chars, chars_of, contains, contains_str, decimal, i64_decimal,
    is_ascii_char, signed_decimal, slice_chars, string_of, to_lowercase, trim, trim_chars,
    u64_decimal, unicode_lowercase, ascii_lower, lemma_trim_ascii, occurs_at,
};

verus! {

/// The time of a battle, kept as the RFC 3339 text that `chrono` accepts.
pub struct BattleTime {
    rfc3339: String,
}

impl BattleTime {
    #[verifier::type_invariant]
    spec fn accepted(self) -> bool {
        rfc3339_accepts(self.rfc3339@)
    }

    /// The RFC 3339 text of the time.
    pub closed spec fn text(self) -> Seq<char> {
        self.rfc3339@
    }

    /// The RFC 3339 text of the time.
    pub fn as_rfc3339(&self) -> (r: &str)
        ensures
            r@ == self.text(),
            rfc3339_accepts(r@),
    {
        proof {
            use_type_invariant(self);
        }
        self.rfc3339.as_str()
    }
}

/// The RFC 3339 text made of the first 15 characters of a battle time
/// `YYYYMMDDTHHMMSS`: `YYYY-MM-DDTHH:MM:SS.000Z`.
pub open spec fn iso_of_battle_time(p: Seq<char>) -> Seq<char> {
    p.subrange(0, 4) + "-"@ + p.subrange(4, 6) + "-"@ + p.subrange(6, 8) + "T"@ + p.subrange(9, 11)
        + ":"@ + p.subrange(11, 13) + ":"@ + p.subrange(13, 15) + ".000Z"@
}

/// The battle time can be cut as the API writes it: once trimmed it has at
/// least 15 characters, the first 15 of them ASCII.
pub open spec fn battle_time_cuttable(s: Seq<char>) -> bool {
    trim(s).len() >= 15 && all_ascii(trim(s).take(15))
}

/// The text that a battle time gives to `chrono`, when it can be cut.
pub open spec fn battle_time_iso(s: Seq<char>) -> Seq<char> {
    iso_of_battle_time(trim(s))
}

/// Whether a battle time stands for an instant.
pub open spec fn battle_time_parses(s: Seq<char>) -> bool {
    battle_time_cuttable(s) && rfc3339_accepts(battle_time_iso(s))
}

/// Integer division truncated toward zero, as Rust's `/` on `i64`.
pub open spec fn trunc_div(a: int, b: int) -> int {
    if a >= 0 {
        a / b
    } else {
        -((-a) / b)
    }
}

/// "hace N min", "hace N h" or "hace N d" for a time `secs` seconds ago.
pub open spec fn ago_text(secs: int) -> Seq<char> {
    let mins = trunc_div(secs, 60);
    if mins < 60 {
        "hace "@ + signed_decimal(mins) + " min"@
    } else {
        let hours = trunc_div(secs, 3600);
        if hours < 24 {
            "hace "@ + signed_decimal(hours) + " h"@
        } else {
            "hace "@ + signed_decimal(trunc_div(secs, 86400)) + " d"@
        }
    }
}

/// The text for how long before the instant `now_secs`, `now_nanos` the
/// time written in `time` was: "hace —" when there is no time.
pub open spec fn ago_at(time: Option<Seq<char>>, now_secs: i64, now_nanos: u32) -> Seq<char> {
    match time {
        None => "hace —"@,
        Some(t) => ago_text(rfc3339_seconds_until(t, now_secs, now_nanos) as int),
    }
}

/// The text of a battle's time, when it stands for an instant.
pub open spec fn battle_time_value(s: Seq<char>) -> Option<Seq<char>> {
    if battle_time_parses(s) {
        Some(battle_time_iso(s))
    } else {
        None
    }
}

/// The RFC 3339 text of a time, when there is one.
pub open spec fn time_text(dt: Option<BattleTime>) -> Option<Seq<char>> {
    match dt {
        Some(t) => Some(t.text()),
        None => None,
    }
}

/// The largest crown count of the sides, 0 when none has one.
pub open spec fn max_crowns_of(sides: Seq<BattleSide>) -> u32
    decreases sides.len(),
{
    if sides.len() == 0 {
        0
    } else {
        let rest = max_crowns_of(sides.drop_last());
        match sides.last().crowns {
            Some(c) => if c > rest { c } else { rest },
            None => rest,
        }
    }
}

/// The outcome of a battle with these crown counts.
pub open spec fn result_of(team: u32, opp: u32) -> Seq<char> {
    if team > opp {
        "✅ Victoria"@
    } else if team < opp {
        "❌ Derrota"@
    } else {
        "🤝 Empate"@
    }
}

/// The Spanish name of a game mode, matched on parts of its lower-cased
/// name; a mode that matches none keeps its own name.
pub open spec fn mode_translation(mode: Seq<char>) -> Seq<char> {
    mode_key_translation(unicode_lowercase(trim(mode)), mode)
}

/// The Spanish name of a game mode `mode` whose trimmed, lower-cased name
/// is `m`: the first known word that `m` holds decides, else `mode` stays.
pub open spec fn mode_key_translation(m: Seq<char>, mode: Seq<char>) -> Seq<char> {
    if contains(m, "ladder"@) {
        "Camino de trofeos"@
    } else if contains(m, "ranked"@) || contains(m, "path of legends"@) || contains(m, "legends"@) {
        "Ranked"@
    } else if contains(m, "2v2"@) {
        "2c2"@
    } else if contains(m, "tournament"@) {
        "Torneo"@
    } else if contains(m, "friendly"@) {
        "Amistosa"@
    } else if contains(m, "clan war"@) || contains(m, "clanwar"@) {
        "Guerra de clanes"@
    } else if contains(m, "grand challenge"@) {
        "Gran desafío"@
    } else if contains(m, "classic challenge"@) {
        "Desafío clásico"@
    } else if contains(m, "challenge"@) {
        "Desafío"@
    } else {
        mode
    }
}

/// The mode name of a battle: the game mode's name, else the battle type,
/// else "Partida".
pub open spec fn raw_mode(b: BattleLogEntry) -> Seq<char> {
    if b.game_mode is Some && b.game_mode->0.name is Some {
        b.game_mode->0.name->0@
    } else if b.battle_type is Some {
        b.battle_type->0@
    } else {
        "Partida"@
    }
}

/// The state line for a battle, with `when` as the text of its time.
pub open spec fn state_line(battle: Option<BattleLogEntry>, when: Seq<char>) -> Seq<char> {
    match battle {
        None => "Última partida: —"@,
        Some(b) => {
            let team = max_crowns_of(b.team@);
            let opp = max_crowns_of(b.opponent@);
            result_of(team, opp) + " "@ + decimal(team as nat) + "-"@ + decimal(opp as nat) + " • "@
                + mode_translation(raw_mode(b)) + " • "@ + when
        },
    }
}

/// The line for `battle` told at the instant `now_secs`, `now_nanos`.
pub open spec fn battle_line_at(battle: Option<BattleLogEntry>, now_secs: i64, now_nanos: u32) -> Seq<char> {
    match battle {
        None => "Última partida: —"@,
        Some(b) => state_line(battle, ago_at(battle_time_value(b.battle_time@), now_secs, now_nanos)),
    }
}

/// The instant a battle time `YYYYMMDDTHHMMSS...` stands for, read by `chrono`
/// as `YYYY-MM-DDTHH:MM:SS.000Z`.
pub fn parse_battle_time_to_utc(battle_time: &str) -> (r: Option<BattleTime>)
    ensures
        r is Some <==> battle_time_parses(battle_time@),
        r matches Some(t) ==> t.text() == battle_time_iso(battle_time@),
        battle_time_cuttable(battle_time@) && iso_shape(battle_time_iso(battle_time@)) ==> (
        r is Some <==> iso_fields_valid(battle_time_iso(battle_time@))),
{
    let s = trim_chars(chars_of(battle_time).as_slice());
    if s.len() < 15 {
        return None;
    }
    let mut i: usize = 0;
    while i < 15
        invariant
            i <= 15 <= s@.len(),
            s@ == trim(battle_time@),
            forall|j: int| 0 <= j < i ==> is_ascii_char(#[trigger] s@[j]),
        decreases 15 - i,
    {
        if (s[i] as u32) >= 128 {
            proof {
                assert(s@.take(15)[i as int] == s@[i as int]);
                assert(!is_ascii_char(s@.take(15)[i as int]));
                assert(!all_ascii(s@.take(15)));

            }
            return None;
        }
        i = i + 1;
    }
    proof {
        assert(all_ascii(s@.take(15)));
    }
    let mut iso = string_of(slice_chars(s.as_slice(), 0, 4).as_slice());
    iso.append("-");
    append_chars(&mut iso, slice_chars(s.as_slice(), 4, 6).as_slice());
    iso.append("-");
    append_chars(&mut iso, slice_chars(s.as_slice(), 6, 8).as_slice());
    iso.append("T");
    append_chars(&mut iso, slice_chars(s.as_slice(), 9, 11).as_slice());
    iso.append(":");
    append_chars(&mut iso, slice_chars(s.as_slice(), 11, 13).as_slice());
    iso.append(":");
    append_chars(&mut iso, slice_chars(s.as_slice(), 13, 15).as_slice());
    iso.append(".000Z");
    if rfc3339_valid(iso.as_str()) {
        Some(BattleTime { rfc3339: iso })
    } else {
        None
    }
}

/// Truncating division of a non-zero-divisor quotient on `i128`.
fn trunc_div_exec(a: i128, b: i128) -> (r: i128)
    requires
        b > 0,
        -0x8000_0000_0000_0000 <= a <= 0x7fff_ffff_ffff_ffff,
    ensures
        r == trunc_div(a as int, b as int),
        -0x8000_0000_0000_0000 <= r <= 0x7fff_ffff_ffff_ffff,
{
    if a >= 0 {
        let r = a / b;
        assert(r <= a) by (nonlinear_arith)
            requires
                a >= 0,
                b > 0,
                r == a / b,
        ;
        r
    } else {
        let na = -a;
        let q = na / b;
        assert(q <= na) by (nonlinear_arith)
            requires
                na >= 0,
                b > 0,
                q == na / b,
        ;
        -q
    }
}

/// The text for a time `secs` seconds ago.
pub fn ago_text_of(secs: i64) -> (r: String)
    ensures
        r@ == ago_text(secs as int),
{
    let a = secs as i128;
    let mins = trunc_div_exec(a, 60);
    let mut r = String::from_str("hace ");
    if mins < 60 {
        append_chars(&mut r, i64_decimal(mins as i64).as_slice());
        r.append(" min");
        return r;
    }
    let hours = trunc_div_exec(a, 3600);
    if hours < 24 {
        append_chars(&mut r, i64_decimal(hours as i64).as_slice());
        r.append(" h");
        return r;
    }
    let days = trunc_div_exec(a, 86400);
    append_chars(&mut r, i64_decimal(days as i64).as_slice());
    r.append(" d");
    r
}

/// How long before the present, the instant `now_secs`, `now_nanos` after
/// the Unix epoch, the time was: "hace —" when it is not known.
pub fn format_ago(dt: Option<BattleTime>, now_secs: i64, now_nanos: u32) -> (r: String)
    requires
        utc_instant(now_secs, now_nanos),
    ensures
        r@ == ago_at(time_text(dt), now_secs, now_nanos),
{
    match dt {
        None => String::from_str("hace —"),
        Some(t) => {
            let secs = seconds_until(t.as_rfc3339(), now_secs, now_nanos);
            ago_text_of(secs)
        },
    }
}

/// The largest crown count of the sides, 0 when none has one.
pub fn max_crowns(arr: &[BattleSide]) -> (r: u32)
    ensures
        r == max_crowns_of(arr@),
{
    let n = arr.len();
    let mut best: u32 = 0;
    for i in 0..n
        invariant
            n == arr@.len(),
            best == max_crowns_of(arr@.take(i as int)),
    {
        proof {
            assert(arr@.take(i + 1).drop_last() =~= arr@.take(i as int));
        }
        match arr[i].crowns {
            Some(c) => {
                if c > best {
                    best = c;
                }
            },
            None => {},
        }
    }
    assert(arr@.take(n as int) =~= arr@);
    best
}

/// The outcome of a battle with these crown counts.
pub fn result_text(team: u32, opp: u32) -> (r: &'static str)
    ensures
        r@ == result_of(team, opp),
{
    if team > opp {
        "✅ Victoria"
    } else if team < opp {
        "❌ Derrota"
    } else {
        "🤝 Empate"
    }
}

/// The Spanish name of a game mode.
pub fn translate_mode<'a>(mode: &'a str) -> (r: &'a str)
    ensures
        r@ == mode_translation(mode@),
        all_ascii(mode@) ==> r@ == mode_key_translation(ascii_lower(trim(mode@)), mode@),
{
    let t = trim_chars(chars_of(mode).as_slice());
    proof {
        if all_ascii(mode@) {
            lemma_trim_ascii(mode@);
        }
    }
    let lower = to_lowercase(string_of(t.as_slice()).as_str());
    let mv = chars_of(lower.as_str());
    let m = mv.as_slice();
    if contains_str(m, "ladder") {
        return "Camino de trofeos";
    }
    if contains_str(m, "ranked") || contains_str(m, "path of legends") || contains_str(m, "legends") {
        return "Ranked";
    }
    if contains_str(m, "2v2") {
        return "2c2";
    }
    if contains_str(m, "tournament") {
        return "Torneo";
    }
    if contains_str(m, "friendly") {
        return "Amistosa";
    }
    if contains_str(m, "clan war") || contains_str(m, "clanwar") {
        return "Guerra de clanes";
    }
    if contains_str(m, "grand challenge") {
        return "Gran desafío";
    }
    if contains_str(m, "classic challenge") {
        return "Desafío clásico";
    }
    if contains_str(m, "challenge") {
        return "Desafío";
    }
    mode
}

/// The state line for a battle and the text of its time.
pub fn state_line_with(battle: Option<&BattleLogEntry>, when: &str) -> (r: String)
    ensures
        r@ == state_line(
            match battle {
                Some(b) => Some(*b),
                None => None,
            },
            when@,
        ),
{
    match battle {
        None => String::from_str("Última partida: —"),
        Some(b) => {
            let team = max_crowns(b.team.as_slice());
            let opp = max_crowns(b.opponent.as_slice());
            let raw: &str = match &b.game_mode {
                Some(gm) => match &gm.name {
                    Some(n) => n.as_str(),
                    None => match &b.battle_type {
                        Some(t) => t.as_str(),
                        None => "Partida",
                    },
                },
                None => match &b.battle_type {
                    Some(t) => t.as_str(),
                    None => "Partida",
                },
            };
            let mode = translate_mode(raw);
            let mut s = String::from_str(result_text(team, opp));
            s.append(" ");
            append_chars(&mut s, u64_decimal(team as u64).as_slice());
            s.append("-");
            append_chars(&mut s, u64_decimal(opp as u64).as_slice());
            s.append(" • ");
            s.append(mode);
            s.append(" • ");
            s.append(when);
            s
        },
    }
}

/// The line that sums up the last battle: outcome, score, mode and how long
/// before the present (the instant `now_secs`, `now_nanos`) it was;
/// "Última partida: —" when there is no battle.
pub fn battle_state_line(battle: Option<&BattleLogEntry>, now_secs: i64, now_nanos: u32) -> (r: String)
    requires
        utc_instant(now_secs, now_nanos),
    ensures
        r@ == battle_line_at(
            match battle {
                Some(b) => Some(*b),
                None => None,
            },
            now_secs,
            now_nanos,
        ),
{
    match battle {
        None => String::from_str("Última partida: —"),
        Some(b) => {
            let dt = parse_battle_time_to_utc(b.battle_time.as_str());
            let when = format_ago(dt, now_secs, now_nanos);
            assert(time_text(dt) == battle_time_value(b.battle_time@));
            state_line_with(battle, when.as_str())
        },
    }
}

/// The crowns shown for a team are the most any of its sides took: no side
/// took more, and unless it is 0 some side took exactly that many.
pub proof fn law_max_crowns_is_max(sides: Seq<BattleSide>)
    ensures
        forall|i: int|
            0 <= i < sides.len() && (#[trigger] sides[i]).crowns is Some ==> sides[i].crowns->0
                <= max_crowns_of(sides),
        max_crowns_of(sides) == 0 || exists|i: int|
            0 <= i < sides.len() && (#[trigger] sides[i]).crowns == Some(max_crowns_of(sides)),
    decreases sides.len(),
{
    if sides.len() > 0 {
        let rest = sides.drop_last();
        law_max_crowns_is_max(rest);
        assert forall|i: int|
            0 <= i < sides.len() && (#[trigger] sides[i]).crowns is Some implies sides[i].crowns->0
            <= max_crowns_of(sides) by {
            if i < rest.len() {
                assert(sides[i] == rest[i]);
            }
        }
        if max_crowns_of(sides) != 0 {
            if max_crowns_of(sides) == max_crowns_of(rest) {
                let k = choose|k: int|
                    0 <= k < rest.len() && (#[trigger] rest[k]).crowns == Some(max_crowns_of(rest));
                assert(sides[k] == rest[k]);
            } else {
                assert(sides[sides.len() - 1].crowns == Some(max_crowns_of(sides)));
            }
        }
    }
}

/// Swapping the teams turns a victory into a defeat and keeps a draw.
pub proof fn law_result_swaps(team: u32, opp: u32)
    ensures
        result_of(team, opp) == "✅ Victoria"@ <==> result_of(opp, team) == "❌ Derrota"@,
        team == opp ==> result_of(team, opp) == "🤝 Empate"@,
{
    reveal_strlit("✅ Victoria");
    reveal_strlit("❌ Derrota");
    reveal_strlit("🤝 Empate");
    let win = "✅ Victoria"@;
    let loss = "❌ Derrota"@;
    let draw = "🤝 Empate"@;
    // the three texts differ in their first character
    assert(win[0] == '✅' && loss[0] == '❌' && draw[0] == '🤝');
    assert(win != loss && win != draw && loss != draw);
    if team > opp {
        assert(result_of(team, opp) == win && result_of(opp, team) == loss);
    } else if team < opp {
        assert(result_of(team, opp) == loss && result_of(opp, team) == win);
    } else {
        assert(result_of(team, opp) == draw && result_of(opp, team) == draw);
    }
}


/// A mode whose trimmed, lower-cased name holds "legends", "ranked" or
/// "path of legends" and not "ladder" is shown as "Ranked"; one that holds
/// "ladder" as "Camino de trofeos".
pub proof fn law_ranked_modes(m: Seq<char>, mode: Seq<char>)
    ensures
        contains(m, "ladder"@) ==> mode_key_translation(m, mode) == "Camino de trofeos"@,
        !contains(m, "ladder"@) && (contains(m, "legends"@) || contains(m, "ranked"@) || contains(
            m,
            "path of legends"@,
        )) ==> mode_key_translation(m, mode) == "Ranked"@,
{
}

/// Up to an hour the time is told in whole minutes, up to a day in whole
/// hours, then in whole days; a time in the future (a negative count) is
/// told in minutes.
pub proof fn law_ago_units(secs: int)
    ensures
        0 <= secs < 3600 ==> ago_text(secs) == "hace "@ + signed_decimal(secs / 60) + " min"@,
        3600 <= secs < 86400 ==> ago_text(secs) == "hace "@ + signed_decimal(secs / 3600) + " h"@,
        86400 <= secs ==> ago_text(secs) == "hace "@ + signed_decimal(secs / 86400) + " d"@,
        secs < 0 ==> ago_text(secs) == "hace "@ + signed_decimal(-((-secs) / 60)) + " min"@,
{
}

/// The Spanish name of each kind of mode, the first listed word found in the
/// trimmed, lower-cased name deciding; a name that holds none of the words
/// is shown as it is.
pub proof fn law_mode_words(m: Seq<char>, mode: Seq<char>)
    ensures
        !contains(m, "ladder"@) && !contains(m, "ranked"@) && !contains(m, "legends"@) && contains(m, "2v2"@)
            ==> mode_key_translation(m, mode) == "2c2"@,
        !contains(m, "ladder"@) && !contains(m, "ranked"@) && !contains(m, "legends"@) && !contains(m, "2v2"@)
            && contains(m, "tournament"@) ==> mode_key_translation(m, mode) == "Torneo"@,
        !contains(m, "ladder"@) && !contains(m, "ranked"@) && !contains(m, "legends"@) && !contains(m, "2v2"@)
            && !contains(m, "tournament"@) && contains(m, "friendly"@) ==> mode_key_translation(m, mode)
            == "Amistosa"@,
        !contains(m, "ladder"@) && !contains(m, "ranked"@) && !contains(m, "legends"@) && !contains(m, "2v2"@)
            && !contains(m, "tournament"@) && !contains(m, "friendly"@) && (contains(m, "clan war"@)
            || contains(m, "clanwar"@)) ==> mode_key_translation(m, mode) == "Guerra de clanes"@,
        !contains(m, "ladder"@) && !contains(m, "ranked"@) && !contains(m, "legends"@) && !contains(m, "2v2"@)
            && !contains(m, "tournament"@) && !contains(m, "friendly"@) && !contains(m, "clan war"@)
            && !contains(m, "clanwar"@) && contains(m, "challenge"@) ==> mode_key_translation(m, mode) == (
        if contains(m, "grand challenge"@) {
            "Gran desafío"@
        } else if contains(m, "classic challenge"@) {
            "Desafío clásico"@
        } else {
            "Desafío"@
        }),
        !contains(m, "ladder"@) && !contains(m, "ranked"@) && !contains(m, "legends"@) && !contains(m, "2v2"@)
            && !contains(m, "tournament"@) && !contains(m, "friendly"@) && !contains(m, "clan war"@)
            && !contains(m, "clanwar"@) && !contains(m, "challenge"@) ==> mode_key_translation(m, mode) == mode,
{
    reveal_strlit("grand challenge");
    reveal_strlit("classic challenge");
    reveal_strlit("challenge");
    reveal_strlit("path of legends");
    reveal_strlit("legends");
    assert("grand challenge"@.subrange(6, 15) =~= "challenge"@);
    assert("classic challenge"@.subrange(8, 17) =~= "challenge"@);
    assert("path of legends"@.subrange(8, 15) =~= "legends"@);
    lemma_contains_grows(m, "grand challenge"@, "challenge"@, 6);
    lemma_contains_grows(m, "classic challenge"@, "challenge"@, 8);
    lemma_contains_grows(m, "path of legends"@, "legends"@, 8);
}

/// A text that holds `big`, which holds `small` at `k`, holds `small`.
proof fn lemma_contains_grows(m: Seq<char>, big: Seq<char>, small: Seq<char>, k: int)
    requires
        0 <= k && k + small.len() <= big.len() && big.subrange(k, k + small.len()) == small,
    ensures
        contains(m, big) ==> contains(m, small),
{
    if contains(m, big) {
        let i = choose|i: int| occurs_at(m, big, i);
        assert(m.subrange(i + k, i + k + small.len()) =~= big.subrange(k, k + small.len()));
        assert(occurs_at(m, small, i + k));
    }
}

/// More crowns than the opponent is a victory, fewer a defeat, as many a
/// draw.
pub proof fn law_result_by_crowns(team: u32, opp: u32)
    ensures
        team > opp ==> result_of(team, opp) == "✅ Victoria"@,
        team < opp ==> result_of(team, opp) == "❌ Derrota"@,
        team == opp ==> result_of(team, opp) == "🤝 Empate"@,
{
}
} // verus!
