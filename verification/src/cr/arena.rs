//! Which arena a player is in, its Spanish name and its icon.
use vstd::prelude::*;

use crate::common::constants::DEFAULT_ARENA_ASSET_BASE_URL;
use crate::common::util::{get_optional_env, opt_view, setting_value};
use crate::cr::models::Arena;
use crate::text::{
    chars_eq_str, chars_of, decimal, occurs_at, digit_prefix, digit_prefix_exec, digits_value_upto, find,
    find_exec, lemma_digit_prefix_digits, parse_digits_u32, slice_chars, string_of,
    strip_trailing, strip_trailing_chars, to_lowercase, trim, trim_chars, u64_decimal,
    unicode_lowercase, append_chars, all_ascii, ascii_lower, lemma_trim_ascii,
    law_ascii_lower_trim_stable, lemma_decimal_digits, lemma_digit_prefix_all,
};

verus! {

/// The highest arena number the library knows.
pub const MAX_ARENA: u32 = 32;

/// The number of an arena written as "arena_l<digits>" in its raw name.
pub open spec fn raw_name_number(raw_name: Option<Seq<char>>) -> Option<u32> {
    match raw_name {
        None => None,
        Some(r) => {
            let raw = trim(r);
            if raw.len() == 0 {
                None
            } else {
                raw_key_number(unicode_lowercase(raw))
            }
        },
    }
}

/// The arena number that follows the first "arena_l" in a lower-cased raw
/// name, when it is at most 32.
pub open spec fn raw_key_number(lc: Seq<char>) -> Option<u32> {
    match find(lc, "arena_l"@) {
        None => None,
        Some(pos) => {
            let digits = digit_prefix(lc.skip(pos + "arena_l"@.len()));
            match parse_digits_u32(digits) {
                Some(n) => if n <= 32 { Some(n) } else { None },
                None => None,
            }
        },
    }
}

/// The number of an arena known by its (lower-case, English) name.
pub open spec fn name_key_number(k: Seq<char>) -> Option<u32> {
    if k == "training camp"@ {
        Some(0u32)
    } else if k == "goblin stadium"@ {
        Some(1u32)
    } else if k == "bone pit"@ {
        Some(2u32)
    } else if k == "barbarian bowl"@ {
        Some(3u32)
    } else if k == "spell valley"@ {
        Some(4u32)
    } else if k == "builder's workshop"@ || k == "builders workshop"@ {
        Some(5u32)
    } else if k == "p.e.k.k.a's playhouse"@ || k == "pekka's playhouse"@ {
        Some(6u32)
    } else if k == "royal arena"@ {
        Some(7u32)
    } else if k == "frozen peak"@ {
        Some(8u32)
    } else if k == "jungle arena"@ {
        Some(9u32)
    } else if k == "hog mountain"@ {
        Some(10u32)
    } else if k == "electro valley"@ {
        Some(11u32)
    } else if k == "spooky town"@ {
        Some(12u32)
    } else if k == "rascal's hideout"@ || k == "rascals hideout"@ {
        Some(13u32)
    } else if k == "serenity peak"@ {
        Some(14u32)
    } else if k == "miner's mine"@ || k == "miners mine"@ {
        Some(15u32)
    } else if k == "executioner's kitchen"@ || k == "executioners kitchen"@ {
        Some(16u32)
    } else if k == "royal crypt"@ {
        Some(17u32)
    } else if k == "silent sanctuary"@ {
        Some(18u32)
    } else if k == "dragon spa"@ {
        Some(19u32)
    } else if k == "boot camp"@ {
        Some(20u32)
    } else if k == "clash fest"@ {
        Some(21u32)
    } else if k == "pancakes!"@ || k == "pankcakes!"@ {
        Some(22u32)
    } else if k == "valkalla"@ || k == "valkella"@ {
        Some(23u32)
    } else if k == "legendary arena"@ {
        Some(24u32)
    } else if k == "lumberlove cabin"@ || k == "lumberjack's cabin"@ || k == "lumberjack cabin"@ {
        Some(25u32)
    } else if k == "royal road"@ {
        Some(26u32)
    } else if k == "musketeer street"@ {
        Some(27u32)
    } else if k == "summit of heroes"@ {
        Some(28u32)
    } else if k == "magic academy"@ {
        Some(29u32)
    } else if k == "ultimate clash pit"@ {
        Some(30u32)
    } else if k == "little prince's tavern"@ || k == "little prince’s tavern"@ {
        Some(31u32)
    } else if k == "spirit square"@ {
        Some(32u32)
    } else {
        None
    }
}

/// The number of an arena known by its name, in any case, around whitespace.
pub open spec fn name_number(name: Seq<char>) -> Option<u32> {
    name_key_number(unicode_lowercase(trim(name)))
}

/// The number of an arena by its numeric id: the ids are 54000000 plus the
/// arena's number, up to 32.
pub open spec fn id_number(id: u64) -> Option<u32> {
    if id >= 54_000_000 && id - 54_000_000 <= 32 {
        Some((id - 54_000_000) as u32)
    } else {
        None
    }
}

pub open spec fn opt_string_view(o: Option<String>) -> Option<Seq<char>> {
    match o {
        Some(s) => Some(s@),
        None => None,
    }
}

/// The arena's number: from its raw name, else from its name, else from its id.
pub open spec fn arena_number(arena: Arena) -> Option<u32> {
    match raw_name_number(opt_string_view(arena.raw_name)) {
        Some(n) => Some(n),
        None => match name_number(arena.name@) {
            Some(n) => Some(n),
            None => id_number(arena.id),
        },
    }
}

/// The Spanish name of arena `n`.
pub open spec fn spanish_name(n: u32) -> Option<Seq<char>> {
    if n == 0 {
        Some("Entrenamiento"@)
    } else if n == 1 {
        Some("Estadio Duende"@)
    } else if n == 2 {
        Some("Foso de Huesos"@)
    } else if n == 3 {
        Some("Coliseo Bárbaro"@)
    } else if n == 4 {
        Some("Valle de Hechizos"@)
    } else if n == 5 {
        Some("Taller del Constructor"@)
    } else if n == 6 {
        Some("Fuerte de la P.E.K.K.A."@)
    } else if n == 7 {
        Some("Arena Real"@)
    } else if n == 8 {
        Some("Pico Helado"@)
    } else if n == 9 {
        Some("Arena Selvática"@)
    } else if n == 10 {
        Some("Montepuerco"@)
    } else if n == 11 {
        Some("Electrovalle"@)
    } else if n == 12 {
        Some("Pueblo Espeluznante"@)
    } else if n == 13 {
        Some("Escondite de los Pillos"@)
    } else if n == 14 {
        Some("Pico Sereno"@)
    } else if n == 15 {
        Some("La Gran Mina"@)
    } else if n == 16 {
        Some("La Cocina del Verdugo"@)
    } else if n == 17 {
        Some("Cripta Real"@)
    } else if n == 18 {
        Some("Santuario del Silencio"@)
    } else if n == 19 {
        Some("Termas de Dragones"@)
    } else if n == 20 {
        Some("Campo de Entrenamiento"@)
    } else if n == 21 {
        Some("Clash Fest"@)
    } else if n == 22 {
        Some("¡TORTITAS!"@)
    } else if n == 23 {
        Some("Valkalla"@)
    } else if n == 24 {
        Some("Arena Legendaria"@)
    } else if n == 25 {
        Some("Cabaña del leñador"@)
    } else if n == 26 {
        Some("Sendero Real"@)
    } else if n == 27 {
        Some("Bulevar de la Mosquetera"@)
    } else if n == 28 {
        Some("Cima heroica"@)
    } else if n == 29 {
        Some("Academia de Magia"@)
    } else if n == 30 {
        Some("Arena suprema de combate"@)
    } else if n == 31 {
        Some("Taberna del principito"@)
    } else if n == 32 {
        Some("Plaza espiritual"@)
    } else {
        None
    }
}

/// The address of the icon of arena `n` under `base_url`.
pub open spec fn icon_url(base_url: Seq<char>, n: u32) -> Seq<char> {
    strip_trailing(base_url, '/') + "/arena"@ + decimal(n as nat) + ".png"@
}

/// The base address of the arena icons: the configured one, or the default,
/// without trailing `/`.
pub fn arena_base_url(env_value: Option<&str>, embedded_value: Option<&str>) -> (r: String)
    ensures
        r@ == strip_trailing(
            match setting_value(opt_view(env_value), opt_view(embedded_value)) {
                Some(v) => v,
                None => DEFAULT_ARENA_ASSET_BASE_URL@,
            },
            '/',
        ),
{
    let raw = match get_optional_env(env_value, embedded_value) {
        Some(v) => v,
        None => String::from_str(DEFAULT_ARENA_ASSET_BASE_URL),
    };
    let c = chars_of(raw.as_str());
    let t = strip_trailing_chars(c.as_slice(), '/');
    string_of(t.as_slice())
}

/// The arena number in a raw name such as "Arena_L12".
pub fn arena_raw_name_to_number(raw_name: Option<&str>) -> (r: Option<u32>)
    ensures
        r == raw_name_number(opt_view(raw_name)),
        raw_name matches Some(s) ==> (all_ascii(s@) && trim(s@).len() > 0
            ==> r == raw_key_number(ascii_lower(trim(s@)))),
{
    let r = match raw_name {
        Some(r) => r,
        None => return None,
    };
    let raw = trim_chars(chars_of(r).as_slice());
    if raw.len() == 0 {
        return None;
    }
    proof {
        if all_ascii(r@) {
            lemma_trim_ascii(r@);
        }
    }
    let lower = to_lowercase(string_of(raw.as_slice()).as_str());
    let lc = chars_of(lower.as_str());
    let needle = chars_of("arena_l");
    let pos = match find_exec(lc.as_slice(), needle.as_slice()) {
        Some(p) => p,
        None => return None,
    };
    proof {
        crate::text::lemma_find_from_some(lc@, needle@, 0);
        assert(occurs_at(lc@, needle@, pos as int));
    }
    let lcl = lc.len();
    assert(pos + needle@.len() <= lcl);
    let start = pos + needle.len();
    let rest = slice_chars(lc.as_slice(), start, lc.len());
    let digits = digit_prefix_exec(rest.as_slice());
    proof {
        assert(rest@ =~= lc@.skip(start as int));
        lemma_digit_prefix_digits(rest@);
    }
    if digits.len() == 0 {
        return None;
    }
    match digits_value_upto(digits.as_slice(), 0xffff_ffffu64) {
        Some(v) => if v <= 32 { Some(v as u32) } else { None },
        None => None,
    }
}

/// The arena number of an English arena name.
pub fn arena_name_to_number(name: &str) -> (r: Option<u32>)
    ensures
        r == name_number(name@),
        all_ascii(name@) ==> r == name_key_number(ascii_lower(trim(name@))),
{
    let t = trim_chars(chars_of(name).as_slice());
    proof {
        if all_ascii(name@) {
            lemma_trim_ascii(name@);
        }
    }
    let lower = to_lowercase(string_of(t.as_slice()).as_str());
    let kv = chars_of(lower.as_str());
    let k = kv.as_slice();
    if chars_eq_str(k, "training camp") {
        Some(0)
    } else if chars_eq_str(k, "goblin stadium") {
        Some(1)
    } else if chars_eq_str(k, "bone pit") {
        Some(2)
    } else if chars_eq_str(k, "barbarian bowl") {
        Some(3)
    } else if chars_eq_str(k, "spell valley") {
        Some(4)
    } else if chars_eq_str(k, "builder's workshop") || chars_eq_str(k, "builders workshop") {
        Some(5)
    } else if chars_eq_str(k, "p.e.k.k.a's playhouse") || chars_eq_str(k, "pekka's playhouse") {
        Some(6)
    } else if chars_eq_str(k, "royal arena") {
        Some(7)
    } else if chars_eq_str(k, "frozen peak") {
        Some(8)
    } else if chars_eq_str(k, "jungle arena") {
        Some(9)
    } else if chars_eq_str(k, "hog mountain") {
        Some(10)
    } else if chars_eq_str(k, "electro valley") {
        Some(11)
    } else if chars_eq_str(k, "spooky town") {
        Some(12)
    } else if chars_eq_str(k, "rascal's hideout") || chars_eq_str(k, "rascals hideout") {
        Some(13)
    } else if chars_eq_str(k, "serenity peak") {
        Some(14)
    } else if chars_eq_str(k, "miner's mine") || chars_eq_str(k, "miners mine") {
        Some(15)
    } else if chars_eq_str(k, "executioner's kitchen") || chars_eq_str(k, "executioners kitchen") {
        Some(16)
    } else if chars_eq_str(k, "royal crypt") {
        Some(17)
    } else if chars_eq_str(k, "silent sanctuary") {
        Some(18)
    } else if chars_eq_str(k, "dragon spa") {
        Some(19)
    } else if chars_eq_str(k, "boot camp") {
        Some(20)
    } else if chars_eq_str(k, "clash fest") {
        Some(21)
    } else if chars_eq_str(k, "pancakes!") || chars_eq_str(k, "pankcakes!") {
        Some(22)
    } else if chars_eq_str(k, "valkalla") || chars_eq_str(k, "valkella") {
        Some(23)
    } else if chars_eq_str(k, "legendary arena") {
        Some(24)
    } else if chars_eq_str(k, "lumberlove cabin") || chars_eq_str(k, "lumberjack's cabin") || chars_eq_str(k, "lumberjack cabin") {
        Some(25)
    } else if chars_eq_str(k, "royal road") {
        Some(26)
    } else if chars_eq_str(k, "musketeer street") {
        Some(27)
    } else if chars_eq_str(k, "summit of heroes") {
        Some(28)
    } else if chars_eq_str(k, "magic academy") {
        Some(29)
    } else if chars_eq_str(k, "ultimate clash pit") {
        Some(30)
    } else if chars_eq_str(k, "little prince's tavern") || chars_eq_str(k, "little prince’s tavern") {
        Some(31)
    } else if chars_eq_str(k, "spirit square") {
        Some(32)
    } else {
        None
    }
}

/// The arena number of an arena id (54000000 + number).
pub fn arena_id_field_to_number(arena_id: u64) -> (r: Option<u32>)
    ensures
        r == id_number(arena_id),
{
    if arena_id >= 54_000_000 && arena_id - 54_000_000 <= 32 {
        return Some((arena_id - 54_000_000) as u32);
    }
    None
}

/// The arena's number, from the first of raw name, name and id that gives one.
pub fn arena_id_to_number(arena: &Arena) -> (r: Option<u32>)
    ensures
        r == arena_number(*arena),
{
    let raw: Option<&str> = match &arena.raw_name {
        Some(s) => Some(s.as_str()),
        None => None,
    };
    match arena_raw_name_to_number(raw) {
        Some(n) => Some(n),
        None => match arena_name_to_number(arena.name.as_str()) {
            Some(n) => Some(n),
            None => arena_id_field_to_number(arena.id),
        },
    }
}

/// The Spanish name of arena `n`.
pub fn arena_number_to_es(n: u32) -> (r: Option<&'static str>)
    ensures
        match r {
            Some(s) => spanish_name(n) == Some(s@),
            None => spanish_name(n) is None,
        },
{
    match n {
        0 => Some("Entrenamiento"),
        1 => Some("Estadio Duende"),
        2 => Some("Foso de Huesos"),
        3 => Some("Coliseo Bárbaro"),
        4 => Some("Valle de Hechizos"),
        5 => Some("Taller del Constructor"),
        6 => Some("Fuerte de la P.E.K.K.A."),
        7 => Some("Arena Real"),
        8 => Some("Pico Helado"),
        9 => Some("Arena Selvática"),
        10 => Some("Montepuerco"),
        11 => Some("Electrovalle"),
        12 => Some("Pueblo Espeluznante"),
        13 => Some("Escondite de los Pillos"),
        14 => Some("Pico Sereno"),
        15 => Some("La Gran Mina"),
        16 => Some("La Cocina del Verdugo"),
        17 => Some("Cripta Real"),
        18 => Some("Santuario del Silencio"),
        19 => Some("Termas de Dragones"),
        20 => Some("Campo de Entrenamiento"),
        21 => Some("Clash Fest"),
        22 => Some("¡TORTITAS!"),
        23 => Some("Valkalla"),
        24 => Some("Arena Legendaria"),
        25 => Some("Cabaña del leñador"),
        26 => Some("Sendero Real"),
        27 => Some("Bulevar de la Mosquetera"),
        28 => Some("Cima heroica"),
        29 => Some("Academia de Magia"),
        30 => Some("Arena suprema de combate"),
        31 => Some("Taberna del principito"),
        32 => Some("Plaza espiritual"),
        _ => None,
    }
}

/// The address of the arena's icon, when its number is known.
pub fn arena_url(arena: &Arena, base_url: &str) -> (r: Option<String>)
    ensures
        match r {
            Some(u) => arena_number(*arena) matches Some(n) && u@ == icon_url(base_url@, n),
            None => arena_number(*arena) is None,
        },
{
    let n = match arena_id_to_number(arena) {
        Some(n) => n,
        None => return None,
    };
    let base = strip_trailing_chars(chars_of(base_url).as_slice(), '/');
    let mut u = string_of(base.as_slice());
    u.append("/arena");
    let d = u64_decimal(n as u64);
    append_chars(&mut u, d.as_slice());
    u.append(".png");
    Some(u)
}


/// Which arena a Spanish name belongs to, told apart by the name's length
/// and one or two of its letters.
spec fn spanish_number(s: Seq<char>) -> Option<u32> {
    if s.len() == 13 && s[0] == 'E' {
        Some(0u32)
    } else if s.len() == 14 && s[0] == 'E' {
        Some(1u32)
    } else if s.len() == 14 && s[0] == 'F' {
        Some(2u32)
    } else if s.len() == 15 && s[0] == 'C' {
        Some(3u32)
    } else if s.len() == 17 && s[0] == 'V' {
        Some(4u32)
    } else if s.len() == 22 && s[0] == 'T' && s[2] == 'l' {
        Some(5u32)
    } else if s.len() == 23 && s[0] == 'F' {
        Some(6u32)
    } else if s.len() == 10 && s[0] == 'A' {
        Some(7u32)
    } else if s.len() == 11 && s[0] == 'P' && s[5] == 'H' {
        Some(8u32)
    } else if s.len() == 15 && s[0] == 'A' {
        Some(9u32)
    } else if s.len() == 11 && s[0] == 'M' {
        Some(10u32)
    } else if s.len() == 12 && s[0] == 'E' {
        Some(11u32)
    } else if s.len() == 19 && s[0] == 'P' {
        Some(12u32)
    } else if s.len() == 23 && s[0] == 'E' {
        Some(13u32)
    } else if s.len() == 11 && s[0] == 'P' && s[5] == 'S' {
        Some(14u32)
    } else if s.len() == 12 && s[0] == 'L' {
        Some(15u32)
    } else if s.len() == 21 && s[0] == 'L' {
        Some(16u32)
    } else if s.len() == 11 && s[0] == 'C' {
        Some(17u32)
    } else if s.len() == 22 && s[0] == 'S' {
        Some(18u32)
    } else if s.len() == 18 && s[0] == 'T' {
        Some(19u32)
    } else if s.len() == 22 && s[0] == 'C' {
        Some(20u32)
    } else if s.len() == 10 && s[0] == 'C' {
        Some(21u32)
    } else if s.len() == 10 && s[0] == '¡' {
        Some(22u32)
    } else if s.len() == 8 && s[0] == 'V' {
        Some(23u32)
    } else if s.len() == 16 && s[0] == 'A' {
        Some(24u32)
    } else if s.len() == 18 && s[0] == 'C' {
        Some(25u32)
    } else if s.len() == 12 && s[0] == 'S' {
        Some(26u32)
    } else if s.len() == 24 && s[0] == 'B' {
        Some(27u32)
    } else if s.len() == 12 && s[0] == 'C' {
        Some(28u32)
    } else if s.len() == 17 && s[0] == 'A' {
        Some(29u32)
    } else if s.len() == 24 && s[0] == 'A' {
        Some(30u32)
    } else if s.len() == 22 && s[0] == 'T' && s[2] == 'b' {
        Some(31u32)
    } else if s.len() == 16 && s[0] == 'P' {
        Some(32u32)
    } else {
        None
    }
}

/// Each Spanish name leads back to its arena's number.
proof fn lemma_spanish_name_decodes(n: u32)
    requires
        n <= MAX_ARENA,
    ensures
        spanish_name(n) matches Some(s) && spanish_number(s) == Some(n),
{
    match n {
        0 => {
            reveal_strlit("Entrenamiento");
        },
        1 => {
            reveal_strlit("Estadio Duende");
        },
        2 => {
            reveal_strlit("Foso de Huesos");
        },
        3 => {
            reveal_strlit("Coliseo Bárbaro");
        },
        4 => {
            reveal_strlit("Valle de Hechizos");
        },
        5 => {
            reveal_strlit("Taller del Constructor");
        },
        6 => {
            reveal_strlit("Fuerte de la P.E.K.K.A.");
        },
        7 => {
            reveal_strlit("Arena Real");
        },
        8 => {
            reveal_strlit("Pico Helado");
        },
        9 => {
            reveal_strlit("Arena Selvática");
        },
        10 => {
            reveal_strlit("Montepuerco");
        },
        11 => {
            reveal_strlit("Electrovalle");
        },
        12 => {
            reveal_strlit("Pueblo Espeluznante");
        },
        13 => {
            reveal_strlit("Escondite de los Pillos");
        },
        14 => {
            reveal_strlit("Pico Sereno");
        },
        15 => {
            reveal_strlit("La Gran Mina");
        },
        16 => {
            reveal_strlit("La Cocina del Verdugo");
        },
        17 => {
            reveal_strlit("Cripta Real");
        },
        18 => {
            reveal_strlit("Santuario del Silencio");
        },
        19 => {
            reveal_strlit("Termas de Dragones");
        },
        20 => {
            reveal_strlit("Campo de Entrenamiento");
        },
        21 => {
            reveal_strlit("Clash Fest");
        },
        22 => {
            reveal_strlit("¡TORTITAS!");
        },
        23 => {
            reveal_strlit("Valkalla");
        },
        24 => {
            reveal_strlit("Arena Legendaria");
        },
        25 => {
            reveal_strlit("Cabaña del leñador");
        },
        26 => {
            reveal_strlit("Sendero Real");
        },
        27 => {
            reveal_strlit("Bulevar de la Mosquetera");
        },
        28 => {
            reveal_strlit("Cima heroica");
        },
        29 => {
            reveal_strlit("Academia de Magia");
        },
        30 => {
            reveal_strlit("Arena suprema de combate");
        },
        31 => {
            reveal_strlit("Taberna del principito");
        },
        32 => {
            reveal_strlit("Plaza espiritual");
        },
        _ => {},
    }
}

/// Exactly the arenas up to 32 have a Spanish name, and no two of them
/// share one.
pub proof fn law_spanish_names_distinct(m: u32, n: u32)
    ensures
        spanish_name(n) is Some <==> n <= MAX_ARENA,
        m != n && m <= MAX_ARENA && n <= MAX_ARENA ==> spanish_name(m) != spanish_name(n),
{
    if m <= MAX_ARENA && n <= MAX_ARENA {
        lemma_spanish_name_decodes(m);
        lemma_spanish_name_decodes(n);
    }
}

/// The English name of arena `n` as the API writes it, in lower case.
pub open spec fn english_name(n: u32) -> Seq<char> {
    if n == 32 {
        "spirit square"@
    } else if n == 31 {
        "little prince's tavern"@
    } else if n == 30 {
        "ultimate clash pit"@
    } else if n == 29 {
        "magic academy"@
    } else if n == 28 {
        "summit of heroes"@
    } else if n == 27 {
        "musketeer street"@
    } else if n == 26 {
        "royal road"@
    } else if n == 25 {
        "lumberlove cabin"@
    } else if n == 24 {
        "legendary arena"@
    } else if n == 23 {
        "valkalla"@
    } else if n == 22 {
        "pancakes!"@
    } else if n == 21 {
        "clash fest"@
    } else if n == 20 {
        "boot camp"@
    } else if n == 19 {
        "dragon spa"@
    } else if n == 18 {
        "silent sanctuary"@
    } else if n == 17 {
        "royal crypt"@
    } else if n == 16 {
        "executioner's kitchen"@
    } else if n == 15 {
        "miner's mine"@
    } else if n == 14 {
        "serenity peak"@
    } else if n == 13 {
        "rascal's hideout"@
    } else if n == 12 {
        "spooky town"@
    } else if n == 11 {
        "electro valley"@
    } else if n == 10 {
        "hog mountain"@
    } else if n == 9 {
        "jungle arena"@
    } else if n == 8 {
        "frozen peak"@
    } else if n == 7 {
        "royal arena"@
    } else if n == 6 {
        "p.e.k.k.a's playhouse"@
    } else if n == 5 {
        "builder's workshop"@
    } else if n == 4 {
        "spell valley"@
    } else if n == 3 {
        "barbarian bowl"@
    } else if n == 2 {
        "bone pit"@
    } else if n == 1 {
        "goblin stadium"@
    } else if n == 0 {
        "training camp"@
    } else {
        Seq::empty()
    }
}

/// Which arena a known English name (lower case) belongs to, told apart by
/// its length and one or two of its letters.
spec fn english_number(s: Seq<char>) -> Option<u32> {
    if s.len() == 8 && s[0] == 'b' {
        Some(2u32)
    } else if s.len() == 8 && s[0] == 'v' {
        Some(23u32)
    } else if s.len() == 9 && s[0] == 'b' {
        Some(20u32)
    } else if s.len() == 9 && s[0] == 'p' {
        Some(22u32)
    } else if s.len() == 10 && s[0] == 'c' {
        Some(21u32)
    } else if s.len() == 10 && s[0] == 'd' {
        Some(19u32)
    } else if s.len() == 10 && s[0] == 'p' {
        Some(22u32)
    } else if s.len() == 10 && s[0] == 'r' {
        Some(26u32)
    } else if s.len() == 11 && s[0] == 'f' {
        Some(8u32)
    } else if s.len() == 11 && s[0] == 'm' {
        Some(15u32)
    } else if s.len() == 11 && s[0] == 'r' && s[6] == 'a' {
        Some(7u32)
    } else if s.len() == 11 && s[0] == 'r' && s[6] == 'c' {
        Some(17u32)
    } else if s.len() == 11 && s[0] == 's' {
        Some(12u32)
    } else if s.len() == 12 && s[0] == 'h' {
        Some(10u32)
    } else if s.len() == 12 && s[0] == 'j' {
        Some(9u32)
    } else if s.len() == 12 && s[0] == 'm' {
        Some(15u32)
    } else if s.len() == 12 && s[0] == 's' {
        Some(4u32)
    } else if s.len() == 13 && s[0] == 'm' {
        Some(29u32)
    } else if s.len() == 13 && s[0] == 's' && s[1] == 'e' {
        Some(14u32)
    } else if s.len() == 13 && s[0] == 's' && s[1] == 'p' {
        Some(32u32)
    } else if s.len() == 13 && s[0] == 't' {
        Some(0u32)
    } else if s.len() == 14 && s[0] == 'b' {
        Some(3u32)
    } else if s.len() == 14 && s[0] == 'e' {
        Some(11u32)
    } else if s.len() == 14 && s[0] == 'g' {
        Some(1u32)
    } else if s.len() == 15 && s[0] == 'l' {
        Some(24u32)
    } else if s.len() == 15 && s[0] == 'r' {
        Some(13u32)
    } else if s.len() == 16 && s[0] == 'l' {
        Some(25u32)
    } else if s.len() == 16 && s[0] == 'm' {
        Some(27u32)
    } else if s.len() == 16 && s[0] == 'r' {
        Some(13u32)
    } else if s.len() == 16 && s[0] == 's' && s[1] == 'i' {
        Some(18u32)
    } else if s.len() == 16 && s[0] == 's' && s[1] == 'u' {
        Some(28u32)
    } else if s.len() == 17 && s[0] == 'b' {
        Some(5u32)
    } else if s.len() == 17 && s[0] == 'p' {
        Some(6u32)
    } else if s.len() == 18 && s[0] == 'b' {
        Some(5u32)
    } else if s.len() == 18 && s[0] == 'l' {
        Some(25u32)
    } else if s.len() == 18 && s[0] == 'u' {
        Some(30u32)
    } else if s.len() == 20 && s[0] == 'e' {
        Some(16u32)
    } else if s.len() == 21 && s[0] == 'e' {
        Some(16u32)
    } else if s.len() == 21 && s[0] == 'p' {
        Some(6u32)
    } else if s.len() == 22 && s[0] == 'l' {
        Some(31u32)
    } else {
        None
    }
}

/// Every name of the lookup table leads back to its arena's number, so
/// names of different arenas differ.
proof fn lemma_english_number_of_names()
    ensures
        english_number("barbarian bowl"@) == Some(3u32),
        english_number("bone pit"@) == Some(2u32),
        english_number("boot camp"@) == Some(20u32),
        english_number("builder's workshop"@) == Some(5u32),
        english_number("builders workshop"@) == Some(5u32),
        english_number("clash fest"@) == Some(21u32),
        english_number("dragon spa"@) == Some(19u32),
        english_number("electro valley"@) == Some(11u32),
        english_number("executioner's kitchen"@) == Some(16u32),
        english_number("executioners kitchen"@) == Some(16u32),
        english_number("frozen peak"@) == Some(8u32),
        english_number("goblin stadium"@) == Some(1u32),
        english_number("hog mountain"@) == Some(10u32),
        english_number("jungle arena"@) == Some(9u32),
        english_number("legendary arena"@) == Some(24u32),
        english_number("little prince's tavern"@) == Some(31u32),
        english_number("little prince’s tavern"@) == Some(31u32),
        english_number("lumberjack cabin"@) == Some(25u32),
        english_number("lumberjack's cabin"@) == Some(25u32),
        english_number("lumberlove cabin"@) == Some(25u32),
        english_number("magic academy"@) == Some(29u32),
        english_number("miner's mine"@) == Some(15u32),
        english_number("miners mine"@) == Some(15u32),
        english_number("musketeer street"@) == Some(27u32),
        english_number("p.e.k.k.a's playhouse"@) == Some(6u32),
        english_number("pancakes!"@) == Some(22u32),
        english_number("pankcakes!"@) == Some(22u32),
        english_number("pekka's playhouse"@) == Some(6u32),
        english_number("rascal's hideout"@) == Some(13u32),
        english_number("rascals hideout"@) == Some(13u32),
        english_number("royal arena"@) == Some(7u32),
        english_number("royal crypt"@) == Some(17u32),
        english_number("royal road"@) == Some(26u32),
        english_number("serenity peak"@) == Some(14u32),
        english_number("silent sanctuary"@) == Some(18u32),
        english_number("spell valley"@) == Some(4u32),
        english_number("spirit square"@) == Some(32u32),
        english_number("spooky town"@) == Some(12u32),
        english_number("summit of heroes"@) == Some(28u32),
        english_number("training camp"@) == Some(0u32),
        english_number("ultimate clash pit"@) == Some(30u32),
        english_number("valkalla"@) == Some(23u32),
        english_number("valkella"@) == Some(23u32),
{
    reveal_strlit("barbarian bowl");
    reveal_strlit("bone pit");
    reveal_strlit("boot camp");
    reveal_strlit("builder's workshop");
    reveal_strlit("builders workshop");
    reveal_strlit("clash fest");
    reveal_strlit("dragon spa");
    reveal_strlit("electro valley");
    reveal_strlit("executioner's kitchen");
    reveal_strlit("executioners kitchen");
    reveal_strlit("frozen peak");
    reveal_strlit("goblin stadium");
    reveal_strlit("hog mountain");
    reveal_strlit("jungle arena");
    reveal_strlit("legendary arena");
    reveal_strlit("little prince's tavern");
    reveal_strlit("little prince’s tavern");
    reveal_strlit("lumberjack cabin");
    reveal_strlit("lumberjack's cabin");
    reveal_strlit("lumberlove cabin");
    reveal_strlit("magic academy");
    reveal_strlit("miner's mine");
    reveal_strlit("miners mine");
    reveal_strlit("musketeer street");
    reveal_strlit("p.e.k.k.a's playhouse");
    reveal_strlit("pancakes!");
    reveal_strlit("pankcakes!");
    reveal_strlit("pekka's playhouse");
    reveal_strlit("rascal's hideout");
    reveal_strlit("rascals hideout");
    reveal_strlit("royal arena");
    reveal_strlit("royal crypt");
    reveal_strlit("royal road");
    reveal_strlit("serenity peak");
    reveal_strlit("silent sanctuary");
    reveal_strlit("spell valley");
    reveal_strlit("spirit square");
    reveal_strlit("spooky town");
    reveal_strlit("summit of heroes");
    reveal_strlit("training camp");
    reveal_strlit("ultimate clash pit");
    reveal_strlit("valkalla");
    reveal_strlit("valkella");
}

/// Looking up the English name of each arena gives back its number.
proof fn lemma_english_name_found(n: u32)
    requires
        n <= MAX_ARENA,
    ensures
        name_key_number(english_name(n)) == Some(n),
{
    lemma_english_number_of_names();
}

/// The tables agree: the English name of each arena up to 32 is looked up
/// as that arena, its id is 54000000 plus its number, and it has a Spanish
/// name.
pub proof fn law_arena_tables_agree(n: u32)
    requires
        n <= MAX_ARENA,
    ensures
        name_key_number(english_name(n)) == Some(n),
        id_number((54_000_000 + n) as u64) == Some(n),
        spanish_name(n) is Some,
{
    lemma_english_name_found(n);
}

/// Every arena number the library finds is at most 32, and every such
/// number has a Spanish name.
pub proof fn law_arena_number_known(arena: Arena)
    ensures
        arena_number(arena) matches Some(n) ==> n <= MAX_ARENA && spanish_name(n) is Some,
{
}

/// The id of arena `n` is 54000000 + `n`.
pub proof fn law_arena_id_roundtrip(n: u32)
    requires
        n <= MAX_ARENA,
    ensures
        id_number((54_000_000 + n) as u64) == Some(n),
{
}

/// The lookup of an ASCII arena name does not change when the name is
/// trimmed and lower-cased first: the looked-up key is already both, and
/// stays ASCII. Every number found by name is at most 32.
pub proof fn law_arena_name_lookup_normalized(name: Seq<char>)
    requires
        all_ascii(name),
    ensures
        all_ascii(ascii_lower(trim(name))),
        name_key_number(ascii_lower(trim(ascii_lower(trim(name)))))
            == name_key_number(ascii_lower(trim(name))),
        name_key_number(ascii_lower(trim(name))) matches Some(n) ==> n <= MAX_ARENA,
{
    law_ascii_lower_trim_stable(name);
}

/// An id gives a number exactly when it is 54000000 plus that number, and
/// the number is at most 32.
pub proof fn law_arena_id_exact(id: u64)
    ensures
        id_number(id) matches Some(n) ==> n <= MAX_ARENA && id == 54_000_000 + n,
        id_number(id) is None ==> id < 54_000_000 || id > 54_000_000 + MAX_ARENA,
{
}

/// The raw name "arena_l" followed by the number of an arena up to 32, in
/// decimal, gives that number; a larger number gives none.
pub proof fn law_raw_name_gives_its_number(n: u32)
    ensures
        raw_key_number("arena_l"@ + decimal(n as nat)) == (if n <= MAX_ARENA {
            Some(n)
        } else {
            None
        }),
{
    let p = "arena_l"@;
    let d = decimal(n as nat);
    let s = p + d;
    lemma_decimal_digits(n as nat);
    lemma_digit_prefix_all(d);
    assert(s.subrange(0, p.len() as int) =~= p);
    assert(occurs_at(s, p, 0));
    assert(find(s, p) == Some(0int));
    assert(s.skip(p.len() as int) =~= d);
}
} // verus!
