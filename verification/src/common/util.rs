//! Reading settings, flags and player tags.
use vstd::prelude::*;

use crate::text::{
    chars_eq, chars_eq_str, chars_of, parse_u64, parse_u64_exec, remove_ws,
    remove_ws_chars, string_of, strip_leading, strip_leading_chars, to_lowercase, to_uppercase, trim,
    trim_chars, unicode_lowercase, unicode_uppercase, ascii_lower, ascii_lowercase, all_ascii,
    ascii_upper, lemma_trim_ascii, lemma_strip_leading_ascii, lemma_strip_leading_suffix,
    lemma_ascii_upper_facts, lemma_trim_fixed, lemma_trim_start_front, lemma_trim_end_back,
    trim_start, is_ws,
};

verus! {

/// The value that a setting takes: the first of the process environment's
/// value and the value built into the executable that is non-empty once
/// trimmed, trimmed.
pub open spec fn setting_value(env_value: Option<Seq<char>>, embedded_value: Option<Seq<char>>) -> Option<Seq<char>> {
    if env_value is Some && trim(env_value->0).len() > 0 {
        Some(trim(env_value->0))
    } else if embedded_value is Some && trim(embedded_value->0).len() > 0 {
        Some(trim(embedded_value->0))
    } else {
        None
    }
}

pub open spec fn opt_view(o: Option<&str>) -> Option<Seq<char>> {
    match o {
        Some(s) => Some(s@),
        None => None,
    }
}

/// A flag value that switches something on: "1", "true", "yes" or "y" in
/// any case, around whitespace.
pub open spec fn truthy(v: Seq<char>) -> bool {
    truthy_key(unicode_lowercase(trim(v)))
}

/// `t` is one of the lower-case words that switch a flag on.
pub open spec fn truthy_key(t: Seq<char>) -> bool {
    t == "1"@ || t == "true"@ || t == "yes"@ || t == "y"@
}

/// `a` and `b` are equal up to ASCII case (`str::eq_ignore_ascii_case`).
pub open spec fn eq_ignore_ascii_case(a: Seq<char>, b: Seq<char>) -> bool {
    ascii_lower(a) == ascii_lower(b)
}

/// A player tag as the API takes it: trimmed, without leading `#`, in upper
/// case, with no whitespace.
pub open spec fn normalized_tag(tag: Seq<char>) -> Seq<char> {
    remove_ws(unicode_uppercase(strip_leading(trim(tag), '#')))
}

/// A clan tag as the configuration keeps it: `#` and the upper-cased tag.
pub open spec fn normalized_clan_tag(tag: Seq<char>) -> Seq<char> {
    seq!['#'] + unicode_uppercase(strip_leading(trim(tag), '#'))
}

/// A player tag written in ASCII, normalized: there upper-casing is ASCII
/// upper-casing.
pub open spec fn ascii_normalized_tag(tag: Seq<char>) -> Seq<char> {
    remove_ws(ascii_upper(strip_leading(trim(tag), '#')))
}

/// A clan tag written in ASCII, normalized.
pub open spec fn ascii_normalized_clan_tag(tag: Seq<char>) -> Seq<char> {
    seq!['#'] + ascii_upper(strip_leading(trim(tag), '#'))
}

/// A positive number read from a setting, or `default`.
pub open spec fn positive_or_default(value: Option<Seq<char>>, default: u64) -> u64 {
    match value {
        Some(v) => match parse_u64(trim(v)) {
            Some(n) => if n > 0 { n } else { default },
            None => default,
        },
        None => default,
    }
}

/// Whether the given flag value switches something on.
pub fn truthy_env(v: &str) -> (r: bool)
    ensures
        r == truthy(v@),
        all_ascii(v@) ==> r == truthy_key(ascii_lower(trim(v@))),
{
    let c = chars_of(v);
    let t = trim_chars(c.as_slice());
    proof {
        if all_ascii(v@) {
            lemma_trim_ascii(v@);
        }
    }
    let ts = string_of(t.as_slice());
    let l = to_lowercase(ts.as_str());
    let lc = chars_of(l.as_str());
    let s = lc.as_slice();
    chars_eq_str(s, "1") || chars_eq_str(s, "true") || chars_eq_str(s, "yes") || chars_eq_str(s, "y")
}

/// `str::eq_ignore_ascii_case`.
pub fn eq_ignore_ascii_case_exec(a: &[char], b: &[char]) -> (r: bool)
    ensures
        r == eq_ignore_ascii_case(a@, b@),
{
    let la = ascii_lowercase(a);
    let lb = ascii_lowercase(b);
    chars_eq(la.as_slice(), lb.as_slice())
}

/// Whether the application runs in release mode: the `rust_env` setting of
/// the environment, else the one built in, says "release" (ASCII case
/// ignored, around whitespace); without either, whether this is a release
/// build.
pub fn is_release_mode(env_value: Option<&str>, embedded_value: Option<&str>, release_build: bool) -> (r: bool)
    ensures
        r == match env_value {
            Some(v) => eq_ignore_ascii_case(trim(v@), "release"@),
            None => match embedded_value {
                Some(v) => eq_ignore_ascii_case(trim(v@), "release"@),
                None => release_build,
            },
        },
{
    let rel = chars_of("release");
    match env_value {
        Some(v) => {
            let t = trim_chars(chars_of(v).as_slice());
            eq_ignore_ascii_case_exec(t.as_slice(), rel.as_slice())
        },
        None => match embedded_value {
            Some(v) => {
                let t = trim_chars(chars_of(v).as_slice());
                eq_ignore_ascii_case_exec(t.as_slice(), rel.as_slice())
            },
            None => release_build,
        },
    }
}

/// The value of an optional setting (see `setting_value`).
pub fn get_optional_env(env_value: Option<&str>, embedded_value: Option<&str>) -> (r: Option<String>)
    ensures
        match r {
            Some(s) => setting_value(opt_view(env_value), opt_view(embedded_value)) == Some(s@),
            None => setting_value(opt_view(env_value), opt_view(embedded_value)) is None,
        },
{
    if let Some(v) = env_value {
        let t = trim_chars(chars_of(v).as_slice());
        if t.len() > 0 {
            return Some(string_of(t.as_slice()));
        }
    }
    if let Some(v) = embedded_value {
        let t = trim_chars(chars_of(v).as_slice());
        if t.len() > 0 {
            return Some(string_of(t.as_slice()));
        }
    }
    None
}

/// The message given when the required setting `key` has no value.
pub open spec fn missing_setting_message(key: Seq<char>) -> Seq<char> {
    "Falta '"@ + key + "', no está en el entorno ni embebido en el exe."@
}

/// The value of a required setting, or the message that says it is missing.
pub fn get_required_env(key: &str, env_value: Option<&str>, embedded_value: Option<&str>) -> (r: Result<String, String>)
    ensures
        match r {
            Ok(s) => setting_value(opt_view(env_value), opt_view(embedded_value)) == Some(s@),
            Err(m) => setting_value(opt_view(env_value), opt_view(embedded_value)) is None
                && m@ == missing_setting_message(key@),
        },
{
    match get_optional_env(env_value, embedded_value) {
        Some(v) => Ok(v),
        None => {
            let mut m = String::from_str("Falta '");
            m.append(key);
            m.append("', no está en el entorno ni embebido en el exe.");
            Err(m)
        },
    }
}

/// A player tag in the form the API takes.
pub fn normalize_tag(tag: &str) -> (r: String)
    ensures
        r@ == normalized_tag(tag@),
        all_ascii(tag@) ==> r@ == ascii_normalized_tag(tag@),
{
    let t = trim_chars(chars_of(tag).as_slice());
    let s = strip_leading_chars(t.as_slice(), '#');
    proof {
        if all_ascii(tag@) {
            lemma_trim_ascii(tag@);
            lemma_strip_leading_ascii(t@, '#');
        }
    }
    let up = to_uppercase(string_of(s.as_slice()).as_str());
    let u = chars_of(up.as_str());
    let w = remove_ws_chars(u.as_slice());
    string_of(w.as_slice())
}

/// A clan tag in the form the configuration keeps.
pub fn normalize_clan_tag(tag: &str) -> (r: String)
    ensures
        r@ == normalized_clan_tag(tag@),
        all_ascii(tag@) ==> r@ == ascii_normalized_clan_tag(tag@),
{
    let t = trim_chars(chars_of(tag).as_slice());
    let s = strip_leading_chars(t.as_slice(), '#');
    proof {
        if all_ascii(tag@) {
            lemma_trim_ascii(tag@);
            lemma_strip_leading_ascii(t@, '#');
        }
    }
    let up = to_uppercase(string_of(s.as_slice()).as_str());
    let mut r = String::from_str("#");
    r.append(up.as_str());
    proof {
        reveal_strlit("#");
    }
    r
}

/// A positive number read from a setting's value, or `default` when the
/// setting is absent, is not a number or is zero.
pub fn parse_u64_env(value: Option<&str>, default: u64) -> (r: u64)
    ensures
        r == positive_or_default(opt_view(value), default),
{
    match value {
        Some(v) => {
            let t = trim_chars(chars_of(v).as_slice());
            match parse_u64_exec(t.as_slice()) {
                Some(n) => if n > 0 { n } else { default },
                None => default,
            }
        },
        None => default,
    }
}


/// A normalized player tag holds no whitespace.
pub proof fn law_normalized_tag_has_no_whitespace(tag: Seq<char>)
    ensures
        forall|i: int|
            0 <= i < normalized_tag(tag).len() ==> !crate::text::is_ws(#[trigger] normalized_tag(tag)[i]),
{
    crate::text::law_remove_ws_leaves_none(unicode_uppercase(strip_leading(trim(tag), '#')));
}

/// A normalized clan tag starts with `#`.
pub proof fn law_clan_tag_starts_with_hash(tag: Seq<char>)
    ensures
        normalized_clan_tag(tag).len() > 0,
        normalized_clan_tag(tag)[0] == '#',
{
}

/// With a positive default, a numeric setting is always positive.
pub proof fn law_positive_setting(value: Option<Seq<char>>, default: u64)
    requires
        default > 0,
    ensures
        positive_or_default(value, default) > 0,
{
}

/// The value of a setting holds something and has no surrounding whitespace.
pub proof fn law_setting_value_trimmed(env_value: Option<Seq<char>>, embedded_value: Option<Seq<char>>)
    ensures
        setting_value(env_value, embedded_value) matches Some(v) ==> v.len() > 0 && trim(v) == v,
{
    if let Some(e) = env_value {
        crate::text::law_trim_idempotent(e);
    }
    if let Some(e) = embedded_value {
        crate::text::law_trim_idempotent(e);
    }
}

/// Normalizing an ASCII clan tag a second time changes nothing: the result
/// is ASCII, starts with `#`, and is its own normal form.
pub proof fn law_clan_tag_normalized_stable(tag: Seq<char>)
    requires
        all_ascii(tag),
    ensures
        all_ascii(ascii_normalized_clan_tag(tag)),
        ascii_normalized_clan_tag(tag)[0] == '#',
        ascii_normalized_clan_tag(ascii_normalized_clan_tag(tag)) == ascii_normalized_clan_tag(tag),
{
    let t = trim(tag);
    let x = strip_leading(t, '#');
    let u = ascii_upper(x);
    let r = ascii_normalized_clan_tag(tag);
    lemma_trim_ascii(tag);
    lemma_strip_leading_ascii(t, '#');
    lemma_strip_leading_suffix(t, '#');
    lemma_ascii_upper_facts(x);
    assert(r == seq!['#'] + u);
    assert(r.drop_first() =~= u);
    assert forall|i: int| 0 <= i < r.len() implies crate::text::is_ascii_char(#[trigger] r[i]) by {
        if i > 0 {
            assert(r[i] == u[i - 1]);
        }
    }
    // no whitespace at either end of `r`
    if u.len() > 0 {
        lemma_trim_start_front(tag);
        lemma_trim_end_back(trim_start(tag));
        assert(x.last() == t[t.len() - 1]);
        assert(!is_ws(t.last()));
        assert(!is_ws(u[u.len() - 1]));
        assert(r.last() == u[u.len() - 1]);
        // `u` does not start with `#`
        assert(x[0] != '#');
        assert(u[0] != '#');
        assert(strip_leading(u, '#') == u);
    } else {
        assert(strip_leading(u, '#') =~= u);
    }
    lemma_trim_fixed(r);
    assert(strip_leading(r, '#') == strip_leading(u, '#'));
}

/// The words that switch a flag on are exactly "1", "true", "yes" and "y".
pub proof fn law_flag_words(t: Seq<char>)
    ensures
        truthy_key(t) <==> set!["1"@, "true"@, "yes"@, "y"@].contains(t),
{
}
} // verus!
