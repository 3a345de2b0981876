//! The decisions of the automatic update: which release to fetch, which
//! download to take, which files of the updates folder to keep, and whether a
//! pending update is applied.
use vstd::prelude::*;

use crate::common::util::{get_optional_env, opt_view, setting_value, truthy, truthy_env};
use crate::text::{
    append_chars, ascii_lower, ascii_lowercase, chars_eq_str, chars_of, contains,
    contains_exec, contains_str, ends_with, ends_with_exec, slice_chars, starts_with,
    starts_with_exec, string_of, strip_leading, strip_leading_chars, trim, trim_chars,
};

verus! {

// ---------------------------------------------------------------------------
// Versions
// ---------------------------------------------------------------------------

/// Whether `semver::Version::parse` accepts the text.
pub uninterp spec fn semver_parses(text: Seq<char>) -> bool;

/// Whether the version written in `a` comes after the one written in `b` in
/// the order of `semver::Version` (both texts parsed).
pub uninterp spec fn semver_greater(a: Seq<char>, b: Seq<char>) -> bool;

/// How `semver::Version` writes the version parsed from the text.
pub uninterp spec fn semver_display(text: Seq<char>) -> Seq<char>;

/// `semver::Version::parse(text).is_ok()`. `semver::Version` derives `Ord`,
/// a total order, so no parsed version comes after itself.
#[verifier::external_body]
fn semver_valid(text: &str) -> (r: bool)
    ensures
        r == semver_parses(text@),
        r ==> !semver_greater(text@, text@),
{
    semver::Version::parse(text).is_ok()
}

/// `>` on the two parsed versions. `semver::Version` derives `Ord`, a total
/// order: of two versions at most one comes after the other, and the order
/// is transitive.
#[verifier::external_body]
fn semver_after(a: &str, b: &str) -> (r: bool)
    requires
        semver_parses(a@),
        semver_parses(b@),
    ensures
        r == semver_greater(a@, b@),
        r ==> !semver_greater(b@, a@),
        r ==> forall|c: Seq<char>|
            semver_parses(c) && #[trigger] semver_greater(c, a@) ==> semver_greater(c, b@),
        r ==> forall|c: Seq<char>|
            semver_parses(c) && #[trigger] semver_greater(b@, c) ==> semver_greater(a@, c),
{
    match (semver::Version::parse(a), semver::Version::parse(b)) {
        (Ok(x), Ok(y)) => x > y,
        _ => false,
    }
}

/// `semver::Version::parse(text)` written back with `Display`.
#[verifier::external_body]
fn semver_to_string(text: &str) -> (r: String)
    requires
        semver_parses(text@),
    ensures
        r@ == semver_display(text@),
{
    match semver::Version::parse(text) {
        Ok(v) => v.to_string(),
        Err(_) => String::new(),
    }
}

/// A version that `semver` accepts, kept as the text it was read from.
#[derive(Debug)]
pub struct SemVersion {
    text: String,
}

impl View for SemVersion {
    type V = Seq<char>;

    closed spec fn view(&self) -> Seq<char> {
        self.text@
    }
}

impl SemVersion {
    #[verifier::type_invariant]
    spec fn parses(self) -> bool {
        semver_parses(self.text@) && !semver_greater(self.text@, self.text@)
    }

    /// The version read from `text`, if `semver` accepts it.
    pub fn parse(text: &str) -> (r: Option<SemVersion>)
        ensures
            r is Some <==> semver_parses(text@),
            r matches Some(v) ==> v@ == text@ && !semver_greater(v@, v@),
    {
        if semver_valid(text) {
            Some(SemVersion { text: String::from_str(text) })
        } else {
            None
        }
    }

    /// Whether this version comes after `other`.
    pub fn is_after(&self, other: &SemVersion) -> (r: bool)
        ensures
            r == semver_greater(self@, other@),
            !semver_greater(self@, self@),
            !semver_greater(other@, other@),
            semver_parses(self@),
            semver_parses(other@),
            r ==> forall|c: Seq<char>|
                semver_parses(c) && #[trigger] semver_greater(c, self@) ==> semver_greater(c, other@),
    {
        proof {
            use_type_invariant(self);
            use_type_invariant(other);
        }
        semver_after(self.text.as_str(), other.text.as_str())
    }

    /// The version as `semver` writes it.
    pub fn to_text(&self) -> (r: String)
        ensures
            r@ == semver_display(self@),
    {
        proof {
            use_type_invariant(self);
        }
        semver_to_string(self.text.as_str())
    }
}

/// The text of a release tag without whitespace and leading `v`s, then
/// leading `V`s.
pub open spec fn version_tag_text(tag: Seq<char>) -> Seq<char> {
    strip_leading(strip_leading(trim(tag), 'v'), 'V')
}

/// The version of a tag, as an optional text: `None` when `semver` refuses it.
pub open spec fn version_of_tag(tag: Seq<char>) -> Option<Seq<char>> {
    if semver_parses(version_tag_text(tag)) {
        Some(version_tag_text(tag))
    } else {
        None
    }
}

pub open spec fn opt_version_view(o: Option<SemVersion>) -> Option<Seq<char>> {
    match o {
        Some(v) => Some(v@),
        None => None,
    }
}

/// The version of a release tag such as "v1.2.3".
pub fn normalize_version_tag(tag: &str) -> (r: Option<SemVersion>)
    ensures
        opt_version_view(r) == version_of_tag(tag@),
        r matches Some(v) ==> !semver_greater(v@, v@),
{
    let t = trim_chars(chars_of(tag).as_slice());
    let a = strip_leading_chars(t.as_slice(), 'v');
    let b = strip_leading_chars(a.as_slice(), 'V');
    let s = string_of(b.as_slice());
    SemVersion::parse(s.as_str())
}

/// Whether automatic updates are switched off: the setting holds something
/// once trimmed and it is truthy.
pub fn updates_disabled(env_value: Option<&str>, embedded_value: Option<&str>) -> (r: bool)
    ensures
        r == match setting_value(opt_view(env_value), opt_view(embedded_value)) {
            Some(v) => trim(v).len() > 0 && truthy(v),
            None => false,
        },
{
    match get_optional_env(env_value, embedded_value) {
        Some(v) => {
            let t = trim_chars(chars_of(v.as_str()).as_slice());
            t.len() > 0 && truthy_env(v.as_str())
        },
        None => {
            proof {
                reveal_strlit("");
            }
            false
        },
    }
}

// ---------------------------------------------------------------------------
// Releases and downloads
// ---------------------------------------------------------------------------

/// A file attached to a release.
#[derive(Debug, Clone)]
pub struct GithubAsset {
    pub name: String,
    pub browser_download_url: String,
}

/// A release as the GitHub API describes it.
#[derive(Debug, Clone)]
pub struct GithubRelease {
    pub tag_name: String,
    pub prerelease: bool,
    pub assets: Vec<GithubAsset>,
}

pub open spec fn asset_names(assets: Seq<GithubAsset>) -> Seq<Seq<char>> {
    assets.map_values(|a: GithubAsset| a.name@)
}

pub open spec fn is_zip_name(n: Seq<char>) -> bool {
    ends_with(ascii_lower(n), ".zip"@)
}

pub open spec fn is_windows_zip_name(n: Seq<char>) -> bool {
    is_zip_name(n) && (contains(ascii_lower(n), "windows"@) || contains(ascii_lower(n), "win"@))
}

pub open spec fn is_exe_name(n: Seq<char>) -> bool {
    ends_with(ascii_lower(n), ".exe"@)
}

/// The position of the last name that satisfies `p`.
pub open spec fn last_where(s: Seq<Seq<char>>, p: spec_fn(Seq<char>) -> bool) -> Option<int>
    decreases s.len(),
{
    if s.len() == 0 {
        None
    } else if p(s.last()) {
        Some(s.len() - 1)
    } else {
        last_where(s.drop_last(), p)
    }
}

/// The position of the first name that satisfies `p`.
pub open spec fn first_where(s: Seq<Seq<char>>, p: spec_fn(Seq<char>) -> bool) -> Option<int>
    decreases s.len(),
{
    if s.len() == 0 {
        None
    } else {
        match first_where(s.drop_last(), p) {
            Some(i) => Some(i),
            None => if p(s.last()) {
                Some(s.len() - 1)
            } else {
                None
            },
        }
    }
}

/// The download for Windows: the last ZIP whose name mentions Windows, else
/// the first ZIP, else the first `.exe` (names compared in ASCII lower case).
pub open spec fn windows_asset(names: Seq<Seq<char>>) -> Option<int> {
    match last_where(names, |n: Seq<char>| is_windows_zip_name(n)) {
        Some(i) => Some(i),
        None => match first_where(names, |n: Seq<char>| is_zip_name(n)) {
            Some(i) => Some(i),
            None => first_where(names, |n: Seq<char>| is_exe_name(n)),
        },
    }
}

fn name_ends_with(lower: &[char], lit: &str) -> (r: bool)
    ensures
        r == ends_with(lower@, lit@),
{
    let p = chars_of(lit);
    ends_with_exec(lower, p.as_slice())
}

/// The position of the download to take for Windows (see `windows_asset`).
pub fn pick_asset_for_windows(assets: &[GithubAsset]) -> (r: Option<usize>)
    ensures
        match r {
            Some(i) => windows_asset(asset_names(assets@)) == Some(i as int),
            None => windows_asset(asset_names(assets@)) is None,
        },
{
    let ghost names = asset_names(assets@);
    let ghost pw = |n: Seq<char>| is_windows_zip_name(n);
    let ghost pz = |n: Seq<char>| is_zip_name(n);
    let ghost pe = |n: Seq<char>| is_exe_name(n);
    let mut best_zip_windows: Option<usize> = None;
    let mut any_zip: Option<usize> = None;
    let mut any_exe: Option<usize> = None;
    let n = assets.len();
    for i in 0..n
        invariant
            n == assets@.len(),
            names == asset_names(assets@),
            pw == (|n: Seq<char>| is_windows_zip_name(n)),
            pz == (|n: Seq<char>| is_zip_name(n)),
            pe == (|n: Seq<char>| is_exe_name(n)),
            best_zip_windows matches Some(k) ==> last_where(names.take(i as int), pw) == Some(
                k as int,
            ),
            best_zip_windows is None ==> last_where(names.take(i as int), pw) is None,
            any_zip matches Some(k) ==> first_where(names.take(i as int), pz) == Some(k as int),
            any_zip is None ==> first_where(names.take(i as int), pz) is None,
            any_exe matches Some(k) ==> first_where(names.take(i as int), pe) == Some(k as int),
            any_exe is None ==> first_where(names.take(i as int), pe) is None,
    {
        let lower = ascii_lowercase(chars_of(assets[i].name.as_str()).as_slice());
        let l = lower.as_slice();
        proof {
            assert(names.take(i + 1).drop_last() =~= names.take(i as int));
            assert(names.take(i + 1).last() == assets@[i as int].name@);
        }
        if name_ends_with(l, ".zip") {
            if contains_str(l, "windows") || contains_str(l, "win") {
                best_zip_windows = Some(i);
            }
            if any_zip.is_none() {
                any_zip = Some(i);
            }
        }
        if name_ends_with(l, ".exe") {
            if any_exe.is_none() {
                any_exe = Some(i);
            }
        }
    }
    proof {
        assert(names.take(n as int) =~= names);
    }
    match best_zip_windows {
        Some(k) => Some(k),
        None => match any_zip {
            Some(k) => Some(k),
            None => any_exe,
        },
    }
}

/// The extension given to a downloaded file: "zip", "exe" or "bin".
pub open spec fn download_extension(name: Seq<char>) -> Seq<char> {
    if is_zip_name(name) {
        "zip"@
    } else if is_exe_name(name) {
        "exe"@
    } else {
        "bin"@
    }
}

/// The extension to give to the download of an asset.
pub fn asset_extension(name: &str) -> (r: &'static str)
    ensures
        r@ == download_extension(name@),
{
    let lower = ascii_lowercase(chars_of(name).as_slice());
    if name_ends_with(lower.as_slice(), ".zip") {
        "zip"
    } else if name_ends_with(lower.as_slice(), ".exe") {
        "exe"
    } else {
        "bin"
    }
}

/// The entry of a downloaded ZIP to extract: the first `.exe` whose name
/// mentions ClashRPC, else the first `.exe` (names compared in ASCII lower case).
pub open spec fn zip_exe_entry(names: Seq<Seq<char>>) -> Option<int> {
    match first_where(
        names,
        |n: Seq<char>| is_exe_name(n) && contains(ascii_lower(n), "clashrpc"@),
    ) {
        Some(i) => Some(i),
        None => first_where(names, |n: Seq<char>| is_exe_name(n)),
    }
}

/// The position of the ZIP entry to extract (see `zip_exe_entry`).
pub fn pick_zip_exe(names: &[String]) -> (r: Option<usize>)
    ensures
        match r {
            Some(i) => zip_exe_entry(names@.map_values(|s: String| s@)) == Some(i as int),
            None => zip_exe_entry(names@.map_values(|s: String| s@)) is None,
        },
{
    let ghost ns = names@.map_values(|s: String| s@);
    let ghost pc = |n: Seq<char>| is_exe_name(n) && contains(ascii_lower(n), "clashrpc"@);
    let ghost pe = |n: Seq<char>| is_exe_name(n);
    let mut named: Option<usize> = None;
    let mut any_exe: Option<usize> = None;
    let n = names.len();
    for i in 0..n
        invariant
            n == names@.len(),
            ns == names@.map_values(|s: String| s@),
            pc == (|n: Seq<char>| is_exe_name(n) && contains(ascii_lower(n), "clashrpc"@)),
            pe == (|n: Seq<char>| is_exe_name(n)),
            named matches Some(k) ==> first_where(ns.take(i as int), pc) == Some(k as int),
            named is None ==> first_where(ns.take(i as int), pc) is None,
            any_exe matches Some(k) ==> first_where(ns.take(i as int), pe) == Some(k as int),
            any_exe is None ==> first_where(ns.take(i as int), pe) is None,
    {
        let lower = ascii_lowercase(chars_of(names[i].as_str()).as_slice());
        let l = lower.as_slice();
        proof {
            assert(ns.take(i + 1).drop_last() =~= ns.take(i as int));
            assert(ns.take(i + 1).last() == names@[i as int]@);
        }
        if name_ends_with(l, ".exe") {
            if named.is_none() && contains_str(l, "clashrpc") {
                named = Some(i);
            }
            if any_exe.is_none() {
                any_exe = Some(i);
            }
        }
    }
    proof {
        assert(ns.take(n as int) =~= ns);
    }
    match named {
        Some(k) => Some(k),
        None => any_exe,
    }
}

// ---------------------------------------------------------------------------
// The updates folder
// ---------------------------------------------------------------------------

/// The version in the name of a file of the updates folder:
/// "ClashRPC-<version>.exe" or "download-<version>.zip|.exe|.bin" (prefix and
/// extension in any ASCII case).
pub open spec fn version_in_filename(name: Seq<char>) -> Option<Seq<char>> {
    let lower = ascii_lower(name);
    if starts_with(lower, "clashrpc-"@) && ends_with(lower, ".exe"@) {
        version_of_tag(name.subrange(9, name.len() - 4))
    } else if starts_with(lower, "download-"@) && (ends_with(lower, ".zip"@) || ends_with(
        lower,
        ".exe"@,
    ) || ends_with(lower, ".bin"@)) {
        version_of_tag(name.subrange(9, name.len() - 4))
    } else {
        None
    }
}

/// A name that starts with a 9-character prefix ending in `-` and ends with
/// a 4-character suffix starting with `.` is at least 13 characters long.
proof fn lemma_prefix_suffix_apart(lower: Seq<char>, pre: Seq<char>, suf: Seq<char>)
    requires
        starts_with(lower, pre),
        ends_with(lower, suf),
        pre.len() == 9,
        forall|j: int| 0 <= j < 9 ==> #[trigger] pre[j] != '.',
        suf.len() == 4,
        suf[0] == '.',
    ensures
        lower.len() >= 13,
{
    if lower.len() < 13 {
        let k = lower.len() - 4;
        assert(lower.skip(k)[0] == suf[0]);
        assert(lower.take(9)[k] == pre[k]);
        assert(lower[k] == pre[k]);
        assert(lower[k] == '.');
    }
}

/// The version in the name of a file of the updates folder.
pub fn version_from_filename(name: &str) -> (r: Option<SemVersion>)
    ensures
        opt_version_view(r) == version_in_filename(name@),
        r matches Some(v) ==> !semver_greater(v@, v@),
{
    let c = chars_of(name);
    let lv = ascii_lowercase(c.as_slice());
    let l = lv.as_slice();
    let cp = chars_of("clashrpc-");
    let dp = chars_of("download-");
    proof {
        reveal_strlit("clashrpc-");
        reveal_strlit("download-");
        reveal_strlit(".exe");
        reveal_strlit(".zip");
        reveal_strlit(".bin");
    }
    if starts_with_exec(l, cp.as_slice()) && name_ends_with(l, ".exe") {
        proof {
            lemma_prefix_suffix_apart(lv@, cp@, ".exe"@);
        }
        let v = slice_chars(c.as_slice(), 9, c.len() - 4);
        return normalize_version_tag(string_of(v.as_slice()).as_str());
    }
    if starts_with_exec(l, dp.as_slice()) {
        let z = name_ends_with(l, ".zip");
        let e = name_ends_with(l, ".exe");
        let b = name_ends_with(l, ".bin");
        if z || e || b {
            proof {
                if z {
                    lemma_prefix_suffix_apart(lv@, dp@, ".zip"@);
                } else if e {
                    lemma_prefix_suffix_apart(lv@, dp@, ".exe"@);
                } else {
                    lemma_prefix_suffix_apart(lv@, dp@, ".bin"@);
                }
            }
            let v = slice_chars(c.as_slice(), 9, c.len() - 4);
            return normalize_version_tag(string_of(v.as_slice()).as_str());
        }
    }
    None
}

/// The newest of the optional version `keep` and the version `v`, `keep`
/// winning unless `v` comes after it.
pub open spec fn newer_of(keep: Option<Seq<char>>, v: Seq<char>) -> Option<Seq<char>> {
    match keep {
        Some(cur) => if semver_greater(v, cur) {
            Some(v)
        } else {
            Some(cur)
        },
        None => Some(v),
    }
}

/// The version to keep in the updates folder: starting from the pending
/// version, each file name that holds a version replaces it when it is newer.
pub open spec fn newest_of(start: Option<Seq<char>>, names: Seq<Seq<char>>) -> Option<Seq<char>>
    decreases names.len(),
{
    if names.len() == 0 {
        start
    } else {
        let keep = newest_of(start, names.drop_last());
        match version_in_filename(names.last()) {
            Some(v) => newer_of(keep, v),
            None => keep,
        }
    }
}

/// The version whose files the updates folder keeps (see `newest_of`): the
/// pending version and the versions in the names of its files.
pub fn newest_update_version(pending_version: Option<&str>, names: &[String]) -> (r: Option<SemVersion>)
    ensures
        opt_version_view(r) == newest_of(
            match pending_version {
                Some(p) => version_of_tag(p@),
                None => None,
            },
            names@.map_values(|s: String| s@),
        ),
        r matches Some(k) ==> forall|i: int|
            0 <= i < names@.len() && #[trigger] version_in_filename(names@[i]@) is Some
                ==> !semver_greater(version_in_filename(names@[i]@)->0, k@),
        r matches Some(k) ==> (pending_version matches Some(p) && version_of_tag(p@) is Some)
            ==> !semver_greater(version_of_tag(pending_version->0@)->0, k@),
{
    let ghost ns = names@.map_values(|s: String| s@);
    let ghost start = match pending_version {
        Some(p) => version_of_tag(p@),
        None => None,
    };
    let mut keep: Option<SemVersion> = match pending_version {
        Some(p) => normalize_version_tag(p),
        None => None,
    };
    let n = names.len();
    for i in 0..n
        invariant
            n == names@.len(),
            ns == names@.map_values(|s: String| s@),
            opt_version_view(keep) == newest_of(start, ns.take(i as int)),
            keep matches Some(k) ==> !semver_greater(k@, k@),
            keep matches Some(k) ==> forall|j: int|
                0 <= j < i && #[trigger] version_in_filename(names@[j]@) is Some
                    ==> !semver_greater(version_in_filename(names@[j]@)->0, k@),
            keep matches Some(k) ==> start matches Some(p) ==> !semver_greater(p, k@),
            start is Some ==> keep is Some,
            start matches Some(p) ==> semver_parses(p),
            keep is None ==> forall|j: int|
                0 <= j < i ==> #[trigger] version_in_filename(names@[j]@) is None,
    {
        proof {
            assert(ns.take(i + 1).drop_last() =~= ns.take(i as int));
            assert(ns.take(i + 1).last() == names@[i as int]@);
        }
        match version_from_filename(names[i].as_str()) {
            Some(v) => {
                match &keep {
                    Some(cur) => {
                        if v.is_after(cur) {
                            proof {
                                assert forall|j: int|
                                    0 <= j < i + 1 && #[trigger] version_in_filename(
                                        names@[j]@,
                                    ) is Some implies !semver_greater(
                                    version_in_filename(names@[j]@)->0,
                                    v@,
                                ) by {
                                    if j < i {
                                        let w = version_in_filename(names@[j]@)->0;
                                        assert(!semver_greater(w, cur@));
                                    }
                                }
                                if let Some(p) = start {
                                    assert(!semver_greater(p, cur@));
                                    assert(!semver_greater(p, v@));
                                }
                            }
                            keep = Some(v);
                        }
                    },
                    None => {
                        keep = Some(v);
                    },
                }
            },
            None => {},
        }
    }
    proof {
        assert(ns.take(n as int) =~= ns);
    }
    keep
}

/// A file of the updates folder is deleted unless it is the pending-update
/// manifest, the apply script, the pending executable, or its name holds the
/// kept version.
pub open spec fn update_file_removable(name: Seq<char>, is_pending_exe: bool, version_text: Seq<char>) -> bool {
    !(name == "pending.json"@ || name == "apply_update.bat"@ || is_pending_exe || contains(
        name,
        version_text,
    ))
}

/// Whether a file of the updates folder is deleted (see `update_file_removable`).
pub fn is_update_file_removable(name: &str, is_pending_exe: bool, version_text: &str) -> (r: bool)
    ensures
        r == update_file_removable(name@, is_pending_exe, version_text@),
{
    let c = chars_of(name);
    let v = chars_of(version_text);
    !(chars_eq_str(c.as_slice(), "pending.json") || chars_eq_str(c.as_slice(), "apply_update.bat")
        || is_pending_exe || contains_exec(c.as_slice(), v.as_slice()))
}

/// `\\?\UNC\server\share` becomes `\\server\share` and `\\?\C:\x` becomes
/// `C:\x`; other paths are kept.
pub open spec fn without_verbatim_prefix(path: Seq<char>) -> Seq<char> {
    if starts_with(path, "\\\\?\\UNC\\"@) {
        "\\\\"@ + path.skip(8)
    } else if starts_with(path, "\\\\?\\"@) {
        path.skip(4)
    } else {
        path
    }
}

/// A Windows path without its verbatim prefix (see `without_verbatim_prefix`).
pub fn strip_windows_verbatim_prefix(path: &str) -> (r: String)
    ensures
        r@ == without_verbatim_prefix(path@),
{
    let c = chars_of(path);
    let unc = chars_of("\\\\?\\UNC\\");
    let plain = chars_of("\\\\?\\");
    proof {
        reveal_strlit("\\\\?\\UNC\\");
        reveal_strlit("\\\\?\\");
    }
    if starts_with_exec(c.as_slice(), unc.as_slice()) {
        let mut r = String::from_str("\\\\");
        let rest = slice_chars(c.as_slice(), 8, c.len());
        append_chars(&mut r, rest.as_slice());
        proof {
            assert(rest@ =~= path@.skip(8));
        }
        return r;
    }
    if starts_with_exec(c.as_slice(), plain.as_slice()) {
        let rest = slice_chars(c.as_slice(), 4, c.len());
        proof {
            assert(rest@ =~= path@.skip(4));
        }
        return string_of(rest.as_slice());
    }
    string_of(c.as_slice())
}

// ---------------------------------------------------------------------------
// Pending updates and checks
// ---------------------------------------------------------------------------

/// What to do with a pending update at start-up.
#[derive(Debug)]
pub enum PendingPlan {
    /// Nothing: updates are off, nothing is pending, or a version is unreadable.
    Nothing,
    /// The pending version is not newer than the running one: drop the manifest.
    Discard,
    /// The pending version is newer and its file is there: apply it.
    Apply(SemVersion),
    /// The pending version is newer but its file is gone: drop the manifest
    /// (the next check downloads it again).
    Missing,
}

/// The plan for a pending update.
pub open spec fn pending_plan(disabled: bool, current: Seq<char>, pending: Option<Seq<char>>) -> Option<Option<Seq<char>>> {
    if disabled || pending is None {
        None
    } else {
        match (version_of_tag(current), version_of_tag(pending->0)) {
            (Some(c), Some(p)) => if semver_greater(p, c) {
                Some(Some(p))
            } else {
                Some(None)
            },
            _ => None,
        }
    }
}

/// Decides what to do with the pending update whose version is
/// `pending_version` and whose file exists when `exe_exists` (see
/// `pending_plan`: `None` is nothing to do, `Some(None)` is discard,
/// `Some(Some(v))` is apply version `v`, if its file is there).
pub fn plan_pending_update(
    disabled: bool,
    current_version: &str,
    pending_version: Option<&str>,
    exe_exists: bool,
) -> (r: PendingPlan)
    ensures
        match r {
            PendingPlan::Nothing => pending_plan(disabled, current_version@, opt_view(pending_version))
                is None,
            PendingPlan::Discard => pending_plan(disabled, current_version@, opt_view(pending_version))
                == Some(None::<Seq<char>>),
            PendingPlan::Apply(v) => pending_plan(disabled, current_version@, opt_view(pending_version))
                == Some(Some(v@)) && exe_exists,
            PendingPlan::Missing => pending_plan(disabled, current_version@, opt_view(pending_version))
                matches Some(Some(_)) && !exe_exists,
        },
{
    if disabled {
        return PendingPlan::Nothing;
    }
    let p = match pending_version {
        Some(p) => p,
        None => return PendingPlan::Nothing,
    };
    let cur = match normalize_version_tag(current_version) {
        Some(c) => c,
        None => return PendingPlan::Nothing,
    };
    let pend = match normalize_version_tag(p) {
        Some(v) => v,
        None => return PendingPlan::Nothing,
    };
    if !pend.is_after(&cur) {
        PendingPlan::Discard
    } else if exe_exists {
        PendingPlan::Apply(pend)
    } else {
        PendingPlan::Missing
    }
}

/// Whether to ask GitHub for the latest release: not when updates are off,
/// the running version is unreadable, or a newer update already waits. The
/// running version is returned when the check goes ahead.
pub open spec fn check_needed(disabled: bool, current: Seq<char>, pending: Option<Seq<char>>) -> Option<Seq<char>> {
    if disabled {
        None
    } else {
        match version_of_tag(current) {
            None => None,
            Some(c) => match pending {
                Some(p) => match version_of_tag(p) {
                    Some(pv) => if semver_greater(pv, c) {
                        None
                    } else {
                        Some(c)
                    },
                    None => Some(c),
                },
                None => Some(c),
            },
        }
    }
}

/// Decides whether to look for a new release (see `check_needed`).
pub fn plan_update_check(disabled: bool, current_version: &str, pending_version: Option<&str>) -> (r: Option<SemVersion>)
    ensures
        opt_version_view(r) == check_needed(disabled, current_version@, opt_view(pending_version)),
{
    if disabled {
        return None;
    }
    let cur = match normalize_version_tag(current_version) {
        Some(c) => c,
        None => return None,
    };
    if let Some(p) = pending_version {
        if let Some(pv) = normalize_version_tag(p) {
            if pv.is_after(&cur) {
                return None;
            }
        }
    }
    Some(cur)
}

/// What to do with the latest release.
#[derive(Debug)]
pub enum ReleasePlan {
    /// No newer release to take (a pre-release, an unreadable tag, or not newer).
    UpToDate,
    /// The release is newer but has no file to download.
    NoAsset,
    /// Download asset number `asset` of the release, version `version`, into
    /// `download_name`; the executable is then `exe_name`, taken out of the
    /// download when `unzip` (the download is a ZIP) and copied otherwise.
    Download { asset: usize, version: SemVersion, download_name: String, exe_name: String, unzip: bool },
}

/// "download-<version>.<ext>".
pub open spec fn download_file_name(version: Seq<char>, ext: Seq<char>) -> Seq<char> {
    "download-"@ + semver_display(version) + "."@ + ext
}

/// "ClashRPC-<version>.exe".
pub open spec fn exe_file_name(version: Seq<char>) -> Seq<char> {
    "ClashRPC-"@ + semver_display(version) + ".exe"@
}

/// Decides what to take from the latest release, for a running version `current`.
pub fn plan_release(current: &SemVersion, release: &GithubRelease) -> (r: ReleasePlan)
    ensures
        match r {
            ReleasePlan::UpToDate => release.prerelease || version_of_tag(release.tag_name@) is None
                || !semver_greater(version_of_tag(release.tag_name@)->0, current@),
            ReleasePlan::NoAsset => !release.prerelease && version_of_tag(release.tag_name@) is Some
                && semver_greater(version_of_tag(release.tag_name@)->0, current@) && windows_asset(
                asset_names(release.assets@),
            ) is None,
            ReleasePlan::Download { asset, version, download_name, exe_name, unzip } => {
                &&& !release.prerelease
                &&& version_of_tag(release.tag_name@) == Some(version@)
                &&& semver_greater(version@, current@)
                &&& windows_asset(asset_names(release.assets@)) == Some(asset as int)
                &&& download_name@ == download_file_name(
                    version@,
                    download_extension(release.assets@[asset as int].name@),
                )
                &&& exe_name@ == exe_file_name(version@)
                &&& unzip == is_zip_name(release.assets@[asset as int].name@)
                &&& unzip == ends_with(download_name@, ".zip"@)
            },
        },
{
    if release.prerelease {
        return ReleasePlan::UpToDate;
    }
    let latest = match normalize_version_tag(release.tag_name.as_str()) {
        Some(v) => v,
        None => return ReleasePlan::UpToDate,
    };
    if !latest.is_after(current) {
        return ReleasePlan::UpToDate;
    }
    let asset = match pick_asset_for_windows(release.assets.as_slice()) {
        Some(i) => i,
        None => return ReleasePlan::NoAsset,
    };
    proof {
        assert(asset_names(release.assets@).len() == release.assets@.len());
        lemma_first_last_in_range(asset_names(release.assets@));
    }
    let ext = asset_extension(release.assets[asset].name.as_str());
    let lower = ascii_lowercase(chars_of(release.assets[asset].name.as_str()).as_slice());
    let unzip = name_ends_with(lower.as_slice(), ".zip");
    let vt = latest.to_text();
    let mut download_name = String::from_str("download-");
    download_name.append(vt.as_str());
    download_name.append(".");
    download_name.append(ext);
    proof {
        reveal_strlit("zip");
        reveal_strlit("exe");
        reveal_strlit("bin");
        let nm = release.assets@[asset as int].name@;
        assert(lower@ == ascii_lower(nm));
        assert(unzip == is_zip_name(nm));
        assert(ext@ == download_extension(nm));
        assert("exe"@[0] != "zip"@[0] && "bin"@[0] != "zip"@[0]);
        assert(ext@ == "zip"@ <==> unzip);
        lemma_download_name_zip("download-"@ + vt@, ext@);
        assert(download_name@ =~= "download-"@ + vt@ + "."@ + ext@);
    }
    let mut exe_name = String::from_str("ClashRPC-");
    exe_name.append(vt.as_str());
    exe_name.append(".exe");
    ReleasePlan::Download { asset, version: latest, download_name, exe_name, unzip }
}

/// A download name that ends in `.` and one of the three extensions ends in
/// `.zip` exactly when the extension is "zip".
proof fn lemma_download_name_zip(front: Seq<char>, ext: Seq<char>)
    requires
        ext == "zip"@ || ext == "exe"@ || ext == "bin"@,
    ensures
        ends_with(front + "."@ + ext, ".zip"@) <==> ext == "zip"@,
{
    reveal_strlit(".");
    reveal_strlit(".zip");
    reveal_strlit("zip");
    reveal_strlit("exe");
    reveal_strlit("bin");
    let d = front + "."@ + ext;
    assert(d.skip(d.len() - 4) =~= "."@ + ext);
    if ext != "zip"@ {
        assert(("."@ + ext)[1] != ".zip"@[1]);
    } else {
        assert("."@ + ext =~= ".zip"@);
    }
}

/// The positions that `windows_asset` gives lie within the list.
proof fn lemma_first_last_in_range(names: Seq<Seq<char>>)
    ensures
        windows_asset(names) matches Some(i) ==> 0 <= i < names.len(),
{
    lemma_where_in_range(names, |n: Seq<char>| is_windows_zip_name(n));
    lemma_where_in_range(names, |n: Seq<char>| is_zip_name(n));
    lemma_where_in_range(names, |n: Seq<char>| is_exe_name(n));
}

proof fn lemma_where_in_range(s: Seq<Seq<char>>, p: spec_fn(Seq<char>) -> bool)
    ensures
        last_where(s, p) matches Some(i) ==> 0 <= i < s.len() && p(s[i]),
        first_where(s, p) matches Some(i) ==> 0 <= i < s.len() && p(s[i]),
    decreases s.len(),
{
    if s.len() > 0 {
        lemma_where_in_range(s.drop_last(), p);
    }
}


/// With updates on and a readable running version, GitHub is asked, for
/// that running version, unless a pending update is newer; with updates off
/// or an unreadable running version it never is. The check is skipped
/// exactly when the pending update is one to apply.
pub proof fn law_update_check_goes_ahead(disabled: bool, current: Seq<char>, pending: Option<Seq<char>>)
    ensures
        disabled || version_of_tag(current) is None ==> check_needed(disabled, current, pending) is None,
        check_needed(disabled, current, pending) is Some ==> check_needed(disabled, current, pending)
            == version_of_tag(current),
        !disabled && version_of_tag(current) is Some && pending is None ==> check_needed(
            disabled,
            current,
            pending,
        ) == version_of_tag(current),
        !disabled && version_of_tag(current) is Some && (pending matches Some(p) && (version_of_tag(p) is None
            || !semver_greater(version_of_tag(p)->0, version_of_tag(current)->0))) ==> check_needed(
            disabled,
            current,
            pending,
        ) == version_of_tag(current),
        !disabled && version_of_tag(current) is Some ==> (check_needed(disabled, current, pending) is None
            <==> pending_plan(disabled, current, pending) matches Some(Some(_))),
{
}

/// `last_where` finds the last position that satisfies `p`, and nothing when
/// none does; `first_where` the first.
proof fn lemma_where_exact(s: Seq<Seq<char>>, p: spec_fn(Seq<char>) -> bool)
    ensures
        last_where(s, p) matches Some(i) ==> 0 <= i < s.len() && p(s[i]) && forall|j: int|
            i < j < s.len() ==> !p(#[trigger] s[j]),
        last_where(s, p) is None ==> forall|j: int| 0 <= j < s.len() ==> !p(#[trigger] s[j]),
        first_where(s, p) matches Some(i) ==> 0 <= i < s.len() && p(s[i]) && forall|j: int|
            0 <= j < i ==> !p(#[trigger] s[j]),
        first_where(s, p) is None ==> forall|j: int| 0 <= j < s.len() ==> !p(#[trigger] s[j]),
    decreases s.len(),
{
    if s.len() > 0 {
        let r = s.drop_last();
        lemma_where_exact(r, p);
        assert forall|j: int| 0 <= j < r.len() implies r[j] == s[j] by {}
    }
}

/// The download for Windows: the last ZIP whose name mentions Windows when
/// there is one, else the first ZIP, else the first executable, else none.
pub proof fn law_windows_asset_choice(names: Seq<Seq<char>>)
    ensures
        windows_asset(names) matches Some(i) ==> 0 <= i < names.len(),
        (exists|j: int| 0 <= j < names.len() && is_windows_zip_name(#[trigger] names[j]))
            ==> (windows_asset(names) matches Some(i) && is_windows_zip_name(names[i]) && forall|j: int|
            i < j < names.len() ==> !is_windows_zip_name(#[trigger] names[j])),
        (forall|j: int| 0 <= j < names.len() ==> !is_windows_zip_name(#[trigger] names[j])) && (exists|j: int|
            0 <= j < names.len() && is_zip_name(#[trigger] names[j])) ==> (windows_asset(names) matches Some(i)
            && is_zip_name(names[i]) && forall|j: int| 0 <= j < i ==> !is_zip_name(#[trigger] names[j])),
        (forall|j: int| 0 <= j < names.len() ==> !is_zip_name(#[trigger] names[j])) && (exists|j: int|
            0 <= j < names.len() && is_exe_name(#[trigger] names[j])) ==> (windows_asset(names) matches Some(i)
            && is_exe_name(names[i]) && forall|j: int| 0 <= j < i ==> !is_exe_name(#[trigger] names[j])),
        (forall|j: int| 0 <= j < names.len() ==> !is_zip_name(#[trigger] names[j]) && !is_exe_name(names[j]))
            ==> windows_asset(names) is None,
{
    let pw = |n: Seq<char>| is_windows_zip_name(n);
    let pz = |n: Seq<char>| is_zip_name(n);
    let pe = |n: Seq<char>| is_exe_name(n);
    lemma_where_exact(names, pw);
    lemma_where_exact(names, pz);
    lemma_where_exact(names, pe);
    assert forall|j: int| 0 <= j < names.len() implies (pw(names[j]) == is_windows_zip_name(names[j])
        && pz(names[j]) == is_zip_name(names[j]) && pe(names[j]) == is_exe_name(names[j])) by {}
    // a ZIP that mentions Windows is a ZIP
    assert forall|j: int| 0 <= j < names.len() && is_windows_zip_name(names[j]) implies is_zip_name(
        #[trigger] names[j],
    ) by {}
}

/// A ZIP is downloaded as ".zip", an executable as ".exe", anything else as
/// ".bin"; the name is compared in ASCII lower case.
pub proof fn law_download_extension(name: Seq<char>)
    ensures
        ends_with(ascii_lower(name), ".zip"@) ==> download_extension(name) == "zip"@,
        !ends_with(ascii_lower(name), ".zip"@) && ends_with(ascii_lower(name), ".exe"@) ==> download_extension(
            name,
        ) == "exe"@,
        !ends_with(ascii_lower(name), ".zip"@) && !ends_with(ascii_lower(name), ".exe"@) ==> download_extension(
            name,
        ) == "bin"@,
{
}
} // verus!
