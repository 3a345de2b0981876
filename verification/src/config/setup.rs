//! The decisions of the first-run setup: checking the settings, choosing the
//! API key, asking for the player tag and for the clan's invitation link.
use vstd::prelude::*;

use crate::common::util::{normalize_clan_tag, normalize_tag, normalized_clan_tag, normalized_tag};
use crate::config::AppConfig;
use crate::cr::models::Clan;
use crate::text::{
    all_digits, chars_eq, chars_eq_str, chars_of, is_digit, starts_with, starts_with_exec,
    string_of, to_lowercase, trim, trim_chars, unicode_lowercase, all_ascii, ascii_lower,
};

verus! {

// ---------------------------------------------------------------------------
// Checking the settings
// ---------------------------------------------------------------------------

/// A setting that makes the application stop.
#[derive(Debug, Clone, Copy, PartialEq, Eq, Structural)]
pub enum ConfigError {
    /// `rust_env` is none of the known environments.
    InvalidEnv,
    /// The Discord client id holds something other than digits.
    InvalidClientId,
    /// There is no Clash Royale API key.
    MissingApiKey,
}

impl ConfigError {
    /// The message shown before stopping.
    pub fn message(&self) -> (r: &'static str)
        ensures
            r@ == config_error_message(*self),
    {
        match self {
            ConfigError::InvalidEnv => "El entorno no es válido. Valores válidos: 'development', 'production', 'test', 'release'.",
            ConfigError::InvalidClientId => "El 'DISCORD_CLIENT_ID' no es válido.",
            ConfigError::MissingApiKey => "Falta la API key de Clash Royale.",
        }
    }
}

pub open spec fn config_error_message(e: ConfigError) -> Seq<char> {
    match e {
        ConfigError::InvalidEnv => "El entorno no es válido. Valores válidos: 'development', 'production', 'test', 'release'."@,
        ConfigError::InvalidClientId => "El 'DISCORD_CLIENT_ID' no es válido."@,
        ConfigError::MissingApiKey => "Falta la API key de Clash Royale."@,
    }
}

/// `rust_env`, lower-cased, names one of the environments the application knows.
pub open spec fn env_valid(rust_env: Seq<char>) -> bool {
    env_name_known(unicode_lowercase(rust_env))
}

/// `l` is the lower-case name of an environment the application knows.
pub open spec fn env_name_known(l: Seq<char>) -> bool {
    l == "development"@ || l == "production"@ || l == "test"@ || l == "release"@
}

/// The outcome of checking the settings: the first of the three checks that fails.
pub open spec fn config_check(rust_env: Seq<char>, client_id: Seq<char>, api_key: Seq<char>) -> Result<(), ConfigError> {
    if !env_valid(rust_env) {
        Err(ConfigError::InvalidEnv)
    } else if !all_digits(client_id) {
        Err(ConfigError::InvalidClientId)
    } else if trim(api_key).len() == 0 {
        Err(ConfigError::MissingApiKey)
    } else {
        Ok(())
    }
}

/// Checks the environment name, the Discord client id and the API key.
pub fn verify_config(rust_env: &str, discord_client_id: &str, api_key: &str) -> (r: Result<(), ConfigError>)
    ensures
        r == config_check(rust_env@, discord_client_id@, api_key@),
        all_ascii(rust_env@) ==> (r == Err::<(), ConfigError>(ConfigError::InvalidEnv)
            <==> !env_name_known(ascii_lower(rust_env@))),
{
    let lower = to_lowercase(rust_env);
    let lv = chars_of(lower.as_str());
    let l = lv.as_slice();
    if !(chars_eq_str(l, "development") || chars_eq_str(l, "production") || chars_eq_str(l, "test")
        || chars_eq_str(l, "release")) {
        return Err(ConfigError::InvalidEnv);
    }
    let id = chars_of(discord_client_id);
    let n = id.len();
    for i in 0..n
        invariant
            n == id@.len(),
            id@ == discord_client_id@,
            env_valid(rust_env@),
            all_ascii(rust_env@) ==> env_name_known(ascii_lower(rust_env@)),
            forall|j: int| 0 <= j < i ==> crate::text::is_ascii_digit(#[trigger] id@[j]),
    {
        if !is_digit(id[i]) {
            return Err(ConfigError::InvalidClientId);
        }
    }
    let key = trim_chars(chars_of(api_key).as_slice());
    if key.len() == 0 {
        return Err(ConfigError::MissingApiKey);
    }
    Ok(())
}

// ---------------------------------------------------------------------------
// The API key
// ---------------------------------------------------------------------------

/// Where the API key comes from.
#[derive(Debug, Clone)]
pub enum ApiKeySource {
    /// A key found in the settings or the configuration.
    Found(String),
    /// The key must be asked for.
    Ask,
    /// There is no key, and it is not asked for.
    Missing,
}

/// A value that holds something once trimmed, trimmed.
pub open spec fn filled(o: Option<Seq<char>>) -> Option<Seq<char>> {
    match o {
        Some(v) => if trim(v).len() > 0 { Some(trim(v)) } else { None },
        None => None,
    }
}

pub open spec fn opt_view(o: Option<&str>) -> Option<Seq<char>> {
    match o {
        Some(s) => Some(s@),
        None => None,
    }
}

pub open spec fn opt_string_view(o: Option<String>) -> Option<Seq<char>> {
    match o {
        Some(s) => Some(s@),
        None => None,
    }
}

/// The key to use: in release mode the saved key, else it is asked for;
/// otherwise the environment's key, else the saved key, else none.
pub open spec fn api_key_choice(release: bool, env_key: Option<Seq<char>>, saved_key: Option<Seq<char>>) -> Option<Seq<char>> {
    if release {
        filled(saved_key)
    } else if filled(env_key) is Some {
        filled(env_key)
    } else {
        filled(saved_key)
    }
}

fn filled_exec(o: Option<&str>) -> (r: Option<String>)
    ensures
        match r {
            Some(s) => filled(opt_view(o)) == Some(s@),
            None => filled(opt_view(o)) is None,
        },
{
    match o {
        Some(v) => {
            let t = trim_chars(chars_of(v).as_slice());
            if t.len() > 0 {
                Some(string_of(t.as_slice()))
            } else {
                None
            }
        },
        None => None,
    }
}

/// Chooses the API key (see `api_key_choice`); without one, release mode
/// asks for it and other modes stop.
pub fn get_api_key(release: bool, env_key: Option<&str>, saved_key: Option<&str>) -> (r: ApiKeySource)
    ensures
        match r {
            ApiKeySource::Found(k) => api_key_choice(release, opt_view(env_key), opt_view(saved_key)) == Some(k@),
            ApiKeySource::Ask => release && api_key_choice(release, opt_view(env_key), opt_view(saved_key)) is None,
            ApiKeySource::Missing => !release && api_key_choice(release, opt_view(env_key), opt_view(saved_key)) is None,
        },
{
    if release {
        return match filled_exec(saved_key) {
            Some(k) => ApiKeySource::Found(k),
            None => ApiKeySource::Ask,
        };
    }
    if let Some(k) = filled_exec(env_key) {
        return ApiKeySource::Found(k);
    }
    match filled_exec(saved_key) {
        Some(k) => ApiKeySource::Found(k),
        None => ApiKeySource::Missing,
    }
}

/// In release mode the environment's key is ignored: the choice is the same
/// whatever the environment holds.
pub proof fn law_release_ignores_env_key(e1: Option<Seq<char>>, e2: Option<Seq<char>>, saved: Option<Seq<char>>)
    ensures
        api_key_choice(true, e1, saved) == api_key_choice(true, e2, saved),
{
}

/// Outside release mode a key in the environment wins over the saved one.
pub proof fn law_env_key_first(env_key: Seq<char>, saved: Option<Seq<char>>)
    requires
        trim(env_key).len() > 0,
    ensures
        api_key_choice(false, Some(env_key), saved) == Some(trim(env_key)),
{
}

/// Settings pass the check only with a known environment, a client id of
/// digits and a non-blank API key.
pub proof fn law_config_check_ok(rust_env: Seq<char>, client_id: Seq<char>, api_key: Seq<char>)
    ensures
        config_check(rust_env, client_id, api_key) is Ok <==> (env_valid(rust_env) && all_digits(
            client_id,
        ) && trim(api_key).len() > 0),
{
}

/// Takes a key typed by the user: an empty one is refused; another is
/// trimmed, kept in the configuration and returned.
pub fn accept_entered_api_key(cfg: &mut AppConfig, input: &str) -> (r: Option<String>)
    ensures
        trim(input@).len() == 0 ==> r is None && *final(cfg) == *old(cfg),
        trim(input@).len() > 0 ==> (r matches Some(k) && k@ == trim(input@)),
        trim(input@).len() > 0 ==> opt_string_view(final(cfg).clash_royale_api_key) == Some(
            trim(input@),
        ),
        final(cfg).player_tag == old(cfg).player_tag,
        final(cfg).clan_invite_link == old(cfg).clan_invite_link,
        final(cfg).clan_tag == old(cfg).clan_tag,
        final(cfg).clan_name == old(cfg).clan_name,
{
    let t = trim_chars(chars_of(input).as_slice());
    if t.len() == 0 {
        return None;
    }
    cfg.clash_royale_api_key = Some(string_of(t.as_slice()));
    Some(string_of(t.as_slice()))
}

// ---------------------------------------------------------------------------
// The clan's invitation link
// ---------------------------------------------------------------------------

/// What to do about the clan button after the configuration is updated.
#[derive(Debug, Clone, Copy, PartialEq, Eq, Structural)]
pub enum ClanLinkStep {
    /// The player is in no clan: the clan settings were cleared.
    NoClan,
    /// The saved link still serves.
    LinkKept,
    /// Ask whether the player wants the button; `clan_changed` when the clan
    /// differs from the saved one (or none was saved).
    Ask { clan_changed: bool },
}

/// A saved link that serves: once trimmed it starts with "https://".
pub open spec fn link_valid(link: Option<Seq<char>>) -> bool {
    link is Some && starts_with(trim(link->0), "https://"@)
}

/// The clan in the configuration differs from `current` (normalized).
pub open spec fn clan_changed(saved: Option<Seq<char>>, current: Seq<char>) -> bool {
    match saved {
        Some(t) => normalized_clan_tag(t) != current,
        None => true,
    }
}

/// Brings the clan settings up to date with the player's clan and says
/// whether the invitation link must be asked for.
pub fn prepare_clan_link(cfg: &mut AppConfig, clan: Option<&Clan>) -> (r: ClanLinkStep)
    ensures
        final(cfg).player_tag == old(cfg).player_tag,
        final(cfg).clash_royale_api_key == old(cfg).clash_royale_api_key,
        match clan {
            None => r == ClanLinkStep::NoClan && final(cfg).clan_tag is None
                && final(cfg).clan_name is None && final(cfg).clan_invite_link is None,
            Some(c) => {
                let cur = normalized_clan_tag(c.tag@);
                let changed = clan_changed(opt_string_view(old(cfg).clan_tag), cur);
                &&& opt_string_view(final(cfg).clan_tag) == Some(cur)
                &&& opt_string_view(final(cfg).clan_name) == Some(c.name@)
                &&& changed ==> r == (ClanLinkStep::Ask { clan_changed: true })
                    && final(cfg).clan_invite_link is None
                &&& !changed ==> final(cfg).clan_invite_link == old(cfg).clan_invite_link && r == (
                if link_valid(opt_string_view(old(cfg).clan_invite_link)) {
                    ClanLinkStep::LinkKept
                } else {
                    ClanLinkStep::Ask { clan_changed: false }
                })
            },
        },
{
    let c = match clan {
        Some(c) => c,
        None => {
            cfg.clan_tag = None;
            cfg.clan_name = None;
            cfg.clan_invite_link = None;
            return ClanLinkStep::NoClan;
        },
    };
    let current = normalize_clan_tag(c.tag.as_str());
    let changed = match &cfg.clan_tag {
        Some(t) => {
            let saved = normalize_clan_tag(t.as_str());
            let a = chars_of(saved.as_str());
            let b = chars_of(current.as_str());
            !chars_eq(a.as_slice(), b.as_slice())
        },
        None => true,
    };
    cfg.clan_name = Some(c.name.clone());
    if changed {
        cfg.clan_tag = Some(current);
        cfg.clan_invite_link = None;
        return ClanLinkStep::Ask { clan_changed: true };
    }
    cfg.clan_tag = Some(current);
    let valid = match &cfg.clan_invite_link {
        Some(l) => {
            let t = trim_chars(chars_of(l.as_str()).as_slice());
            let p = chars_of("https://");
            starts_with_exec(t.as_slice(), p.as_slice())
        },
        None => false,
    };
    if valid {
        ClanLinkStep::LinkKept
    } else {
        ClanLinkStep::Ask { clan_changed: false }
    }
}


/// The player's answer about the clan button.
#[derive(Debug, Clone)]
pub enum ClanLinkAnswer {
    /// The player wants no button.
    Declined,
    /// The player gave up while typing the link.
    Cancelled,
    /// The link the player typed (already accepted by `validate_invite_link`).
    Entered(String),
}

/// Records the answer about the clan button: no link when declined, the
/// trimmed link when one was typed (a link that `validate_invite_link`
/// accepts, as the prompt asks until it gets one), the configuration
/// unchanged when the player gave up.
pub fn apply_clan_link_answer(cfg: &mut AppConfig, answer: ClanLinkAnswer)
    requires
        answer matches ClanLinkAnswer::Entered(l) ==> trim(l@).len() > 0 && starts_with(
            trim(l@),
            "https://"@,
        ),
    ensures
        final(cfg).player_tag == old(cfg).player_tag,
        final(cfg).clash_royale_api_key == old(cfg).clash_royale_api_key,
        final(cfg).clan_tag == old(cfg).clan_tag,
        final(cfg).clan_name == old(cfg).clan_name,
        match answer {
            ClanLinkAnswer::Declined => final(cfg).clan_invite_link is None,
            ClanLinkAnswer::Cancelled => final(cfg).clan_invite_link == old(cfg).clan_invite_link,
            ClanLinkAnswer::Entered(l) => opt_string_view(final(cfg).clan_invite_link) == Some(
                trim(l@),
            ) && link_valid(opt_string_view(final(cfg).clan_invite_link)),
        },
{
    match answer {
        ClanLinkAnswer::Declined => {
            cfg.clan_invite_link = None;
        },
        ClanLinkAnswer::Cancelled => {},
        ClanLinkAnswer::Entered(l) => {
            let t = trim_chars(chars_of(l.as_str()).as_slice());
            proof {
                crate::text::law_trim_idempotent(l@);
            }
            cfg.clan_invite_link = Some(string_of(t.as_slice()));
        },
    }
}

/// What is wrong with a typed invitation link.
#[derive(Debug, Clone, Copy, PartialEq, Eq, Structural)]
pub enum InviteLinkCheck {
    Valid,
    Empty,
    NotHttps,
}

impl InviteLinkCheck {
    /// The message shown for a refused link ("" for a valid one).
    pub fn message(&self) -> (r: &'static str)
        ensures
            r@ == match *self {
                InviteLinkCheck::Valid => ""@,
                InviteLinkCheck::Empty => "No puede estar vacío"@,
                InviteLinkCheck::NotHttps => "Tiene que empezar por https://"@,
            },
    {
        match self {
            InviteLinkCheck::Valid => "",
            InviteLinkCheck::Empty => "No puede estar vacío",
            InviteLinkCheck::NotHttps => "Tiene que empezar por https://",
        }
    }
}

/// Checks a typed invitation link: once trimmed it must be non-empty and
/// start with "https://".
pub fn validate_invite_link(input: &str) -> (r: InviteLinkCheck)
    ensures
        r == (if trim(input@).len() == 0 {
            InviteLinkCheck::Empty
        } else if !starts_with(trim(input@), "https://"@) {
            InviteLinkCheck::NotHttps
        } else {
            InviteLinkCheck::Valid
        }),
{
    let t = trim_chars(chars_of(input).as_slice());
    if t.len() == 0 {
        return InviteLinkCheck::Empty;
    }
    let p = chars_of("https://");
    if !starts_with_exec(t.as_slice(), p.as_slice()) {
        return InviteLinkCheck::NotHttps;
    }
    InviteLinkCheck::Valid
}

// ---------------------------------------------------------------------------
// Asking for the player tag
// ---------------------------------------------------------------------------

/// The text offered as the default tag: "#" and the normalized tag of the
/// environment, or nothing when that is empty.
pub open spec fn default_display(env_tag: Option<Seq<char>>) -> Seq<char> {
    let clean = normalized_tag(
        match env_tag {
            Some(t) => t,
            None => Seq::empty(),
        },
    );
    if clean.len() == 0 {
        Seq::empty()
    } else {
        seq!['#'] + clean
    }
}

/// The default tag offered when asking for the player tag.
pub fn default_tag_display(env_tag: Option<&str>) -> (r: String)
    ensures
        r@ == default_display(opt_view(env_tag)),
{
    let clean = match env_tag {
        Some(t) => normalize_tag(t),
        None => normalize_tag(""),
    };
    proof {
        reveal_strlit("");
        reveal_strlit("#");
        assert(""@ =~= Seq::<char>::empty());
    }
    let c = chars_of(clean.as_str());
    if c.len() == 0 {
        String::new()
    } else {
        let mut r = String::from_str("#");
        r.append(clean.as_str());
        r
    }
}

/// The outcome of looking a tag up in the API.
#[derive(Debug, Clone, Copy, PartialEq, Eq, Structural)]
pub enum TagLookup {
    /// The API knows the player.
    Found,
    /// The lookup failed, with the HTTP status when there was one.
    Failed(Option<u16>),
}

/// Where the tag dialogue stands.
#[derive(Debug, Clone)]
pub enum TagPromptState {
    /// The saved tag is being checked with the API.
    CheckingSaved(String),
    /// Waiting for the player to type a tag.
    Asking,
    /// A typed tag is being checked with the API.
    Checking(String),
    /// Waiting for the player to say whether the player found is them.
    Confirming(String),
    /// The dialogue ended with this tag.
    Done(String),
    /// The dialogue ended without a tag.
    Aborted,
}

/// What happened.
#[derive(Debug, Clone)]
pub enum TagPromptEvent {
    /// The API lookup of the tag under check ended.
    Looked(TagLookup),
    /// The player typed this text.
    Entered(String),
    /// The player cancelled the prompt.
    Cancelled,
    /// The player answered whether the player found is them.
    Answered(bool),
}

/// A warning shown before asking again.
#[derive(Debug, Clone, Copy, PartialEq, Eq, Structural)]
pub enum TagWarning {
    /// The saved tag could not be checked (with the HTTP status, if any).
    SavedNotValidated(Option<u16>),
    /// The typed text holds no tag.
    EmptyTag,
    /// The API does not know the tag (404).
    NotFound,
    /// The tag could not be checked (with the HTTP status, if any).
    NotValidated(Option<u16>),
    /// The player said the player found is not them.
    NotMe,
}

/// Why the dialogue stops the application.
#[derive(Debug, Clone, Copy, PartialEq, Eq, Structural)]
pub enum TagAbort {
    /// The player cancelled.
    Cancelled,
    /// The API key is refused (401 or 403).
    NoPermission,
}

/// What to do next.
#[derive(Debug, Clone)]
pub enum TagPromptAction {
    /// Look the tag up in the API.
    Lookup(String),
    /// Ask the player for a tag.
    Prompt,
    /// Warn, then ask the player for a tag.
    WarnAndPrompt(TagWarning),
    /// Show the player found and ask whether it is them.
    Confirm,
    /// Use the saved tag, which the API knows.
    UseSaved(String),
    /// Save the tag in the configuration and use it.
    SaveAndUse(String),
    /// Stop the application.
    Abort(TagAbort),
    /// The event does not belong to this state: nothing to do.
    Ignore,
}

/// The views of the dialogue's values, with texts as sequences of characters.
pub enum TagStateV {
    CheckingSaved(Seq<char>),
    Asking,
    Checking(Seq<char>),
    Confirming(Seq<char>),
    Done(Seq<char>),
    Aborted,
}

pub enum TagEventV {
    Looked(TagLookup),
    Entered(Seq<char>),
    Cancelled,
    Answered(bool),
}

pub enum TagActionV {
    Lookup(Seq<char>),
    Prompt,
    WarnAndPrompt(TagWarning),
    Confirm,
    UseSaved(Seq<char>),
    SaveAndUse(Seq<char>),
    Abort(TagAbort),
    Ignore,
}

impl View for TagPromptState {
    type V = TagStateV;

    open spec fn view(&self) -> TagStateV {
        match self {
            TagPromptState::CheckingSaved(t) => TagStateV::CheckingSaved(t@),
            TagPromptState::Asking => TagStateV::Asking,
            TagPromptState::Checking(t) => TagStateV::Checking(t@),
            TagPromptState::Confirming(t) => TagStateV::Confirming(t@),
            TagPromptState::Done(t) => TagStateV::Done(t@),
            TagPromptState::Aborted => TagStateV::Aborted,
        }
    }
}

impl View for TagPromptEvent {
    type V = TagEventV;

    open spec fn view(&self) -> TagEventV {
        match self {
            TagPromptEvent::Looked(l) => TagEventV::Looked(*l),
            TagPromptEvent::Entered(t) => TagEventV::Entered(t@),
            TagPromptEvent::Cancelled => TagEventV::Cancelled,
            TagPromptEvent::Answered(b) => TagEventV::Answered(*b),
        }
    }
}

impl View for TagPromptAction {
    type V = TagActionV;

    open spec fn view(&self) -> TagActionV {
        match self {
            TagPromptAction::Lookup(t) => TagActionV::Lookup(t@),
            TagPromptAction::Prompt => TagActionV::Prompt,
            TagPromptAction::WarnAndPrompt(w) => TagActionV::WarnAndPrompt(*w),
            TagPromptAction::Confirm => TagActionV::Confirm,
            TagPromptAction::UseSaved(t) => TagActionV::UseSaved(t@),
            TagPromptAction::SaveAndUse(t) => TagActionV::SaveAndUse(t@),
            TagPromptAction::Abort(a) => TagActionV::Abort(*a),
            TagPromptAction::Ignore => TagActionV::Ignore,
        }
    }
}

/// How the dialogue starts: with a saved tag that normalizes to something,
/// check it with the API; else ask.
pub open spec fn tag_start(saved: Option<Seq<char>>) -> (TagStateV, TagActionV) {
    match saved {
        Some(s) => if normalized_tag(s).len() > 0 {
            (TagStateV::CheckingSaved(normalized_tag(s)), TagActionV::Lookup(normalized_tag(s)))
        } else {
            (TagStateV::Asking, TagActionV::Prompt)
        },
        None => (TagStateV::Asking, TagActionV::Prompt),
    }
}

/// One step of the dialogue.
pub open spec fn tag_transition(s: TagStateV, e: TagEventV) -> (TagStateV, TagActionV) {
    match (s, e) {
        (TagStateV::CheckingSaved(t), TagEventV::Looked(TagLookup::Found)) => (
            TagStateV::Done(t),
            TagActionV::UseSaved(t),
        ),
        (TagStateV::CheckingSaved(t), TagEventV::Looked(TagLookup::Failed(st))) => (
            TagStateV::Asking,
            TagActionV::WarnAndPrompt(TagWarning::SavedNotValidated(st)),
        ),
        (TagStateV::Asking, TagEventV::Cancelled) => (
            TagStateV::Aborted,
            TagActionV::Abort(TagAbort::Cancelled),
        ),
        (TagStateV::Asking, TagEventV::Entered(raw)) => if normalized_tag(raw).len() == 0 {
            (TagStateV::Asking, TagActionV::WarnAndPrompt(TagWarning::EmptyTag))
        } else {
            (TagStateV::Checking(normalized_tag(raw)), TagActionV::Lookup(normalized_tag(raw)))
        },
        (TagStateV::Checking(t), TagEventV::Looked(TagLookup::Found)) => (
            TagStateV::Confirming(t),
            TagActionV::Confirm,
        ),
        (TagStateV::Checking(t), TagEventV::Looked(TagLookup::Failed(st))) => if st == Some(
            404u16,
        ) {
            (TagStateV::Asking, TagActionV::WarnAndPrompt(TagWarning::NotFound))
        } else if st == Some(401u16) || st == Some(403u16) {
            (TagStateV::Aborted, TagActionV::Abort(TagAbort::NoPermission))
        } else {
            (TagStateV::Asking, TagActionV::WarnAndPrompt(TagWarning::NotValidated(st)))
        },
        (TagStateV::Confirming(t), TagEventV::Answered(true)) => (
            TagStateV::Done(t),
            TagActionV::SaveAndUse(t),
        ),
        (TagStateV::Confirming(t), TagEventV::Answered(false)) => (
            TagStateV::Asking,
            TagActionV::WarnAndPrompt(TagWarning::NotMe),
        ),
        (st, _) => (st, TagActionV::Ignore),
    }
}

/// Starts the tag dialogue from the tag saved in the configuration.
pub fn start_player_tag(saved: Option<&str>) -> (r: (TagPromptState, TagPromptAction))
    ensures
        (r.0@, r.1@) == tag_start(opt_view(saved)),
{
    match saved {
        Some(s) => {
            let clean = normalize_tag(s);
            let c = chars_of(clean.as_str());
            if c.len() > 0 {
                let t2 = string_of(c.as_slice());
                (TagPromptState::CheckingSaved(clean), TagPromptAction::Lookup(t2))
            } else {
                (TagPromptState::Asking, TagPromptAction::Prompt)
            }
        },
        None => (TagPromptState::Asking, TagPromptAction::Prompt),
    }
}

fn copy_string(s: &String) -> (r: String)
    ensures
        r@ == s@,
{
    let c = chars_of(s.as_str());
    string_of(c.as_slice())
}

/// One step of the tag dialogue (see `tag_transition`).
pub fn player_tag_step(state: TagPromptState, event: TagPromptEvent) -> (r: (TagPromptState, TagPromptAction))
    ensures
        (r.0@, r.1@) == tag_transition(state@, event@),
{
    match (state, event) {
        (TagPromptState::CheckingSaved(t), TagPromptEvent::Looked(TagLookup::Found)) => {
            let u = copy_string(&t);
            (TagPromptState::Done(t), TagPromptAction::UseSaved(u))
        },
        (TagPromptState::CheckingSaved(_), TagPromptEvent::Looked(TagLookup::Failed(st))) => (
            TagPromptState::Asking,
            TagPromptAction::WarnAndPrompt(TagWarning::SavedNotValidated(st)),
        ),
        (TagPromptState::Asking, TagPromptEvent::Cancelled) => (
            TagPromptState::Aborted,
            TagPromptAction::Abort(TagAbort::Cancelled),
        ),
        (TagPromptState::Asking, TagPromptEvent::Entered(raw)) => {
            let clean = normalize_tag(raw.as_str());
            let c = chars_of(clean.as_str());
            if c.len() == 0 {
                (TagPromptState::Asking, TagPromptAction::WarnAndPrompt(TagWarning::EmptyTag))
            } else {
                let u = string_of(c.as_slice());
                (TagPromptState::Checking(clean), TagPromptAction::Lookup(u))
            }
        },
        (TagPromptState::Checking(t), TagPromptEvent::Looked(TagLookup::Found)) => (
            TagPromptState::Confirming(t),
            TagPromptAction::Confirm,
        ),
        (TagPromptState::Checking(t), TagPromptEvent::Looked(TagLookup::Failed(st))) => {
            match st {
                Some(404) => (
                    TagPromptState::Asking,
                    TagPromptAction::WarnAndPrompt(TagWarning::NotFound),
                ),
                Some(401) | Some(403) => (
                    TagPromptState::Aborted,
                    TagPromptAction::Abort(TagAbort::NoPermission),
                ),
                _ => (
                    TagPromptState::Asking,
                    TagPromptAction::WarnAndPrompt(TagWarning::NotValidated(st)),
                ),
            }
        },
        (TagPromptState::Confirming(t), TagPromptEvent::Answered(yes)) => {
            if yes {
                let u = copy_string(&t);
                (TagPromptState::Done(t), TagPromptAction::SaveAndUse(u))
            } else {
                (TagPromptState::Asking, TagPromptAction::WarnAndPrompt(TagWarning::NotMe))
            }
        },
        (st, _) => (st, TagPromptAction::Ignore),
    }
}

/// Every tag that the dialogue holds or hands out is a non-empty normalized tag.
pub open spec fn tag_state_ok(s: TagStateV) -> bool {
    match s {
        TagStateV::CheckingSaved(t) => t.len() > 0,
        TagStateV::Checking(t) => t.len() > 0,
        TagStateV::Confirming(t) => t.len() > 0,
        TagStateV::Done(t) => t.len() > 0,
        _ => true,
    }
}

/// The dialogue starts in a state whose tags are non-empty.
pub proof fn law_tag_start_ok(saved: Option<Seq<char>>)
    ensures
        tag_state_ok(tag_start(saved).0),
{
}

/// Each step keeps the tags of the dialogue non-empty, and a tag that is
/// used or saved is the non-empty tag that was checked.
pub proof fn law_tag_step_keeps_tags(s: TagStateV, e: TagEventV)
    requires
        tag_state_ok(s),
    ensures
        tag_state_ok(tag_transition(s, e).0),
        tag_transition(s, e).1 matches TagActionV::SaveAndUse(t) ==> s == TagStateV::Confirming(t)
            && t.len() > 0,
        tag_transition(s, e).1 matches TagActionV::UseSaved(t) ==> s == TagStateV::CheckingSaved(t)
            && t.len() > 0,
{
}

/// A tag is saved only after the player confirmed it, and a refused API key
/// (401 or 403) while checking a typed tag stops the dialogue.
pub proof fn law_tag_save_needs_confirmation(s: TagStateV, e: TagEventV)
    ensures
        tag_transition(s, e).1 is SaveAndUse ==> s is Confirming && e == TagEventV::Answered(true),
        (s is Checking && (e == TagEventV::Looked(TagLookup::Failed(Some(401u16))) || e
            == TagEventV::Looked(TagLookup::Failed(Some(403u16))))) ==> tag_transition(s, e).0
            == TagStateV::Aborted,
{
}

/// The environments the application knows are the four that its
/// documentation lists (development, production, test and release) and no
/// other name; the default environment, production, is one of them.
pub proof fn law_known_environments(l: Seq<char>, rust_env: Seq<char>, client_id: Seq<char>, api_key: Seq<char>)
    ensures
        env_name_known(l) <==> set!["development"@, "production"@, "test"@, "release"@].contains(l),
        env_name_known("production"@),
        env_valid(rust_env) <==> set!["development"@, "production"@, "test"@, "release"@].contains(
            unicode_lowercase(rust_env),
        ),
        set!["development"@, "production"@, "test"@, "release"@].contains(unicode_lowercase(rust_env))
            && all_digits(client_id) && trim(api_key).len() > 0 ==> config_check(rust_env, client_id, api_key)
            == Ok::<(), ConfigError>(()),
{
}
} // verus!
