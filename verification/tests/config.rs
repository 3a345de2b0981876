use clashrpc::config::setup::{
    accept_entered_api_key, apply_clan_link_answer, default_tag_display, get_api_key,
    player_tag_step, prepare_clan_link, start_player_tag, validate_invite_link, verify_config,
    ApiKeySource, ClanLinkAnswer, ClanLinkStep, ConfigError, InviteLinkCheck, TagAbort,
    TagLookup, TagPromptAction, TagPromptEvent, TagPromptState, TagWarning,
};
use clashrpc::config::{config_path, AppConfig, ConfigLocation};
use clashrpc::cr::models::Clan;

#[test]
fn config_location() {
    assert_eq!(config_path(true, Some("/opt/app".to_string())), ConfigLocation::WorkingDir);
    assert_eq!(config_path(false, Some("/opt/app".to_string())), ConfigLocation::Dir("/opt/app".to_string()));
    assert_eq!(config_path(false, None), ConfigLocation::WorkingDir);
}

#[test]
fn settings_checked() {
    assert_eq!(verify_config("development", "1112858099854876742", "key"), Ok(()));
    assert_eq!(verify_config("RELEASE", "1", "k"), Ok(()));
    assert_eq!(verify_config(" test", "1", "k"), Err(ConfigError::InvalidEnv));
    assert_eq!(verify_config("staging", "1", "k"), Err(ConfigError::InvalidEnv));
    assert_eq!(verify_config("production", "12a", "k"), Err(ConfigError::InvalidClientId));
    assert_eq!(verify_config("production", "", "k"), Ok(()));
    assert_eq!(verify_config("production", "1", "  "), Err(ConfigError::MissingApiKey));
    assert_eq!(ConfigError::MissingApiKey.message(), "Falta la API key de Clash Royale.");
}

#[test]
fn api_key_choice() {
    assert!(matches!(get_api_key(true, Some("env"), Some(" saved ")), ApiKeySource::Found(k) if k == "saved"));
    assert!(matches!(get_api_key(true, Some("env"), None), ApiKeySource::Ask));
    assert!(matches!(get_api_key(false, Some(" env "), Some("saved")), ApiKeySource::Found(k) if k == "env"));
    assert!(matches!(get_api_key(false, Some(" "), Some("saved")), ApiKeySource::Found(k) if k == "saved"));
    assert!(matches!(get_api_key(false, None, Some("")), ApiKeySource::Missing));
}

#[test]
fn entered_key() {
    let mut cfg = AppConfig::default();
    assert_eq!(accept_entered_api_key(&mut cfg, "   "), None);
    assert_eq!(cfg.clash_royale_api_key, None);
    assert_eq!(accept_entered_api_key(&mut cfg, " abc "), Some("abc".to_string()));
    assert_eq!(cfg.clash_royale_api_key.as_deref(), Some("abc"));
}

fn clan(tag: &str) -> Clan {
    Clan { tag: tag.to_string(), name: "Los Reyes".to_string() }
}

#[test]
fn clan_link_flow() {
    let mut cfg = AppConfig::default();
    cfg.clan_invite_link = Some("https://old".to_string());
    assert_eq!(prepare_clan_link(&mut cfg, Some(&clan("abc"))), ClanLinkStep::Ask { clan_changed: true });
    assert_eq!(cfg.clan_tag.as_deref(), Some("#ABC"));
    assert_eq!(cfg.clan_name.as_deref(), Some("Los Reyes"));
    assert_eq!(cfg.clan_invite_link, None);

    cfg.clan_invite_link = Some("  https://new ".to_string());
    assert_eq!(prepare_clan_link(&mut cfg, Some(&clan("#abc"))), ClanLinkStep::LinkKept);
    cfg.clan_invite_link = Some("http://insecure".to_string());
    assert_eq!(prepare_clan_link(&mut cfg, Some(&clan("ABC"))), ClanLinkStep::Ask { clan_changed: false });
    assert_eq!(cfg.clan_invite_link.as_deref(), Some("http://insecure"));

    assert_eq!(prepare_clan_link(&mut cfg, None), ClanLinkStep::NoClan);
    assert_eq!(cfg.clan_tag, None);
    assert_eq!(cfg.clan_name, None);
    assert_eq!(cfg.clan_invite_link, None);
}

#[test]
fn clan_link_answers() {
    let mut cfg = AppConfig::default();
    apply_clan_link_answer(&mut cfg, ClanLinkAnswer::Entered("  https://x  ".to_string()));
    assert_eq!(cfg.clan_invite_link.as_deref(), Some("https://x"));
    apply_clan_link_answer(&mut cfg, ClanLinkAnswer::Cancelled);
    assert_eq!(cfg.clan_invite_link.as_deref(), Some("https://x"));
    apply_clan_link_answer(&mut cfg, ClanLinkAnswer::Declined);
    assert_eq!(cfg.clan_invite_link, None);
}

#[test]
fn invite_links_checked() {
    assert_eq!(validate_invite_link("  "), InviteLinkCheck::Empty);
    assert_eq!(validate_invite_link("http://a"), InviteLinkCheck::NotHttps);
    assert_eq!(validate_invite_link(" https://a "), InviteLinkCheck::Valid);
    assert_eq!(InviteLinkCheck::NotHttps.message(), "Tiene que empezar por https://");
}

#[test]
fn default_tags() {
    assert_eq!(default_tag_display(Some(" #abc ")), "#ABC");
    assert_eq!(default_tag_display(Some("#")), "");
    assert_eq!(default_tag_display(None), "");
}

#[test]
fn tag_dialogue_with_saved_tag() {
    let (s, a) = start_player_tag(Some("#abc"));
    assert!(matches!(&a, TagPromptAction::Lookup(t) if t == "ABC"));
    let (s, a) = player_tag_step(s, TagPromptEvent::Looked(TagLookup::Found));
    assert!(matches!(&s, TagPromptState::Done(t) if t == "ABC"));
    assert!(matches!(&a, TagPromptAction::UseSaved(t) if t == "ABC"));
}

#[test]
fn tag_dialogue_asking() {
    let (s, a) = start_player_tag(Some("  "));
    assert!(matches!(a, TagPromptAction::Prompt));
    let (s, a) = player_tag_step(s, TagPromptEvent::Entered(" # ".to_string()));
    assert!(matches!(a, TagPromptAction::WarnAndPrompt(TagWarning::EmptyTag)));
    let (s, a) = player_tag_step(s, TagPromptEvent::Entered("#xyz".to_string()));
    assert!(matches!(&a, TagPromptAction::Lookup(t) if t == "XYZ"));
    let (s, a) = player_tag_step(s, TagPromptEvent::Looked(TagLookup::Failed(Some(404))));
    assert!(matches!(a, TagPromptAction::WarnAndPrompt(TagWarning::NotFound)));
    let (s, _) = player_tag_step(s, TagPromptEvent::Entered("xyz".to_string()));
    let (s, a) = player_tag_step(s, TagPromptEvent::Looked(TagLookup::Found));
    assert!(matches!(a, TagPromptAction::Confirm));
    let (s, a) = player_tag_step(s, TagPromptEvent::Answered(false));
    assert!(matches!(a, TagPromptAction::WarnAndPrompt(TagWarning::NotMe)));
    let (s, _) = player_tag_step(s, TagPromptEvent::Entered("xyz".to_string()));
    let (s, _) = player_tag_step(s, TagPromptEvent::Looked(TagLookup::Found));
    let (s, a) = player_tag_step(s, TagPromptEvent::Answered(true));
    assert!(matches!(&a, TagPromptAction::SaveAndUse(t) if t == "XYZ"));
    assert!(matches!(&s, TagPromptState::Done(t) if t == "XYZ"));
}

#[test]
fn tag_dialogue_stops() {
    let (s, _) = player_tag_step(TagPromptState::Checking("A".to_string()), TagPromptEvent::Looked(TagLookup::Failed(Some(403))));
    assert!(matches!(s, TagPromptState::Aborted));
    let (_, a) = player_tag_step(TagPromptState::Asking, TagPromptEvent::Cancelled);
    assert!(matches!(a, TagPromptAction::Abort(TagAbort::Cancelled)));
    let (_, a) = player_tag_step(TagPromptState::Checking("A".to_string()), TagPromptEvent::Looked(TagLookup::Failed(Some(500))));
    assert!(matches!(a, TagPromptAction::WarnAndPrompt(TagWarning::NotValidated(Some(500)))));
    let (_, a) = player_tag_step(TagPromptState::CheckingSaved("A".to_string()), TagPromptEvent::Looked(TagLookup::Failed(None)));
    assert!(matches!(a, TagPromptAction::WarnAndPrompt(TagWarning::SavedNotValidated(None))));
    let (s, a) = player_tag_step(TagPromptState::Asking, TagPromptEvent::Answered(true));
    assert!(matches!(a, TagPromptAction::Ignore));
    assert!(matches!(s, TagPromptState::Asking));
}
