//! The saved configuration and where it lives.
use vstd::prelude::*;

pub mod setup;

verus! {

/// The settings kept in `config.json`.
#[derive(Debug, Clone)]
pub struct AppConfig {
    pub player_tag: Option<String>,
    pub clan_invite_link: Option<String>,
    pub clan_tag: Option<String>,
    pub clan_name: Option<String>,
    pub clash_royale_api_key: Option<String>,
}

impl Default for AppConfig {
    fn default() -> (r: Self)
        ensures
            r.player_tag is None,
            r.clan_invite_link is None,
            r.clan_tag is None,
            r.clan_name is None,
            r.clash_royale_api_key is None,
    {
        AppConfig {
            player_tag: None,
            clan_invite_link: None,
            clan_tag: None,
            clan_name: None,
            clash_royale_api_key: None,
        }
    }
}

/// Where `config.json` is read from and written to.
#[derive(Debug, Clone, PartialEq, Eq)]
pub enum ConfigLocation {
    /// `config.json` in the working directory.
    WorkingDir,
    /// `config.json` in the given directory (the executable's).
    Dir(String),
}

/// The place of `config.json`: the working directory when the file is there;
/// else the executable's directory when it is known; else the working
/// directory.
pub fn config_path(cwd_config_exists: bool, exe_dir: Option<String>) -> (r: ConfigLocation)
    ensures
        cwd_config_exists ==> r == ConfigLocation::WorkingDir,
        !cwd_config_exists ==> match exe_dir {
            Some(d) => r matches ConfigLocation::Dir(x) && x@ == d@,
            None => r == ConfigLocation::WorkingDir,
        },
{
    if cwd_config_exists {
        return ConfigLocation::WorkingDir;
    }
    match exe_dir {
        Some(d) => ConfigLocation::Dir(d),
        None => ConfigLocation::WorkingDir,
    }
}

} // verus!
