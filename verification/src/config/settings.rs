//! The top level of the configuration file.

use vstd::prelude::*;
use crate::account::AccountType;
use crate::config::download::{default_assets_spec, default_libraries_spec, DownloadConfig};
use crate::config::launch::LaunchConfig;
use crate::text::{lower_seq, replace_char, replace_char_seq, split, split_seq, to_ascii_lowercase, views};

verus! {

/// The channel from which updates of the launcher are taken.
#[derive(Clone, Copy, Debug, PartialEq, Eq, Structural)]
pub enum UpdateChannel {
    Weekly,
    Release,
    Snapshot,
}

impl Default for UpdateChannel {
    fn default() -> (r: UpdateChannel)
        ensures
            r == UpdateChannel::Release,
    {
        UpdateChannel::Release
    }
}

/// Settings of reminders and of accessibility.
#[derive(Clone, Copy, Debug, PartialEq, Eq, Structural)]
pub struct AccessibilityConfig {
    pub release_reminder: bool,
    pub snapshot_reminder: bool,
    pub hide_latest_release: bool,
    pub hide_latest_snapshot: bool,
    pub change_game_language: bool,
    pub disable_animations: bool,
    pub high_contrast_mode: bool,
}

/// Reminders of new releases are on by default.
pub fn default_release_reminder() -> (r: bool)
    ensures
        r,
{
    true
}

/// Reminders of new snapshots are on by default.
pub fn default_snapshot_reminder() -> (r: bool)
    ensures
        r,
{
    true
}

/// The instance of the latest release is shown by default.
pub fn default_hide_latest_release() -> (r: bool)
    ensures
        !r,
{
    false
}

/// The instance of the latest snapshot is shown by default.
pub fn default_hide_latest_snapshot() -> (r: bool)
    ensures
        !r,
{
    false
}

/// The game's language follows the launcher's by default.
pub fn default_change_game_language() -> (r: bool)
    ensures
        r,
{
    true
}

/// Animations are on by default.
pub fn default_disable_animations() -> (r: bool)
    ensures
        !r,
{
    false
}

/// High contrast is off by default.
pub fn default_high_contrast_mode() -> (r: bool)
    ensures
        !r,
{
    false
}

/// The accessibility settings of a fresh configuration.
pub open spec fn default_accessibility() -> AccessibilityConfig {
    AccessibilityConfig {
        release_reminder: true,
        snapshot_reminder: true,
        hide_latest_release: false,
        hide_latest_snapshot: false,
        change_game_language: true,
        disable_animations: false,
        high_contrast_mode: false,
    }
}

impl Default for AccessibilityConfig {
    fn default() -> (r: AccessibilityConfig)
        ensures
            r == default_accessibility(),
    {
        AccessibilityConfig {
            release_reminder: default_release_reminder(),
            snapshot_reminder: default_snapshot_reminder(),
            hide_latest_release: default_hide_latest_release(),
            hide_latest_snapshot: default_hide_latest_snapshot(),
            change_game_language: default_change_game_language(),
            disable_animations: default_disable_animations(),
            high_contrast_mode: default_high_contrast_mode(),
        }
    }
}

/// Settings of the launcher's look.
#[derive(Clone, Debug)]
pub struct AppearanceConfig {
    pub theme: String,
}

/// The default theme.
pub fn default_theme() -> (r: String)
    ensures
        r@ == "dark"@,
{
    "dark".to_owned()
}

impl Default for AppearanceConfig {
    fn default() -> (r: AppearanceConfig)
        ensures
            r.theme@ == "dark"@,
    {
        AppearanceConfig { theme: default_theme() }
    }
}

/// Updates are installed by themselves by default.
pub fn default_auto_update() -> (r: bool)
    ensures
        r,
{
    true
}

/// The identifier that stands for "no account".
pub open spec fn no_account() -> u128 {
    0
}

/// The account that a fresh configuration selects: the first stored
/// Microsoft account, or the nil identifier where there is none.
pub fn default_current_account(first_account: Option<u128>) -> (r: u128)
    ensures
        r == (match first_account {
            Some(id) => id,
            None => no_account(),
        }),
{
    match first_account {
        Some(id) => id,
        None => 0,
    }
}

/// The kind of account that a fresh configuration selects.
pub fn default_current_account_type() -> (r: AccountType)
    ensures
        r == AccountType::Microsoft,
{
    AccountType::Microsoft
}

/// The language code for a system locale: what stands before the first
/// dot, with `_` for `-`, in lower case.
pub open spec fn language_of(locale: Seq<char>) -> Seq<char> {
    lower_seq(replace_char_seq(split_seq(locale, '.')[0], '-', '_'))
}

/// The language code for a system locale, such as `en_us` for `en-US.UTF-8`.
pub fn default_language(locale: &str) -> (r: String)
    ensures
        r@ == language_of(locale@),
{
    let parts = split(locale, '.');
    proof {
        assert(views(parts@)[0] == parts@[0]@);
    }
    let replaced = replace_char(parts[0].as_str(), '-', '_');
    to_ascii_lowercase(replaced.as_str())
}

/// The locale that is assumed where the system names none.
pub fn fallback_locale() -> (r: &'static str)
    ensures
        r@ == "en-US"@,
{
    "en-US"
}

/// The configuration of the launcher.
#[derive(Clone, Debug)]
pub struct Config {
    pub auto_update: bool,
    pub current_account_uuid: u128,
    pub current_account_type: AccountType,
    pub appearance: AppearanceConfig,
    pub accessibility: AccessibilityConfig,
    pub language: String,
    pub update_channel: UpdateChannel,
    pub launch: LaunchConfig,
    pub download: DownloadConfig,
}

impl Config {
    /// The configuration of a fresh installation, given the first stored
    /// Microsoft account, if there is one, and the system locale.
    pub fn with_defaults(first_account: Option<u128>, locale: &str) -> (r: Config)
        ensures
            r.auto_update,
            r.current_account_uuid == (match first_account {
                Some(id) => id,
                None => no_account(),
            }),
            r.current_account_type == AccountType::Microsoft,
            r.appearance.theme@ == "dark"@,
            r.accessibility == default_accessibility(),
            r.language@ == language_of(locale@),
            r.update_channel == UpdateChannel::Release,
            r.launch.max_memory == 2048,
            r.launch.width == 854,
            r.launch.height == 480,
            r.launch.launcher_name@ == "Conic_Launcher"@,
            !r.launch.skip_refresh_account,
            !r.launch.skip_check_files,
            r.download.max_connections == 100,
            r.download.max_download_speed == 0,
            views(r.download.mirror.libraries@) == default_libraries_spec(),
            views(r.download.mirror.assets@) == default_assets_spec(),
    {
        Config {
            appearance: AppearanceConfig::default(),
            accessibility: AccessibilityConfig::default(),
            current_account_uuid: default_current_account(first_account),
            current_account_type: default_current_account_type(),
            auto_update: default_auto_update(),
            language: default_language(locale),
            update_channel: UpdateChannel::default(),
            launch: LaunchConfig::default(),
            download: DownloadConfig::default(),
        }
    }
}

/// The configuration that a start of the launcher works with, and whether
/// it is a fresh one. `parsed` is the configuration that was read from the
/// file, where the file exists and holds one: it is used as it is, and
/// written back so that the file is complete. Else the configuration is
/// made afresh and takes the place of the file.
pub fn load_config_file(parsed: Option<Config>, first_account: Option<u128>, locale: &str) -> (r: (
    Config,
    bool,
))
    ensures
        match parsed {
            Some(config) => r.0 == config && !r.1,
            None => {
                &&& r.1
                &&& r.0.auto_update
                &&& r.0.current_account_uuid == (match first_account {
                    Some(id) => id,
                    None => no_account(),
                })
                &&& r.0.current_account_type == AccountType::Microsoft
                &&& r.0.language@ == language_of(locale@)
                &&& r.0.update_channel == UpdateChannel::Release
                &&& r.0.accessibility == default_accessibility()
                &&& r.0.download.max_connections == 100
            },
        },
{
    match parsed {
        Some(config) => (config, false),
        None => (Config::with_defaults(first_account, locale), true),
    }
}

} // verus!
