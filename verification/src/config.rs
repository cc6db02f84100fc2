//! The player's configuration values.
//!
//! Reading and writing the on-disk configuration file, and discovering the
//! platform's default music directory, are filesystem work done outside
//! this crate; the handler here holds the resulting values and hands them
//! out unchanged.

use vstd::prelude::*;

verus! {

/// The player's configuration.
#[derive(Clone, Debug)]
pub struct AppConfig {
    pub dir: AppConfigDir,
}

/// The configured directories.
#[derive(Clone, Debug)]
pub struct AppConfigDir {
    /// Where the music library lives.
    pub music_dir: String,
}

impl AppConfig {
    /// The configured music directory.
    pub open spec fn spec_music_dir(&self) -> Seq<char> {
        self.dir.music_dir@
    }

    /// A deep copy whose music directory reads the same.
    pub fn duplicate(&self) -> (c: AppConfig)
        ensures
            c.spec_music_dir() == self.spec_music_dir(),
    {
        AppConfig { dir: AppConfigDir { music_dir: self.dir.music_dir.clone() } }
    }
}

impl Default for AppConfig {
    /// An empty music directory: the surrounding application substitutes
    /// the platform's audio directory before use.
    fn default() -> (c: Self)
        ensures
            c.spec_music_dir() == Seq::<char>::empty(),
    {
        AppConfig { dir: AppConfigDir { music_dir: String::new() } }
    }
}

impl Default for AppConfigDir {
    /// An empty music directory: the surrounding application substitutes
    /// the platform's audio directory before use.
    fn default() -> (d: Self)
        ensures
            d.music_dir@ == Seq::<char>::empty(),
    {
        AppConfigDir { music_dir: String::new() }
    }
}

/// Holds the configuration read from disk together with the path of the
/// file it came from.
#[derive(Clone, Debug)]
pub struct AppConfigHandler {
    config: AppConfig,
    config_path: String,
}

impl AppConfigHandler {
    pub closed spec fn spec_config(&self) -> AppConfig {
        self.config
    }

    /// The path of the configuration file, as read.
    pub closed spec fn spec_config_path(&self) -> Seq<char> {
        self.config_path@
    }

    /// Wraps the configuration the surrounding application read (or wrote
    /// as a default) at `config_path`.
    pub fn new(config: AppConfig, config_path: String) -> (h: AppConfigHandler)
        ensures
            h.spec_config() == config,
            h.spec_config_path() == config_path@,
    {
        AppConfigHandler { config, config_path }
    }

    pub fn get_config(&self) -> (c: &AppConfig)
        ensures
            *c == self.spec_config(),
    {
        &self.config
    }
}

impl Default for AppConfigHandler {
    /// The default configuration, attributed to no file.
    fn default() -> (h: Self)
        ensures
            h.spec_config().spec_music_dir() == Seq::<char>::empty(),
            h.spec_config_path() == Seq::<char>::empty(),
    {
        AppConfigHandler { config: AppConfig::default(), config_path: String::new() }
    }
}

} // verus!
