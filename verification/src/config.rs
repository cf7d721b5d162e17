//! The user's configuration: its shape, its defaults, and what becomes of
//! it when the stored file is missing or unreadable.
//!
//! The zoom level and pan step of the camera view are floating-point
//! settings; they are carried by the application around this library and
//! have no part in its decisions, so `ZoomConfig` here holds the zoom key only.
use vstd::prelude::*;
use vstd::string::*;

verus! {

/// The default camera hotkey. Plain, rarely used keys are the defaults,
/// since combinations such as Ctrl+Shift+C collide with terminal shortcuts.
pub const DEFAULT_HOTKEY: &'static str = "Home";

/// The default mock notification hotkey.
pub const DEFAULT_MOCK_HOTKEY: &'static str = "Pause";

/// The default zoom key: empty, so zoom and pan are opt-in.
pub const DEFAULT_ZOOM_KEY: &'static str = "";

/// The default pin key.
pub const DEFAULT_PIN_KEY: &'static str = "T";

/// The default title of the mock notification.
pub const DEFAULT_MOCK_TITLE: &'static str = "Notification";

/// The default message of the mock notification.
pub const DEFAULT_MOCK_MESSAGE: &'static str = "This is a pre-configured fake notification message.";

/// The camera window's position and size on screen, in pixels.
#[derive(Debug, Clone, Copy, PartialEq, Eq, Structural)]
pub struct Region {
    pub x: i32,
    pub y: i32,
    pub width: u32,
    pub height: u32,
}

impl Default for Region {
    fn default() -> (r: Self)
        ensures
            r == (Region { x: 100, y: 100, width: 320, height: 240 }),
    {
        Region { x: 100, y: 100, width: 320, height: 240 }
    }
}

/// The fake notification: its toggle hotkey, with modifiers before the key,
/// and the title and message it shows.
#[derive(Debug, Clone)]
pub struct MockNotificationConfig {
    pub hotkey: String,
    pub title: String,
    pub message: String,
}

impl MockNotificationConfig {
    pub open spec fn is_default(self) -> bool {
        &&& self.hotkey@ == DEFAULT_MOCK_HOTKEY@
        &&& self.title@ == DEFAULT_MOCK_TITLE@
        &&& self.message@ == DEFAULT_MOCK_MESSAGE@
    }
}

impl Default for MockNotificationConfig {
    fn default() -> (r: Self)
        ensures
            r.is_default(),
    {
        MockNotificationConfig {
            hotkey: String::from_str(DEFAULT_MOCK_HOTKEY),
            title: String::from_str(DEFAULT_MOCK_TITLE),
            message: String::from_str(DEFAULT_MOCK_MESSAGE),
        }
    }
}

/// The zoom settings that the hotkey logic reads: the single key, with no
/// modifiers, that toggles zoom. Empty means zoom and pan are disabled.
#[derive(Debug, Clone)]
pub struct ZoomConfig {
    pub key: String,
}

impl Default for ZoomConfig {
    fn default() -> (r: Self)
        ensures
            r.key@ == DEFAULT_ZOOM_KEY@,
    {
        ZoomConfig { key: String::from_str(DEFAULT_ZOOM_KEY) }
    }
}

/// The pin key used when the stored configuration names none.
pub fn default_pin_key() -> (key: String)
    ensures
        key@ == DEFAULT_PIN_KEY@,
{
    String::from_str(DEFAULT_PIN_KEY)
}

/// The whole configuration.
#[derive(Debug, Clone)]
pub struct Config {
    /// The camera hotkey, modifiers before the key.
    pub hotkey: String,
    pub region: Region,
    pub mock_notification: MockNotificationConfig,
    pub zoom: ZoomConfig,
    /// The key, with no modifiers, that pins the camera while its hotkey is
    /// held. Empty means pinning is disabled.
    pub pin_key: String,
}

impl Config {
    /// Every field holds its default.
    pub open spec fn is_default(self) -> bool {
        &&& self.hotkey@ == DEFAULT_HOTKEY@
        &&& self.region == (Region { x: 100, y: 100, width: 320, height: 240 })
        &&& self.mock_notification.is_default()
        &&& self.zoom.key@ == DEFAULT_ZOOM_KEY@
        &&& self.pin_key@ == DEFAULT_PIN_KEY@
    }
}

impl Default for Config {
    fn default() -> (r: Self)
        ensures
            r.is_default(),
    {
        Config {
            hotkey: String::from_str(DEFAULT_HOTKEY),
            region: Region::default(),
            mock_notification: MockNotificationConfig::default(),
            zoom: ZoomConfig::default(),
            pin_key: default_pin_key(),
        }
    }
}

/// What became of the attempt to read the stored configuration.
#[derive(Debug, Clone)]
pub enum ConfigSource {
    /// The configuration directory could not be resolved.
    NoConfigDir,
    /// The file could not be read, or does not exist yet.
    Unreadable,
    /// The file was read but does not hold a valid configuration.
    Malformed,
    /// The file holds this configuration.
    Parsed(Config),
}

/// The configuration to run with, and whether the default configuration is
/// to be written to the file.
#[derive(Debug, Clone)]
pub struct LoadedConfig {
    pub config: Config,
    pub write_default: bool,
}

/// Decides the configuration from what reading it gave. A stored valid
/// configuration is used as it is. Otherwise the defaults are used, and they
/// are written to the file unless the directory itself could not be resolved.
pub fn load_or_create_config(source: ConfigSource) -> (r: LoadedConfig)
    ensures
        match source {
            ConfigSource::Parsed(c) => r.config == c && !r.write_default,
            ConfigSource::NoConfigDir => r.config.is_default() && !r.write_default,
            _ => r.config.is_default() && r.write_default,
        },
{
    match source {
        ConfigSource::Parsed(config) => LoadedConfig { config, write_default: false },
        ConfigSource::NoConfigDir => LoadedConfig { config: Config::default(), write_default: false },
        _ => LoadedConfig { config: Config::default(), write_default: true },
    }
}

} // verus!
