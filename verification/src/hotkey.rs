//! Hotkey accelerators: parsing them with the global-hotkey crate, checking a
//! configuration before it is saved, and turning a loaded configuration into
//! the shortcuts to register.
//!
//! The zoom and pin keys are optional: an empty key means the feature is
//! disabled, not that the key is malformed.
use crate::config::Config;
use crate::overlay::PanDirection;
use crate::key::{hotkey_parse_failure, parse_hotkey, ParsedKey};
use vstd::prelude::*;
use vstd::string::*;

verus! {

/// `prefix` followed by `rest`.
fn joined(prefix: &str, rest: &str) -> (s: String)
    ensures
        s@ == prefix@ + rest@,
{
    let mut s = String::from_str(prefix);
    s.append(rest);
    s
}

/// The message that `save_config` rejects a configuration with, if any: the
/// first of the camera hotkey, the notification hotkey, the zoom key and the
/// pin key that does not parse. Empty zoom and pin keys are accepted.
pub open spec fn validation_error(c: Config) -> Option<Seq<char>> {
    match hotkey_parse_failure(c.hotkey@) {
        Some(e) => Some("Invalid camera hotkey: "@ + e),
        None => match hotkey_parse_failure(c.mock_notification.hotkey@) {
            Some(e) => Some("Invalid notification hotkey: "@ + e),
            None => match optional_key_failure(c.zoom.key@) {
                Some(e) => Some("Invalid zoom key: "@ + e),
                None => match optional_key_failure(c.pin_key@) {
                    Some(e) => Some("Invalid pin key: "@ + e),
                    None => None,
                },
            },
        },
    }
}

/// Why an optional key does not parse: never when it is empty.
pub open spec fn optional_key_failure(key: Seq<char>) -> Option<Seq<char>> {
    if key.len() == 0 {
        None
    } else {
        hotkey_parse_failure(key)
    }
}

/// Parses an optional key: an empty key is no shortcut at all.
fn parse_optional(key: &str) -> (r: Result<Option<ParsedKey>, String>)
    ensures
        match r {
            Ok(h) => optional_key_failure(key@) is None && (h is None <==> key@.len() == 0)
                && (h matches Some(p) ==> p.source() == key@),
            Err(e) => optional_key_failure(key@) == Some(e@),
        },
{
    if key.is_empty() {
        Ok(None)
    } else {
        match parse_hotkey(key) {
            Ok(h) => Ok(Some(h)),
            Err(e) => Err(e),
        }
    }
}

/// Checks every hotkey of a configuration before it is saved, since a
/// broken configuration would stop the next launch.
pub fn validate_config(config: &Config) -> (r: Result<(), String>)
    ensures
        match r {
            Ok(()) => validation_error(*config) is None,
            Err(m) => validation_error(*config) == Some(m@),
        },
{
    if let Err(e) = parse_hotkey(config.hotkey.as_str()) {
        return Err(joined("Invalid camera hotkey: ", e.as_str()));
    }
    if let Err(e) = parse_hotkey(config.mock_notification.hotkey.as_str()) {
        return Err(joined("Invalid notification hotkey: ", e.as_str()));
    }
    if let Err(e) = parse_optional(config.zoom.key.as_str()) {
        return Err(joined("Invalid zoom key: ", e.as_str()));
    }
    if let Err(e) = parse_optional(config.pin_key.as_str()) {
        return Err(joined("Invalid pin key: ", e.as_str()));
    }
    Ok(())
}

/// The message for a key of the loaded configuration that does not parse:
/// `invalid <field> '<key>' in config: <error>`.
pub open spec fn config_key_message(field: Seq<char>, key: Seq<char>, e: Seq<char>) -> Seq<char> {
    "invalid "@ + field + " '"@ + key + "' in config: "@ + e
}

fn config_key_error(field: &str, key: &str, e: &str) -> (m: String)
    ensures
        m@ == config_key_message(field@, key@, e@),
{
    let mut m = String::from_str("invalid ");
    m.append(field);
    m.append(" '");
    m.append(key);
    m.append("' in config: ");
    m.append(e);
    m
}

/// The shortcuts registered at start-up around the camera hotkey.
pub struct HoldShortcuts {
    pub camera: ParsedKey,
    /// `None` when zoom is disabled.
    pub zoom: Option<ParsedKey>,
    /// `None` when pinning is disabled.
    pub pin: Option<ParsedKey>,
}

/// Why start-up refuses the camera, zoom and pin keys of a configuration,
/// if it does: the first of them, in that order, that does not parse.
pub open spec fn setup_error(c: Config) -> Option<Seq<char>> {
    match hotkey_parse_failure(c.hotkey@) {
        Some(e) => Some(config_key_message("hotkey"@, c.hotkey@, e)),
        None => match optional_key_failure(c.zoom.key@) {
            Some(e) => Some(config_key_message("zoom.key"@, c.zoom.key@, e)),
            None => match optional_key_failure(c.pin_key@) {
                Some(e) => Some(config_key_message("pin_key"@, c.pin_key@, e)),
                None => None,
            },
        },
    }
}

/// Parses the camera hotkey and the optional zoom and pin keys of a loaded
/// configuration. An empty zoom or pin key disables that feature.
pub fn setup_shortcuts(config: &Config) -> (r: Result<HoldShortcuts, String>)
    ensures
        match r {
            Ok(s) => setup_error(*config) is None
                && s.camera.source() == config.hotkey@
                && (s.zoom is None <==> config.zoom.key@.len() == 0)
                && (s.zoom matches Some(z) ==> z.source() == config.zoom.key@)
                && (s.pin is None <==> config.pin_key@.len() == 0)
                && (s.pin matches Some(p) ==> p.source() == config.pin_key@),
            Err(m) => setup_error(*config) == Some(m@),
        },
{
    let camera = match parse_hotkey(config.hotkey.as_str()) {
        Ok(h) => h,
        Err(e) => {
            return Err(config_key_error("hotkey", config.hotkey.as_str(), e.as_str()));
        },
    };
    let zoom = match parse_optional(config.zoom.key.as_str()) {
        Ok(h) => h,
        Err(e) => {
            return Err(config_key_error("zoom.key", config.zoom.key.as_str(), e.as_str()));
        },
    };
    let pin = match parse_optional(config.pin_key.as_str()) {
        Ok(h) => h,
        Err(e) => {
            return Err(config_key_error("pin_key", config.pin_key.as_str(), e.as_str()));
        },
    };
    Ok(HoldShortcuts { camera, zoom, pin })
}

/// Parses the mock notification hotkey of a loaded configuration.
pub fn mock_shortcut(config: &Config) -> (r: Result<ParsedKey, String>)
    ensures
        match r {
            Ok(p) => hotkey_parse_failure(config.mock_notification.hotkey@) is None
                && p.source() == config.mock_notification.hotkey@,
            Err(m) => hotkey_parse_failure(config.mock_notification.hotkey@) matches Some(e)
                && m@ == config_key_message(
                    "mock_notification.hotkey"@,
                    config.mock_notification.hotkey@,
                    e,
                ),
        },
{
    match parse_hotkey(config.mock_notification.hotkey.as_str()) {
        Ok(h) => Ok(h),
        Err(e) => Err(
            config_key_error(
                "mock_notification.hotkey",
                config.mock_notification.hotkey.as_str(),
                e.as_str(),
            ),
        ),
    }
}

/// The arrow-key shortcut of a pan direction, parsed from its accelerator.
pub fn pan_shortcut(dir: PanDirection) -> (r: Result<ParsedKey, String>)
    ensures
        match r {
            Ok(p) => hotkey_parse_failure(dir.key_text()) is None && p.source() == dir.key_text(),
            Err(e) => hotkey_parse_failure(dir.key_text()) == Some(e@),
        },
{
    parse_hotkey(dir.key())
}

} // verus!
