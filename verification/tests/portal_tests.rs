use mir00r::config::Config;
use mir00r::overlay::ShortcutId;
use mir00r::portal::{non_empty, portal_shortcuts};

#[test]
fn non_empty_drops_empty_text() {
    assert_eq!(non_empty(""), None);
    assert_eq!(non_empty("Home"), Some("Home"));
}

fn ids(config: &Config) -> Vec<String> {
    portal_shortcuts(config).into_iter().map(|s| s.id).collect()
}

#[test]
fn default_config_binds_pin_but_not_zoom() {
    let c = Config::default();
    assert_eq!(
        ids(&c),
        vec!["camera", "mock", "pin", "pan_up", "pan_down", "pan_left", "pan_right"]
    );
    let list = portal_shortcuts(&c);
    assert_eq!(list[0].description, "Show camera");
    assert_eq!(list[0].preferred_trigger.as_deref(), Some("Home"));
    assert_eq!(list[1].description, "Toggle mock notification");
    assert_eq!(list[1].preferred_trigger.as_deref(), Some("Pause"));
    assert_eq!(list[2].description, "Pin camera");
    assert_eq!(list[2].preferred_trigger.as_deref(), Some("T"));
    assert_eq!(list[3].description, "Camera pan_up");
    assert_eq!(list[3].preferred_trigger, None);
    assert_eq!(list[6].description, "Camera pan_right");
}

#[test]
fn zoom_key_is_bound_when_set() {
    let mut c = Config::default();
    c.zoom.key = "F8".to_string();
    c.pin_key = String::new();
    c.hotkey = String::new();
    let list = portal_shortcuts(&c);
    assert_eq!(ids(&c), vec!["camera", "mock", "zoom", "pan_up", "pan_down", "pan_left", "pan_right"]);
    assert_eq!(list[0].preferred_trigger, None);
    assert_eq!(list[2].description, "Toggle zoom");
    assert_eq!(list[2].preferred_trigger.as_deref(), Some("F8"));
}

#[test]
fn every_bound_shortcut_is_handled() {
    let mut c = Config::default();
    c.zoom.key = "F8".to_string();
    for s in portal_shortcuts(&c) {
        assert!(ShortcutId::parse(&s.id).is_some(), "{}", s.id);
    }
}
