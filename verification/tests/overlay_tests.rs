use mir00r::overlay::{Action, Mode, OverlayState, PanDirection, ShortcutId, ZoomCommand};

use Action::{
    BindHoldKeys, Hide, SetMode, Show, StartPanRepeat, UnbindHoldKeys, UnbindPinKey, UnbindZoomPanKeys,
    Zoom,
};

#[test]
fn hold_shows_camera_release_hides() {
    let mut s = OverlayState::new();
    assert_eq!(s.camera_hold_handler(true, true), vec![SetMode(Mode::Camera), Show, BindHoldKeys]);
    assert!(s.camera_held);
    assert_eq!(
        s.camera_hold_handler(false, true),
        vec![UnbindHoldKeys, Zoom(ZoomCommand::Reset), Hide]
    );
    assert_eq!(s, OverlayState::new());
}

#[test]
fn camera_events_without_window_are_ignored() {
    let mut s = OverlayState::new();
    assert!(s.camera_hold_handler(true, false).is_empty());
    assert_eq!(s, OverlayState::new());
}

#[test]
fn release_falls_back_to_mock_notification() {
    let mut s = OverlayState::new();
    s.camera_hold_handler(true, true);
    assert_eq!(s.mock_toggle_handler(true, true), vec![SetMode(Mode::Mock), Show]);
    assert_eq!(
        s.camera_hold_handler(false, true),
        vec![UnbindHoldKeys, Zoom(ZoomCommand::Reset), SetMode(Mode::Mock), Show]
    );
    assert!(s.mock_on && !s.camera_held);
}

#[test]
fn mock_toggle_ignores_release_and_toggles_back() {
    let mut s = OverlayState::new();
    assert!(s.mock_toggle_handler(false, true).is_empty());
    assert_eq!(s.mock_toggle_handler(true, true), vec![SetMode(Mode::Mock), Show]);
    assert_eq!(s.mock_toggle_handler(true, true), vec![Hide]);
    assert_eq!(s, OverlayState::new());
}

#[test]
fn mock_off_while_held_returns_to_camera() {
    let mut s = OverlayState::new();
    s.camera_hold_handler(true, true);
    s.mock_toggle_handler(true, true);
    assert_eq!(s.mock_toggle_handler(true, true), vec![SetMode(Mode::Camera), Show]);
}

#[test]
fn pin_keeps_camera_open_after_release() {
    let mut s = OverlayState::new();
    s.camera_hold_handler(true, true);
    assert!(s.pin_key_handler(true, true).is_empty());
    assert!(s.pinned);
    assert_eq!(s.camera_hold_handler(false, true), vec![UnbindZoomPanKeys]);
    assert!(s.pinned && !s.camera_held);
    // a quick tap of the camera hotkey removes the pin and closes the view
    s.camera_hold_handler(true, true);
    assert!(!s.pinned);
    assert_eq!(
        s.camera_hold_handler(false, true),
        vec![UnbindHoldKeys, Zoom(ZoomCommand::Reset), Hide]
    );
}

#[test]
fn pin_key_twice_unpins() {
    let mut s = OverlayState::new();
    s.camera_hold_handler(true, true);
    assert!(s.pin_key_handler(true, true).is_empty());
    assert!(s.pin_key_handler(false, true).is_empty());
    assert!(s.pinned);
    assert!(s.pin_key_handler(true, true).is_empty());
    assert!(!s.pinned && s.camera_held);
}

#[test]
fn pin_key_again_removes_pin_after_release() {
    let mut s = OverlayState::new();
    s.camera_hold_handler(true, true);
    s.pin_key_handler(true, true);
    assert_eq!(s.camera_hold_handler(false, true), vec![UnbindZoomPanKeys]);
    assert_eq!(
        s.pin_key_handler(true, true),
        vec![UnbindPinKey, Zoom(ZoomCommand::Reset), Hide]
    );
    assert_eq!(s, OverlayState::new());
}

#[test]
fn pin_removal_falls_back_to_mock_notification() {
    let mut s = OverlayState::new();
    s.camera_hold_handler(true, true);
    s.pin_key_handler(true, true);
    s.mock_toggle_handler(true, true);
    s.camera_hold_handler(false, true);
    assert_eq!(
        s.pin_key_handler(true, true),
        vec![UnbindPinKey, Zoom(ZoomCommand::Reset), SetMode(Mode::Mock), Show]
    );
    assert_eq!(s.pin_key_handler(false, false), vec![]);
}

#[test]
fn mock_off_while_pinned_returns_to_camera() {
    let mut s = OverlayState::new();
    s.camera_hold_handler(true, true);
    s.pin_key_handler(true, true);
    s.camera_hold_handler(false, true);
    s.mock_toggle_handler(true, true);
    assert_eq!(s.mock_toggle_handler(true, true), vec![SetMode(Mode::Camera), Show]);
}

#[test]
fn zoom_key_toggles_zoom() {
    let s = OverlayState::new();
    assert_eq!(s.zoom_key_handler(true, true), vec![Zoom(ZoomCommand::Toggle)]);
    assert!(s.zoom_key_handler(false, true).is_empty());
    assert!(s.zoom_key_handler(true, false).is_empty());
}

#[test]
fn pan_key_pans_once_and_repeats_until_release() {
    let mut s = OverlayState::new();
    s.camera_hold_handler(true, true);
    assert_eq!(
        s.pan_key_handler(PanDirection::Left, true, true),
        vec![Zoom(ZoomCommand::Pan(PanDirection::Left)), StartPanRepeat(PanDirection::Left)]
    );
    assert!(s.pan_left_held);
    // a second press while held starts nothing
    assert!(s.pan_key_handler(PanDirection::Left, true, true).is_empty());
    assert_eq!(
        s.pan_repeat_tick(PanDirection::Left, true),
        Some(vec![Zoom(ZoomCommand::Pan(PanDirection::Left))])
    );
    assert_eq!(s.pan_repeat_tick(PanDirection::Left, false), Some(vec![]));
    assert_eq!(s.pan_repeat_tick(PanDirection::Right, true), None);
    assert!(s.pan_key_handler(PanDirection::Left, false, true).is_empty());
    assert_eq!(s.pan_repeat_tick(PanDirection::Left, true), None);
}

#[test]
fn pan_repeat_stops_on_camera_release() {
    let mut s = OverlayState::new();
    s.camera_hold_handler(true, true);
    s.pan_key_handler(PanDirection::Up, true, true);
    s.camera_hold_handler(false, true);
    assert_eq!(s.pan_repeat_tick(PanDirection::Up, true), None);
}

#[test]
fn pan_press_without_window_still_repeats() {
    let mut s = OverlayState::new();
    assert_eq!(
        s.pan_key_handler(PanDirection::Down, true, false),
        vec![StartPanRepeat(PanDirection::Down)]
    );
}

#[test]
fn fresh_pan_registration_clears_held_flag() {
    let mut s = OverlayState::new();
    s.pan_key_handler(PanDirection::Right, true, true);
    s.pan_key_registered(PanDirection::Right);
    assert!(!s.pan_right_held);
}

#[test]
fn portal_camera_and_mock() {
    let mut s = OverlayState::new();
    assert_eq!(s.handle_activated("camera", true), vec![SetMode(Mode::Camera), Show]);
    assert_eq!(s.handle_activated("mock", true), vec![SetMode(Mode::Mock), Show]);
    assert!(s.handle_deactivated("mock", true).is_empty());
    assert_eq!(
        s.handle_deactivated("camera", true),
        vec![Zoom(ZoomCommand::Reset), SetMode(Mode::Mock), Show]
    );
    assert_eq!(s.handle_activated("mock", true), vec![Hide]);
    assert_eq!(s, OverlayState::new());
}

#[test]
fn portal_hold_keys_need_the_camera() {
    let mut s = OverlayState::new();
    assert!(s.handle_activated("zoom", true).is_empty());
    assert!(s.handle_activated("pin", true).is_empty());
    assert!(s.handle_activated("pan_up", true).is_empty());
    assert_eq!(s, OverlayState::new());
    s.handle_activated("camera", true);
    assert_eq!(s.handle_activated("zoom", true), vec![Zoom(ZoomCommand::Toggle)]);
    assert!(s.handle_activated("pin", true).is_empty());
    assert!(s.pinned);
    assert_eq!(
        s.handle_activated("pan_up", true),
        vec![Zoom(ZoomCommand::Pan(PanDirection::Up)), StartPanRepeat(PanDirection::Up)]
    );
    assert!(s.handle_activated("pan_up", true).is_empty());
    assert!(s.handle_deactivated("pan_up", true).is_empty());
    assert!(!s.pan_up_held);
    // pinned: the release leaves the window as it is
    assert!(s.handle_deactivated("camera", true).is_empty());
    assert!(s.pinned && !s.camera_held);
    // the pin key again removes the pin and closes the view
    assert_eq!(s.handle_activated("pin", true), vec![Zoom(ZoomCommand::Reset), Hide]);
    assert_eq!(s, OverlayState::new());
}

#[test]
fn portal_ignores_unknown_ids_and_missing_window() {
    let mut s = OverlayState::new();
    assert!(s.handle_activated("Camera", true).is_empty());
    assert!(s.handle_activated("", true).is_empty());
    assert!(s.handle_activated("camera", false).is_empty());
    assert!(s.handle_deactivated("camera", false).is_empty());
    assert_eq!(s, OverlayState::new());
}

#[test]
fn shortcut_ids_parse() {
    assert_eq!(ShortcutId::parse("camera"), Some(ShortcutId::Camera));
    assert_eq!(ShortcutId::parse("mock"), Some(ShortcutId::Mock));
    assert_eq!(ShortcutId::parse("zoom"), Some(ShortcutId::Zoom));
    assert_eq!(ShortcutId::parse("pin"), Some(ShortcutId::Pin));
    assert_eq!(ShortcutId::parse("pan_right"), Some(ShortcutId::Pan(PanDirection::Right)));
    assert_eq!(ShortcutId::parse("pan"), None);
}

#[test]
fn payloads() {
    assert_eq!(Mode::Camera.payload(), "camera");
    assert_eq!(Mode::Mock.payload(), "mock");
    assert_eq!(ZoomCommand::Toggle.payload(), "toggle");
    assert_eq!(ZoomCommand::Reset.payload(), "reset");
    assert_eq!(ZoomCommand::Pan(PanDirection::Down).payload(), "pan_down");
    assert_eq!(PanDirection::Left.key(), "Left");
    assert_eq!(PanDirection::Up.action(), "pan_up");
}

#[test]
fn backends_reach_the_same_states() {
    let mut native = OverlayState::new();
    let mut portal = OverlayState::new();
    native.camera_hold_handler(true, true);
    portal.handle_activated("camera", true);
    assert_eq!(native, portal);
    native.mock_toggle_handler(true, true);
    portal.handle_activated("mock", true);
    assert_eq!(native, portal);
    native.pin_key_handler(true, true);
    portal.handle_activated("pin", true);
    assert_eq!(native, portal);
    let a = native.camera_hold_handler(false, true);
    let b = portal.handle_deactivated("camera", true);
    assert_eq!(native, portal);
    assert_eq!(a, vec![UnbindZoomPanKeys]);
    assert!(b.is_empty());
    let a = native.pin_key_handler(true, true);
    let b = portal.handle_activated("pin", true);
    assert_eq!(native, portal);
    assert_eq!(a, vec![UnbindPinKey, Zoom(ZoomCommand::Reset), SetMode(Mode::Mock), Show]);
    assert_eq!(b, vec![Zoom(ZoomCommand::Reset), SetMode(Mode::Mock), Show]);
}
