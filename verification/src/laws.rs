//! What holds of the overlay across events and across handlers.
use crate::config::Config;
use crate::overlay::{Action, Mode, OverlayState, PanDirection, ShortcutId, WindowView, ZoomCommand};
use crate::hotkey::{optional_key_failure, setup_error, validation_error};
use crate::key::hotkey_parse_failure;
use crate::portal::{pan_order, requested_for, trigger_of, PortalShortcut};
use vstd::prelude::*;

verus! {

/// Performing two runs of actions one after the other is performing their
/// concatenation.
pub proof fn lemma_apply_all_concat(w: WindowView, a: Seq<Action>, b: Seq<Action>)
    ensures
        w.apply_all(a + b) == w.apply_all(a).apply_all(b),
    decreases a.len(),
{
    if a.len() == 0 {
        assert(a + b =~= b);
    } else {
        assert((a + b).drop_first() =~= a.drop_first() + b);
        lemma_apply_all_concat(w.apply(a[0]), a.drop_first(), b);
    }
}

/// The window after a camera press, from either backend.
pub open spec fn camera_press_window() -> WindowView {
    WindowView { shown: true, mode: Mode::Camera }
}

/// Holding the camera hotkey shows the camera: whatever the window held
/// before, a press leaves it shown in the camera view, with the camera held
/// and any pin cleared.
pub proof fn law_press_shows_camera(s: OverlayState, w: WindowView)
    ensures
        w.apply_all(OverlayState::camera_press_view().push(Action::BindHoldKeys)) == camera_press_window(),
        w.apply_all(s.activation_view(ShortcutId::Camera)) == camera_press_window(),
        s.after_camera_press().camera_held,
        !s.after_camera_press().pinned,
        s.after_activation(ShortcutId::Camera) == s.after_camera_press(),
{
    reveal_with_fuel(WindowView::apply_all, 4);
}

/// Releasing the camera hotkey leaves a pinned window exactly as it is, and
/// keeps the pin key registered; otherwise the window falls back to the mock
/// notification if that is on, is hidden if it is not, and all the hold keys
/// are unregistered. The camera is no longer held, and the pin and the
/// notification are kept.
pub proof fn law_release(s: OverlayState, w: WindowView)
    ensures
        s.release_unbind() == (if s.pinned { Action::UnbindZoomPanKeys } else { Action::UnbindHoldKeys }),
        w.apply_all(seq![s.release_unbind()] + s.camera_release_view()) == (if s.pinned {
            w
        } else if s.mock_on {
            WindowView { shown: true, mode: Mode::Mock }
        } else {
            WindowView { shown: false, ..w }
        }),
        w.apply_all(s.deactivation_view(ShortcutId::Camera)) == w.apply_all(
            seq![s.release_unbind()] + s.camera_release_view(),
        ),
        !s.after_camera_release().camera_held,
        s.after_camera_release().pinned == s.pinned,
        s.after_camera_release().mock_on == s.mock_on,
{
    reveal_with_fuel(WindowView::apply_all, 5);
    lemma_apply_all_concat(w, seq![s.release_unbind()], s.camera_release_view());
}

/// A quick tap of the camera hotkey (a press, then a release) with the mock
/// notification off closes the view, even where it was pinned before.
pub proof fn law_tap_closes_view(s: OverlayState, w: WindowView)
    requires
        !s.mock_on,
    ensures
        ({
            let held = s.after_camera_press();
            let actions = OverlayState::camera_press_view().push(Action::BindHoldKeys) + (
            seq![held.release_unbind()] + held.camera_release_view());
            &&& !w.apply_all(actions).shown
            &&& held.release_unbind() == Action::UnbindHoldKeys
            &&& !held.after_camera_release().pinned
            &&& !held.after_camera_release().camera_held
        }),
{
    let held = s.after_camera_press();
    let press = OverlayState::camera_press_view().push(Action::BindHoldKeys);
    lemma_apply_all_concat(w, press, seq![held.release_unbind()] + held.camera_release_view());
    law_press_shows_camera(s, w);
    law_release(held, w.apply_all(press));
}

/// Pressing the pin key while the camera hotkey is held keeps the camera
/// open at release: after a press, a pin and a release, the window still
/// shows the camera, the pin stays, and the pin key stays registered.
pub proof fn law_pin_keeps_camera(s: OverlayState, w: WindowView)
    ensures
        ({
            let pinned = s.after_camera_press().after_pin_toggle();
            let actions = OverlayState::camera_press_view().push(Action::BindHoldKeys) + (
            seq![pinned.release_unbind()] + pinned.camera_release_view());
            &&& w.apply_all(actions) == camera_press_window()
            &&& pinned.release_unbind() == Action::UnbindZoomPanKeys
            &&& pinned.after_camera_release().pinned
        }),
        // the same through the portal, where the pin key acts while the camera is held
        ({
            let held = s.after_activation(ShortcutId::Camera);
            let pinned = held.after_activation(ShortcutId::Pin);
            &&& w.apply_all(s.activation_view(ShortcutId::Camera) + held.activation_view(ShortcutId::Pin)
                + pinned.deactivation_view(ShortcutId::Camera)) == camera_press_window()
            &&& pinned.after_deactivation(ShortcutId::Camera).pinned
        }),
{
    let pinned = s.after_camera_press().after_pin_toggle();
    let press = OverlayState::camera_press_view().push(Action::BindHoldKeys);
    lemma_apply_all_concat(w, press, seq![pinned.release_unbind()] + pinned.camera_release_view());
    law_press_shows_camera(s, w);
    law_release(pinned, w.apply_all(press));
    let held = s.after_activation(ShortcutId::Camera);
    let a = s.activation_view(ShortcutId::Camera);
    let b = held.activation_view(ShortcutId::Pin);
    let c = held.after_activation(ShortcutId::Pin).deactivation_view(ShortcutId::Camera);
    assert(b =~= Seq::<Action>::empty());
    assert(a + b =~= a);
    assert(c =~= Seq::<Action>::empty());
    assert(a + b + c =~= a);
}

/// Pressing the pin key again removes the pin.
pub proof fn law_pin_twice_restores(s: OverlayState)
    ensures
        s.after_pin_toggle().after_pin_toggle() == s,
{
}

/// The mock notification is a toggle: two presses restore the state.
pub proof fn law_mock_toggle_twice_restores(s: OverlayState)
    ensures
        s.after_mock_toggle().after_mock_toggle() == s,
        s.after_activation(ShortcutId::Mock).after_activation(ShortcutId::Mock) == s,
{
}

/// Turning the mock notification on brings it to the front, also while the
/// camera is held; turning it off shows the camera again if that is held or
/// pinned, and hides the window otherwise.
pub proof fn law_mock_toggle_view(s: OverlayState, w: WindowView)
    ensures
        ({
            let after = w.apply_all(s.mock_toggle_view());
            &&& s.after_mock_toggle().mock_on ==> after == (WindowView { shown: true, mode: Mode::Mock })
            &&& !s.after_mock_toggle().mock_on && (s.camera_held || s.pinned) ==> after == camera_press_window()
            &&& !s.after_mock_toggle().mock_on && !s.camera_held && !s.pinned ==> !after.shown
        }),
        s.activation_view(ShortcutId::Mock) == s.mock_toggle_view(),
{
    reveal_with_fuel(WindowView::apply_all, 3);
}

/// Through the portal, the zoom, pin and pan shortcuts do nothing unless the
/// camera hotkey is held, save the pin key removing a pin.
pub proof fn law_hold_keys_inert_without_camera(s: OverlayState, id: ShortcutId)
    requires
        !s.camera_held,
        id != ShortcutId::Camera,
        id != ShortcutId::Mock,
        id == ShortcutId::Pin ==> !s.pinned,
    ensures
        s.after_activation(id) == s,
        s.activation_view(id) == Seq::<Action>::empty(),
{
}

/// The release of a toggle (mock notification, zoom, pin) changes nothing.
pub proof fn law_toggle_release_is_noop(s: OverlayState, id: ShortcutId)
    requires
        id == ShortcutId::Mock || id == ShortcutId::Zoom || id == ShortcutId::Pin,
    ensures
        s.after_deactivation(id) == s,
        s.deactivation_view(id) == Seq::<Action>::empty(),
{
}

/// A pan repeat keeps going only while both its key and the camera hotkey
/// are held: it stops once its key is released (from either backend) or
/// the camera hotkey is released, and the other pan keys do not affect it.
pub proof fn law_pan_repeat_stops(s: OverlayState, dir: PanDirection, other: PanDirection, held: bool)
    ensures
        !s.with_pan_held(dir, false).pan_held(dir),
        !s.after_deactivation(ShortcutId::Pan(dir)).pan_held(dir),
        !s.after_camera_release().camera_held,
        !s.after_deactivation(ShortcutId::Camera).camera_held,
        s.after_camera_release().pan_held(dir) == s.pan_held(dir),
        other != dir ==> s.with_pan_held(other, held).pan_held(dir) == s.pan_held(dir),
        s.with_pan_held(dir, held).camera_held == s.camera_held,
{
}

/// A pan key pressed while it is already held starts no second repeat, in
/// either backend.
pub proof fn law_pan_single_repeat(s: OverlayState, dir: PanDirection)
    requires
        s.pan_held(dir),
    ensures
        s.after_activation(ShortcutId::Pan(dir)) == s,
        s.activation_view(ShortcutId::Pan(dir)) == Seq::<Action>::empty(),
{
}

/// The two backends agree: the portal's camera and mock shortcuts change the
/// state as the native hotkeys do, and act on the window alike; the native
/// backend adds only the registering and unregistering of the hold keys.
/// The pin key acts alike in both while the camera is held, and when it
/// removes a pin that outlived the camera hotkey.
/// While the camera is held, a portal pan or zoom shortcut acts as the
/// native key does with the window present.
pub proof fn law_backends_agree(s: OverlayState, dir: PanDirection)
    ensures
        s.after_activation(ShortcutId::Camera) == s.after_camera_press(),
        s.activation_view(ShortcutId::Camera).push(Action::BindHoldKeys)
            == OverlayState::camera_press_view().push(Action::BindHoldKeys),
        s.after_deactivation(ShortcutId::Camera) == s.after_camera_release(),
        seq![s.release_unbind()] + s.deactivation_view(ShortcutId::Camera) == seq![
            s.release_unbind(),
        ] + s.camera_release_view(),
        s.camera_held || s.removes_kept_pin() ==> s.after_activation(ShortcutId::Pin)
            == s.after_pin_toggle(),
        s.removes_kept_pin() ==> s.activation_view(ShortcutId::Pin) == s.closing_view(),
        s.after_activation(ShortcutId::Mock) == s.after_mock_toggle(),
        s.activation_view(ShortcutId::Mock) == s.mock_toggle_view(),
        s.camera_held ==> s.activation_view(ShortcutId::Zoom) == seq![Action::Zoom(ZoomCommand::Toggle)],
        s.camera_held && !s.pan_held(dir) ==> s.after_activation(ShortcutId::Pan(dir)) == s.with_pan_held(
            dir,
            true,
        ) && s.activation_view(ShortcutId::Pan(dir)) == OverlayState::pan_view(dir, true).push(
            Action::StartPanRepeat(dir),
        ),
{
    assert(OverlayState::pan_view(dir, true).push(Action::StartPanRepeat(dir)) =~= seq![
        Action::Zoom(ZoomCommand::Pan(dir)),
        Action::StartPanRepeat(dir),
    ]);
}

/// Each shortcut is recognized by its own identifier, and by no other.
pub proof fn law_shortcut_ids_round_trip(id: ShortcutId)
    ensures
        ShortcutId::from_text(id.id_text()) == Some(id),
{
    reveal_strlit("camera");
    reveal_strlit("mock");
    reveal_strlit("zoom");
    reveal_strlit("pin");
    reveal_strlit("pan_up");
    reveal_strlit("pan_down");
    reveal_strlit("pan_left");
    reveal_strlit("pan_right");
    assert("camera"@.len() == 6 && "pan_up"@.len() == 6 && "pin"@.len() == 3);
    assert("mock"@.len() == 4 && "zoom"@.len() == 4 && "pan_right"@.len() == 9);
    assert("pan_down"@.len() == 8 && "pan_left"@.len() == 8);
    // identifiers of equal length differ in one character
    assert("camera"@[0] != "pan_up"@[0]);
    assert("mock"@[0] != "zoom"@[0]);
    assert("pan_down"@[4] != "pan_left"@[4]);
}

/// Every shortcut requested from the portal is one that the activation and
/// deactivation handlers recognize.
pub proof fn law_requested_shortcuts_are_handled(list: Seq<PortalShortcut>, config: Config)
    requires
        requested_for(list, config),
    ensures
        forall|i: int| 0 <= i < list.len() ==> (#[trigger] ShortcutId::from_text(list[i].id@)) is Some,
{
    law_shortcut_ids_round_trip(ShortcutId::Camera);
    law_shortcut_ids_round_trip(ShortcutId::Mock);
    law_shortcut_ids_round_trip(ShortcutId::Zoom);
    law_shortcut_ids_round_trip(ShortcutId::Pin);
    let zoom = config.zoom.key@.len() != 0;
    let pin = config.pin_key@.len() != 0;
    let fixed: int = 2 + (if zoom { 1int } else { 0 }) + (if pin { 1int } else { 0 });
    assert forall|i: int| 0 <= i < list.len() implies (#[trigger] ShortcutId::from_text(list[i].id@)) is Some by {
        if i >= fixed {
            let k = i - fixed;
            assert(list[fixed + k].id@ == ShortcutId::Pan(pan_order()[k]).id_text());
            law_shortcut_ids_round_trip(ShortcutId::Pan(pan_order()[k]));
        }
    }
}

/// A configuration is accepted for saving exactly when it would load at
/// the next start: its camera, zoom and pin keys pass start-up and its mock
/// notification hotkey parses. So a saved configuration cannot stop the
/// next launch.
pub proof fn law_saved_config_loads(config: Config)
    ensures
        validation_error(config) is None <==> (setup_error(config) is None
            && hotkey_parse_failure(config.mock_notification.hotkey@) is None),
{
}

/// Disabling the zoom or the pin key (leaving it empty) never makes a
/// configuration invalid, for saving or for start-up.
pub proof fn law_disabling_keys_keeps_config_valid(c: Config, d: Config)
    requires
        d.hotkey@ == c.hotkey@,
        d.mock_notification.hotkey@ == c.mock_notification.hotkey@,
        d.zoom.key@ == c.zoom.key@ || d.zoom.key@.len() == 0,
        d.pin_key@ == c.pin_key@ || d.pin_key@.len() == 0,
    ensures
        validation_error(c) is None ==> validation_error(d) is None,
        setup_error(c) is None ==> setup_error(d) is None,
{
}

/// Pressing the pin key again removes the pin, also after the camera hotkey
/// was released: after a press, a pin, a release and another pin press, the
/// camera is unpinned, the pin key is unregistered and the view closes (it
/// falls back to the mock notification if that is on, else hides). The
/// portal behaves alike.
pub proof fn law_pin_again_removes_pin(s: OverlayState, w: WindowView)
    ensures
        ({
            let kept = s.after_camera_press().after_pin_toggle().after_camera_release();
            &&& kept.pinned
            &&& kept.removes_kept_pin()
            &&& !kept.after_pin_toggle().pinned
            &&& w.apply_all(seq![Action::UnbindPinKey] + kept.closing_view()) == (if s.mock_on {
                WindowView { shown: true, mode: Mode::Mock }
            } else {
                WindowView { shown: false, ..w }
            })
        }),
        ({
            let kept = s.after_activation(ShortcutId::Camera).after_activation(
                ShortcutId::Pin,
            ).after_deactivation(ShortcutId::Camera);
            &&& kept.pinned
            &&& !kept.after_activation(ShortcutId::Pin).pinned
            &&& kept.activation_view(ShortcutId::Pin) == kept.closing_view()
        }),
{
    reveal_with_fuel(WindowView::apply_all, 5);
}

/// While the camera hotkey is held, a portal pin activation only flips the
/// pin: it leaves the window exactly as it is (still showing the camera),
/// and changes no other flag.
pub proof fn law_portal_pin_while_held_keeps_window(s: OverlayState, w: WindowView)
    requires
        s.camera_held,
    ensures
        w.apply_all(s.activation_view(ShortcutId::Pin)) == w,
        s.activation_view(ShortcutId::Pin).len() == 0,
        ({
            let t = s.after_activation(ShortcutId::Pin);
            &&& t.pinned == !s.pinned
            &&& t.camera_held && t.mock_on == s.mock_on
            &&& t.pan_up_held == s.pan_up_held && t.pan_down_held == s.pan_down_held
            &&& t.pan_left_held == s.pan_left_held && t.pan_right_held == s.pan_right_held
        }),
{
}

/// Releasing a pan shortcut performs no action on the window; it only
/// clears that key's held flag, leaving the camera, mock, pin and other
/// pan flags as they were.
pub proof fn law_portal_pan_release_only_clears_its_flag(
    s: OverlayState,
    dir: PanDirection,
    other: PanDirection,
    w: WindowView,
)
    ensures
        s.deactivation_view(ShortcutId::Pan(dir)).len() == 0,
        w.apply_all(s.deactivation_view(ShortcutId::Pan(dir))) == w,
        ({
            let t = s.after_deactivation(ShortcutId::Pan(dir));
            &&& !t.pan_held(dir)
            &&& t.camera_held == s.camera_held
            &&& t.mock_on == s.mock_on
            &&& t.pinned == s.pinned
            &&& other != dir ==> t.pan_held(other) == s.pan_held(other)
        }),
{
}

/// The held flag of each pan direction is its own field of the state, and
/// marking a key held makes it held: after a fresh press with the camera
/// held, in either backend, the repeat of that direction keeps going.
pub proof fn law_pan_press_keeps_repeating(s: OverlayState, dir: PanDirection, held: bool)
    ensures
        s.pan_held(PanDirection::Up) == s.pan_up_held,
        s.pan_held(PanDirection::Down) == s.pan_down_held,
        s.pan_held(PanDirection::Left) == s.pan_left_held,
        s.pan_held(PanDirection::Right) == s.pan_right_held,
        s.with_pan_held(dir, held).pan_held(dir) == held,
        s.camera_held && !s.pan_held(dir) ==> {
            let t = s.with_pan_held(dir, true);
            &&& t.pan_held(dir) && t.camera_held
            &&& s.after_activation(ShortcutId::Pan(dir)) == t
        },
{
}

/// A non-empty zoom or pin key is refused exactly when it does not parse,
/// with the parser's own message; an empty one is never refused. So saving
/// refuses a configuration exactly when one of its keys fails to parse.
pub proof fn law_optional_keys_refused_only_when_unparsable(key: Seq<char>, c: Config)
    ensures
        key.len() != 0 ==> optional_key_failure(key) == hotkey_parse_failure(key),
        key.len() == 0 ==> optional_key_failure(key) is None,
        validation_error(c) is None <==> {
            &&& hotkey_parse_failure(c.hotkey@) is None
            &&& hotkey_parse_failure(c.mock_notification.hotkey@) is None
            &&& (c.zoom.key@.len() == 0 || hotkey_parse_failure(c.zoom.key@) is None)
            &&& (c.pin_key@.len() == 0 || hotkey_parse_failure(c.pin_key@) is None)
        },
        setup_error(c) is None <==> {
            &&& hotkey_parse_failure(c.hotkey@) is None
            &&& (c.zoom.key@.len() == 0 || hotkey_parse_failure(c.zoom.key@) is None)
            &&& (c.pin_key@.len() == 0 || hotkey_parse_failure(c.pin_key@) is None)
        },
{
}

/// Each shortcut requested from the portal asks for its configured key as
/// preferred trigger whenever that key is set, and for none when it is empty.
pub proof fn law_requested_triggers_are_configured_keys(
    key: Seq<char>,
    list: Seq<PortalShortcut>,
    c: Config,
)
    requires
        requested_for(list, c),
    ensures
        key.len() != 0 ==> trigger_of(key) == Some(key),
        key.len() == 0 ==> trigger_of(key) is None,
        c.hotkey@.len() != 0 ==> (list[0].preferred_trigger matches Some(t) && t@ == c.hotkey@),
        c.hotkey@.len() == 0 ==> list[0].preferred_trigger is None,
        c.mock_notification.hotkey@.len() != 0 ==> (list[1].preferred_trigger matches Some(t)
            && t@ == c.mock_notification.hotkey@),
        c.mock_notification.hotkey@.len() == 0 ==> list[1].preferred_trigger is None,
        c.zoom.key@.len() != 0 ==> (list[2].preferred_trigger matches Some(t) && t@ == c.zoom.key@),
{
}

} // verus!
