//! The overlay state machine.
//!
//! Two hotkey backends drive the same overlay window: the native one, where
//! the zoom, pin and pan keys are registered only while the camera hotkey is
//! held, and the desktop-portal one, where every shortcut is bound for the
//! whole session and the same gating is done here in software. Each handler
//! takes the current state and an event, updates the state and returns the
//! actions the caller must perform on the window, in order.
use vstd::prelude::*;

verus! {

/// What the shared overlay window displays.
#[derive(Debug, Clone, Copy, PartialEq, Eq, Structural)]
pub enum Mode {
    Camera,
    Mock,
}

/// One of the four arrow keys that pan the zoomed camera view.
#[derive(Debug, Clone, Copy, PartialEq, Eq, Structural)]
pub enum PanDirection {
    Up,
    Down,
    Left,
    Right,
}

/// A command for the zoom/pan logic of the camera view.
#[derive(Debug, Clone, Copy, PartialEq, Eq, Structural)]
pub enum ZoomCommand {
    Toggle,
    Reset,
    Pan(PanDirection),
}

/// Something the caller must do on the overlay window or the shortcut registry.
#[derive(Debug, Clone, Copy, PartialEq, Eq, Structural)]
pub enum Action {
    /// Send the mode event, switching the window's view.
    SetMode(Mode),
    /// Send a zoom/pan command to the camera view.
    Zoom(ZoomCommand),
    /// Show the window.
    Show,
    /// Hide the window.
    Hide,
    /// Register the zoom, pin and pan keys that are not registered yet.
    BindHoldKeys,
    /// Unregister the zoom, pin and pan keys.
    UnbindHoldKeys,
    /// Unregister the zoom and pan keys, keeping the pin key registered so
    /// that pressing it again can remove the pin.
    UnbindZoomPanKeys,
    /// Unregister the pin key, once the pin it kept is removed.
    UnbindPinKey,
    /// Start repeating the pan command of this direction while its key is held.
    StartPanRepeat(PanDirection),
}

/// The flags shared by all handlers.
#[derive(Debug, Clone, Copy, PartialEq, Eq, Structural)]
pub struct OverlayState {
    pub camera_held: bool,
    pub mock_on: bool,
    pub pinned: bool,
    pub pan_up_held: bool,
    pub pan_down_held: bool,
    pub pan_left_held: bool,
    pub pan_right_held: bool,
}

impl OverlayState {
    /// Nothing held, nothing pinned, the mock notification off.
    pub fn new() -> (s: Self)
        ensures
            s == OverlayState::initial(),
    {
        OverlayState {
            camera_held: false,
            mock_on: false,
            pinned: false,
            pan_up_held: false,
            pan_down_held: false,
            pan_left_held: false,
            pan_right_held: false,
        }
    }

    pub open spec fn initial() -> Self {
        OverlayState {
            camera_held: false,
            mock_on: false,
            pinned: false,
            pan_up_held: false,
            pan_down_held: false,
            pan_left_held: false,
            pan_right_held: false,
        }
    }

    /// Whether the pan key of `dir` is currently held down.
    pub open spec fn pan_held(self, dir: PanDirection) -> bool {
        match dir {
            PanDirection::Up => self.pan_up_held,
            PanDirection::Down => self.pan_down_held,
            PanDirection::Left => self.pan_left_held,
            PanDirection::Right => self.pan_right_held,
        }
    }

    /// This state with the held flag of `dir` set to `held`.
    pub open spec fn with_pan_held(self, dir: PanDirection, held: bool) -> Self {
        match dir {
            PanDirection::Up => OverlayState { pan_up_held: held, ..self },
            PanDirection::Down => OverlayState { pan_down_held: held, ..self },
            PanDirection::Left => OverlayState { pan_left_held: held, ..self },
            PanDirection::Right => OverlayState { pan_right_held: held, ..self },
        }
    }

    /// A fresh press of the camera hotkey clears any pin and marks it held.
    pub open spec fn after_camera_press(self) -> Self {
        OverlayState { pinned: false, camera_held: true, ..self }
    }

    pub open spec fn after_camera_release(self) -> Self {
        OverlayState { camera_held: false, ..self }
    }

    pub open spec fn after_mock_toggle(self) -> Self {
        OverlayState { mock_on: !self.mock_on, ..self }
    }

    pub open spec fn after_pin_toggle(self) -> Self {
        OverlayState { pinned: !self.pinned, ..self }
    }

    /// What a camera press shows: the camera view, made visible.
    pub open spec fn camera_press_view() -> Seq<Action> {
        seq![Action::SetMode(Mode::Camera), Action::Show]
    }

    /// Closing the camera view: reset the zoom, then fall back to the mock
    /// notification if it is on, else hide the window.
    pub open spec fn closing_view(self) -> Seq<Action> {
        if self.mock_on {
            seq![Action::Zoom(ZoomCommand::Reset), Action::SetMode(Mode::Mock), Action::Show]
        } else {
            seq![Action::Zoom(ZoomCommand::Reset), Action::Hide]
        }
    }

    /// What a camera release does to the window, decided on the state
    /// before the release: nothing while pinned; otherwise close the view.
    pub open spec fn camera_release_view(self) -> Seq<Action> {
        if self.pinned {
            Seq::empty()
        } else {
            self.closing_view()
        }
    }

    /// Which keys a camera release unregisters: while pinned, all but the
    /// pin key, which must still be able to remove the pin; otherwise all.
    pub open spec fn release_unbind(self) -> Action {
        if self.pinned {
            Action::UnbindZoomPanKeys
        } else {
            Action::UnbindHoldKeys
        }
    }

    /// A pin key press removes a pin that outlived the camera hotkey: the
    /// pinned view is what the pin is removed from.
    pub open spec fn removes_kept_pin(self) -> bool {
        self.pinned && !self.camera_held
    }

    /// What toggling the mock notification does to the window, decided on
    /// the state before the toggle: turning it on shows it; turning it off
    /// falls back to the camera if that is held or pinned, else hides.
    pub open spec fn mock_toggle_view(self) -> Seq<Action> {
        if !self.mock_on {
            seq![Action::SetMode(Mode::Mock), Action::Show]
        } else if self.camera_held || self.pinned {
            seq![Action::SetMode(Mode::Camera), Action::Show]
        } else {
            seq![Action::Hide]
        }
    }

    fn set_pan_held(&mut self, dir: PanDirection, held: bool)
        ensures
            *final(self) == old(self).with_pan_held(dir, held),
    {
        match dir {
            PanDirection::Up => self.pan_up_held = held,
            PanDirection::Down => self.pan_down_held = held,
            PanDirection::Left => self.pan_left_held = held,
            PanDirection::Right => self.pan_right_held = held,
        }
    }

    fn is_pan_held(&self, dir: PanDirection) -> (b: bool)
        ensures
            b == self.pan_held(dir),
    {
        match dir {
            PanDirection::Up => self.pan_up_held,
            PanDirection::Down => self.pan_down_held,
            PanDirection::Left => self.pan_left_held,
            PanDirection::Right => self.pan_right_held,
        }
    }

    fn press_camera(&mut self) -> (actions: Vec<Action>)
        ensures
            *final(self) == old(self).after_camera_press(),
            actions@ == OverlayState::camera_press_view(),
    {
        self.pinned = false;
        self.camera_held = true;
        let mut actions: Vec<Action> = Vec::new();
        actions.push(Action::SetMode(Mode::Camera));
        actions.push(Action::Show);
        actions
    }

    fn close_view(&self, actions: &mut Vec<Action>)
        ensures
            final(actions)@ == old(actions)@ + self.closing_view(),
    {
        actions.push(Action::Zoom(ZoomCommand::Reset));
        if self.mock_on {
            actions.push(Action::SetMode(Mode::Mock));
            actions.push(Action::Show);
        } else {
            actions.push(Action::Hide);
        }
    }

    fn release_camera(&mut self, actions: &mut Vec<Action>)
        ensures
            *final(self) == old(self).after_camera_release(),
            final(actions)@ == old(actions)@ + old(self).camera_release_view(),
    {
        self.camera_held = false;
        if self.pinned {
            assert(old(actions)@ + Seq::<Action>::empty() == old(actions)@);
            return;
        }
        self.close_view(actions);
    }

    fn toggle_mock(&mut self) -> (actions: Vec<Action>)
        ensures
            *final(self) == old(self).after_mock_toggle(),
            actions@ == old(self).mock_toggle_view(),
    {
        let now_on = !self.mock_on;
        self.mock_on = now_on;
        let mut actions: Vec<Action> = Vec::new();
        if now_on {
            actions.push(Action::SetMode(Mode::Mock));
            actions.push(Action::Show);
        } else if self.camera_held || self.pinned {
            actions.push(Action::SetMode(Mode::Camera));
            actions.push(Action::Show);
        } else {
            actions.push(Action::Hide);
        }
        actions
    }

    /// The camera hotkey is held to show the camera and released to hide
    /// it. A press clears any pin, shows the camera view and registers the
    /// zoom, pin and pan keys; a release unregisters them and, unless the
    /// camera is pinned, resets the zoom and falls back to the mock
    /// notification or hides the window. A pinned release keeps the pin key
    /// registered. Without the overlay window the event is ignored.
    pub fn camera_hold_handler(&mut self, pressed: bool, overlay_open: bool) -> (actions: Vec<Action>)
        ensures
            !overlay_open ==> *final(self) == *old(self) && actions@ == Seq::<Action>::empty(),
            overlay_open && pressed ==> *final(self) == old(self).after_camera_press()
                && actions@ == OverlayState::camera_press_view().push(Action::BindHoldKeys),
            overlay_open && !pressed ==> *final(self) == old(self).after_camera_release()
                && actions@ == seq![old(self).release_unbind()] + old(self).camera_release_view(),
    {
        if !overlay_open {
            return Vec::new();
        }
        if pressed {
            let mut actions = self.press_camera();
            actions.push(Action::BindHoldKeys);
            actions
        } else {
            let mut actions: Vec<Action> = Vec::new();
            if self.pinned {
                actions.push(Action::UnbindZoomPanKeys);
            } else {
                actions.push(Action::UnbindHoldKeys);
            }
            self.release_camera(&mut actions);
            actions
        }
    }

    /// The mock notification key is a toggle: a press turns the fake
    /// notification on or off, a release does nothing. Turning it on shows
    /// it; turning it off falls back to the camera view while the camera is
    /// held or pinned, and hides the window otherwise. Without the overlay
    /// window the event is ignored.
    pub fn mock_toggle_handler(&mut self, pressed: bool, overlay_open: bool) -> (actions: Vec<Action>)
        ensures
            !(pressed && overlay_open) ==> *final(self) == *old(self) && actions@ == Seq::<Action>::empty(),
            pressed && overlay_open ==> *final(self) == old(self).after_mock_toggle()
                && actions@ == old(self).mock_toggle_view(),
    {
        if !pressed || !overlay_open {
            return Vec::new();
        }
        self.toggle_mock()
    }

    /// The zoom key, registered while the camera hotkey is held: a press
    /// toggles the zoom of the camera view.
    pub fn zoom_key_handler(&self, pressed: bool, overlay_open: bool) -> (actions: Vec<Action>)
        ensures
            pressed && overlay_open ==> actions@ == seq![Action::Zoom(ZoomCommand::Toggle)],
            !(pressed && overlay_open) ==> actions@ == Seq::<Action>::empty(),
    {
        let mut actions: Vec<Action> = Vec::new();
        if pressed && overlay_open {
            actions.push(Action::Zoom(ZoomCommand::Toggle));
        }
        actions
    }

    /// The pin key, registered while the camera hotkey is held and for as
    /// long as a pin outlives it: a press flips the pin, a release does
    /// nothing. A press that removes a pin kept after the camera hotkey was
    /// released unregisters the pin key and closes the pinned view.
    pub fn pin_key_handler(&mut self, pressed: bool, overlay_open: bool) -> (actions: Vec<Action>)
        ensures
            pressed ==> *final(self) == old(self).after_pin_toggle(),
            pressed && old(self).removes_kept_pin() ==> actions@ == seq![Action::UnbindPinKey] + (
            if overlay_open {
                old(self).closing_view()
            } else {
                Seq::empty()
            }),
            pressed && !old(self).removes_kept_pin() ==> actions@ == Seq::<Action>::empty(),
            !pressed ==> *final(self) == *old(self) && actions@ == Seq::<Action>::empty(),
    {
        let mut actions: Vec<Action> = Vec::new();
        if !pressed {
            return actions;
        }
        let removes_kept_pin = self.pinned && !self.camera_held;
        self.pinned = !self.pinned;
        if removes_kept_pin {
            actions.push(Action::UnbindPinKey);
            if overlay_open {
                self.close_view(&mut actions);
            }
        }
        actions
    }

    /// A pan key was freshly registered: its held flag starts cleared.
    pub fn pan_key_registered(&mut self, dir: PanDirection)
        ensures
            *final(self) == old(self).with_pan_held(dir, false),
    {
        self.set_pan_held(dir, false);
    }

    /// A pan key, registered while the camera hotkey is held. The key fires
    /// a single press, so the first press pans once and starts a repeat that
    /// runs until the key is released; a press while already held does
    /// nothing. A release clears the held flag.
    pub fn pan_key_handler(&mut self, dir: PanDirection, pressed: bool, overlay_open: bool) -> (actions: Vec<Action>)
        ensures
            pressed && old(self).pan_held(dir) ==> *final(self) == *old(self)
                && actions@ == Seq::<Action>::empty(),
            pressed && !old(self).pan_held(dir) ==> *final(self) == old(self).with_pan_held(dir, true)
                && actions@ == OverlayState::pan_view(dir, overlay_open).push(Action::StartPanRepeat(dir)),
            !pressed ==> *final(self) == old(self).with_pan_held(dir, false)
                && actions@ == Seq::<Action>::empty(),
    {
        let mut actions: Vec<Action> = Vec::new();
        if !pressed {
            self.set_pan_held(dir, false);
            return actions;
        }
        if self.is_pan_held(dir) {
            return actions;
        }
        self.set_pan_held(dir, true);
        if overlay_open {
            actions.push(Action::Zoom(ZoomCommand::Pan(dir)));
        }
        actions.push(Action::StartPanRepeat(dir));
        actions
    }

    /// One pan step of `dir`, sent only while the overlay window exists.
    pub open spec fn pan_view(dir: PanDirection, overlay_open: bool) -> Seq<Action> {
        if overlay_open {
            seq![Action::Zoom(ZoomCommand::Pan(dir))]
        } else {
            Seq::empty()
        }
    }

    /// One tick of a pan repeat. The repeat stops (`None`) once the pan key
    /// or the camera hotkey is no longer held; otherwise it pans once more.
    pub fn pan_repeat_tick(&self, dir: PanDirection, overlay_open: bool) -> (step: Option<Vec<Action>>)
        ensures
            step is None <==> !(self.pan_held(dir) && self.camera_held),
            step matches Some(actions) ==> actions@ == OverlayState::pan_view(dir, overlay_open),
    {
        if !self.is_pan_held(dir) || !self.camera_held {
            return None;
        }
        let mut actions: Vec<Action> = Vec::new();
        if overlay_open {
            actions.push(Action::Zoom(ZoomCommand::Pan(dir)));
        }
        Some(actions)
    }
}

impl PanDirection {
    /// The name of this direction's pan command, as the camera view knows it.
    pub open spec fn action_text(self) -> Seq<char> {
        match self {
            PanDirection::Up => "pan_up"@,
            PanDirection::Down => "pan_down"@,
            PanDirection::Left => "pan_left"@,
            PanDirection::Right => "pan_right"@,
        }
    }

    /// The accelerator of this direction's arrow key.
    pub open spec fn key_text(self) -> Seq<char> {
        match self {
            PanDirection::Up => "Up"@,
            PanDirection::Down => "Down"@,
            PanDirection::Left => "Left"@,
            PanDirection::Right => "Right"@,
        }
    }

    pub fn action(&self) -> (name: &'static str)
        ensures
            name@ == self.action_text(),
    {
        match self {
            PanDirection::Up => "pan_up",
            PanDirection::Down => "pan_down",
            PanDirection::Left => "pan_left",
            PanDirection::Right => "pan_right",
        }
    }

    pub fn key(&self) -> (accelerator: &'static str)
        ensures
            accelerator@ == self.key_text(),
    {
        match self {
            PanDirection::Up => "Up",
            PanDirection::Down => "Down",
            PanDirection::Left => "Left",
            PanDirection::Right => "Right",
        }
    }
}

impl Mode {
    /// The payload of the mode event that selects this view.
    pub fn payload(&self) -> (name: &'static str)
        ensures
            name@ == (match self {
                Mode::Camera => "camera"@,
                Mode::Mock => "mock"@,
            }),
    {
        match self {
            Mode::Camera => "camera",
            Mode::Mock => "mock",
        }
    }
}

impl ZoomCommand {
    /// The payload of the zoom event that carries this command.
    pub fn payload(&self) -> (name: &'static str)
        ensures
            name@ == (match self {
                ZoomCommand::Toggle => "toggle"@,
                ZoomCommand::Reset => "reset"@,
                ZoomCommand::Pan(dir) => dir.action_text(),
            }),
    {
        match self {
            ZoomCommand::Toggle => "toggle",
            ZoomCommand::Reset => "reset",
            ZoomCommand::Pan(dir) => dir.action(),
        }
    }
}

/// The shortcuts bound through the desktop portal, by their identifiers.
#[derive(Debug, Clone, Copy, PartialEq, Eq, Structural)]
pub enum ShortcutId {
    Camera,
    Mock,
    Zoom,
    Pin,
    Pan(PanDirection),
}

impl ShortcutId {
    /// The identifier under which the shortcut is bound.
    pub open spec fn id_text(self) -> Seq<char> {
        match self {
            ShortcutId::Camera => "camera"@,
            ShortcutId::Mock => "mock"@,
            ShortcutId::Zoom => "zoom"@,
            ShortcutId::Pin => "pin"@,
            ShortcutId::Pan(dir) => dir.action_text(),
        }
    }

    /// The shortcut bound under `text`, if any.
    pub open spec fn from_text(text: Seq<char>) -> Option<ShortcutId> {
        if text == "camera"@ {
            Some(ShortcutId::Camera)
        } else if text == "mock"@ {
            Some(ShortcutId::Mock)
        } else if text == "zoom"@ {
            Some(ShortcutId::Zoom)
        } else if text == "pin"@ {
            Some(ShortcutId::Pin)
        } else if text == "pan_up"@ {
            Some(ShortcutId::Pan(PanDirection::Up))
        } else if text == "pan_down"@ {
            Some(ShortcutId::Pan(PanDirection::Down))
        } else if text == "pan_left"@ {
            Some(ShortcutId::Pan(PanDirection::Left))
        } else if text == "pan_right"@ {
            Some(ShortcutId::Pan(PanDirection::Right))
        } else {
            None
        }
    }

    pub fn parse(id: &str) -> (r: Option<ShortcutId>)
        ensures
            r == ShortcutId::from_text(id@),
    {
        if same_text(id, "camera") {
            Some(ShortcutId::Camera)
        } else if same_text(id, "mock") {
            Some(ShortcutId::Mock)
        } else if same_text(id, "zoom") {
            Some(ShortcutId::Zoom)
        } else if same_text(id, "pin") {
            Some(ShortcutId::Pin)
        } else if same_text(id, "pan_up") {
            Some(ShortcutId::Pan(PanDirection::Up))
        } else if same_text(id, "pan_down") {
            Some(ShortcutId::Pan(PanDirection::Down))
        } else if same_text(id, "pan_left") {
            Some(ShortcutId::Pan(PanDirection::Left))
        } else if same_text(id, "pan_right") {
            Some(ShortcutId::Pan(PanDirection::Right))
        } else {
            None
        }
    }
}

fn same_text(a: &str, b: &str) -> (r: bool)
    ensures
        r == (a@ == b@),
{
    let a_owned = a.to_owned();
    let b_owned = b.to_owned();
    a_owned == b_owned
}

impl OverlayState {
    /// The state after the portal reports `id` activated, with the overlay
    /// window present. The zoom, pin and pan shortcuts stay bound all the
    /// time, so they only act while the camera is held, except that the pin
    /// key also removes a pin that outlived the camera hotkey.
    pub open spec fn after_activation(self, id: ShortcutId) -> Self {
        match id {
            ShortcutId::Camera => self.after_camera_press(),
            ShortcutId::Mock => self.after_mock_toggle(),
            ShortcutId::Zoom => self,
            ShortcutId::Pin => if self.camera_held || self.removes_kept_pin() {
                self.after_pin_toggle()
            } else {
                self
            },
            ShortcutId::Pan(dir) => if self.camera_held && !self.pan_held(dir) {
                self.with_pan_held(dir, true)
            } else {
                self
            },
        }
    }

    /// The actions for `id` activated, with the overlay window present.
    pub open spec fn activation_view(self, id: ShortcutId) -> Seq<Action> {
        match id {
            ShortcutId::Camera => OverlayState::camera_press_view(),
            ShortcutId::Mock => self.mock_toggle_view(),
            ShortcutId::Zoom => if self.camera_held {
                seq![Action::Zoom(ZoomCommand::Toggle)]
            } else {
                Seq::empty()
            },
            ShortcutId::Pin => if self.removes_kept_pin() {
                self.closing_view()
            } else {
                Seq::empty()
            },
            ShortcutId::Pan(dir) => if self.camera_held && !self.pan_held(dir) {
                seq![Action::Zoom(ZoomCommand::Pan(dir)), Action::StartPanRepeat(dir)]
            } else {
                Seq::empty()
            },
        }
    }

    /// The state after the portal reports `id` deactivated, with the overlay
    /// window present. The mock, zoom and pin shortcuts are toggles, so
    /// their release changes nothing.
    pub open spec fn after_deactivation(self, id: ShortcutId) -> Self {
        match id {
            ShortcutId::Camera => self.after_camera_release(),
            ShortcutId::Pan(dir) => self.with_pan_held(dir, false),
            _ => self,
        }
    }

    /// The actions for `id` deactivated, with the overlay window present.
    pub open spec fn deactivation_view(self, id: ShortcutId) -> Seq<Action> {
        match id {
            ShortcutId::Camera => self.camera_release_view(),
            _ => Seq::empty(),
        }
    }

    /// A portal shortcut was activated. Unknown identifiers, and any event
    /// while the overlay window does not exist, are ignored.
    pub fn handle_activated(&mut self, id: &str, overlay_open: bool) -> (actions: Vec<Action>)
        ensures
            match ShortcutId::from_text(id@) {
                Some(k) if overlay_open => *final(self) == old(self).after_activation(k)
                    && actions@ == old(self).activation_view(k),
                _ => *final(self) == *old(self) && actions@ == Seq::<Action>::empty(),
            },
    {
        if !overlay_open {
            return Vec::new();
        }
        match ShortcutId::parse(id) {
            Some(ShortcutId::Camera) => self.press_camera(),
            Some(ShortcutId::Mock) => self.toggle_mock(),
            Some(ShortcutId::Zoom) => {
                let mut actions: Vec<Action> = Vec::new();
                if self.camera_held {
                    actions.push(Action::Zoom(ZoomCommand::Toggle));
                }
                actions
            },
            Some(ShortcutId::Pin) => {
                let mut actions: Vec<Action> = Vec::new();
                if self.camera_held {
                    self.pinned = !self.pinned;
                } else if self.pinned {
                    self.pinned = false;
                    self.close_view(&mut actions);
                }
                actions
            },
            Some(ShortcutId::Pan(dir)) => {
                let mut actions: Vec<Action> = Vec::new();
                if !self.camera_held || self.is_pan_held(dir) {
                    return actions;
                }
                self.set_pan_held(dir, true);
                actions.push(Action::Zoom(ZoomCommand::Pan(dir)));
                actions.push(Action::StartPanRepeat(dir));
                actions
            },
            None => Vec::new(),
        }
    }

    /// A portal shortcut was deactivated. Only the camera hotkey and the pan
    /// keys react; unknown identifiers, and any event while the overlay
    /// window does not exist, are ignored.
    pub fn handle_deactivated(&mut self, id: &str, overlay_open: bool) -> (actions: Vec<Action>)
        ensures
            match ShortcutId::from_text(id@) {
                Some(k) if overlay_open => *final(self) == old(self).after_deactivation(k)
                    && actions@ == old(self).deactivation_view(k),
                _ => *final(self) == *old(self) && actions@ == Seq::<Action>::empty(),
            },
    {
        let mut actions: Vec<Action> = Vec::new();
        if !overlay_open {
            return actions;
        }
        match ShortcutId::parse(id) {
            Some(ShortcutId::Camera) => {
                self.release_camera(&mut actions);
                assert(actions@ =~= old(self).camera_release_view());
            },
            Some(ShortcutId::Pan(dir)) => self.set_pan_held(dir, false),
            _ => {},
        }
        actions
    }
}

/// What the overlay window looks like: whether it is shown, and which view
/// it holds. The meaning of the window actions is given by `apply`.
#[derive(Debug, Clone, Copy, PartialEq, Eq, Structural)]
pub struct WindowView {
    pub shown: bool,
    pub mode: Mode,
}

impl WindowView {
    /// The window after one action; actions on zoom and shortcuts leave it
    /// as it is.
    pub open spec fn apply(self, action: Action) -> WindowView {
        match action {
            Action::SetMode(mode) => WindowView { mode, ..self },
            Action::Show => WindowView { shown: true, ..self },
            Action::Hide => WindowView { shown: false, ..self },
            _ => self,
        }
    }

    /// The window after the actions, performed in order.
    pub open spec fn apply_all(self, actions: Seq<Action>) -> WindowView
        decreases actions.len(),
    {
        if actions.len() == 0 {
            self
        } else {
            self.apply(actions[0]).apply_all(actions.drop_first())
        }
    }
}

} // verus!
