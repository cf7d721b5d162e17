//! The shortcuts requested from the desktop's global-shortcuts portal.
//!
//! The portal only accepts a preferred trigger for each shortcut; the
//! compositor or the user has the final say, and every shortcut stays bound
//! for the whole session (see `OverlayState::handle_activated`).
use crate::config::Config;
use crate::overlay::{PanDirection, ShortcutId};
use vstd::prelude::*;
use vstd::string::*;

verus! {

/// `s`, unless it is empty.
pub fn non_empty(s: &str) -> (r: Option<&str>)
    ensures
        s@.len() == 0 ==> r is None,
        s@.len() != 0 ==> r == Some(s),
{
    if s.is_empty() {
        None
    } else {
        Some(s)
    }
}

/// A shortcut to bind: its identifier, the description the desktop shows,
/// and the preferred trigger, if any.
#[derive(Debug, Clone)]
pub struct PortalShortcut {
    pub id: String,
    pub description: String,
    pub preferred_trigger: Option<String>,
}

impl PortalShortcut {
    /// This shortcut has identifier `id`, description `description` and
    /// preferred trigger `trigger`.
    pub open spec fn is(self, id: Seq<char>, description: Seq<char>, trigger: Option<Seq<char>>) -> bool {
        &&& self.id@ == id
        &&& self.description@ == description
        &&& match (self.preferred_trigger, trigger) {
            (Some(t), Some(u)) => t@ == u,
            (None, None) => true,
            _ => false,
        }
    }
}

/// The trigger that a configured key asks for: none when the key is empty.
pub open spec fn trigger_of(key: Seq<char>) -> Option<Seq<char>> {
    if key.len() == 0 {
        None
    } else {
        Some(key)
    }
}

/// The pan directions, in the order their shortcuts are bound.
pub open spec fn pan_order() -> Seq<PanDirection> {
    seq![PanDirection::Up, PanDirection::Down, PanDirection::Left, PanDirection::Right]
}

/// The shortcuts after the first `fixed` ones: the four pan keys, with
/// description `Camera <action>` and no preferred trigger.
pub open spec fn ends_with_pans(list: Seq<PortalShortcut>, fixed: int) -> bool {
    &&& list.len() == fixed + 4
    &&& forall|i: int| 0 <= i < 4 ==> (#[trigger] list[fixed + i]).is(
        ShortcutId::Pan(pan_order()[i]).id_text(),
        "Camera "@ + pan_order()[i].action_text(),
        None,
    )
}

/// `list` is what is requested for `config`, in this order: the camera
/// hotkey and the mock notification toggle, each with its configured key as
/// preferred trigger (none when empty); the zoom key and the pin key, only
/// when configured; then the four pan keys, which have no preferred trigger.
pub open spec fn requested_for(list: Seq<PortalShortcut>, config: Config) -> bool {
    let zoom = config.zoom.key@.len() != 0;
    let pin = config.pin_key@.len() != 0;
    let fixed: int = 2 + (if zoom { 1int } else { 0 }) + (if pin { 1int } else { 0 });
    &&& list[0].is("camera"@, "Show camera"@, trigger_of(config.hotkey@))
    &&& list[1].is("mock"@, "Toggle mock notification"@, trigger_of(config.mock_notification.hotkey@))
    &&& zoom ==> list[2].is("zoom"@, "Toggle zoom"@, Some(config.zoom.key@))
    &&& pin ==> list[fixed - 1].is("pin"@, "Pin camera"@, Some(config.pin_key@))
    &&& ends_with_pans(list, fixed)
}

fn new_shortcut(id: &str, description: String, trigger: Option<&str>) -> (s: PortalShortcut)
    ensures
        s.id@ == id@,
        s.description == description,
        match (s.preferred_trigger, trigger) {
            (Some(t), Some(u)) => t@ == u@,
            (None, None) => true,
            _ => false,
        },
{
    let preferred_trigger = match trigger {
        Some(t) => Some(String::from_str(t)),
        None => None,
    };
    PortalShortcut { id: String::from_str(id), description, preferred_trigger }
}

fn push_pan(list: &mut Vec<PortalShortcut>, dir: PanDirection)
    ensures
        final(list)@.len() == old(list)@.len() + 1,
        forall|i: int| 0 <= i < old(list)@.len() ==> final(list)@[i] == old(list)@[i],
        final(list)@.last().is(
            ShortcutId::Pan(dir).id_text(),
            "Camera "@ + dir.action_text(),
            None,
        ),
{
    let mut description = String::from_str("Camera ");
    description.append(dir.action());
    list.push(new_shortcut(dir.action(), description, None));
}

/// The shortcuts bound at the start of the session (see `requested_for`).
pub fn portal_shortcuts(config: &Config) -> (list: Vec<PortalShortcut>)
    ensures
        requested_for(list@, *config),
{
    let mut list: Vec<PortalShortcut> = Vec::new();
    list.push(new_shortcut("camera", String::from_str("Show camera"), non_empty(config.hotkey.as_str())));
    list.push(
        new_shortcut(
            "mock",
            String::from_str("Toggle mock notification"),
            non_empty(config.mock_notification.hotkey.as_str()),
        ),
    );
    if !config.zoom.key.as_str().is_empty() {
        list.push(new_shortcut("zoom", String::from_str("Toggle zoom"), Some(config.zoom.key.as_str())));
    }
    if !config.pin_key.as_str().is_empty() {
        list.push(new_shortcut("pin", String::from_str("Pin camera"), Some(config.pin_key.as_str())));
    }
    let ghost fixed = list@.len() as int;
    let ghost head = list@;
    push_pan(&mut list, PanDirection::Up);
    push_pan(&mut list, PanDirection::Down);
    push_pan(&mut list, PanDirection::Left);
    push_pan(&mut list, PanDirection::Right);
    assert forall|i: int| 0 <= i < 4 implies (#[trigger] list@[fixed + i]).is(
        ShortcutId::Pan(pan_order()[i]).id_text(),
        "Camera "@ + pan_order()[i].action_text(),
        None,
    ) by {
        if i == 0 {
        } else if i == 1 {
        } else if i == 2 {
        } else {
        }
    }
    list
}

} // verus!
