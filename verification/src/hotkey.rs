use vstd::prelude::*;

verus! {

/// Whether a hotkey event toggles the clicker: a press of the hotkey that
/// was registered.
pub open spec fn event_toggles(registered: Option<u32>, event_id: u32, pressed: bool) -> bool {
    registered == Some(event_id) && pressed
}

/// Whether F6 pressed in the window toggles the clicker: only where no
/// global hotkey is registered.
pub open spec fn window_key_toggles(registered: Option<u32>, f6_pressed: bool) -> bool {
    registered is None && f6_pressed
}

/// Whether a hotkey event toggles the clicker.
pub fn hotkey_event_toggles(registered: Option<u32>, event_id: u32, pressed: bool) -> (toggles: bool)
    ensures
        toggles == event_toggles(registered, event_id, pressed),
        toggles <==> (registered == Some(event_id) && pressed),
{
    match registered {
        Some(id) => id == event_id && pressed,
        None => false,
    }
}

/// Whether F6 pressed in the window toggles the clicker.
pub fn window_f6_toggles(registered: Option<u32>, f6_pressed: bool) -> (toggles: bool)
    ensures
        toggles == window_key_toggles(registered, f6_pressed),
        toggles <==> (registered is None && f6_pressed),
{
    match registered {
        Some(_) => false,
        None => f6_pressed,
    }
}

/// One press of F6 toggles the clicker through at most one of the two ways:
/// the global hotkey where it is registered, the window's key otherwise.
pub proof fn lemma_one_toggle_per_press(registered: Option<u32>, event_id: u32, pressed: bool, f6_pressed: bool)
    ensures
        !(event_toggles(registered, event_id, pressed) && window_key_toggles(registered, f6_pressed)),
        registered is None ==> !event_toggles(registered, event_id, pressed),
{
}

} // verus!
