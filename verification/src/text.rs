use vstd::prelude::*;

use crate::engine::{ERROR_INPUT_UNAVAILABLE, ERROR_NONE};

verus! {

/// The state shown in the header.
pub open spec fn status_text(running: bool) -> Seq<char> {
    if running {
        "ACTIVE"@
    } else {
        "READY"@
    }
}

/// The caption of the start/stop button.
pub open spec fn toggle_text(running: bool) -> Seq<char> {
    if running {
        "STOP CLICKING"@
    } else {
        "START CLICKING"@
    }
}

/// The kind of click shown under the button choice.
pub open spec fn click_type_text(double_click: bool) -> Seq<char> {
    if double_click {
        "Double click"@
    } else {
        "Single click"@
    }
}

/// Where F6 works, shown in the session card.
pub open spec fn hotkey_hint_text(global: bool) -> Seq<char> {
    if global {
        "Global F6 ready"@
    } else {
        "F6 works in window"@
    }
}

/// The message for an error code; none for `ERROR_NONE`.
pub open spec fn error_text(code: u32) -> Option<Seq<char>> {
    if code == ERROR_NONE {
        None
    } else if code == ERROR_INPUT_UNAVAILABLE {
        Some("Could not connect to the system input service."@)
    } else {
        Some("The operating system rejected simulated input."@)
    }
}

/// The state shown in the header.
pub fn status_label(running: bool) -> (text: &'static str)
    ensures
        text@ == status_text(running),
        running ==> text@ == "ACTIVE"@,
        !running ==> text@ == "READY"@,
{
    if running {
        "ACTIVE"
    } else {
        "READY"
    }
}

/// The caption of the start/stop button.
pub fn toggle_label(running: bool) -> (text: &'static str)
    ensures
        text@ == toggle_text(running),
        running ==> text@ == "STOP CLICKING"@,
        !running ==> text@ == "START CLICKING"@,
{
    if running {
        "STOP CLICKING"
    } else {
        "START CLICKING"
    }
}

/// The kind of click shown under the button choice.
pub fn click_type_label(double_click: bool) -> (text: &'static str)
    ensures
        text@ == click_type_text(double_click),
        double_click ==> text@ == "Double click"@,
        !double_click ==> text@ == "Single click"@,
{
    if double_click {
        "Double click"
    } else {
        "Single click"
    }
}

/// Where F6 works: anywhere once the global hotkey is registered, else only
/// in the window.
pub fn hotkey_hint(global: bool) -> (text: &'static str)
    ensures
        text@ == hotkey_hint_text(global),
        global ==> text@ == "Global F6 ready"@,
        !global ==> text@ == "F6 works in window"@,
{
    if global {
        "Global F6 ready"
    } else {
        "F6 works in window"
    }
}

/// The message shown for the worker's error code, if any.
pub fn error_message(code: u32) -> (message: Option<&'static str>)
    ensures
        message is None <==> code == ERROR_NONE,
        message matches Some(t) ==> error_text(code) == Some(t@),
        code == 1 ==> (message matches Some(t) && t@ == "Could not connect to the system input service."@),
        code >= 2 ==> (message matches Some(t) && t@ == "The operating system rejected simulated input."@),
{
    if code == ERROR_NONE {
        None
    } else if code == ERROR_INPUT_UNAVAILABLE {
        Some("Could not connect to the system input service.")
    } else {
        Some("The operating system rejected simulated input.")
    }
}

} // verus!
