use emberclick::hotkey::{hotkey_event_toggles, window_f6_toggles};

#[test]
fn registered_hotkey_press_toggles() {
    assert!(hotkey_event_toggles(Some(17), 17, true));
}

#[test]
fn release_or_other_hotkey_does_not_toggle() {
    assert!(!hotkey_event_toggles(Some(17), 17, false));
    assert!(!hotkey_event_toggles(Some(17), 18, true));
    assert!(!hotkey_event_toggles(None, 17, true));
}

#[test]
fn window_key_toggles_only_without_global_hotkey() {
    assert!(window_f6_toggles(None, true));
    assert!(!window_f6_toggles(None, false));
    assert!(!window_f6_toggles(Some(3), true));
}

#[test]
fn one_press_toggles_once() {
    for registered in [None, Some(9u32)] {
        let by_event = hotkey_event_toggles(registered, 9, true);
        let by_window = window_f6_toggles(registered, true);
        assert!(by_event != by_window);
    }
}
