use scribe::dictation::hotkey::{DictationHotkey, HotkeyAction};

#[test]
fn single_idle_press_does_nothing() {
    let mut hotkey = DictationHotkey::new();
    assert_eq!(hotkey.on_press(1_000), HotkeyAction::NoAction);
    assert!(!hotkey.is_recording());
}

#[test]
fn double_press_starts_recording() {
    let mut hotkey = DictationHotkey::new();
    assert_eq!(hotkey.on_press(1_000), HotkeyAction::NoAction);
    assert_eq!(hotkey.on_press(1_300), HotkeyAction::StartRecording);
    assert!(hotkey.is_recording());
}

#[test]
fn two_slow_presses_do_not_start() {
    let mut hotkey = DictationHotkey::new();
    assert_eq!(hotkey.on_press(1_000), HotkeyAction::NoAction);
    // 800 ms apart is past the double-press window.
    assert_eq!(hotkey.on_press(1_800), HotkeyAction::NoAction);
    assert!(!hotkey.is_recording());
}

#[test]
fn single_press_stops_after_recording() {
    let mut hotkey = DictationHotkey::new();
    hotkey.on_press(1_000);
    hotkey.on_press(1_300); // start at 1_300
    assert_eq!(hotkey.on_press(5_000), HotkeyAction::StopRecording);
    assert!(!hotkey.is_recording());
}

#[test]
fn too_soon_press_does_not_stop_recording() {
    let mut hotkey = DictationHotkey::new();
    hotkey.on_press(1_000);
    hotkey.on_press(1_300); // start at 1_300
                            // Auto-repeat / second tap 100 ms later must not stop it.
    assert_eq!(hotkey.on_press(1_400), HotkeyAction::NoAction);
    assert!(hotkey.is_recording());
}

#[test]
fn lone_press_soon_after_stop_does_not_restart() {
    let mut hotkey = DictationHotkey::new();
    hotkey.on_press(1_000);
    hotkey.on_press(1_300); // start
    assert_eq!(hotkey.on_press(5_000), HotkeyAction::StopRecording);
    // A single press 200 ms after stopping must not look like a double-press
    // relative to the stop press.
    assert_eq!(hotkey.on_press(5_200), HotkeyAction::NoAction);
    assert!(!hotkey.is_recording());
}

#[test]
fn pill_start_then_hotkey_press_stops() {
    // Started via the pill toggle, the tracker must treat the next hotkey
    // press (after the minimum recording time) as a stop.
    let mut hotkey = DictationHotkey::new();
    hotkey.mark_recording_started(1_000);
    assert!(hotkey.is_recording());
    assert_eq!(hotkey.on_press(5_000), HotkeyAction::StopRecording);
    assert!(!hotkey.is_recording());
}

#[test]
fn pill_stop_then_hotkey_needs_fresh_double_press() {
    // Stopped via the pill toggle, a lone hotkey press must not restart; a
    // fresh double-press is required.
    let mut hotkey = DictationHotkey::new();
    hotkey.mark_recording_started(1_000);
    hotkey.mark_recording_stopped();
    assert!(!hotkey.is_recording());
    assert_eq!(hotkey.on_press(2_000), HotkeyAction::NoAction);
    assert_eq!(hotkey.on_press(2_200), HotkeyAction::StartRecording);
}

#[test]
fn full_cycle_can_repeat() {
    let mut hotkey = DictationHotkey::new();
    hotkey.on_press(1_000);
    assert_eq!(hotkey.on_press(1_200), HotkeyAction::StartRecording);
    assert_eq!(hotkey.on_press(4_000), HotkeyAction::StopRecording);
    // New dictation: fresh double-press.
    assert_eq!(hotkey.on_press(6_000), HotkeyAction::NoAction);
    assert_eq!(hotkey.on_press(6_200), HotkeyAction::StartRecording);
}
