use scribe::dictation::fn_tap::{BareTapDetector, MAX_TAP_HOLD_MS};
use scribe::dictation::hotkey::{DictationHotkey, HotkeyAction};


#[test]
fn a_quick_press_and_release_is_a_tap() {
    let mut detector = BareTapDetector::new();
    detector.on_fn_down(1_000, false);
    assert!(detector.on_fn_up(1_090, false));
}

#[test]
fn a_key_pressed_during_the_hold_makes_it_a_chord() {
    // fn+ArrowLeft, fn+F3: the other key lands between down and up.
    let mut detector = BareTapDetector::new();
    detector.on_fn_down(1_000, false);
    detector.on_other_key();
    assert!(!detector.on_fn_up(1_090, false));
}

#[test]
fn a_key_pressed_after_release_does_not_poison_the_next_tap() {
    // The system's own Globe action posts a key event just after each tap.
    let mut detector = BareTapDetector::new();
    detector.on_fn_down(1_000, false);
    assert!(detector.on_fn_up(1_090, false));
    detector.on_other_key();
    detector.on_fn_down(1_270, false);
    assert!(detector.on_fn_up(1_360, false));
}

#[test]
fn holding_fn_too_long_is_not_a_tap() {
    let mut detector = BareTapDetector::new();
    detector.on_fn_down(1_000, false);
    assert!(!detector.on_fn_up(1_000 + MAX_TAP_HOLD_MS + 1, false));
}

#[test]
fn holding_fn_right_up_to_the_limit_still_taps() {
    let mut detector = BareTapDetector::new();
    detector.on_fn_down(1_000, false);
    assert!(detector.on_fn_up(1_000 + MAX_TAP_HOLD_MS, false));
}

#[test]
fn another_modifier_at_either_end_makes_it_a_chord() {
    let mut held_at_down = BareTapDetector::new();
    held_at_down.on_fn_down(1_000, true);
    assert!(!held_at_down.on_fn_up(1_090, false));

    let mut held_at_up = BareTapDetector::new();
    held_at_up.on_fn_down(1_000, false);
    assert!(!held_at_up.on_fn_up(1_090, true));
}

#[test]
fn a_release_without_a_press_is_not_a_tap() {
    // The tap can be created while Fn is already held down.
    let mut detector = BareTapDetector::new();
    assert!(!detector.on_fn_up(1_000, false));
}

#[test]
fn a_chord_does_not_disqualify_the_tap_after_it() {
    let mut detector = BareTapDetector::new();
    detector.on_fn_down(1_000, false);
    detector.on_other_key();
    assert!(!detector.on_fn_up(1_090, false));
    detector.on_fn_down(2_000, false);
    assert!(detector.on_fn_up(2_090, false));
}

#[test]
fn two_taps_drive_the_dictation_hotkey_to_start() {
    // The whole point, end to end: the gaps and holds are the ones the
    // probe measured from a real Globe key (~90 ms held, ~180 ms apart).
    let mut detector = BareTapDetector::new();
    let mut hotkey = DictationHotkey::new();

    detector.on_fn_down(1_000, false);
    assert!(detector.on_fn_up(1_090, false));
    assert_eq!(hotkey.on_press(1_090), HotkeyAction::NoAction);

    detector.on_fn_down(1_270, false);
    assert!(detector.on_fn_up(1_360, false));
    assert_eq!(hotkey.on_press(1_360), HotkeyAction::StartRecording);

    // A single later tap stops it.
    detector.on_fn_down(5_000, false);
    assert!(detector.on_fn_up(5_090, false));
    assert_eq!(hotkey.on_press(5_090), HotkeyAction::StopRecording);
}
