//! Decides which Fn/Globe key presses are deliberate bare taps, as opposed to
//! Fn held as a modifier (fn+arrow, fn+F3, globe+E). Pure timing and
//! bookkeeping; the event tap that feeds it lives outside the library.

use vstd::prelude::*;

use super::hotkey::elapsed;

verus! {

/// Longest (in milliseconds) a bare Fn press may be held and still count as
/// a tap.
pub const MAX_TAP_HOLD_MS: u64 = 500;

/// Tracks one Fn press at a time.
#[derive(Debug)]
pub struct BareTapDetector {
    /// `Some(pressed_at_ms)` while Fn is held.
    pressed_at_ms: Option<u64>,
    /// Set when something during the hold ruled out a bare tap.
    disqualified: bool,
}

/// The detector's state as plain values.
pub struct TapView {
    pub pressed_at_ms: Option<u64>,
    pub disqualified: bool,
}

impl View for BareTapDetector {
    type V = TapView;

    closed spec fn view(&self) -> TapView {
        TapView { pressed_at_ms: self.pressed_at_ms, disqualified: self.disqualified }
    }
}

/// What an Fn release means: whether it completed a tap, and the state after.
pub open spec fn release_step(s: TapView, now_ms: u64, other_modifiers_held: bool) -> (TapView, bool) {
    match s.pressed_at_ms {
        None => (s, false),
        Some(pressed) => (
            TapView { pressed_at_ms: None, disqualified: false },
            !s.disqualified && !other_modifiers_held && elapsed(now_ms, pressed) <= MAX_TAP_HOLD_MS,
        ),
    }
}

impl BareTapDetector {
    pub fn new() -> (d: Self)
        ensures
            d@.pressed_at_ms is None,
            !d@.disqualified,
    {
        BareTapDetector { pressed_at_ms: None, disqualified: false }
    }

    /// Fn went down. Any other modifier already held makes this a chord.
    pub fn on_fn_down(&mut self, now_ms: u64, other_modifiers_held: bool)
        ensures
            final(self)@.pressed_at_ms == Some(now_ms),
            final(self)@.disqualified == other_modifiers_held,
    {
        self.pressed_at_ms = Some(now_ms);
        self.disqualified = other_modifiers_held;
    }

    /// Fn came up. Returns whether that completed one deliberate bare tap.
    pub fn on_fn_up(&mut self, now_ms: u64, other_modifiers_held: bool) -> (tap: bool)
        ensures
            (final(self)@, tap) == release_step(old(self)@, now_ms, other_modifiers_held),
    {
        let pressed_at_ms = match self.pressed_at_ms {
            None => {
                return false;
            },
            Some(p) => p,
        };
        self.pressed_at_ms = None;
        let disqualified = self.disqualified;
        self.disqualified = false;
        !disqualified && !other_modifiers_held && now_ms.saturating_sub(pressed_at_ms)
            <= MAX_TAP_HOLD_MS
    }

    /// Any other keyboard event happened. While Fn is held this makes the
    /// press a chord; at any other time it changes nothing.
    pub fn on_other_key(&mut self)
        ensures
            final(self)@.pressed_at_ms == old(self)@.pressed_at_ms,
            final(self)@.disqualified == (old(self)@.disqualified || old(
                self,
            )@.pressed_at_ms is Some),
    {
        if self.pressed_at_ms.is_some() {
            self.disqualified = true;
        }
    }
}

/// Fn was pressed no longer than the limit ago, with nothing else involved.
pub open spec fn is_clean_tap(s: TapView, now_ms: u64, other_modifiers_held: bool) -> bool {
    &&& s.pressed_at_ms matches Some(pressed) && elapsed(now_ms, pressed) <= MAX_TAP_HOLD_MS
    &&& !s.disqualified
    &&& !other_modifiers_held
}

/// A release counts as a tap only if Fn was pressed, held no longer than the
/// limit, and nothing else was pressed or held during the press.
pub proof fn law_tap_needs_clean_short_press(s: TapView, now_ms: u64, other_modifiers_held: bool)
    ensures
        release_step(s, now_ms, other_modifiers_held).1 == is_clean_tap(
            s,
            now_ms,
            other_modifiers_held,
        ),
{
}

/// Every release of a held Fn key leaves the detector clean, so a chord or a
/// key event after release cannot disqualify the next tap.
pub proof fn law_release_resets_detector(s: TapView, now_ms: u64, other_modifiers_held: bool)
    requires
        s.pressed_at_ms is Some,
    ensures
        release_step(s, now_ms, other_modifiers_held).0.pressed_at_ms is None,
        !release_step(s, now_ms, other_modifiers_held).0.disqualified,
{
}

} // verus!
