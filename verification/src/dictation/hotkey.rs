//! Press-pattern detector for the dictation hotkey. A double-press of the
//! shortcut starts recording; a single press while recording stops it. This
//! module owns only the timing logic.

use vstd::prelude::*;

verus! {

/// How close (in milliseconds) two presses must be to count as the
/// double-press that starts a dictation.
pub const DOUBLE_PRESS_WINDOW_MS: u64 = 600;

/// Shortest a dictation can run (in milliseconds) before a press may stop it,
/// so the start double-press's second tap or key auto-repeat cannot stop the
/// recording it just started.
pub const MIN_RECORDING_BEFORE_STOP_MS: u64 = 400;

/// What a hotkey press should do, given the current dictation state.
#[derive(Debug, Clone, Copy, PartialEq, Eq)]
pub enum HotkeyAction {
    /// Ignore this press (a lone idle tap, or a too-soon stop).
    NoAction,
    /// Begin capturing dictation audio.
    StartRecording,
    /// Stop capturing and transcribe + inject.
    StopRecording,
}

/// `a.saturating_sub(b)` on natural numbers.
pub open spec fn elapsed(now: u64, since: u64) -> nat {
    if now >= since {
        (now - since) as nat
    } else {
        0
    }
}

/// Tracks dictation hotkey presses and decides what each one means.
#[derive(Debug)]
pub struct DictationHotkey {
    /// `Some(started_ms)` while a dictation is recording.
    recording_since_ms: Option<u64>,
    /// The last idle press awaiting a partner to form a double-press.
    pending_press_ms: Option<u64>,
}

/// The detector's state as plain values: when the current recording started
/// and when the unpaired idle press happened.
pub struct HotkeyView {
    pub recording_since_ms: Option<u64>,
    pub pending_press_ms: Option<u64>,
}

/// One press at `now_ms`: the state it leads to and the action it means.
pub open spec fn press_step(s: HotkeyView, now_ms: u64) -> (HotkeyView, HotkeyAction) {
    match s.recording_since_ms {
        Some(started) => if elapsed(now_ms, started) < MIN_RECORDING_BEFORE_STOP_MS {
            (s, HotkeyAction::NoAction)
        } else {
            (HotkeyView { recording_since_ms: None, pending_press_ms: None }, HotkeyAction::StopRecording)
        },
        None => match s.pending_press_ms {
            Some(first) => if elapsed(now_ms, first) <= DOUBLE_PRESS_WINDOW_MS {
                (
                    HotkeyView { recording_since_ms: Some(now_ms), pending_press_ms: None },
                    HotkeyAction::StartRecording,
                )
            } else {
                (
                    HotkeyView { recording_since_ms: None, pending_press_ms: Some(now_ms) },
                    HotkeyAction::NoAction,
                )
            },
            None => (
                HotkeyView { recording_since_ms: None, pending_press_ms: Some(now_ms) },
                HotkeyAction::NoAction,
            ),
        },
    }
}

impl View for DictationHotkey {
    type V = HotkeyView;

    closed spec fn view(&self) -> HotkeyView {
        HotkeyView {
            recording_since_ms: self.recording_since_ms,
            pending_press_ms: self.pending_press_ms,
        }
    }
}

impl DictationHotkey {
    pub fn new() -> (h: Self)
        ensures
            h@.recording_since_ms is None,
            h@.pending_press_ms is None,
    {
        DictationHotkey { recording_since_ms: None, pending_press_ms: None }
    }

    pub fn is_recording(&self) -> (b: bool)
        ensures
            b == self@.recording_since_ms is Some,
    {
        self.recording_since_ms.is_some()
    }

    /// Marks a dictation as started at `now_ms` from outside the press flow
    /// (the pill's toggle button), so a later hotkey press stops it.
    pub fn mark_recording_started(&mut self, now_ms: u64)
        ensures
            final(self)@.recording_since_ms == Some(now_ms),
            final(self)@.pending_press_ms is None,
    {
        self.recording_since_ms = Some(now_ms);
        self.pending_press_ms = None;
    }

    /// Marks the dictation stopped from outside the press flow, so a later
    /// hotkey press needs a fresh double-press.
    pub fn mark_recording_stopped(&mut self)
        ensures
            final(self)@.recording_since_ms is None,
            final(self)@.pending_press_ms is None,
    {
        self.recording_since_ms = None;
        self.pending_press_ms = None;
    }

    /// Records a hotkey press at `now_ms` and returns the action to take.
    pub fn on_press(&mut self, now_ms: u64) -> (action: HotkeyAction)
        ensures
            (final(self)@, action) == press_step(old(self)@, now_ms),
    {
        if let Some(started_ms) = self.recording_since_ms {
            if now_ms.saturating_sub(started_ms) < MIN_RECORDING_BEFORE_STOP_MS {
                return HotkeyAction::NoAction;
            }
            self.recording_since_ms = None;
            self.pending_press_ms = None;
            return HotkeyAction::StopRecording;
        }
        let is_double = match self.pending_press_ms {
            Some(first) => now_ms.saturating_sub(first) <= DOUBLE_PRESS_WINDOW_MS,
            None => false,
        };
        if is_double {
            self.recording_since_ms = Some(now_ms);
            self.pending_press_ms = None;
            HotkeyAction::StartRecording
        } else {
            self.pending_press_ms = Some(now_ms);
            HotkeyAction::NoAction
        }
    }
}

/// Idle, with an earlier press close enough to pair with one at `now_ms`.
pub open spec fn completes_double_press(s: HotkeyView, now_ms: u64) -> bool {
    &&& s.recording_since_ms is None
    &&& s.pending_press_ms matches Some(first) && elapsed(now_ms, first) <= DOUBLE_PRESS_WINDOW_MS
}

/// A dictation starts only on the second of two idle presses that are at
/// most the double-press window apart, and the recording then dates from
/// that second press.
pub proof fn law_start_needs_double_press(s: HotkeyView, now_ms: u64)
    ensures
        (press_step(s, now_ms).1 == HotkeyAction::StartRecording) == completes_double_press(
            s,
            now_ms,
        ),
        press_step(s, now_ms).1 == HotkeyAction::StartRecording ==> press_step(
            s,
            now_ms,
        ).0.recording_since_ms == Some(now_ms),
{
}

/// The recording has run at least the minimum time by `now_ms`.
pub open spec fn may_stop(s: HotkeyView, now_ms: u64) -> bool {
    s.recording_since_ms matches Some(started) && elapsed(now_ms, started)
        >= MIN_RECORDING_BEFORE_STOP_MS
}

/// Not recording, with no press waiting for a partner.
pub open spec fn is_fresh(s: HotkeyView) -> bool {
    s.recording_since_ms is None && s.pending_press_ms is None
}

/// A press stops a recording only once it has run for the minimum time, and
/// a stopped detector is idle with no half-finished double-press.
pub proof fn law_stop_needs_minimum_recording(s: HotkeyView, now_ms: u64)
    ensures
        (press_step(s, now_ms).1 == HotkeyAction::StopRecording) == may_stop(s, now_ms),
        press_step(s, now_ms).1 == HotkeyAction::StopRecording ==> is_fresh(
            press_step(s, now_ms).0,
        ),
{
}

/// After any stop, the very next press does nothing: a lone press soon after
/// stopping can never look like a double-press and restart dictation.
pub proof fn law_lone_press_after_stop_does_nothing(s: HotkeyView, stop_ms: u64, next_ms: u64)
    requires
        press_step(s, stop_ms).1 == HotkeyAction::StopRecording,
    ensures
        press_step(press_step(s, stop_ms).0, next_ms).1 == HotkeyAction::NoAction,
{
}

/// An idle press that does not pair with an earlier one becomes the press
/// that waits for a partner, whatever was waiting before: it does nothing
/// now, and any press within the double-press window after it starts a
/// dictation.
pub proof fn law_unpaired_idle_press_becomes_pending(s: HotkeyView, now_ms: u64, next_ms: u64)
    requires
        s.recording_since_ms is None,
        !completes_double_press(s, now_ms),
        now_ms <= next_ms <= now_ms + 600,
    ensures
        press_step(s, now_ms).1 == HotkeyAction::NoAction,
        press_step(s, now_ms).0.recording_since_ms is None,
        press_step(s, now_ms).0.pending_press_ms == Some(now_ms),
        press_step(press_step(s, now_ms).0, next_ms).1 == HotkeyAction::StartRecording,
{
}

/// While recording, a press either stops the recording or leaves the state
/// exactly as it was.
pub proof fn law_recording_press_is_stop_or_noop(s: HotkeyView, now_ms: u64)
    requires
        s.recording_since_ms is Some,
    ensures
        press_step(s, now_ms).1 == HotkeyAction::StopRecording || (press_step(s, now_ms).1
            == HotkeyAction::NoAction && press_step(s, now_ms).0 == s),
{
}

} // verus!
