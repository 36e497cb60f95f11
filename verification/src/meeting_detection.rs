//! The "Record this meeting?" prompt: the state machine that turns the call
//! detector's stdout lines into prompt show/hide actions.

use vstd::prelude::*;

use crate::text::{chars_equal, chars_of, trim_chars, trimmed};

verus! {

/// One transition reported by the detector, or a user action that also
/// affects the prompt's lifecycle.
#[derive(Debug, Clone, Copy, PartialEq, Eq)]
pub enum DetectorEvent {
    /// The detector reported a transition into a live call.
    CallStarted,
    /// The detector reported a transition out of a call (or Teams quit).
    CallEnded,
    /// The user clicked "Dismiss" on the prompt.
    Dismissed,
}

/// The detector line a trimmed line of output is, if any.
pub open spec fn parse_detector_line(line: Seq<char>) -> Option<DetectorEvent> {
    if trimmed(line) == "IN_CALL"@ {
        Some(DetectorEvent::CallStarted)
    } else if trimmed(line) == "NOT_IN_CALL"@ {
        Some(DetectorEvent::CallEnded)
    } else {
        None
    }
}

impl DetectorEvent {
    /// Parses one line of detector stdout. Anything unrecognised is ignored
    /// rather than treated as a state change.
    pub fn from_sidecar_line(line: &str) -> (r: Option<Self>)
        ensures
            r == parse_detector_line(line@),
    {
        let all = chars_of(line);
        let t = trim_chars(&all);
        let in_call = chars_of("IN_CALL");
        let not_in_call = chars_of("NOT_IN_CALL");
        if chars_equal(&t, &in_call) {
            Some(DetectorEvent::CallStarted)
        } else if chars_equal(&t, &not_in_call) {
            Some(DetectorEvent::CallEnded)
        } else {
            None
        }
    }
}

/// The call-prompt state. `Dismissed` covers both "the user said no" and "a
/// recording was already active when the call started": both suppress the
/// prompt for the rest of the same call.
#[derive(Debug, Clone, Copy, PartialEq, Eq)]
pub enum CallPromptState {
    NotInCall,
    InCall,
    Dismissed,
}

impl Default for CallPromptState {
    fn default() -> (s: Self)
        ensures
            s == CallPromptState::NotInCall,
    {
        CallPromptState::NotInCall
    }
}

/// What the prompt window should do.
#[derive(Debug, Clone, Copy, PartialEq, Eq)]
pub enum PromptAction {
    NoAction,
    ShowPrompt,
    HidePrompt,
}

/// The state machine, as a specification.
pub open spec fn advance_spec(
    state: CallPromptState,
    event: DetectorEvent,
    recording_already_active: bool,
) -> (CallPromptState, PromptAction) {
    match (state, event) {
        (CallPromptState::NotInCall, DetectorEvent::CallStarted) => if recording_already_active {
            (CallPromptState::Dismissed, PromptAction::NoAction)
        } else {
            (CallPromptState::InCall, PromptAction::ShowPrompt)
        },
        (CallPromptState::InCall, DetectorEvent::CallEnded) => (
            CallPromptState::NotInCall,
            PromptAction::HidePrompt,
        ),
        (CallPromptState::InCall, DetectorEvent::Dismissed) => (
            CallPromptState::Dismissed,
            PromptAction::NoAction,
        ),
        (CallPromptState::Dismissed, DetectorEvent::CallEnded) => (
            CallPromptState::NotInCall,
            PromptAction::NoAction,
        ),
        (s, _) => (s, PromptAction::NoAction),
    }
}

/// Advances the call-prompt state machine by one event.
/// `recording_already_active` only matters when a call starts: a recording
/// that is already running suppresses the prompt for that call.
pub fn advance(state: CallPromptState, event: DetectorEvent, recording_already_active: bool) -> (r: (
    CallPromptState,
    PromptAction,
))
    ensures
        r == advance_spec(state, event, recording_already_active),
{
    match (state, event) {
        (CallPromptState::NotInCall, DetectorEvent::CallStarted) => {
            if recording_already_active {
                (CallPromptState::Dismissed, PromptAction::NoAction)
            } else {
                (CallPromptState::InCall, PromptAction::ShowPrompt)
            }
        },
        (CallPromptState::InCall, DetectorEvent::CallEnded) => (
            CallPromptState::NotInCall,
            PromptAction::HidePrompt,
        ),
        (CallPromptState::InCall, DetectorEvent::Dismissed) => (
            CallPromptState::Dismissed,
            PromptAction::NoAction,
        ),
        (CallPromptState::Dismissed, DetectorEvent::CallEnded) => (
            CallPromptState::NotInCall,
            PromptAction::NoAction,
        ),
        (s, _) => (s, PromptAction::NoAction),
    }
}

/// The prompt is on screen exactly in the `InCall` state: it is shown only
/// when entering `InCall` and hidden only when leaving it by the call ending,
/// so shows and hides alternate and the prompt is never shown twice for one
/// call.
pub proof fn law_prompt_visible_iff_in_call(
    state: CallPromptState,
    event: DetectorEvent,
    recording_already_active: bool,
)
    ensures
        ({
            let (next, action) = advance_spec(state, event, recording_already_active);
            &&& action == PromptAction::ShowPrompt ==> state != CallPromptState::InCall && next
                == CallPromptState::InCall
            &&& action == PromptAction::HidePrompt ==> state == CallPromptState::InCall && next
                != CallPromptState::InCall
            &&& action == PromptAction::NoAction ==> ((state == CallPromptState::InCall) == (next
                == CallPromptState::InCall) || (state == CallPromptState::InCall && event
                == DetectorEvent::Dismissed))
        }),
{
}

/// Once dismissed, nothing but the call ending changes the state, and the
/// prompt never shows again during that call.
pub proof fn law_dismissal_lasts_until_call_ends(
    event: DetectorEvent,
    recording_already_active: bool,
)
    ensures
        ({
            let (next, action) = advance_spec(
                CallPromptState::Dismissed,
                event,
                recording_already_active,
            );
            &&& action == PromptAction::NoAction
            &&& next == (if event == DetectorEvent::CallEnded {
                CallPromptState::NotInCall
            } else {
                CallPromptState::Dismissed
            })
        }),
{
}

/// A call that starts while a recording is already running never prompts.
pub proof fn law_no_prompt_while_recording(state: CallPromptState, event: DetectorEvent)
    ensures
        advance_spec(state, event, true).1 != PromptAction::ShowPrompt,
{
}

} // verus!
