use scribe::meeting_detection::{advance, CallPromptState, DetectorEvent, PromptAction};

#[test]
fn call_started_shows_prompt_when_idle() {
    let (state, action) = advance(CallPromptState::NotInCall, DetectorEvent::CallStarted, false);
    assert_eq!(state, CallPromptState::InCall);
    assert_eq!(action, PromptAction::ShowPrompt);
}

#[test]
fn call_started_does_not_prompt_when_already_recording() {
    let (state, action) = advance(CallPromptState::NotInCall, DetectorEvent::CallStarted, true);
    assert_eq!(state, CallPromptState::Dismissed);
    assert_eq!(action, PromptAction::NoAction);
}

#[test]
fn call_ended_hides_prompt_when_shown() {
    let (state, action) = advance(CallPromptState::InCall, DetectorEvent::CallEnded, false);
    assert_eq!(state, CallPromptState::NotInCall);
    assert_eq!(action, PromptAction::HidePrompt);
}

#[test]
fn dismiss_suppresses_further_prompts_until_call_ends() {
    let (state, action) = advance(CallPromptState::InCall, DetectorEvent::Dismissed, false);
    assert_eq!(state, CallPromptState::Dismissed);
    assert_eq!(action, PromptAction::NoAction);

    // The call continuing (no further sidecar lines until it ends) must
    // never re-show the prompt.
    let (state, action) = advance(state, DetectorEvent::Dismissed, false);
    assert_eq!(state, CallPromptState::Dismissed);
    assert_eq!(action, PromptAction::NoAction);
}

#[test]
fn call_ending_after_dismiss_resets_without_hiding() {
    let dismissed = CallPromptState::Dismissed;
    let (state, action) = advance(dismissed, DetectorEvent::CallEnded, false);
    assert_eq!(state, CallPromptState::NotInCall);
    // Nothing to hide -- the prompt was never shown for this call.
    assert_eq!(action, PromptAction::NoAction);
}

#[test]
fn full_call_lifecycle_prompts_exactly_once() {
    let mut state = CallPromptState::NotInCall;
    let mut shows = 0;
    let mut hides = 0;
    let lines = ["IN_CALL", "IN_CALL", "NOT_IN_CALL", "IN_CALL", "NOT_IN_CALL"];
    for line in lines {
        let event = DetectorEvent::from_sidecar_line(line).expect("valid line");
        let (next_state, action) = advance(state, event, false);
        state = next_state;
        match action {
            PromptAction::ShowPrompt => shows += 1,
            PromptAction::HidePrompt => hides += 1,
            PromptAction::NoAction => {}
        }
    }
    assert_eq!(shows, 2, "one prompt per distinct call, not per line");
    assert_eq!(hides, 2);
    assert_eq!(state, CallPromptState::NotInCall);
}

#[test]
fn unrecognised_line_is_ignored() {
    assert_eq!(DetectorEvent::from_sidecar_line("garbage"), None);
    assert_eq!(DetectorEvent::from_sidecar_line(""), None);
}
