use scribe::dictation::ax::{caret_unchanged, CfRange};
use scribe::dictation::inject::{
    accessibility_probe_result, clipboard_read_result, clipboard_write_result, command_key_plan,
    is_accessibility_denied, next_inject_step, CommandKey, InjectEvent, InjectOutcome, InjectStep,
};
use scribe::dictation::paste_target::{
    after_look, after_poll, classify_element, classify_role, PollDecision, Verdict,
};
use scribe::dictation::polish::{
    interpret_polish_output, polish_text, PolishHelper, PolishHelperOutput,
};
use scribe::dictation::selection::{
    is_fresh_selection, outcome_after_paste, selection_notice, should_restore_clipboard,
    SelectionPolishOutcome,
};
use scribe::domain::AppError;

#[test]
fn keystroke_denied_message_is_classified_as_permission() {
    assert!(is_accessibility_denied(
        "execution error: System Events got an error: osascript is not allowed to send keystrokes. (1002)"
    ));
}

#[test]
fn assistive_access_message_is_classified_as_permission() {
    assert!(is_accessibility_denied(
        "System Events got an error: osascript is not allowed assistive access. (-1719)"
    ));
}

#[test]
fn unrelated_error_is_not_a_permission_problem() {
    assert!(!is_accessibility_denied("some other applescript failure"));
}

#[test]
fn blank_text_is_a_no_op() {
    assert_eq!(
        next_inject_step("   \n\t", None, InjectEvent::Begin),
        InjectStep::Finish(InjectOutcome::Pasted)
    );
}

#[test]
fn no_captured_target_still_pastes() {
    assert_eq!(
        next_inject_step("", None, InjectEvent::Begin),
        InjectStep::Finish(InjectOutcome::Pasted)
    );
    assert_eq!(
        next_inject_step("hello", None, InjectEvent::Begin),
        InjectStep::CheckSecureInput
    );
    assert_eq!(
        next_inject_step("hello", None, InjectEvent::ClipboardStaged { frontmost_now: Some(9) }),
        InjectStep::SendPaste
    );
}

#[test]
fn a_target_that_never_comes_forward_is_never_pasted_into() {
    assert_eq!(
        next_inject_step("hello", Some(1), InjectEvent::Begin),
        InjectStep::ActivateTarget
    );
    assert_eq!(
        next_inject_step("hello", Some(1), InjectEvent::Activated { arrived: false }),
        InjectStep::Finish(InjectOutcome::TargetNotFrontmost)
    );
    assert_eq!(
        next_inject_step("hello", Some(1), InjectEvent::ClipboardStaged { frontmost_now: Some(2) }),
        InjectStep::RestoreThenFinish(InjectOutcome::TargetNotFrontmost)
    );
}

#[test]
fn each_delivery_step_leads_to_the_next() {
    let t = Some(42);
    assert_eq!(next_inject_step("x", t, InjectEvent::Activated { arrived: true }), InjectStep::CheckPasteTarget);
    assert_eq!(
        next_inject_step("x", t, InjectEvent::PasteTargetChecked { has_target: false }),
        InjectStep::Finish(InjectOutcome::NoPasteTarget)
    );
    assert_eq!(
        next_inject_step("x", t, InjectEvent::PasteTargetChecked { has_target: true }),
        InjectStep::InsertViaAccessibility
    );
    assert_eq!(
        next_inject_step("x", t, InjectEvent::AccessibilityInsert { inserted: true }),
        InjectStep::Finish(InjectOutcome::Pasted)
    );
    assert_eq!(
        next_inject_step("x", t, InjectEvent::AccessibilityInsert { inserted: false }),
        InjectStep::CheckSecureInput
    );
    assert_eq!(
        next_inject_step("x", t, InjectEvent::SecureInputChecked { active: true }),
        InjectStep::Finish(InjectOutcome::SecureInputActive)
    );
    assert_eq!(
        next_inject_step("x", t, InjectEvent::SecureInputChecked { active: false }),
        InjectStep::StageClipboard
    );
    assert_eq!(
        next_inject_step("x", t, InjectEvent::ClipboardStaged { frontmost_now: Some(42) }),
        InjectStep::SendPaste
    );
    assert_eq!(
        next_inject_step("x", t, InjectEvent::PasteSent { caret_unchanged: true }),
        InjectStep::Finish(InjectOutcome::PasteDidNotLand)
    );
    assert_eq!(
        next_inject_step("x", t, InjectEvent::PasteSent { caret_unchanged: false }),
        InjectStep::RestoreThenFinish(InjectOutcome::Pasted)
    );
}

#[test]
fn an_unmoved_caret_is_the_only_evidence_of_a_missed_paste() {
    let at = CfRange { location: 4, length: 0 };
    let moved = CfRange { location: 9, length: 0 };
    assert!(caret_unchanged(Some(at), Some(at)));
    assert!(!caret_unchanged(Some(at), Some(moved)));
    assert!(!caret_unchanged(None, Some(at)));
    assert!(!caret_unchanged(Some(at), None));
}

#[test]
fn accessibility_probe_reads_osascript() {
    assert!(accessibility_probe_result(true, " true\n", "").is_ok());
    let denied = accessibility_probe_result(true, "false", "").expect_err("false is denied");
    assert_eq!(denied.code, "dictation_accessibility_permission_required");
    assert_eq!(denied.details, None);
    let failed = accessibility_probe_result(false, "", "  boom ").expect_err("failed");
    assert_eq!(failed.code, "dictation_accessibility_probe_failed");
    assert_eq!(failed.details.as_deref(), Some("boom"));
    let refused = accessibility_probe_result(false, "", "not allowed assistive access")
        .expect_err("refused");
    assert_eq!(refused.code, "dictation_accessibility_permission_required");
}

#[test]
fn keystrokes_need_accessibility() {
    assert_eq!(command_key_plan(CommandKey::Paste, true).expect("trusted"), 9);
    assert_eq!(command_key_plan(CommandKey::Copy, true).expect("trusted"), 8);
    let error = command_key_plan(CommandKey::Paste, false).expect_err("untrusted");
    assert_eq!(error.code, "dictation_accessibility_permission_required");
    assert_eq!(error.message, "Cannot send Cmd+V without the Accessibility permission.");
}

#[test]
fn clipboard_tool_results_are_read() {
    assert_eq!(clipboard_read_result(true, Some(0), "text".to_string()).expect("ok"), "text");
    let error = clipboard_read_result(false, Some(3), String::new()).expect_err("failed");
    assert_eq!(error.code, "polish_selection_clipboard_read_failed");
    assert_eq!(error.details.as_deref(), Some("exit_code=3"));
    let error = clipboard_write_result(false, Some(-2)).expect_err("failed");
    assert_eq!(error.code, "dictation_clipboard_failed");
    assert_eq!(error.details.as_deref(), Some("exit_code=-2"));
    assert_eq!(clipboard_write_result(false, None).expect_err("failed").details, None);
    assert!(clipboard_write_result(true, Some(0)).is_ok());
}

fn is_paste(v: &Verdict) -> bool {
    matches!(v, Verdict::Paste(_))
}

#[test]
fn a_container_role_is_never_decided_on_a_single_look() {
    assert!(matches!(
        classify_role(Some("AXWebArea")),
        Verdict::Unresolved(_)
    ));
}

#[test]
fn a_concrete_non_text_role_still_withholds() {
    assert!(matches!(
        classify_role(Some("AXOutline")),
        Verdict::Widget(_)
    ));
    assert!(matches!(classify_role(Some("AXLink")), Verdict::Widget(_)));
}

#[test]
fn text_and_app_level_roles_paste() {
    for role in ["AXTextField", "AXTextArea", "AXWindow", "AXApplication"] {
        assert!(
            matches!(classify_role(Some(role)), Verdict::Paste(_)),
            "{role} must be a paste target"
        );
    }
}

#[test]
fn settable_text_pastes_whatever_the_role() {
    assert!(is_paste(&classify_element(true, false, Some("AXGroup"))));
    assert!(is_paste(&classify_element(false, true, Some("AXGroup"))));
    assert_eq!(
        classify_role(Some("AXLink")),
        Verdict::Widget("a concrete non-text element holds focus (role AXLink)".to_string())
    );
    assert_eq!(
        classify_role(None),
        Verdict::Paste("focused element has no readable role".to_string())
    );
}

#[test]
fn a_process_that_says_nothing_is_never_withheld_from() {
    assert_eq!(after_look(false, &None), PollDecision::KeepPolling { saw_container: false });
    assert!(after_poll(false));
    let container = Some(Verdict::Unresolved("AXWebArea".to_string()));
    assert_eq!(after_look(false, &container), PollDecision::KeepPolling { saw_container: true });
    assert!(!after_poll(true));
    assert_eq!(
        after_look(true, &Some(Verdict::Paste("text".to_string()))),
        PollDecision::Decided(true)
    );
}

struct NeverRun;

impl PolishHelper for NeverRun {
    fn run(&self, _raw: &str) -> Result<PolishHelperOutput, AppError> {
        panic!("blank input must not reach the helper");
    }
}

struct Fixed(PolishHelperOutput);

impl PolishHelper for Fixed {
    fn run(&self, _raw: &str) -> Result<PolishHelperOutput, AppError> {
        Ok(self.0.clone())
    }
}

#[test]
fn blank_input_is_returned_unchanged_without_spawning() {
    assert_eq!(polish_text("   \n", &NeverRun).expect("blank ok"), "");
}

#[test]
fn polish_results_are_read_from_the_helper() {
    let cleaned = Fixed(PolishHelperOutput {
        success: true,
        exit_code: Some(0),
        stdout: "  Send the deck.\n".to_string(),
        stderr: String::new(),
    });
    assert_eq!(polish_text("send the deck", &cleaned).expect("ok"), "Send the deck.");
    let silent = PolishHelperOutput {
        success: true,
        exit_code: Some(0),
        stdout: "   ".to_string(),
        stderr: String::new(),
    };
    assert_eq!(interpret_polish_output("  raw text ", silent).expect("ok"), "raw text");
    let unavailable = PolishHelperOutput {
        success: false,
        exit_code: Some(2),
        stdout: String::new(),
        stderr: " no model \n".to_string(),
    };
    let error = interpret_polish_output("x", unavailable).expect_err("unavailable");
    assert_eq!(error.code, "apple_intelligence_unavailable");
    assert_eq!(error.details.as_deref(), Some("no model"));
    let failed = PolishHelperOutput {
        success: false,
        exit_code: None,
        stdout: String::new(),
        stderr: String::new(),
    };
    let error = interpret_polish_output("x", failed).expect_err("failed");
    assert_eq!(error.code, "dictation_polish_failed");
    assert_eq!(error.details, None);
}

#[test]
fn polish_selection_decisions() {
    assert!(is_fresh_selection("before", "selected"));
    assert!(!is_fresh_selection("same", "same"));
    assert!(!is_fresh_selection("before", "  \n"));
    assert_eq!(outcome_after_paste(true), SelectionPolishOutcome::Applied);
    assert_eq!(outcome_after_paste(false), SelectionPolishOutcome::PasteFailed);
    assert!(!should_restore_clipboard(&Ok(SelectionPolishOutcome::PasteFailed), false));
    assert!(should_restore_clipboard(&Ok(SelectionPolishOutcome::Applied), false));
    assert!(!should_restore_clipboard(&Ok(SelectionPolishOutcome::Applied), true));
    let error = AppError { code: "x".to_string(), message: "y".to_string(), details: None };
    assert!(should_restore_clipboard(&Err(error), false));
}

#[test]
fn selection_notices_escalate_after_three_empty_attempts_and_reset_on_success() {
    let nothing = Ok(SelectionPolishOutcome::NoSelection);
    let (count, message) = selection_notice(0, &nothing);
    assert_eq!(count, 1);
    assert_eq!(message.as_deref(), Some("Select some text first, then try again."));
    let (count, message) = selection_notice(2, &nothing);
    assert_eq!(count, 3);
    assert_eq!(message.as_deref(), Some("Select some text first, then try again."));
    let (count, message) = selection_notice(3, &nothing);
    assert_eq!(count, 4);
    assert_eq!(message.as_deref(), Some("Select text to polish it."));

    assert_eq!(selection_notice(7, &Ok(SelectionPolishOutcome::Applied)), (0, None));

    let (count, message) = selection_notice(2, &Ok(SelectionPolishOutcome::PasteFailed));
    assert_eq!(count, 2);
    assert_eq!(
        message.as_deref(),
        Some("Couldn't paste right now \u{2014} the polished text is on your clipboard.")
    );

    let failed = Err(AppError { code: "x".to_string(), message: "y".to_string(), details: None });
    let (count, message) = selection_notice(5, &failed);
    assert_eq!(count, 5);
    assert_eq!(message.as_deref(), Some("Couldn't polish the selection. Try again."));
}
