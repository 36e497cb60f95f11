//! Getting dictated text into the app the user was typing in: the order in
//! which the ways of delivering it are tried and when each is given up, how
//! permission failures are recognised, and how clipboard tool results are
//! read.

use vstd::prelude::*;

use crate::domain::{app_error, opt_view, AppError};
use crate::text::{
    chars_of, contains, contains_chars, decimal, is_blank, lower_seq, lowercase_chars, push_all,
    push_str, string_of, trim_chars, trimmed, all_whitespace,
};

verus! {

/// The process id of the app a dictation is aimed at.
pub type TargetAppPid = libc::pid_t;

/// What an injection did.
#[derive(Debug, Clone, Copy, PartialEq, Eq, Structural)]
pub enum InjectOutcome {
    /// The text is in the target app.
    Pasted,
    /// The target app had no editable focus; nothing was pasted.
    NoPasteTarget,
    /// The target app never came to the front; nothing was sent.
    TargetNotFrontmost,
    /// Secure input was on, so a synthesised paste could not be delivered.
    SecureInputActive,
    /// The paste keystroke was taken but nothing was inserted; the text was
    /// left on the clipboard.
    PasteDidNotLand,
}

/// The next thing an injection does.
#[derive(Debug, Clone, Copy, PartialEq, Eq, Structural)]
pub enum InjectStep {
    /// Bring the target app forward and wait until it is frontmost.
    ActivateTarget,
    /// Ask whether the target has somewhere for a paste to land.
    CheckPasteTarget,
    /// Write the text into the focused element through Accessibility.
    InsertViaAccessibility,
    /// Ask whether secure input is on.
    CheckSecureInput,
    /// Read the caret, save the clipboard, put the text on it, and read which
    /// app is frontmost now.
    StageClipboard,
    /// Put the saved clipboard back (if anything was saved), then finish.
    RestoreThenFinish(InjectOutcome),
    /// Send Cmd+V, let it settle, and read the caret again.
    SendPaste,
    /// Done, with this outcome; the clipboard is left as it is.
    Finish(InjectOutcome),
}

/// What the last step found out.
#[derive(Debug, Clone, Copy, PartialEq, Eq, Structural)]
pub enum InjectEvent {
    Begin,
    Activated { arrived: bool },
    PasteTargetChecked { has_target: bool },
    AccessibilityInsert { inserted: bool },
    SecureInputChecked { active: bool },
    ClipboardStaged { frontmost_now: Option<TargetAppPid> },
    PasteSent { caret_unchanged: bool },
}

/// The order of delivery: blank text is a no-op; a target must come to the
/// front and have somewhere to paste; writing through Accessibility comes
/// first; a keystroke is never sent under secure input or when another app
/// has come to the front; a paste whose caret did not move leaves the text on
/// the clipboard.
pub open spec fn inject_transition(
    text_blank: bool,
    target: Option<TargetAppPid>,
    event: InjectEvent,
) -> InjectStep {
    match event {
        InjectEvent::Begin => if text_blank {
            InjectStep::Finish(InjectOutcome::Pasted)
        } else if target is Some {
            InjectStep::ActivateTarget
        } else {
            InjectStep::CheckSecureInput
        },
        InjectEvent::Activated { arrived } => if arrived {
            InjectStep::CheckPasteTarget
        } else {
            InjectStep::Finish(InjectOutcome::TargetNotFrontmost)
        },
        InjectEvent::PasteTargetChecked { has_target } => if has_target {
            InjectStep::InsertViaAccessibility
        } else {
            InjectStep::Finish(InjectOutcome::NoPasteTarget)
        },
        InjectEvent::AccessibilityInsert { inserted } => if inserted {
            InjectStep::Finish(InjectOutcome::Pasted)
        } else {
            InjectStep::CheckSecureInput
        },
        InjectEvent::SecureInputChecked { active } => if active {
            InjectStep::Finish(InjectOutcome::SecureInputActive)
        } else {
            InjectStep::StageClipboard
        },
        InjectEvent::ClipboardStaged { frontmost_now } => match target {
            Some(pid) => if frontmost_now == Some(pid) {
                InjectStep::SendPaste
            } else {
                InjectStep::RestoreThenFinish(InjectOutcome::TargetNotFrontmost)
            },
            None => InjectStep::SendPaste,
        },
        InjectEvent::PasteSent { caret_unchanged } => if caret_unchanged {
            InjectStep::Finish(InjectOutcome::PasteDidNotLand)
        } else {
            InjectStep::RestoreThenFinish(InjectOutcome::Pasted)
        },
    }
}

/// The step after `event`, for `text` aimed at `target`.
pub fn next_inject_step(text: &str, target: Option<TargetAppPid>, event: InjectEvent) -> (r:
    InjectStep)
    ensures
        r == inject_transition(is_blank(text@), target, event),
        r == InjectStep::SendPaste ==> (event matches InjectEvent::ClipboardStaged {
            frontmost_now,
        } && (target is None || frontmost_now == target)),
        r == InjectStep::StageClipboard ==> event == (InjectEvent::SecureInputChecked {
            active: false,
        }),
{
    match event {
        InjectEvent::Begin => {
            let cs = chars_of(text);
            if all_whitespace(&cs) {
                InjectStep::Finish(InjectOutcome::Pasted)
            } else if target.is_some() {
                InjectStep::ActivateTarget
            } else {
                InjectStep::CheckSecureInput
            }
        },
        InjectEvent::Activated { arrived } => if arrived {
            InjectStep::CheckPasteTarget
        } else {
            InjectStep::Finish(InjectOutcome::TargetNotFrontmost)
        },
        InjectEvent::PasteTargetChecked { has_target } => if has_target {
            InjectStep::InsertViaAccessibility
        } else {
            InjectStep::Finish(InjectOutcome::NoPasteTarget)
        },
        InjectEvent::AccessibilityInsert { inserted } => if inserted {
            InjectStep::Finish(InjectOutcome::Pasted)
        } else {
            InjectStep::CheckSecureInput
        },
        InjectEvent::SecureInputChecked { active } => if active {
            InjectStep::Finish(InjectOutcome::SecureInputActive)
        } else {
            InjectStep::StageClipboard
        },
        InjectEvent::ClipboardStaged { frontmost_now } => match target {
            Some(pid) => {
                let same = match frontmost_now {
                    Some(now) => now == pid,
                    None => false,
                };
                if same {
                    InjectStep::SendPaste
                } else {
                    InjectStep::RestoreThenFinish(InjectOutcome::TargetNotFrontmost)
                }
            },
            None => InjectStep::SendPaste,
        },
        InjectEvent::PasteSent { caret_unchanged } => if caret_unchanged {
            InjectStep::Finish(InjectOutcome::PasteDidNotLand)
        } else {
            InjectStep::RestoreThenFinish(InjectOutcome::Pasted)
        },
    }
}

/// The System Events wordings that mean the Accessibility permission is
/// missing, compared case-insensitively.
pub open spec fn accessibility_denied(stderr: Seq<char>) -> bool {
    let s = lower_seq(stderr);
    ||| contains(s, "not allowed to send keystrokes"@)
    ||| contains(s, "assistive access"@)
    ||| contains(s, "1002"@)
    ||| contains(s, "-1719"@)
}

/// Whether an `osascript` error means the Accessibility permission is missing.
pub fn is_accessibility_denied(stderr: &str) -> (r: bool)
    ensures
        r == accessibility_denied(stderr@),
{
    let raw = chars_of(stderr);
    let s = lowercase_chars(&raw);
    let a = chars_of("not allowed to send keystrokes");
    let b = chars_of("assistive access");
    let c = chars_of("1002");
    let d = chars_of("-1719");
    contains_chars(&s, &a) || contains_chars(&s, &b) || contains_chars(&s, &c) || contains_chars(
        &s,
        &d,
    )
}

/// `Some(t)` for a non-empty `t`, nothing for an empty one.
pub open spec fn nonempty(t: Seq<char>) -> Option<Seq<char>> {
    if t.len() == 0 {
        None
    } else {
        Some(t)
    }
}

/// How the Accessibility probe's answer is read: granted only when
/// `osascript` succeeded and printed `true`; a printed `false` or a denial
/// message is a missing permission, anything else a failed probe.
pub fn accessibility_probe_result(success: bool, stdout: &str, stderr: &str) -> (r: Result<
    (),
    AppError,
>)
    ensures
        r is Ok <==> (success && trimmed(stdout@) == "true"@),
        r matches Err(e) ==> {
            &&& e.message@ == "The Accessibility permission has not been granted."@
            &&& e.code@ == if trimmed(stdout@) == "false"@ || accessibility_denied(trimmed(stderr@)) {
                "dictation_accessibility_permission_required"@
            } else {
                "dictation_accessibility_probe_failed"@
            }
            &&& opt_view(e.details) == nonempty(trimmed(stderr@))
        },
{
    let out_raw = chars_of(stdout);
    let out = trim_chars(&out_raw);
    let yes = chars_of("true");
    let no = chars_of("false");
    if success && crate::text::chars_equal(&out, &yes) {
        return Ok(());
    }
    let err_raw = chars_of(stderr);
    let err = trim_chars(&err_raw);
    let err_text = string_of(err.as_slice());
    let denied = crate::text::chars_equal(&out, &no) || is_accessibility_denied(
        err_text.as_str(),
    );
    let details = if err.len() == 0 {
        None
    } else {
        Some(err_text)
    };
    if denied {
        Err(
            app_error(
                "dictation_accessibility_permission_required",
                "The Accessibility permission has not been granted.",
                details,
            ),
        )
    } else {
        Err(
            app_error(
                "dictation_accessibility_probe_failed",
                "The Accessibility permission has not been granted.",
                details,
            ),
        )
    }
}

/// The two shortcuts injection sends.
#[derive(Debug, Clone, Copy, PartialEq, Eq, Structural)]
pub enum CommandKey {
    /// Cmd+C.
    Copy,
    /// Cmd+V.
    Paste,
}

/// The physical key code (`kVK_ANSI_C`, `kVK_ANSI_V`).
pub open spec fn key_code(key: CommandKey) -> u16 {
    match key {
        CommandKey::Copy => 8,
        CommandKey::Paste => 9,
    }
}

pub open spec fn key_letter(key: CommandKey) -> Seq<char> {
    match key {
        CommandKey::Copy => "C"@,
        CommandKey::Paste => "V"@,
    }
}

/// The key code to post for `key`; without the Accessibility permission
/// the event would be dropped in silence, so that is an error up front.
pub fn command_key_plan(key: CommandKey, trusted: bool) -> (r: Result<u16, AppError>)
    ensures
        trusted ==> r == Ok::<u16, AppError>(key_code(key)),
        !trusted ==> (r matches Err(e) && e.code@ == "dictation_accessibility_permission_required"@
            && e.message@ == "Cannot send Cmd+"@ + key_letter(key)
            + " without the Accessibility permission."@ && e.details is None),
{
    if !trusted {
        let mut m = chars_of("Cannot send Cmd+");
        match key {
            CommandKey::Copy => push_str(&mut m, "C"),
            CommandKey::Paste => push_str(&mut m, "V"),
        }
        push_str(&mut m, " without the Accessibility permission.");
        return Err(
            AppError {
                code: "dictation_accessibility_permission_required".to_owned(),
                message: string_of(m.as_slice()),
                details: None,
            },
        );
    }
    match key {
        CommandKey::Copy => Ok(8),
        CommandKey::Paste => Ok(9),
    }
}

/// The error when the keyboard events for `key` could not be created.
pub fn command_key_event_failed(key: CommandKey, failure_code: &str) -> (e: AppError)
    ensures
        e.code@ == failure_code@,
        e.message@ == "Could not create the Cmd+"@ + key_letter(key) + " event."@,
        e.details is None,
{
    let mut m = chars_of("Could not create the Cmd+");
    match key {
        CommandKey::Copy => push_str(&mut m, "C"),
        CommandKey::Paste => push_str(&mut m, "V"),
    }
    push_str(&mut m, " event.");
    AppError { code: failure_code.to_owned(), message: string_of(m.as_slice()), details: None }
}

/// `exit_code={code}` for an exit code, nothing without one.
pub open spec fn exit_code_detail(code: Option<i32>) -> Option<Seq<char>> {
    match code {
        Some(c) => Some(
            "exit_code="@ + if c < 0 {
                "-"@ + decimal((-c) as nat)
            } else {
                decimal(c as nat)
            },
        ),
        None => None,
    }
}

fn exit_code_text(code: Option<i32>) -> (r: Option<String>)
    ensures
        opt_view(r) == exit_code_detail(code),
{
    match code {
        Some(c) => {
            let mut v = chars_of("exit_code=");
            if c < 0 {
                push_str(&mut v, "-");
                let wide: i64 = c as i64;
                let d = crate::text::decimal_chars((-wide) as u64);
                push_all(&mut v, &d);
            } else {
                let d = crate::text::decimal_chars(c as u64);
                push_all(&mut v, &d);
            }
            Some(string_of(v.as_slice()))
        },
        None => None,
    }
}

/// What `pbpaste` returned: its output when it succeeded, otherwise a
/// `polish_selection_clipboard_read_failed` carrying its exit code.
pub fn clipboard_read_result(success: bool, exit_code: Option<i32>, stdout: String) -> (r: Result<
    String,
    AppError,
>)
    ensures
        success ==> r == Ok::<String, AppError>(stdout),
        !success ==> (r matches Err(e) && e.is(
            "polish_selection_clipboard_read_failed"@,
            "pbpaste failed to read the clipboard."@,
        ) && opt_view(e.details) == exit_code_detail(exit_code)),
{
    if success {
        Ok(stdout)
    } else {
        Err(
            app_error(
                "polish_selection_clipboard_read_failed",
                "pbpaste failed to read the clipboard.",
                exit_code_text(exit_code),
            ),
        )
    }
}

/// What `pbcopy`'s exit status means.
pub fn clipboard_write_result(success: bool, exit_code: Option<i32>) -> (r: Result<(), AppError>)
    ensures
        success <==> r is Ok,
        !success ==> (r matches Err(e) && e.is(
            "dictation_clipboard_failed"@,
            "pbcopy failed to set the clipboard."@,
        ) && opt_view(e.details) == exit_code_detail(exit_code)),
{
    if success {
        Ok(())
    } else {
        Err(
            app_error(
                "dictation_clipboard_failed",
                "pbcopy failed to set the clipboard.",
                exit_code_text(exit_code),
            ),
        )
    }
}

} // verus!
