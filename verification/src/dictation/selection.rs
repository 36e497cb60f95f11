//! Polish-selection: what counts as a selection after a synthesised Cmd+C,
//! when the wait for the clipboard ends, what each attempt comes to, and
//! when the user's clipboard is put back afterwards, and what the user is
//! told about it.

use vstd::prelude::*;

use crate::domain::{opt_view, AppError};
use crate::text::{all_whitespace, chars_equal, chars_of, is_blank};

verus! {

/// How often the clipboard is re-read while waiting for Cmd+C to land.
pub const COPY_POLL_INTERVAL_MS: u64 = 25;

/// How long to wait for the clipboard to change after Cmd+C.
pub const COPY_MAX_WAIT_MS: u64 = 500;

/// Result of a polish-selection attempt.
#[derive(Debug, PartialEq, Eq, Structural)]
pub enum SelectionPolishOutcome {
    /// The selection was polished and pasted back.
    Applied,
    /// Nothing was selected: the clipboard did not change after Cmd+C.
    NoSelection,
    /// Polishing worked but pasting it back did not; the polished text is on
    /// the clipboard.
    PasteFailed,
}

/// Whether to stop waiting: the clipboard changed, or the deadline passed.
pub fn clipboard_wait_over(before: &str, current: &str, now_ms: u64, deadline_ms: u64) -> (r: bool)
    ensures
        r == (current@ != before@ || now_ms >= deadline_ms),
{
    let b = chars_of(before);
    let c = chars_of(current);
    !chars_equal(&c, &b) || now_ms >= deadline_ms
}

/// Whether what the clipboard holds after Cmd+C is a selection to polish:
/// something non-blank that differs from what was there before.
pub fn is_fresh_selection(before: &str, selected: &str) -> (r: bool)
    ensures
        r == (!is_blank(selected@) && selected@ != before@),
{
    let b = chars_of(before);
    let s = chars_of(selected);
    !all_whitespace(&s) && !chars_equal(&s, &b)
}

/// The outcome once the polished text is non-blank and was pasted back, or
/// not.
pub fn outcome_after_paste(pasted: bool) -> (r: SelectionPolishOutcome)
    ensures
        r == if pasted {
            SelectionPolishOutcome::Applied
        } else {
            SelectionPolishOutcome::PasteFailed
        },
{
    if pasted {
        SelectionPolishOutcome::Applied
    } else {
        SelectionPolishOutcome::PasteFailed
    }
}

/// Whether the clipboard saved before Cmd+C is put back: always when
/// something was saved, except after a failed paste-back, which leaves the
/// polished text on the clipboard as its only copy.
pub fn should_restore_clipboard(outcome: &Result<SelectionPolishOutcome, AppError>, saved_is_empty: bool) -> (r: bool)
    ensures
        r == (!(outcome matches Ok(SelectionPolishOutcome::PasteFailed)) && !saved_is_empty),
{
    let paste_failed = match outcome {
        Ok(SelectionPolishOutcome::PasteFailed) => true,
        _ => false,
    };
    !paste_failed && !saved_is_empty
}

/// What the user is told after a polish-selection attempt, and how many
/// "nothing selected" notices have come in a row: a success resets the
/// count and says nothing; nothing selected counts one more and asks for a
/// selection (spelled out the first three times); a failed paste-back says
/// the text is on the clipboard; an error asks to try again.
pub open spec fn selection_notice_spec(
    count: u32,
    outcome: Result<SelectionPolishOutcome, AppError>,
) -> (int, Option<Seq<char>>) {
    match outcome {
        Ok(SelectionPolishOutcome::Applied) => (0, None),
        Ok(SelectionPolishOutcome::NoSelection) => (
            count + 1,
            Some(
                if count + 1 <= 3 {
                    "Select some text first, then try again."@
                } else {
                    "Select text to polish it."@
                },
            ),
        ),
        Ok(SelectionPolishOutcome::PasteFailed) => (
            count as int,
            Some("Couldn't paste right now \u{2014} the polished text is on your clipboard."@),
        ),
        Err(_) => (count as int, Some("Couldn't polish the selection. Try again."@)),
    }
}

/// The notice after a polish-selection attempt and the new count of
/// "nothing selected" notices in a row, as [`selection_notice_spec`] says.
pub fn selection_notice(count: u32, outcome: &Result<SelectionPolishOutcome, AppError>) -> (r: (
    u32,
    Option<String>,
))
    requires
        outcome matches Ok(SelectionPolishOutcome::NoSelection) ==> count < u32::MAX,
    ensures
        (r.0 as int, opt_view(r.1)) == selection_notice_spec(count, *outcome),
{
    match outcome {
        Ok(SelectionPolishOutcome::Applied) => (0, None),
        Ok(SelectionPolishOutcome::NoSelection) => {
            let next = count + 1;
            let message = if next <= 3 {
                "Select some text first, then try again."
            } else {
                "Select text to polish it."
            };
            (next, Some(String::from_str(message)))
        },
        Ok(SelectionPolishOutcome::PasteFailed) => (
            count,
            Some(
                String::from_str(
                    "Couldn't paste right now \u{2014} the polished text is on your clipboard.",
                ),
            ),
        ),
        Err(_) => (count, Some(String::from_str("Couldn't polish the selection. Try again."))),
    }
}

} // verus!
