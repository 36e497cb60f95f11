//! Cleaning dictated text with the on-device polish helper: blank text never
//! reaches the helper, and the helper's exit is read into the polished text or
//! an error with a stable code.

use vstd::prelude::*;

use crate::domain::{app_error, opt_view, AppError};
use crate::text::{chars_of, is_blank, string_of, trim_chars, trimmed};

verus! {

/// What the polish helper process left behind.
#[derive(Debug, Clone, PartialEq, Eq)]
pub struct PolishHelperOutput {
    pub success: bool,
    pub exit_code: Option<i32>,
    /// Standard output, decoded as UTF-8 with invalid bytes replaced.
    pub stdout: String,
    /// Standard error, decoded the same way.
    pub stderr: String,
}

/// Runs the polish helper on some text. Implemented over the helper process.
/// An implementation may name, in `run_of`, which answers it gives for which
/// text; one that does not admits every answer.
pub trait PolishHelper {
    /// `r` is an answer running the helper on `raw` gives.
    open spec fn run_of(&self, raw: Seq<char>, r: Result<PolishHelperOutput, AppError>) -> bool {
        true
    }

    fn run(&self, raw: &str) -> (r: Result<PolishHelperOutput, AppError>)
        ensures
            self.run_of(raw@, r),
    ;
}

/// The error when this build carries no polish helper.
pub fn polish_helper_unavailable() -> (e: AppError)
    ensures
        e.is(
            "dictation_polish_helper_unavailable"@,
            "The dictation polish helper was not built for this platform."@,
        ),
        e.details is None,
{
    app_error(
        "dictation_polish_helper_unavailable",
        "The dictation polish helper was not built for this platform.",
        None,
    )
}

/// What a helper run means for `raw`: on success its trimmed output, or the
/// trimmed input when it printed nothing; otherwise
/// `apple_intelligence_unavailable` for exit code 2 and
/// `dictation_polish_failed` for anything else, with its trimmed standard
/// error as details when there is any.
pub open spec fn polish_outcome(raw: Seq<char>, out: PolishHelperOutput) -> Result<
    Seq<char>,
    (Seq<char>, Option<Seq<char>>),
> {
    if out.success {
        if trimmed(out.stdout@).len() == 0 {
            Ok(trimmed(raw))
        } else {
            Ok(trimmed(out.stdout@))
        }
    } else {
        Err(
            (
                if out.exit_code == Some(2i32) {
                    "apple_intelligence_unavailable"@
                } else {
                    "dictation_polish_failed"@
                },
                if trimmed(out.stderr@).len() == 0 {
                    None
                } else {
                    Some(trimmed(out.stderr@))
                },
            ),
        )
    }
}

pub open spec fn polish_matches(r: Result<String, AppError>, o: Result<
    Seq<char>,
    (Seq<char>, Option<Seq<char>>),
>) -> bool {
    match (r, o) {
        (Ok(s), Ok(t)) => s@ == t,
        (Err(e), Err((code, details))) => e.code@ == code && e.message@
            == "Apple Intelligence could not polish the dictation."@ && opt_view(e.details)
            == details,
        _ => false,
    }
}

/// Reads a finished helper run.
pub fn interpret_polish_output(raw: &str, out: PolishHelperOutput) -> (r: Result<String, AppError>)
    ensures
        polish_matches(r, polish_outcome(raw@, out)),
{
    if out.success {
        let so = chars_of(out.stdout.as_str());
        let cleaned = trim_chars(&so);
        if cleaned.len() == 0 {
            let rc = chars_of(raw);
            let t = trim_chars(&rc);
            return Ok(string_of(t.as_slice()));
        }
        return Ok(string_of(cleaned.as_slice()));
    }
    let se = chars_of(out.stderr.as_str());
    let err = trim_chars(&se);
    let details = if err.len() == 0 {
        None
    } else {
        Some(string_of(err.as_slice()))
    };
    let unavailable = match out.exit_code {
        Some(c) => c == 2,
        None => false,
    };
    if unavailable {
        Err(
            app_error(
                "apple_intelligence_unavailable",
                "Apple Intelligence could not polish the dictation.",
                details,
            ),
        )
    } else {
        Err(
            app_error(
                "dictation_polish_failed",
                "Apple Intelligence could not polish the dictation.",
                details,
            ),
        )
    }
}

/// Cleans dictated text. Blank text comes back trimmed (empty) without the
/// helper being asked; otherwise the helper's result is read as
/// [`interpret_polish_output`] says, and an error running it is returned.
pub fn polish_text<H: PolishHelper>(raw: &str, helper: &H) -> (r: Result<String, AppError>)
    ensures
        is_blank(raw@) ==> (r matches Ok(s) && s@ == Seq::<char>::empty()),
        !is_blank(raw@) ==> exists|answer: Result<PolishHelperOutput, AppError>|
            #[trigger] helper.run_of(raw@, answer) && match answer {
                Ok(out) => polish_matches(r, polish_outcome(raw@, out)),
                Err(e) => r == Err::<String, AppError>(e),
            },
{
    let rc = chars_of(raw);
    let t = trim_chars(&rc);
    proof {
        crate::text::lemma_trimmed_empty_iff_blank(raw@);
    }
    if t.len() == 0 {
        return Ok(string_of(t.as_slice()));
    }
    let answer = helper.run(raw);
    let ghost answer_ghost = answer;
    let r = match answer {
        Ok(out) => interpret_polish_output(raw, out),
        Err(e) => Err(e),
    };
    assert(helper.run_of(raw@, answer_ghost));
    r
}

} // verus!
