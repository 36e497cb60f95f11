//! System-audio capture through a helper process: the backend interface a
//! recording runs on, and how the helper's exit is summarized.

use vstd::prelude::*;

use crate::domain::{app_error, AppError};
use crate::text::{chars_of, push_all, push_str, string_of, trim_chars, trimmed};

verus! {

/// ScreenCaptureKit delivers system audio at 48 kHz.
pub const SYSTEM_AUDIO_SAMPLE_RATE_HZ: u32 = 48_000;

/// How long the helper gets to exit after being told to stop.
pub const HELPER_STOP_TIMEOUT_MS: u64 = 5_000;

/// Something that can record the system's audio output to a file. An
/// implementation may name, in `start_capture_of`, which answers it gives;
/// one that does not admits every answer.
pub trait SystemAudioCaptureBackend {
    type Session: SystemAudioSessionHandle;

    /// `r` is an answer starting a capture into `file_path` gives.
    open spec fn start_capture_of(
        &self,
        file_path: Seq<char>,
        r: Result<ActiveSystemAudioCapture<Self::Session>, AppError>,
    ) -> bool {
        true
    }

    fn start_capture(&self, file_path: String) -> (r: Result<
        ActiveSystemAudioCapture<Self::Session>,
        AppError,
    >)
        ensures
            self.start_capture_of(file_path@, r),
    ;
}

/// A running system-audio capture. An implementation may name, in
/// `stop_of`, which summaries stopping it gives; one that does not admits
/// every summary.
pub trait SystemAudioSessionHandle {
    /// `r` is a summary stopping this capture gives.
    open spec fn stop_of(&self, r: SystemAudioCaptureSummary) -> bool {
        true
    }

    /// Stops the capture; problems are reported in the summary, never as an
    /// error, so that a microphone recording still finishes.
    fn stop(self) -> (r: SystemAudioCaptureSummary)
        ensures
            self.stop_of(r),
    ;
}

/// A system-audio capture in flight.
pub struct ActiveSystemAudioCapture<H> {
    pub file_path: String,
    pub sample_rate_hz: u32,
    pub handle: H,
}

/// What a finished system-audio capture reports.
#[derive(Debug, Clone, PartialEq, Eq)]
pub struct SystemAudioCaptureSummary {
    pub byte_size: Option<u64>,
    pub stream_error: Option<String>,
}

/// What the helper wrote to standard error, trimmed; nothing if that is blank.
pub open spec fn stderr_detail(raw: Option<Seq<char>>) -> Option<Seq<char>> {
    match raw {
        None => None,
        Some(s) => if trimmed(s).len() == 0 {
            None
        } else {
            Some(trimmed(s))
        },
    }
}

pub fn helper_stderr_detail(raw: Option<String>) -> (r: Option<String>)
    ensures
        crate::domain::opt_view(r) == stderr_detail(crate::domain::opt_view(raw)),
{
    match raw {
        None => None,
        Some(s) => {
            let cs = chars_of(s.as_str());
            let t = trim_chars(&cs);
            if t.len() == 0 {
                None
            } else {
                Some(string_of(t.as_slice()))
            }
        },
    }
}

/// The stream error recorded when the helper exited with `status`: none
/// after a clean exit unless stopping it could not be signalled; otherwise
/// the exit status, with the signalling problem before it and the helper's
/// own words after it where there are any.
pub open spec fn exit_stream_error(
    success: bool,
    status: Seq<char>,
    signal_error: Option<Seq<char>>,
    stderr: Option<Seq<char>>,
) -> Option<Seq<char>> {
    if success {
        signal_error
    } else {
        Some(
            match (signal_error, stderr) {
                (Some(sig), Some(err)) => sig + "; system audio helper exited with "@ + status
                    + ": "@ + err,
                (Some(sig), None) => sig + "; system audio helper exited with "@ + status + "."@,
                (None, Some(err)) => "System audio helper exited with "@ + status + ": "@ + err,
                (None, None) => "System audio helper exited with "@ + status + "."@,
            },
        )
    }
}

/// Summary of a helper that exited: `success` and `status` describe its exit
/// status, `stderr` is what it wrote to standard error.
pub fn helper_exit_summary(
    success: bool,
    status: &str,
    signal_error: Option<String>,
    stderr: Option<String>,
) -> (r: SystemAudioCaptureSummary)
    ensures
        r.byte_size is None,
        crate::domain::opt_view(r.stream_error) == exit_stream_error(
            success,
            status@,
            crate::domain::opt_view(signal_error),
            stderr_detail(crate::domain::opt_view(stderr)),
        ),
{
    let detail = helper_stderr_detail(stderr);
    let stream_error = if success {
        signal_error
    } else {
        let mut v: Vec<char> = Vec::new();
        match &signal_error {
            Some(sig) => {
                let s = chars_of(sig.as_str());
                push_all(&mut v, &s);
                push_str(&mut v, "; system audio helper exited with ");
            },
            None => {
                push_str(&mut v, "System audio helper exited with ");
            },
        }
        let st = chars_of(status);
        push_all(&mut v, &st);
        match &detail {
            Some(err) => {
                push_str(&mut v, ": ");
                let e = chars_of(err.as_str());
                push_all(&mut v, &e);
            },
            None => {
                push_str(&mut v, ".");
            },
        }
        Some(string_of(v.as_slice()))
    };
    SystemAudioCaptureSummary { byte_size: None, stream_error }
}

/// Whether to keep waiting for the helper after `elapsed_ms`.
pub fn keep_waiting_for_helper(elapsed_ms: u64) -> (r: bool)
    ensures
        r == (elapsed_ms < HELPER_STOP_TIMEOUT_MS),
{
    elapsed_ms < HELPER_STOP_TIMEOUT_MS
}

/// The problem recorded when the stop request could not be written to the
/// helper.
pub fn signal_error_text(error: &str) -> (r: String)
    ensures
        r@ == "Could not signal system audio capture to stop: "@ + error@,
{
    let mut v = chars_of("Could not signal system audio capture to stop: ");
    let e = chars_of(error);
    push_all(&mut v, &e);
    string_of(v.as_slice())
}

/// Summary of a helper that did not exit in time and was killed;
/// `kill_error` is why killing it failed, if it did.
pub fn timed_out_summary(kill_error: Option<String>) -> (r: SystemAudioCaptureSummary)
    ensures
        r.byte_size is None,
        crate::domain::opt_view(r.stream_error) == Some(
            match crate::domain::opt_view(kill_error) {
                Some(e) => "Timed out waiting for system audio capture to stop, then kill failed: "@
                    + e,
                None => "Timed out waiting for system audio capture to stop."@,
            },
        ),
{
    let text = match &kill_error {
        Some(e) => {
            let mut v = chars_of(
                "Timed out waiting for system audio capture to stop, then kill failed: ",
            );
            let ec = chars_of(e.as_str());
            push_all(&mut v, &ec);
            string_of(v.as_slice())
        },
        None => "Timed out waiting for system audio capture to stop.".to_owned(),
    };
    SystemAudioCaptureSummary { byte_size: None, stream_error: Some(text) }
}

/// Summary of a helper whose exit could not be waited for.
pub fn wait_failed_summary(error: &str) -> (r: SystemAudioCaptureSummary)
    ensures
        r.byte_size is None,
        crate::domain::opt_view(r.stream_error) == Some(
            "Could not wait for system audio helper: "@ + error@,
        ),
{
    let mut v = chars_of("Could not wait for system audio helper: ");
    let e = chars_of(error);
    push_all(&mut v, &e);
    SystemAudioCaptureSummary { byte_size: None, stream_error: Some(string_of(v.as_slice())) }
}

/// The error when this build carries no system-audio helper.
pub fn helper_unavailable() -> (e: AppError)
    ensures
        e.is(
            "system_audio_helper_unavailable"@,
            "ScreenCaptureKit system audio helper is not available for this build."@,
        ),
        e.details is None,
{
    app_error(
        "system_audio_helper_unavailable",
        "ScreenCaptureKit system audio helper is not available for this build.",
        None,
    )
}

} // verus!
