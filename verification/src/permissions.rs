//! Permission status for first-run onboarding, and the System Settings panes
//! the app is willing to open.

use vstd::prelude::*;

use crate::domain::AppError;
use crate::text::{chars_of, push_str, string_of};

verus! {

/// How long a microphone probe capture runs before it is stopped.
pub const PROBE_CAPTURE_DURATION_MS: u64 = 300;

#[derive(Debug, Clone, Copy, PartialEq, Eq, Structural)]
pub enum PermissionStatus {
    Granted,
    Denied,
}

#[derive(Debug, Clone, Copy, PartialEq, Eq, Structural)]
pub struct PermissionsSnapshot {
    pub microphone: PermissionStatus,
    pub screen_recording: PermissionStatus,
    pub accessibility: PermissionStatus,
}

/// A probe that got through is a granted permission; any error is a denied one.
pub fn status_from<T>(result: &Result<T, AppError>) -> (s: PermissionStatus)
    ensures
        s == if result is Ok {
            PermissionStatus::Granted
        } else {
            PermissionStatus::Denied
        },
{
    match result {
        Ok(_) => PermissionStatus::Granted,
        Err(_) => PermissionStatus::Denied,
    }
}

/// Screen Recording is granted only when the check ran and said so.
pub fn screen_recording_status(check: &Result<bool, AppError>) -> (s: PermissionStatus)
    ensures
        s == if check matches Ok(true) {
            PermissionStatus::Granted
        } else {
            PermissionStatus::Denied
        },
{
    match check {
        Ok(true) => PermissionStatus::Granted,
        _ => PermissionStatus::Denied,
    }
}

/// The System Settings URL for a pane on the allowlist: the three privacy
/// panes by name, and the Keyboard settings.
pub open spec fn pane_url(pane: Seq<char>) -> Option<Seq<char>> {
    if pane == "Microphone"@ || pane == "ScreenCapture"@ || pane == "Accessibility"@ {
        Some("x-apple.systempreferences:com.apple.preference.security?Privacy_"@ + pane)
    } else if pane == "Keyboard"@ {
        Some("x-apple.systempreferences:com.apple.Keyboard-Settings.extension"@)
    } else {
        None
    }
}

pub fn settings_pane_url(pane: &str) -> (r: Option<String>)
    ensures
        crate::domain::opt_view(r) == pane_url(pane@),
{
    let p = chars_of(pane);
    let mic = chars_of("Microphone");
    let screen = chars_of("ScreenCapture");
    let access = chars_of("Accessibility");
    let keyboard = chars_of("Keyboard");
    if crate::text::chars_equal(&p, &mic) || crate::text::chars_equal(&p, &screen)
        || crate::text::chars_equal(&p, &access) {
        let mut v = chars_of("x-apple.systempreferences:com.apple.preference.security?Privacy_");
        crate::text::push_all(&mut v, &p);
        Some(string_of(v.as_slice()))
    } else if crate::text::chars_equal(&p, &keyboard) {
        Some("x-apple.systempreferences:com.apple.Keyboard-Settings.extension".to_owned())
    } else {
        None
    }
}

/// The error for a pane that is not on the allowlist.
pub fn unknown_pane_error(pane: &str) -> (e: AppError)
    ensures
        e.code@ == "permissions_unknown_pane"@,
        e.message@ == "Unknown System Settings pane: "@ + pane@,
        e.details is None,
{
    let mut m = chars_of("Unknown System Settings pane: ");
    let p = chars_of(pane);
    crate::text::push_all(&mut m, &p);
    AppError {
        code: "permissions_unknown_pane".to_owned(),
        message: string_of(m.as_slice()),
        details: None,
    }
}

} // verus!
