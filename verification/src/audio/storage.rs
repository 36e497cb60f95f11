//! Where recordings live and which meeting ids may name a recording file.

use vstd::prelude::*;
use vstd::string::StringSliceAdditionalSpecFns;

use crate::domain::{app_error, AppError};
use crate::paths::{join, join_chars};
use crate::text::{chars_of, decimal, decimal_chars, push_all, push_str, string_of};

verus! {

pub const MAX_MEETING_ID_FILENAME_LEN: usize = 128;

/// Bytes a recording file stem may contain: ASCII letters, digits, `-`, `_`.
pub open spec fn is_stem_byte(b: u8) -> bool {
    ||| (48 <= b && b <= 57)
    ||| (65 <= b && b <= 90)
    ||| (97 <= b && b <= 122)
    ||| b == 45
    ||| b == 95
}

/// A meeting id that is safe to use as a recording file stem.
pub open spec fn is_valid_stem(id: &str) -> bool {
    &&& id@.len() > 0
    &&& id.spec_bytes().len() <= MAX_MEETING_ID_FILENAME_LEN
    &&& forall|i: int| 0 <= i < id.spec_bytes().len() ==> is_stem_byte(#[trigger] id.spec_bytes()[i])
}

/// The error a rejected stem is reported with.
pub open spec fn stem_error_ok(id: &str, e: AppError) -> bool {
    &&& e.code@ == "invalid_meeting_id"@
    &&& if id@.len() == 0 {
        e.message@ == "Meeting id cannot be empty."@ && e.details is None
    } else if id.spec_bytes().len() > MAX_MEETING_ID_FILENAME_LEN {
        &&& e.message@ == "Meeting id is too long to use as a recording filename."@
        &&& e.details matches Some(d) && d@ == "length="@ + decimal(id.spec_bytes().len())
            + ", max=128"@
    } else {
        &&& e.message@
            == "Meeting id can only contain ASCII letters, numbers, dashes, and underscores."@
        &&& e.details matches Some(d) && d@ == "meeting_id="@ + id@
    }
}

fn stem_byte(b: u8) -> (r: bool)
    ensures
        r == is_stem_byte(b),
{
    (48 <= b && b <= 57) || (65 <= b && b <= 90) || (97 <= b && b <= 122) || b == 45 || b == 95
}

/// Accepts a meeting id as a recording file stem only when it is non-empty,
/// at most 128 bytes, and made of ASCII letters, digits, dashes and
/// underscores, so it can never traverse or nest directories.
pub fn validate_recording_file_stem(meeting_id: &str) -> (r: Result<(), AppError>)
    ensures
        r is Ok <==> is_valid_stem(meeting_id),
        r matches Err(e) ==> stem_error_ok(meeting_id, e),
{
    if meeting_id.is_empty() {
        return Err(
            app_error("invalid_meeting_id", "Meeting id cannot be empty.", None),
        );
    }
    let bytes = meeting_id.as_bytes();
    if bytes.len() > MAX_MEETING_ID_FILENAME_LEN {
        let mut d: Vec<char> = chars_of("length=");
        let n = decimal_chars(bytes.len() as u64);
        push_all(&mut d, &n);
        push_str(&mut d, ", max=128");
        return Err(
            app_error(
                "invalid_meeting_id",
                "Meeting id is too long to use as a recording filename.",
                Some(string_of(d.as_slice())),
            ),
        );
    }
    let mut i: usize = 0;
    while i < bytes.len()
        invariant
            bytes@ == meeting_id.spec_bytes(),
            meeting_id@.len() > 0,
            bytes@.len() <= MAX_MEETING_ID_FILENAME_LEN,
            i <= bytes@.len(),
            forall|k: int| 0 <= k < i ==> is_stem_byte(#[trigger] bytes@[k]),
        decreases bytes.len() - i,
    {
        if !stem_byte(bytes[i]) {
            let mut d: Vec<char> = chars_of("meeting_id=");
            push_str(&mut d, meeting_id);
            return Err(
                app_error(
                    "invalid_meeting_id",
                    "Meeting id can only contain ASCII letters, numbers, dashes, and underscores.",
                    Some(string_of(d.as_slice())),
                ),
            );
        }
        i = i + 1;
    }
    Ok(())
}

/// The recordings directory under the app data directory.
pub open spec fn recordings_dir_of(app_data_dir: Seq<char>) -> Seq<char> {
    join(app_data_dir, "recordings"@)
}

pub fn recordings_dir(app_data_dir: &str) -> (r: String)
    ensures
        r@ == recordings_dir_of(app_data_dir@),
{
    let base = chars_of(app_data_dir);
    let name = chars_of("recordings");
    let p = join_chars(&base, &name);
    string_of(p.as_slice())
}

/// Path of the microphone WAV for a meeting: `<app data>/recordings/<id>.wav`.
/// The directory itself is created by the caller.
pub fn safe_wav_path(app_data_dir: &str, meeting_id: &str) -> (r: Result<String, AppError>)
    ensures
        r is Ok <==> is_valid_stem(meeting_id),
        r matches Err(e) ==> stem_error_ok(meeting_id, e),
        r matches Ok(p) ==> p@ == join(recordings_dir_of(app_data_dir@), meeting_id@ + ".wav"@),
{
    validate_recording_file_stem(meeting_id)?;
    let dir = chars_of(app_data_dir);
    let rec = chars_of("recordings");
    let directory = join_chars(&dir, &rec);
    let mut name = chars_of(meeting_id);
    push_str(&mut name, ".wav");
    let p = join_chars(&directory, &name);
    Ok(string_of(p.as_slice()))
}

/// Path of the system-audio track for a meeting:
/// `<app data>/recordings/<id>.system.m4a`.
pub fn safe_system_audio_path(app_data_dir: &str, meeting_id: &str) -> (r: Result<String, AppError>)
    ensures
        r is Ok <==> is_valid_stem(meeting_id),
        r matches Err(e) ==> stem_error_ok(meeting_id, e),
        r matches Ok(p) ==> p@ == join(
            recordings_dir_of(app_data_dir@),
            meeting_id@ + ".system.m4a"@,
        ),
{
    validate_recording_file_stem(meeting_id)?;
    let dir = chars_of(app_data_dir);
    let rec = chars_of("recordings");
    let directory = join_chars(&dir, &rec);
    let mut name = chars_of(meeting_id);
    push_str(&mut name, ".system.m4a");
    let p = join_chars(&directory, &name);
    Ok(string_of(p.as_slice()))
}

} // verus!
