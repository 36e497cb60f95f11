//! Converting imported audio for processing: the tools tried, the arguments
//! they are given, and how paths to them are checked.

use vstd::prelude::*;

use crate::domain::AppError;
use crate::text::{chars_of, decimal, decimal_chars, push_all, push_str, string_of, trimmed};

verus! {

/// Where Homebrew installs ffmpeg, in the order tried.
pub const HOMEBREW_FFMPEG_PATHS: [&'static str; 2] = [
    "/opt/homebrew/bin/ffmpeg",
    "/usr/local/bin/ffmpeg",
];

/// macOS's own converter, tried before ffmpeg.
pub const AFCONVERT_PATH: &'static str = "/usr/bin/afconvert";

/// An error of the import pipeline, under the caller's code.
pub fn media_import_error(code: &str, message: &str, details: Option<String>) -> (e: AppError)
    ensures
        e.code@ == code@,
        e.message@ == message@,
        e.details == details,
{
    AppError { code: code.to_owned(), message: message.to_owned(), details }
}

/// The `afconvert` data format for mono 16-bit little-endian PCM at `rate` Hz.
pub fn afconvert_data_format(rate: u32) -> (r: String)
    ensures
        r@ == "LEI16@"@ + decimal(rate as nat),
{
    let mut v = chars_of("LEI16@");
    let d = decimal_chars(rate as u64);
    push_all(&mut v, &d);
    string_of(v.as_slice())
}

/// A configured tool path, trimmed; blank means none was configured.
pub fn configured_tool_path(configured: Option<&str>) -> (r: Option<String>)
    ensures
        crate::domain::opt_view(r) == match configured {
            Some(p) => if trimmed(p@).len() == 0 {
                None
            } else {
                Some(trimmed(p@))
            },
            None => None,
        },
{
    match configured {
        None => None,
        Some(p) => {
            let cs = chars_of(p);
            let t = crate::text::trim_chars(&cs);
            if t.len() == 0 {
                None
            } else {
                Some(string_of(t.as_slice()))
            }
        },
    }
}

fn path_detail(path: &str) -> (r: Option<String>)
    ensures
        crate::domain::opt_view(r) == Some("path="@ + path@),
{
    let mut v = chars_of("path=");
    let p = chars_of(path);
    push_all(&mut v, &p);
    Some(string_of(v.as_slice()))
}

/// A tool path must be absolute and name an existing file.
pub fn validate_existing_file(path: &str, is_absolute: bool, is_file: bool, code: &str, label: &str) -> (r: Result<(), AppError>)
    ensures
        r is Ok <==> (is_absolute && is_file),
        !is_absolute ==> (r matches Err(e) && e.code@ == code@ && e.message@ == label@
            + " must be an absolute path."@ && crate::domain::opt_view(e.details) == Some(
            "path="@ + path@,
        )),
        is_absolute && !is_file ==> (r matches Err(e) && e.code@ == code@ && e.message@ == label@
            + " must point to an existing file."@ && crate::domain::opt_view(e.details) == Some(
            "path="@ + path@,
        )),
{
    if !is_absolute {
        let mut m = chars_of(label);
        push_str(&mut m, " must be an absolute path.");
        return Err(media_import_error(code, string_of(m.as_slice()).as_str(), path_detail(path)));
    }
    if !is_file {
        let mut m = chars_of(label);
        push_str(&mut m, " must point to an existing file.");
        return Err(media_import_error(code, string_of(m.as_slice()).as_str(), path_detail(path)));
    }
    Ok(())
}

/// A file is executable when any of its execute bits is set.
pub fn validate_executable_mode(path: &str, mode: u32, code: &str, label: &str) -> (r: Result<(), AppError>)
    ensures
        r is Ok <==> (mode & 0o111u32) != 0,
        r matches Err(e) ==> e.code@ == code@ && e.message@ == label@ + " is not executable."@
            && crate::domain::opt_view(e.details) == Some("path="@ + path@),
{
    if mode & 0o111 == 0 {
        let mut m = chars_of(label);
        push_str(&mut m, " is not executable.");
        return Err(media_import_error(code, string_of(m.as_slice()).as_str(), path_detail(path)));
    }
    Ok(())
}

/// The error when ffmpeg is nowhere to be found.
pub fn ffmpeg_not_found() -> (e: AppError)
    ensures
        e.is(
            "ffmpeg_not_found"@,
            "Could not find ffmpeg. Install ffmpeg or paste an absolute ffmpeg binary path."@,
        ),
        crate::domain::opt_view(e.details) == Some("Checked common Homebrew paths and PATH."@),
{
    media_import_error(
        "ffmpeg_not_found",
        "Could not find ffmpeg. Install ffmpeg or paste an absolute ffmpeg binary path.",
        Some("Checked common Homebrew paths and PATH.".to_owned()),
    )
}

} // verus!
