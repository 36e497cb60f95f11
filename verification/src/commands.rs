//! The rules behind the app's commands: meeting history status and paging,
//! search and path normalisation, raw-audio retention, settings validation,
//! and quoting text for AppleScript notifications.

use vstd::prelude::*;

use crate::domain::{app_error, detail_number, opt_view, AnalyzerProvider, AppError};
use crate::text::{
    all_whitespace, chars_of, decimal, is_blank, push_all, push_str, string_of, trim_chars,
    trimmed,
};

verus! {

pub const DEFAULT_HISTORY_LIMIT: u32 = 10;

pub const MAX_HISTORY_LIMIT: u32 = 50;

/// How many transcript segments a history detail view shows at most.
pub const HISTORY_DETAIL_TRANSCRIPT_LIMIT: u32 = 5000;

pub const DEFAULT_TRENDS_LIMIT: u32 = 12;

pub const MAX_TRENDS_LIMIT: u32 = 50;

pub const MAX_RAW_AUDIO_RETENTION_DAYS: u16 = 365;

pub const MILLIS_PER_DAY: u64 = 86_400_000;

/// Dictations shorter than this are taken for stray taps and not recorded.
pub const MIN_DICTATION_DURATION_MS: u64 = 500;

pub const MAX_TRANSCRIBER_VOCABULARY_CHARS: usize = 600;

/// Longest search query kept, in characters.
pub const MAX_SEARCH_QUERY_CHARS: usize = 120;

#[derive(Debug, Clone, Copy, PartialEq, Eq, Structural)]
pub enum MeetingHistoryStatus {
    Recording,
    Recorded,
    Transcribed,
    Analyzed,
    FailedPartial,
}

/// A failed pipeline step wins; then a meeting still recording; then one with
/// a report; then one with a transcript.
pub open spec fn history_status(
    stopped_at_ms: Option<u64>,
    transcript_segment_count: nat,
    has_report: bool,
    has_pipeline_failure: bool,
) -> MeetingHistoryStatus {
    if has_pipeline_failure {
        MeetingHistoryStatus::FailedPartial
    } else if stopped_at_ms is None {
        MeetingHistoryStatus::Recording
    } else if has_report {
        MeetingHistoryStatus::Analyzed
    } else if transcript_segment_count > 0 {
        MeetingHistoryStatus::Transcribed
    } else {
        MeetingHistoryStatus::Recorded
    }
}

pub fn meeting_history_status(
    stopped_at_ms: Option<u64>,
    transcript_segment_count: usize,
    has_report: bool,
    has_pipeline_failure: bool,
) -> (s: MeetingHistoryStatus)
    ensures
        s == history_status(
            stopped_at_ms,
            transcript_segment_count as nat,
            has_report,
            has_pipeline_failure,
        ),
{
    if has_pipeline_failure {
        return MeetingHistoryStatus::FailedPartial;
    }
    if stopped_at_ms.is_none() {
        return MeetingHistoryStatus::Recording;
    }
    if has_report {
        return MeetingHistoryStatus::Analyzed;
    }
    if transcript_segment_count > 0 {
        return MeetingHistoryStatus::Transcribed;
    }
    MeetingHistoryStatus::Recorded
}

/// A history item's duration: the recorded one, else the time from start to
/// stop (zero if the stop is before the start), else none.
pub fn history_duration_ms(duration_ms: Option<u64>, started_at_ms: u64, stopped_at_ms: Option<
    u64,
>) -> (r: Option<u64>)
    ensures
        r == match duration_ms {
            Some(d) => Some(d),
            None => match stopped_at_ms {
                Some(s) => Some(
                    if s >= started_at_ms {
                        (s - started_at_ms) as u64
                    } else {
                        0u64
                    },
                ),
                None => None,
            },
        },
{
    match duration_ms {
        Some(d) => Some(d),
        None => match stopped_at_ms {
            Some(s) => Some(
                if s >= started_at_ms {
                    s - started_at_ms
                } else {
                    0
                },
            ),
            None => None,
        },
    }
}

/// The page size asked for, or the default, kept within `1..=max`.
pub fn page_limit(limit: Option<u32>, default_limit: u32, max_limit: u32) -> (r: u32)
    requires
        1 <= max_limit,
    ensures
        r == ({
            let l = match limit {
                Some(l) => l,
                None => default_limit,
            };
            if l < 1 {
                1
            } else if l > max_limit {
                max_limit
            } else {
                l
            }
        }),
{
    let l = match limit {
        Some(l) => l,
        None => default_limit,
    };
    if l < 1 {
        1
    } else if l > max_limit {
        max_limit
    } else {
        l
    }
}

/// Where the next page starts: only when more rows came back than the page
/// holds, and only if that offset fits.
pub fn next_page_offset(fetched_rows: usize, requested_limit: u32, offset: u32) -> (r: Option<u32>)
    ensures
        r == if fetched_rows > requested_limit && offset + requested_limit <= u32::MAX {
            Some((offset + requested_limit) as u32)
        } else {
            None::<u32>
        },
{
    if fetched_rows > requested_limit as usize {
        offset.checked_add(requested_limit)
    } else {
        None
    }
}

/// A search query trimmed and cut to its first 120 characters; a blank one
/// is no query.
pub open spec fn normalized_query(q: Option<Seq<char>>) -> Option<Seq<char>> {
    match q {
        None => None,
        Some(s) => {
            let t = trimmed(s);
            let cut = if t.len() > MAX_SEARCH_QUERY_CHARS {
                t.take(MAX_SEARCH_QUERY_CHARS as int)
            } else {
                t
            };
            if cut.len() == 0 {
                None
            } else {
                Some(cut)
            }
        },
    }
}

pub fn normalize_search_query(search_query: Option<String>) -> (r: Option<String>)
    ensures
        opt_view(r) == normalized_query(opt_view(search_query)),
{
    match search_query {
        None => None,
        Some(q) => {
            let cs = chars_of(q.as_str());
            let t = trim_chars(&cs);
            let n = if t.len() > MAX_SEARCH_QUERY_CHARS {
                MAX_SEARCH_QUERY_CHARS
            } else {
                t.len()
            };
            let cut = crate::text::slice_chars(&t, 0, n);
            assert(t.len() <= MAX_SEARCH_QUERY_CHARS ==> cut@ =~= t@);
            if cut.len() == 0 {
                None
            } else {
                Some(string_of(cut.as_slice()))
            }
        },
    }
}

/// A settings path trimmed; a blank one is no path.
pub open spec fn normalized_path(p: Option<Seq<char>>) -> Option<Seq<char>> {
    match p {
        None => None,
        Some(s) => if trimmed(s).len() == 0 {
            None
        } else {
            Some(trimmed(s))
        },
    }
}

pub fn normalize_optional_path(path: Option<String>) -> (r: Option<String>)
    ensures
        opt_view(r) == normalized_path(opt_view(path)),
{
    match path {
        None => None,
        Some(p) => {
            let cs = chars_of(p.as_str());
            let t = trim_chars(&cs);
            if t.len() == 0 {
                None
            } else {
                Some(string_of(t.as_slice()))
            }
        },
    }
}

/// Raw audio is kept between 0 and 365 days.
pub fn validate_retention_days(retention_days: u16) -> (r: Result<u16, AppError>)
    ensures
        retention_days <= MAX_RAW_AUDIO_RETENTION_DAYS ==> r == Ok::<u16, AppError>(
            retention_days,
        ),
        retention_days > MAX_RAW_AUDIO_RETENTION_DAYS ==> (r matches Err(e) && e.is(
            "invalid_retention_days"@,
            "Raw audio retention must be between 0 and 365 days."@,
        ) && opt_view(e.details) == Some(
            "raw_audio_retention_days"@ + "="@ + decimal(retention_days as nat),
        )),
{
    if retention_days <= MAX_RAW_AUDIO_RETENTION_DAYS {
        return Ok(retention_days);
    }
    Err(
        app_error(
            "invalid_retention_days",
            "Raw audio retention must be between 0 and 365 days.",
            detail_number("raw_audio_retention_days", retention_days as u64),
        ),
    )
}

/// Audio recorded before this instant has outlived its retention.
pub fn retention_cutoff_ms(retention_days: u16, now_ms: u64) -> (r: u64)
    ensures
        r == if now_ms >= retention_days * MILLIS_PER_DAY {
            now_ms - retention_days * MILLIS_PER_DAY
        } else {
            0
        },
{
    let window: u64 = (retention_days as u64) * MILLIS_PER_DAY;
    now_ms.saturating_sub(window)
}

/// The files a meeting's audio metadata points at: the microphone file,
/// then the system-audio file if there is one.
pub fn retention_file_paths(file_path: &String, system_audio_file_path: &Option<String>) -> (r: Vec<
    String,
>)
    ensures
        r@ == match system_audio_file_path {
            Some(s) => seq![*file_path, *s],
            None => seq![*file_path],
        },
{
    let mut paths: Vec<String> = Vec::new();
    paths.push(file_path.clone());
    if let Some(s) = system_audio_file_path {
        paths.push(s.clone());
    }
    paths
}

/// What deleting retained audio did.
#[derive(Debug, Clone, Copy, PartialEq, Eq, Structural)]
pub struct RetentionCleanupSummary {
    pub deleted_audio_file_count: u32,
    pub removed_audio_metadata_count: u32,
    pub skipped_audio_file_count: u32,
}

/// Settings after a privacy update, and what the retention sweep removed.
#[derive(Debug)]
pub struct PrivacySettingsUpdateResult {
    pub settings: crate::domain::ResonanceSettings,
    pub cleanup: RetentionCleanupSummary,
}

/// What happened to one retained audio file.
#[derive(Debug, Clone, Copy, PartialEq, Eq, Structural)]
pub enum RetainedAudioDeleteOutcome {
    Deleted,
    Missing,
    Skipped,
}

impl RetentionCleanupSummary {
    pub fn empty() -> (r: Self)
        ensures
            r == (RetentionCleanupSummary {
                deleted_audio_file_count: 0,
                removed_audio_metadata_count: 0,
                skipped_audio_file_count: 0,
            }),
    {
        RetentionCleanupSummary {
            deleted_audio_file_count: 0,
            removed_audio_metadata_count: 0,
            skipped_audio_file_count: 0,
        }
    }

    /// Counts one file: deleted and skipped files are counted, missing ones
    /// are not.
    pub fn count_file(&mut self, outcome: RetainedAudioDeleteOutcome)
        requires
            old(self).deleted_audio_file_count < u32::MAX,
            old(self).skipped_audio_file_count < u32::MAX,
        ensures
            *final(self) == match outcome {
                RetainedAudioDeleteOutcome::Deleted => RetentionCleanupSummary {
                    deleted_audio_file_count: (old(self).deleted_audio_file_count + 1) as u32,
                    ..*old(self)
                },
                RetainedAudioDeleteOutcome::Missing => *old(self),
                RetainedAudioDeleteOutcome::Skipped => RetentionCleanupSummary {
                    skipped_audio_file_count: (old(self).skipped_audio_file_count + 1) as u32,
                    ..*old(self)
                },
            },
    {
        match outcome {
            RetainedAudioDeleteOutcome::Deleted => {
                self.deleted_audio_file_count = self.deleted_audio_file_count + 1;
            },
            RetainedAudioDeleteOutcome::Missing => {},
            RetainedAudioDeleteOutcome::Skipped => {
                self.skipped_audio_file_count = self.skipped_audio_file_count + 1;
            },
        }
    }

    /// Counts one metadata row that was removed.
    pub fn count_removed_metadata(&mut self)
        requires
            old(self).removed_audio_metadata_count < u32::MAX,
        ensures
            *final(self) == (RetentionCleanupSummary {
                removed_audio_metadata_count: (old(self).removed_audio_metadata_count + 1) as u32,
                ..*old(self)
            }),
    {
        self.removed_audio_metadata_count = self.removed_audio_metadata_count + 1;
    }
}

/// Only a file that resolves inside the app's data directory is deleted;
/// a relative path, or one outside it, is skipped.
pub fn retained_audio_delete_decision(is_absolute: bool, inside_app_data: bool, is_file: bool) -> (r:
    Option<RetainedAudioDeleteOutcome>)
    ensures
        !is_absolute ==> r == Some(RetainedAudioDeleteOutcome::Skipped),
        is_absolute && !(inside_app_data && is_file) ==> r == Some(
            RetainedAudioDeleteOutcome::Skipped,
        ),
        is_absolute && inside_app_data && is_file ==> r is None,
{
    if !is_absolute || !(inside_app_data && is_file) {
        Some(RetainedAudioDeleteOutcome::Skipped)
    } else {
        None
    }
}

/// The analyzer a privacy update leaves in place: cloud analysis off always
/// means the local analyzer.
pub fn effective_analyzer_provider(requested: AnalyzerProvider, cloud_analysis_enabled: bool) -> (r:
    AnalyzerProvider)
    ensures
        r == if cloud_analysis_enabled {
            requested
        } else {
            AnalyzerProvider::LocalOllama
        },
{
    if cloud_analysis_enabled {
        requested
    } else {
        AnalyzerProvider::LocalOllama
    }
}

/// Whether a finished dictation is recorded: it has text, and it ran at
/// least half a second.
pub fn should_record_dictation(text: &str, duration_ms: u64) -> (r: bool)
    ensures
        r == (!is_blank(text@) && duration_ms >= MIN_DICTATION_DURATION_MS),
{
    let cs = chars_of(text);
    !all_whitespace(&cs) && duration_ms >= MIN_DICTATION_DURATION_MS
}

/// A transcriber vocabulary trimmed (blank is none), refused when it is
/// longer than 600 characters.
pub fn validate_transcriber_vocabulary(vocabulary: Option<String>) -> (r: Result<
    Option<String>,
    AppError,
>)
    ensures
        match normalized_path(opt_view(vocabulary)) {
            Some(v) => if v.len() > MAX_TRANSCRIBER_VOCABULARY_CHARS {
                r matches Err(e) && e.code@ == "invalid_transcriber_vocabulary"@ && e.message@
                    == "Vocabulary is too long; keep it under 600 characters."@ && opt_view(
                    e.details,
                ) == Some("length"@ + "="@ + decimal(v.len()))
            } else {
                r matches Ok(o) && opt_view(o) == Some(v)
            },
            None => r matches Ok(o) && o is None,
        },
{
    let v = normalize_optional_path(vocabulary);
    match v {
        None => Ok(None),
        Some(s) => {
            let cs = chars_of(s.as_str());
            if cs.len() > MAX_TRANSCRIBER_VOCABULARY_CHARS {
                Err(
                    app_error(
                        "invalid_transcriber_vocabulary",
                        "Vocabulary is too long; keep it under 600 characters.",
                        detail_number("length", cs.len() as u64),
                    ),
                )
            } else {
                Ok(Some(s))
            }
        },
    }
}

/// A notification needs a non-blank title and body; they are trimmed.
pub fn validate_notification(title: &str, body: &str) -> (r: Result<(String, String), AppError>)
    ensures
        r is Ok <==> (!is_blank(title@) && !is_blank(body@)),
        r matches Ok((t, b)) ==> t@ == trimmed(title@) && b@ == trimmed(body@),
        r matches Err(e) ==> e.is(
            "invalid_notification"@,
            "Notification title and body are required."@,
        ) && e.details is None,
{
    let tc = chars_of(title);
    let bc = chars_of(body);
    let t = trim_chars(&tc);
    let b = trim_chars(&bc);
    proof {
        crate::text::lemma_trimmed_empty_iff_blank(title@);
        crate::text::lemma_trimmed_empty_iff_blank(body@);
    }
    if t.len() == 0 || b.len() == 0 {
        return Err(
            app_error(
                "invalid_notification",
                "Notification title and body are required.",
                None,
            ),
        );
    }
    Ok((string_of(t.as_slice()), string_of(b.as_slice())))
}

/// One character as AppleScript string content: backslash and double quote
/// escaped, line breaks turned into spaces.
pub open spec fn apple_script_escaped(c: char) -> Seq<char> {
    if c == '\\' {
        seq!['\\', '\\']
    } else if c == '"' {
        seq!['\\', '"']
    } else if c == '\n' || c == '\r' {
        seq![' ']
    } else {
        seq![c]
    }
}

pub open spec fn apple_script_body(s: Seq<char>) -> Seq<char>
    decreases s.len(),
{
    if s.len() == 0 {
        seq![]
    } else {
        apple_script_body(s.drop_last()) + apple_script_escaped(s.last())
    }
}

/// `value` as an AppleScript string literal.
pub fn apple_script_string_literal(value: &str) -> (r: String)
    ensures
        r@ == seq!['"'] + apple_script_body(value@) + seq!['"'],
{
    let cs = chars_of(value);
    let mut out: Vec<char> = Vec::new();
    out.push('"');
    let mut i: usize = 0;
    while i < cs.len()
        invariant
            i <= cs@.len(),
            out@ == seq!['"'] + apple_script_body(cs@.take(i as int)),
        decreases cs.len() - i,
    {
        let c = cs[i];
        assert(cs@.take(i + 1).drop_last() =~= cs@.take(i as int));
        let ghost before = out@;
        if c == '\\' {
            out.push('\\');
            out.push('\\');
        } else if c == '"' {
            out.push('\\');
            out.push('"');
        } else if c == '\n' || c == '\r' {
            out.push(' ');
        } else {
            out.push(c);
        }
        assert(out@ =~= before + apple_script_escaped(c));
        i = i + 1;
    }
    assert(cs@.take(i as int) =~= cs@);
    out.push('"');
    string_of(out.as_slice())
}

} // verus!
