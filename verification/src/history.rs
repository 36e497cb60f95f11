//! Meeting history as the app lists and shows it: one item per stored
//! meeting, a page of items, and the detail view of one meeting.

use vstd::prelude::*;

use crate::analysis::MeetingSummary;
use crate::commands::{history_status, history_duration_ms, meeting_history_status, MeetingHistoryStatus, HISTORY_DETAIL_TRANSCRIPT_LIMIT};
use crate::domain::{opt_view, MeetingId, ProcessingStage, ReportId, Score};
use crate::transcription::TranscriptSegment;

verus! {

/// A pipeline step that failed for a meeting, as it is stored.
#[derive(Debug)]
pub struct PipelineFailureRecord {
    pub meeting_id: MeetingId,
    pub failed_stage: ProcessingStage,
    pub error_code: String,
    pub error_message: String,
    pub error_details: Option<String>,
    pub failed_at_ms: u64,
}

/// Two failure records hold the same failure.
pub open spec fn same_failure(a: PipelineFailureRecord, b: PipelineFailureRecord) -> bool {
    &&& a.meeting_id@ == b.meeting_id@
    &&& a.failed_stage == b.failed_stage
    &&& a.error_code@ == b.error_code@
    &&& a.error_message@ == b.error_message@
    &&& opt_view(a.error_details) == opt_view(b.error_details)
    &&& a.failed_at_ms == b.failed_at_ms
}

/// Two optional failure records hold the same failure, or both none.
pub open spec fn same_optional_failure(
    a: Option<PipelineFailureRecord>,
    b: Option<PipelineFailureRecord>,
) -> bool {
    match (a, b) {
        (Some(x), Some(y)) => same_failure(x, y),
        (None, None) => true,
        _ => false,
    }
}

fn copy_text(s: &Option<String>) -> (r: Option<String>)
    ensures
        r == *s,
{
    match s {
        Some(t) => Some(t.clone()),
        None => None,
    }
}

impl PipelineFailureRecord {
    /// A copy holding the same failure.
    pub fn duplicate(&self) -> (r: Self)
        ensures
            same_failure(r, *self),
    {
        PipelineFailureRecord {
            meeting_id: self.meeting_id.duplicate(),
            failed_stage: self.failed_stage,
            error_code: self.error_code.clone(),
            error_message: self.error_message.clone(),
            error_details: copy_text(&self.error_details),
            failed_at_ms: self.failed_at_ms,
        }
    }
}

fn copy_failure(f: &Option<PipelineFailureRecord>) -> (r: Option<PipelineFailureRecord>)
    ensures
        same_optional_failure(r, *f),
{
    match f {
        Some(x) => Some(x.duplicate()),
        None => None,
    }
}

/// A stored meeting with what the history list shows of it.
#[derive(Debug)]
pub struct MeetingHistoryRecord {
    pub id: MeetingId,
    pub title: Option<String>,
    pub started_at_ms: u64,
    pub stopped_at_ms: Option<u64>,
    pub updated_at_ms: u64,
    pub duration_ms: Option<u64>,
    pub audio_file_path: Option<String>,
    pub transcript_segment_count: u32,
    pub report_id: Option<ReportId>,
    pub overall_score: Option<Score>,
    pub report_generated_at_ms: Option<u64>,
    pub pipeline_failure: Option<PipelineFailureRecord>,
}

/// One meeting in the history list.
#[derive(Debug)]
pub struct MeetingHistoryItem {
    pub meeting_id: MeetingId,
    pub title: Option<String>,
    pub started_at_ms: u64,
    pub stopped_at_ms: Option<u64>,
    pub updated_at_ms: u64,
    pub duration_ms: Option<u64>,
    pub audio_file_path: Option<String>,
    pub status: MeetingHistoryStatus,
    pub transcript_segment_count: u32,
    pub latest_report_id: Option<ReportId>,
    pub latest_report_score: Option<Score>,
    pub latest_report_generated_at_ms: Option<u64>,
    pub pipeline_failure: Option<PipelineFailureRecord>,
}

/// A page of the history list, and where the next page starts, if any.
#[derive(Debug)]
pub struct MeetingHistoryPage {
    pub items: Vec<MeetingHistoryItem>,
    pub next_offset: Option<u32>,
}

/// One meeting in full: its list item, the first part of its transcript,
/// its notes, and its audio files.
#[derive(Debug)]
pub struct MeetingHistoryDetail {
    pub meeting: MeetingHistoryItem,
    pub transcript_segments: Vec<TranscriptSegment>,
    pub transcript_truncated: bool,
    pub summary: Option<MeetingSummary>,
    pub summary_generated_at_ms: Option<u64>,
    pub user_notes: Option<String>,
    pub audio_file_path: Option<String>,
    pub system_audio_file_path: Option<String>,
    pub pipeline_failure: Option<PipelineFailureRecord>,
}

/// A history item's duration: the recorded one, else the time from start to
/// stop (zero if the stop is before the start), else none.
pub open spec fn item_duration(duration_ms: Option<u64>, started_at_ms: u64, stopped_at_ms: Option<u64>) -> Option<u64> {
    match duration_ms {
        Some(d) => Some(d),
        None => match stopped_at_ms {
            Some(s) => Some(
                if s >= started_at_ms {
                    (s - started_at_ms) as u64
                } else {
                    0u64
                },
            ),
            None => None,
        },
    }
}

/// The history item of a stored meeting: its fields as stored, the
/// duration as [`item_duration`] says, and the status as
/// [`history_status`] says of its stop, transcript, report and failure.
pub fn history_record_to_item(record: MeetingHistoryRecord) -> (item: MeetingHistoryItem)
    ensures
        item.meeting_id == record.id,
        item.title == record.title,
        item.started_at_ms == record.started_at_ms,
        item.stopped_at_ms == record.stopped_at_ms,
        item.updated_at_ms == record.updated_at_ms,
        item.duration_ms == item_duration(
            record.duration_ms,
            record.started_at_ms,
            record.stopped_at_ms,
        ),
        item.audio_file_path == record.audio_file_path,
        item.status == history_status(
            record.stopped_at_ms,
            record.transcript_segment_count as nat,
            record.report_id is Some,
            record.pipeline_failure is Some,
        ),
        item.transcript_segment_count == record.transcript_segment_count,
        item.latest_report_id == record.report_id,
        item.latest_report_score == record.overall_score,
        item.latest_report_generated_at_ms == record.report_generated_at_ms,
        item.pipeline_failure == record.pipeline_failure,
{
    let duration_ms = history_duration_ms(
        record.duration_ms,
        record.started_at_ms,
        record.stopped_at_ms,
    );
    let status = meeting_history_status(
        record.stopped_at_ms,
        record.transcript_segment_count as usize,
        record.report_id.is_some(),
        record.pipeline_failure.is_some(),
    );
    MeetingHistoryItem {
        meeting_id: record.id,
        title: record.title,
        started_at_ms: record.started_at_ms,
        stopped_at_ms: record.stopped_at_ms,
        updated_at_ms: record.updated_at_ms,
        duration_ms,
        audio_file_path: record.audio_file_path,
        status,
        transcript_segment_count: record.transcript_segment_count,
        latest_report_id: record.report_id,
        latest_report_score: record.overall_score,
        latest_report_generated_at_ms: record.report_generated_at_ms,
        pipeline_failure: record.pipeline_failure,
    }
}

/// A meeting's saved audio, as the detail view reads it.
#[derive(Debug)]
pub struct StoredAudio {
    pub duration_ms: Option<u64>,
    pub file_path: String,
    pub system_audio_file_path: Option<String>,
}

/// The detail view of one meeting, from what is stored of it: its item
/// (no report is shown, the duration from the saved audio or the stop
/// time, the status from its stop, transcript count and failure), the
/// transcript rows fetched (one more than the limit, to tell whether it is
/// cut off) kept to the limit, the decoded notes, and the audio paths.
pub fn meeting_history_detail(
    meeting_id: MeetingId,
    title: Option<String>,
    started_at_ms: u64,
    stopped_at_ms: Option<u64>,
    updated_at_ms: u64,
    audio: Option<StoredAudio>,
    fetched_segments: Vec<TranscriptSegment>,
    transcript_segment_count: u32,
    pipeline_failure: Option<PipelineFailureRecord>,
    summary: Option<MeetingSummary>,
    summary_generated_at_ms: Option<u64>,
    user_notes: Option<String>,
) -> (d: MeetingHistoryDetail)
    ensures
        d.meeting.meeting_id == meeting_id,
        d.meeting.title == title,
        d.meeting.started_at_ms == started_at_ms,
        d.meeting.stopped_at_ms == stopped_at_ms,
        d.meeting.updated_at_ms == updated_at_ms,
        d.meeting.duration_ms == item_duration(
            match audio {
                Some(a) => a.duration_ms,
                None => None,
            },
            started_at_ms,
            stopped_at_ms,
        ),
        d.meeting.audio_file_path == match audio {
            Some(a) => Some(a.file_path),
            None => None::<String>,
        },
        d.meeting.status == history_status(
            stopped_at_ms,
            transcript_segment_count as nat,
            false,
            pipeline_failure is Some,
        ),
        d.meeting.transcript_segment_count == transcript_segment_count,
        d.meeting.latest_report_id is None,
        d.meeting.latest_report_score is None,
        d.meeting.latest_report_generated_at_ms is None,
        same_optional_failure(d.meeting.pipeline_failure, pipeline_failure),
        d.transcript_truncated == (fetched_segments@.len() > HISTORY_DETAIL_TRANSCRIPT_LIMIT),
        d.transcript_segments@ == if fetched_segments@.len() > HISTORY_DETAIL_TRANSCRIPT_LIMIT {
            fetched_segments@.subrange(0, HISTORY_DETAIL_TRANSCRIPT_LIMIT as int)
        } else {
            fetched_segments@
        },
        d.summary == summary,
        d.summary_generated_at_ms == summary_generated_at_ms,
        d.user_notes == user_notes,
        d.audio_file_path == d.meeting.audio_file_path,
        d.system_audio_file_path == match audio {
            Some(a) => a.system_audio_file_path,
            None => None::<String>,
        },
        d.pipeline_failure == pipeline_failure,
{
    let (stored_duration, audio_file_path, system_audio_file_path) = match audio {
        Some(a) => (a.duration_ms, Some(a.file_path), a.system_audio_file_path),
        None => (None, None, None),
    };
    let duration_ms = history_duration_ms(stored_duration, started_at_ms, stopped_at_ms);
    let status = meeting_history_status(
        stopped_at_ms,
        transcript_segment_count as usize,
        false,
        pipeline_failure.is_some(),
    );
    let truncated = fetched_segments.len() > HISTORY_DETAIL_TRANSCRIPT_LIMIT as usize;
    let mut transcript_segments = fetched_segments;
    transcript_segments.truncate(HISTORY_DETAIL_TRANSCRIPT_LIMIT as usize);
    let item = MeetingHistoryItem {
        meeting_id,
        title,
        started_at_ms,
        stopped_at_ms,
        updated_at_ms,
        duration_ms,
        audio_file_path: copy_text(&audio_file_path),
        status,
        transcript_segment_count,
        latest_report_id: None,
        latest_report_score: None,
        latest_report_generated_at_ms: None,
        pipeline_failure: copy_failure(&pipeline_failure),
    };
    MeetingHistoryDetail {
        meeting: item,
        transcript_segments,
        transcript_truncated: truncated,
        summary,
        summary_generated_at_ms,
        user_notes,
        audio_file_path,
        system_audio_file_path,
        pipeline_failure,
    }
}

} // verus!
