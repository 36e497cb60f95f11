use scribe::analysis::MeetingSummary;
use scribe::commands::MeetingHistoryStatus;
use scribe::domain::{MeetingId, ProcessingStage, ReportId, Score};
use scribe::history::{
    history_record_to_item, meeting_history_detail, MeetingHistoryRecord, PipelineFailureRecord,
    StoredAudio,
};
use scribe::transcription::TranscriptSegment;

fn failure(meeting: &str) -> PipelineFailureRecord {
    PipelineFailureRecord {
        meeting_id: MeetingId::new(meeting),
        failed_stage: ProcessingStage::Transcribing,
        error_code: "transcriber_failed".to_string(),
        error_message: "Transcriber failed.".to_string(),
        error_details: Some("exit_status=1".to_string()),
        failed_at_ms: 9_000,
    }
}

fn segment(n: u32) -> TranscriptSegment {
    TranscriptSegment {
        sequence_number: n,
        speaker_label: None,
        text: format!("segment {n}"),
        started_at_ms: u64::from(n) * 10,
        ended_at_ms: u64::from(n) * 10 + 5,
    }
}

#[test]
fn a_history_item_reports_the_stored_meeting_with_its_status_and_duration() {
    let item = history_record_to_item(MeetingHistoryRecord {
        id: MeetingId::new("meeting-1"),
        title: Some("Planning".to_string()),
        started_at_ms: 1_000,
        stopped_at_ms: Some(4_000),
        updated_at_ms: 5_000,
        duration_ms: None,
        audio_file_path: Some("/tmp/meeting-1.wav".to_string()),
        transcript_segment_count: 3,
        report_id: Some(ReportId::new("report-1")),
        overall_score: Some(Score::new(80).expect("score")),
        report_generated_at_ms: Some(6_000),
        pipeline_failure: None,
    });

    assert_eq!(item.meeting_id.as_str(), "meeting-1");
    assert_eq!(item.duration_ms, Some(3_000));
    assert_eq!(item.status, MeetingHistoryStatus::Analyzed);
    assert_eq!(item.latest_report_score.map(|s| s.value()), Some(80));
    assert_eq!(item.latest_report_generated_at_ms, Some(6_000));
}

#[test]
fn a_failed_step_marks_the_item_failed_and_a_saved_duration_wins() {
    let item = history_record_to_item(MeetingHistoryRecord {
        id: MeetingId::new("meeting-2"),
        title: None,
        started_at_ms: 1_000,
        stopped_at_ms: Some(4_000),
        updated_at_ms: 5_000,
        duration_ms: Some(2_500),
        audio_file_path: None,
        transcript_segment_count: 0,
        report_id: None,
        overall_score: None,
        report_generated_at_ms: None,
        pipeline_failure: Some(failure("meeting-2")),
    });

    assert_eq!(item.duration_ms, Some(2_500));
    assert_eq!(item.status, MeetingHistoryStatus::FailedPartial);
    assert_eq!(item.pipeline_failure.map(|f| f.error_code), Some("transcriber_failed".to_string()));
}

#[test]
fn the_detail_view_keeps_the_transcript_to_the_limit_and_says_when_it_is_cut() {
    let fetched: Vec<TranscriptSegment> = (1..=5_001).map(segment).collect();
    let detail = meeting_history_detail(
        MeetingId::new("meeting-3"),
        None,
        1_000,
        None,
        1_500,
        Some(StoredAudio {
            duration_ms: Some(700),
            file_path: "/tmp/meeting-3.wav".to_string(),
            system_audio_file_path: Some("/tmp/meeting-3.system.m4a".to_string()),
        }),
        fetched,
        5_001,
        Some(failure("meeting-3")),
        Some(MeetingSummary {
            executive_summary: "Short.".to_string(),
            key_topics: Vec::new(),
            action_items: Vec::new(),
            decisions: Vec::new(),
            open_questions: Vec::new(),
            speaking_improvements: Vec::new(),
            meeting_title: None,
        }),
        Some(2_000),
        Some("my notes".to_string()),
    );

    assert!(detail.transcript_truncated);
    assert_eq!(detail.transcript_segments.len(), 5_000);
    assert_eq!(detail.transcript_segments[4_999].sequence_number, 5_000);
    assert_eq!(detail.meeting.duration_ms, Some(700));
    assert_eq!(detail.meeting.status, MeetingHistoryStatus::FailedPartial);
    assert_eq!(detail.meeting.audio_file_path.as_deref(), Some("/tmp/meeting-3.wav"));
    assert_eq!(detail.audio_file_path.as_deref(), Some("/tmp/meeting-3.wav"));
    assert_eq!(detail.system_audio_file_path.as_deref(), Some("/tmp/meeting-3.system.m4a"));
    assert_eq!(detail.meeting.pipeline_failure.map(|f| f.failed_at_ms), Some(9_000));
    assert_eq!(detail.summary_generated_at_ms, Some(2_000));
    assert_eq!(detail.user_notes.as_deref(), Some("my notes"));
    assert!(detail.meeting.latest_report_id.is_none());
}

#[test]
fn a_meeting_still_recording_without_audio_has_no_duration() {
    let detail = meeting_history_detail(
        MeetingId::new("meeting-4"),
        None,
        1_000,
        None,
        1_000,
        None,
        vec![segment(1)],
        1,
        None,
        None,
        None,
        None,
    );

    assert!(!detail.transcript_truncated);
    assert_eq!(detail.transcript_segments.len(), 1);
    assert_eq!(detail.meeting.duration_ms, None);
    assert_eq!(detail.meeting.status, MeetingHistoryStatus::Recording);
    assert_eq!(detail.audio_file_path, None);
}
