use scribe::domain::AppError;
use scribe::nudges::{
    LiveNudgeEvent, LiveNudgePipeline, NudgeCategory, NudgeEventSink, NudgeTranscriptEventSink,
};
use scribe::transcription::{
    TranscriptEventSink, TranscriptSegment, TranscriptStreamEvent, TranscriptStreamSummary,
};

struct AcceptingTranscriptSink;

impl TranscriptEventSink for AcceptingTranscriptSink {
    fn emit_segment(&mut self, _event: TranscriptStreamEvent) -> Result<(), AppError> {
        Ok(())
    }

    fn complete(&mut self, _summary: TranscriptStreamSummary) -> Result<(), AppError> {
        Ok(())
    }
}

struct FailingNudgeSink;

impl NudgeEventSink for FailingNudgeSink {
    fn emit_nudge(&mut self, _event: LiveNudgeEvent) -> Result<(), AppError> {
        Err(AppError {
            code: "test_nudge_emit_failed".to_string(),
            message: "nudge sink failed".to_string(),
            details: None,
        })
    }
}

fn stream_event(
    sequence_number: u32,
    text: &str,
    started_at_ms: u64,
    ended_at_ms: u64,
) -> TranscriptStreamEvent {
    TranscriptStreamEvent {
        meeting_id: "meeting-nudges".to_string(),
        segment: TranscriptSegment {
            sequence_number,
            speaker_label: None,
            text: text.to_string(),
            started_at_ms,
            ended_at_ms,
        },
        is_final: true,
    }
}

#[test]
fn emits_filler_and_hedging_nudges_from_segment_text() {
    let mut pipeline = LiveNudgePipeline::new_with_limits(30_000, 0, 120);

    let nudges = pipeline.process_segment(&stream_event(
        1,
        "Um, I think we should pause here.",
        0,
        2_000,
    ));

    assert_eq!(nudges.len(), 2);
    assert_eq!(nudges[0].category, NudgeCategory::FillerWords);
    assert_eq!(nudges[1].category, NudgeCategory::Hedging);
}

#[test]
fn emits_pace_nudge_after_enough_words() {
    let mut pipeline = LiveNudgePipeline::new_with_limits(30_000, 0, 120);
    let text = "one two three four five six seven eight nine ten eleven twelve thirteen fourteen fifteen sixteen seventeen eighteen nineteen twenty one";

    let nudges = pipeline.process_segment(&stream_event(1, text, 0, 5_000));

    assert!(nudges
        .iter()
        .any(|nudge| nudge.category == NudgeCategory::Pace));
}

#[test]
fn emits_talk_time_nudge_for_long_monologue() {
    let mut pipeline = LiveNudgePipeline::new_with_limits(30_000, 0, 120);

    let nudges = pipeline.process_segment(&stream_event(
        1,
        "This is a long uninterrupted explanation.",
        0,
        46_000,
    ));

    assert!(nudges
        .iter()
        .any(|nudge| nudge.category == NudgeCategory::TalkTime));
}

#[test]
fn throttles_duplicate_category_nudges() {
    let mut pipeline = LiveNudgePipeline::new_with_limits(30_000, 0, 120);

    let first = pipeline.process_segment(&stream_event(1, "um first", 0, 1_000));
    let second = pipeline.process_segment(&stream_event(2, "uh second", 2_000, 3_000));
    let third = pipeline.process_segment(&stream_event(3, "like third", 32_000, 33_000));

    assert_eq!(first.len(), 1);
    assert!(second.is_empty());
    assert_eq!(third.len(), 1);
}

#[test]
fn bounds_recent_segment_history() {
    let mut pipeline = LiveNudgePipeline::new_with_limits(30_000, 0, 2);

    pipeline.process_segment(&stream_event(1, "one two three four five", 0, 1_000));
    pipeline.process_segment(&stream_event(2, "six seven eight nine ten", 1_000, 2_000));
    pipeline.process_segment(&stream_event(
        3,
        "eleven twelve thirteen fourteen fifteen",
        2_000,
        3_000,
    ));

    assert_eq!(pipeline.recent_segments().len(), 2);
    assert_eq!(pipeline.recent_segments()[0].text, "six seven eight nine ten");
}

#[test]
fn throttles_wall_clock_bursts_across_categories() {
    let mut pipeline = LiveNudgePipeline::new_with_limits(30_000, 60_000, 120);

    let nudges = pipeline.process_segment(&stream_event(
        1,
        "Um, I think we should pause here.",
        0,
        2_000,
    ));

    assert_eq!(nudges.len(), 1);
    assert_eq!(nudges[0].category, NudgeCategory::FillerWords);
}

#[test]
fn nudge_sink_failure_does_not_fail_transcript_segment_emit() {
    let mut sink = NudgeTranscriptEventSink::new(
        AcceptingTranscriptSink,
        FailingNudgeSink,
        LiveNudgePipeline::new_with_limits(30_000, 0, 120),
    );

    let result = sink.emit_segment(stream_event(1, "um this should still succeed", 0, 1_000));

    assert!(result.is_ok());
}

#[test]
fn nudge_ids_and_text_follow_the_segment() {
    let mut pipeline = LiveNudgePipeline::new_with_limits(30_000, 0, 120);
    let nudges = pipeline.process_segment_at(&stream_event(7, "uh yes", 0, 1_500), 0);
    assert_eq!(nudges.len(), 1);
    assert_eq!(nudges[0].id, "meeting-nudges-nudge-FillerWords-7");
    assert_eq!(nudges[0].meeting_id, "meeting-nudges");
    assert_eq!(nudges[0].message, "Filler words are clustering.");
    assert_eq!(nudges[0].evidence, "uh yes");
    assert_eq!(nudges[0].occurred_at_ms, 1_500);
}

#[test]
fn the_wall_clock_throttle_lifts_after_its_window() {
    let mut pipeline = LiveNudgePipeline::new_with_limits(30_000, 1_500, 120);
    assert_eq!(pipeline.process_segment_at(&stream_event(1, "um", 0, 1_000), 10_000).len(), 1);
    assert!(pipeline.process_segment_at(&stream_event(2, "maybe", 1_000, 2_000), 11_000).is_empty());
    assert_eq!(pipeline.process_segment_at(&stream_event(3, "maybe", 2_000, 3_000), 11_500).len(), 1);
}

#[test]
fn slow_speech_gets_a_slow_pace_nudge() {
    let mut pipeline = LiveNudgePipeline::new_with_limits(30_000, 0, 120);
    let text = "one two three four five six seven eight nine ten eleven twelve thirteen fourteen fifteen sixteen seventeen eighteen nineteen twenty";
    let nudges = pipeline.process_segment_at(&stream_event(1, text, 0, 44_000), 0);
    assert_eq!(nudges.len(), 1);
    assert_eq!(nudges[0].category, NudgeCategory::Pace);
    assert_eq!(nudges[0].message, "Pace is drifting slow.");
}

#[test]
fn remote_speakers_do_not_get_coached() {
    struct CountingSink(u32);
    impl NudgeEventSink for CountingSink {
        fn emit_nudge(&mut self, _event: LiveNudgeEvent) -> Result<(), AppError> {
            self.0 += 1;
            Ok(())
        }
    }
    let mut sink = NudgeTranscriptEventSink::new(
        AcceptingTranscriptSink,
        CountingSink(0),
        LiveNudgePipeline::new_with_limits(30_000, 0, 120),
    );
    let mut event = stream_event(1, "um um", 0, 1_000);
    event.segment.speaker_label = Some(scribe::transcription::OTHERS_SPEAKER_LABEL.to_string());
    assert!(sink.emit_segment(event).is_ok());
    let mut mine = stream_event(2, "um um", 0, 1_000);
    mine.segment.speaker_label = Some(scribe::transcription::USER_SPEAKER_LABEL.to_string());
    assert!(sink.emit_segment(mine).is_ok());
}

#[test]
fn a_refused_segment_is_answered_with_the_transcript_sinks_error() {
    let mut sink = NudgeTranscriptEventSink::new(
        AcceptingTranscriptSink,
        FailingNudgeSink,
        LiveNudgePipeline::new_with_limits(30_000, 0, 120),
    );
    let refusal = AppError {
        code: "transcript_stream_emit_failed".to_string(),
        message: "refused".to_string(),
        details: None,
    };

    let event = stream_event(1, "um um um", 0, 1_000);
    let result = sink.handle_forwarded_segment(Err(refusal.clone()), &event);
    assert_eq!(result, Err(refusal));

    let accepted = sink.handle_forwarded_segment(Ok(()), &event);
    assert_eq!(accepted, Ok(()));
}

#[test]
fn a_sink_that_never_drops_counts_no_dropped_events() {
    let sink = NudgeTranscriptEventSink::new(
        AcceptingTranscriptSink,
        FailingNudgeSink,
        LiveNudgePipeline::new_with_limits(30_000, 0, 120),
    );
    assert_eq!(AcceptingTranscriptSink.dropped_event_count(), 0);
    assert_eq!(sink.dropped_event_count(), 0);
}
