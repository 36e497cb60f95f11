use scribe::audio::capture::{ActiveCapture, AudioCaptureBackend, CaptureSessionHandle, CaptureSummary};
use scribe::audio::domain::AudioDevice;
use scribe::dictation::capture::{
    clip_text_from, dictation_clip_file_name, dictation_session_id, new_dictation_session_id,
    session_id_after_reading, transcript_to_text,
    DictationRecorder, DictationSequence,
};
use scribe::domain::AppError;
use scribe::transcription::{TranscriptSegment, TranscriptionOutput};

struct StubBackend;

struct StubSession;

impl CaptureSessionHandle for StubSession {
    fn stop(self) -> Result<CaptureSummary, AppError> {
        Ok(CaptureSummary {
            sample_count: 16_000,
            dropped_sample_count: 0,
            stream_error: None,
        })
    }
}

impl AudioCaptureBackend for StubBackend {
    type Session = StubSession;

    fn list_input_devices(&self) -> Result<Vec<AudioDevice>, AppError> {
        Ok(Vec::new())
    }

    fn start_recording(
        &self,
        file_path: String,
        _device_id: Option<String>,
    ) -> Result<ActiveCapture<StubSession>, AppError> {
        Ok(ActiveCapture {
            file_path,
            sample_rate_hz: 16_000,
            started_at_ms: 0,
            handle: StubSession,
        })
    }
}

fn segment(text: &str) -> TranscriptSegment {
    TranscriptSegment {
        sequence_number: 0,
        speaker_label: None,
        text: text.to_string(),
        started_at_ms: 0,
        ended_at_ms: 0,
    }
}

#[test]
fn start_then_finish_returns_the_capture_path_and_start_time() {
    let mut recorder = DictationRecorder::new(StubBackend);
    assert!(!recorder.is_recording());

    recorder
        .start("/tmp/scribe-dictation-test.wav".to_string(), None)
        .expect("start succeeds");
    assert!(recorder.is_recording());

    let (path, started_at_ms) = recorder.finish().expect("finish succeeds");
    assert_eq!(path, "/tmp/scribe-dictation-test.wav");
    assert_eq!(started_at_ms, 0);
    assert!(!recorder.is_recording());
}

#[test]
fn starting_twice_is_rejected() {
    let mut recorder = DictationRecorder::new(StubBackend);
    recorder
        .start("/tmp/a.wav".to_string(), None)
        .expect("first start succeeds");

    let error = recorder
        .start("/tmp/b.wav".to_string(), None)
        .expect_err("second start is rejected");
    assert_eq!(error.code, "dictation_already_recording");
}

#[test]
fn finishing_without_a_capture_is_rejected() {
    let mut recorder = DictationRecorder::<StubBackend>::new(StubBackend);
    let error = recorder.finish().expect_err("finish without start is rejected");
    assert_eq!(error.code, "dictation_not_recording");
}

#[test]
fn transcript_text_joins_and_trims_segments() {
    let output = TranscriptionOutput {
        segments: vec![
            segment("  Hello there  "),
            segment("   "),
            segment("general kinobi"),
        ],
    };
    assert_eq!(transcript_to_text(&output), "Hello there general kinobi");
}

#[test]
fn transcript_text_drops_whisper_non_speech_markers() {
    let output = TranscriptionOutput {
        segments: vec![
            segment("[BLANK_AUDIO]"),
            segment("Send the deck"),
            segment("[ Silence ]"),
            segment("(wind blowing)"),
        ],
    };
    assert_eq!(transcript_to_text(&output), "Send the deck");
}

#[test]
fn transcript_text_is_empty_for_pure_silence() {
    let output = TranscriptionOutput {
        segments: vec![segment("[BLANK_AUDIO]")],
    };
    assert_eq!(transcript_to_text(&output), "");
}

#[test]
fn distinct_session_ids_do_not_collide() {
    let mut sequence = DictationSequence::new();
    let first = new_dictation_session_id(&mut sequence).expect("first id");
    let second = new_dictation_session_id(&mut sequence).expect("second id");
    assert_ne!(first, second);
}

#[test]
fn session_ids_and_clip_names_carry_stamp_and_sequence() {
    assert_eq!(dictation_session_id(1_700, 3), "dictation-session-1700-3");
    assert_eq!(dictation_clip_file_name(1_700, 3), "scribe-dictation-1700-3.wav");
    assert_ne!(dictation_session_id(17, 1), dictation_session_id(1, 71));
}

#[test]
fn a_session_id_carries_the_clock_reading_or_its_error() {
    assert_eq!(session_id_after_reading(4, Ok(1_700)).expect("stamped"), "dictation-session-1700-4");
    let clock = AppError {
        code: "system_time_error".to_string(),
        message: "System clock is before the Unix epoch.".to_string(),
        details: Some("before".to_string()),
    };
    assert_eq!(session_id_after_reading(4, Err(clock.clone())), Err(clock));
}

#[test]
fn each_new_session_id_takes_the_next_number() {
    let mut sequence = DictationSequence::new();
    let first = new_dictation_session_id(&mut sequence).expect("first id");
    assert!(first.starts_with("dictation-session-") && first.ends_with("-0"));
    let second = new_dictation_session_id(&mut sequence).expect("second id");
    assert!(second.ends_with("-1"));
    assert_eq!(sequence.take(), 2);
}

#[test]
fn clip_text_is_the_flattened_transcript_or_the_transcribers_error() {
    let output = TranscriptionOutput {
        segments: vec![
            TranscriptSegment {
                sequence_number: 1,
                speaker_label: None,
                text: " hello ".to_string(),
                started_at_ms: 0,
                ended_at_ms: 10,
            },
            TranscriptSegment {
                sequence_number: 2,
                speaker_label: None,
                text: "[BLANK_AUDIO]".to_string(),
                started_at_ms: 10,
                ended_at_ms: 20,
            },
            TranscriptSegment {
                sequence_number: 3,
                speaker_label: None,
                text: "world".to_string(),
                started_at_ms: 20,
                ended_at_ms: 30,
            },
        ],
    };
    assert_eq!(clip_text_from(Ok(output)).expect("text"), "hello world");
    let failure = AppError { code: "t".to_string(), message: "m".to_string(), details: None };
    assert_eq!(clip_text_from(Err(failure.clone())), Err(failure));
}
