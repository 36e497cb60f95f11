use scribe::audio::aec::EchoCancellationBackend;
use scribe::domain::{AppError, MeetingId, SummarizerProvider};
use scribe::pipeline::{
    detected_meeting_id, ensure_transcript_is_empty, meeting_speech_metrics,
    path_after_echo_cancellation, select_summarizer_model, hotkey_shortcut_for,
    select_transcription_audio_path, shortcut_to_unregister, should_polish_dictation,
    text_after_polish, transcribe_audio_with_retry, transcribe_meeting_tracks,
    transcript_segment_count,
    transcript_segment_id, transcript_truncated, unsupported_hotkey, HotkeyKey,
};
use scribe::transcription::{
    merge_dual_track_outputs, Transcriber, TranscriptSegment, TranscriptionOutput,
    OTHERS_SPEAKER_LABEL, USER_SPEAKER_LABEL,
};
use std::cell::Cell;

struct StubEchoCancellation {
    calls: Cell<u8>,
    result: Result<String, AppError>,
}

impl EchoCancellationBackend for StubEchoCancellation {
    fn process(&self, _microphone_wav_path: &str, _reference_wav_path: &str) -> Result<String, AppError> {
        self.calls.set(self.calls.get() + 1);
        self.result.clone()
    }
}

fn mic(meeting_id: &str) -> String {
    format!("/tmp/scribe/{meeting_id}.wav")
}

fn system(meeting_id: &str) -> Option<String> {
    Some(format!("/tmp/scribe/{meeting_id}.system.wav"))
}

#[test]
fn select_transcription_audio_path_uses_aec_output_when_enabled() {
    let echo_cancellation = StubEchoCancellation {
        calls: Cell::new(0),
        result: Ok("/tmp/scribe/meeting-aec-enabled.aec.wav".to_string()),
    };

    let selected_path = select_transcription_audio_path(
        true,
        &mic("meeting-aec-enabled"),
        &system("meeting-aec-enabled"),
        &echo_cancellation,
    );

    assert_eq!(selected_path, "/tmp/scribe/meeting-aec-enabled.aec.wav");
}

#[test]
fn select_transcription_audio_path_falls_back_to_raw_mic_when_aec_fails() {
    let echo_cancellation = StubEchoCancellation {
        calls: Cell::new(0),
        result: Err(AppError {
            code: "aec_failed".to_string(),
            message: "AEC failed.".to_string(),
            details: None,
        }),
    };

    let selected_path = select_transcription_audio_path(
        true,
        &mic("meeting-aec-fallback"),
        &system("meeting-aec-fallback"),
        &echo_cancellation,
    );

    assert_eq!(selected_path, mic("meeting-aec-fallback"));
}

#[test]
fn select_transcription_audio_path_uses_raw_mic_when_aec_disabled() {
    let echo_cancellation = StubEchoCancellation {
        calls: Cell::new(0),
        result: Ok("/tmp/scribe/meeting-aec-disabled.aec.wav".to_string()),
    };

    let selected_path = select_transcription_audio_path(
        false,
        &mic("meeting-aec-disabled"),
        &system("meeting-aec-disabled"),
        &echo_cancellation,
    );

    assert_eq!(selected_path, mic("meeting-aec-disabled"));
    assert_eq!(echo_cancellation.calls.get(), 0);
}

#[test]
fn select_transcription_audio_path_attempts_aec_for_m4a_system_audio() {
    let echo_cancellation = StubEchoCancellation {
        calls: Cell::new(0),
        result: Ok("/tmp/scribe/meeting-aec-m4a.aec.wav".to_string()),
    };

    let selected_path = select_transcription_audio_path(
        true,
        &mic("meeting-aec-m4a"),
        &Some("/tmp/scribe/meeting-aec-m4a.system.m4a".to_string()),
        &echo_cancellation,
    );

    assert_eq!(selected_path, "/tmp/scribe/meeting-aec-m4a.aec.wav");
    assert_eq!(echo_cancellation.calls.get(), 1);
}

#[test]
fn hotkey_shortcut_mapping_accepts_known_tokens_only() {
    assert!(hotkey_shortcut_for("cmd+shift+d").is_some());
    assert!(hotkey_shortcut_for("ctrl+option+d").is_some());
    assert!(hotkey_shortcut_for("cmd+shift+space").is_some());
    assert!(hotkey_shortcut_for("ctrl+option+p").is_some());
    // Unknown / unsafe tokens are rejected so the update command can validate.
    assert!(hotkey_shortcut_for("cmd+space").is_none());
    assert!(hotkey_shortcut_for("f5").is_none());
    assert!(hotkey_shortcut_for("").is_none());
}

#[test]
fn hotkey_registration_rules() {
    let shortcut = hotkey_shortcut_for("ctrl+option+p").expect("known");
    assert!(shortcut.control && shortcut.option && !shortcut.command);
    assert_eq!(shortcut.key, HotkeyKey::P);
    assert!(shortcut_to_unregister(Some("cmd+shift+d"), "cmd+shift+d").is_none());
    assert!(shortcut_to_unregister(Some("cmd+shift+d"), "ctrl+option+d").is_some());
    assert!(shortcut_to_unregister(None, "ctrl+option+d").is_none());
    let error = unsupported_hotkey("dictation_hotkey", "f5");
    assert_eq!(error.code, "dictation_hotkey_unsupported");
    assert_eq!(error.message, "Unsupported hotkey: f5");
}

struct FlakyTranscriber {
    calls: Cell<u8>,
    fail_times: u8,
}

impl Transcriber for FlakyTranscriber {
    fn transcribe(&self, _audio_path: &str) -> Result<TranscriptionOutput, AppError> {
        let call = self.calls.get() + 1;
        self.calls.set(call);
        if call <= self.fail_times {
            return Err(AppError {
                code: format!("attempt_{call}_failed"),
                message: format!("attempt {call} failed"),
                details: None,
            });
        }
        Ok(TranscriptionOutput {
            segments: vec![TranscriptSegment {
                sequence_number: 1,
                speaker_label: None,
                text: "hello".to_string(),
                started_at_ms: 0,
                ended_at_ms: 10,
            }],
        })
    }
}

#[test]
fn transcription_is_retried_once() {
    let once = FlakyTranscriber { calls: Cell::new(0), fail_times: 1 };
    assert_eq!(transcribe_audio_with_retry(&once, "/a.wav").expect("retry works").segments.len(), 1);
    assert_eq!(once.calls.get(), 2);
    let always = FlakyTranscriber { calls: Cell::new(0), fail_times: 9 };
    let error = transcribe_audio_with_retry(&always, "/a.wav").expect_err("both fail");
    assert_eq!(error.code, "attempt_2_failed");
    assert_eq!(error.message, "attempt 2 failed");
    assert_eq!(
        error.details.as_deref(),
        Some("first_attempt_code=attempt_1_failed, second_attempt_code=attempt_2_failed")
    );
    assert_eq!(always.calls.get(), 2);
}

#[test]
fn transcript_rows_and_notes() {
    let meeting = MeetingId::new("meeting-7");
    assert_eq!(transcript_segment_id(&meeting, 12).as_str(), "meeting-7-segment-12");
    assert_eq!(transcript_segment_count(3).expect("fits"), 3);
    assert!(ensure_transcript_is_empty(&meeting, 0).is_ok());
    let error = ensure_transcript_is_empty(&meeting, 4).expect_err("already transcribed");
    assert_eq!(error.code, "transcript_already_exists");
    assert_eq!(error.details.as_deref(), Some("meeting_id=meeting-7, segment_count=4"));
    assert!(transcript_truncated(5_001));
    assert!(!transcript_truncated(5_000));
    assert_eq!(detected_meeting_id(1_700_000), "meeting-1700000");
}

#[test]
fn dictation_text_after_polish() {
    assert!(should_polish_dictation(true, "hello"));
    assert!(!should_polish_dictation(true, " \n"));
    assert!(!should_polish_dictation(false, "hello"));
    assert_eq!(text_after_polish("raw".to_string(), Ok("Polished.".to_string())), "Polished.");
    assert_eq!(text_after_polish("raw".to_string(), Ok("  ".to_string())), "raw");
    let error = AppError { code: "x".to_string(), message: "y".to_string(), details: None };
    assert_eq!(text_after_polish("raw".to_string(), Err(error)), "raw");
}

struct TrackAwareTranscriber {
    system_result: Result<TranscriptionOutput, AppError>,
}

impl Transcriber for TrackAwareTranscriber {
    fn transcribe(&self, audio_path: &str) -> Result<TranscriptionOutput, AppError> {
        if audio_path.contains(".system.") {
            return self.system_result.clone();
        }
        Ok(TranscriptionOutput {
            segments: vec![TranscriptSegment {
                sequence_number: 1,
                speaker_label: None,
                text: "Mic point.".to_string(),
                started_at_ms: 0,
                ended_at_ms: 1_000,
            }],
        })
    }
}

fn unused_echo_cancellation() -> StubEchoCancellation {
    StubEchoCancellation {
        calls: Cell::new(0),
        result: Ok("/tmp/scribe/unused.aec.wav".to_string()),
    }
}

#[test]
fn transcribe_meeting_tracks_merges_system_track_with_speaker_labels() {
    let transcriber = TrackAwareTranscriber {
        system_result: Ok(TranscriptionOutput {
            segments: vec![TranscriptSegment {
                sequence_number: 1,
                speaker_label: None,
                text: "Remote point.".to_string(),
                started_at_ms: 500,
                ended_at_ms: 900,
            }],
        }),
    };

    let output = transcribe_meeting_tracks(
        false,
        &mic("meeting-dual-track"),
        &system("meeting-dual-track"),
        &transcriber,
        &unused_echo_cancellation(),
    )
    .expect("dual-track transcription succeeds");

    assert_eq!(
        output
            .segments
            .iter()
            .map(|segment| {
                (
                    segment.sequence_number,
                    segment.speaker_label.as_deref(),
                    segment.text.as_str(),
                )
            })
            .collect::<Vec<_>>(),
        vec![
            (1, Some(USER_SPEAKER_LABEL), "Mic point."),
            (2, Some(OTHERS_SPEAKER_LABEL), "Remote point."),
        ]
    );
}

#[test]
fn transcribe_meeting_tracks_keeps_mic_transcript_when_system_track_fails() {
    let transcriber = TrackAwareTranscriber {
        system_result: Err(AppError {
            code: "transcription_audio_conversion_failed".to_string(),
            message: "ffmpeg could not convert the audio file for transcription.".to_string(),
            details: None,
        }),
    };

    let output = transcribe_meeting_tracks(
        false,
        &mic("meeting-dual-track-fallback"),
        &system("meeting-dual-track-fallback"),
        &transcriber,
        &unused_echo_cancellation(),
    )
    .expect("microphone transcript survives a system-track failure");

    assert_eq!(output.segments.len(), 1);
    assert_eq!(output.segments[0].text, "Mic point.");
    assert_eq!(output.segments[0].speaker_label, None);
}

#[test]
fn transcribe_meeting_tracks_stays_mic_only_without_system_audio() {
    let transcriber = TrackAwareTranscriber {
        system_result: Err(AppError {
            code: "system_track_must_not_be_transcribed".to_string(),
            message: "The system track must not be requested without a recording.".to_string(),
            details: None,
        }),
    };

    let output = transcribe_meeting_tracks(
        false,
        &mic("meeting-mic-only"),
        &None,
        &transcriber,
        &unused_echo_cancellation(),
    )
    .expect("microphone-only transcription succeeds");

    assert_eq!(output.segments.len(), 1);
    assert_eq!(output.segments[0].speaker_label, None);
}

fn segment(text: &str, started_at_ms: u64) -> TranscriptSegment {
    TranscriptSegment {
        sequence_number: 9,
        speaker_label: None,
        text: text.to_string(),
        started_at_ms,
        ended_at_ms: started_at_ms + 100,
    }
}

#[test]
fn merged_tracks_interleave_by_start_time_with_the_microphone_first_on_ties() {
    let microphone = TranscriptionOutput {
        segments: vec![segment("a", 0), segment("b", 300), segment("c", 700)],
    };
    let system = TranscriptionOutput {
        segments: vec![segment("x", 200), segment("y", 300), segment("z", 900)],
    };

    let merged = merge_dual_track_outputs(microphone, system).expect("merge succeeds");

    let summary: Vec<(u32, &str, &str, u64)> = merged
        .segments
        .iter()
        .map(|s| {
            (
                s.sequence_number,
                s.speaker_label.as_deref().unwrap_or(""),
                s.text.as_str(),
                s.started_at_ms,
            )
        })
        .collect();
    assert_eq!(
        summary,
        vec![
            (1, "Me", "a", 0),
            (2, "Others", "x", 200),
            (3, "Me", "b", 300),
            (4, "Others", "y", 300),
            (5, "Me", "c", 700),
            (6, "Others", "z", 900),
        ]
    );
    assert_eq!(merged.segments[5].ended_at_ms, 1_000);
}

#[test]
fn merging_with_an_empty_track_relabels_and_renumbers_the_other() {
    let microphone = TranscriptionOutput { segments: Vec::new() };
    let system = TranscriptionOutput { segments: vec![segment("only", 40)] };

    let merged = merge_dual_track_outputs(microphone, system).expect("merge succeeds");

    assert_eq!(merged.segments.len(), 1);
    assert_eq!(merged.segments[0].sequence_number, 1);
    assert_eq!(merged.segments[0].speaker_label.as_deref(), Some("Others"));
}

#[test]
fn summarizer_model_prefers_the_request_then_settings_then_the_lm_studio_default() {
    assert_eq!(
        select_summarizer_model(
            Some("  qwen3  ".to_string()),
            Some("configured".to_string()),
            SummarizerProvider::Ollama,
            "default-model",
        )
        .expect("explicit model"),
        "qwen3"
    );
    assert_eq!(
        select_summarizer_model(
            Some("   ".to_string()),
            Some("configured".to_string()),
            SummarizerProvider::Custom,
            "default-model",
        )
        .expect("configured model"),
        "configured"
    );
    assert_eq!(
        select_summarizer_model(None, None, SummarizerProvider::LmStudio, "default-model")
            .expect("LM Studio default"),
        "default-model"
    );
    let error = select_summarizer_model(None, None, SummarizerProvider::Ollama, "default-model")
        .expect_err("no model to use");
    assert_eq!(error.code, "summarizer_model_not_configured");
    assert_eq!(error.message, "Choose a local model in Settings before generating notes.");
    assert_eq!(error.details, None);
}

fn labelled(label: Option<&str>, text: &str, started_at_ms: u64, ended_at_ms: u64) -> TranscriptSegment {
    TranscriptSegment {
        sequence_number: 1,
        speaker_label: label.map(str::to_string),
        text: text.to_string(),
        started_at_ms,
        ended_at_ms,
    }
}

#[test]
fn meeting_metrics_count_only_the_users_own_speech() {
    let segments = vec![
        labelled(Some("Me"), "um hello there", 0, 1_000),
        labelled(Some("Others"), "uh well maybe I think so", 0, 5_000),
        labelled(None, "like ok", 2_000, 3_000),
    ];

    let metrics = meeting_speech_metrics(&segments);

    assert_eq!(metrics.word_count, 5);
    assert_eq!(metrics.filler_word_count, 2);
    assert_eq!(metrics.hedging_phrase_count, 0);
    assert_eq!(metrics.speaking_duration_ms, 2_000);
    assert_eq!(metrics.longest_monologue_ms, 1_000);
}

#[test]
fn the_cleaned_file_is_transcribed_unless_cancellation_failed() {
    let raw = "/tmp/scribe/m.wav".to_string();
    assert_eq!(
        path_after_echo_cancellation(&raw, Ok("/tmp/scribe/m.aec.wav".to_string())),
        "/tmp/scribe/m.aec.wav"
    );
    let failure = AppError { code: "aec_failed".to_string(), message: "no".to_string(), details: None };
    assert_eq!(path_after_echo_cancellation(&raw, Err(failure)), raw);
}
