use scribe::domain::{
    AnalyzerProvider, AppError, MeetingId, MeetingLifecycleEvent, MeetingLifecycleState,
    ProcessingStage, ReportId, ResonanceSettings, Score,
};


#[test]
fn recording_can_transition_to_stopping() {
    let state = MeetingLifecycleState::Recording {
        meeting_id: MeetingId::new("meeting-1"),
        started_at_ms: 1_000,
    };

    let next = state
        .transition(MeetingLifecycleEvent::StopRequested {
            stopped_at_ms: 5_000,
        })
        .expect("recording can stop");

    assert_eq!(
        next,
        MeetingLifecycleState::Stopping {
            meeting_id: MeetingId::new("meeting-1"),
            started_at_ms: 1_000,
            stopped_at_ms: 5_000,
        }
    );
}

#[test]
fn idle_rejects_stop_request() {
    let error = MeetingLifecycleState::Idle
        .transition(MeetingLifecycleEvent::StopRequested {
            stopped_at_ms: 5_000,
        })
        .expect_err("idle cannot stop");

    assert_eq!(error.code, "invalid_lifecycle_transition");
}

#[test]
fn recording_rejects_stop_before_start() {
    let error = MeetingLifecycleState::Recording {
        meeting_id: MeetingId::new("meeting-early-stop"),
        started_at_ms: 5_000,
    }
    .transition(MeetingLifecycleEvent::StopRequested {
        stopped_at_ms: 1_000,
    })
    .expect_err("meeting cannot stop before it starts");

    assert_eq!(error.code, "invalid_lifecycle_timestamp");
}

#[test]
fn active_lifecycle_can_fail_into_partial_state() {
    let source_error = AppError {
        code: "audio_write_failed".to_string(),
        message: "Could not save meeting audio.".to_string(),
        details: Some("path=/tmp/meeting.m4a".to_string()),
    };

    let state = MeetingLifecycleState::Transcribing {
        meeting_id: MeetingId::new("meeting-failed"),
        started_at_ms: 1_000,
        stopped_at_ms: 5_000,
        audio_path: "/tmp/meeting.m4a".to_string(),
    }
    .transition(MeetingLifecycleEvent::Failed {
        failed_stage: ProcessingStage::Transcribing,
        error: source_error.clone(),
    })
    .expect("active lifecycle can fail into a partial report");

    assert_eq!(
        state,
        MeetingLifecycleState::FailedPartial {
            meeting_id: Some(MeetingId::new("meeting-failed")),
            failed_stage: ProcessingStage::Transcribing,
            error: source_error,
        }
    );
}

#[test]
fn idle_rejects_failure_without_active_meeting() {
    let error = MeetingLifecycleState::Idle
        .transition(MeetingLifecycleEvent::Failed {
            failed_stage: ProcessingStage::Recording,
            error: AppError {
                code: "recording_failed".to_string(),
                message: "Recording failed without an active meeting.".to_string(),
                details: None,
            },
        })
        .expect_err("idle should not create a failed partial meeting");

    assert_eq!(error.code, "invalid_lifecycle_transition");
}

#[test]
fn terminal_lifecycle_rejects_late_failure() {
    let error = MeetingLifecycleState::Complete {
        meeting_id: MeetingId::new("meeting-complete"),
        started_at_ms: 1_000,
        stopped_at_ms: 5_000,
        audio_path: "/tmp/meeting.m4a".to_string(),
        segment_count: 12,
        report_id: ReportId::new("report-complete"),
    }
    .transition(MeetingLifecycleEvent::Failed {
        failed_stage: ProcessingStage::Analyzing,
        error: AppError {
            code: "late_failure".to_string(),
            message: "Late failure should not overwrite completion.".to_string(),
            details: None,
        },
    })
    .expect_err("complete lifecycle should not become failed partial");

    assert_eq!(error.code, "invalid_lifecycle_transition");
}

#[test]
fn terminal_lifecycle_can_reset_to_idle() {
    let state = MeetingLifecycleState::FailedPartial {
        meeting_id: Some(MeetingId::new("meeting-reset")),
        failed_stage: ProcessingStage::Analyzing,
        error: AppError {
            code: "analysis_failed".to_string(),
            message: "Analyzer failed.".to_string(),
            details: None,
        },
    }
    .transition(MeetingLifecycleEvent::ResetRequested)
    .expect("terminal lifecycle can reset");

    assert_eq!(state, MeetingLifecycleState::Idle);
}

#[test]
fn lifecycle_reaches_complete_through_valid_events() {
    let state = MeetingLifecycleState::Idle
        .transition(MeetingLifecycleEvent::StartRequested {
            meeting_id: MeetingId::new("meeting-2"),
            started_at_ms: 1_000,
        })
        .expect("idle can start")
        .transition(MeetingLifecycleEvent::StopRequested {
            stopped_at_ms: 5_000,
        })
        .expect("recording can stop")
        .transition(MeetingLifecycleEvent::AudioSaved {
            audio_path: "/tmp/meeting-2.m4a".to_string(),
        })
        .expect("stopped meeting can transcribe")
        .transition(MeetingLifecycleEvent::TranscriptionCompleted { segment_count: 12 })
        .expect("transcribed meeting can analyze")
        .transition(MeetingLifecycleEvent::AnalysisCompleted {
            report_id: ReportId::new("report-1"),
        })
        .expect("analyzed meeting can complete");

    assert_eq!(
        state,
        MeetingLifecycleState::Complete {
            meeting_id: MeetingId::new("meeting-2"),
            started_at_ms: 1_000,
            stopped_at_ms: 5_000,
            audio_path: "/tmp/meeting-2.m4a".to_string(),
            segment_count: 12,
            report_id: ReportId::new("report-1"),
        }
    );
}

#[test]
fn default_settings_are_local_first_and_private() {
    let settings = ResonanceSettings::default();

    assert_eq!(settings.raw_audio_retention_days, 7);
    assert!(settings.enable_system_audio);
    assert!(settings.enable_echo_cancellation);
    assert!(settings.enable_realtime_nudges);
    assert_eq!(settings.analyzer_provider, AnalyzerProvider::LocalOllama);
    assert!(!settings.cloud_analysis_enabled);
    assert!(!settings.cloud_video_review_enabled);
    assert_eq!(settings.transcriber_bin_path, None);
    assert_eq!(settings.transcriber_model_path, None);
    assert_eq!(settings.speaker_embedding_model_path, None);
    assert_eq!(settings.speaker_segmentation_model_path, None);
}

#[test]
fn score_rejects_values_outside_zero_to_one_hundred() {
    assert!(Score::new(0).is_ok());
    assert!(Score::new(100).is_ok());
    assert_eq!(
        Score::new(101)
            .expect_err("score above 100 is invalid")
            .code,
        "invalid_score"
    );
}

