use scribe::commands::{
    apple_script_string_literal, effective_analyzer_provider, history_duration_ms,
    meeting_history_status, next_page_offset, normalize_optional_path, normalize_search_query,
    page_limit, retained_audio_delete_decision, retention_cutoff_ms, retention_file_paths,
    should_record_dictation, validate_notification, validate_retention_days,
    validate_transcriber_vocabulary, MeetingHistoryStatus, RetainedAudioDeleteOutcome,
    RetentionCleanupSummary, DEFAULT_HISTORY_LIMIT, MAX_HISTORY_LIMIT,
};
use scribe::domain::AnalyzerProvider;
use scribe::media_import::{
    afconvert_data_format, configured_tool_path, validate_executable_mode,
    validate_existing_file,
};
use scribe::permissions::{
    screen_recording_status, settings_pane_url, status_from, unknown_pane_error,
    PermissionStatus,
};

#[test]
fn apple_script_string_literal_escapes_notification_text() {
    assert_eq!(
        apple_script_string_literal("Score \"81\"\\100\nready"),
        "\"Score \\\"81\\\"\\\\100 ready\""
    );
}

#[test]
fn history_status_follows_the_pipeline() {
    assert_eq!(meeting_history_status(Some(1), 3, true, true), MeetingHistoryStatus::FailedPartial);
    assert_eq!(meeting_history_status(None, 3, true, false), MeetingHistoryStatus::Recording);
    assert_eq!(meeting_history_status(Some(1), 0, true, false), MeetingHistoryStatus::Analyzed);
    assert_eq!(meeting_history_status(Some(1), 2, false, false), MeetingHistoryStatus::Transcribed);
    assert_eq!(meeting_history_status(Some(1), 0, false, false), MeetingHistoryStatus::Recorded);
    assert_eq!(history_duration_ms(Some(5), 10, Some(100)), Some(5));
    assert_eq!(history_duration_ms(None, 10, Some(100)), Some(90));
    assert_eq!(history_duration_ms(None, 100, Some(10)), Some(0));
    assert_eq!(history_duration_ms(None, 100, None), None);
}

#[test]
fn history_pages_are_bounded() {
    assert_eq!(page_limit(None, DEFAULT_HISTORY_LIMIT, MAX_HISTORY_LIMIT), 10);
    assert_eq!(page_limit(Some(0), DEFAULT_HISTORY_LIMIT, MAX_HISTORY_LIMIT), 1);
    assert_eq!(page_limit(Some(500), DEFAULT_HISTORY_LIMIT, MAX_HISTORY_LIMIT), 50);
    assert_eq!(next_page_offset(11, 10, 20), Some(30));
    assert_eq!(next_page_offset(10, 10, 20), None);
    assert_eq!(next_page_offset(11, 10, u32::MAX), None);
}

#[test]
fn queries_and_paths_are_normalised() {
    assert_eq!(normalize_search_query(Some("  standup  ".to_string())), Some("standup".to_string()));
    assert_eq!(normalize_search_query(Some("   ".to_string())), None);
    assert_eq!(normalize_search_query(None), None);
    let long = "x".repeat(130);
    assert_eq!(normalize_search_query(Some(long)).map(|q| q.chars().count()), Some(120));
    assert_eq!(normalize_optional_path(Some(" /a/b ".to_string())), Some("/a/b".to_string()));
    assert_eq!(normalize_optional_path(Some("\t".to_string())), None);
}

#[test]
fn retention_rules() {
    assert_eq!(validate_retention_days(365).expect("ok"), 365);
    let error = validate_retention_days(366).expect_err("too long");
    assert_eq!(error.code, "invalid_retention_days");
    assert_eq!(error.details.as_deref(), Some("raw_audio_retention_days=366"));
    assert_eq!(retention_cutoff_ms(1, 100_000_000), 13_600_000);
    assert_eq!(retention_cutoff_ms(7, 1_000), 0);
    assert_eq!(
        retention_file_paths(&"/a.wav".to_string(), &Some("/a.system.m4a".to_string())),
        vec!["/a.wav".to_string(), "/a.system.m4a".to_string()]
    );
    assert_eq!(retention_file_paths(&"/a.wav".to_string(), &None), vec!["/a.wav".to_string()]);
    let mut summary = RetentionCleanupSummary::empty();
    summary.count_file(RetainedAudioDeleteOutcome::Deleted);
    summary.count_file(RetainedAudioDeleteOutcome::Missing);
    summary.count_file(RetainedAudioDeleteOutcome::Skipped);
    summary.count_removed_metadata();
    assert_eq!(summary.deleted_audio_file_count, 1);
    assert_eq!(summary.skipped_audio_file_count, 1);
    assert_eq!(summary.removed_audio_metadata_count, 1);
    assert_eq!(
        retained_audio_delete_decision(false, true, true),
        Some(RetainedAudioDeleteOutcome::Skipped)
    );
    assert_eq!(
        retained_audio_delete_decision(true, false, true),
        Some(RetainedAudioDeleteOutcome::Skipped)
    );
    assert_eq!(retained_audio_delete_decision(true, true, true), None);
}

#[test]
fn settings_rules() {
    assert_eq!(
        effective_analyzer_provider(AnalyzerProvider::CloudClaude, false),
        AnalyzerProvider::LocalOllama
    );
    assert!(should_record_dictation("hello", 500));
    assert!(!should_record_dictation("hello", 499));
    assert!(!should_record_dictation("  ", 5_000));
    assert_eq!(validate_transcriber_vocabulary(Some("  ".to_string())).expect("ok"), None);
    assert_eq!(
        validate_transcriber_vocabulary(Some(" Kubernetes ".to_string())).expect("ok"),
        Some("Kubernetes".to_string())
    );
    let error = validate_transcriber_vocabulary(Some("y".repeat(601))).expect_err("too long");
    assert_eq!(error.code, "invalid_transcriber_vocabulary");
    assert_eq!(error.details.as_deref(), Some("length=601"));
    assert_eq!(
        validate_notification(" Done ", " Notes ready ").expect("ok"),
        ("Done".to_string(), "Notes ready".to_string())
    );
    assert_eq!(validate_notification("", "x").expect_err("blank").code, "invalid_notification");
}

#[test]
fn permission_rules() {
    let ok: Result<(), scribe::domain::AppError> = Ok(());
    assert_eq!(status_from(&ok), PermissionStatus::Granted);
    assert_eq!(screen_recording_status(&Ok(false)), PermissionStatus::Denied);
    assert_eq!(screen_recording_status(&Ok(true)), PermissionStatus::Granted);
    assert_eq!(
        settings_pane_url("Microphone").as_deref(),
        Some("x-apple.systempreferences:com.apple.preference.security?Privacy_Microphone")
    );
    assert_eq!(
        settings_pane_url("Keyboard").as_deref(),
        Some("x-apple.systempreferences:com.apple.Keyboard-Settings.extension")
    );
    assert_eq!(settings_pane_url("NotAPane"), None);
}

#[test]
fn open_system_settings_pane_rejects_unknown_panes() {
    let error = unknown_pane_error("NotAPane");
    assert_eq!(error.code, "permissions_unknown_pane");
    assert_eq!(error.message, "Unknown System Settings pane: NotAPane");
}

#[test]
fn media_tool_rules() {
    assert_eq!(afconvert_data_format(16_000), "LEI16@16000");
    assert_eq!(configured_tool_path(Some("  /opt/ffmpeg ")), Some("/opt/ffmpeg".to_string()));
    assert_eq!(configured_tool_path(Some(" ")), None);
    let error = validate_existing_file("ffmpeg", false, true, "invalid_ffmpeg_path", "ffmpeg binary path")
        .expect_err("relative");
    assert_eq!(error.message, "ffmpeg binary path must be an absolute path.");
    assert_eq!(error.details.as_deref(), Some("path=ffmpeg"));
    assert!(validate_existing_file("/x", true, true, "c", "l").is_ok());
    assert!(validate_executable_mode("/x", 0o755, "c", "l").is_ok());
    assert_eq!(
        validate_executable_mode("/x", 0o644, "c", "tool").expect_err("not executable").message,
        "tool is not executable."
    );
}
