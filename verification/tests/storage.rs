use scribe::audio::storage::{safe_system_audio_path, safe_wav_path, validate_recording_file_stem};

#[test]
fn meeting_id_filename_validation_allows_safe_ascii_stems() {
    assert!(validate_recording_file_stem("meeting-123_OK").is_ok());
}

#[test]
fn meeting_id_filename_validation_rejects_path_traversal_and_separators() {
    for id in [
        "",
        "../meeting",
        "nested/meeting",
        "nested\\meeting",
        "meeting.wav",
    ] {
        let error = validate_recording_file_stem(id).expect_err("unsafe id is rejected");
        assert_eq!(error.code, "invalid_meeting_id");
    }
}

#[test]
fn safe_wav_path_stays_under_recordings_directory() {
    let base = "/tmp/scribe-test-data/audio-storage";
    let path = safe_wav_path(base, "meeting-safe").expect("path can be created");

    assert_eq!(path, "/tmp/scribe-test-data/audio-storage/recordings/meeting-safe.wav");
}

#[test]
fn safe_system_audio_path_uses_separate_channel_suffix() {
    let base = "/tmp/scribe-test-data/audio-storage-system";
    let path = safe_system_audio_path(base, "meeting-safe").expect("path can be created");

    assert_eq!(
        path,
        "/tmp/scribe-test-data/audio-storage-system/recordings/meeting-safe.system.m4a"
    );
}

#[test]
fn unsafe_meeting_id_gets_no_wav_path() {
    let error = safe_wav_path("/tmp/base", "../escape").expect_err("traversal is rejected");
    assert_eq!(error.code, "invalid_meeting_id");
}
