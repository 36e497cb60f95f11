use scribe::domain::ResonanceSettings;
use scribe::path_detection::{
    hydrate_settings_with_detected_paths, hydrate_settings_with_local_defaults,
    is_candidate_name, is_searchable_root, score_candidate, select_best_candidate,
    DetectedLocalPaths, ModelKind,
};

#[test]
fn the_filesystem_root_is_never_searched() {
    let home = "/Users/someone";
    assert!(!is_searchable_root("/", Some(home)));
}

#[test]
fn directories_above_home_are_never_searched() {
    let home = "/Users/someone";
    assert!(!is_searchable_root("/Users", Some(home)));
}

#[test]
fn ordinary_directories_are_searched() {
    let home = "/Users/someone";
    assert!(is_searchable_root("/Users/someone/models", Some(home)));
    assert!(is_searchable_root("/Users/someone", Some(home)));
    assert!(is_searchable_root("/opt/models", Some(home)));
}

#[test]
fn searchable_roots_compare_by_component() {
    assert!(!is_searchable_root("", None));
    assert!(is_searchable_root("/opt", None));
    assert!(is_searchable_root("/Users/someone/", Some("/Users//someone")));
    assert!(!is_searchable_root("/Users/", Some("/Users/someone/./")));
    assert!(is_searchable_root("/Use", Some("/Users/someone")));
}

#[test]
fn whisper_model_ranking_prefers_base_q5_variants() {
    let candidates = [
        "/Users/example/models/ggml-small.bin",
        "/Users/example/models/ggml-base-q5_1.bin",
        "/Users/example/models/ggml-medium.bin",
    ];

    let best = candidates
        .iter()
        .max_by_key(|path| score_candidate(path, ModelKind::Whisper))
        .expect("candidate exists");

    assert_eq!(best, &"/Users/example/models/ggml-base-q5_1.bin");
}

#[test]
fn speaker_segmentation_ranking_avoids_embedding_models() {
    let candidates = [
        "/Users/example/models/speaker-embedding.onnx",
        "/Users/example/models/pyannote-segmentation-3.0.onnx",
    ];

    let best = candidates
        .iter()
        .max_by_key(|path| score_candidate(path, ModelKind::SpeakerSegmentation))
        .expect("candidate exists");

    assert_eq!(best, &"/Users/example/models/pyannote-segmentation-3.0.onnx");
}

#[test]
fn scores_add_up_as_documented() {
    assert_eq!(score_candidate("/m/ggml-base-q5_1.bin", ModelKind::Whisper), 150);
    assert_eq!(score_candidate("/m/GGML-large-v3.bin", ModelKind::Whisper), -10);
    assert_eq!(score_candidate("/x/target/ggml-tiny.bin", ModelKind::Whisper), -10);
    assert_eq!(score_candidate("/Downloads/ggml-tiny.bin", ModelKind::Whisper), 60);
    assert_eq!(
        score_candidate("/m/speaker-embedding.onnx", ModelKind::SpeakerEmbedding),
        140
    );
    assert_eq!(
        score_candidate("/m/pyannote-segmentation-3.0.onnx", ModelKind::SpeakerSegmentation),
        170
    );
}

#[test]
fn candidate_names_fit_their_kind() {
    assert!(is_candidate_name("/m/ggml-base.bin", ModelKind::Whisper));
    assert!(is_candidate_name("/m/GGML-base.GGUF", ModelKind::Whisper));
    assert!(!is_candidate_name("/m/base.bin", ModelKind::Whisper));
    assert!(is_candidate_name("/m/wespeaker.onnx", ModelKind::SpeakerEmbedding));
    assert!(!is_candidate_name("/m/model.onnx", ModelKind::SpeakerSegmentation));
}

#[test]
fn the_best_candidate_wins_then_the_shortest() {
    let candidates = vec![
        "/Users/x/models/long/ggml-base.bin".to_string(),
        "/Users/x/ggml-base.bin".to_string(),
        "/Users/x/ggml-small.bin".to_string(),
    ];
    assert_eq!(
        select_best_candidate(&candidates, ModelKind::Whisper),
        Some("/Users/x/ggml-base.bin".to_string())
    );
    assert_eq!(select_best_candidate(&Vec::new(), ModelKind::Whisper), None);
}

#[test]
fn hydrate_settings_only_fills_missing_paths() {
    let detected = DetectedLocalPaths {
        transcriber_bin_path: Some("/opt/homebrew/bin/whisper-cli".to_string()),
        transcriber_model_path: Some("/Users/example/models/ggml-base-q5_1.bin".to_string()),
        speaker_embedding_model_path: Some(
            "/Users/example/models/speaker-embedding.onnx".to_string(),
        ),
        speaker_segmentation_model_path: Some(
            "/Users/example/models/speaker-segmentation.onnx".to_string(),
        ),
    };
    let mut hydrated = ResonanceSettings {
        transcriber_bin_path: None,
        transcriber_model_path: Some("/Users/custom/model.bin".to_string()),
        ..ResonanceSettings::default()
    };
    hydrate_settings_with_detected_paths(&mut hydrated, &detected);

    assert_eq!(
        hydrated.transcriber_bin_path.as_deref(),
        Some("/opt/homebrew/bin/whisper-cli")
    );
    assert_eq!(
        hydrated.transcriber_model_path.as_deref(),
        Some("/Users/custom/model.bin")
    );
    assert_eq!(
        hydrated.speaker_embedding_model_path.as_deref(),
        Some("/Users/example/models/speaker-embedding.onnx")
    );
    assert_eq!(
        hydrated.speaker_segmentation_model_path.as_deref(),
        Some("/Users/example/models/speaker-segmentation.onnx")
    );
}

#[test]
fn blank_paths_count_as_missing() {
    let detected = DetectedLocalPaths {
        transcriber_bin_path: Some("/bin/w".to_string()),
        transcriber_model_path: None,
        speaker_embedding_model_path: None,
        speaker_segmentation_model_path: None,
    };
    let settings = ResonanceSettings {
        transcriber_bin_path: Some("   ".to_string()),
        ..ResonanceSettings::default()
    };
    let hydrated = hydrate_settings_with_local_defaults(settings, &detected);
    assert_eq!(hydrated.transcriber_bin_path.as_deref(), Some("/bin/w"));
    assert_eq!(hydrated.raw_audio_retention_days, 7);
}
