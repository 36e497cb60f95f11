use scribe::aec_offline::{
    cancel_echo, check_equal_lengths, parse_args, parse_i32, parse_usize, required_path,
    IntParseError, DEFAULT_FILTER_LENGTH, DEFAULT_FRAME_SIZE,
};
use scribe::audio::aec::{
    cancel_echo_with, echo_cancelled_path, normalized_aec_wav_path, path_has_wav_extension,
    prepare_audio_for_aec, write_mono_i16_48k, AecInput, FrameEchoCanceller,
    AEC_MICROPHONE_SUFFIX, AEC_REFERENCE_SUFFIX,
};

/// Stands in for the echo canceller: hands the recorded frame back as is.
struct PassThrough {
    frames: usize,
}

impl FrameEchoCanceller for PassThrough {
    fn cancel_frame(&mut self, recorded: &[i16], _reference: &[i16]) -> Vec<i16> {
        self.frames += 1;
        recorded.to_vec()
    }
}

/// Stands in for the echo canceller: silences everything.
struct Silence;

impl FrameEchoCanceller for Silence {
    fn cancel_frame(&mut self, recorded: &[i16], _reference: &[i16]) -> Vec<i16> {
        vec![0_i16; recorded.len()]
    }
}

#[test]
fn derives_echo_cancelled_path_next_to_microphone_wav() {
    let derived = echo_cancelled_path("/tmp/scribe/meeting-1.wav").expect("path is derived");

    assert_eq!(derived, "/tmp/scribe/meeting-1.aec.wav");
}

#[test]
fn rejects_non_wav_microphone_input() {
    let error = echo_cancelled_path("/tmp/scribe/meeting-1.m4a")
        .expect_err("m4a microphone input is rejected");

    assert_eq!(error.code, "aec_unsupported_mic_format");
}

#[test]
fn normalized_reference_path_sits_next_to_the_source() {
    assert_eq!(
        normalized_aec_wav_path("/tmp/dir/reference.m4a", "aec-reference").expect("derived"),
        "/tmp/dir/reference.aec-reference.wav"
    );
    assert!(path_has_wav_extension("/tmp/a.WAV"));
    assert!(!path_has_wav_extension("/tmp/a.m4a"));
}

#[test]
fn echo_cancellation_preserves_sample_count_for_partial_frame() {
    let reference = vec![0_i16; DEFAULT_FRAME_SIZE + 17];
    let recorded = vec![0_i16; DEFAULT_FRAME_SIZE + 17];

    let output = cancel_echo(&reference, &recorded, DEFAULT_FRAME_SIZE, &mut Silence);

    assert_eq!(output.len(), recorded.len());
}

#[test]
fn framing_hands_each_frame_over_and_stitches_it_back() {
    let recorded: Vec<i16> = (0..1_000).map(|i| i as i16).collect();
    let reference = vec![7_i16; 300];
    let mut canceller = PassThrough { frames: 0 };

    let output = cancel_echo_with(&reference, &recorded, 480, &mut canceller);

    assert_eq!(canceller.frames, 3);
    assert_eq!(output, recorded);
}

#[test]
fn the_tool_stops_at_the_shorter_track() {
    let recorded: Vec<i16> = (0..1_000).map(|i| i as i16).collect();
    let reference = vec![0_i16; 500];
    let mut canceller = PassThrough { frames: 0 };

    let output = cancel_echo(&reference, &recorded, 480, &mut canceller);

    assert_eq!(canceller.frames, 2);
    assert_eq!(output, recorded[..960].to_vec());
}

#[test]
fn unequal_tracks_are_refused() {
    assert!(check_equal_lengths(10, 10).is_ok());
    assert_eq!(
        check_equal_lengths(10, 12).expect_err("unequal"),
        "reference and recorded WAVs must have equal sample counts (10 != 12)"
    );
}

#[test]
fn parses_processing_arguments() {
    let options = parse_args(
        [
            "--reference",
            "ref.wav",
            "--recorded",
            "mic.wav",
            "--output",
            "clean.wav",
        ]
        .map(String::from)
        .to_vec(),
    )
    .expect("valid arguments");

    assert_eq!(options.reference, Some("ref.wav".to_string()));
    assert_eq!(options.recorded, Some("mic.wav".to_string()));
    assert_eq!(options.output, Some("clean.wav".to_string()));
    assert_eq!(options.frame_size, DEFAULT_FRAME_SIZE);
    assert_eq!(options.filter_length, DEFAULT_FILTER_LENGTH);
}

#[test]
fn rejects_zero_frame_size() {
    let error = parse_args(["--frame-size", "0"].map(String::from).to_vec()).expect_err("invalid");

    assert!(error.contains("--frame-size"));
}

#[test]
fn command_line_errors_name_the_problem() {
    assert_eq!(
        parse_args(vec!["--bogus".to_string()]).expect_err("unknown"),
        "unknown argument: --bogus"
    );
    assert_eq!(
        parse_args(vec!["--output".to_string()]).expect_err("missing"),
        "missing value for --output"
    );
    assert_eq!(
        parse_args(["--filter-length", "-5"].map(String::from).to_vec()).expect_err("negative"),
        "--filter-length must be greater than zero"
    );
    assert_eq!(
        parse_args(["--frame-size", "12x"].map(String::from).to_vec()).expect_err("not a number"),
        "invalid digit found in string"
    );
    let options = parse_args(
        ["--generate-synthetic", "--frame-size", "+256", "--filter-length", "4800"]
            .map(String::from)
            .to_vec(),
    )
    .expect("valid");
    assert!(options.generate_synthetic);
    assert_eq!(options.frame_size, 256);
    assert_eq!(options.filter_length, 4800);
    assert!(parse_args(vec!["-h".to_string()]).expect_err("help").starts_with("Usage:"));
    assert_eq!(
        required_path(&None, "--output").expect_err("missing"),
        "missing required argument --output"
    );
}

#[test]
fn integers_parse_as_the_standard_library_does() {
    assert_eq!(parse_usize("480"), Ok(480));
    assert_eq!(parse_usize(""), Err(IntParseError::Empty));
    assert_eq!(parse_usize("+"), Err(IntParseError::InvalidDigit));
    assert_eq!(parse_usize("-1"), Err(IntParseError::InvalidDigit));
    assert_eq!(parse_usize("99999999999999999999999"), Err(IntParseError::PosOverflow));
    assert_eq!(parse_i32("-2147483648"), Ok(i32::MIN));
    assert_eq!(parse_i32("2147483647"), Ok(i32::MAX));
    assert_eq!(parse_i32("2147483648"), Err(IntParseError::PosOverflow));
    assert_eq!(parse_i32("-2147483649"), Err(IntParseError::NegOverflow));
    for text in ["480", "", "+", "-", "-1", "12x", "99999999999999999999999"] {
        assert_eq!(parse_usize(text).ok(), text.parse::<usize>().ok(), "{text}");
    }
    for text in ["-2147483648", "2147483648", "+7", "-0", "--1", "3 "] {
        assert_eq!(parse_i32(text).ok(), text.parse::<i32>().ok(), "{text}");
    }
}

fn wav_bytes(sample_rate: u32, samples: usize) -> Vec<u8> {
    let spec = hound::WavSpec {
        channels: 1,
        sample_rate,
        bits_per_sample: 16,
        sample_format: hound::SampleFormat::Int,
    };
    let mut cursor = std::io::Cursor::new(Vec::new());
    {
        let mut writer = hound::WavWriter::new(&mut cursor, spec).expect("wav can be created");
        for _ in 0..samples {
            writer.write_sample(0_i16).expect("sample can be written");
        }
        writer.finalize().expect("wav can be finalized");
    }
    cursor.into_inner()
}

#[test]
fn normalizes_non_48k_microphone_wav_for_aec() {
    let bytes = wav_bytes(16_000, 16_000);

    let prepared = prepare_audio_for_aec("/tmp/dir/microphone.wav", Some(&bytes), AEC_MICROPHONE_SUFFIX)
        .expect("16 kHz microphone audio is normalized");

    assert_eq!(prepared, AecInput::Normalize("/tmp/dir/microphone.aec-input.wav".to_string()));
}

#[test]
fn keeps_conforming_48k_wav_without_normalizing() {
    let bytes = write_mono_i16_48k(&[0_i16; 480], "/tmp/dir/conforming.wav").expect("48 kHz wav");

    let prepared = prepare_audio_for_aec("/tmp/dir/conforming.wav", Some(&bytes), AEC_MICROPHONE_SUFFIX)
        .expect("conforming audio passes through");

    assert_eq!(prepared, AecInput::Existing("/tmp/dir/conforming.wav".to_string()));
}

#[test]
fn non_wav_reference_audio_is_normalized_next_to_the_source() {
    let prepared = prepare_audio_for_aec("/tmp/dir/reference.m4a", Some(b"fake m4a"), AEC_REFERENCE_SUFFIX)
        .expect("reference audio is normalized");

    assert_eq!(prepared, AecInput::Normalize("/tmp/dir/reference.aec-reference.wav".to_string()));
}

#[test]
fn an_unreadable_wav_is_normalized_rather_than_trusted() {
    let prepared = prepare_audio_for_aec("/tmp/dir/missing.wav", None, AEC_MICROPHONE_SUFFIX)
        .expect("a path is derived");

    assert_eq!(prepared, AecInput::Normalize("/tmp/dir/missing.aec-input.wav".to_string()));
}
