use scribe::audio::aec::{read_mono_i16_48k, wav_matches_aec_spec, write_mono_i16_48k};
use scribe::audio::capture::{
    builtin_input_uid_when_default_is_bluetooth, clock_reading_result, downmix_i16_samples, downmix_u16_samples,
    ActiveCapture, AudioCaptureBackend, CaptureSessionHandle, CaptureSummary, CoreAudioDevice,
    TRANSPORT_BLUETOOTH, TRANSPORT_BUILT_IN,
};
use scribe::audio::domain::AudioDevice;
use scribe::audio::manager::RecordingManager;
use scribe::audio::system::{
    helper_exit_summary, helper_stderr_detail, keep_waiting_for_helper, signal_error_text,
    timed_out_summary, wait_failed_summary, ActiveSystemAudioCapture, SystemAudioCaptureBackend,
    SystemAudioCaptureSummary, SystemAudioSessionHandle,
};
use scribe::audio::wav::{decode_wav, write_i16_mono_wav};
use scribe::domain::AppError;
use std::cell::Cell;
use std::rc::Rc;

#[test]
fn write_i16_mono_wav_writes_readable_pcm_file() {
    let (bytes, summary) = write_i16_mono_wav(16_000, &[0, i16::MAX, i16::MIN]).expect("wav writes");

    assert_eq!(summary.sample_count, 3);

    let reader = hound::WavReader::new(std::io::Cursor::new(bytes)).expect("wav can be read");
    let spec = reader.spec();
    assert_eq!(spec.channels, 1);
    assert_eq!(spec.sample_rate, 16_000);
    assert_eq!(spec.bits_per_sample, 16);
}

#[test]
fn wav_round_trips_through_the_decoder() {
    let (bytes, _) = write_i16_mono_wav(48_000, &[1, -2, 300]).expect("wav writes");
    assert_eq!(bytes.len(), 44 + 6);
    let (format, samples) = decode_wav(&bytes).expect("decodes");
    assert_eq!(format.channels, 1);
    assert_eq!(format.sample_rate, 48_000);
    assert_eq!(samples.expect("samples"), vec![1, -2, 300]);
    assert!(wav_matches_aec_spec(&bytes));
    assert_eq!(read_mono_i16_48k(&bytes, "/tmp/x.wav").expect("reads"), vec![1, -2, 300]);
    let (narrow, _) = write_i16_mono_wav(16_000, &[1]).expect("wav writes");
    assert!(!wav_matches_aec_spec(&narrow));
    assert!(read_mono_i16_48k(&narrow, "/tmp/y.wav").is_err());
    let written = write_mono_i16_48k(&[5, 6], "/tmp/z.wav").expect("writes");
    assert_eq!(read_mono_i16_48k(&written, "/tmp/z.wav").expect("reads"), vec![5, 6]);
    assert!(decode_wav(b"not a wav").is_err());
}

#[test]
fn enqueue_samples_downmixes_stereo_to_mono() {
    assert_eq!(downmix_i16_samples(&[100, 300, -5, -6, 7], 2), vec![200, -5, 7]);
    assert_eq!(downmix_i16_samples(&[1, 2, 3], 0), vec![1, 2, 3]);
    assert_eq!(downmix_u16_samples(&[32_768, 32_770, 0, 65_535], 2), vec![1, 0]);
    assert_eq!(downmix_i16_samples(&[i16::MIN, i16::MIN], 2), vec![i16::MIN]);
}

fn device(input: bool, transport: Option<u32>, uid: &str) -> CoreAudioDevice {
    CoreAudioDevice {
        has_input_streams: input,
        transport,
        uid: Some(uid.to_string()),
    }
}

#[test]
fn bluetooth_default_input_is_replaced_by_the_builtin_microphone() {
    let devices = vec![
        device(false, Some(TRANSPORT_BUILT_IN), "speakers"),
        device(true, Some(TRANSPORT_BLUETOOTH), "airpods"),
        device(true, Some(TRANSPORT_BUILT_IN), "builtin-mic"),
        device(true, Some(TRANSPORT_BUILT_IN), "second-mic"),
    ];
    assert_eq!(
        builtin_input_uid_when_default_is_bluetooth(Some(7), Some(TRANSPORT_BLUETOOTH), &devices),
        Some("builtin-mic".to_string())
    );
    assert_eq!(
        builtin_input_uid_when_default_is_bluetooth(Some(7), Some(TRANSPORT_BUILT_IN), &devices),
        None
    );
    assert_eq!(
        builtin_input_uid_when_default_is_bluetooth(Some(0), Some(TRANSPORT_BLUETOOTH), &devices),
        None
    );
    assert_eq!(
        builtin_input_uid_when_default_is_bluetooth(Some(7), Some(TRANSPORT_BLUETOOTH), &devices[..2].to_vec()),
        None
    );
}

struct FakeBackend;

struct FakeSession;

impl CaptureSessionHandle for FakeSession {
    fn stop(self) -> Result<CaptureSummary, AppError> {
        Ok(CaptureSummary {
            sample_count: 250,
            dropped_sample_count: 2,
            stream_error: None,
        })
    }
}

impl AudioCaptureBackend for FakeBackend {
    type Session = FakeSession;

    fn list_input_devices(&self) -> Result<Vec<AudioDevice>, AppError> {
        Ok(vec![AudioDevice {
            id: "input-0".to_string(),
            name: "Fake Mic".to_string(),
            is_default_input: true,
        }])
    }

    fn start_recording(
        &self,
        file_path: String,
        _device_id: Option<String>,
    ) -> Result<ActiveCapture<FakeSession>, AppError> {
        Ok(ActiveCapture {
            file_path,
            sample_rate_hz: 1_000,
            started_at_ms: 10,
            handle: FakeSession,
        })
    }
}

struct FailingBackend;

impl AudioCaptureBackend for FailingBackend {
    type Session = FakeSession;

    fn list_input_devices(&self) -> Result<Vec<AudioDevice>, AppError> {
        Ok(Vec::new())
    }

    fn start_recording(
        &self,
        _file_path: String,
        _device_id: Option<String>,
    ) -> Result<ActiveCapture<FakeSession>, AppError> {
        Err(AppError {
            code: "fake_microphone_failed".to_string(),
            message: "Fake microphone failed to start.".to_string(),
            details: None,
        })
    }
}

struct CountingSystemBackend {
    stopped_count: Rc<Cell<u64>>,
}

struct CountingSystemSession {
    stopped_count: Rc<Cell<u64>>,
}

impl SystemAudioSessionHandle for CountingSystemSession {
    fn stop(self) -> SystemAudioCaptureSummary {
        self.stopped_count.set(self.stopped_count.get() + 1);
        SystemAudioCaptureSummary {
            byte_size: None,
            stream_error: None,
        }
    }
}

impl SystemAudioCaptureBackend for CountingSystemBackend {
    type Session = CountingSystemSession;

    fn start_capture(
        &self,
        file_path: String,
    ) -> Result<ActiveSystemAudioCapture<CountingSystemSession>, AppError> {
        Ok(ActiveSystemAudioCapture {
            file_path,
            sample_rate_hz: 48_000,
            handle: CountingSystemSession {
                stopped_count: Rc::clone(&self.stopped_count),
            },
        })
    }
}

#[test]
fn recording_manager_prevents_double_start_and_stop_without_active_recording() {
    let counter = Rc::new(Cell::new(0));
    let mut manager = RecordingManager::new(
        FakeBackend,
        CountingSystemBackend {
            stopped_count: Rc::clone(&counter),
        },
    );

    let started = manager
        .start_recording(
            "meeting-1".to_string(),
            "/tmp/manager/meeting-1.wav".to_string(),
            Some("/tmp/manager/meeting-1.system.m4a".to_string()),
            None,
        )
        .expect("first recording starts");
    assert_eq!(started.sample_rate_hz, 1_000);
    assert_eq!(
        started.system_audio_file_path.as_deref(),
        Some("/tmp/manager/meeting-1.system.m4a")
    );

    let double_start = manager
        .start_recording(
            "meeting-2".to_string(),
            "/tmp/manager/meeting-2.wav".to_string(),
            None,
            None,
        )
        .expect_err("second recording is rejected");
    assert_eq!(double_start.code, "recording_already_active");

    let stopped = manager.stop_recording(260).expect("active recording can stop");
    assert_eq!(counter.get(), 1);
    let metadata = stopped.into_metadata(Ok(44), Some(16)).expect("metadata");
    assert_eq!(metadata.duration_ms, 250);
    assert_eq!(metadata.dropped_sample_count, 2);
    assert_eq!(metadata.system_audio_byte_size, Some(16));
    assert_eq!(metadata.byte_size, 44);
    assert_eq!(metadata.stopped_at_ms, 260);

    let stop_without_recording = manager
        .stop_recording(300)
        .err()
        .expect("inactive recording cannot stop");
    assert_eq!(stop_without_recording.code, "recording_not_active");
}

#[test]
fn recording_manager_stops_system_capture_when_microphone_start_fails() {
    let counter = Rc::new(Cell::new(0));
    let mut manager = RecordingManager::new(
        FailingBackend,
        CountingSystemBackend {
            stopped_count: Rc::clone(&counter),
        },
    );

    let error = manager
        .start_recording(
            "meeting-cleanup".to_string(),
            "/tmp/manager/meeting-cleanup.wav".to_string(),
            Some("/tmp/manager/meeting-cleanup.system.m4a".to_string()),
            None,
        )
        .expect_err("microphone failure is returned");

    assert_eq!(error.code, "fake_microphone_failed");
    assert_eq!(counter.get(), 1);
    assert!(!manager.is_recording());
}

#[test]
fn finished_recording_metadata_checks_rate_and_file() {
    let counter = Rc::new(Cell::new(0));
    let mut manager = RecordingManager::new(FakeBackend, CountingSystemBackend { stopped_count: counter });
    manager
        .start_recording("m".to_string(), "/tmp/m.wav".to_string(), None, None)
        .expect("starts");
    let stopped = manager.stop_recording(5).expect("stops");
    let error = stopped.into_metadata(Err("gone".to_string()), None).expect_err("unreadable file");
    assert_eq!(error.code, "audio_file_metadata_failed");
    assert_eq!(error.details.as_deref(), Some("gone"));
}

#[test]
fn helper_exits_are_summarised() {
    assert_eq!(helper_exit_summary(true, "exit status: 0", None, Some("noise".to_string())).stream_error, None);
    assert_eq!(
        helper_exit_summary(false, "exit status: 1", None, Some("  denied \n".to_string())).stream_error.as_deref(),
        Some("System audio helper exited with exit status: 1: denied")
    );
    assert_eq!(
        helper_exit_summary(false, "exit status: 1", Some("pipe closed".to_string()), Some("  ".to_string())).stream_error.as_deref(),
        Some("pipe closed; system audio helper exited with exit status: 1.")
    );
    assert_eq!(helper_stderr_detail(Some("\n".to_string())), None);
    assert!(keep_waiting_for_helper(4_999));
    assert!(!keep_waiting_for_helper(5_000));
    assert_eq!(
        signal_error_text("broken pipe"),
        "Could not signal system audio capture to stop: broken pipe"
    );
    assert_eq!(
        timed_out_summary(None).stream_error.as_deref(),
        Some("Timed out waiting for system audio capture to stop.")
    );
    assert_eq!(
        wait_failed_summary("EINTR").stream_error.as_deref(),
        Some("Could not wait for system audio helper: EINTR")
    );
}

#[test]
fn a_clock_before_the_epoch_is_a_system_time_error() {
    assert_eq!(clock_reading_result(Ok(1_234)), Ok(1_234));
    let error = clock_reading_result(Err("second time provided was later".to_string()))
        .expect_err("before the epoch");
    assert_eq!(error.code, "system_time_error");
    assert_eq!(error.message, "System clock is before the Unix epoch.");
    assert_eq!(error.details.as_deref(), Some("second time provided was later"));
}

#[test]
fn a_refused_microphone_ends_the_start_with_its_error_and_stops_system_audio() {
    let counter = Rc::new(Cell::new(0));
    let mut manager = RecordingManager::new(
        FakeBackend,
        CountingSystemBackend { stopped_count: Rc::clone(&counter) },
    );
    let system = ActiveSystemAudioCapture {
        file_path: "/tmp/manager/m.system.m4a".to_string(),
        sample_rate_hz: 48_000,
        handle: CountingSystemSession { stopped_count: Rc::clone(&counter) },
    };
    let refusal = AppError {
        code: "fake_microphone_failed".to_string(),
        message: "Fake microphone failed to start.".to_string(),
        details: None,
    };

    let (result, stopped) = manager.finish_start("m".to_string(), Some(system), Err(refusal.clone()));

    assert_eq!(result, Err(refusal));
    assert_eq!(stopped, Some(SystemAudioCaptureSummary { byte_size: None, stream_error: None }));
    assert_eq!(counter.get(), 1);
    assert!(!manager.is_recording());
}

#[test]
fn a_started_microphone_becomes_the_recording_in_flight() {
    let counter = Rc::new(Cell::new(0));
    let mut manager = RecordingManager::new(
        FakeBackend,
        CountingSystemBackend { stopped_count: Rc::clone(&counter) },
    );
    let capture = ActiveCapture {
        file_path: "/tmp/manager/m.wav".to_string(),
        sample_rate_hz: 16_000,
        started_at_ms: 42,
        handle: FakeSession,
    };

    let (result, stopped) = manager.finish_start("m".to_string(), None, Ok(capture));

    let started = result.expect("started");
    assert_eq!(started.meeting_id, "m");
    assert_eq!(started.file_path, "/tmp/manager/m.wav");
    assert_eq!(started.system_audio_file_path, None);
    assert_eq!(started.started_at_ms, 42);
    assert_eq!(started.sample_rate_hz, 16_000);
    assert_eq!(stopped, None);
    assert!(manager.is_recording());
    assert_eq!(counter.get(), 0);
}
