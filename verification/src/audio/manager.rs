//! The one meeting recording that may be in flight: microphone capture plus
//! optional system-audio capture, started and stopped together, and the
//! metadata of the finished recording.

use vstd::prelude::*;

use super::capture::{ActiveCapture, AudioCaptureBackend, CaptureSessionHandle, CaptureSummary};
use super::domain::{AudioDevice, RecordingMetadata, RecordingStarted};
use super::system::{
    ActiveSystemAudioCapture, SystemAudioCaptureBackend, SystemAudioCaptureSummary,
    SystemAudioSessionHandle,
};
use crate::domain::{app_error, opt_view, AppError};

verus! {

struct ActiveRecording<H, G> {
    meeting_id: String,
    capture: ActiveCapture<H>,
    system_capture: Option<ActiveSystemAudioCapture<G>>,
}

/// Starts and stops meeting recordings, one at a time.
pub struct RecordingManager<B: AudioCaptureBackend, S: SystemAudioCaptureBackend> {
    backend: B,
    system_backend: S,
    active: Option<ActiveRecording<B::Session, S::Session>>,
}

/// A recording whose captures have stopped, before its file sizes are known.
pub struct StoppedRecording {
    pub meeting_id: String,
    pub file_path: String,
    pub sample_rate_hz: u32,
    pub started_at_ms: u64,
    pub stopped_at_ms: u64,
    pub summary: CaptureSummary,
    /// The system-audio file and what its capture reported, if there was one.
    pub system_audio: Option<(String, SystemAudioCaptureSummary)>,
}

/// Length in milliseconds of `sample_count` samples at `rate` Hz, the
/// multiplication saturating at `u64::MAX`.
pub open spec fn duration_ms(sample_count: u64, rate: u32) -> int {
    let ms = if sample_count * 1000 > u64::MAX {
        u64::MAX as int
    } else {
        sample_count * 1000
    };
    ms / (rate as int)
}

impl StoppedRecording {
    /// The finished recording's metadata. `file_len` is the length of the
    /// microphone file on disk (or why it could not be read) and
    /// `system_file_len` that of the system-audio file, if it could be read.
    /// A zero sample rate is `audio_input_config_invalid`; an unreadable
    /// microphone file is `audio_file_metadata_failed`.
    pub fn into_metadata(self, file_len: Result<u64, String>, system_file_len: Option<u64>) -> (r:
        Result<RecordingMetadata, AppError>)
        ensures
            self.sample_rate_hz == 0 ==> (r matches Err(e) && e.is(
                "audio_input_config_invalid"@,
                "Microphone input sample rate must be greater than zero."@,
            ) && e.details is None),
            self.sample_rate_hz != 0 && file_len is Err ==> (r matches Err(e) && e.is(
                "audio_file_metadata_failed"@,
                "Could not read finalized WAV recording metadata."@,
            ) && opt_view(e.details) == Some(file_len->Err_0@)),
            r is Ok <==> (self.sample_rate_hz != 0 && file_len is Ok),
            r matches Ok(m) ==> {
                &&& m.meeting_id == self.meeting_id
                &&& m.file_path == self.file_path
                &&& m.duration_ms == duration_ms(self.summary.sample_count, self.sample_rate_hz)
                &&& m.sample_rate_hz == self.sample_rate_hz
                &&& m.byte_size == file_len->Ok_0
                &&& m.started_at_ms == self.started_at_ms
                &&& m.stopped_at_ms == self.stopped_at_ms
                &&& m.dropped_sample_count == self.summary.dropped_sample_count
                &&& m.stream_error == self.summary.stream_error
                &&& m.system_audio_file_path == match self.system_audio {
                    Some((p, _)) => Some(p),
                    None => None::<String>,
                }
                &&& m.system_audio_byte_size == match self.system_audio {
                    Some((_, s)) => if system_file_len is Some {
                        system_file_len
                    } else {
                        s.byte_size
                    },
                    None => None::<u64>,
                }
                &&& m.system_audio_stream_error == match self.system_audio {
                    Some((_, s)) => s.stream_error,
                    None => None::<String>,
                }
            },
    {
        if self.sample_rate_hz == 0 {
            return Err(
                app_error(
                    "audio_input_config_invalid",
                    "Microphone input sample rate must be greater than zero.",
                    None,
                ),
            );
        }
        let byte_size = match file_len {
            Ok(n) => n,
            Err(detail) => {
                return Err(
                    app_error(
                        "audio_file_metadata_failed",
                        "Could not read finalized WAV recording metadata.",
                        Some(detail),
                    ),
                );
            },
        };
        let (system_audio_file_path, system_audio_byte_size, system_audio_stream_error) =
            match self.system_audio {
            Some((path, s)) => {
                let size = match system_file_len {
                    Some(n) => Some(n),
                    None => s.byte_size,
                };
                (Some(path), size, s.stream_error)
            },
            None => (None, None, None),
        };
        let ms: u64 = if self.summary.sample_count > u64::MAX / 1000 {
            u64::MAX
        } else {
            self.summary.sample_count * 1000
        };
        Ok(
            RecordingMetadata {
                meeting_id: self.meeting_id,
                file_path: self.file_path,
                system_audio_file_path,
                duration_ms: ms / (self.sample_rate_hz as u64),
                sample_rate_hz: self.sample_rate_hz,
                byte_size,
                system_audio_byte_size,
                started_at_ms: self.started_at_ms,
                stopped_at_ms: self.stopped_at_ms,
                dropped_sample_count: self.summary.dropped_sample_count,
                stream_error: self.summary.stream_error,
                system_audio_stream_error,
            },
        )
    }
}

impl<B: AudioCaptureBackend, S: SystemAudioCaptureBackend> RecordingManager<B, S> {
    pub closed spec fn recording(&self) -> bool {
        self.active is Some
    }

    /// Meeting of the recording in flight.
    pub closed spec fn active_meeting_id(&self) -> String {
        self.active->0.meeting_id
    }

    /// Microphone file of the recording in flight.
    pub closed spec fn active_file_path(&self) -> String {
        self.active->0.capture.file_path
    }

    /// Whether the recording in flight also captures system audio.
    pub closed spec fn active_has_system_audio(&self) -> bool {
        self.active->0.system_capture is Some
    }

    /// The microphone capture in flight.
    pub closed spec fn active_capture(&self) -> ActiveCapture<B::Session> {
        self.active->0.capture
    }

    /// The system-audio capture in flight, if the recording has one.
    pub closed spec fn active_system_capture(&self) -> Option<ActiveSystemAudioCapture<S::Session>> {
        self.active->0.system_capture
    }

    /// How a stop of the recording in flight in `before` ends, given what
    /// stopping its microphone session answered (`st`) and, when it also
    /// captured system audio, what stopping that session gave (`sys`): a
    /// microphone error is returned as it is (the system capture is not
    /// asked); otherwise the stopped recording carries the meeting, the
    /// microphone file, its sample rate and start time, `stopped_at_ms`, the
    /// microphone summary, and the system-audio file with its summary.
    pub open spec fn stop_outcome(
        before: Self,
        stopped_at_ms: u64,
        st: Result<CaptureSummary, AppError>,
        sys: Option<SystemAudioCaptureSummary>,
        r: Result<StoppedRecording, AppError>,
    ) -> bool {
        let c = before.active_capture();
        let sc = before.active_system_capture();
        &&& c.handle.stop_of(st)
        &&& match st {
            Err(e) => r == Err::<StoppedRecording, AppError>(e),
            Ok(summary) => {
                &&& (if sc is Some {
                    sys is Some && sc->0.handle.stop_of(sys->0)
                } else {
                    sys is None
                })
                &&& r == Ok::<StoppedRecording, AppError>(
                    StoppedRecording {
                        meeting_id: before.active_meeting_id(),
                        file_path: c.file_path,
                        sample_rate_hz: c.sample_rate_hz,
                        started_at_ms: c.started_at_ms,
                        stopped_at_ms: stopped_at_ms,
                        summary: summary,
                        system_audio: if sc is Some {
                            Some((sc->0.file_path, sys->0))
                        } else {
                            None
                        },
                    },
                )
            },
        }
    }

    /// The microphone capture backend.
    pub closed spec fn backend_view(&self) -> B {
        self.backend
    }

    /// The system-audio capture backend.
    pub closed spec fn system_backend_view(&self) -> S {
        self.system_backend
    }

    /// How a start ends once the microphone answered `mic`, with
    /// `system_capture` (when one was started) already running: a refused
    /// microphone is answered with its own error, the system-audio capture is
    /// stopped (`stopped` is what stopping it gave) and nothing is in flight;
    /// a started microphone makes the recording in flight and is reported.
    pub open spec fn start_completion(
        meeting_id: String,
        system_capture: Option<ActiveSystemAudioCapture<S::Session>>,
        mic: Result<ActiveCapture<B::Session>, AppError>,
        r: Result<RecordingStarted, AppError>,
        stopped: Option<SystemAudioCaptureSummary>,
        after: Self,
    ) -> bool {
        match mic {
            Err(e) => {
                &&& r == Err::<RecordingStarted, AppError>(e)
                &&& !after.recording()
                &&& (if system_capture is Some {
                    stopped is Some && system_capture->0.handle.stop_of(stopped->0)
                } else {
                    stopped is None
                })
            },
            Ok(c) => {
                &&& r == Ok::<RecordingStarted, AppError>(
                    RecordingStarted {
                        meeting_id: meeting_id,
                        file_path: c.file_path,
                        system_audio_file_path: if system_capture is Some {
                            Some(system_capture->0.file_path)
                        } else {
                            None
                        },
                        started_at_ms: c.started_at_ms,
                        sample_rate_hz: c.sample_rate_hz,
                    },
                )
                &&& after.recording()
                &&& after.active_meeting_id() == meeting_id
                &&& after.active_file_path() == c.file_path
                &&& (after.active_has_system_audio() <==> system_capture is Some)
                &&& stopped is None
            },
        }
    }

    /// The steps of a start from a manager with nothing in flight: the
    /// system-audio capture is started first when a path for it is given,
    /// and its refusal is answered with its own error; otherwise the
    /// microphone is asked to start into `file_path` from `device_id`, and
    /// the start ends as [`Self::start_completion`] says.
    pub open spec fn start_steps(
        before: Self,
        meeting_id: String,
        file_path: Seq<char>,
        system_audio_file_path: Option<Seq<char>>,
        device_id: Option<Seq<char>>,
        sys: Option<Result<ActiveSystemAudioCapture<S::Session>, AppError>>,
        mic: Result<ActiveCapture<B::Session>, AppError>,
        stopped: Option<SystemAudioCaptureSummary>,
        r: Result<RecordingStarted, AppError>,
        after: Self,
    ) -> bool {
        &&& (if system_audio_file_path is Some {
            sys is Some && before.system_backend_view().start_capture_of(
                system_audio_file_path->0,
                sys->0,
            )
        } else {
            sys is None
        })
        &&& (if sys is Some && sys->0 is Err {
            r == Err::<RecordingStarted, AppError>(sys->0->Err_0) && !after.recording()
        } else {
            before.backend_view().start_of(file_path, device_id, mic) && Self::start_completion(
                meeting_id,
                if sys is Some {
                    Some(sys->0->Ok_0)
                } else {
                    None
                },
                mic,
                r,
                stopped,
                after,
            )
        })
    }

    pub fn new(backend: B, system_backend: S) -> (r: Self)
        ensures
            !r.recording(),
    {
        RecordingManager { backend, system_backend, active: None }
    }

    pub fn is_recording(&self) -> (r: bool)
        ensures
            r == self.recording(),
    {
        self.active.is_some()
    }

    /// The input devices, as the capture backend lists them.
    pub fn list_audio_devices(&self) -> (r: Result<Vec<AudioDevice>, AppError>)
        ensures
            self.backend_view().input_devices_of(r),
    {
        self.backend.list_input_devices()
    }

    /// Ends a start once the microphone answered, as
    /// [`Self::start_completion`] says; returns what stopping the
    /// system-audio capture gave, when a refused microphone made it stop.
    pub fn finish_start(
        &mut self,
        meeting_id: String,
        system_capture: Option<ActiveSystemAudioCapture<S::Session>>,
        mic: Result<ActiveCapture<B::Session>, AppError>,
    ) -> (r: (Result<RecordingStarted, AppError>, Option<SystemAudioCaptureSummary>))
        requires
            !old(self).recording(),
        ensures
            Self::start_completion(meeting_id, system_capture, mic, r.0, r.1, *final(self)),
            final(self).backend_view() == old(self).backend_view(),
            final(self).system_backend_view() == old(self).system_backend_view(),
    {
        let capture = match mic {
            Ok(capture) => capture,
            Err(error) => {
                let stopped = match system_capture {
                    Some(c) => Some(c.handle.stop()),
                    None => None,
                };
                return (Err(error), stopped);
            },
        };
        let started = RecordingStarted {
            meeting_id: meeting_id.clone(),
            file_path: capture.file_path.clone(),
            system_audio_file_path: match &system_capture {
                Some(c) => Some(c.file_path.clone()),
                None => None,
            },
            started_at_ms: capture.started_at_ms,
            sample_rate_hz: capture.sample_rate_hz,
        };
        self.active = Some(ActiveRecording { meeting_id, capture, system_capture });
        (Ok(started), None)
    }

    /// Starts recording `meeting_id`: system audio first when a path for it
    /// is given, then the microphone. While a recording is in flight this is
    /// `recording_already_active`. If the microphone fails to start, the
    /// system-audio capture already started is stopped again and the
    /// microphone's error is returned; nothing is left in flight. The steps
    /// are as [`Self::start_steps`] says.
    pub fn start_recording(
        &mut self,
        meeting_id: String,
        file_path: String,
        system_audio_file_path: Option<String>,
        device_id: Option<String>,
    ) -> (r: Result<RecordingStarted, AppError>)
        ensures
            old(self).recording() ==> (r matches Err(e) && e.is(
                "recording_already_active"@,
                "Cannot start a new recording while another meeting is recording."@,
            ) && e.details is None),
            old(self).recording() ==> final(self).recording() && final(self).active_meeting_id()
                == old(self).active_meeting_id() && final(self).active_file_path() == old(
                self,
            ).active_file_path(),
            !old(self).recording() ==> exists|
                sys: Option<Result<ActiveSystemAudioCapture<S::Session>, AppError>>,
                mic: Result<ActiveCapture<B::Session>, AppError>,
                stopped: Option<SystemAudioCaptureSummary>,
            |
                #[trigger] Self::start_steps(
                    *old(self),
                    meeting_id,
                    file_path@,
                    opt_view(system_audio_file_path),
                    opt_view(device_id),
                    sys,
                    mic,
                    stopped,
                    r,
                    *final(self),
                ),
            !old(self).recording() ==> (final(self).recording() <==> r is Ok),
            r matches Ok(started) ==> {
                &&& started.meeting_id == meeting_id
                &&& final(self).active_meeting_id() == meeting_id
                &&& started.file_path == final(self).active_file_path()
                &&& (started.system_audio_file_path is Some <==> system_audio_file_path is Some)
                &&& (final(self).active_has_system_audio() <==> system_audio_file_path is Some)
            },
    {
        if self.active.is_some() {
            return Err(
                app_error(
                    "recording_already_active",
                    "Cannot start a new recording while another meeting is recording.",
                    None,
                ),
            );
        }
        let ghost before = *self;
        let ghost sys_path = opt_view(system_audio_file_path);
        let ghost mut sys: Option<Result<ActiveSystemAudioCapture<S::Session>, AppError>> = None;
        let system_capture = match system_audio_file_path {
            Some(path) => {
                let attempt = self.system_backend.start_capture(path);
                proof {
                    sys = Some(attempt);
                }
                match attempt {
                    Ok(c) => Some(c),
                    Err(error) => {
                        let ghost mic_any = Err::<ActiveCapture<B::Session>, AppError>(error);
                        let r = Err(error);
                        assert(Self::start_steps(
                            before,
                            meeting_id,
                            file_path@,
                            sys_path,
                            opt_view(device_id),
                            sys,
                            mic_any,
                            None,
                            r,
                            *self,
                        ));
                        return r;
                    },
                }
            },
            None => None,
        };
        let mic = self.backend.start_recording(file_path, device_id);
        let ghost mic_ghost = mic;
        let (r, stopped) = self.finish_start(meeting_id, system_capture, mic);
        assert(Self::start_steps(
            before,
            meeting_id,
            file_path@,
            sys_path,
            opt_view(device_id),
            sys,
            mic_ghost,
            stopped,
            r,
            *self,
        ));
        r
    }

    /// Stops the recording in flight: the microphone first, then system
    /// audio, as [`Self::stop_outcome`] says. Without one it is
    /// `recording_not_active`. Nothing is in flight afterwards, whatever
    /// happened.
    pub fn stop_recording(&mut self, stopped_at_ms: u64) -> (r: Result<StoppedRecording, AppError>)
        ensures
            !final(self).recording(),
            !old(self).recording() ==> (r matches Err(e) && e.is(
                "recording_not_active"@,
                "Cannot stop recording because no meeting is currently recording."@,
            ) && e.details is None),
            old(self).recording() ==> exists|
                st: Result<CaptureSummary, AppError>,
                sys: Option<SystemAudioCaptureSummary>,
            | #[trigger] Self::stop_outcome(*old(self), stopped_at_ms, st, sys, r),
            r matches Ok(s) ==> {
                &&& old(self).recording()
                &&& s.meeting_id == old(self).active_meeting_id()
                &&& s.file_path == old(self).active_file_path()
                &&& s.stopped_at_ms == stopped_at_ms
                &&& (s.system_audio is Some <==> old(self).active_has_system_audio())
            },
    {
        let ghost before = *self;
        let active = match self.active.take() {
            Some(a) => a,
            None => {
                return Err(
                    app_error(
                        "recording_not_active",
                        "Cannot stop recording because no meeting is currently recording.",
                        None,
                    ),
                );
            },
        };
        let ActiveRecording { meeting_id, capture, system_capture } = active;
        let ActiveCapture { file_path, sample_rate_hz, started_at_ms, handle } = capture;
        let st = handle.stop();
        let ghost st_ghost = st;
        let summary = match st {
            Ok(s) => s,
            Err(e) => {
                let r = Err(e);
                assert(Self::stop_outcome(before, stopped_at_ms, st_ghost, None, r));
                return r;
            },
        };
        let ghost mut sys: Option<SystemAudioCaptureSummary> = None;
        let system_audio = match system_capture {
            Some(c) => {
                let ActiveSystemAudioCapture { file_path: path, handle: h, .. } = c;
                let s = h.stop();
                proof {
                    sys = Some(s);
                }
                Some((path, s))
            },
            None => None,
        };
        let r = Ok(
            StoppedRecording {
                meeting_id,
                file_path,
                sample_rate_hz,
                started_at_ms,
                stopped_at_ms,
                summary,
                system_audio,
            },
        );
        assert(Self::stop_outcome(before, stopped_at_ms, st_ghost, sys, r));
        r
    }
}

} // verus!
