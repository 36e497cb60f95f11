//! Push-to-talk dictation capture: one microphone recording at a time, kept
//! between the press that starts a dictation and the one that ends it, and
//! the flattening of its transcript into one line of insertable text.

use vstd::prelude::*;

use crate::audio::capture::{
    current_time_ms, ActiveCapture, AudioCaptureBackend, CaptureSessionHandle, CaptureSummary,
};
use crate::domain::{app_error, opt_view, AppError};
use crate::text::{
    chars_of, decimal, decimal_chars, is_blank, lemma_decimal_digits, lemma_decimal_injective,
    lemma_split_at_separator, push_all, push_str, string_of, trim_chars, trimmed,
};
use crate::transcription::{Transcriber, TranscriptSegment, TranscriptionOutput};

verus! {

/// Numbers handed out in order, so that ids made in the same millisecond
/// still differ.
pub struct DictationSequence {
    next: u64,
}

impl DictationSequence {
    pub closed spec fn next_value(&self) -> u64 {
        self.next
    }

    pub fn new() -> (r: Self)
        ensures
            r.next_value() == 0,
    {
        DictationSequence { next: 0 }
    }

    /// The next number; after `u64::MAX` it starts again at zero, as an
    /// atomic `fetch_add` wraps.
    pub fn take(&mut self) -> (r: u64)
        ensures
            r == old(self).next_value(),
            final(self).next_value() == if r == u64::MAX {
                0
            } else {
                (r + 1) as u64
            },
    {
        let r = self.next;
        self.next = if r == u64::MAX {
            0
        } else {
            r + 1
        };
        r
    }
}

/// `dictation-session-{stamp}-{sequence}`.
pub open spec fn session_id_text(stamp_ms: nat, sequence: nat) -> Seq<char> {
    "dictation-session-"@ + decimal(stamp_ms) + "-"@ + decimal(sequence)
}

/// `scribe-dictation-{stamp}-{sequence}.wav`.
pub open spec fn clip_file_name_text(stamp_ms: nat, sequence: nat) -> Seq<char> {
    "scribe-dictation-"@ + decimal(stamp_ms) + "-"@ + decimal(sequence) + ".wav"@
}

/// The id of a dictation session summary row.
pub fn dictation_session_id(stamp_ms: u64, sequence: u64) -> (r: String)
    ensures
        r@ == session_id_text(stamp_ms as nat, sequence as nat),
{
    let mut v = chars_of("dictation-session-");
    let stamp = decimal_chars(stamp_ms);
    push_all(&mut v, &stamp);
    push_str(&mut v, "-");
    let seq = decimal_chars(sequence);
    push_all(&mut v, &seq);
    string_of(v.as_slice())
}

/// The file name of a temporary dictation clip.
pub fn dictation_clip_file_name(stamp_ms: u64, sequence: u64) -> (r: String)
    ensures
        r@ == clip_file_name_text(stamp_ms as nat, sequence as nat),
{
    let mut v = chars_of("scribe-dictation-");
    let stamp = decimal_chars(stamp_ms);
    push_all(&mut v, &stamp);
    push_str(&mut v, "-");
    let seq = decimal_chars(sequence);
    push_all(&mut v, &seq);
    push_str(&mut v, ".wav");
    string_of(v.as_slice())
}

/// The session id for sequence number `sequence` once the clock has been
/// read: stamped with the reading, or the clock's error as it is.
pub fn session_id_after_reading(sequence: u64, reading: Result<u64, AppError>) -> (r: Result<
    String,
    AppError,
>)
    ensures
        reading matches Ok(stamp) ==> (r matches Ok(id) && id@ == session_id_text(
            stamp as nat,
            sequence as nat,
        )),
        reading matches Err(e) ==> r == Err::<String, AppError>(e),
{
    match reading {
        Ok(stamp) => Ok(dictation_session_id(stamp, sequence)),
        Err(e) => Err(e),
    }
}

/// A new session id: takes the next number of `sequence` (whether or not
/// the clock can be read, as an atomic counter would), then stamps the id
/// with the wall clock, as [`session_id_after_reading`] says. A clock set
/// before the epoch is a `system_time_error`.
pub fn new_dictation_session_id(sequence: &mut DictationSequence) -> (r: Result<String, AppError>)
    ensures
        final(sequence).next_value() == if old(sequence).next_value() == u64::MAX {
            0
        } else {
            (old(sequence).next_value() + 1) as u64
        },
        r matches Ok(id) ==> exists|stamp: u64|
            id@ == session_id_text(stamp as nat, old(sequence).next_value() as nat),
        r matches Err(e) ==> e.is(
            "system_time_error"@,
            "System clock is before the Unix epoch."@,
        ),
{
    let n = sequence.take();
    let reading = current_time_ms();
    session_id_after_reading(n, reading)
}

/// Session ids made from different stamps or different numbers differ.
pub proof fn law_session_ids_distinct(s1: nat, q1: nat, s2: nat, q2: nat)
    requires
        s1 != s2 || q1 != q2,
    ensures
        session_id_text(s1, q1) != session_id_text(s2, q2),
{
    if session_id_text(s1, q1) == session_id_text(s2, q2) {
        reveal_strlit("-");
        assert("-"@ =~= seq!['-']);
        lemma_decimal_digits(s1);
        lemma_decimal_digits(s2);
        assert(forall|i: int| 0 <= i < decimal(s1).len() ==> decimal(s1)[i] != '-');
        assert(forall|i: int| 0 <= i < decimal(s2).len() ==> decimal(s2)[i] != '-');
        lemma_split_at_separator(
            "dictation-session-"@,
            decimal(s1),
            decimal(q1),
            decimal(s2),
            decimal(q2),
            '-',
        );
        lemma_decimal_injective(s1, s2);
        lemma_decimal_injective(q1, q2);
    }
}

/// Holds the one push-to-talk capture that may be in flight.
pub struct DictationRecorder<B: AudioCaptureBackend> {
    backend: B,
    active: Option<ActiveCapture<B::Session>>,
}

impl<B: AudioCaptureBackend> DictationRecorder<B> {
    pub closed spec fn recording(&self) -> bool {
        self.active is Some
    }

    /// Path of the capture in flight.
    pub closed spec fn active_path(&self) -> Seq<char> {
        self.active->0.file_path@
    }

    /// Start time of the capture in flight.
    pub closed spec fn active_started_at_ms(&self) -> u64 {
        self.active->0.started_at_ms
    }

    /// The session handle of the capture in flight.
    pub closed spec fn active_handle(&self) -> B::Session {
        self.active->0.handle
    }

    /// The capture backend.
    pub closed spec fn backend_view(&self) -> B {
        self.backend
    }

    pub fn new(backend: B) -> (r: Self)
        ensures
            !r.recording(),
    {
        DictationRecorder { backend, active: None }
    }

    pub fn is_recording(&self) -> (r: bool)
        ensures
            r == self.recording(),
    {
        self.active.is_some()
    }

    /// Starts recording the microphone to `file_path`. A second start while
    /// one is in flight is `dictation_already_recording` and changes nothing.
    /// Otherwise the backend is asked to start into `file_path` from
    /// `device_id`: the capture it started is the one in flight, or its
    /// error is returned and nothing is in flight.
    pub fn start(&mut self, file_path: String, device_id: Option<String>) -> (r: Result<
        (),
        AppError,
    >)
        ensures
            old(self).recording() ==> (r matches Err(e) && e.is(
                "dictation_already_recording"@,
                "A dictation is already recording."@,
            ) && e.details is None),
            old(self).recording() ==> final(self).recording() && final(self).active_path()
                == old(self).active_path() && final(self).active_started_at_ms() == old(
                self,
            ).active_started_at_ms(),
            !old(self).recording() ==> (final(self).recording() <==> r is Ok),
            !old(self).recording() ==> exists|started: Result<ActiveCapture<B::Session>, AppError>|
                #[trigger] old(self).backend_view().start_of(
                    file_path@,
                    opt_view(device_id),
                    started,
                ) && match started {
                    Ok(c) => r is Ok && final(self).active_path() == c.file_path@
                        && final(self).active_started_at_ms() == c.started_at_ms
                        && final(self).active_handle() == c.handle,
                    Err(e) => r == Err::<(), AppError>(e),
                },
            final(self).backend_view() == old(self).backend_view(),
    {
        if self.active.is_some() {
            return Err(dictation_already_recording());
        }
        let ghost device = opt_view(device_id);
        let ghost path = file_path@;
        let started = self.backend.start_recording(file_path, device_id);
        let ghost started_ghost = started;
        match started {
            Ok(capture) => {
                self.active = Some(capture);
            },
            Err(e) => {
                assert(old(self).backend_view().start_of(path, device, started_ghost));
                return Err(e);
            },
        }
        assert(old(self).backend_view().start_of(path, device, started_ghost));
        Ok(())
    }

    /// Stops the capture in flight and returns its file path and start time,
    /// or the error stopping it gave. Without one it is
    /// `dictation_not_recording`. Either way nothing is in flight afterwards.
    pub fn finish(&mut self) -> (r: Result<(String, u64), AppError>)
        ensures
            !final(self).recording(),
            !old(self).recording() ==> (r matches Err(e) && e.is(
                "dictation_not_recording"@,
                "No dictation is currently recording."@,
            ) && e.details is None),
            old(self).recording() ==> exists|stopped: Result<CaptureSummary, AppError>|
                #[trigger] old(self).active_handle().stop_of(stopped) && match stopped {
                    Ok(_) => r matches Ok((path, started)) && path@ == old(self).active_path()
                        && started == old(self).active_started_at_ms(),
                    Err(e) => r == Err::<(String, u64), AppError>(e),
                },
            r matches Ok((path, started)) ==> old(self).recording() && path@ == old(
                self,
            ).active_path() && started == old(self).active_started_at_ms(),
            final(self).backend_view() == old(self).backend_view(),
    {
        let capture = match self.active.take() {
            Some(c) => c,
            None => {
                return Err(dictation_not_recording());
            },
        };
        let ActiveCapture { file_path, started_at_ms, handle, .. } = capture;
        let ghost h = handle;
        let stopped = handle.stop();
        let ghost stopped_ghost = stopped;
        match stopped {
            Ok(_) => {},
            Err(e) => {
                assert(old(self).active_handle().stop_of(stopped_ghost));
                return Err(e);
            },
        }
        assert(old(self).active_handle().stop_of(stopped_ghost));
        Ok((file_path, started_at_ms))
    }
}

/// Whisper's non-speech annotations are wholly wrapped in brackets or
/// parentheses: `[BLANK_AUDIO]`, `[ Silence ]`, `(wind blowing)`.
pub open spec fn is_non_speech_marker(t: Seq<char>) -> bool {
    t.len() >= 1 && ((t[0] == '[' && t.last() == ']') || (t[0] == '(' && t.last() == ')'))
}

/// The segment texts that make it into a dictation: each trimmed, blanks and
/// non-speech annotations dropped, in order.
pub open spec fn kept_texts(segs: Seq<TranscriptSegment>) -> Seq<Seq<char>>
    decreases segs.len(),
{
    if segs.len() == 0 {
        seq![]
    } else {
        let rest = kept_texts(segs.drop_last());
        let t = trimmed(segs.last().text@);
        if t.len() > 0 && !is_non_speech_marker(t) {
            rest.push(t)
        } else {
            rest
        }
    }
}

/// `parts` joined with single spaces.
pub open spec fn join_with_spaces(parts: Seq<Seq<char>>) -> Seq<char>
    decreases parts.len(),
{
    if parts.len() == 0 {
        seq![]
    } else if parts.len() == 1 {
        parts[0]
    } else {
        join_with_spaces(parts.drop_last()) + seq![' '] + parts.last()
    }
}

pub open spec fn transcript_text(output: TranscriptionOutput) -> Seq<char> {
    join_with_spaces(kept_texts(output.segments@))
}

fn non_speech_marker(t: &Vec<char>) -> (r: bool)
    ensures
        r == is_non_speech_marker(t@),
{
    if t.len() == 0 {
        return false;
    }
    let first = t[0];
    let last = t[t.len() - 1];
    (first == '[' && last == ']') || (first == '(' && last == ')')
}

/// Flattens a transcript into one line of dictated text.
pub fn transcript_to_text(output: &TranscriptionOutput) -> (r: String)
    ensures
        r@ == transcript_text(*output),
{
    let segs = &output.segments;
    let mut out: Vec<char> = Vec::new();
    let mut kept: usize = 0;
    let mut i: usize = 0;
    while i < segs.len()
        invariant
            i <= segs@.len(),
            *segs == output.segments,
            kept == kept_texts(segs@.take(i as int)).len(),
            kept <= i,
            out@ == join_with_spaces(kept_texts(segs@.take(i as int))),
        decreases segs.len() - i,
    {
        assert(segs@.take(i + 1).drop_last() =~= segs@.take(i as int));
        let raw = chars_of(segs[i].text.as_str());
        let t = trim_chars(&raw);
        let ghost prev = kept_texts(segs@.take(i as int));
        let ghost prev_out = out@;
        if t.len() > 0 && !non_speech_marker(&t) {
            if kept > 0 {
                out.push(' ');
            }
            push_all(&mut out, &t);
            proof {
                let parts = prev.push(t@);
                assert(kept_texts(segs@.take(i + 1)) == parts);
                assert(parts.drop_last() =~= prev);
                if kept > 0 {
                    assert(out@ =~= prev_out + seq![' '] + t@);
                } else {
                    assert(out@ =~= t@);
                }
            }
            kept = kept + 1;
        }
        i = i + 1;
    }
    assert(segs@.take(i as int) =~= segs@);
    string_of(out.as_slice())
}

/// What a dictation clip's transcription comes to: the transcript as one
/// line of text, or the transcriber's error as it is.
pub open spec fn clip_text_result(
    transcribed: Result<TranscriptionOutput, AppError>,
    r: Result<String, AppError>,
) -> bool {
    match transcribed {
        Ok(output) => r matches Ok(text) && text@ == transcript_text(output),
        Err(e) => r == Err::<String, AppError>(e),
    }
}

/// The dictated text from what the transcriber gave, as
/// [`clip_text_result`] says.
pub fn clip_text_from(transcribed: Result<TranscriptionOutput, AppError>) -> (r: Result<
    String,
    AppError,
>)
    ensures
        clip_text_result(transcribed, r),
{
    match transcribed {
        Ok(output) => Ok(transcript_to_text(&output)),
        Err(e) => Err(e),
    }
}

/// Transcribes a dictation clip and flattens it into one line of text, as
/// [`clip_text_result`] says of what the transcriber answered for that file.
pub fn transcribe_clip<T: Transcriber>(transcriber: &T, wav_path: &str) -> (r: Result<
    String,
    AppError,
>)
    ensures
        exists|transcribed: Result<TranscriptionOutput, AppError>|
            #[trigger] clip_text_result(transcribed, r) && transcriber.transcription_of(
                wav_path@,
                transcribed,
            ),
{
    let transcribed = transcriber.transcribe(wav_path);
    let ghost t = transcribed;
    let r = clip_text_from(transcribed);
    assert(clip_text_result(t, r));
    r
}

fn dictation_already_recording() -> (e: AppError)
    ensures
        e.is("dictation_already_recording"@, "A dictation is already recording."@),
        e.details is None,
{
    app_error("dictation_already_recording", "A dictation is already recording.", None)
}

fn dictation_not_recording() -> (e: AppError)
    ensures
        e.is("dictation_not_recording"@, "No dictation is currently recording."@),
        e.details is None,
{
    app_error("dictation_not_recording", "No dictation is currently recording.", None)
}

} // verus!
