//! The meeting and dictation pipelines between their outside steps: which
//! audio is transcribed, how a failed transcription is retried, how
//! transcript rows are named, what text a dictation finally inserts, and
//! which global hotkeys exist.

use vstd::prelude::*;

use crate::audio::aec::EchoCancellationBackend;
use crate::commands::{normalize_optional_path, normalized_path};
use crate::domain::{app_error, opt_view, AppError, MeetingId, SegmentId, SummarizerProvider};
use crate::text::{
    all_whitespace, chars_equal, chars_of, decimal, decimal_chars, is_blank, push_all, push_str,
    string_of,
};
use crate::rules::{calculate_metrics, metrics_of, MetricsSummary, RuleTranscriptSegment};
use crate::transcription::{
    is_merge_of, is_user_label, merge_dual_track_outputs, segment_is_users, Transcriber,
    TranscriptSegment, TranscriptionOutput,
};

verus! {

/// What a transcription with one retry comes to, given what the first
/// attempt gave and what a second one would give: the first output when the
/// first attempt worked; else the second output; else the second error,
/// with both attempts' codes as its details.
pub open spec fn retried(
    first: Result<TranscriptionOutput, AppError>,
    second: Result<TranscriptionOutput, AppError>,
    r: Result<TranscriptionOutput, AppError>,
) -> bool {
    match (first, second) {
        (Ok(o), _) => r == Ok::<TranscriptionOutput, AppError>(o),
        (Err(_), Ok(o)) => r == Ok::<TranscriptionOutput, AppError>(o),
        (Err(e1), Err(e2)) => r matches Err(e) && e.code == e2.code && e.message == e2.message
            && opt_view(e.details) == Some(
            "first_attempt_code="@ + e1.code@ + ", second_attempt_code="@ + e2.code@,
        ),
    }
}

/// The result after a failed first attempt, given the second attempt's.
pub fn after_second_attempt(
    first_error: AppError,
    second: Result<TranscriptionOutput, AppError>,
) -> (r: Result<TranscriptionOutput, AppError>)
    ensures
        retried(Err(first_error), second, r),
{
    match second {
        Ok(output) => Ok(output),
        Err(second_error) => {
            let mut d = chars_of("first_attempt_code=");
            let f = chars_of(first_error.code.as_str());
            push_all(&mut d, &f);
            push_str(&mut d, ", second_attempt_code=");
            let s = chars_of(second_error.code.as_str());
            push_all(&mut d, &s);
            Err(
                AppError {
                    details: Some(string_of(d.as_slice())),
                    code: second_error.code,
                    message: second_error.message,
                },
            )
        },
    }
}

/// What transcribing `audio_path` with one retry may give: the outcome
/// [`retried`] makes of two answers `transcriber` gives for that file.
pub open spec fn retried_transcription_of<T: Transcriber>(
    transcriber: &T,
    audio_path: Seq<char>,
    r: Result<TranscriptionOutput, AppError>,
) -> bool {
    exists|first: Result<TranscriptionOutput, AppError>, second: Result<TranscriptionOutput, AppError>|
        #[trigger] retried(first, second, r) && transcriber.transcription_of(audio_path, first)
            && transcriber.transcription_of(audio_path, second)
}

/// Transcribes `audio_path`, trying once more if the first attempt fails;
/// what comes back is as [`retried`] says of the two attempts on that file.
pub fn transcribe_audio_with_retry<T: Transcriber>(transcriber: &T, audio_path: &str) -> (r: Result<
    TranscriptionOutput,
    AppError,
>)
    ensures
        retried_transcription_of(transcriber, audio_path@, r),
{
    match transcriber.transcribe(audio_path) {
        Ok(output) => {
            let r = Ok(output);
            assert(retried(r, r, r));
            r
        },
        Err(first_error) => {
            let ghost first = Err::<TranscriptionOutput, AppError>(first_error);
            let second = transcriber.transcribe(audio_path);
            let ghost second_ghost = second;
            let r = after_second_attempt(first_error, second);
            assert(retried(first, second_ghost, r));
            r
        },
    }
}

/// The microphone audio to transcribe: with echo cancellation on and a
/// system-audio track to cancel against, the path the backend answered for
/// this pair of files, or the raw microphone file when it failed; otherwise
/// the raw microphone file.
pub open spec fn transcription_audio_choice<E: EchoCancellationBackend>(
    echo_cancellation: &E,
    enable_echo_cancellation: bool,
    file_path: Seq<char>,
    system_audio_file_path: Option<Seq<char>>,
    r: Seq<char>,
) -> bool {
    if !enable_echo_cancellation || system_audio_file_path is None {
        r == file_path
    } else {
        exists|aec: Result<String, AppError>|
            #[trigger] echo_cancellation.cancellation_of(
                file_path,
                system_audio_file_path->0,
                aec,
            ) && r == path_after_cancellation(file_path, aec)
    }
}

/// The path to transcribe once echo cancellation answered: the cleaned file,
/// or the raw microphone file after a failure.
pub open spec fn path_after_cancellation(file_path: Seq<char>, aec: Result<String, AppError>) -> Seq<
    char,
> {
    match aec {
        Ok(p) => p@,
        Err(_) => file_path,
    }
}

/// The path to transcribe given what echo cancellation answered, as
/// [`path_after_cancellation`] says.
pub fn path_after_echo_cancellation(file_path: &String, aec: Result<String, AppError>) -> (r: String)
    ensures
        r@ == path_after_cancellation(file_path@, aec),
{
    match aec {
        Ok(processed) => processed,
        Err(_) => file_path.clone(),
    }
}

/// The microphone audio to transcribe, as [`transcription_audio_choice`]
/// says: the echo-cancelled file when echo cancellation is on, there is
/// system audio to cancel against, and cancellation worked; otherwise the
/// raw microphone file.
pub fn select_transcription_audio_path<E: EchoCancellationBackend>(
    enable_echo_cancellation: bool,
    file_path: &String,
    system_audio_file_path: &Option<String>,
    echo_cancellation: &E,
) -> (r: String)
    ensures
        transcription_audio_choice(
            echo_cancellation,
            enable_echo_cancellation,
            file_path@,
            opt_view(*system_audio_file_path),
            r@,
        ),
        !enable_echo_cancellation ==> r == *file_path,
        system_audio_file_path is None ==> r == *file_path,
{
    if !enable_echo_cancellation {
        return file_path.clone();
    }
    let system = match system_audio_file_path {
        Some(s) => s,
        None => {
            return file_path.clone();
        },
    };
    let aec = echo_cancellation.process(file_path.as_str(), system.as_str());
    let ghost aec_ghost = aec;
    let r = path_after_echo_cancellation(file_path, aec);
    assert(opt_view(*system_audio_file_path)->0 == system@);
    assert(r@ == path_after_cancellation(file_path@, aec_ghost));
    r
}

/// What a meeting's transcript is, given what transcribing the microphone
/// track gave and, when there is a system-audio track, what transcribing
/// that gave: a failed microphone track fails the meeting; a missing or
/// failed system track leaves the microphone transcript as it is; otherwise
/// the two are merged.
pub open spec fn combined_tracks(
    mic: Result<TranscriptionOutput, AppError>,
    system: Option<Result<TranscriptionOutput, AppError>>,
    r: Result<TranscriptionOutput, AppError>,
) -> bool {
    match mic {
        Err(e) => r == Err::<TranscriptionOutput, AppError>(e),
        Ok(m) => match system {
            None => r == Ok::<TranscriptionOutput, AppError>(m),
            Some(Err(_)) => r == Ok::<TranscriptionOutput, AppError>(m),
            Some(Ok(s)) => if m.segments@.len() + s.segments@.len() <= u32::MAX {
                r matches Ok(o) && is_merge_of(m.segments@, s.segments@, o.segments@)
            } else {
                r matches Err(e) && e.code@ == "too_many_transcript_segments"@
            },
        },
    }
}

/// The meeting's transcript from the two track transcriptions, as
/// [`combined_tracks`] says.
pub fn combine_track_outputs(
    mic: Result<TranscriptionOutput, AppError>,
    system: Option<Result<TranscriptionOutput, AppError>>,
) -> (r: Result<TranscriptionOutput, AppError>)
    ensures
        combined_tracks(mic, system, r),
{
    let microphone_output = match mic {
        Ok(m) => m,
        Err(e) => {
            return Err(e);
        },
    };
    match system {
        None => Ok(microphone_output),
        Some(Err(_)) => Ok(microphone_output),
        Some(Ok(system_output)) => merge_dual_track_outputs(microphone_output, system_output),
    }
}

/// What transcribing a meeting may give: the microphone track is the path
/// [`transcription_audio_choice`] picks, transcribed with one retry; when it
/// worked and a system-audio track was recorded, that track is transcribed
/// the same way, and otherwise it is not transcribed at all; the two are
/// combined as [`combined_tracks`] says.
pub open spec fn meeting_tracks_outcome<T: Transcriber, E: EchoCancellationBackend>(
    transcriber: &T,
    echo_cancellation: &E,
    enable_echo_cancellation: bool,
    file_path: Seq<char>,
    system_audio_file_path: Option<Seq<char>>,
    r: Result<TranscriptionOutput, AppError>,
) -> bool {
    exists|
        mic_path: Seq<char>,
        mic: Result<TranscriptionOutput, AppError>,
        system: Option<Result<TranscriptionOutput, AppError>>,
    |
        #![trigger transcription_audio_choice(echo_cancellation, enable_echo_cancellation, file_path, system_audio_file_path, mic_path), combined_tracks(mic, system, r)]
        transcription_audio_choice(
            echo_cancellation,
            enable_echo_cancellation,
            file_path,
            system_audio_file_path,
            mic_path,
        ) && retried_transcription_of(transcriber, mic_path, mic) && (if mic is Ok
            && system_audio_file_path is Some {
            system matches Some(s) && retried_transcription_of(
                transcriber,
                system_audio_file_path->0,
                s,
            )
        } else {
            system is None
        }) && combined_tracks(mic, system, r)
}

/// Transcribes a meeting: the microphone track (echo-cancelled when
/// possible, see [`select_transcription_audio_path`]) and, when a
/// system-audio track was recorded, that track too, each with one retry;
/// the results are combined as [`combined_tracks`] says. The system track
/// is never transcribed when there is none, nor when the microphone track
/// failed. The whole is as [`meeting_tracks_outcome`] says.
pub fn transcribe_meeting_tracks<T: Transcriber, E: EchoCancellationBackend>(
    enable_echo_cancellation: bool,
    file_path: &String,
    system_audio_file_path: &Option<String>,
    transcriber: &T,
    echo_cancellation: &E,
) -> (r: Result<TranscriptionOutput, AppError>)
    ensures
        meeting_tracks_outcome(
            transcriber,
            echo_cancellation,
            enable_echo_cancellation,
            file_path@,
            opt_view(*system_audio_file_path),
            r,
        ),
{
    let microphone_audio_path = select_transcription_audio_path(
        enable_echo_cancellation,
        file_path,
        system_audio_file_path,
        echo_cancellation,
    );
    let mic = transcribe_audio_with_retry(transcriber, microphone_audio_path.as_str());
    let system = match (&mic, system_audio_file_path) {
        (Ok(_), Some(path)) => {
            let s = transcribe_audio_with_retry(transcriber, path.as_str());
            assert(opt_view(*system_audio_file_path)->0 == path@);
            Some(s)
        },
        _ => None,
    };
    let ghost mic_ghost = mic;
    let ghost system_ghost = system;
    let r = combine_track_outputs(mic, system);
    assert(transcription_audio_choice(
        echo_cancellation,
        enable_echo_cancellation,
        file_path@,
        opt_view(*system_audio_file_path),
        microphone_audio_path@,
    ));
    assert(combined_tracks(mic_ghost, system_ghost, r));
    r
}

/// The user's own segments, in order, as input to the speaking rules:
/// segments labelled as another participant's are left out.
pub open spec fn user_rule_segments(segs: Seq<TranscriptSegment>) -> Seq<RuleTranscriptSegment>
    decreases segs.len(),
{
    if segs.len() == 0 {
        seq![]
    } else {
        let rest = user_rule_segments(segs.drop_last());
        let s = segs.last();
        if is_user_label(opt_view(s.speaker_label)) {
            rest.push(
                RuleTranscriptSegment {
                    text: s.text,
                    started_at_ms: s.started_at_ms,
                    ended_at_ms: s.ended_at_ms,
                },
            )
        } else {
            rest
        }
    }
}

/// A meeting's speaking metrics: they coach the user's own speaking, so the
/// rules run over the user's segments only.
pub fn meeting_speech_metrics(segments: &Vec<TranscriptSegment>) -> (r: MetricsSummary)
    ensures
        r == metrics_of(user_rule_segments(segments@)),
{
    let mut rule_segments: Vec<RuleTranscriptSegment> = Vec::new();
    let mut i: usize = 0;
    while i < segments.len()
        invariant
            i <= segments@.len(),
            rule_segments@ == user_rule_segments(segments@.take(i as int)),
        decreases segments.len() - i,
    {
        assert(segments@.take(i + 1).drop_last() =~= segments@.take(i as int));
        let s = &segments[i];
        if segment_is_users(s) {
            rule_segments.push(
                RuleTranscriptSegment {
                    text: s.text.clone(),
                    started_at_ms: s.started_at_ms,
                    ended_at_ms: s.ended_at_ms,
                },
            );
        }
        i = i + 1;
    }
    assert(segments@.take(i as int) =~= segments@);
    calculate_metrics(rule_segments.as_slice())
}

/// `{meeting}-segment-{sequence}`.
pub fn transcript_segment_id(meeting_id: &MeetingId, sequence_number: u32) -> (r: SegmentId)
    ensures
        r@ == meeting_id@ + "-segment-"@ + decimal(sequence_number as nat),
{
    let mut v = chars_of(meeting_id.as_str());
    push_str(&mut v, "-segment-");
    let d = decimal_chars(sequence_number as u64);
    push_all(&mut v, &d);
    let s = string_of(v.as_slice());
    SegmentId::new(s.as_str())
}

/// A transcript's segment count as stored; more than `u32::MAX` segments is
/// `too_many_transcript_segments`.
pub fn transcript_segment_count(len: usize) -> (r: Result<u32, AppError>)
    ensures
        len <= u32::MAX ==> r == Ok::<u32, AppError>(len as u32),
        len > u32::MAX ==> (r matches Err(e) && e.is(
            "too_many_transcript_segments"@,
            "Transcription produced too many transcript segments."@,
        ) && opt_view(e.details) == Some("out of range integral type conversion attempted"@)),
{
    if len <= u32::MAX as usize {
        Ok(len as u32)
    } else {
        Err(
            app_error(
                "too_many_transcript_segments",
                "Transcription produced too many transcript segments.",
                Some("out of range integral type conversion attempted".to_owned()),
            ),
        )
    }
}

fn meeting_detail(meeting_id: &MeetingId) -> (r: String)
    ensures
        r@ == "meeting_id="@ + meeting_id@,
{
    let mut v = chars_of("meeting_id=");
    let m = chars_of(meeting_id.as_str());
    push_all(&mut v, &m);
    string_of(v.as_slice())
}

/// A meeting is transcribed once; one that has segments already is refused.
pub fn ensure_transcript_is_empty(meeting_id: &MeetingId, existing_segments: usize) -> (r: Result<
    (),
    AppError,
>)
    ensures
        r is Ok <==> existing_segments == 0,
        r matches Err(e) ==> e.is(
            "transcript_already_exists"@,
            "Meeting already has transcript segments. Re-transcription is not supported yet."@,
        ) && opt_view(e.details) == Some(
            "meeting_id="@ + meeting_id@ + ", segment_count="@ + decimal(existing_segments as nat),
        ),
{
    if existing_segments == 0 {
        return Ok(());
    }
    let mut v = chars_of(meeting_detail(meeting_id).as_str());
    push_str(&mut v, ", segment_count=");
    let d = decimal_chars(existing_segments as u64);
    push_all(&mut v, &d);
    Err(
        app_error(
            "transcript_already_exists",
            "Meeting already has transcript segments. Re-transcription is not supported yet.",
            Some(string_of(v.as_slice())),
        ),
    )
}

/// Notes need a transcript.
pub fn transcript_not_found(meeting_id: &MeetingId) -> (e: AppError)
    ensures
        e.is("transcript_not_found"@, "Transcribe this meeting before generating notes."@),
        opt_view(e.details) == Some("meeting_id="@ + meeting_id@),
{
    app_error(
        "transcript_not_found",
        "Transcribe this meeting before generating notes.",
        Some(meeting_detail(meeting_id)),
    )
}

/// The model that writes a meeting's notes: the requested one, trimmed,
/// when it is not blank; else the one configured in settings; else, with LM
/// Studio as the provider, `lm_studio_default`; else none.
pub open spec fn summarizer_model_choice(
    requested: Option<Seq<char>>,
    configured: Option<Seq<char>>,
    provider: SummarizerProvider,
    lm_studio_default: Seq<char>,
) -> Option<Seq<char>> {
    match normalized_path(requested) {
        Some(m) => Some(m),
        None => match configured {
            Some(c) => Some(c),
            None => if provider == SummarizerProvider::LmStudio {
                Some(lm_studio_default)
            } else {
                None
            },
        },
    }
}

/// Picks the summarizer model as [`summarizer_model_choice`] says; with no
/// model to use it is `summarizer_model_not_configured`.
pub fn select_summarizer_model(
    requested: Option<String>,
    configured: Option<String>,
    provider: SummarizerProvider,
    lm_studio_default: &str,
) -> (r: Result<String, AppError>)
    ensures
        summarizer_model_choice(
            opt_view(requested),
            opt_view(configured),
            provider,
            lm_studio_default@,
        ) matches Some(m) ==> (r matches Ok(s) && s@ == m),
        summarizer_model_choice(
            opt_view(requested),
            opt_view(configured),
            provider,
            lm_studio_default@,
        ) is None ==> (r matches Err(e) && e.is(
            "summarizer_model_not_configured"@,
            "Choose a local model in Settings before generating notes."@,
        ) && e.details is None),
{
    if let Some(explicit) = normalize_optional_path(requested) {
        return Ok(explicit);
    }
    match configured {
        Some(c) => Ok(c),
        None => match provider {
            SummarizerProvider::LmStudio => Ok(String::from_str(lm_studio_default)),
            _ => Err(
                app_error(
                    "summarizer_model_not_configured",
                    "Choose a local model in Settings before generating notes.",
                    None,
                ),
            ),
        },
    }
}

/// A history detail for a meeting that does not exist.
pub fn meeting_not_found(meeting_id: &MeetingId) -> (e: AppError)
    ensures
        e.is(
            "meeting_not_found"@,
            "Meeting history detail could not be loaded because the meeting does not exist."@,
        ),
        opt_view(e.details) == Some("meeting_id="@ + meeting_id@),
{
    app_error(
        "meeting_not_found",
        "Meeting history detail could not be loaded because the meeting does not exist.",
        Some(meeting_detail(meeting_id)),
    )
}

/// Whether the history detail shows only part of the transcript: one more
/// row than the limit was fetched to find out.
pub fn transcript_truncated(fetched_rows: usize) -> (r: bool)
    ensures
        r == (fetched_rows > crate::commands::HISTORY_DETAIL_TRANSCRIPT_LIMIT),
{
    fetched_rows > crate::commands::HISTORY_DETAIL_TRANSCRIPT_LIMIT as usize
}

/// The id of a meeting offered when a call is detected: `meeting-{now}`.
pub fn detected_meeting_id(now_ms: u64) -> (r: String)
    ensures
        r@ == "meeting-"@ + decimal(now_ms as nat),
{
    let mut v = chars_of("meeting-");
    let d = decimal_chars(now_ms);
    push_all(&mut v, &d);
    string_of(v.as_slice())
}

/// Whether a dictation's transcript goes through polish: only when polish is
/// on and there is something to polish.
pub fn should_polish_dictation(polish_enabled: bool, text: &str) -> (r: bool)
    ensures
        r == (polish_enabled && !is_blank(text@)),
{
    let cs = chars_of(text);
    polish_enabled && !all_whitespace(&cs)
}

/// The text a dictation inserts after polishing: the polished text when
/// polish worked and said something, else the raw transcript.
pub fn text_after_polish(raw: String, polished: Result<String, AppError>) -> (r: String)
    ensures
        r == match polished {
            Ok(p) => if is_blank(p@) {
                raw
            } else {
                p
            },
            Err(_) => raw,
        },
{
    match polished {
        Ok(p) => {
            let cs = chars_of(p.as_str());
            if all_whitespace(&cs) {
                raw
            } else {
                p
            }
        },
        Err(_) => raw,
    }
}

/// The keys a global hotkey can end in.
#[derive(Debug, Clone, Copy, PartialEq, Eq, Structural)]
pub enum HotkeyKey {
    D,
    P,
    Space,
}

/// A global shortcut: its modifiers and its key.
#[derive(Debug, Clone, Copy, PartialEq, Eq, Structural)]
pub struct HotkeyShortcut {
    pub command: bool,
    pub shift: bool,
    pub control: bool,
    pub option: bool,
    pub key: HotkeyKey,
}

/// The vetted hotkey tokens and the shortcut each stands for.
pub open spec fn shortcut_of(token: Seq<char>) -> Option<HotkeyShortcut> {
    if token == "cmd+shift+d"@ {
        Some(HotkeyShortcut { command: true, shift: true, control: false, option: false, key: HotkeyKey::D })
    } else if token == "ctrl+option+d"@ {
        Some(HotkeyShortcut { command: false, shift: false, control: true, option: true, key: HotkeyKey::D })
    } else if token == "cmd+shift+space"@ {
        Some(HotkeyShortcut { command: true, shift: true, control: false, option: false, key: HotkeyKey::Space })
    } else if token == "ctrl+option+p"@ {
        Some(HotkeyShortcut { command: false, shift: false, control: true, option: true, key: HotkeyKey::P })
    } else {
        None
    }
}

/// The shortcut for a persisted hotkey token, or nothing for an unknown one.
pub fn hotkey_shortcut_for(token: &str) -> (r: Option<HotkeyShortcut>)
    ensures
        r == shortcut_of(token@),
{
    let t = chars_of(token);
    let a = chars_of("cmd+shift+d");
    let b = chars_of("ctrl+option+d");
    let c = chars_of("cmd+shift+space");
    let d = chars_of("ctrl+option+p");
    if chars_equal(&t, &a) {
        Some(HotkeyShortcut { command: true, shift: true, control: false, option: false, key: HotkeyKey::D })
    } else if chars_equal(&t, &b) {
        Some(HotkeyShortcut { command: false, shift: false, control: true, option: true, key: HotkeyKey::D })
    } else if chars_equal(&t, &c) {
        Some(HotkeyShortcut { command: true, shift: true, control: false, option: false, key: HotkeyKey::Space })
    } else if chars_equal(&t, &d) {
        Some(HotkeyShortcut { command: false, shift: false, control: true, option: true, key: HotkeyKey::P })
    } else {
        None
    }
}

/// The error for an unknown hotkey token, under `{error_code}_unsupported`.
pub fn unsupported_hotkey(error_code: &str, token: &str) -> (e: AppError)
    ensures
        e.code@ == error_code@ + "_unsupported"@,
        e.message@ == "Unsupported hotkey: "@ + token@,
        e.details is None,
{
    let mut code = chars_of(error_code);
    push_str(&mut code, "_unsupported");
    let mut m = chars_of("Unsupported hotkey: ");
    let t = chars_of(token);
    push_all(&mut m, &t);
    AppError { code: string_of(code.as_slice()), message: string_of(m.as_slice()), details: None }
}

/// The shortcut to unregister before registering `new_token`: the previous
/// one, when it is a different, known token.
pub fn shortcut_to_unregister(previous_token: Option<&str>, new_token: &str) -> (r: Option<
    HotkeyShortcut,
>)
    ensures
        r == match previous_token {
            Some(p) => if p@ != new_token@ {
                shortcut_of(p@)
            } else {
                None
            },
            None => None,
        },
{
    match previous_token {
        Some(p) => {
            let pc = chars_of(p);
            let nc = chars_of(new_token);
            if !chars_equal(&pc, &nc) {
                hotkey_shortcut_for(p)
            } else {
                None
            }
        },
        None => None,
    }
}

} // verus!
