//! The verified half of offline acoustic echo cancellation: which files it
//! reads and writes, which inputs must be converted first, the 48 kHz mono
//! 16-bit format it needs, and how a recording is cut into fixed-size frames
//! for the canceller and stitched back together.

use vstd::prelude::*;

use super::wav::{decode_wav, pcm16_mono_wav, wav_decoding, WavFormat};
use crate::domain::{app_error, AppError};
use crate::paths::{
    extension, extension_of_name, file_name, file_name_chars, file_stem, last_component,
    last_index, lemma_file_name_of_join, lemma_last_component_has_no_slash, lemma_last_index,
    split_name, stem_of_name, with_file_name, with_file_name_chars,
};
use crate::text::{chars_equal, chars_of, lower_seq, lowercase_chars, push_all, push_str, string_of};

verus! {

pub const EXPECTED_SAMPLE_RATE: u32 = 48_000;

pub const EXPECTED_CHANNELS: u16 = 1;

pub const EXPECTED_BITS_PER_SAMPLE: u16 = 16;

pub const DEFAULT_FRAME_SIZE: usize = 480;

pub const DEFAULT_FILTER_LENGTH: i32 = 9_600;

/// Suffix of the converted system-audio reference track.
pub const AEC_REFERENCE_SUFFIX: &'static str = "aec-reference";

/// Suffix of the converted microphone track.
pub const AEC_MICROPHONE_SUFFIX: &'static str = "aec-input";

/// The echo-cancelled microphone file sits next to the raw one:
/// `<dir>/<stem>.aec.wav`. Only a `.wav` microphone track is accepted.
pub fn echo_cancelled_path(microphone_wav_path: &str) -> (r: Result<String, AppError>)
    ensures
        r is Ok <==> extension(microphone_wav_path@) == Some("wav"@),
        r matches Ok(p) ==> p@ == with_file_name(
            microphone_wav_path@,
            file_stem(microphone_wav_path@)->0 + ".aec.wav"@,
        ),
        r matches Err(e) ==> {
            &&& e.code@ == "aec_unsupported_mic_format"@
            &&& e.message@ == "Echo cancellation requires a microphone WAV file."@
            &&& e.details matches Some(d) && d@ == "path="@ + microphone_wav_path@
        },
{
    let p = chars_of(microphone_wav_path);
    let name = file_name_chars(&p);
    let wav = chars_of("wav");
    let stem = match name {
        Some(n) => {
            let (stem, ext) = split_name(&n);
            let is_wav = match ext {
                Some(e) => chars_equal(&e, &wav),
                None => false,
            };
            if is_wav {
                Some(stem)
            } else {
                None
            }
        },
        None => None,
    };
    match stem {
        Some(mut stem) => {
            push_str(&mut stem, ".aec.wav");
            let out = with_file_name_chars(&p, &stem);
            Ok(string_of(out.as_slice()))
        },
        None => {
            let mut d = chars_of("path=");
            push_str(&mut d, microphone_wav_path);
            Err(
                app_error(
                    "aec_unsupported_mic_format",
                    "Echo cancellation requires a microphone WAV file.",
                    Some(string_of(d.as_slice())),
                ),
            )
        },
    }
}

/// The echo-cancelled file of a `.wav` microphone track is named
/// `<stem>.aec.wav`, and is never the microphone file itself.
pub proof fn law_echo_cancelled_path_is_a_new_file(p: Seq<char>)
    requires
        extension(p) == Some("wav"@),
    ensures
        file_name(with_file_name(p, file_stem(p)->0 + ".aec.wav"@)) == Some(
            file_stem(p)->0 + ".aec.wav"@,
        ),
        with_file_name(p, file_stem(p)->0 + ".aec.wav"@) != p,
{
    reveal_strlit("wav");
    reveal_strlit(".aec.wav");
    let n = last_component(p);
    let i = last_index(n, '.');
    lemma_last_index(n, '.');
    lemma_last_component_has_no_slash(p);
    let stem = stem_of_name(n);
    assert(stem =~= n.take(i));
    let name = stem + ".aec.wav"@;
    assert(n.skip(i + 1) == "wav"@);
    assert(n.len() == i + 4);
    assert forall|k: int| 0 <= k < name.len() implies name[k] != '/' by {
        if k < stem.len() {
            assert(name[k] == n[k]);
        }
    }
    lemma_file_name_of_join(crate::paths::parent_part(p), name);
    assert(name.len() == i + 8);
}

/// Where a converted copy of `source_path` goes: `<dir>/<stem>.<suffix>.wav`.
pub fn normalized_aec_wav_path(source_path: &str, suffix: &str) -> (r: Result<String, AppError>)
    ensures
        r is Ok <==> file_stem(source_path@) is Some,
        r matches Ok(p) ==> p@ == with_file_name(
            source_path@,
            file_stem(source_path@)->0 + "."@ + suffix@ + ".wav"@,
        ),
        r matches Err(e) ==> {
            &&& e.code@ == "aec_invalid_reference_path"@
            &&& e.message@ == "Could not derive the normalized audio path for echo cancellation."@
            &&& e.details matches Some(d) && d@ == "path="@ + source_path@
        },
{
    let p = chars_of(source_path);
    match file_name_chars(&p) {
        Some(n) => {
            let (mut stem, _ext) = split_name(&n);
            push_str(&mut stem, ".");
            push_str(&mut stem, suffix);
            push_str(&mut stem, ".wav");
            let out = with_file_name_chars(&p, &stem);
            Ok(string_of(out.as_slice()))
        },
        None => {
            let mut d = chars_of("path=");
            push_str(&mut d, source_path);
            Err(
                app_error(
                    "aec_invalid_reference_path",
                    "Could not derive the normalized audio path for echo cancellation.",
                    Some(string_of(d.as_slice())),
                ),
            )
        },
    }
}

/// Whether a path names a `.wav` file, ignoring ASCII case.
pub open spec fn has_wav_extension(p: Seq<char>) -> bool {
    extension(p) matches Some(e) && lower_seq(e) == "wav"@
}

pub fn path_has_wav_extension(path: &str) -> (b: bool)
    ensures
        b == has_wav_extension(path@),
{
    let p = chars_of(path);
    let wav = chars_of("wav");
    match file_name_chars(&p) {
        Some(n) => {
            let (_stem, ext) = split_name(&n);
            match ext {
                Some(e) => {
                    let lower = lowercase_chars(&e);
                    chars_equal(&lower, &wav)
                },
                None => false,
            }
        },
        None => false,
    }
}

/// A WAV header describing 48 kHz mono signed 16-bit PCM.
pub open spec fn is_aec_format(channels: u16, rate: u32, bits: u16, integer: bool) -> bool {
    channels == EXPECTED_CHANNELS && rate == EXPECTED_SAMPLE_RATE && bits
        == EXPECTED_BITS_PER_SAMPLE && integer
}

/// Whether WAV bytes decode to a header in the format echo cancellation needs.
pub open spec fn wav_bytes_match_aec_spec(bytes: Seq<u8>) -> bool {
    wav_decoding(bytes) matches Ok((c, rate, bits, integer, _)) && is_aec_format(
        c,
        rate,
        bits,
        integer,
    )
}

fn format_is_aec(f: WavFormat) -> (b: bool)
    ensures
        b == is_aec_format(f.channels, f.sample_rate, f.bits_per_sample, f.is_int),
{
    f.channels == EXPECTED_CHANNELS && f.sample_rate == EXPECTED_SAMPLE_RATE && f.bits_per_sample
        == EXPECTED_BITS_PER_SAMPLE && f.is_int
}

/// Whether WAV bytes are already 48 kHz mono signed 16-bit PCM.
pub fn wav_matches_aec_spec(bytes: &[u8]) -> (b: bool)
    ensures
        b == wav_bytes_match_aec_spec(bytes@),
{
    match decode_wav(bytes) {
        Ok((f, _)) => format_is_aec(f),
        Err(_) => false,
    }
}

/// A `.wav` path whose bytes were read and are already in the canceller's
/// format.
pub open spec fn input_conforms(path: Seq<char>, bytes: Option<&[u8]>) -> bool {
    has_wav_extension(path) && (bytes matches Some(b) && wav_bytes_match_aec_spec(b@))
}

/// Only a one-channel WAV is in the canceller's format: bytes whose header
/// gives any other channel count never count as conforming, so such a track
/// is always converted first, and reading it for cancellation yields no
/// samples.
pub proof fn law_multichannel_wav_is_never_aec_ready(path: Seq<char>, bytes: &[u8])
    requires
        wav_decoding(bytes@) matches Ok((c, _, _, _, _)) && c != 1,
    ensures
        !wav_bytes_match_aec_spec(bytes@),
        !input_conforms(path, Some(bytes)),
        aec_read_result(bytes@) is None,
{
}

/// How an input track reaches the canceller.
#[derive(Debug, Clone, PartialEq, Eq)]
pub enum AecInput {
    /// The file is already in the canceller's format and is used as is.
    Existing(String),
    /// The file must first be converted into the temporary file at this path,
    /// which is removed once cancellation is done.
    Normalize(String),
}

/// Chooses how an input track reaches the canceller: a `.wav` already in
/// 48 kHz mono 16-bit PCM is used directly; anything else (compressed
/// system audio, a 16 kHz Bluetooth microphone) is converted to
/// `<stem>.<suffix>.wav` next to it. `source_bytes` are the file's contents,
/// or `None` when they could not be read.
pub fn prepare_audio_for_aec(source_path: &str, source_bytes: Option<&[u8]>, normalized_suffix: &str) -> (r: Result<AecInput, AppError>)
    ensures
        input_conforms(source_path@, source_bytes) ==> (r matches Ok(AecInput::Existing(p))
            && p@ == source_path@),
        !input_conforms(source_path@, source_bytes) && file_stem(source_path@) is Some ==> (
        r matches Ok(AecInput::Normalize(p)) && p@ == with_file_name(
            source_path@,
            file_stem(source_path@)->0 + "."@ + normalized_suffix@ + ".wav"@,
        )),
        !input_conforms(source_path@, source_bytes) && file_stem(source_path@) is None ==> (
        r matches Err(e) && e.code@ == "aec_invalid_reference_path"@),
        (source_bytes matches Some(b) && wav_decoding(b@) matches Ok((c, _, _, _, _)) && c != 1)
            && file_stem(source_path@) is Some ==> (r matches Ok(AecInput::Normalize(_))),
{
    let conforms = if path_has_wav_extension(source_path) {
        match source_bytes {
            Some(b) => wav_matches_aec_spec(b),
            None => false,
        }
    } else {
        false
    };
    if conforms {
        return Ok(AecInput::Existing(String::from_str(source_path)));
    }
    let normalized = normalized_aec_wav_path(source_path, normalized_suffix)?;
    Ok(AecInput::Normalize(normalized))
}

/// What reading an echo-cancellation input gives for given WAV bytes.
pub open spec fn aec_read_result(bytes: Seq<u8>) -> Option<Seq<i16>> {
    match wav_decoding(bytes) {
        Ok((c, rate, bits, integer, Ok(samples))) => if is_aec_format(c, rate, bits, integer) {
            Some(samples)
        } else {
            None
        },
        _ => None,
    }
}

/// Reads the samples of a 48 kHz mono 16-bit WAV; `path` names the file in
/// error details.
pub fn read_mono_i16_48k(bytes: &[u8], path: &str) -> (r: Result<Vec<i16>, AppError>)
    ensures
        forall|s: Seq<i16>|
            #![trigger pcm16_mono_wav(EXPECTED_SAMPLE_RATE, s)]
            bytes@ == pcm16_mono_wav(EXPECTED_SAMPLE_RATE, s) && 36 + 2 * s.len() <= u32::MAX
                ==> r is Ok && r->Ok_0@ == s,
        (wav_decoding(bytes@) matches Ok((c, _, _, _, _)) && c != 1) ==> (r matches Err(e)
            && e.code@ == "aec_unsupported_wav_format"@),
        match r {
            Ok(s) => aec_read_result(bytes@) == Some(s@),
            Err(e) => {
                &&& aec_read_result(bytes@) is None
                &&& match wav_decoding(bytes@) {
                    Ok((c, rate, bits, integer, _)) => if is_aec_format(c, rate, bits, integer) {
                        e.code@ == "aec_read_failed"@ && e.message@
                            == "Could not decode audio samples for echo cancellation."@
                    } else {
                        e.code@ == "aec_unsupported_wav_format"@ && e.message@
                            == "Echo cancellation requires 48 kHz mono signed 16-bit PCM WAV inputs."@
                    },
                    Err(_) => e.code@ == "aec_read_failed"@ && e.message@
                        == "Could not read audio for echo cancellation."@,
                }
            },
        },
{
    match decode_wav(bytes) {
        Err(message) => Err(
            app_error(
                "aec_read_failed",
                "Could not read audio for echo cancellation.",
                Some(path_error_detail(path, &message)),
            ),
        ),
        Ok((f, samples)) => {
            if !format_is_aec(f) {
                let mut d = chars_of("path=");
                push_str(&mut d, path);
                return Err(
                    app_error(
                        "aec_unsupported_wav_format",
                        "Echo cancellation requires 48 kHz mono signed 16-bit PCM WAV inputs.",
                        Some(string_of(d.as_slice())),
                    ),
                );
            }
            match samples {
                Ok(s) => Ok(s),
                Err(message) => Err(
                    app_error(
                        "aec_read_failed",
                        "Could not decode audio samples for echo cancellation.",
                        Some(path_error_detail(path, &message)),
                    ),
                ),
            }
        },
    }
}

fn path_error_detail(path: &str, message: &String) -> (d: String)
    ensures
        d@ == "path="@ + path@ + ", error="@ + message@,
{
    let mut d = chars_of("path=");
    push_str(&mut d, path);
    push_str(&mut d, ", error=");
    push_str(&mut d, message.as_str());
    string_of(d.as_slice())
}

/// Frame `k` of a signal: the `frame_size` samples from `k * frame_size`,
/// padded with silence past the end of the signal.
pub open spec fn padded_frame(s: Seq<i16>, k: int, frame_size: int) -> Seq<i16> {
    Seq::new(
        frame_size as nat,
        |j: int| if k * frame_size + j < s.len() {
            s[k * frame_size + j]
        } else {
            0i16
        },
    )
}

/// How many frames cover `n` samples.
pub open spec fn frame_count(n: nat, frame_size: nat) -> nat {
    if frame_size == 0 {
        0
    } else {
        ((n + frame_size - 1) / frame_size as int) as nat
    }
}

/// One frame as the canceller takes it: the recorded samples and the
/// reference samples played at the same time, both padded to a full frame.
pub struct FramePair {
    pub recorded: Vec<i16>,
    pub reference: Vec<i16>,
}

fn padded_frame_of(s: &[i16], k: usize, frame_size: usize) -> (r: Vec<i16>)
    requires
        frame_size > 0,
        k * frame_size + frame_size <= usize::MAX,
    ensures
        r@ == padded_frame(s@, k as int, frame_size as int),
{
    let start = k * frame_size;
    let mut r: Vec<i16> = Vec::new();
    let mut j: usize = 0;
    while j < frame_size
        invariant
            start == k * frame_size,
            start + frame_size <= usize::MAX,
            j <= frame_size,
            r@.len() == j,
            forall|i: int| 0 <= i < j ==> r@[i] == padded_frame(s@, k as int, frame_size as int)[i],
        decreases frame_size - j,
    {
        if start + j < s.len() {
            r.push(s[start + j]);
        } else {
            r.push(0i16);
        }
        j = j + 1;
    }
    assert(r@ =~= padded_frame(s@, k as int, frame_size as int));
    r
}

/// Cuts a recording into the frames the canceller processes: `frame_count`
/// padded frames of the recorded signal, each paired with the padded frame
/// of the reference at the same position (silence once the reference ends).
pub fn aec_frames(reference: &[i16], recorded: &[i16], frame_size: usize, count: usize) -> (r: Vec<FramePair>)
    requires
        frame_size > 0,
        count * frame_size <= usize::MAX,
    ensures
        r@.len() == count,
        forall|k: int|
            0 <= k < count ==> (#[trigger] r@[k]).recorded@ == padded_frame(
                recorded@,
                k,
                frame_size as int,
            ) && r@[k].reference@ == padded_frame(reference@, k, frame_size as int),
{
    let mut r: Vec<FramePair> = Vec::new();
    let mut k: usize = 0;
    while k < count
        invariant
            frame_size > 0,
            count * frame_size <= usize::MAX,
            k <= count,
            r@.len() == k,
            forall|i: int|
                0 <= i < k ==> (#[trigger] r@[i]).recorded@ == padded_frame(
                    recorded@,
                    i,
                    frame_size as int,
                ) && r@[i].reference@ == padded_frame(reference@, i, frame_size as int),
        decreases count - k,
    {
        proof {
            assert((k + 1) * frame_size <= count * frame_size) by (nonlinear_arith)
                requires
                    k + 1 <= count,
            ;
            assert((k + 1) * frame_size == k * frame_size + frame_size) by (nonlinear_arith);
        }
        let rec = padded_frame_of(recorded, k, frame_size);
        let refr = padded_frame_of(reference, k, frame_size);
        r.push(FramePair { recorded: rec, reference: refr });
        k = k + 1;
    }
    r
}

/// The cleaned signal: frame by frame, as many cleaned samples as the
/// recording had in that frame, so the output is exactly as long as the
/// recording the frames cover.
pub open spec fn stitched(cleaned: Seq<Seq<i16>>, n: nat, frame_size: nat) -> Seq<i16> {
    Seq::new(
        n,
        |i: int| cleaned[i / frame_size as int][i % frame_size as int],
    )
}

/// Joins cleaned frames back into one signal of `recorded_len` samples,
/// dropping the padding of the last frame.
pub fn join_cleaned_frames(cleaned: &Vec<Vec<i16>>, recorded_len: usize, frame_size: usize) -> (r: Vec<i16>)
    requires
        frame_size > 0,
        cleaned@.len() == frame_count(recorded_len as nat, frame_size as nat),
        forall|k: int| 0 <= k < cleaned@.len() ==> (#[trigger] cleaned@[k])@.len() == frame_size,
    ensures
        r@.len() == recorded_len,
        r@ == stitched(cleaned@.map_values(|f: Vec<i16>| f@), recorded_len as nat, frame_size as nat),
{
    let ghost views = cleaned@.map_values(|f: Vec<i16>| f@);
    let mut r: Vec<i16> = Vec::new();
    let mut i: usize = 0;
    while i < recorded_len
        invariant
            frame_size > 0,
            views == cleaned@.map_values(|f: Vec<i16>| f@),
            cleaned@.len() == frame_count(recorded_len as nat, frame_size as nat),
            forall|k: int| 0 <= k < cleaned@.len() ==> (#[trigger] cleaned@[k])@.len() == frame_size,
            i <= recorded_len,
            r@.len() == i,
            forall|t: int| 0 <= t < i ==> r@[t] == stitched(views, recorded_len as nat, frame_size as nat)[t],
        decreases recorded_len - i,
    {
        let k = i / frame_size;
        let j = i % frame_size;
        proof {
            assert(k * frame_size <= i) by (nonlinear_arith)
                requires
                    k == i / frame_size,
                    frame_size > 0,
            ;
            assert(k < frame_count(recorded_len as nat, frame_size as nat)) by (nonlinear_arith)
                requires
                    k == i / frame_size,
                    frame_size > 0,
                    i < recorded_len,
                    frame_count(recorded_len as nat, frame_size as nat) == ((recorded_len
                        + frame_size - 1) / frame_size as int) as nat,
            ;
        }
        r.push(cleaned[k][j]);
        i = i + 1;
    }
    assert(r@ =~= stitched(views, recorded_len as nat, frame_size as nat));
    r
}

/// The bytes of a 48 kHz mono 16-bit WAV holding the cleaned samples; `path`
/// names the destination in error details.
pub fn write_mono_i16_48k(samples: &[i16], path: &str) -> (r: Result<Vec<u8>, AppError>)
    requires
        36 + 2 * samples@.len() <= u32::MAX,
    ensures
        r is Ok,
        r matches Ok(b) ==> b@ == pcm16_mono_wav(EXPECTED_SAMPLE_RATE, samples@),
{
    match super::wav::write_i16_mono_wav(EXPECTED_SAMPLE_RATE, samples) {
        Ok((bytes, _summary)) => Ok(bytes),
        Err(e) => {
            let message = match e.details {
                Some(m) => m,
                None => String::new(),
            };
            Err(
                app_error(
                    "aec_write_failed",
                    "Could not write echo-cancelled microphone samples.",
                    Some(path_error_detail(path, &message)),
                ),
            )
        },
    }
}

/// How many frames of `frame_size` cover `n` samples.
pub fn frames_needed(n: usize, frame_size: usize) -> (c: usize)
    requires
        frame_size > 0,
    ensures
        c == frame_count(n as nat, frame_size as nat),
        c * frame_size <= n + frame_size,
{
    let q = n / frame_size;
    proof {
        assert(n % frame_size != 0 ==> q < usize::MAX) by (nonlinear_arith)
            requires
                q == n / frame_size,
                frame_size > 0,
                n <= usize::MAX,
        ;
    }
    let c = if n % frame_size == 0 {
        q
    } else {
        q + 1
    };
    proof {
        assert(c == ((n + frame_size - 1) / frame_size as int)) by (nonlinear_arith)
            requires
                frame_size > 0,
                q == n / frame_size,
                c == (if n % frame_size == 0 { q as int } else { q + 1 }),
        ;
        assert(c * frame_size <= n + frame_size) by (nonlinear_arith)
            requires
                frame_size > 0,
                q == n / frame_size,
                c == (if n % frame_size == 0 { q as int } else { q + 1 }),
        ;
    }
    c
}

/// Offline acoustic echo cancellation of a recorded microphone file against
/// the system audio played meanwhile; returns the path of the cleaned file.
/// An implementation may name, in `cancellation_of`, which answers it gives
/// for which pair of paths; one that does not admits every answer. Code
/// generic over the trait knows only that an answer is one the
/// implementation gives for the paths it was asked about.
pub trait EchoCancellationBackend {
    /// `r` is an answer this backend gives when asked to cancel the echo of
    /// the reference at `reference_wav_path` out of the microphone file at
    /// `microphone_wav_path`.
    open spec fn cancellation_of(
        &self,
        microphone_wav_path: Seq<char>,
        reference_wav_path: Seq<char>,
        r: Result<String, AppError>,
    ) -> bool {
        true
    }

    fn process(&self, microphone_wav_path: &str, reference_wav_path: &str) -> (r: Result<
        String,
        AppError,
    >)
        ensures
            self.cancellation_of(microphone_wav_path@, reference_wav_path@, r),
    ;
}

/// Cleans one frame of recorded audio, given the reference audio played
/// while it was recorded. Implemented over the echo canceller's state. An
/// implementation may name, in `cancel_of`, which answers it gives from
/// which state; one that does not admits every answer.
pub trait FrameEchoCanceller {
    /// `out` is an answer this canceller, in its present state, gives for
    /// the frames `recorded` and `reference`.
    open spec fn cancel_of(&self, recorded: Seq<i16>, reference: Seq<i16>, out: Seq<i16>) -> bool {
        true
    }

    fn cancel_frame(&mut self, recorded: &[i16], reference: &[i16]) -> (r: Vec<i16>)
        ensures
            old(self).cancel_of(recorded@, reference@, r@),
    ;
}

/// `f` cut or padded with silence to `n` samples.
pub open spec fn fitted(f: Seq<i16>, n: nat) -> Seq<i16> {
    Seq::new(n, |j: int| if j < f.len() { f[j] } else { 0i16 })
}

pub fn fit_frame(f: Vec<i16>, n: usize) -> (r: Vec<i16>)
    ensures
        r@ == fitted(f@, n as nat),
{
    let mut r: Vec<i16> = Vec::new();
    let mut j: usize = 0;
    while j < n
        invariant
            j <= n,
            r@ == fitted(f@, n as nat).take(j as int),
        decreases n - j,
    {
        if j < f.len() {
            r.push(f[j]);
        } else {
            r.push(0);
        }
        j = j + 1;
        assert(r@ =~= fitted(f@, n as nat).take(j as int));
    }
    assert(r@ =~= fitted(f@, n as nat));
    r
}

/// Each answer fitted to a frame of `n` samples.
pub open spec fn fitted_all(outs: Seq<Seq<i16>>, n: nat) -> Seq<Seq<i16>> {
    Seq::new(outs.len(), |k: int| fitted(outs[k], n))
}

/// What running `count` frames through a canceller may give: `states[k]`
/// is the canceller before frame `k` (the first `before`, the last
/// `after`), `outs[k]` its answer for the `k`-th padded recorded frame with
/// the `k`-th padded reference frame, and `r` the answers, each fitted to a
/// frame, joined into `out_len` samples.
pub open spec fn frames_cancelled<C: FrameEchoCanceller>(
    before: C,
    after: C,
    reference: Seq<i16>,
    recorded: Seq<i16>,
    frame_size: nat,
    count: nat,
    out_len: nat,
    states: Seq<C>,
    outs: Seq<Seq<i16>>,
    r: Seq<i16>,
) -> bool {
    &&& states.len() == count + 1
    &&& outs.len() == count
    &&& states[0] == before
    &&& states[count as int] == after
    &&& forall|k: int|
        0 <= k < count ==> #[trigger] states[k].cancel_of(
            padded_frame(recorded, k, frame_size as int),
            padded_frame(reference, k, frame_size as int),
            outs[k],
        )
    &&& r == stitched(fitted_all(outs, frame_size), out_len, frame_size)
}

/// Runs the first `count` frame pairs through `canceller`, the recorded
/// frame with the reference frame at the same position, and joins what it
/// returned (each fitted to a full frame) into `out_len` samples, as
/// [`frames_cancelled`] says.
pub fn cancel_frames<C: FrameEchoCanceller>(
    reference: &[i16],
    recorded: &[i16],
    frame_size: usize,
    count: usize,
    out_len: usize,
    canceller: &mut C,
) -> (r: Vec<i16>)
    requires
        frame_size > 0,
        count * frame_size <= usize::MAX,
        count == frame_count(out_len as nat, frame_size as nat),
    ensures
        r@.len() == out_len,
        exists|states: Seq<C>, outs: Seq<Seq<i16>>|
            #[trigger] frames_cancelled(
                *old(canceller),
                *final(canceller),
                reference@,
                recorded@,
                frame_size as nat,
                count as nat,
                out_len as nat,
                states,
                outs,
                r@,
            ),
{
    let frames = aec_frames(reference, recorded, frame_size, count);
    let mut cleaned: Vec<Vec<i16>> = Vec::new();
    let ghost mut states: Seq<C> = seq![*canceller];
    let ghost mut outs: Seq<Seq<i16>> = seq![];
    let mut k: usize = 0;
    while k < frames.len()
        invariant
            k <= frames@.len(),
            frames@.len() == count,
            forall|i: int|
                0 <= i < count ==> (#[trigger] frames@[i]).recorded@ == padded_frame(
                    recorded@,
                    i,
                    frame_size as int,
                ) && frames@[i].reference@ == padded_frame(reference@, i, frame_size as int),
            cleaned@.len() == k,
            forall|i: int| 0 <= i < k ==> (#[trigger] cleaned@[i])@.len() == frame_size,
            forall|i: int| 0 <= i < k ==> (#[trigger] cleaned@[i])@ == fitted(outs[i], frame_size as nat),
            states.len() == k + 1,
            outs.len() == k,
            states[0] == *old(canceller),
            states[k as int] == *canceller,
            forall|i: int|
                0 <= i < k ==> #[trigger] states[i].cancel_of(
                    padded_frame(recorded@, i, frame_size as int),
                    padded_frame(reference@, i, frame_size as int),
                    outs[i],
                ),
        decreases frames.len() - k,
    {
        let pair = &frames[k];
        let ghost pre = *canceller;
        let out = canceller.cancel_frame(pair.recorded.as_slice(), pair.reference.as_slice());
        let ghost answer = out@;
        let f = fit_frame(out, frame_size);
        cleaned.push(f);
        proof {
            assert(pre.cancel_of(
                padded_frame(recorded@, k as int, frame_size as int),
                padded_frame(reference@, k as int, frame_size as int),
                answer,
            ));
            states = states.push(*canceller);
            outs = outs.push(answer);
        }
        k = k + 1;
    }
    let r = join_cleaned_frames(&cleaned, out_len, frame_size);
    assert(cleaned@.map_values(|f: Vec<i16>| f@) =~= fitted_all(outs, frame_size as nat));
    assert(frames_cancelled(
        *old(canceller),
        *canceller,
        reference@,
        recorded@,
        frame_size as nat,
        count as nat,
        out_len as nat,
        states,
        outs,
        r@,
    ));
    r
}

/// Echo-cancels a whole recording frame by frame, as [`frames_cancelled`]
/// says of the frames that cover the recording; the reference is padded
/// with silence where it is shorter. The result is exactly as long as the
/// recording.
pub fn cancel_echo_with<C: FrameEchoCanceller>(
    reference: &[i16],
    recorded: &[i16],
    frame_size: usize,
    canceller: &mut C,
) -> (r: Vec<i16>)
    requires
        frame_size > 0,
        recorded@.len() + frame_size <= usize::MAX,
    ensures
        r@.len() == recorded@.len(),
        exists|states: Seq<C>, outs: Seq<Seq<i16>>|
            #[trigger] frames_cancelled(
                *old(canceller),
                *final(canceller),
                reference@,
                recorded@,
                frame_size as nat,
                frame_count(recorded@.len(), frame_size as nat),
                recorded@.len(),
                states,
                outs,
                r@,
            ),
{
    let count = frames_needed(recorded.len(), frame_size);
    cancel_frames(reference, recorded, frame_size, count, recorded.len(), canceller)
}

} // verus!
