//! WAV encoding and decoding of 16-bit PCM audio, in memory. Files are read
//! and written by the caller; this module turns samples into the bytes of a
//! WAV file and back.

use vstd::prelude::*;

use crate::domain::{app_error, AppError};
use crate::text::{chars_of, push_str, string_of};

verus! {

/// A number as little-endian bytes.
pub open spec fn le16(v: nat) -> Seq<u8> {
    seq![(v % 256) as u8, ((v / 256) % 256) as u8]
}

pub open spec fn le32(v: nat) -> Seq<u8> {
    seq![
        (v % 256) as u8,
        ((v / 256) % 256) as u8,
        ((v / 65536) % 256) as u8,
        ((v / 16777216) % 256) as u8,
    ]
}

/// Samples as consecutive little-endian two's-complement 16-bit words.
pub open spec fn pcm16_bytes(samples: Seq<i16>) -> Seq<u8>
    decreases samples.len(),
{
    if samples.len() == 0 {
        Seq::empty()
    } else {
        pcm16_bytes(samples.drop_last()) + le16((samples.last() as u16) as nat)
    }
}

/// The bytes of a mono 16-bit integer PCM WAV file: the RIFF header, a
/// 16-byte `fmt ` chunk in PCMWAVEFORMAT layout, and the `data` chunk.
pub open spec fn pcm16_mono_wav(sample_rate_hz: u32, samples: Seq<i16>) -> Seq<u8> {
    let data_len = 2 * samples.len();
    seq![82u8, 73, 70, 70] + le32(36 + data_len) + seq![87u8, 65, 86, 69] + seq![
        102u8,
        109,
        116,
        32,
    ] + le32(16) + le16(1) + le16(1) + le32(sample_rate_hz as nat) + le32(
        2 * sample_rate_hz as nat,
    ) + le16(2) + le16(16) + seq![100u8, 97, 116, 97] + le32(data_len) + pcm16_bytes(samples)
}

/// What decoding a WAV file gives: its channel count, sample rate, bits per
/// sample and whether its samples are integers, plus its samples read as
/// 16-bit integers (or the decoder's message when they cannot be); or the
/// decoder's message when the header cannot be read.
pub uninterp spec fn wav_decoding(bytes: Seq<u8>) -> Result<
    (u16, u32, u16, bool, Result<Seq<i16>, Seq<char>>),
    Seq<char>,
>;

/// Header fields of a decoded WAV.
#[derive(Debug, Clone, Copy, PartialEq, Eq)]
pub struct WavFormat {
    pub channels: u16,
    pub sample_rate: u32,
    pub bits_per_sample: u16,
    pub is_int: bool,
}

/// Decodes WAV bytes with `hound::WavReader::new` and reads every sample as
/// `i16` with `WavReader::samples`. Trusted to give back the header fields
/// and samples (or error messages) that `wav_decoding` names for these bytes,
/// and, for the mono 16-bit PCM layout that hound's own writer produces, to
/// read back exactly the samples written: hound's reader accepts a 16-byte
/// PCM `fmt ` chunk whose byte rate is the block alignment times the sample
/// rate, and reads the `data` chunk as little-endian 16-bit samples.
#[verifier::external_body]
fn hound_decode(bytes: &[u8]) -> (r: Result<(WavFormat, Result<Vec<i16>, String>), String>)
    ensures
        forall|rate: u32, s: Seq<i16>|
            #![trigger pcm16_mono_wav(rate, s)]
            bytes@ == pcm16_mono_wav(rate, s) && 2 * rate <= u32::MAX && 36 + 2 * s.len()
                <= u32::MAX ==> r is Ok && r->Ok_0.1 is Ok && r->Ok_0.0 == (WavFormat {
                channels: 1,
                sample_rate: rate,
                bits_per_sample: 16,
                is_int: true,
            }) && r->Ok_0.1->Ok_0@ == s,
        match (r, wav_decoding(bytes@)) {
            (Ok((f, Ok(s))), Ok((c, rate, bits, integer, Ok(t)))) => f == (WavFormat {
                channels: c,
                sample_rate: rate,
                bits_per_sample: bits,
                is_int: integer,
            }) && s@ == t,
            (Ok((f, Err(m))), Ok((c, rate, bits, integer, Err(n)))) => f == (WavFormat {
                channels: c,
                sample_rate: rate,
                bits_per_sample: bits,
                is_int: integer,
            }) && m@ == n,
            (Err(m), Err(n)) => m@ == n,
            _ => false,
        },
{
    let mut reader = hound::WavReader::new(std::io::Cursor::new(bytes)).map_err(|e| format!("{e}"))?;
    let spec = reader.spec();
    let format = WavFormat {
        channels: spec.channels,
        sample_rate: spec.sample_rate,
        bits_per_sample: spec.bits_per_sample,
        is_int: spec.sample_format == hound::SampleFormat::Int,
    };
    let samples = reader.samples::<i16>().collect::<Result<Vec<i16>, _>>().map_err(|e| format!("{e}"));
    Ok((format, samples))
}

/// Encodes samples as a mono 16-bit integer WAV with `hound::WavWriter`
/// (`new`, `write_sample` for each sample, `finalize`) over an in-memory
/// cursor. Trusted to succeed for a nonzero rate and a size the header can
/// describe (hound supports 16-bit samples, and writes and seeks on an
/// in-memory cursor do not fail), and to produce the PCMWAVEFORMAT layout
/// that hound's writer emits for one channel at 16 bits.
#[verifier::external_body]
fn hound_encode_mono16(sample_rate_hz: u32, samples: &[i16]) -> (r: Result<Vec<u8>, String>)
    requires
        sample_rate_hz > 0,
        2 * sample_rate_hz <= u32::MAX,
        36 + 2 * samples@.len() <= u32::MAX,
    ensures
        r is Ok,
        r matches Ok(b) ==> b@ == pcm16_mono_wav(sample_rate_hz, samples@),
{
    let spec = hound::WavSpec { channels: 1, sample_rate: sample_rate_hz, bits_per_sample: 16, sample_format: hound::SampleFormat::Int };
    let mut cursor = std::io::Cursor::new(Vec::new());
    let mut writer = hound::WavWriter::new(&mut cursor, spec).map_err(|e| format!("{e}"))?;
    for sample in samples {
        writer.write_sample(*sample).map_err(|e| format!("{e}"))?;
    }
    writer.finalize().map_err(|e| format!("{e}"))?;
    Ok(cursor.into_inner())
}

/// How many samples a WAV writer wrote.
#[derive(Debug, Clone, PartialEq, Eq)]
pub struct WavWriterSummary {
    pub sample_count: u64,
}

/// A sample rate and sample count a mono 16-bit WAV header can describe.
pub open spec fn wav_encodable(sample_rate_hz: u32, sample_count: nat) -> bool {
    &&& sample_rate_hz > 0
    &&& 2 * sample_rate_hz <= u32::MAX
    &&& 36 + 2 * sample_count <= u32::MAX
}

/// The bytes of a mono 16-bit WAV recording of `samples`, with a summary of
/// how many samples it holds. Any rate and length the header can describe
/// is encoded.
pub fn write_i16_mono_wav(sample_rate_hz: u32, samples: &[i16]) -> (r: Result<
    (Vec<u8>, WavWriterSummary),
    AppError,
>)
    requires
        wav_encodable(sample_rate_hz, samples@.len()),
    ensures
        r is Ok,
        r matches Ok((bytes, summary)) ==> {
            &&& bytes@ == pcm16_mono_wav(sample_rate_hz, samples@)
            &&& summary.sample_count == samples@.len()
        },
{
    match hound_encode_mono16(sample_rate_hz, samples) {
        Ok(bytes) => Ok((bytes, WavWriterSummary { sample_count: samples.len() as u64 })),
        Err(message) => Err(map_wav_error(message)),
    }
}

/// The error a failed WAV write is reported with.
pub fn map_wav_error(message: String) -> (e: AppError)
    ensures
        e.code@ == "audio_wav_write_failed"@,
        e.message@ == "Could not write the WAV recording file."@,
        e.details == Some(message),
{
    app_error("audio_wav_write_failed", "Could not write the WAV recording file.", Some(message))
}

/// Decodes WAV bytes into their header fields and 16-bit samples.
pub fn decode_wav(bytes: &[u8]) -> (r: Result<(WavFormat, Result<Vec<i16>, String>), String>)
    ensures
        forall|rate: u32, s: Seq<i16>|
            #![trigger pcm16_mono_wav(rate, s)]
            bytes@ == pcm16_mono_wav(rate, s) && 2 * rate <= u32::MAX && 36 + 2 * s.len()
                <= u32::MAX ==> r is Ok && r->Ok_0.1 is Ok && r->Ok_0.0 == (WavFormat {
                channels: 1,
                sample_rate: rate,
                bits_per_sample: 16,
                is_int: true,
            }) && r->Ok_0.1->Ok_0@ == s,
        match (r, wav_decoding(bytes@)) {
            (Ok((f, Ok(s))), Ok((c, rate, bits, integer, Ok(t)))) => f.channels == c && f.sample_rate
                == rate && f.bits_per_sample == bits && f.is_int == integer && s@ == t,
            (Ok((f, Err(m))), Ok((c, rate, bits, integer, Err(n)))) => f.channels == c
                && f.sample_rate == rate && f.bits_per_sample == bits && f.is_int == integer && m@
                == n,
            (Err(m), Err(n)) => m@ == n,
            _ => false,
        },
{
    hound_decode(bytes)
}

} // verus!
