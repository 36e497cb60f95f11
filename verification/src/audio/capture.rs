//! Microphone capture: the backend interface a recording runs on, mixing
//! interleaved input down to mono, and the choice of the built-in microphone
//! when the default input is a Bluetooth headset.

use vstd::prelude::*;

use super::domain::AudioDevice;
use crate::domain::{app_error, opt_view, AppError};

verus! {

/// Samples of headroom between the audio callback and the WAV writer: five
/// seconds of 48 kHz mono audio.
pub const AUDIO_SAMPLE_CHANNEL_CAPACITY: usize = 240_000;

/// A running capture session. An implementation may name, in `stop_of`,
/// which answers stopping it gives; one that does not admits every answer.
pub trait CaptureSessionHandle {
    /// `r` is an answer stopping this session gives.
    open spec fn stop_of(&self, r: Result<CaptureSummary, AppError>) -> bool {
        true
    }

    /// Stops capturing and finalizes the recording file.
    fn stop(self) -> (r: Result<CaptureSummary, AppError>)
        ensures
            self.stop_of(r),
    ;
}

/// Something that can record the microphone to a file. An implementation
/// may name, in `input_devices_of` and `start_of`, which answers it gives;
/// one that does not admits every answer. Code generic over the trait knows
/// only that an answer is one the implementation gives for what it was
/// asked.
pub trait AudioCaptureBackend {
    type Session: CaptureSessionHandle;

    /// `r` is an answer listing the input devices gives.
    open spec fn input_devices_of(&self, r: Result<Vec<AudioDevice>, AppError>) -> bool {
        true
    }

    /// `r` is an answer starting a capture into `file_path` from
    /// `device_id` (the default input when `None`) gives.
    open spec fn start_of(
        &self,
        file_path: Seq<char>,
        device_id: Option<Seq<char>>,
        r: Result<ActiveCapture<Self::Session>, AppError>,
    ) -> bool {
        true
    }

    fn list_input_devices(&self) -> (r: Result<Vec<AudioDevice>, AppError>)
        ensures
            self.input_devices_of(r),
    ;

    fn start_recording(&self, file_path: String, device_id: Option<String>) -> (r: Result<
        ActiveCapture<Self::Session>,
        AppError,
    >)
        ensures
            self.start_of(file_path@, opt_view(device_id), r),
    ;
}

/// A microphone capture in flight.
pub struct ActiveCapture<H> {
    pub file_path: String,
    pub sample_rate_hz: u32,
    pub started_at_ms: u64,
    pub handle: H,
}

/// What a finished capture wrote.
#[derive(Debug, Clone, PartialEq, Eq)]
pub struct CaptureSummary {
    pub sample_count: u64,
    pub dropped_sample_count: u64,
    pub stream_error: Option<String>,
}

/// `a / b` rounded toward zero, as Rust's integer division does.
pub open spec fn div_toward_zero(a: int, b: int) -> int {
    if a >= 0 {
        a / b
    } else {
        -((-a) / b)
    }
}

/// Sum of `s[lo..hi]`, each sample shifted by `offset`.
pub open spec fn shifted_sum(s: Seq<int>, lo: int, hi: int) -> int
    decreases hi - lo,
{
    if hi <= lo {
        0
    } else {
        shifted_sum(s, lo, hi - 1) + s[hi - 1]
    }
}

/// The channel count actually used to split frames (at least one).
pub open spec fn effective_channels(channels: nat) -> nat {
    if channels == 0 {
        1
    } else {
        channels
    }
}

/// Mono signal of interleaved samples: each frame of `channels` samples (the
/// last one possibly shorter) becomes the average of its samples, rounded
/// toward zero.
pub open spec fn downmixed(s: Seq<int>, channels: nat) -> Seq<int> {
    let c = effective_channels(channels) as int;
    Seq::new(
        ((s.len() + c - 1) / c) as nat,
        |k: int| {
            let lo = k * c;
            let hi = if lo + c <= s.len() {
                lo + c
            } else {
                s.len() as int
            };
            div_toward_zero(shifted_sum(s, lo, hi), hi - lo)
        },
    )
}

pub open spec fn i16_values(s: Seq<i16>) -> Seq<int> {
    s.map_values(|x: i16| x as int)
}

/// Unsigned samples re-centred on zero.
pub open spec fn u16_values(s: Seq<u16>) -> Seq<int> {
    s.map_values(|x: u16| x as int - 32768)
}

proof fn lemma_shifted_sum_bounds(s: Seq<int>, lo: int, hi: int)
    requires
        0 <= lo <= hi <= s.len(),
        forall|i: int| 0 <= i < s.len() ==> -32768 <= #[trigger] s[i] <= 32767,
    ensures
        -32768 * (hi - lo) <= shifted_sum(s, lo, hi) <= 32767 * (hi - lo),
    decreases hi - lo,
{
    if hi > lo {
        lemma_shifted_sum_bounds(s, lo, hi - 1);
    }
}

proof fn lemma_average_in_range(sum: int, n: int)
    requires
        n > 0,
        -32768 * n <= sum <= 32767 * n,
    ensures
        -32768 <= div_toward_zero(sum, n) <= 32767,
{
    if sum >= 0 {
        assert(sum / n <= 32767) by (nonlinear_arith)
            requires
                sum <= 32767 * n,
                n > 0,
                sum >= 0,
        ;
        assert(sum / n >= 0) by (nonlinear_arith)
            requires
                n > 0,
                sum >= 0,
        ;
    } else {
        assert((-sum) / n <= 32768) by (nonlinear_arith)
            requires
                -sum <= 32768 * n,
                n > 0,
                sum < 0,
        ;
        assert((-sum) / n >= 0) by (nonlinear_arith)
            requires
                n > 0,
                sum < 0,
        ;
    }
}

/// Averages the interleaved frames of `values` (already widened and
/// centred) into mono samples.
fn downmix_values(values: &Vec<i64>, channels: usize) -> (r: Vec<i16>)
    requires
        channels <= 65535,
        forall|i: int| 0 <= i < values@.len() ==> -32768 <= #[trigger] values@[i] <= 32767,
    ensures
        r@.map_values(|x: i16| x as int) == downmixed(
            values@.map_values(|x: i64| x as int),
            channels as nat,
        ),
{
    let ghost s = values@.map_values(|x: i64| x as int);
    let c: usize = if channels == 0 {
        1
    } else {
        channels
    };
    let ghost total: int = (values@.len() + c - 1) / c as int;
    proof {
        if values@.len() == 0 {
            assert((c - 1) / c as int == 0) by (nonlinear_arith)
                requires
                    c >= 1,
            ;
        }
    }
    let mut r: Vec<i16> = Vec::new();
    let mut lo: usize = 0;
    let ghost mut k: int = 0;
    while lo < values.len()
        invariant
            s == values@.map_values(|x: i64| x as int),
            c == effective_channels(channels as nat),
            1 <= c <= 65535,
            total == (values@.len() + c - 1) / c as int,
            forall|i: int| 0 <= i < values@.len() ==> -32768 <= #[trigger] values@[i] <= 32767,
            lo <= values@.len(),
            lo < values@.len() ==> lo == k * c,
            lo == values@.len() ==> k == total,
            0 <= k,
            r@.len() == k,
            forall|t: int|
                0 <= t < k ==> (#[trigger] r@[t]) as int == downmixed(s, channels as nat)[t],
        decreases values@.len() - lo,
    {
        let hi: usize = if values.len() - lo >= c {
            lo + c
        } else {
            values.len()
        };
        let mut sum: i64 = 0;
        let mut i: usize = lo;
        while i < hi
            invariant
                s == values@.map_values(|x: i64| x as int),
                lo <= i <= hi <= values@.len(),
                hi - lo <= 65535,
                forall|j: int| 0 <= j < values@.len() ==> -32768 <= #[trigger] values@[j] <= 32767,
                sum == shifted_sum(s, lo as int, i as int),
                -32768 * (i - lo) <= sum <= 32767 * (i - lo),
            decreases hi - i,
        {
            sum = sum + values[i];
            i = i + 1;
        }
        let n = (hi - lo) as i64;
        proof {
            lemma_shifted_sum_bounds(s, lo as int, hi as int);
            lemma_average_in_range(sum as int, n as int);
        }
        let avg: i64 = if sum >= 0 {
            sum / n
        } else {
            -((-sum) / n)
        };
        proof {
            assert(k < total) by (nonlinear_arith)
                requires
                    lo == k * c,
                    lo < values@.len(),
                    c >= 1,
                    k >= 0,
                    total == (values@.len() + c - 1) / c as int,
            ;
            assert(avg as int == downmixed(s, channels as nat)[k]);
        }
        r.push(avg as i16);
        proof {
            assert((k + 1) * c == k * c + c) by (nonlinear_arith);
            if hi == values.len() {
                assert(k + 1 == total) by (nonlinear_arith)
                    requires
                        lo == k * c,
                        lo < values@.len(),
                        values@.len() <= lo + c,
                        c >= 1,
                        k >= 0,
                        total == (values@.len() + c - 1) / c as int,
                ;
            }
            k = k + 1;
        }
        lo = hi;
    }
    assert(r@.map_values(|x: i16| x as int) =~= downmixed(s, channels as nat));
    r
}

/// Mixes interleaved signed 16-bit input down to mono: each frame of
/// `channels` samples becomes their average, rounded toward zero.
pub fn downmix_i16_samples(samples: &[i16], channels: usize) -> (r: Vec<i16>)
    requires
        channels <= 65535,
    ensures
        r@.map_values(|x: i16| x as int) == downmixed(i16_values(samples@), channels as nat),
{
    let mut values: Vec<i64> = Vec::new();
    let mut i: usize = 0;
    while i < samples.len()
        invariant
            i <= samples@.len(),
            values@.len() == i,
            forall|j: int| 0 <= j < i ==> (#[trigger] values@[j]) as int == samples@[j] as int,
        decreases samples.len() - i,
    {
        values.push(samples[i] as i64);
        i = i + 1;
    }
    assert(values@.map_values(|x: i64| x as int) =~= i16_values(samples@));
    downmix_values(&values, channels)
}

/// Mixes interleaved unsigned 16-bit input down to mono signed samples:
/// each sample is re-centred on zero and each frame averaged toward zero.
pub fn downmix_u16_samples(samples: &[u16], channels: usize) -> (r: Vec<i16>)
    requires
        channels <= 65535,
    ensures
        r@.map_values(|x: i16| x as int) == downmixed(u16_values(samples@), channels as nat),
{
    let mut values: Vec<i64> = Vec::new();
    let mut i: usize = 0;
    while i < samples.len()
        invariant
            i <= samples@.len(),
            values@.len() == i,
            forall|j: int| 0 <= j < i ==> (#[trigger] values@[j]) as int == samples@[j] as int - 32768,
        decreases samples.len() - i,
    {
        values.push(samples[i] as i64 - 32768);
        i = i + 1;
    }
    assert(values@.map_values(|x: i64| x as int) =~= u16_values(samples@));
    downmix_values(&values, channels)
}

/// CoreAudio transport types (four-character codes).
pub const TRANSPORT_BUILT_IN: u32 = 0x626c_746e;

pub const TRANSPORT_BLUETOOTH: u32 = 0x626c_7565;

pub const TRANSPORT_BLUETOOTH_LE: u32 = 0x626c_6561;

/// What CoreAudio reports about one audio device.
#[derive(Debug, Clone, PartialEq, Eq)]
pub struct CoreAudioDevice {
    pub has_input_streams: bool,
    pub transport: Option<u32>,
    pub uid: Option<String>,
}

pub open spec fn is_builtin_input(d: CoreAudioDevice) -> bool {
    d.has_input_streams && d.transport == Some(TRANSPORT_BUILT_IN)
}

/// Index of the first built-in input device, if any.
pub open spec fn first_builtin_input(devices: Seq<CoreAudioDevice>) -> Option<int>
    decreases devices.len(),
{
    if devices.len() == 0 {
        None
    } else {
        match first_builtin_input(devices.drop_last()) {
            Some(i) => Some(i),
            None => if is_builtin_input(devices.last()) {
                Some(devices.len() - 1)
            } else {
                None
            },
        }
    }
}

/// The microphone to record from instead of the default input: the UID of
/// the first built-in input device, but only when the default input device
/// is a Bluetooth (classic or LE) microphone. `None` means keep the default.
pub open spec fn builtin_replacement(
    default_device: Option<u32>,
    default_transport: Option<u32>,
    devices: Seq<CoreAudioDevice>,
) -> Option<Option<String>> {
    match default_device {
        None => None,
        Some(id) => if id == 0 {
            None
        } else {
            match default_transport {
                Some(t) => if t == TRANSPORT_BLUETOOTH || t == TRANSPORT_BLUETOOTH_LE {
                    match first_builtin_input(devices) {
                        Some(i) => Some(devices[i].uid),
                        None => None,
                    }
                } else {
                    None
                },
                None => None,
            }
        },
    }
}

proof fn lemma_first_builtin_step(devices: Seq<CoreAudioDevice>, i: int)
    requires
        0 <= i < devices.len(),
        first_builtin_input(devices.take(i)) is None,
    ensures
        first_builtin_input(devices.take(i + 1)) == (if is_builtin_input(devices[i]) {
            Some(i)
        } else {
            None::<int>
        }),
{
    assert(devices.take(i + 1).drop_last() =~= devices.take(i));
}

proof fn lemma_first_builtin_found(devices: Seq<CoreAudioDevice>, i: int)
    requires
        0 <= i <= devices.len(),
        first_builtin_input(devices.take(i)) is Some,
    ensures
        first_builtin_input(devices) == first_builtin_input(devices.take(i)),
    decreases devices.len() - i,
{
    if i < devices.len() {
        assert(devices.take(i + 1).drop_last() =~= devices.take(i));
        lemma_first_builtin_found(devices, i + 1);
    } else {
        assert(devices.take(i) =~= devices);
    }
}

/// Picks the built-in microphone when the default input is a Bluetooth
/// hands-free microphone: `default_device` is the default input device id,
/// `default_transport` its transport type, and `devices` every device in
/// CoreAudio's order.
pub fn builtin_input_uid_when_default_is_bluetooth(
    default_device: Option<u32>,
    default_transport: Option<u32>,
    devices: &Vec<CoreAudioDevice>,
) -> (r: Option<String>)
    ensures
        opt_view(r) == (match builtin_replacement(default_device, default_transport, devices@) {
            Some(u) => opt_view(u),
            None => None,
        }),
{
    let id = match default_device {
        Some(id) => id,
        None => return None,
    };
    if id == 0 {
        return None;
    }
    let transport = match default_transport {
        Some(t) => t,
        None => return None,
    };
    if transport != TRANSPORT_BLUETOOTH && transport != TRANSPORT_BLUETOOTH_LE {
        return None;
    }
    let mut i: usize = 0;
    while i < devices.len()
        invariant
            i <= devices@.len(),
            first_builtin_input(devices@.take(i as int)) is None,
            default_device == Some(id),
            id != 0,
            default_transport == Some(transport),
            transport == TRANSPORT_BLUETOOTH || transport == TRANSPORT_BLUETOOTH_LE,
        decreases devices.len() - i,
    {
        proof {
            lemma_first_builtin_step(devices@, i as int);
        }
        let d = &devices[i];
        let built_in = match d.transport {
            Some(t) => t == TRANSPORT_BUILT_IN,
            None => false,
        };
        if d.has_input_streams && built_in {
            proof {
                lemma_first_builtin_found(devices@, i + 1);
            }
            return match &d.uid {
                Some(u) => Some(u.clone()),
                None => None,
            };
        }
        i = i + 1;
    }
    assert(devices@.take(devices@.len() as int) =~= devices@);
    None
}

/// `SystemTime::now().duration_since(UNIX_EPOCH)` in whole milliseconds
/// (`as u64`), or the error's text when the clock reads before the epoch.
/// Nothing is claimed of the reading: it is the machine's clock.
#[verifier::external_body]
fn system_time_since_epoch_ms() -> Result<u64, String> {
    match std::time::SystemTime::now().duration_since(std::time::UNIX_EPOCH) {
        Ok(duration) => Ok(duration.as_millis() as u64),
        Err(error) => Err(error.to_string()),
    }
}

/// What a reading of the wall clock comes to: the milliseconds, or, for a
/// clock set before the epoch, a `system_time_error` carrying the reason.
pub fn clock_reading_result(reading: Result<u64, String>) -> (r: Result<u64, AppError>)
    ensures
        reading matches Ok(ms) ==> r == Ok::<u64, AppError>(ms),
        reading matches Err(detail) ==> (r matches Err(e) && e.is(
            "system_time_error"@,
            "System clock is before the Unix epoch."@,
        ) && e.details == Some(detail)),
{
    match reading {
        Ok(ms) => Ok(ms),
        Err(detail) => Err(
            app_error("system_time_error", "System clock is before the Unix epoch.", Some(detail)),
        ),
    }
}

/// Wall-clock milliseconds since the Unix epoch, as
/// [`clock_reading_result`] makes of the clock's reading. A clock set
/// before the epoch is a `system_time_error`.
pub fn current_time_ms() -> (r: Result<u64, AppError>)
    ensures
        r matches Err(e) ==> e.is(
            "system_time_error"@,
            "System clock is before the Unix epoch."@,
        ) && e.details is Some,
{
    clock_reading_result(system_time_since_epoch_ms())
}

} // verus!
