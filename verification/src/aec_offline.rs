//! The offline echo-cancellation tool: its command line, and how it frames a
//! reference and a recorded track for the canceller.

use vstd::prelude::*;

use crate::audio::aec::{cancel_frames, frame_count, frames_cancelled, frames_needed, FrameEchoCanceller};
use crate::text::{chars_of, decimal, decimal_chars, push_all, push_str, string_of};

verus! {

pub const SAMPLE_RATE: u32 = 48_000;

pub const CHANNELS: u16 = 1;

pub const BITS_PER_SAMPLE: u16 = 16;

pub const DEFAULT_FRAME_SIZE: usize = 480;

pub const DEFAULT_FILTER_LENGTH: i32 = 9_600;

/// How many frames the tool processes: as many as both tracks have.
pub open spec fn shared_frame_count(reference_len: nat, recorded_len: nat, frame_size: nat) -> nat {
    if frame_count(reference_len, frame_size) < frame_count(recorded_len, frame_size) {
        frame_count(reference_len, frame_size)
    } else {
        frame_count(recorded_len, frame_size)
    }
}

/// How many cleaned samples the tool keeps: the recording's samples in the
/// frames processed.
pub open spec fn shared_out_len(reference_len: nat, recorded_len: nat, frame_size: nat) -> nat {
    let count = shared_frame_count(reference_len, recorded_len, frame_size);
    if recorded_len < count * frame_size {
        recorded_len
    } else {
        count * frame_size
    }
}

/// Echo-cancels `recorded` against `reference`, frame by frame, for as many
/// frames as both tracks have: the last frame of each is padded with
/// silence, and the output keeps as many samples as the recording had in
/// the frames processed. What the canceller is handed and how its answers
/// are joined is as [`frames_cancelled`] says.
pub fn cancel_echo<C: FrameEchoCanceller>(
    reference: &[i16],
    recorded: &[i16],
    frame_size: usize,
    canceller: &mut C,
) -> (r: Vec<i16>)
    requires
        frame_size > 0,
        reference@.len() + frame_size <= usize::MAX,
        recorded@.len() + frame_size <= usize::MAX,
    ensures
        r@.len() == shared_out_len(reference@.len(), recorded@.len(), frame_size as nat),
        exists|states: Seq<C>, outs: Seq<Seq<i16>>|
            #[trigger] frames_cancelled(
                *old(canceller),
                *final(canceller),
                reference@,
                recorded@,
                frame_size as nat,
                shared_frame_count(reference@.len(), recorded@.len(), frame_size as nat),
                shared_out_len(reference@.len(), recorded@.len(), frame_size as nat),
                states,
                outs,
                r@,
            ),
{
    let ref_frames = frames_needed(reference.len(), frame_size);
    let rec_frames = frames_needed(recorded.len(), frame_size);
    let count = if ref_frames < rec_frames {
        ref_frames
    } else {
        rec_frames
    };
    let out_len = if recorded.len() < count * frame_size {
        recorded.len()
    } else {
        count * frame_size
    };
    proof {
        if out_len == recorded.len() {
            assert(count == rec_frames) by (nonlinear_arith)
                requires
                    count <= rec_frames,
                    rec_frames == frame_count(recorded@.len(), frame_size as nat),
                    recorded@.len() <= count * frame_size,
                    frame_size > 0,
            ;
        } else {
            assert(count == frame_count((count * frame_size) as nat, frame_size as nat))
                by (nonlinear_arith)
                requires
                    frame_size > 0,
            ;
        }
    }
    cancel_frames(reference, recorded, frame_size, count, out_len, canceller)
}

/// When the reference covers at least as many frames as the recording, the
/// cleaned track is exactly as long as the recording.
pub proof fn law_cancel_echo_keeps_length(ref_len: nat, rec_len: nat, frame_size: nat)
    requires
        frame_size > 0,
        frame_count(ref_len, frame_size) >= frame_count(rec_len, frame_size),
    ensures
        rec_len <= frame_count(rec_len, frame_size) * frame_size,
{
    assert(rec_len <= ((rec_len + frame_size - 1) / frame_size as int) * frame_size)
        by (nonlinear_arith)
        requires
            frame_size > 0,
    ;
}

/// The tracks must have the same number of samples.
pub fn check_equal_lengths(reference_len: usize, recorded_len: usize) -> (r: Result<(), String>)
    ensures
        r is Ok <==> reference_len == recorded_len,
        r matches Err(m) ==> m@
            == "reference and recorded WAVs must have equal sample counts ("@ + decimal(
            reference_len as nat,
        ) + " != "@ + decimal(recorded_len as nat) + ")"@,
{
    if reference_len == recorded_len {
        return Ok(());
    }
    let mut v = chars_of("reference and recorded WAVs must have equal sample counts (");
    let a = decimal_chars(reference_len as u64);
    push_all(&mut v, &a);
    push_str(&mut v, " != ");
    let b = decimal_chars(recorded_len as u64);
    push_all(&mut v, &b);
    push_str(&mut v, ")");
    Err(string_of(v.as_slice()))
}

/// Why a string is not an integer of the wanted type.
#[derive(Debug, Clone, Copy, PartialEq, Eq, Structural)]
pub enum IntParseError {
    Empty,
    InvalidDigit,
    PosOverflow,
    NegOverflow,
}

/// What `ParseIntError` prints for each kind.
pub open spec fn int_error_text(e: IntParseError) -> Seq<char> {
    match e {
        IntParseError::Empty => "cannot parse integer from empty string"@,
        IntParseError::InvalidDigit => "invalid digit found in string"@,
        IntParseError::PosOverflow => "number too large to fit in target type"@,
        IntParseError::NegOverflow => "number too small to fit in target type"@,
    }
}

pub fn int_error_message(e: IntParseError) -> (r: String)
    ensures
        r@ == int_error_text(e),
{
    match e {
        IntParseError::Empty => "cannot parse integer from empty string".to_owned(),
        IntParseError::InvalidDigit => "invalid digit found in string".to_owned(),
        IntParseError::PosOverflow => "number too large to fit in target type".to_owned(),
        IntParseError::NegOverflow => "number too small to fit in target type".to_owned(),
    }
}

pub open spec fn is_digit(c: char) -> bool {
    '0' <= c && c <= '9'
}

/// Reads decimal digits left to right; the first non-digit, or the first
/// digit that takes the value past `limit`, decides the error.
pub open spec fn digits_value(ds: Seq<char>, limit: int, overflow: IntParseError) -> Result<
    int,
    IntParseError,
>
    decreases ds.len(),
{
    if ds.len() == 0 {
        Ok(0)
    } else {
        match digits_value(ds.drop_last(), limit, overflow) {
            Err(e) => Err(e),
            Ok(v) => if !is_digit(ds.last()) {
                Err(IntParseError::InvalidDigit)
            } else {
                let w = v * 10 + (ds.last() as int - '0' as int);
                if w > limit {
                    Err(overflow)
                } else {
                    Ok(w)
                }
            },
        }
    }
}

/// `str::parse::<usize>`: an optional `+`, then decimal digits.
pub open spec fn parse_unsigned(s: Seq<char>) -> Result<int, IntParseError> {
    if s.len() == 0 {
        Err(IntParseError::Empty)
    } else if s.len() == 1 && (s[0] == '+' || s[0] == '-') {
        Err(IntParseError::InvalidDigit)
    } else if s[0] == '+' {
        digits_value(s.drop_first(), usize::MAX as int, IntParseError::PosOverflow)
    } else {
        digits_value(s, usize::MAX as int, IntParseError::PosOverflow)
    }
}

/// `str::parse::<i32>`: an optional sign, then decimal digits.
pub open spec fn parse_signed(s: Seq<char>) -> Result<int, IntParseError> {
    if s.len() == 0 {
        Err(IntParseError::Empty)
    } else if s.len() == 1 && (s[0] == '+' || s[0] == '-') {
        Err(IntParseError::InvalidDigit)
    } else if s[0] == '-' {
        match digits_value(s.drop_first(), 0x8000_0000, IntParseError::NegOverflow) {
            Ok(v) => Ok(-v),
            Err(e) => Err(e),
        }
    } else if s[0] == '+' {
        digits_value(s.drop_first(), 0x7fff_ffff, IntParseError::PosOverflow)
    } else {
        digits_value(s, 0x7fff_ffff, IntParseError::PosOverflow)
    }
}

fn read_digits(ds: &Vec<char>, from: usize, limit: u64, overflow: IntParseError) -> (r: Result<
    u64,
    IntParseError,
>)
    requires
        from <= ds@.len(),
        limit <= u64::MAX / 16,
    ensures
        match (r, digits_value(ds@.skip(from as int), limit as int, overflow)) {
            (Ok(a), Ok(b)) => a == b,
            (Err(a), Err(b)) => a == b,
            _ => false,
        },
{
    let ghost s = ds@.skip(from as int);
    let mut v: u64 = 0;
    let mut i: usize = from;
    assert(s.take(0) =~= Seq::<char>::empty());
    while i < ds.len()
        invariant
            from <= i <= ds@.len(),
            s == ds@.skip(from as int),
            limit <= u64::MAX / 16,
            v <= limit,
            digits_value(s.take(i - from), limit as int, overflow) == Ok::<int, IntParseError>(
                v as int,
            ),
        decreases ds.len() - i,
    {
        let c = ds[i];
        assert(s.take(i - from + 1).drop_last() =~= s.take(i - from));
        assert(s.take(i - from + 1).last() == c);
        if !('0' <= c && c <= '9') {
            proof {
                lemma_digits_error_sticks(s, i - from + 1, limit as int, overflow);
            }
            return Err(IntParseError::InvalidDigit);
        }
        let d = (c as u32 - '0' as u32) as u64;
        let w = v * 10 + d;
        if w > limit {
            proof {
                lemma_digits_error_sticks(s, i - from + 1, limit as int, overflow);
            }
            return Err(overflow);
        }
        v = w;
        i = i + 1;
    }
    assert(s.take(i - from) =~= s);
    Ok(v)
}

proof fn lemma_digits_error_sticks(s: Seq<char>, n: int, limit: int, overflow: IntParseError)
    requires
        0 <= n <= s.len(),
        digits_value(s.take(n), limit, overflow) is Err,
    ensures
        digits_value(s, limit, overflow) == digits_value(s.take(n), limit, overflow),
    decreases s.len() - n,
{
    if n < s.len() {
        assert(s.take(n + 1).drop_last() =~= s.take(n));
        lemma_digits_error_sticks(s, n + 1, limit, overflow);
    } else {
        assert(s.take(n) =~= s);
    }
}

/// Parses a `usize` as `str::parse` does.
pub fn parse_usize(text: &str) -> (r: Result<usize, IntParseError>)
    ensures
        match (r, parse_unsigned(text@)) {
            (Ok(a), Ok(b)) => a == b,
            (Err(a), Err(b)) => a == b,
            _ => false,
        },
{
    let cs = chars_of(text);
    if cs.len() == 0 {
        return Err(IntParseError::Empty);
    }
    if cs.len() == 1 && (cs[0] == '+' || cs[0] == '-') {
        return Err(IntParseError::InvalidDigit);
    }
    let from: usize = if cs[0] == '+' {
        1
    } else {
        0
    };
    assert(cs@.skip(1) =~= cs@.drop_first());
    assert(cs@.skip(0) =~= cs@);
    let limit: u64 = usize::MAX as u64;
    proof {
        assert(usize::MAX <= u64::MAX);
    }
    if limit > u64::MAX / 16 {
        return read_digits_wide(&cs, from);
    }
    match read_digits(&cs, from, limit, IntParseError::PosOverflow) {
        Ok(v) => Ok(v as usize),
        Err(e) => Err(e),
    }
}

/// Digits read against the full `usize` range, accumulated in `u128`.
fn read_digits_wide(ds: &Vec<char>, from: usize) -> (r: Result<usize, IntParseError>)
    requires
        from <= ds@.len(),
        from == 1 ==> ds@[0] == '+',
        from == 0 || from == 1,
    ensures
        match (r, digits_value(ds@.skip(from as int), usize::MAX as int, IntParseError::PosOverflow)) {
            (Ok(a), Ok(b)) => a == b,
            (Err(a), Err(b)) => a == b,
            _ => false,
        },
{
    let ghost s = ds@.skip(from as int);
    let ghost limit: int = usize::MAX as int;
    let mut v: u128 = 0;
    let mut i: usize = from;
    assert(s.take(0) =~= Seq::<char>::empty());
    while i < ds.len()
        invariant
            from <= i <= ds@.len(),
            s == ds@.skip(from as int),
            limit == usize::MAX as int,
            v <= usize::MAX,
            digits_value(s.take(i - from), limit, IntParseError::PosOverflow) == Ok::<
                int,
                IntParseError,
            >(v as int),
        decreases ds.len() - i,
    {
        let c = ds[i];
        assert(s.take(i - from + 1).drop_last() =~= s.take(i - from));
        assert(s.take(i - from + 1).last() == c);
        if !('0' <= c && c <= '9') {
            proof {
                lemma_digits_error_sticks(s, i - from + 1, limit, IntParseError::PosOverflow);
            }
            return Err(IntParseError::InvalidDigit);
        }
        let d = (c as u32 - '0' as u32) as u128;
        let w = v * 10 + d;
        if w > usize::MAX as u128 {
            proof {
                lemma_digits_error_sticks(s, i - from + 1, limit, IntParseError::PosOverflow);
            }
            return Err(IntParseError::PosOverflow);
        }
        v = w;
        i = i + 1;
    }
    assert(s.take(i - from) =~= s);
    Ok(v as usize)
}

/// Parses an `i32` as `str::parse` does.
pub fn parse_i32(text: &str) -> (r: Result<i32, IntParseError>)
    ensures
        match (r, parse_signed(text@)) {
            (Ok(a), Ok(b)) => a == b,
            (Err(a), Err(b)) => a == b,
            _ => false,
        },
{
    let cs = chars_of(text);
    if cs.len() == 0 {
        return Err(IntParseError::Empty);
    }
    if cs.len() == 1 && (cs[0] == '+' || cs[0] == '-') {
        return Err(IntParseError::InvalidDigit);
    }
    assert(cs@.skip(1) =~= cs@.drop_first());
    assert(cs@.skip(0) =~= cs@);
    if cs[0] == '-' {
        match read_digits(&cs, 1, 0x8000_0000, IntParseError::NegOverflow) {
            Ok(v) => {
                let wide: i64 = v as i64;
                Ok((-wide) as i32)
            },
            Err(e) => Err(e),
        }
    } else {
        let from: usize = if cs[0] == '+' {
            1
        } else {
            0
        };
        match read_digits(&cs, from, 0x7fff_ffff, IntParseError::PosOverflow) {
            Ok(v) => Ok(v as i32),
            Err(e) => Err(e),
        }
    }
}

/// What the command line asked for.
#[derive(Debug, Clone, PartialEq, Eq)]
pub struct CliOptions {
    pub reference: Option<String>,
    pub recorded: Option<String>,
    pub output: Option<String>,
    pub generate_synthetic: bool,
    pub frame_size: usize,
    pub filter_length: i32,
}

/// The tool's usage text.
pub fn usage() -> (r: &'static str)
    ensures
        r@ == usage_text(),
{
    "Usage:\n  aec-offline --reference ref.wav --recorded mic.wav --output clean.wav [--frame-size 480] [--filter-length 9600]\n  aec-offline --generate-synthetic --reference ref.wav --recorded mic.wav [--output clean.wav]\n\nInputs must be 48 kHz mono signed 16-bit PCM WAV."
}

pub open spec fn usage_text() -> Seq<char> {
    "Usage:\n  aec-offline --reference ref.wav --recorded mic.wav --output clean.wav [--frame-size 480] [--filter-length 9600]\n  aec-offline --generate-synthetic --reference ref.wav --recorded mic.wav [--output clean.wav]\n\nInputs must be 48 kHz mono signed 16-bit PCM WAV."@
}

/// The options as plain values.
pub struct CliView {
    pub reference: Option<Seq<char>>,
    pub recorded: Option<Seq<char>>,
    pub output: Option<Seq<char>>,
    pub generate_synthetic: bool,
    pub frame_size: int,
    pub filter_length: int,
}

pub open spec fn cli_view(o: CliOptions) -> CliView {
    CliView {
        reference: crate::domain::opt_view(o.reference),
        recorded: crate::domain::opt_view(o.recorded),
        output: crate::domain::opt_view(o.output),
        generate_synthetic: o.generate_synthetic,
        frame_size: o.frame_size as int,
        filter_length: o.filter_length as int,
    }
}

pub open spec fn default_cli() -> CliView {
    CliView {
        reference: None,
        recorded: None,
        output: None,
        generate_synthetic: false,
        frame_size: DEFAULT_FRAME_SIZE as int,
        filter_length: DEFAULT_FILTER_LENGTH as int,
    }
}

/// Reads the arguments from position `i` on, onto `o`.
pub open spec fn parse_from(args: Seq<Seq<char>>, i: int, o: CliView) -> Result<CliView, Seq<char>>
    decreases args.len() - i,
{
    if i >= args.len() || i < 0 {
        Ok(o)
    } else {
        let a = args[i];
        if a == "--reference"@ || a == "--recorded"@ || a == "--output"@ || a == "--frame-size"@
            || a == "--filter-length"@ {
            if i + 1 >= args.len() {
                Err("missing value for "@ + a)
            } else {
                let v = args[i + 1];
                if a == "--reference"@ {
                    parse_from(args, i + 2, CliView { reference: Some(v), ..o })
                } else if a == "--recorded"@ {
                    parse_from(args, i + 2, CliView { recorded: Some(v), ..o })
                } else if a == "--output"@ {
                    parse_from(args, i + 2, CliView { output: Some(v), ..o })
                } else if a == "--frame-size"@ {
                    match parse_unsigned(v) {
                        Ok(n) => parse_from(args, i + 2, CliView { frame_size: n, ..o }),
                        Err(e) => Err(int_error_text(e)),
                    }
                } else {
                    match parse_signed(v) {
                        Ok(n) => parse_from(args, i + 2, CliView { filter_length: n, ..o }),
                        Err(e) => Err(int_error_text(e)),
                    }
                }
            }
        } else if a == "--generate-synthetic"@ {
            parse_from(args, i + 1, CliView { generate_synthetic: true, ..o })
        } else if a == "--help"@ || a == "-h"@ {
            Err(usage_text())
        } else {
            Err("unknown argument: "@ + a)
        }
    }
}

/// The whole command line: the arguments in order, then a frame size and a
/// filter length that must both be positive.
pub open spec fn parse_cli(args: Seq<Seq<char>>) -> Result<CliView, Seq<char>> {
    match parse_from(args, 0, default_cli()) {
        Err(e) => Err(e),
        Ok(o) => if o.frame_size == 0 {
            Err("--frame-size must be greater than zero"@)
        } else if o.filter_length <= 0 {
            Err("--filter-length must be greater than zero"@)
        } else {
            Ok(o)
        },
    }
}

pub open spec fn arg_views(args: Seq<String>) -> Seq<Seq<char>> {
    args.map_values(|a: String| a@)
}

fn is_flag(a: &Vec<char>, flag: &str) -> (r: bool)
    ensures
        r == (a@ == flag@),
{
    let f = chars_of(flag);
    crate::text::chars_equal(a, &f)
}

fn prefixed(prefix: &str, rest: &String) -> (r: String)
    ensures
        r@ == prefix@ + rest@,
{
    let mut v = chars_of(prefix);
    let r = chars_of(rest.as_str());
    push_all(&mut v, &r);
    string_of(v.as_slice())
}

/// Parses the tool's arguments (without the program name).
pub fn parse_args(args: Vec<String>) -> (r: Result<CliOptions, String>)
    ensures
        match (r, parse_cli(arg_views(args@))) {
            (Ok(a), Ok(b)) => cli_view(a) == b,
            (Err(a), Err(b)) => a@ == b,
            _ => false,
        },
{
    let ghost views = arg_views(args@);
    let mut options = CliOptions {
        reference: None,
        recorded: None,
        output: None,
        generate_synthetic: false,
        frame_size: DEFAULT_FRAME_SIZE,
        filter_length: DEFAULT_FILTER_LENGTH,
    };
    let mut i: usize = 0;
    while i < args.len()
        invariant
            i <= args@.len(),
            views == arg_views(args@),
            parse_from(views, 0, default_cli()) == parse_from(views, i as int, cli_view(options)),
        decreases args.len() - i,
    {
        let a = chars_of(args[i].as_str());
        assert(views[i as int] == a@);
        let takes_value = is_flag(&a, "--reference") || is_flag(&a, "--recorded") || is_flag(
            &a,
            "--output",
        ) || is_flag(&a, "--frame-size") || is_flag(&a, "--filter-length");
        if takes_value {
            if i + 1 >= args.len() {
                return Err(prefixed("missing value for ", &args[i]));
            }
            let v = &args[i + 1];
            assert(views[i + 1] == v@);
            if is_flag(&a, "--reference") {
                options.reference = Some(v.clone());
            } else if is_flag(&a, "--recorded") {
                options.recorded = Some(v.clone());
            } else if is_flag(&a, "--output") {
                options.output = Some(v.clone());
            } else if is_flag(&a, "--frame-size") {
                match parse_usize(v.as_str()) {
                    Ok(n) => {
                        options.frame_size = n;
                    },
                    Err(e) => {
                        return Err(int_error_message(e));
                    },
                }
            } else {
                match parse_i32(v.as_str()) {
                    Ok(n) => {
                        options.filter_length = n;
                    },
                    Err(e) => {
                        return Err(int_error_message(e));
                    },
                }
            }
            i = i + 2;
        } else if is_flag(&a, "--generate-synthetic") {
            options.generate_synthetic = true;
            i = i + 1;
        } else if is_flag(&a, "--help") || is_flag(&a, "-h") {
            return Err(usage().to_owned());
        } else {
            return Err(prefixed("unknown argument: ", &args[i]));
        }
    }
    if options.frame_size == 0 {
        return Err("--frame-size must be greater than zero".to_owned());
    }
    if options.filter_length <= 0 {
        return Err("--filter-length must be greater than zero".to_owned());
    }
    Ok(options)
}

/// A path the chosen mode needs must have been given.
pub fn required_path<'a>(path: &'a Option<String>, flag: &str) -> (r: Result<&'a String, String>)
    ensures
        match path {
            Some(p) => r == Ok::<&String, String>(p),
            None => r matches Err(m) && m@ == "missing required argument "@ + flag@,
        },
{
    match path {
        Some(p) => Ok(p),
        None => {
            let mut v = chars_of("missing required argument ");
            let f = chars_of(flag);
            push_all(&mut v, &f);
            Err(string_of(v.as_slice()))
        },
    }
}

} // verus!
