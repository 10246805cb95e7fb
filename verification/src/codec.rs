//! The engine's command wire format.
//!
//! Every command is one JSON record of the shape
//! `{"command":[<verb>, <args>...]}`; the transport terminates each record
//! with a newline.  Encoding is pure and total over well-formed commands,
//! and the exact byte sequence of every record is pinned down by
//! [`spec_encode`].

use vstd::prelude::*;

use vstd::string::StringSliceAdditionalSpecFns;
use vstd::utf8::encode_utf8;

use crate::state::MAX_VOLUME;

verus! {

/// Byte that terminates each command record on the wire.
pub const RECORD_TERMINATOR: u8 = 10;

/// Whether a load replaces what is playing or appends to the engine's
/// internal playlist.
#[derive(Clone, Copy, Debug, PartialEq, Eq, Structural)]
pub enum LoadMode {
    Replace,
    Append,
}

/// A volume change, either relative or absolute.
#[derive(Clone, Copy, Debug, PartialEq, Eq, Structural)]
pub enum VolumeSpec {
    Delta(i64),
    Absolute(i64),
}

/// The engine's repeat behaviour.
#[derive(Clone, Copy, Debug, PartialEq, Eq, Structural)]
pub enum RepeatMode {
    Off,
    Track,
    Playlist,
}

/// A structured, protocol-level instruction for the engine.  Each variant
/// maps to exactly one serialized record.
#[derive(Clone, Debug)]
pub enum EngineCommand {
    LoadTrack { location: String, mode: LoadMode },
    TogglePause,
    SetVolume(VolumeSpec),
    SetRepeatMode(RepeatMode),
    Stop,
}

/// Well-formedness of a command: volume levels must lie in the range the
/// state mirror keeps, deltas within one full sweep of it.
pub open spec fn wf_command(c: EngineCommand) -> bool {
    match c {
        EngineCommand::SetVolume(VolumeSpec::Delta(d)) => -MAX_VOLUME <= d <= MAX_VOLUME,
        EngineCommand::SetVolume(VolumeSpec::Absolute(v)) => 0 <= v <= MAX_VOLUME,
        _ => true,
    }
}

/// The byte standing for hex digit `n`, lowercase.
pub open spec fn hex_digit(n: u8) -> u8 {
    if n < 10 {
        (48 + n) as u8
    } else {
        (87 + n) as u8
    }
}

/// How one byte of a string argument appears inside a JSON string: quote
/// and backslash are escaped, control bytes become `\u00XX`, everything
/// else (including multi-byte UTF-8) passes through unchanged.
pub open spec fn escape_byte(b: u8) -> Seq<u8> {
    if b == 34 {
        seq![92u8, 34u8]
    } else if b == 92 {
        seq![92u8, 92u8]
    } else if b < 32 {
        seq![92u8, 117u8, 48u8, 48u8, hex_digit(b / 16), hex_digit(b % 16)]
    } else {
        seq![b]
    }
}

/// JSON string escaping over whole byte sequences.
pub open spec fn json_escape(s: Seq<u8>) -> Seq<u8>
    decreases s.len(),
{
    if s.len() == 0 {
        Seq::empty()
    } else {
        json_escape(s.drop_last()) + escape_byte(s.last())
    }
}

/// Decimal digits of `n`, most significant first.
pub open spec fn dec_digits(n: nat) -> Seq<u8>
    decreases n,
{
    if n < 10 {
        seq![(48 + n) as u8]
    } else {
        dec_digits(n / 10).push((48 + n % 10) as u8)
    }
}

/// Decimal rendering of a possibly negative number.
pub open spec fn dec_signed(n: int) -> Seq<u8> {
    if n < 0 {
        seq![45u8] + dec_digits((-n) as nat)
    } else {
        dec_digits(n as nat)
    }
}

/// The exact bytes of the record that carries `c`, terminator excluded.
pub open spec fn spec_encode(c: EngineCommand) -> Seq<u8> {
    match c {
        EngineCommand::LoadTrack { location, mode } => {
            encode_utf8("{\"command\":[\"loadfile\",\""@) + json_escape(encode_utf8(location@))
                + (if mode == LoadMode::Replace {
                encode_utf8("\",\"replace\"]}"@)
            } else {
                encode_utf8("\",\"append\"]}"@)
            })
        },
        EngineCommand::TogglePause => encode_utf8("{\"command\":[\"cycle\",\"pause\"]}"@),
        EngineCommand::SetVolume(VolumeSpec::Delta(d)) => {
            encode_utf8("{\"command\":[\"add\",\"volume\","@) + dec_signed(d as int) + encode_utf8(
                "]}"@,
            )
        },
        EngineCommand::SetVolume(VolumeSpec::Absolute(v)) => {
            encode_utf8("{\"command\":[\"set_property\",\"volume\","@) + dec_signed(v as int)
                + encode_utf8("]}"@)
        },
        EngineCommand::SetRepeatMode(RepeatMode::Off) => encode_utf8(
            "{\"command\":[\"set_property\",\"loop-file\",\"no\"]}"@,
        ),
        EngineCommand::SetRepeatMode(RepeatMode::Track) => encode_utf8(
            "{\"command\":[\"set_property\",\"loop-file\",\"inf\"]}"@,
        ),
        EngineCommand::SetRepeatMode(RepeatMode::Playlist) => encode_utf8(
            "{\"command\":[\"set_property\",\"loop-playlist\",true]}"@,
        ),
        EngineCommand::Stop => encode_utf8("{\"command\":[\"stop\"]}"@),
    }
}

/// Appends the UTF-8 bytes of `s` to `out`.
fn append_literal(out: &mut Vec<u8>, s: &str)
    ensures
        final(out)@ == old(out)@ + encode_utf8(s@),
{
    let b = s.as_bytes();
    let n = b.len();
    let mut idx: usize = 0;
    while idx < n
        invariant
            idx <= n,
            n == b@.len(),
            b@ == s.spec_bytes(),
            out@ == old(out)@ + b@.take(idx as int),
        decreases n - idx,
    {
        out.push(b[idx]);
        idx = idx + 1;
        proof {
            assert(b@.take(idx as int) =~= b@.take(idx - 1).push(b@[idx - 1]));
            assert(out@ =~= old(out)@ + b@.take(idx as int));
        }
    }
    proof {
        assert(b@.take(n as int) =~= b@);
    }
}

/// The byte for hex digit `n`.
fn hex_digit_byte(n: u8) -> (r: u8)
    requires
        n < 16,
    ensures
        r == hex_digit(n),
{
    if n < 10 {
        48 + n
    } else {
        87 + n
    }
}

/// Appends the UTF-8 bytes of `s`, JSON-escaped, to `out`.
fn append_escaped(out: &mut Vec<u8>, s: &str)
    ensures
        final(out)@ == old(out)@ + json_escape(encode_utf8(s@)),
{
    let b = s.as_bytes();
    let n = b.len();
    let mut idx: usize = 0;
    while idx < n
        invariant
            idx <= n,
            n == b@.len(),
            b@ == s.spec_bytes(),
            out@ == old(out)@ + json_escape(b@.take(idx as int)),
        decreases n - idx,
    {
        let byte = b[idx];
        if byte == 34 {
            out.push(92);
            out.push(34);
        } else if byte == 92 {
            out.push(92);
            out.push(92);
        } else if byte < 32 {
            out.push(92);
            out.push(117);
            out.push(48);
            out.push(48);
            out.push(hex_digit_byte(byte / 16));
            out.push(hex_digit_byte(byte % 16));
        } else {
            out.push(byte);
        }
        idx = idx + 1;
        proof {
            assert(b@.take(idx as int).drop_last() =~= b@.take(idx - 1));
            assert(b@.take(idx as int).last() == byte);
            assert(out@ =~= old(out)@ + json_escape(b@.take(idx as int)));
        }
    }
    proof {
        assert(b@.take(n as int) =~= b@);
    }
}

/// Appends the decimal digits of `n` to `out`.
fn push_dec_u64(out: &mut Vec<u8>, n: u64)
    ensures
        final(out)@ == old(out)@ + dec_digits(n as nat),
    decreases n,
{
    if n < 10 {
        out.push(48 + n as u8);
    } else {
        push_dec_u64(out, n / 10);
        out.push(48 + (n % 10) as u8);
    }
}

/// Appends the decimal rendering of `n`, with a leading minus sign when it
/// is negative.
fn push_dec_i64(out: &mut Vec<u8>, n: i64)
    requires
        n > i64::MIN,
    ensures
        final(out)@ == old(out)@ + dec_signed(n as int),
{
    if n < 0 {
        out.push(45);
        push_dec_u64(out, (-n) as u64);
        proof {
            assert(out@ =~= old(out)@ + dec_signed(n as int));
        }
    } else {
        push_dec_u64(out, n as u64);
    }
}

/// Serializes a command into the engine's wire record, without the
/// terminator.
pub fn encode(c: &EngineCommand) -> (r: Vec<u8>)
    requires
        wf_command(*c),
    ensures
        r@ == spec_encode(*c),
{
    let mut out: Vec<u8> = Vec::new();
    match c {
        EngineCommand::LoadTrack { location, mode } => {
            append_literal(&mut out, "{\"command\":[\"loadfile\",\"");
            append_escaped(&mut out, location.as_str());
            match mode {
                LoadMode::Replace => append_literal(&mut out, "\",\"replace\"]}"),
                LoadMode::Append => append_literal(&mut out, "\",\"append\"]}"),
            }
        },
        EngineCommand::TogglePause => {
            append_literal(&mut out, "{\"command\":[\"cycle\",\"pause\"]}");
        },
        EngineCommand::SetVolume(spec) => {
            match spec {
                VolumeSpec::Delta(d) => {
                    append_literal(&mut out, "{\"command\":[\"add\",\"volume\",");
                    push_dec_i64(&mut out, *d);
                    append_literal(&mut out, "]}");
                },
                VolumeSpec::Absolute(v) => {
                    append_literal(&mut out, "{\"command\":[\"set_property\",\"volume\",");
                    push_dec_i64(&mut out, *v);
                    append_literal(&mut out, "]}");
                },
            }
        },
        EngineCommand::SetRepeatMode(mode) => {
            match mode {
                RepeatMode::Off => {
                    append_literal(&mut out, "{\"command\":[\"set_property\",\"loop-file\",\"no\"]}");
                },
                RepeatMode::Track => {
                    append_literal(
                        &mut out,
                        "{\"command\":[\"set_property\",\"loop-file\",\"inf\"]}",
                    );
                },
                RepeatMode::Playlist => {
                    append_literal(
                        &mut out,
                        "{\"command\":[\"set_property\",\"loop-playlist\",true]}",
                    );
                },
            }
        },
        EngineCommand::Stop => {
            append_literal(&mut out, "{\"command\":[\"stop\"]}");
        },
    }
    proof {
        assert(out@ =~= spec_encode(*c));
    }
    out
}

/// Serializes a command as one full wire record, terminator included.
pub fn encode_record(c: &EngineCommand) -> (r: Vec<u8>)
    requires
        wf_command(*c),
    ensures
        r@ == spec_encode(*c).push(RECORD_TERMINATOR),
{
    let mut out = encode(c);
    out.push(RECORD_TERMINATOR);
    out
}

} // verus!
