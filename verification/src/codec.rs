//! The binary codec for the sidecar record.
//!
//! The sidecar holds a compact, self-describing encoding of the three
//! metadata fields, in this exact layout:
//!
//! - byte 0: frame-rate tag (`TAG_RATE_LINEAR`), followed by the rate as a
//!   32-bit little-endian two's-complement integer in bytes 1..5;
//! - byte 5: the play direction (`TAG_DIRECTION_FORWARD` or
//!   `TAG_DIRECTION_BACKWARD`);
//! - byte 6: the looping tag; the keyframed tags are followed by the start
//!   and end keyframes, each a 32-bit little-endian integer;
//! - nothing after that: trailing bytes make the record malformed.
//!
//! `spec_encode_record` is the definition of the format;
//! `spec_decode_record` accepts exactly the byte strings that
//! `spec_encode_record` produces, and nothing else
//! (`lemma_sidecar_round_trip`, `lemma_decode_sound`).

use vstd::arithmetic::div_mod::{
    lemma_div_denominator, lemma_fundamental_div_mod, lemma_fundamental_div_mod_converse,
    lemma_mod_bound, lemma_multiply_divide_lt, lemma_small_mod,
};
use vstd::prelude::*;

use crate::model::{
    AnimatedFrameRate, AnimatedLoopingTechnique, AnimatedPlayDirection, SidecarRecord,
};

verus! {

pub const TAG_RATE_LINEAR: u8 = 0;

pub const TAG_DIRECTION_FORWARD: u8 = 0;

pub const TAG_DIRECTION_BACKWARD: u8 = 1;

pub const TAG_LOOP_INFINITE_LINEAR: u8 = 0;

pub const TAG_LOOP_INFINITE_BOUNCING: u8 = 1;

pub const TAG_LOOP_KEYFRAMED: u8 = 2;

pub const TAG_LOOP_KEYFRAMED_BOUNCING: u8 = 3;

pub const TAG_LOOP_NO_LOOP: u8 = 4;

/// The value of `v` read as an unsigned 32-bit quantity: the number the
/// four encoded bytes stand for.
pub open spec fn spec_unsigned32(v: i32) -> int {
    if v < 0 {
        v + 0x1_0000_0000
    } else {
        v as int
    }
}

/// The four little-endian bytes of `v`.
pub open spec fn spec_i32_le(v: i32) -> Seq<u8> {
    let n = spec_unsigned32(v);
    seq![
        (n % 0x100) as u8,
        ((n / 0x100) % 0x100) as u8,
        ((n / 0x10000) % 0x100) as u8,
        ((n / 0x1000000) % 0x100) as u8,
    ]
}

/// The signed 32-bit value the four little-endian bytes stand for.
pub open spec fn spec_i32_from_le(b0: u8, b1: u8, b2: u8, b3: u8) -> i32 {
    let n = b0 as int + 0x100 * (b1 as int) + 0x10000 * (b2 as int) + 0x1000000 * (b3 as int);
    if n >= 0x8000_0000 {
        (n - 0x1_0000_0000) as i32
    } else {
        n as i32
    }
}

pub open spec fn spec_encode_rate(r: AnimatedFrameRate) -> Seq<u8> {
    match r {
        AnimatedFrameRate::LinearFramePerSecond(v) => seq![TAG_RATE_LINEAR] + spec_i32_le(v),
    }
}

pub open spec fn spec_encode_direction(d: AnimatedPlayDirection) -> Seq<u8> {
    match d {
        AnimatedPlayDirection::Forward => seq![TAG_DIRECTION_FORWARD],
        AnimatedPlayDirection::Backward => seq![TAG_DIRECTION_BACKWARD],
    }
}

pub open spec fn spec_encode_looping(l: AnimatedLoopingTechnique) -> Seq<u8> {
    match l {
        AnimatedLoopingTechnique::InfiniteLinear => seq![TAG_LOOP_INFINITE_LINEAR],
        AnimatedLoopingTechnique::InfiniteBouncing => seq![TAG_LOOP_INFINITE_BOUNCING],
        AnimatedLoopingTechnique::Keyframed { start, end } => seq![TAG_LOOP_KEYFRAMED]
            + spec_i32_le(start) + spec_i32_le(end),
        AnimatedLoopingTechnique::KeyframedBouncing { start, end } => seq![
            TAG_LOOP_KEYFRAMED_BOUNCING,
        ] + spec_i32_le(start) + spec_i32_le(end),
        AnimatedLoopingTechnique::NoLoop => seq![TAG_LOOP_NO_LOOP],
    }
}

/// The byte string the sidecar file holds for the record `m`: the
/// definition of the sidecar format.
pub open spec fn spec_encode_record(m: SidecarRecord) -> Seq<u8> {
    spec_encode_rate(m.fps) + spec_encode_direction(m.direction) + spec_encode_looping(m.looping)
}

pub open spec fn spec_decode_looping(b: Seq<u8>) -> Option<AnimatedLoopingTechnique> {
    if b.len() == 1 {
        if b[0] == TAG_LOOP_INFINITE_LINEAR {
            Some(AnimatedLoopingTechnique::InfiniteLinear)
        } else if b[0] == TAG_LOOP_INFINITE_BOUNCING {
            Some(AnimatedLoopingTechnique::InfiniteBouncing)
        } else if b[0] == TAG_LOOP_NO_LOOP {
            Some(AnimatedLoopingTechnique::NoLoop)
        } else {
            None
        }
    } else if b.len() == 9 {
        let start = spec_i32_from_le(b[1], b[2], b[3], b[4]);
        let end = spec_i32_from_le(b[5], b[6], b[7], b[8]);
        if b[0] == TAG_LOOP_KEYFRAMED {
            Some(AnimatedLoopingTechnique::Keyframed { start, end })
        } else if b[0] == TAG_LOOP_KEYFRAMED_BOUNCING {
            Some(AnimatedLoopingTechnique::KeyframedBouncing { start, end })
        } else {
            None
        }
    } else {
        None
    }
}

/// The record a byte string stands for, if it is a well-formed sidecar.
pub open spec fn spec_decode_record(b: Seq<u8>) -> Option<SidecarRecord> {
    if b.len() >= 6 && b[0] == TAG_RATE_LINEAR && (b[5] == TAG_DIRECTION_FORWARD || b[5]
        == TAG_DIRECTION_BACKWARD) {
        let fps = AnimatedFrameRate::LinearFramePerSecond(
            spec_i32_from_le(b[1], b[2], b[3], b[4]),
        );
        let direction = if b[5] == TAG_DIRECTION_FORWARD {
            AnimatedPlayDirection::Forward
        } else {
            AnimatedPlayDirection::Backward
        };
        match spec_decode_looping(b.skip(6)) {
            Some(looping) => Some(SidecarRecord { fps, direction, looping }),
            None => None,
        }
    } else {
        None
    }
}

proof fn lemma_le_decompose(n: int)
    requires
        0 <= n < 0x1_0000_0000,
    ensures
        n == n % 0x100 + 0x100 * ((n / 0x100) % 0x100) + 0x10000 * ((n / 0x10000) % 0x100)
            + 0x1000000 * ((n / 0x1000000) % 0x100),
        0 <= n % 0x100 < 0x100,
        0 <= (n / 0x100) % 0x100 < 0x100,
        0 <= (n / 0x10000) % 0x100 < 0x100,
        0 <= (n / 0x1000000) % 0x100 < 0x100,
{
    lemma_mod_bound(n, 0x100);
    lemma_mod_bound(n / 0x100, 0x100);
    lemma_mod_bound(n / 0x10000, 0x100);
    lemma_mod_bound(n / 0x1000000, 0x100);
    lemma_fundamental_div_mod(n, 0x100);
    lemma_div_denominator(n, 0x100, 0x100);
    lemma_fundamental_div_mod(n / 0x100, 0x100);
    lemma_div_denominator(n, 0x10000, 0x100);
    lemma_fundamental_div_mod(n / 0x10000, 0x100);
    lemma_multiply_divide_lt(n, 0x1000000, 0x100);
    lemma_small_mod((n / 0x1000000) as nat, 0x100);
}

/// Reading back the four little-endian bytes of a value gives the value.
pub proof fn lemma_i32_le_roundtrip(v: i32)
    ensures
        spec_i32_le(v).len() == 4,
        spec_i32_from_le(
            spec_i32_le(v)[0],
            spec_i32_le(v)[1],
            spec_i32_le(v)[2],
            spec_i32_le(v)[3],
        ) == v,
{
    let n = spec_unsigned32(v);
    lemma_le_decompose(n);
}

/// Every four-byte string is the little-endian encoding of the value it
/// reads back as: the byte level codec loses nothing in either direction.
pub proof fn lemma_i32_le_inverse(b0: u8, b1: u8, b2: u8, b3: u8)
    ensures
        spec_i32_le(spec_i32_from_le(b0, b1, b2, b3)) == seq![b0, b1, b2, b3],
{
    let n = b0 as int + 0x100 * (b1 as int) + 0x10000 * (b2 as int) + 0x1000000 * (b3 as int);
    let v = spec_i32_from_le(b0, b1, b2, b3);
    assert(spec_unsigned32(v) == n);
    let q1 = b1 as int + 0x100 * (b2 as int) + 0x10000 * (b3 as int);
    let q2 = b2 as int + 0x100 * (b3 as int);
    lemma_fundamental_div_mod_converse(n, 0x100, q1, b0 as int);
    lemma_fundamental_div_mod_converse(q1, 0x100, q2, b1 as int);
    lemma_fundamental_div_mod_converse(q2, 0x100, b3 as int, b2 as int);
    lemma_div_denominator(n, 0x100, 0x100);
    lemma_div_denominator(n, 0x10000, 0x100);
    lemma_small_mod(b3 as nat, 0x100);
    assert(spec_i32_le(v) =~= seq![b0, b1, b2, b3]);
}

/// Round-trip law: decoding what was encoded gives back the record, for
/// every frame rate, direction and looping technique.
pub proof fn lemma_sidecar_round_trip(m: SidecarRecord)
    ensures
        spec_decode_record(spec_encode_record(m)) == Some(m),
{
    let b = spec_encode_record(m);
    let AnimatedFrameRate::LinearFramePerSecond(v) = m.fps;
    lemma_i32_le_roundtrip(v);
    assert(b.skip(6) =~= spec_encode_looping(m.looping));
    match m.looping {
        AnimatedLoopingTechnique::Keyframed { start, end } => {
            lemma_i32_le_roundtrip(start);
            lemma_i32_le_roundtrip(end);
        },
        AnimatedLoopingTechnique::KeyframedBouncing { start, end } => {
            lemma_i32_le_roundtrip(start);
            lemma_i32_le_roundtrip(end);
        },
        _ => {},
    }
}

/// Decoding is sound: a byte string that decodes at all is exactly the
/// encoding of the record it decodes to — so no two records share an
/// encoding, and no malformed byte string slips through.
pub proof fn lemma_decode_sound(b: Seq<u8>)
    ensures
        spec_decode_record(b) matches Some(m) ==> spec_encode_record(m) == b,
{
    if spec_decode_record(b) is Some {
        let m = spec_decode_record(b)->0;
        lemma_i32_le_inverse(b[1], b[2], b[3], b[4]);
        let lb = b.skip(6);
        if lb.len() == 9 {
            lemma_i32_le_inverse(lb[1], lb[2], lb[3], lb[4]);
            lemma_i32_le_inverse(lb[5], lb[6], lb[7], lb[8]);
        }
        assert(spec_encode_looping(m.looping) =~= lb);
        assert(spec_encode_record(m) =~= b);
    }
}

/// Appends the four little-endian bytes of `v`.
fn push_i32_le(out: &mut Vec<u8>, v: i32)
    ensures
        final(out)@ == old(out)@ + spec_i32_le(v),
{
    let wide: i64 = v as i64;
    let n: i64 = if wide < 0 {
        wide + 0x1_0000_0000
    } else {
        wide
    };
    proof {
        assert(n as int == spec_unsigned32(v));
        lemma_le_decompose(n as int);
    }
    out.push((n % 0x100) as u8);
    out.push((n / 0x100 % 0x100) as u8);
    out.push((n / 0x10000 % 0x100) as u8);
    out.push((n / 0x1000000 % 0x100) as u8);
    assert(out@ =~= old(out)@ + spec_i32_le(v));
}

/// Reads the signed 32-bit value stored little-endian at `at`.
fn read_i32_le(bytes: &Vec<u8>, at: usize) -> (r: i32)
    requires
        at + 4 <= bytes@.len(),
    ensures
        r == spec_i32_from_le(bytes@[at as int], bytes@[at + 1], bytes@[at + 2], bytes@[at + 3]),
{
    let _len = bytes.len();
    let n: i64 = bytes[at] as i64 + 0x100 * (bytes[at + 1] as i64) + 0x10000 * (
    bytes[at + 2] as i64) + 0x1000000 * (bytes[at + 3] as i64);
    if n >= 0x8000_0000 {
        (n - 0x1_0000_0000) as i32
    } else {
        n as i32
    }
}

/// Encodes the record into the sidecar byte string.
pub fn encode_record(m: &SidecarRecord) -> (r: Vec<u8>)
    ensures
        r@ == spec_encode_record(*m),
{
    let mut out: Vec<u8> = Vec::new();
    match m.fps {
        AnimatedFrameRate::LinearFramePerSecond(v) => {
            out.push(TAG_RATE_LINEAR);
            push_i32_le(&mut out, v);
        },
    }
    match m.direction {
        AnimatedPlayDirection::Forward => out.push(TAG_DIRECTION_FORWARD),
        AnimatedPlayDirection::Backward => out.push(TAG_DIRECTION_BACKWARD),
    }
    match m.looping {
        AnimatedLoopingTechnique::InfiniteLinear => out.push(TAG_LOOP_INFINITE_LINEAR),
        AnimatedLoopingTechnique::InfiniteBouncing => out.push(TAG_LOOP_INFINITE_BOUNCING),
        AnimatedLoopingTechnique::Keyframed { start, end } => {
            out.push(TAG_LOOP_KEYFRAMED);
            push_i32_le(&mut out, start);
            push_i32_le(&mut out, end);
        },
        AnimatedLoopingTechnique::KeyframedBouncing { start, end } => {
            out.push(TAG_LOOP_KEYFRAMED_BOUNCING);
            push_i32_le(&mut out, start);
            push_i32_le(&mut out, end);
        },
        AnimatedLoopingTechnique::NoLoop => out.push(TAG_LOOP_NO_LOOP),
    }
    assert(out@ =~= spec_encode_record(*m));
    out
}

/// Decodes a sidecar byte string; `None` exactly when the bytes are not
/// the encoding of any record.
pub fn decode_record(bytes: &Vec<u8>) -> (r: Option<SidecarRecord>)
    ensures
        r == spec_decode_record(bytes@),
{
    if bytes.len() < 7 {
        return None;
    }
    if bytes[0] != TAG_RATE_LINEAR {
        return None;
    }
    let fps = AnimatedFrameRate::LinearFramePerSecond(read_i32_le(bytes, 1));
    let direction = if bytes[5] == TAG_DIRECTION_FORWARD {
        AnimatedPlayDirection::Forward
    } else if bytes[5] == TAG_DIRECTION_BACKWARD {
        AnimatedPlayDirection::Backward
    } else {
        return None;
    };
    let tag = bytes[6];
    if tag == TAG_LOOP_INFINITE_LINEAR || tag == TAG_LOOP_INFINITE_BOUNCING || tag
        == TAG_LOOP_NO_LOOP {
        if bytes.len() != 7 {
            return None;
        }
        let looping = if tag == TAG_LOOP_INFINITE_LINEAR {
            AnimatedLoopingTechnique::InfiniteLinear
        } else if tag == TAG_LOOP_INFINITE_BOUNCING {
            AnimatedLoopingTechnique::InfiniteBouncing
        } else {
            AnimatedLoopingTechnique::NoLoop
        };
        Some(SidecarRecord { fps, direction, looping })
    } else if tag == TAG_LOOP_KEYFRAMED || tag == TAG_LOOP_KEYFRAMED_BOUNCING {
        if bytes.len() != 15 {
            return None;
        }
        let start = read_i32_le(bytes, 7);
        let end = read_i32_le(bytes, 11);
        let looping = if tag == TAG_LOOP_KEYFRAMED {
            AnimatedLoopingTechnique::Keyframed { start, end }
        } else {
            AnimatedLoopingTechnique::KeyframedBouncing { start, end }
        };
        Some(SidecarRecord { fps, direction, looping })
    } else {
        None
    }
}

} // verus!
