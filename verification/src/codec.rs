//! Fixed-width big-endian two's-complement byte codec for the signed integer
//! payloads, together with the spec-level statements of what the bytes mean.

use vstd::prelude::*;
use vstd::arithmetic::div_mod::lemma_fundamental_div_mod;

verus! {

/// The signed 8-bit value that a single big-endian byte denotes
/// (two's complement).
pub open spec fn i8_of_be(b0: u8) -> int {
    if b0 < 0x80 {
        b0 as int
    } else {
        b0 - 0x100
    }
}

/// The signed 16-bit value that two big-endian bytes denote
/// (two's complement).
pub open spec fn i16_of_be(b0: u8, b1: u8) -> int {
    let u = b0 * 0x100 + b1;
    if u < 0x8000 {
        u
    } else {
        u - 0x10000
    }
}

/// The signed 32-bit value that four big-endian bytes denote
/// (two's complement).
pub open spec fn i32_of_be(b0: u8, b1: u8, b2: u8, b3: u8) -> int {
    let u = b0 * 0x1000000 + b1 * 0x10000 + b2 * 0x100 + b3;
    if u < 0x80000000 {
        u
    } else {
        u - 0x100000000
    }
}

/// The canonical big-endian byte of an 8-bit signed value.
pub open spec fn be_of_i8(v: i8) -> Seq<u8> {
    seq![(if v < 0 { v + 0x100 } else { v as int }) as u8]
}

/// The canonical big-endian bytes of a 16-bit signed value.
pub open spec fn be_of_i16(v: i16) -> Seq<u8> {
    let u = if v < 0 { v + 0x10000 } else { v as int };
    seq![(u / 0x100) as u8, (u % 0x100) as u8]
}

/// The canonical big-endian bytes of a 32-bit signed value.
pub open spec fn be_of_i32(v: i32) -> Seq<u8> {
    let u = if v < 0 { v + 0x100000000 } else { v as int };
    seq![
        (u / 0x1000000) as u8,
        ((u / 0x10000) % 0x100) as u8,
        ((u / 0x100) % 0x100) as u8,
        (u % 0x100) as u8,
    ]
}

/// Reads an 8-bit signed value from its big-endian byte.
pub fn decode_i8(b0: u8) -> (r: i8)
    ensures
        r as int == i8_of_be(b0),
{
    if b0 < 0x80 {
        b0 as i8
    } else {
        (b0 as i16 - 0x100) as i8
    }
}

/// Reads a 16-bit signed value from its two big-endian bytes.
pub fn decode_i16(b0: u8, b1: u8) -> (r: i16)
    ensures
        r as int == i16_of_be(b0, b1),
{
    let u: u32 = (b0 as u32) * 0x100 + (b1 as u32);
    if u < 0x8000 {
        u as i16
    } else {
        (u as i32 - 0x10000) as i16
    }
}

/// Reads a 32-bit signed value from its four big-endian bytes.
pub fn decode_i32(b0: u8, b1: u8, b2: u8, b3: u8) -> (r: i32)
    ensures
        r as int == i32_of_be(b0, b1, b2, b3),
{
    let u: u64 = (b0 as u64) * 0x1000000 + (b1 as u64) * 0x10000 + (b2 as u64) * 0x100
        + (b3 as u64);
    if u < 0x80000000 {
        u as i32
    } else {
        (u as i64 - 0x100000000) as i32
    }
}

/// Writes an 8-bit signed value as its big-endian byte.
pub fn encode_i8(v: i8) -> (r: u8)
    ensures
        seq![r] == be_of_i8(v),
{
    let r: u8 = if v < 0 {
        (v as i16 + 0x100) as u8
    } else {
        v as u8
    };
    proof {
        assert(seq![r] =~= be_of_i8(v));
    }
    r
}

/// Writes a 16-bit signed value as its two big-endian bytes.
pub fn encode_i16(v: i16) -> (r: (u8, u8))
    ensures
        seq![r.0, r.1] == be_of_i16(v),
{
    let u: u32 = if v < 0 {
        (v as i32 + 0x10000) as u32
    } else {
        v as u32
    };
    let b0: u8 = (u / 0x100) as u8;
    let b1: u8 = (u % 0x100) as u8;
    proof {
        assert(seq![b0, b1] =~= be_of_i16(v));
    }
    (b0, b1)
}

/// Writes a 32-bit signed value as its four big-endian bytes.
pub fn encode_i32(v: i32) -> (r: (u8, u8, u8, u8))
    ensures
        seq![r.0, r.1, r.2, r.3] == be_of_i32(v),
{
    let u: u64 = if v < 0 {
        (v as i64 + 0x100000000) as u64
    } else {
        v as u64
    };
    let b0: u8 = (u / 0x1000000) as u8;
    let b1: u8 = ((u / 0x10000) % 0x100) as u8;
    let b2: u8 = ((u / 0x100) % 0x100) as u8;
    let b3: u8 = (u % 0x100) as u8;
    proof {
        assert(seq![b0, b1, b2, b3] =~= be_of_i32(v));
    }
    (b0, b1, b2, b3)
}

/// The canonical byte of an 8-bit value decodes back to that value.
pub proof fn lemma_i8_round_trip(v: i8)
    ensures
        i8_of_be(be_of_i8(v)[0]) == v as int,
{
}

/// The canonical bytes of a 16-bit value decode back to that value.
pub proof fn lemma_i16_round_trip(v: i16)
    ensures
        i16_of_be(be_of_i16(v)[0], be_of_i16(v)[1]) == v as int,
{
    let u: int = if v < 0 { v + 0x10000 } else { v as int };
    lemma_fundamental_div_mod(u, 0x100);
}

/// The canonical bytes of a 32-bit value decode back to that value.
pub proof fn lemma_i32_round_trip(v: i32)
    ensures
        i32_of_be(be_of_i32(v)[0], be_of_i32(v)[1], be_of_i32(v)[2], be_of_i32(v)[3]) == v as int,
{
    let u: int = if v < 0 { v + 0x100000000 } else { v as int };
    lemma_fundamental_div_mod(u, 0x100);
    lemma_fundamental_div_mod(u / 0x100, 0x100);
    lemma_fundamental_div_mod(u / 0x10000, 0x100);
    assert((u / 0x100) / 0x100 == u / 0x10000) by (nonlinear_arith);
    assert((u / 0x10000) / 0x100 == u / 0x1000000) by (nonlinear_arith);
}

} // verus!
