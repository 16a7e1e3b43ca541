//! The tagged scalar value of the engine: its logical data types, its
//! errors, byte decoding and encoding, and the per-kind total ordering.

use vstd::prelude::*;
use core::cmp::Ordering;
use crate::codec::{
    i8_of_be, i16_of_be, i32_of_be, be_of_i8, be_of_i16, be_of_i32, decode_i8, decode_i16,
    decode_i32, encode_i8, encode_i16, encode_i32, lemma_i8_round_trip, lemma_i16_round_trip,
    lemma_i32_round_trip,
};

verus! {

/// A logical data type as the catalog declares it per column. The catalog
/// may declare tags beyond the kinds `Value` can represent today; `Varchar`
/// is such a tag, and operations on it report `ValueError::UnsupportedType`
/// instead of misreading bytes at some other width.
#[derive(Clone, Copy, Debug, PartialEq, Eq, Structural)]
pub enum DataType {
    Boolean,
    TinyInt,
    SmallInt,
    Integer,
    Varchar,
}

/// The caller-recoverable failures of the value core.
#[derive(Clone, Copy, Debug, PartialEq, Eq, Structural)]
pub enum ValueError {
    /// The declared data type has no representable `Value` kind.
    UnsupportedType,
    /// A literal's text does not parse as a signed integer of the
    /// required width.
    LiteralParseError,
    /// The literal's syntactic kind has no corresponding `Value` kind.
    UnsupportedLiteral,
    /// A comparison was attempted across two different kinds.
    TypeMismatch,
}

/// A scalar value: exactly one kind active at a time, immutable once
/// constructed, with no identity beyond its payload.
//
// A NULL kind is deliberately absent: its representation and its place in
// the ordering belong to a later extension, not to this closed set.
#[derive(Clone, Debug, PartialEq, Eq, Structural)]
pub enum Value {
    Boolean(bool),
    TinyInt(i8),
    SmallInt(i16),
    Integer(i32),
}

/// The logical data type that a value's kind matches.
pub open spec fn spec_data_type_of(v: Value) -> DataType {
    match v {
        Value::Boolean(_) => DataType::Boolean,
        Value::TinyInt(_) => DataType::TinyInt,
        Value::SmallInt(_) => DataType::SmallInt,
        Value::Integer(_) => DataType::Integer,
    }
}

/// Whether a declared data type is one of the kinds `Value` represents.
pub open spec fn spec_supported(data_type: DataType) -> bool {
    match data_type {
        DataType::Boolean => true,
        DataType::TinyInt => true,
        DataType::SmallInt => true,
        DataType::Integer => true,
        DataType::Varchar => false,
    }
}

/// The encoded byte width of a representable data type.
pub open spec fn spec_width(data_type: DataType) -> nat
    recommends
        spec_supported(data_type),
{
    match data_type {
        DataType::Boolean => 1,
        DataType::TinyInt => 1,
        DataType::SmallInt => 2,
        DataType::Integer => 4,
        DataType::Varchar => 0,
    }
}

/// The value that the leading bytes of `bytes` denote under a representable
/// data type: big-endian two's complement for the integers, and any nonzero
/// byte for boolean true (decoding is permissive).
pub open spec fn spec_decode(bytes: Seq<u8>, data_type: DataType) -> Value
    recommends
        spec_supported(data_type),
        bytes.len() >= spec_width(data_type),
{
    match data_type {
        DataType::Boolean => Value::Boolean(bytes[0] != 0),
        DataType::TinyInt => Value::TinyInt(i8_of_be(bytes[0]) as i8),
        DataType::SmallInt => Value::SmallInt(i16_of_be(bytes[0], bytes[1]) as i16),
        DataType::Integer => Value::Integer(
            i32_of_be(bytes[0], bytes[1], bytes[2], bytes[3]) as i32,
        ),
        DataType::Varchar => Value::Boolean(false),
    }
}

/// The canonical encoding of a value: fixed-width big-endian two's
/// complement for the integers, and exactly `0x00` or `0x01` for booleans
/// (encoding is canonicalizing even though decoding is permissive).
pub open spec fn spec_encode(v: Value) -> Seq<u8> {
    match v {
        Value::Boolean(b) => seq![if b { 1u8 } else { 0u8 }],
        Value::TinyInt(x) => be_of_i8(x),
        Value::SmallInt(x) => be_of_i16(x),
        Value::Integer(x) => be_of_i32(x),
    }
}

/// The payload of a value mapped into the integers, preserving each kind's
/// native order (false before true for booleans).
pub open spec fn spec_key(v: Value) -> int {
    match v {
        Value::Boolean(b) => if b { 1 } else { 0 },
        Value::TinyInt(x) => x as int,
        Value::SmallInt(x) => x as int,
        Value::Integer(x) => x as int,
    }
}

/// The order of two integers as an `Ordering`.
pub open spec fn spec_cmp_int(a: int, b: int) -> Ordering {
    if a < b {
        Ordering::Less
    } else if a == b {
        Ordering::Equal
    } else {
        Ordering::Greater
    }
}

/// What comparing two values yields: the native order of the payloads when
/// the kinds agree, and `TypeMismatch` otherwise.
pub open spec fn spec_compare(a: Value, b: Value) -> Result<Ordering, ValueError> {
    if spec_data_type_of(a) == spec_data_type_of(b) {
        Ok(spec_cmp_int(spec_key(a), spec_key(b)))
    } else {
        Err(ValueError::TypeMismatch)
    }
}

impl Value {
    /// Decodes the leading bytes of `bytes` as a value of the kind that
    /// `data_type` declares. Only the required leading bytes are consulted;
    /// trailing bytes are ignored. A data type outside the representable
    /// kinds is reported as `UnsupportedType`, never misread at another
    /// width.
    pub fn from_bytes(bytes: &[u8], data_type: DataType) -> (r: Result<Self, ValueError>)
        requires
            spec_supported(data_type) ==> bytes@.len() >= spec_width(data_type),
        ensures
            match r {
                Ok(v) => spec_supported(data_type) && v == spec_decode(bytes@, data_type),
                Err(e) => !spec_supported(data_type) && e == ValueError::UnsupportedType,
            },
    {
        match data_type {
            DataType::Boolean => Ok(Self::Boolean(Self::boolean_from_bytes(bytes))),
            DataType::TinyInt => Ok(Self::TinyInt(decode_i8(bytes[0]))),
            DataType::SmallInt => Ok(Self::SmallInt(decode_i16(bytes[0], bytes[1]))),
            DataType::Integer => Ok(
                Self::Integer(decode_i32(bytes[0], bytes[1], bytes[2], bytes[3])),
            ),
            DataType::Varchar => Err(ValueError::UnsupportedType),
        }
    }

    /// Encodes the value into its canonical fixed-width big-endian bytes:
    /// exactly 1, 1, 2 or 4 of them for Boolean, TinyInt, SmallInt and
    /// Integer respectively.
    pub fn to_bytes(&self) -> (r: Vec<u8>)
        ensures
            r@ == spec_encode(*self),
            r@.len() == spec_width(spec_data_type_of(*self)),
    {
        match self {
            Self::Boolean(v) => Self::boolean_to_bytes(*v),
            Self::TinyInt(v) => {
                let b0 = encode_i8(*v);
                let r = vec![b0];
                proof {
                    assert(r@ =~= seq![b0]);
                }
                r
            },
            Self::SmallInt(v) => {
                let bs = encode_i16(*v);
                let r = vec![bs.0, bs.1];
                proof {
                    assert(r@ =~= seq![bs.0, bs.1]);
                }
                r
            },
            Self::Integer(v) => {
                let bs = encode_i32(*v);
                let r = vec![bs.0, bs.1, bs.2, bs.3];
                proof {
                    assert(r@ =~= seq![bs.0, bs.1, bs.2, bs.3]);
                }
                r
            },
        }
    }

    /// Compares two values of the same kind by their payloads' native
    /// order; two values of different kinds are a `TypeMismatch`, never a
    /// numeric answer.
    pub fn compare(&self, other: &Self) -> (r: Result<Ordering, ValueError>)
        ensures
            r == spec_compare(*self, *other),
    {
        match (self, other) {
            (Self::Boolean(v1), Self::Boolean(v2)) => Ok(cmp_bool(*v1, *v2)),
            (Self::TinyInt(v1), Self::TinyInt(v2)) => Ok(
                if *v1 < *v2 {
                    Ordering::Less
                } else if *v1 == *v2 {
                    Ordering::Equal
                } else {
                    Ordering::Greater
                },
            ),
            (Self::SmallInt(v1), Self::SmallInt(v2)) => Ok(
                if *v1 < *v2 {
                    Ordering::Less
                } else if *v1 == *v2 {
                    Ordering::Equal
                } else {
                    Ordering::Greater
                },
            ),
            (Self::Integer(v1), Self::Integer(v2)) => Ok(
                if *v1 < *v2 {
                    Ordering::Less
                } else if *v1 == *v2 {
                    Ordering::Equal
                } else {
                    Ordering::Greater
                },
            ),
            _ => Err(ValueError::TypeMismatch),
        }
    }

    /// Reads a boolean from the leading byte: zero is false, any nonzero
    /// byte is true.
    pub fn boolean_from_bytes(bytes: &[u8]) -> (r: bool)
        requires
            bytes@.len() >= 1,
        ensures
            r == (bytes@[0] != 0),
    {
        bytes[0] != 0
    }

    /// Writes a boolean as its canonical single byte: `0x01` for true,
    /// `0x00` for false, never any other nonzero byte.
    pub fn boolean_to_bytes(value: bool) -> (r: Vec<u8>)
        ensures
            r@ == seq![if value { 1u8 } else { 0u8 }],
    {
        let r = if value {
            vec![1u8]
        } else {
            vec![0u8]
        };
        proof {
            assert(r@ =~= seq![if value { 1u8 } else { 0u8 }]);
        }
        r
    }
}

/// The order of two booleans: false before true.
fn cmp_bool(a: bool, b: bool) -> (r: Ordering)
    ensures
        r == spec_cmp_int(if a { 1int } else { 0int }, if b { 1int } else { 0int }),
{
    if a == b {
        Ordering::Equal
    } else if !a {
        Ordering::Less
    } else {
        Ordering::Greater
    }
}

/// Round-trip law: every representable value decodes back from its own
/// canonical encoding, under the data type its kind matches.
pub proof fn lemma_round_trip(v: Value)
    ensures
        spec_decode(spec_encode(v), spec_data_type_of(v)) == v,
{
    match v {
        Value::Boolean(_) => {},
        Value::TinyInt(x) => lemma_i8_round_trip(x),
        Value::SmallInt(x) => lemma_i16_round_trip(x),
        Value::Integer(x) => lemma_i32_round_trip(x),
    }
}

/// Width law: the canonical encoding of a value is exactly as wide as its
/// data type's fixed width — 1, 1, 2 or 4 bytes, never more or fewer.
pub proof fn lemma_encode_width(v: Value)
    ensures
        spec_encode(v).len() == spec_width(spec_data_type_of(v)),
{
}

/// Ordering law: for two values of the same kind the comparison succeeds,
/// yields exactly one of Less, Equal and Greater, and matches the native
/// signed-integer or boolean order of the payloads.
pub proof fn lemma_compare_total(a: Value, b: Value)
    requires
        spec_data_type_of(a) == spec_data_type_of(b),
    ensures
        spec_compare(a, b) == Ok::<Ordering, ValueError>(spec_cmp_int(spec_key(a), spec_key(b))),
        spec_compare(a, b) == Ok::<Ordering, ValueError>(Ordering::Less) <==> spec_key(a)
            < spec_key(b),
        spec_compare(a, b) == Ok::<Ordering, ValueError>(Ordering::Equal) <==> spec_key(a)
            == spec_key(b),
        spec_compare(a, b) == Ok::<Ordering, ValueError>(Ordering::Greater) <==> spec_key(a)
            > spec_key(b),
{
}

/// Rejection law: comparing values of two different kinds is always the
/// `TypeMismatch` error, never a numeric answer.
pub proof fn lemma_compare_mismatch(a: Value, b: Value)
    requires
        spec_data_type_of(a) != spec_data_type_of(b),
    ensures
        spec_compare(a, b) == Err::<Ordering, ValueError>(ValueError::TypeMismatch),
{
}

} // verus!
