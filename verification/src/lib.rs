//! Typed scalar values for a database engine: a closed set of fixed-width
//! scalar kinds (boolean and signed integers of three widths), each with a
//! canonical big-endian binary encoding, decoding keyed by a declared logical
//! data type, conversion from parsed SQL literals, and a total per-kind
//! ordering.

pub mod codec;
pub mod literal;
pub mod value;
