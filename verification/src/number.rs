//! Real numbers as the events carry them.

use vstd::prelude::*;

verus! {

/// A double-precision number, held as the 64 bits of its IEEE 754 encoding.
///
/// Events carry coordinates and never compute with them, so the bits are all
/// that is kept: what is put into an event comes out of it bit for bit. Two
/// values are equal when their bits are, which tells the two zeros apart and
/// makes every not-a-number equal to itself.
#[derive(Copy, Clone, PartialEq, Eq, Hash, Debug, Structural)]
pub struct F64Bits(pub u64);

} // verus!
