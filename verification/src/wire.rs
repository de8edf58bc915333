//! Signed offsets as unsigned wire integers, in two's complement.

use vstd::prelude::*;

verus! {

/// Two to the power of 64.
pub open spec fn wire_modulus() -> int {
    0x1_0000_0000_0000_0000
}

/// The wire integer that stands for a signed offset: the offset itself
/// where it is not negative, else the offset plus two to the 64.
pub open spec fn wire_of(offset: int) -> u64
    recommends
        i64::MIN <= offset <= i64::MAX,
{
    if offset >= 0 {
        offset as u64
    } else {
        (offset + wire_modulus()) as u64
    }
}

/// The signed offset that a wire integer stands for.
pub open spec fn offset_of(wire: u64) -> int {
    if wire <= i64::MAX as u64 {
        wire as int
    } else {
        wire - wire_modulus()
    }
}

/// Reinterprets a signed offset as an unsigned wire integer.
pub fn to_wire(offset: i64) -> (wire: u64)
    ensures
        wire == wire_of(offset as int),
        offset_of(wire) == offset,
{
    if offset >= 0 {
        offset as u64
    } else {
        let below: i64 = -(offset + 1);
        u64::MAX - (below as u64)
    }
}

/// Reinterprets an unsigned wire integer as a signed offset.
pub fn from_wire(wire: u64) -> (offset: i64)
    ensures
        offset == offset_of(wire),
        wire_of(offset as int) == wire,
{
    if wire <= 0x7fff_ffff_ffff_ffffu64 {
        wire as i64
    } else {
        let below: u64 = u64::MAX - wire;
        -(below as i64) - 1
    }
}

/// The two readings of a wire field undo each other.
pub proof fn lemma_wire_round_trip(offset: int, wire: u64)
    ensures
        i64::MIN <= offset <= i64::MAX ==> offset_of(wire_of(offset)) == offset,
        wire_of(offset_of(wire)) == wire,
        i64::MIN <= offset_of(wire) <= i64::MAX,
{
}

} // verus!
