//! Bit and field selection on an instruction word.

use vstd::prelude::*;

verus! {

/// Whether bit `i` of `w` is set; bit 0 is the least significant.
pub open spec fn bit(w: u32, i: u32) -> bool {
    (w >> i) & 1 == 1
}

/// The bits of `w` from bit `lo` upwards that `mask` selects, moved down to bit 0. For a
/// field of n bits `mask` is a run of n low ones.
pub open spec fn field(w: u32, lo: u32, mask: u32) -> u32 {
    (w >> lo) & mask
}

/// Tells whether bit `i` of `w` is set.
pub fn test_bit(w: u32, i: u32) -> (set: bool)
    requires
        i < 32,
    ensures
        set == bit(w, i),
{
    assert((w & (1u32 << i) != 0) == ((w >> i) & 1 == 1)) by (bit_vector)
        requires
            i < 32,
    ;
    w & (1u32 << i) != 0
}

/// Extracts the bits of `w` from bit `lo` upwards that `mask` selects.
pub fn get_field(w: u32, lo: u32, mask: u32) -> (f: u32)
    requires
        lo < 32,
    ensures
        f == field(w, lo, mask),
        f <= mask,
{
    assert((w >> lo) & mask <= mask) by (bit_vector);
    (w >> lo) & mask
}

} // verus!
