//! Packed bit ranges inside a 16-bit word.
use vstd::prelude::*;

verus! {

/// All ones in the low `width` bits.
pub open spec fn field_mask(width: u16) -> u16 {
    ((1u16 << width) - 1) as u16
}

/// The `width` bits of `v` that start at bit `lsb`.
pub open spec fn field(v: u16, lsb: u16, width: u16) -> u16 {
    (v >> lsb) & field_mask(width)
}

/// `v` with the `width` bits at `lsb` replaced by the low bits of `x`.
pub open spec fn with_field(v: u16, lsb: u16, width: u16, x: u16) -> u16 {
    (v & !(field_mask(width) << lsb)) | ((x & field_mask(width)) << lsb)
}

/// A bit range that fits in a 16-bit word.
pub open spec fn range_ok(lsb: u16, width: u16) -> bool {
    1 <= width <= 8 && lsb + width <= 16
}

pub proof fn lemma_field_bound(v: u16, lsb: u16, width: u16)
    requires
        range_ok(lsb, width),
    ensures
        field(v, lsb, width) < (1u16 << width),
        (1u16 << width) <= 256,
{
    assert(field(v, lsb, width) < (1u16 << width) && (1u16 << width) <= 256) by (bit_vector)
        requires
            1 <= width <= 8,
            lsb + width <= 16,
    ;
}

/// Reads the bit range `lsb .. lsb + width` of `v`.
pub fn get_field(v: u16, lsb: u16, width: u16) -> (r: u16)
    requires
        range_ok(lsb, width),
    ensures
        r == field(v, lsb, width),
        r < (1u16 << width),
        r < 256,
{
    proof {
        lemma_field_bound(v, lsb, width);
    }
    assert(1u16 << width >= 1) by (bit_vector)
        requires
            1 <= width <= 8,
    ;
    (v >> lsb) & ((1u16 << width) - 1)
}

/// Writes the low `width` bits of `x` into the range `lsb .. lsb + width` of `v`.
pub fn set_field(v: u16, lsb: u16, width: u16, x: u16) -> (r: u16)
    requires
        range_ok(lsb, width),
    ensures
        r == with_field(v, lsb, width, x),
{
    assert(1u16 << width >= 1) by (bit_vector)
        requires
            1 <= width <= 8,
    ;
    let mask: u16 = (1u16 << width) - 1;
    (v & !(mask << lsb)) | ((x & mask) << lsb)
}

} // verus!
