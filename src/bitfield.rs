use vstd::prelude::*;

verus! {

/// The mask of the `width` lowest bits of a word.
pub open spec fn low_mask(width: u32) -> u32 {
    ((1u32 << width) - 1) as u32
}

/// The field of `width` bits of `bits` that starts at bit `shift`.
pub open spec fn field(bits: u32, shift: u32, width: u32) -> u32 {
    (bits >> shift) & low_mask(width)
}

/// Everything of `bits` outside the field of `width` bits at `shift`.
pub open spec fn outside(bits: u32, shift: u32, width: u32) -> u32 {
    bits & !(low_mask(width) << shift)
}

/// A field of `width` bits that starts at `shift` lies inside one word.
pub open spec fn fits(shift: u32, width: u32) -> bool {
    1 <= width < 32 && shift + width <= 32
}

/// `new` holds `value` in the field of `width` bits at `shift`, and agrees
/// with `old` on every other bit.
pub open spec fn field_written(old: u32, new: u32, shift: u32, width: u32, value: u32) -> bool {
    &&& field(new, shift, width) == value & low_mask(width)
    &&& outside(new, shift, width) == outside(old, shift, width)
}

/// Computes the mask of the `width` lowest bits.
fn mask_of(width: u32) -> (r: u32)
    requires
        1 <= width < 32,
    ensures
        r == low_mask(width),
        r == (1u32 << width) - 1,
{
    assert((1u32 << width) >= 1) by (bit_vector)
        requires
            width < 32,
    ;
    (1u32 << width) - 1
}

/// Replaces the field of `width` bits at `shift` in `bits` with `value`;
/// bits of `value` that do not fit are dropped.
pub fn write_field(bits: u32, shift: u32, width: u32, value: u32) -> (r: u32)
    requires
        fits(shift, width),
    ensures
        field_written(bits, r, shift, width, value),
{
    let mask: u32 = mask_of(width);
    let r = (bits & !(mask << shift)) | ((value & mask) << shift);
    assert(((r >> shift) & mask) == value & mask && (r & !(mask << shift)) == (bits & !(
    mask << shift))) by (bit_vector)
        requires
            1 <= width < 32,
            shift + width <= 32,
            mask == (1u32 << width) - 1,
            r == (bits & !(mask << shift)) | ((value & mask) << shift),
    ;
    r
}

/// Reads the field of `width` bits at `shift` out of `bits`.
pub fn read_field(bits: u32, shift: u32, width: u32) -> (r: u32)
    requires
        fits(shift, width),
    ensures
        r == field(bits, shift, width),
        r < (1u32 << width),
{
    let mask: u32 = mask_of(width);
    let r = (bits >> shift) & mask;
    assert(r < (1u32 << width)) by (bit_vector)
        requires
            1 <= width < 32,
            mask == (1u32 << width) - 1,
            r == (bits >> shift) & mask,
    ;
    r
}

/// Reads the field of `width` bits at `shift` as a byte.
pub fn read_small_field(bits: u32, shift: u32, width: u32) -> (r: u8)
    requires
        fits(shift, width),
        width <= 8,
    ensures
        r as u32 == field(bits, shift, width),
{
    let v = read_field(bits, shift, width);
    assert((1u32 << width) <= 256) by (bit_vector)
        requires
            width <= 8,
    ;
    v as u8
}

/// Reads the single bit at `shift` of `bits`.
pub fn read_bit(bits: u32, shift: u32) -> (r: bool)
    requires
        shift < 32,
    ensures
        r == (field(bits, shift, 1) == 1),
{
    read_field(bits, shift, 1) == 1
}

/// Sets or clears the single bit at `shift` of `bits`.
pub fn write_bit(bits: u32, shift: u32, value: bool) -> (r: u32)
    requires
        shift < 32,
    ensures
        field_written(bits, r, shift, 1, if value { 1 } else { 0 }),
{
    write_field(bits, shift, 1, if value { 1 } else { 0 })
}

} // verus!
