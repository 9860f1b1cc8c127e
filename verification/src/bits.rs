//! Bit fields of a 64-bit register.
use vstd::prelude::*;

verus! {

/// The `width` lowest bits set.
pub open spec fn low_mask(width: u64) -> u64 {
    if width < 64 {
        ((1u64 << width) - 1) as u64
    } else {
        0xffff_ffff_ffff_ffff
    }
}

/// The field of `bits` that starts at bit `offset` and is `width` bits wide.
pub open spec fn field(bits: u64, offset: u64, width: u64) -> u64 {
    (bits >> offset) & low_mask(width)
}

/// `bits` with the `width` bits from bit `offset` on replaced by the lowest `width` bits of `val`.
pub open spec fn with_field(bits: u64, offset: u64, width: u64, val: u64) -> u64 {
    (bits & !(low_mask(width) << offset)) | ((val & low_mask(width)) << offset)
}

/// Fields `a` and `b` lie inside 64 bits and share no bit.
pub open spec fn disjoint(offset_a: u64, width_a: u64, offset_b: u64, width_b: u64) -> bool {
    &&& offset_a < 64 && width_a <= 64 && offset_a + width_a <= 64
    &&& offset_b < 64 && width_b <= 64 && offset_b + width_b <= 64
    &&& offset_a + width_a <= offset_b || offset_b + width_b <= offset_a
}

/// A field reads back what was written to it, cut to its width.
pub proof fn lemma_field_of_written(bits: u64, offset: u64, width: u64, val: u64)
    requires
        offset < 64,
        width <= 64,
        offset + width <= 64,
    ensures
        field(with_field(bits, offset, width, val), offset, width) == val & low_mask(width),
{
    assert(field(with_field(bits, offset, width, val), offset, width) == val & low_mask(width))
        by (bit_vector)
        requires
            offset < 64,
            width <= 64,
            offset + width <= 64,
    ;
}

/// Writing a field leaves every field that shares no bit with it alone.
pub proof fn lemma_field_of_other(bits: u64, offset: u64, width: u64, val: u64)
    ensures
        forall|o: u64, w: u64|
            disjoint(offset, width, o, w) ==> #[trigger] field(
                with_field(bits, offset, width, val),
                o,
                w,
            ) == field(bits, o, w),
{
    assert forall|o: u64, w: u64| disjoint(offset, width, o, w) implies #[trigger] field(
        with_field(bits, offset, width, val),
        o,
        w,
    ) == field(bits, o, w) by {
        assert(field(with_field(bits, offset, width, val), o, w) == field(bits, o, w))
            by (bit_vector)
            requires
                disjoint(offset, width, o, w),
        ;
    }
}

/// Reads the field of `bits` at `offset`, `width` bits wide.
pub fn get_field(bits: u64, offset: u64, width: u64) -> (r: u64)
    requires
        offset < 64,
        width <= 64,
        offset + width <= 64,
    ensures
        r == field(bits, offset, width),
{
    let mask: u64 = mask_of(width);
    (bits >> offset) & mask
}

/// Replaces the field of `bits` at `offset`, `width` bits wide.
pub fn set_field(bits: u64, offset: u64, width: u64, val: u64) -> (r: u64)
    requires
        offset < 64,
        width <= 64,
        offset + width <= 64,
    ensures
        r == with_field(bits, offset, width, val),
{
    let mask: u64 = mask_of(width);
    (bits & !(mask << offset)) | ((val & mask) << offset)
}

fn mask_of(width: u64) -> (r: u64)
    requires
        width <= 64,
    ensures
        r == low_mask(width),
{
    if width < 64 {
        assert((1u64 << width) >= 1) by (bit_vector)
            requires
                width < 64,
        ;
        (1u64 << width) - 1
    } else {
        0xffff_ffff_ffff_ffff
    }
}

} // verus!
