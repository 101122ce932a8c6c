//! Bit-field codec shared by all register types: extraction and insertion of
//! a contiguous bit-range `[lo, lo + width)` inside a raw 16-bit register
//! value. Insertion never disturbs bits outside the declared range.
use vstd::prelude::*;

verus! {

/// Value of bit `i` of `raw`.
pub open spec fn spec_bit(raw: u16, i: u16) -> bool {
    (raw >> i) & 1 == 1
}

/// A mask of `width` one-bits in the low positions.
pub open spec fn spec_low_mask(width: u16) -> u16 {
    ((1u16 << width) - 1) as u16
}

/// The value of the field of `width` bits starting at bit `lo`.
pub open spec fn spec_get_field(raw: u16, lo: u16, width: u16) -> u16 {
    (raw >> lo) & spec_low_mask(width)
}

/// `raw` with the field of `width` bits starting at bit `lo` replaced by the
/// low `width` bits of `v`; all other bits are kept.
pub open spec fn spec_set_field(raw: u16, lo: u16, width: u16, v: u16) -> u16 {
    (raw & !(spec_low_mask(width) << lo)) | ((v & spec_low_mask(width)) << lo)
}

/// A legal field position: nonempty, inside the 16-bit word.
pub open spec fn field_ok(lo: u16, width: u16) -> bool {
    0 < width < 16 && lo < 16 && lo + width <= 16
}

/// The low masks actually used by the register map, as plain numbers.
pub proof fn lemma_low_mask_values()
    by (bit_vector)
    ensures
        spec_low_mask(1) == 0x1,
        spec_low_mask(2) == 0x3,
        spec_low_mask(3) == 0x7,
        spec_low_mask(4) == 0xF,
        spec_low_mask(5) == 0x1F,
        spec_low_mask(6) == 0x3F,
        spec_low_mask(7) == 0x7F,
        spec_low_mask(8) == 0xFF,
{
}

/// An extracted field never exceeds its mask.
pub proof fn lemma_get_field_bound(raw: u16, lo: u16, width: u16)
    ensures
        spec_get_field(raw, lo, width) <= spec_low_mask(width),
{
    let m: u16 = spec_low_mask(width);
    assert((raw >> lo) & m <= m) by (bit_vector);
}

/// Round trip: extracting a field right after inserting a legal value
/// yields that value back.
pub proof fn lemma_field_round_trip(raw: u16, lo: u16, width: u16, v: u16)
    requires
        field_ok(lo, width),
        v <= spec_low_mask(width),
    ensures
        spec_get_field(spec_set_field(raw, lo, width, v), lo, width) == v,
{
    let m: u16 = spec_low_mask(width);
    assert((((raw & !(m << lo)) | ((v & m) << lo)) >> lo) & m == v) by (bit_vector)
        requires
            m == ((1u16 << width) - 1) as u16,
            v <= m,
            0 < width < 16 && lo < 16 && lo + width <= 16,
    ;
}

/// Frame: inserting a field leaves every bit outside `[lo, lo + width)`
/// unchanged.
pub proof fn lemma_field_set_frame(raw: u16, lo: u16, width: u16, v: u16, i: u16)
    requires
        field_ok(lo, width),
        i < 16,
        i < lo || lo + width <= i,
    ensures
        spec_bit(spec_set_field(raw, lo, width, v), i) == spec_bit(raw, i),
{
    let m: u16 = spec_low_mask(width);
    assert((((raw & !(m << lo)) | ((v & m) << lo)) >> i) & 1 == (raw >> i) & 1) by (bit_vector)
        requires
            m == ((1u16 << width) - 1) as u16,
            0 < width < 16 && lo < 16 && lo + width <= 16,
            i < 16,
            i < lo || lo + width <= i,
    ;
}

/// Frame, field form: inserting one field leaves any disjoint field unchanged.
pub proof fn lemma_field_set_other(raw: u16, lo: u16, width: u16, v: u16, lo2: u16, width2: u16)
    requires
        field_ok(lo, width),
        field_ok(lo2, width2),
        lo + width <= lo2 || lo2 + width2 <= lo,
    ensures
        spec_get_field(spec_set_field(raw, lo, width, v), lo2, width2)
            == spec_get_field(raw, lo2, width2),
{
    let m: u16 = spec_low_mask(width);
    let m2: u16 = spec_low_mask(width2);
    assert((((raw & !(m << lo)) | ((v & m) << lo)) >> lo2) & m2 == (raw >> lo2) & m2)
        by (bit_vector)
        requires
            m == ((1u16 << width) - 1) as u16,
            m2 == ((1u16 << width2) - 1) as u16,
            0 < width < 16 && lo < 16 && lo + width <= 16,
            0 < width2 < 16 && lo2 < 16 && lo2 + width2 <= 16,
            lo + width <= lo2 || lo2 + width2 <= lo,
    ;
}

/// A mask of `width` one-bits in the low positions.
pub fn low_mask(width: u16) -> (r: u16)
    requires
        0 < width < 16,
    ensures
        r == spec_low_mask(width),
{
    proof {
        assert(1u16 << width >= 1) by (bit_vector)
            requires
                0 < width < 16,
        ;
    }
    (1u16 << width) - 1
}

/// Extract the field of `width` bits starting at bit `lo` of `raw`.
pub fn get_field(raw: u16, lo: u16, width: u16) -> (r: u16)
    requires
        field_ok(lo, width),
    ensures
        r == spec_get_field(raw, lo, width),
        r <= spec_low_mask(width),
{
    proof {
        lemma_get_field_bound(raw, lo, width);
    }
    (raw >> lo) & low_mask(width)
}

/// Replace the field of `width` bits starting at bit `lo` of `raw` by the
/// low `width` bits of `v`, keeping every other bit.
pub fn set_field(raw: u16, lo: u16, width: u16, v: u16) -> (r: u16)
    requires
        field_ok(lo, width),
    ensures
        r == spec_set_field(raw, lo, width, v),
{
    let m: u16 = low_mask(width);
    (raw & !(m << lo)) | ((v & m) << lo)
}

} // verus!
