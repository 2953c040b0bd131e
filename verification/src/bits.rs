//! Bit fields inside one register byte.
//!
//! A field is a run of `width` bits that starts `offset` bits above the least
//! significant bit. Every register of the device is a byte cut into such
//! fields, so the typed registers all read and write through the two
//! operations defined here, and their contracts are stated with
//! [`field_value`] and [`field_replaced`].
use vstd::prelude::*;

verus! {

/// A field of `width` bits at `offset` lies inside a byte.
pub open spec fn field_fits(offset: u8, width: u8) -> bool {
    1 <= width && offset + width <= 8
}

/// The byte whose `width` low bits are set and whose other bits are clear.
pub open spec fn low_mask(width: u8) -> u8 {
    0xffu8 >> ((8 - width) as u8)
}

/// The value of the field: the register shifted down to the field's first
/// bit and cut to the field's width.
pub open spec fn field_value(raw: u8, offset: u8, width: u8) -> u8 {
    (raw >> offset) & low_mask(width)
}

/// The register with the field's bits cleared and the low `width` bits of
/// `value` put in their place.
pub open spec fn field_replaced(raw: u8, offset: u8, width: u8, value: u8) -> u8 {
    (raw & !(low_mask(width) << offset)) | ((value & low_mask(width)) << offset)
}

/// The one-bit field at `offset`, read as a flag.
pub open spec fn flag_value(raw: u8, offset: u8) -> bool {
    field_value(raw, offset, 1) != 0
}

/// The register with the one-bit field at `offset` set to `on`.
pub open spec fn flag_replaced(raw: u8, offset: u8, on: bool) -> u8 {
    field_replaced(raw, offset, 1, if on { 1u8 } else { 0u8 })
}

/// Two fields share no bit.
pub open spec fn fields_disjoint(o1: u8, w1: u8, o2: u8, w2: u8) -> bool {
    o1 + w1 <= o2 || o2 + w2 <= o1
}

/// `after` differs from `before` at most inside the field of `width` bits at
/// `offset`: every field that shares no bit with it reads the same in both.
pub open spec fn same_outside(before: u8, after: u8, offset: u8, width: u8) -> bool {
    forall|o: u8, w: u8|
        #![trigger field_value(after, o, w)]
        field_fits(o, w) && fields_disjoint(o, w, offset, width) ==> field_value(after, o, w)
            == field_value(before, o, w)
}

/// The masks of the eight possible widths.
pub proof fn lemma_low_masks()
    by (bit_vector)
    ensures
        low_mask(1) == 0b0000_0001,
        low_mask(2) == 0b0000_0011,
        low_mask(3) == 0b0000_0111,
        low_mask(4) == 0b0000_1111,
        low_mask(5) == 0b0001_1111,
        low_mask(6) == 0b0011_1111,
        low_mask(7) == 0b0111_1111,
        low_mask(8) == 0b1111_1111,
{
}

/// A field's value never exceeds the mask of its width.
pub proof fn lemma_field_value_bound(raw: u8, offset: u8, width: u8)
    by (bit_vector)
    requires
        field_fits(offset, width),
    ensures
        field_value(raw, offset, width) <= low_mask(width),
{
}

/// Cutting a value that fits the width leaves it unchanged.
pub proof fn lemma_fitting_value(value: u8, width: u8)
    by (bit_vector)
    requires
        1 <= width <= 8,
        value <= low_mask(width),
    ensures
        value & low_mask(width) == value,
{
}

/// Field round trip: a field that was just written reads back as the value
/// written, cut to the field's width. A value that fits the width reads back
/// unchanged.
pub proof fn lemma_field_round_trip(raw: u8, offset: u8, width: u8, value: u8)
    by (bit_vector)
    requires
        field_fits(offset, width),
    ensures
        field_value(field_replaced(raw, offset, width, value), offset, width) == value & low_mask(
            width,
        ),
        value <= low_mask(width) ==> field_value(
            field_replaced(raw, offset, width, value),
            offset,
            width,
        ) == value,
{
}

/// A field that takes the whole byte is the byte itself.
pub proof fn lemma_whole_byte(raw: u8, value: u8)
    by (bit_vector)
    ensures
        field_value(raw, 0, 8) == raw,
        field_replaced(raw, 0, 8, value) == value,
{
}

/// Writing one field leaves a field that shares no bit with it as it was.
pub proof fn lemma_disjoint_field_kept(raw: u8, offset: u8, width: u8, value: u8, o: u8, w: u8)
    by (bit_vector)
    requires
        field_fits(offset, width),
        field_fits(o, w),
        fields_disjoint(o, w, offset, width),
    ensures
        field_value(field_replaced(raw, offset, width, value), o, w) == field_value(raw, o, w),
{
}

/// Writing one field changes nothing outside it.
pub proof fn lemma_replaced_same_outside(raw: u8, offset: u8, width: u8, value: u8)
    requires
        field_fits(offset, width),
    ensures
        same_outside(raw, field_replaced(raw, offset, width, value), offset, width),
{
    let after = field_replaced(raw, offset, width, value);
    assert forall|o: u8, w: u8|
        #![trigger field_value(after, o, w)]
        field_fits(o, w) && fields_disjoint(o, w, offset, width) implies field_value(after, o, w)
        == field_value(raw, o, w) by {
        lemma_disjoint_field_kept(raw, offset, width, value, o, w);
    }
}

/// Flag round trip: a flag that was just written reads back as written.
pub proof fn lemma_flag_round_trip(raw: u8, offset: u8, on: bool)
    requires
        offset < 8,
    ensures
        flag_value(flag_replaced(raw, offset, on), offset) == on,
{
    let bit = if on { 1u8 } else { 0u8 };
    lemma_low_masks();
    lemma_field_round_trip(raw, offset, 1, bit);
}

/// Reads the field of `width` bits at `offset`.
pub fn get_field(raw: u8, offset: u8, width: u8) -> (value: u8)
    requires
        field_fits(offset, width),
    ensures
        value == field_value(raw, offset, width),
        value <= low_mask(width),
{
    proof {
        lemma_field_value_bound(raw, offset, width);
    }
    let mask: u8 = 0xffu8 >> (8 - width);
    (raw >> offset) & mask
}

/// Writes the low `width` bits of `value` into the field at `offset`; bits of
/// `value` above the field's width are dropped.
pub fn set_field(raw: u8, offset: u8, width: u8, value: u8) -> (replaced: u8)
    requires
        field_fits(offset, width),
    ensures
        replaced == field_replaced(raw, offset, width, value),
        field_value(replaced, offset, width) == value & low_mask(width),
        value <= low_mask(width) ==> field_value(replaced, offset, width) == value,
        same_outside(raw, replaced, offset, width),
{
    proof {
        lemma_field_round_trip(raw, offset, width, value);
        lemma_replaced_same_outside(raw, offset, width, value);
    }
    let mask: u8 = 0xffu8 >> (8 - width);
    (raw & !(mask << offset)) | ((value & mask) << offset)
}

/// Reads the flag at `offset`.
pub fn get_flag(raw: u8, offset: u8) -> (on: bool)
    requires
        offset < 8,
    ensures
        on == flag_value(raw, offset),
{
    get_field(raw, offset, 1) != 0
}

/// Sets or clears the flag at `offset`.
pub fn set_flag(raw: u8, offset: u8, on: bool) -> (replaced: u8)
    requires
        offset < 8,
    ensures
        replaced == flag_replaced(raw, offset, on),
        flag_value(replaced, offset) == on,
        same_outside(raw, replaced, offset, 1),
{
    proof {
        lemma_flag_round_trip(raw, offset, on);
    }
    set_field(raw, offset, 1, if on { 1u8 } else { 0u8 })
}

} // verus!
