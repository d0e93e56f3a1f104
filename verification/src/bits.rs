//! Bit fields inside a 32-bit register word.
use vstd::prelude::*;

verus! {

/// The `width` lowest bits set, all of them from 32 bits on.
pub open spec fn field_mask(width: u32) -> u32 {
    if width >= 32 {
        0xFFFF_FFFFu32
    } else {
        !(0xFFFF_FFFFu32 << width)
    }
}

/// The field of `width` bits whose lowest bit is bit `lsb` of `bits`.
pub open spec fn get_field(bits: u32, lsb: u32, width: u32) -> u32 {
    (bits >> lsb) & field_mask(width)
}

/// `bits` with that field replaced by the low `width` bits of `value`.
pub open spec fn with_field(bits: u32, lsb: u32, width: u32, value: u32) -> u32 {
    (bits & !(field_mask(width) << lsb)) | ((value & field_mask(width)) << lsb)
}

/// Whether bit `bit` of `bits` is set.
pub open spec fn flag(bits: u32, bit: u32) -> bool {
    get_field(bits, bit, 1) == 1
}

/// `bits` with bit `bit` set or cleared.
pub open spec fn with_flag(bits: u32, bit: u32, value: bool) -> u32 {
    with_field(bits, bit, 1, if value { 1u32 } else { 0u32 })
}

/// A field of `width` bits holds a number below two to the `width`.
pub proof fn lemma_field_fits(bits: u32, lsb: u32, width: u32)
    by (bit_vector)
    requires
        width < 32,
    ensures
        get_field(bits, lsb, width) < (1u32 << width),
        width <= 8 ==> get_field(bits, lsb, width) <= 0xFF,
        width <= 16 ==> get_field(bits, lsb, width) <= 0xFFFF,
{
}

/// A field that was just set reads back as the low `width` bits of the
/// value.
pub proof fn lemma_get_after_set(bits: u32, lsb: u32, width: u32, value: u32)
    by (bit_vector)
    requires
        lsb < 32,
        width <= 32,
        lsb + width <= 32,
    ensures
        get_field(with_field(bits, lsb, width, value), lsb, width) == value & field_mask(width),
{
}

/// Setting one field leaves every field that does not overlap it as it was.
pub proof fn lemma_get_other_after_set(
    bits: u32,
    lsb: u32,
    width: u32,
    value: u32,
    lsb2: u32,
    width2: u32,
)
    by (bit_vector)
    requires
        lsb < 32,
        width <= 32,
        lsb + width <= 32,
        lsb2 < 32,
        width2 <= 32,
        lsb2 + width2 <= 32,
        lsb + width <= lsb2 || lsb2 + width2 <= lsb,
    ensures
        get_field(with_field(bits, lsb, width, value), lsb2, width2) == get_field(
            bits,
            lsb2,
            width2,
        ),
{
}

/// Setting a field to a value that it already reads as changes nothing.
pub proof fn lemma_set_same(bits: u32, lsb: u32, width: u32, value: u32)
    by (bit_vector)
    requires
        lsb < 32,
        width <= 32,
        lsb + width <= 32,
        get_field(bits, lsb, width) == value & field_mask(width),
    ensures
        with_field(bits, lsb, width, value) == bits,
{
}

/// Of two values set into one field, the second stays.
pub proof fn lemma_set_twice(bits: u32, lsb: u32, width: u32, first: u32, second: u32)
    by (bit_vector)
    requires
        lsb < 32,
        width <= 32,
        lsb + width <= 32,
    ensures
        with_field(with_field(bits, lsb, width, first), lsb, width, second) == with_field(
            bits,
            lsb,
            width,
            second,
        ),
{
}

/// How fields and flags read after one of them is set: the one that is set
/// reads as the low bits of its new value, every other as before.
pub proof fn lemma_field_rules()
    ensures
        forall|bits: u32, lsb: u32, width: u32, value: u32|
            lsb < 32 && width <= 32 && lsb + width <= 32 ==> #[trigger] get_field(
                with_field(bits, lsb, width, value),
                lsb,
                width,
            ) == value & field_mask(width),
        forall|bits: u32, lsb: u32, width: u32, value: u32, lsb2: u32, width2: u32|
            lsb < 32 && width <= 32 && lsb + width <= 32 && lsb2 < 32 && width2 <= 32 && lsb2
                + width2 <= 32 && (lsb + width <= lsb2 || lsb2 + width2 <= lsb)
                ==> #[trigger] get_field(with_field(bits, lsb, width, value), lsb2, width2)
                == get_field(bits, lsb2, width2),
        forall|bits: u32, bit: u32, value: bool|
            bit < 32 ==> #[trigger] flag(with_flag(bits, bit, value), bit) == value,
        forall|bits: u32, bit: u32, value: bool, other: u32|
            bit < 32 && other < 32 && bit != other ==> #[trigger] flag(
                with_flag(bits, bit, value),
                other,
            ) == flag(bits, other),
        forall|bits: u32, bit: u32, value: bool, lsb: u32, width: u32|
            bit < 32 && lsb < 32 && width <= 32 && lsb + width <= 32 && (bit < lsb || lsb + width
                <= bit) ==> #[trigger] get_field(with_flag(bits, bit, value), lsb, width)
                == get_field(bits, lsb, width),
        forall|bits: u32, lsb: u32, width: u32, value: u32, bit: u32|
            bit < 32 && lsb < 32 && width <= 32 && lsb + width <= 32 && (bit < lsb || lsb + width
                <= bit) ==> #[trigger] flag(with_field(bits, lsb, width, value), bit) == flag(
                bits,
                bit,
            ),
{
    assert(1u32 & field_mask(1) == 1u32) by (bit_vector);
    assert(0u32 & field_mask(1) == 0u32) by (bit_vector);
    assert forall|bits: u32, lsb: u32, width: u32, value: u32|
        lsb < 32 && width <= 32 && lsb + width <= 32 implies #[trigger] get_field(
        with_field(bits, lsb, width, value),
        lsb,
        width,
    ) == value & field_mask(width) by {
        lemma_get_after_set(bits, lsb, width, value);
    }
    assert forall|bits: u32, lsb: u32, width: u32, value: u32, lsb2: u32, width2: u32|
        lsb < 32 && width <= 32 && lsb + width <= 32 && lsb2 < 32 && width2 <= 32 && lsb2 + width2
            <= 32 && (lsb + width <= lsb2 || lsb2 + width2 <= lsb) implies #[trigger] get_field(
        with_field(bits, lsb, width, value),
        lsb2,
        width2,
    ) == get_field(bits, lsb2, width2) by {
        lemma_get_other_after_set(bits, lsb, width, value, lsb2, width2);
    }
    assert forall|bits: u32, bit: u32, value: bool| bit < 32 implies #[trigger] flag(
        with_flag(bits, bit, value),
        bit,
    ) == value by {
        lemma_get_after_set(bits, bit, 1, if value { 1u32 } else { 0u32 });
    }
    assert forall|bits: u32, bit: u32, value: bool, other: u32|
        bit < 32 && other < 32 && bit != other implies #[trigger] flag(
        with_flag(bits, bit, value),
        other,
    ) == flag(bits, other) by {
        lemma_get_other_after_set(bits, bit, 1, if value { 1u32 } else { 0u32 }, other, 1);
    }
    assert forall|bits: u32, bit: u32, value: bool, lsb: u32, width: u32|
        bit < 32 && lsb < 32 && width <= 32 && lsb + width <= 32 && (bit < lsb || lsb + width
            <= bit) implies #[trigger] get_field(with_flag(bits, bit, value), lsb, width)
        == get_field(bits, lsb, width) by {
        lemma_get_other_after_set(bits, bit, 1, if value { 1u32 } else { 0u32 }, lsb, width);
    }
    assert forall|bits: u32, lsb: u32, width: u32, value: u32, bit: u32|
        bit < 32 && lsb < 32 && width <= 32 && lsb + width <= 32 && (bit < lsb || lsb + width
            <= bit) implies #[trigger] flag(with_field(bits, lsb, width, value), bit) == flag(
        bits,
        bit,
    ) by {
        lemma_get_other_after_set(bits, lsb, width, value, bit, 1);
    }
}

/// When setting a field or a flag changes nothing, and what setting one
/// twice comes to.
pub proof fn lemma_set_again_rules()
    ensures
        forall|bits: u32, lsb: u32, width: u32, value: u32|
            lsb < 32 && width <= 32 && lsb + width <= 32 && get_field(bits, lsb, width) == value
                & field_mask(width) ==> #[trigger] with_field(bits, lsb, width, value) == bits,
        forall|bits: u32, bit: u32, value: bool|
            bit < 32 && flag(bits, bit) == value ==> #[trigger] with_flag(bits, bit, value)
                == bits,
        forall|bits: u32, bit: u32, first: bool, second: bool|
            bit < 32 ==> #[trigger] with_flag(with_flag(bits, bit, first), bit, second)
                == with_flag(bits, bit, second),
{
    assert(1u32 & field_mask(1) == 1u32) by (bit_vector);
    assert(0u32 & field_mask(1) == 0u32) by (bit_vector);
    assert forall|bits: u32, lsb: u32, width: u32, value: u32|
        lsb < 32 && width <= 32 && lsb + width <= 32 && get_field(bits, lsb, width) == value
            & field_mask(width) implies #[trigger] with_field(bits, lsb, width, value) == bits by {
        lemma_set_same(bits, lsb, width, value);
    }
    assert forall|bits: u32, bit: u32, value: bool|
        bit < 32 && flag(bits, bit) == value implies #[trigger] with_flag(bits, bit, value)
        == bits by {
        lemma_flag_is_bit(bits, bit);
        lemma_set_same(bits, bit, 1, if value { 1u32 } else { 0u32 });
    }
    assert forall|bits: u32, bit: u32, first: bool, second: bool|
        bit < 32 implies #[trigger] with_flag(with_flag(bits, bit, first), bit, second)
        == with_flag(bits, bit, second) by {
        lemma_set_twice(
            bits,
            bit,
            1,
            if first { 1u32 } else { 0u32 },
            if second { 1u32 } else { 0u32 },
        );
    }
}

/// A field of one bit reads as 0 or 1.
pub proof fn lemma_flag_is_bit(bits: u32, bit: u32)
    by (bit_vector)
    ensures
        get_field(bits, bit, 1) == 0 || get_field(bits, bit, 1) == 1,
{
}

pub fn read_field(bits: u32, lsb: u32, width: u32) -> (value: u32)
    requires
        lsb < 32,
        1 <= width <= 32,
        lsb + width <= 32,
    ensures
        value == get_field(bits, lsb, width),
{
    let mask: u32 = if width >= 32 { 0xFFFF_FFFFu32 } else { !(0xFFFF_FFFFu32 << width) };
    (bits >> lsb) & mask
}

pub fn write_field(bits: u32, lsb: u32, width: u32, value: u32) -> (out: u32)
    requires
        lsb < 32,
        1 <= width <= 32,
        lsb + width <= 32,
    ensures
        out == with_field(bits, lsb, width, value),
{
    let mask: u32 = if width >= 32 { 0xFFFF_FFFFu32 } else { !(0xFFFF_FFFFu32 << width) };
    (bits & !(mask << lsb)) | ((value & mask) << lsb)
}

pub fn read_flag(bits: u32, bit: u32) -> (value: bool)
    requires
        bit < 32,
    ensures
        value == flag(bits, bit),
{
    read_field(bits, bit, 1) == 1
}

pub fn write_flag(bits: u32, bit: u32, value: bool) -> (out: u32)
    requires
        bit < 32,
    ensures
        out == with_flag(bits, bit, value),
{
    write_field(bits, bit, 1, if value { 1u32 } else { 0u32 })
}

} // verus!
