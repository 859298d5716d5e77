//! Facts about single-bit masks of 32-bit registers.

use vstd::prelude::*;

verus! {

/// The mask of bit `bit` of a 32-bit register.
pub open spec fn bit_mask(bit: u32) -> u32 {
    1u32 << bit
}

/// `x` and `y` agree on every bit outside `mask`.
pub open spec fn agree_outside(x: u32, y: u32, mask: u32) -> bool {
    x & !mask == y & !mask
}

/// Setting, clearing and toggling one bit act on that bit as expected, and
/// a single-bit mask is not zero.
pub proof fn lemma_bit_ops(x: u32, bit: u32)
    requires
        bit < 32,
    ensures
        bit_mask(bit) != 0,
        (x | bit_mask(bit)) & bit_mask(bit) != 0,
        (x & !bit_mask(bit)) & bit_mask(bit) == 0,
        ((x ^ bit_mask(bit)) & bit_mask(bit) != 0) == (x & bit_mask(bit) == 0),
        (x ^ bit_mask(bit)) ^ bit_mask(bit) == x,
        agree_outside(x | bit_mask(bit), x, bit_mask(bit)),
        agree_outside(x & !bit_mask(bit), x, bit_mask(bit)),
        agree_outside(x ^ bit_mask(bit), x, bit_mask(bit)),
{
    assert(1u32 << bit != 0u32) by (bit_vector)
        requires
            bit < 32u32,
    ;
    assert((x | (1u32 << bit)) & (1u32 << bit) != 0u32) by (bit_vector)
        requires
            bit < 32u32,
    ;
    assert((x & !(1u32 << bit)) & (1u32 << bit) == 0u32) by (bit_vector);
    assert(((x ^ (1u32 << bit)) & (1u32 << bit) != 0u32) == (x & (1u32 << bit) == 0u32))
        by (bit_vector)
        requires
            bit < 32u32,
    ;
    assert((x ^ (1u32 << bit)) ^ (1u32 << bit) == x) by (bit_vector);
    assert((x | (1u32 << bit)) & !(1u32 << bit) == x & !(1u32 << bit)) by (bit_vector);
    assert((x & !(1u32 << bit)) & !(1u32 << bit) == x & !(1u32 << bit)) by (bit_vector);
    assert((x ^ (1u32 << bit)) & !(1u32 << bit) == x & !(1u32 << bit)) by (bit_vector);
}

/// Two registers that agree outside bit `bit` agree on every other bit.
pub proof fn lemma_agree_outside_bit(x: u32, y: u32, bit: u32, other: u32)
    requires
        bit < 32,
        other < 32,
        other != bit,
        agree_outside(x, y, bit_mask(bit)),
    ensures
        x & bit_mask(other) == y & bit_mask(other),
{
    assert(x & (1u32 << other) == y & (1u32 << other)) by (bit_vector)
        requires
            bit < 32u32,
            other < 32u32,
            other != bit,
            x & !(1u32 << bit) == y & !(1u32 << bit),
    ;
}

/// Two values that agree outside `mask` agree on every field `field` that
/// `mask` does not touch.
pub proof fn lemma_agree_outside_field(x: u32, y: u32, mask: u32, field: u32)
    requires
        agree_outside(x, y, mask),
        field & mask == 0,
    ensures
        x & field == y & field,
{
    assert(x & field == y & field) by (bit_vector)
        requires
            x & !mask == y & !mask,
            field & mask == 0u32,
    ;
}

/// Agreement outside a field composes: what agrees outside `m1` with a
/// value that agrees outside `m2` with a third agrees with it outside both.
pub proof fn lemma_agree_outside_trans(x: u32, y: u32, z: u32, m1: u32, m2: u32)
    requires
        agree_outside(x, y, m1),
        agree_outside(y, z, m2),
    ensures
        agree_outside(x, z, m1 | m2),
{
    assert(x & !(m1 | m2) == z & !(m1 | m2)) by (bit_vector)
        requires
            x & !m1 == y & !m1,
            y & !m2 == z & !m2,
    ;
}

} // verus!
