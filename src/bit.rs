//! Bit manipulation utilities over feature bitsets.
use vstd::prelude::*;

verus! {

/// The width of a feature bitset: valid bit positions are `0..32`.
pub const BITSET_WIDTH: u32 = 32;

/// Whether bit `bit` of `x` is one.
pub open spec fn is_set(x: usize, bit: u32) -> bool {
    x & (1usize << bit) != 0
}

/// Sets the `bit` of `x`.
pub fn set(x: usize, bit: u32) -> (r: usize)
    requires
        bit < BITSET_WIDTH,
    ensures
        is_set(r, bit),
        forall|b: u32| b < BITSET_WIDTH && b != bit ==> is_set(r, b) == is_set(x, b),
        r == x | (1usize << bit),
        forall|n: u32| bit < n < BITSET_WIDTH && x < (1usize << n) ==> r < (1usize << n),
{
    let r = x | (1usize << bit);
    assert(forall|b: u32| b < 32 && b != bit ==> (r & (1usize << b) != 0) == (x & (1usize << b) != 0))
        by (bit_vector)
        requires
            bit < 32,
            r == x | (1usize << bit),
    ;
    assert(forall|n: u32| bit < n < 32 && x < (1usize << n) ==> r < (1usize << n)) by (bit_vector)
        requires
            bit < 32,
            r == x | (1usize << bit),
    ;
    assert((x | (1usize << bit)) & (1usize << bit) != 0) by (bit_vector)
        requires
            bit < 32,
    ;
    r
}

/// Tests the `bit` of `x`.
pub fn test(x: usize, bit: u32) -> (r: bool)
    requires
        bit < BITSET_WIDTH,
    ensures
        r == is_set(x, bit),
{
    x & (1usize << bit) != 0
}

/// `1 << bit` where `on`, else zero.
pub open spec fn flag(on: bool, bit: u32) -> usize {
    if on {
        1usize << bit
    } else {
        0
    }
}

/// Sets the `bit` of `x` where `on`; leaves `x` as it is otherwise.
pub fn set_if(x: usize, on: bool, bit: u32) -> (r: usize)
    requires
        bit < BITSET_WIDTH,
    ensures
        r == x | flag(on, bit),
{
    if on {
        set(x, bit)
    } else {
        assert(x | 0usize == x) by (bit_vector);
        x
    }
}

/// The empty bitset has no bit set.
pub proof fn lemma_empty(bit: u32)
    requires
        bit < BITSET_WIDTH,
    ensures
        !is_set(0, bit),
{
    assert(0usize & (1usize << bit) == 0) by (bit_vector);
}

} // verus!
