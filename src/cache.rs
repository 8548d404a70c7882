//! The memoized feature bitset.
//!
//! A cache starts uninitialized. Its first query runs a detector and keeps
//! the bitset it returns; every later query answers from that bitset. The
//! initialized state is a separate flag, so no bitset, all ones included, is
//! ever mistaken for "not yet detected".
use crate::bit;
use vstd::prelude::*;

verus! {

/// The state of a cache after one query, from its state before and the
/// bitset that a detector would return.
pub open spec fn after_query(state: Option<usize>, detected: usize) -> Option<usize> {
    match state {
        Some(bits) => Some(bits),
        None => Some(detected),
    }
}

/// What a cache in `state` answers for `bit`.
pub open spec fn answer(state: Option<usize>, bit: u32) -> bool {
    match state {
        Some(bits) => bit::is_set(bits, bit),
        None => false,
    }
}

/// A memoized feature bitset: uninitialized, or holding the bitset that the
/// first query detected.
pub struct FeatureCache {
    bits: Option<usize>,
}

impl View for FeatureCache {
    type V = Option<usize>;

    closed spec fn view(&self) -> Option<usize> {
        self.bits
    }
}

impl FeatureCache {
    /// An uninitialized cache.
    pub fn new() -> (r: FeatureCache)
        ensures
            r@ is None,
    {
        FeatureCache { bits: None }
    }

    /// A cache that already holds `bits`.
    pub fn with_bits(bits: usize) -> (r: FeatureCache)
        ensures
            r@ == Some(bits),
    {
        FeatureCache { bits: Some(bits) }
    }

    /// The cached bitset, if the cache is initialized.
    pub fn bits(&self) -> (r: Option<usize>)
        ensures
            r == self@,
    {
        self.bits
    }
}

/// Tests the `bit` of the cached bitset. If the cache has not been
/// initialized, initializes it with the result of `f()`.
pub fn test<F: FnOnce() -> usize>(cache: &mut FeatureCache, bit: u32, f: F) -> (r: bool)
    requires
        bit < bit::BITSET_WIDTH,
        f.requires(()),
    ensures
        exists|detected: usize| #[trigger]
            after_query(old(cache)@, detected) == final(cache)@ && (old(cache)@ is None
                ==> f.ensures((), detected)),
        r == answer(final(cache)@, bit),
{
    let bits = match cache.bits {
        Some(bits) => bits,
        None => {
            let detected = f();
            cache.bits = Some(detected);
            detected
        },
    };
    assert(after_query(old(cache)@, bits) == cache@);
    bit::test(bits, bit)
}

/// Once a cache has answered one query, every later query finds the same
/// bitset and gives the same answer, whatever a detector would return then.
pub proof fn lemma_query_idempotent(state: Option<usize>, first: usize, later: usize, bit: u32)
    ensures
        after_query(after_query(state, first), later) == after_query(state, first),
        answer(after_query(after_query(state, first), later), bit) == answer(
            after_query(state, first),
            bit,
        ),
{
}

/// Every bitset a detector returns, all ones included, is kept as detected
/// and answers from it; no later query runs the detector again.
pub proof fn lemma_every_bitset_is_kept(detected: usize, later: usize, bit: u32)
    ensures
        after_query(None, detected) == Some(detected),
        answer(after_query(None, detected), bit) == bit::is_set(detected, bit),
        after_query(after_query(None, detected), later) == Some(detected),
{
}

} // verus!
