//! Feature detection on AArch64 under Linux.
//!
//! AArch64 shares the ARM feature set and the `/proc/cpuinfo` fallback; only
//! the bits of the auxiliary vector differ.
use crate::arm::{detect_features_impl, is_bitset_of, HasFeature, __Feature};
use crate::bit;
use crate::cpuinfo::CpuInfo;
use vstd::prelude::*;

verus! {

/// Bit of ASIMD in `AT_HWCAP` (Linux, `arch/arm64/include/uapi/asm/hwcap.h`).
pub const HWCAP_ASIMD: u32 = 1;

/// Bit of PMULL in `AT_HWCAP`.
pub const HWCAP_PMULL: u32 = 4;

/// The capability bitfields that libc's `getauxval` read.
#[derive(Clone, Copy, Debug, PartialEq, Eq, Structural)]
pub struct Auxv {
    pub hwcap: usize,
    pub hwcap2: usize,
}

impl Auxv {
    /// Builds the bitfields from the reads of `AT_HWCAP` and `AT_HWCAP2`;
    /// `None` where `getauxval` is not available, that is where a read is
    /// missing.
    pub fn new(hwcap: Option<usize>, hwcap2: Option<usize>) -> (r: Option<Auxv>)
        ensures
            r is Some <==> (hwcap is Some && hwcap2 is Some),
            r is Some ==> r->0 == (Auxv { hwcap: hwcap->0, hwcap2: hwcap2->0 }),
    {
        match (hwcap, hwcap2) {
            (Some(hwcap), Some(hwcap2)) => Some(Auxv { hwcap, hwcap2 }),
            _ => None,
        }
    }
}

impl HasFeature for Auxv {
    /// On AArch64, NEON is ASIMD.
    open spec fn reports(&self, x: __Feature) -> bool {
        match x {
            __Feature::neon => bit::is_set(self.hwcap, HWCAP_ASIMD),
            __Feature::asimd => bit::is_set(self.hwcap, HWCAP_ASIMD),
            __Feature::pmull => bit::is_set(self.hwcap, HWCAP_PMULL),
        }
    }

    fn has_feature(&mut self, x: &__Feature) -> (r: bool) {
        match *x {
            __Feature::neon => bit::test(self.hwcap, HWCAP_ASIMD),
            __Feature::asimd => bit::test(self.hwcap, HWCAP_ASIMD),
            __Feature::pmull => bit::test(self.hwcap, HWCAP_PMULL),
        }
    }
}

/// Detects AArch64 features: from the auxiliary vector where it could be
/// read, else from the text of `/proc/cpuinfo` where it could be read, else
/// none.
pub fn detect_features(auxv: Option<Auxv>, cpuinfo: Option<CpuInfo>) -> (r: usize)
    ensures
        match (auxv, cpuinfo) {
            (Some(a), _) => is_bitset_of(r, a),
            (None, Some(c)) => is_bitset_of(r, c),
            (None, None) => r == 0,
        },
{
    if let Some(a) = auxv {
        return detect_features_impl(a);
    }
    if let Some(c) = cpuinfo {
        return detect_features_impl(c);
    }
    0
}

} // verus!
