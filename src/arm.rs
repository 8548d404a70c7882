//! Feature detection on 32-bit ARM under Linux.
//!
//! The capability bits come from the auxiliary vector where libc's
//! `getauxval` can read it, and else from the text of `/proc/cpuinfo`; when
//! neither is available every feature is reported absent.
#![allow(non_camel_case_types)]

use crate::auxv::{AT_HWCAP, AT_HWCAP2};
use crate::bit;
use crate::cache::{self, answer, FeatureCache};
use crate::cpuinfo::{field_equals, field_has, field_value, CpuInfo};
use crate::text::{chars_of, same_chars};
use vstd::prelude::*;

verus! {

/// ARM CPU Feature enum. Each variant denotes a position in a bitset for a
/// particular feature.
#[derive(Clone, Copy, Debug, PartialEq, Eq, Structural)]
pub enum __Feature {
    /// ARM Advanced SIMD (NEON) - Aarch32
    neon,
    /// ARM Advanced SIMD (ASIMD) - Aarch64
    asimd,
    /// Polynomial Multiply
    pmull,
}

/// The number of ARM features: their positions are `0..FEATURE_COUNT`.
pub const FEATURE_COUNT: u32 = 3;

impl __Feature {
    /// The position of the feature in a bitset.
    pub open spec fn index(self) -> u32 {
        match self {
            __Feature::neon => 0,
            __Feature::asimd => 1,
            __Feature::pmull => 2,
        }
    }

    /// The position of the feature in a bitset.
    pub fn ordinal(&self) -> (r: u32)
        ensures
            r == self.index(),
            r < FEATURE_COUNT,
    {
        match self {
            __Feature::neon => 0,
            __Feature::asimd => 1,
            __Feature::pmull => 2,
        }
    }
}

/// The feature that the name `name` stands for.
pub open spec fn named(name: Seq<char>) -> Option<__Feature> {
    if name == "neon"@ {
        Some(__Feature::neon)
    } else if name == "asimd"@ {
        Some(__Feature::asimd)
    } else if name == "pmull"@ {
        Some(__Feature::pmull)
    } else {
        None
    }
}

/// Maps a feature name, as used by `target_feature`, to its feature.
pub fn feature_from_name(name: &str) -> (r: Option<__Feature>)
    ensures
        r == named(name@),
{
    let n = chars_of(name);
    if same_chars(&n, &chars_of("neon")) {
        return Some(__Feature::neon);
    }
    if same_chars(&n, &chars_of("asimd")) {
        return Some(__Feature::asimd);
    }
    if same_chars(&n, &chars_of("pmull")) {
        return Some(__Feature::pmull);
    }
    None
}

/// Interface for querying whether a feature is enabled.
pub trait HasFeature: Sized {
    /// Whether the source reports feature `x`.
    spec fn reports(&self, x: __Feature) -> bool;

    /// Whether the source reports feature `x`.
    fn has_feature(&mut self, x: &__Feature) -> (r: bool)
        ensures
            *final(self) == *old(self),
            r == old(self).reports(*x),
    ;
}

/// The capability bitfields that libc's `getauxval` read.
#[derive(Clone, Copy, Debug, PartialEq, Eq, Structural)]
pub struct Auxv {
    pub hwcap: usize,
    pub hwcap2: usize,
}

/// Bit of NEON in `AT_HWCAP` (Linux, `arch/arm/include/uapi/asm/hwcap.h`).
pub const HWCAP_NEON: u32 = 12;

/// Bit of PMULL in `AT_HWCAP2`.
pub const HWCAP2_PMULL: u32 = 1;

impl Auxv {
    /// Builds the bitfields from the reads of `AT_HWCAP` and `AT_HWCAP2`;
    /// `None` where `getauxval` is not available, that is where a read is
    /// missing.
    pub fn new(hwcap: Option<usize>, hwcap2: Option<usize>) -> (r: Option<Auxv>)
        ensures
            r is Some <==> (hwcap is Some && hwcap2 is Some),
            r is Some ==> r->0 == (Auxv { hwcap: hwcap->0, hwcap2: hwcap2->0 }),
    {
        match (hwcap, hwcap2) {
            (Some(hwcap), Some(hwcap2)) => Some(Auxv { hwcap, hwcap2 }),
            _ => None,
        }
    }
}

impl HasFeature for Auxv {
    open spec fn reports(&self, x: __Feature) -> bool {
        match x {
            __Feature::neon => bit::is_set(self.hwcap, HWCAP_NEON),
            __Feature::asimd => false,
            __Feature::pmull => bit::is_set(self.hwcap2, HWCAP2_PMULL),
        }
    }

    fn has_feature(&mut self, x: &__Feature) -> (r: bool) {
        match *x {
            __Feature::neon => bit::test(self.hwcap, HWCAP_NEON),
            __Feature::asimd => false,
            __Feature::pmull => bit::test(self.hwcap2, HWCAP2_PMULL),
        }
    }
}

/// Whether the text `s` describes the CPU with the broken NEON unit: a
/// Qualcomm part (implementer `0x51`, architecture `7`, variant `0x1`, part
/// `0x04d`, revision `0`).
pub open spec fn broken_neon(s: Seq<char>) -> bool {
    &&& field_equals(field_value(s, "CPU implementer"@), "0x51"@)
    &&& field_equals(field_value(s, "CPU architecture"@), "7"@)
    &&& field_equals(field_value(s, "CPU variant"@), "0x1"@)
    &&& field_equals(field_value(s, "CPU part"@), "0x04d"@)
    &&& field_equals(field_value(s, "CPU revision"@), "0"@)
}

/// Whether the text `s` reports feature `x`.
pub open spec fn cpuinfo_reports(s: Seq<char>, x: __Feature) -> bool {
    let features = field_value(s, "Features"@);
    match x {
        __Feature::neon => (field_equals(field_value(s, "CPU architecture"@), "8"@) || field_has(
            features,
            "neon"@,
        )) && !broken_neon(s),
        __Feature::asimd => field_has(features, "asimd"@),
        __Feature::pmull => field_has(features, "pmull"@),
    }
}

/// Is the CPU known to have a broken NEON unit?
pub fn has_broken_neon(cpuinfo: &CpuInfo) -> (r: bool)
    ensures
        r == broken_neon(cpuinfo@),
{
    cpuinfo.field("CPU implementer") == "0x51" && cpuinfo.field("CPU architecture") == "7"
        && cpuinfo.field("CPU variant") == "0x1" && cpuinfo.field("CPU part") == "0x04d"
        && cpuinfo.field("CPU revision") == "0"
}

impl HasFeature for CpuInfo {
    open spec fn reports(&self, x: __Feature) -> bool {
        cpuinfo_reports(self@, x)
    }

    fn has_feature(&mut self, x: &__Feature) -> (r: bool) {
        let features = self.field("Features");
        match *x {
            __Feature::neon => (self.field("CPU architecture") == "8" || features.has("neon"))
                && !has_broken_neon(self),
            __Feature::asimd => features.has("asimd"),
            __Feature::pmull => features.has("pmull"),
        }
    }
}

/// The bitset with bit `i` set exactly where `b_i`.
pub open spec fn bitset_of(b0: bool, b1: bool, b2: bool) -> usize {
    0usize | bit::flag(b0, 0) | bit::flag(b1, 1) | bit::flag(b2, 2)
}

proof fn lemma_bitset_of(b0: bool, b1: bool, b2: bool)
    ensures
        ({
            let v = bitset_of(b0, b1, b2);
            &&& bit::is_set(v, 0) == b0
            &&& bit::is_set(v, 1) == b1
            &&& bit::is_set(v, 2) == b2
            &&& v < (1usize << 3)
        }),
{
    let v = bitset_of(b0, b1, b2);
    assert({
        &&& bit::is_set(v, 0) == b0
        &&& bit::is_set(v, 1) == b1
        &&& bit::is_set(v, 2) == b2
        &&& v < (1usize << 3)
    }) by (bit_vector)
        requires
            v == bitset_of(b0, b1, b2),
    ;
}

/// The feature bitset of a source: bit `f.index()` is set exactly where the
/// source reports `f`.
pub open spec fn is_bitset_of<T: HasFeature>(r: usize, x: T) -> bool {
    &&& forall|f: __Feature| bit::is_set(r, #[trigger] f.index()) == x.reports(f)
    &&& r < (1usize << FEATURE_COUNT)
}

/// Sets the bit of `f` in `value` where `on`.
fn enable(value: usize, on: bool, f: __Feature) -> (r: usize)
    ensures
        r == value | bit::flag(on, f.index()),
{
    bit::set_if(value, on, f.ordinal())
}

/// Assembles the feature bitset that the source `x` reports.
pub fn detect_features_impl<T: HasFeature>(mut x: T) -> (r: usize)
    ensures
        is_bitset_of(r, x),
{
    let ghost x0 = x;
    let mut value: usize = 0;
    let neon = x.has_feature(&__Feature::neon);
    value = enable(value, neon, __Feature::neon);
    let asimd = x.has_feature(&__Feature::asimd);
    value = enable(value, asimd, __Feature::asimd);
    let pmull = x.has_feature(&__Feature::pmull);
    value = enable(value, pmull, __Feature::pmull);
    proof {
        lemma_bitset_of(neon, asimd, pmull);
        assert forall|f: __Feature| bit::is_set(value, #[trigger] f.index()) == x0.reports(f) by {
            match f {
                __Feature::neon => {},
                __Feature::asimd => {},
                __Feature::pmull => {},
            }
        }
    }
    value
}

/// Detects ARM features: from the auxiliary vector where it could be read,
/// else from the text of `/proc/cpuinfo` where it could be read, else none.
pub fn detect_features(auxv: Option<Auxv>, cpuinfo: Option<CpuInfo>) -> (r: usize)
    ensures
        match (auxv, cpuinfo) {
            (Some(a), _) => is_bitset_of(r, a),
            (None, Some(c)) => is_bitset_of(r, c),
            (None, None) => r == 0,
        },
{
    if let Some(a) = auxv {
        return detect_features_impl(a);
    }
    if let Some(c) = cpuinfo {
        return detect_features_impl(c);
    }
    0
}

/// The value the `/proc/cpuinfo` text `s` gives for the auxiliary-vector
/// key `t`: NEON under `AT_HWCAP`, PMULL under `AT_HWCAP2`, zero for any
/// other key.
pub open spec fn emulated_auxval(s: Seq<char>, t: usize) -> usize {
    if t == AT_HWCAP {
        if cpuinfo_reports(s, __Feature::neon) {
            1usize << 12
        } else {
            0
        }
    } else if t == AT_HWCAP2 {
        if field_has(field_value(s, "Features"@), "pmull"@) {
            1usize << 2
        } else {
            0
        }
    } else {
        0
    }
}

/// Emulates `getauxval` from the text of `/proc/cpuinfo`; `None` stands
/// for a text that could not be read, and gives zero.
pub fn getauxval(cpuinfo: Option<&CpuInfo>, t: usize) -> (r: usize)
    ensures
        r == match cpuinfo {
            Some(c) => emulated_auxval(c@, t),
            None => 0,
        },
{
    match cpuinfo {
        None => 0,
        Some(c) => {
            if t == AT_HWCAP {
                let has_neon = (c.field("CPU architecture") == "8" || c.field("Features").has(
                    "neon",
                )) && !has_broken_neon(c);
                if has_neon {
                    1usize << 12
                } else {
                    0
                }
            } else if t == AT_HWCAP2 {
                if c.field("Features").has("pmull") {
                    1usize << 2
                } else {
                    0
                }
            } else {
                0
            }
        },
    }
}

/// Performs run-time feature detection: answers from `cache`, which runs
/// `detect` first if it is not initialized yet.
pub fn __unstable_detect_feature<F: FnOnce() -> usize>(
    cache: &mut FeatureCache,
    x: __Feature,
    detect: F,
) -> (r: bool)
    requires
        detect.requires(()),
    ensures
        exists|detected: usize| #[trigger]
            cache::after_query(old(cache)@, detected) == final(cache)@ && (old(cache)@ is None
                ==> detect.ensures((), detected)),
        r == answer(final(cache)@, x.index()),
{
    cache::test(cache, x.ordinal(), detect)
}

/// A CPU with the broken NEON unit never reports NEON, whatever its
/// `Features` line lists.
pub proof fn lemma_broken_neon_suppresses_neon(s: Seq<char>)
    requires
        broken_neon(s),
    ensures
        !cpuinfo_reports(s, __Feature::neon),
{
}

} // verus!
