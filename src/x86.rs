//! Feature detection on x86 and x86-64.
//!
//! Two CPUID queries give the raw feature registers: leaf 1 ("processor
//! info and feature bits") in `ecx` and `edx`, and leaf 7, sub-leaf 0
//! ("extended features") in `ebx`. AVX and AVX2 are reported only when the
//! OS has enabled XSAVE and saves the SSE and AVX register state, which the
//! extended control register 0 (read by XGETBV) tells.
#![allow(non_camel_case_types)]

use crate::bit;
use crate::cache::{self, answer, FeatureCache};
use crate::text::{chars_of, same_chars};
use vstd::prelude::*;

verus! {

/// X86 CPU Feature enum. Each variant denotes a position in a bitset for a
/// particular feature.
#[derive(Clone, Copy, Debug, PartialEq, Eq, Structural)]
pub enum __Feature {
    /// SSE (Streaming SIMD Extensions)
    sse,
    /// SSE2 (Streaming SIMD Extensions 2)
    sse2,
    /// SSE3 (Streaming SIMD Extensions 3)
    sse3,
    /// SSSE3 (Supplemental Streaming SIMD Extensions 3)
    ssse3,
    /// SSE4.1 (Streaming SIMD Extensions 4.1)
    sse4_1,
    /// SSE4.2 (Streaming SIMD Extensions 4.2)
    sse4_2,
    /// AVX (Advanced Vector Extensions)
    avx,
    /// AVX2 (Advanced Vector Extensions 2)
    avx2,
    /// FMA (Fused Multiply Add)
    fma,
    /// BMI1 (Bit Manipulation Instructions 1)
    bmi,
    /// BMI2 (Bit Manipulation Instructions 2)
    bmi2,
    /// ABM (Advanced Bit Manipulation) on AMD / LZCNT (Leading Zero Count)
    /// on Intel
    abm,
    /// TBM (Trailing Bit Manipulation)
    tbm,
    /// POPCNT (Population Count)
    popcnt,
}

/// The number of x86 features: their positions are `0..FEATURE_COUNT`.
pub const FEATURE_COUNT: u32 = 14;

impl __Feature {
    /// The position of the feature in a bitset.
    pub open spec fn index(self) -> u32 {
        match self {
            __Feature::sse => 0,
            __Feature::sse2 => 1,
            __Feature::sse3 => 2,
            __Feature::ssse3 => 3,
            __Feature::sse4_1 => 4,
            __Feature::sse4_2 => 5,
            __Feature::avx => 6,
            __Feature::avx2 => 7,
            __Feature::fma => 8,
            __Feature::bmi => 9,
            __Feature::bmi2 => 10,
            __Feature::abm => 11,
            __Feature::tbm => 12,
            __Feature::popcnt => 13,
        }
    }

    /// The position of the feature in a bitset.
    pub fn ordinal(&self) -> (r: u32)
        ensures
            r == self.index(),
            r < FEATURE_COUNT,
    {
        match self {
            __Feature::sse => 0,
            __Feature::sse2 => 1,
            __Feature::sse3 => 2,
            __Feature::ssse3 => 3,
            __Feature::sse4_1 => 4,
            __Feature::sse4_2 => 5,
            __Feature::avx => 6,
            __Feature::avx2 => 7,
            __Feature::fma => 8,
            __Feature::bmi => 9,
            __Feature::bmi2 => 10,
            __Feature::abm => 11,
            __Feature::tbm => 12,
            __Feature::popcnt => 13,
        }
    }
}

/// Whether bit `n` of the register `reg` is one.
pub open spec fn reg_bit(reg: u32, n: u32) -> bool {
    bit::is_set(reg as usize, n)
}

/// Whether the CPU supports XSAVE (bit 26 of leaf 1 `ecx`) and the OS has
/// enabled it (OSXSAVE, bit 27): only then may XGETBV be issued.
pub open spec fn xsave_gate(proc_info_ecx: u32) -> bool {
    reg_bit(proc_info_ecx, 26) && reg_bit(proc_info_ecx, 27)
}

/// Whether the extended control register 0 says that the OS saves the SSE
/// (bit 1) and AVX (bit 2) register state.
pub open spec fn saves_avx_state(xcr0: u64) -> bool {
    xcr0 & 6 == 6
}

/// Whether the raw registers report feature `f`.
pub open spec fn reported(
    f: __Feature,
    proc_info_ecx: u32,
    proc_info_edx: u32,
    extended_features_ebx: u32,
    xcr0: u64,
) -> bool {
    let avx_state = xsave_gate(proc_info_ecx) && saves_avx_state(xcr0);
    match f {
        __Feature::sse => reg_bit(proc_info_edx, 25),
        __Feature::sse2 => reg_bit(proc_info_edx, 26),
        __Feature::sse3 => reg_bit(proc_info_ecx, 0),
        __Feature::ssse3 => reg_bit(proc_info_ecx, 9),
        __Feature::sse4_1 => reg_bit(proc_info_ecx, 19),
        __Feature::sse4_2 => reg_bit(proc_info_ecx, 20),
        __Feature::avx => avx_state && reg_bit(proc_info_ecx, 28),
        __Feature::avx2 => avx_state && reg_bit(extended_features_ebx, 5),
        __Feature::fma => reg_bit(proc_info_ecx, 12),
        __Feature::bmi => reg_bit(extended_features_ebx, 3),
        __Feature::bmi2 => reg_bit(extended_features_ebx, 8),
        __Feature::abm => reg_bit(proc_info_ecx, 5),
        __Feature::tbm => reg_bit(proc_info_ecx, 21),
        __Feature::popcnt => reg_bit(proc_info_ecx, 23),
    }
}

/// Whether XGETBV may be issued: the CPU supports XSAVE and the OS has
/// enabled it.
pub fn xsave_enabled(proc_info_ecx: u32) -> (r: bool)
    ensures
        r == xsave_gate(proc_info_ecx),
{
    bit::test(proc_info_ecx as usize, 26) && bit::test(proc_info_ecx as usize, 27)
}

/// The bitset with bit `i` set exactly where `b_i`.
pub open spec fn bitset_of(
    b0: bool,
    b1: bool,
    b2: bool,
    b3: bool,
    b4: bool,
    b5: bool,
    b6: bool,
    b7: bool,
    b8: bool,
    b9: bool,
    b10: bool,
    b11: bool,
    b12: bool,
    b13: bool,
) -> usize {
    0usize | bit::flag(b0, 0) | bit::flag(b1, 1) | bit::flag(b2, 2) | bit::flag(b3, 3) | bit::flag(b4, 4) | bit::flag(b5, 5)
        | bit::flag(b6, 6) | bit::flag(b7, 7) | bit::flag(b8, 8) | bit::flag(b9, 9) | bit::flag(b10, 10) | bit::flag(b11, 11)
        | bit::flag(b12, 12) | bit::flag(b13, 13)
}

proof fn lemma_bitset_of(
    b0: bool,
    b1: bool,
    b2: bool,
    b3: bool,
    b4: bool,
    b5: bool,
    b6: bool,
    b7: bool,
    b8: bool,
    b9: bool,
    b10: bool,
    b11: bool,
    b12: bool,
    b13: bool,
)
    ensures
        ({
            let v = bitset_of(b0, b1, b2, b3, b4, b5, b6, b7, b8, b9, b10, b11, b12, b13);
            &&& bit::is_set(v, 0) == b0
            &&& bit::is_set(v, 1) == b1
            &&& bit::is_set(v, 2) == b2
            &&& bit::is_set(v, 3) == b3
            &&& bit::is_set(v, 4) == b4
            &&& bit::is_set(v, 5) == b5
            &&& bit::is_set(v, 6) == b6
            &&& bit::is_set(v, 7) == b7
            &&& bit::is_set(v, 8) == b8
            &&& bit::is_set(v, 9) == b9
            &&& bit::is_set(v, 10) == b10
            &&& bit::is_set(v, 11) == b11
            &&& bit::is_set(v, 12) == b12
            &&& bit::is_set(v, 13) == b13
            &&& v < (1usize << 14)
        }),
{
    let v = bitset_of(b0, b1, b2, b3, b4, b5, b6, b7, b8, b9, b10, b11, b12, b13);
    assert({
        &&& bit::is_set(v, 0) == b0
        &&& bit::is_set(v, 1) == b1
        &&& bit::is_set(v, 2) == b2
        &&& bit::is_set(v, 3) == b3
        &&& bit::is_set(v, 4) == b4
        &&& bit::is_set(v, 5) == b5
        &&& bit::is_set(v, 6) == b6
        &&& bit::is_set(v, 7) == b7
        &&& bit::is_set(v, 8) == b8
        &&& bit::is_set(v, 9) == b9
        &&& bit::is_set(v, 10) == b10
        &&& bit::is_set(v, 11) == b11
        &&& bit::is_set(v, 12) == b12
        &&& bit::is_set(v, 13) == b13
        &&& v < (1usize << 14)
    }) by (bit_vector)
        requires
            v == bitset_of(b0, b1, b2, b3, b4, b5, b6, b7, b8, b9, b10, b11, b12, b13),
    ;
}

/// Sets the bit of `f` in `value` where `on`.
fn enable(value: usize, on: bool, f: __Feature) -> (r: usize)
    ensures
        r == value | bit::flag(on, f.index()),
{
    bit::set_if(value, on, f.ordinal())
}

/// Decodes the raw CPUID registers into a feature bitset.
///
/// `xcr0` is the value XGETBV read from the extended control register 0;
/// it is only consulted when `xsave_enabled(proc_info_ecx)`, and callers
/// that did not issue XGETBV pass any value.
pub fn detect_features(
    proc_info_ecx: u32,
    proc_info_edx: u32,
    extended_features_ebx: u32,
    xcr0: u64,
) -> (r: usize)
    ensures
        forall|f: __Feature|
            bit::is_set(r, #[trigger] f.index()) == reported(
                f,
                proc_info_ecx,
                proc_info_edx,
                extended_features_ebx,
                xcr0,
            ),
        r < (1usize << FEATURE_COUNT),
{
    let ecx = proc_info_ecx as usize;
    let edx = proc_info_edx as usize;
    let ebx = extended_features_ebx as usize;
    // AVX and AVX2 need the OS to save their register state on context
    // switches.
    let avx_state = xsave_enabled(proc_info_ecx) && xcr0 & 6 == 6;
    let mut value: usize = 0;
    // Leaf 1 => feature bits in ecx and edx; leaf 7 => extended features in
    // ebx.
    value = enable(value, bit::test(edx, 25), __Feature::sse);
    value = enable(value, bit::test(edx, 26), __Feature::sse2);
    value = enable(value, bit::test(ecx, 0), __Feature::sse3);
    value = enable(value, bit::test(ecx, 9), __Feature::ssse3);
    value = enable(value, bit::test(ecx, 19), __Feature::sse4_1);
    value = enable(value, bit::test(ecx, 20), __Feature::sse4_2);
    value = enable(value, avx_state && bit::test(ecx, 28), __Feature::avx);
    value = enable(value, avx_state && bit::test(ebx, 5), __Feature::avx2);
    value = enable(value, bit::test(ecx, 12), __Feature::fma);
    value = enable(value, bit::test(ebx, 3), __Feature::bmi);
    value = enable(value, bit::test(ebx, 8), __Feature::bmi2);
    value = enable(value, bit::test(ecx, 5), __Feature::abm);
    value = enable(value, bit::test(ecx, 21), __Feature::tbm);
    value = enable(value, bit::test(ecx, 23), __Feature::popcnt);
    proof {
        let ghost b = |f: __Feature|
            reported(f, proc_info_ecx, proc_info_edx, extended_features_ebx, xcr0);
        lemma_bitset_of(
            b(__Feature::sse),
            b(__Feature::sse2),
            b(__Feature::sse3),
            b(__Feature::ssse3),
            b(__Feature::sse4_1),
            b(__Feature::sse4_2),
            b(__Feature::avx),
            b(__Feature::avx2),
            b(__Feature::fma),
            b(__Feature::bmi),
            b(__Feature::bmi2),
            b(__Feature::abm),
            b(__Feature::tbm),
            b(__Feature::popcnt),
        );
        assert forall|f: __Feature|
            bit::is_set(value, #[trigger] f.index()) == reported(
                f,
                proc_info_ecx,
                proc_info_edx,
                extended_features_ebx,
                xcr0,
            ) by {
            match f {
                __Feature::sse => {},
                __Feature::sse2 => {},
                __Feature::sse3 => {},
                __Feature::ssse3 => {},
                __Feature::sse4_1 => {},
                __Feature::sse4_2 => {},
                __Feature::avx => {},
                __Feature::avx2 => {},
                __Feature::fma => {},
                __Feature::bmi => {},
                __Feature::bmi2 => {},
                __Feature::abm => {},
                __Feature::tbm => {},
                __Feature::popcnt => {},
            }
        }
    }
    value
}

/// The feature that the name `name` stands for. `"lzcnt"` is another
/// name of `abm`.
pub open spec fn named(name: Seq<char>) -> Option<__Feature> {
    if name == "sse"@ {
        Some(__Feature::sse)
    } else if name == "sse2"@ {
        Some(__Feature::sse2)
    } else if name == "sse3"@ {
        Some(__Feature::sse3)
    } else if name == "ssse3"@ {
        Some(__Feature::ssse3)
    } else if name == "sse4.1"@ {
        Some(__Feature::sse4_1)
    } else if name == "sse4.2"@ {
        Some(__Feature::sse4_2)
    } else if name == "avx"@ {
        Some(__Feature::avx)
    } else if name == "avx2"@ {
        Some(__Feature::avx2)
    } else if name == "fma"@ {
        Some(__Feature::fma)
    } else if name == "bmi"@ {
        Some(__Feature::bmi)
    } else if name == "bmi2"@ {
        Some(__Feature::bmi2)
    } else if name == "abm"@ {
        Some(__Feature::abm)
    } else if name == "lzcnt"@ {
        Some(__Feature::abm)
    } else if name == "tbm"@ {
        Some(__Feature::tbm)
    } else if name == "popcnt"@ {
        Some(__Feature::popcnt)
    } else {
        None
    }
}

/// Maps a feature name, as used by `target_feature`, to its feature.
pub fn feature_from_name(name: &str) -> (r: Option<__Feature>)
    ensures
        r == named(name@),
{
    let n = chars_of(name);
    if same_chars(&n, &chars_of("sse")) {
        return Some(__Feature::sse);
    }
    if same_chars(&n, &chars_of("sse2")) {
        return Some(__Feature::sse2);
    }
    if same_chars(&n, &chars_of("sse3")) {
        return Some(__Feature::sse3);
    }
    if same_chars(&n, &chars_of("ssse3")) {
        return Some(__Feature::ssse3);
    }
    if same_chars(&n, &chars_of("sse4.1")) {
        return Some(__Feature::sse4_1);
    }
    if same_chars(&n, &chars_of("sse4.2")) {
        return Some(__Feature::sse4_2);
    }
    if same_chars(&n, &chars_of("avx")) {
        return Some(__Feature::avx);
    }
    if same_chars(&n, &chars_of("avx2")) {
        return Some(__Feature::avx2);
    }
    if same_chars(&n, &chars_of("fma")) {
        return Some(__Feature::fma);
    }
    if same_chars(&n, &chars_of("bmi")) {
        return Some(__Feature::bmi);
    }
    if same_chars(&n, &chars_of("bmi2")) {
        return Some(__Feature::bmi2);
    }
    if same_chars(&n, &chars_of("abm")) {
        return Some(__Feature::abm);
    }
    if same_chars(&n, &chars_of("lzcnt")) {
        return Some(__Feature::abm);
    }
    if same_chars(&n, &chars_of("tbm")) {
        return Some(__Feature::tbm);
    }
    if same_chars(&n, &chars_of("popcnt")) {
        return Some(__Feature::popcnt);
    }
    None
}

/// AVX and AVX2 are reported absent whenever XSAVE is unsupported or not
/// enabled by the OS, whatever their own raw bits and XCR0 hold.
pub proof fn lemma_xsave_gating(
    proc_info_ecx: u32,
    proc_info_edx: u32,
    extended_features_ebx: u32,
    xcr0: u64,
)
    requires
        !xsave_gate(proc_info_ecx),
    ensures
        !reported(__Feature::avx, proc_info_ecx, proc_info_edx, extended_features_ebx, xcr0),
        !reported(__Feature::avx2, proc_info_ecx, proc_info_edx, extended_features_ebx, xcr0),
{
}

/// Performs run-time feature detection: answers from `cache`, which runs
/// `detect` first if it is not initialized yet.
pub fn __unstable_detect_feature<F: FnOnce() -> usize>(
    cache: &mut FeatureCache,
    x: __Feature,
    detect: F,
) -> (r: bool)
    requires
        detect.requires(()),
    ensures
        exists|detected: usize| #[trigger]
            cache::after_query(old(cache)@, detected) == final(cache)@ && (old(cache)@ is None
                ==> detect.ensures((), detected)),
        r == answer(final(cache)@, x.index()),
{
    cache::test(cache, x.ordinal(), detect)
}

} // verus!
