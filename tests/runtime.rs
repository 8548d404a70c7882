use feature_detect::aarch64;
use feature_detect::arm::{self, HasFeature};
use feature_detect::auxv::{auxv, AuxVec, AT_HWCAP, AT_HWCAP2};
use feature_detect::bit;
use feature_detect::cache::{self, FeatureCache};
use feature_detect::cpuinfo::CpuInfo;
use feature_detect::ppv::{m1, m16, m32, m64, m8};
use feature_detect::x86;

// Leaf 1 ecx of a CPU with SSE3, SSSE3, FMA, SSE4.1, SSE4.2, POPCNT, XSAVE,
// OSXSAVE and AVX; edx with SSE and SSE2; leaf 7 ebx with BMI1, AVX2, BMI2.
const ECX: u32 = (1 << 0) | (1 << 9) | (1 << 12) | (1 << 19) | (1 << 20) | (1 << 23)
    | (1 << 26) | (1 << 27) | (1 << 28);
const EDX: u32 = (1 << 25) | (1 << 26);
const EBX: u32 = (1 << 3) | (1 << 5) | (1 << 8);

fn detect_sample() -> usize {
    x86::detect_features(ECX, EDX, EBX, 0b111)
}

fn enabled(cache: &mut FeatureCache, name: &str) -> bool {
    let f = x86::feature_from_name(name).unwrap();
    x86::__unstable_detect_feature(cache, f, detect_sample)
}

// CPUID cannot be issued from here; a sample CPU's registers stand in.
#[test]
fn runtime_detection_x86_nocapture() {
    let mut cache = FeatureCache::new();
    println!("sse: {:?}", enabled(&mut cache, "sse"));
    println!("sse2: {:?}", enabled(&mut cache, "sse2"));
    println!("sse3: {:?}", enabled(&mut cache, "sse3"));
    println!("ssse3: {:?}", enabled(&mut cache, "ssse3"));
    println!("sse4.1: {:?}", enabled(&mut cache, "sse4.1"));
    println!("sse4.2: {:?}", enabled(&mut cache, "sse4.2"));
    println!("avx: {:?}", enabled(&mut cache, "avx"));
    println!("avx2: {:?}", enabled(&mut cache, "avx2"));
    println!("abm: {:?}", enabled(&mut cache, "abm"));
    println!("bmi: {:?}", enabled(&mut cache, "bmi"));
    println!("bmi2: {:?}", enabled(&mut cache, "bmi2"));
    println!("tbm: {:?}", enabled(&mut cache, "tbm"));
    println!("popcnt: {:?}", enabled(&mut cache, "popcnt"));
    println!("lzcnt: {:?}", enabled(&mut cache, "lzcnt"));
    println!("fma: {:?}", enabled(&mut cache, "fma"));
}

// The auxiliary vector cannot be read from here; sample reads stand in.
#[test]
fn auxv_dump() {
    if let Ok(auxvec) = auxv(Ok(1 << 12), Ok(1 << 1)) {
        println!("{:?}", auxvec);
    } else {
        println!("reading /proc/self/auxv failed!");
    }
}

#[test]
fn auxv_auxv_crate() {
    let hwcap: usize = 0x0037_b0d6;
    let hwcap2: usize = 0x1f;
    let v = auxv(Ok(hwcap), Ok(hwcap2));
    assert_eq!(v.unwrap().hwcap, hwcap);
    assert_eq!(v.unwrap().hwcap2, hwcap2);
    assert_eq!(v, Ok(AuxVec { hwcap, hwcap2 }));
}

#[test]
fn auxv_fails_on_a_failed_read() {
    assert_eq!(auxv(Err(()), Ok(3)), Err(()));
    assert_eq!(auxv(Ok(3), Err(())), Err(()));
    assert_eq!(AT_HWCAP, 16);
    assert_eq!(AT_HWCAP2, 26);
}

#[test]
fn bit_set_and_test() {
    assert_eq!(bit::set(0, 0), 1);
    assert_eq!(bit::set(0b100, 3), 0b1100);
    assert_eq!(bit::set(0b100, 2), 0b100);
    assert_eq!(bit::set(0, 31), 0x8000_0000);
    assert!(bit::test(0b1010, 1));
    assert!(!bit::test(0b1010, 2));
    assert!(bit::test(usize::MAX, 31));
    assert_eq!(bit::set_if(0b1, true, 4), 0b10001);
    assert_eq!(bit::set_if(0b1, false, 4), 0b1);
}

#[test]
fn cache_answers_repeatedly_from_the_first_detection() {
    let mut cache = FeatureCache::new();
    assert_eq!(cache.bits(), None);
    assert!(cache::test(&mut cache, 1, || 0b10));
    assert_eq!(cache.bits(), Some(0b10));
    // A later detector is never run: the answer stays the same.
    assert!(cache::test(&mut cache, 1, || 0));
    assert!(cache::test(&mut cache, 1, || 0));
    assert!(!cache::test(&mut cache, 0, || usize::MAX));
    assert_eq!(cache.bits(), Some(0b10));
}

#[test]
fn cache_keeps_an_all_ones_bitset() {
    let mut cache = FeatureCache::new();
    assert!(cache::test(&mut cache, 5, || usize::MAX));
    assert_eq!(cache.bits(), Some(usize::MAX));
    assert!(cache::test(&mut cache, 31, || 0));
    assert_eq!(cache.bits(), Some(usize::MAX));
    let mut second = FeatureCache::with_bits(usize::MAX);
    assert!(cache::test(&mut second, 0, || 0));
    let mut fresh = FeatureCache::new();
    assert!(!cache::test(&mut fresh, 5, || 0));
    assert_eq!(fresh.bits(), Some(0));
}

#[test]
fn x86_decodes_each_register_bit() {
    let v = detect_sample();
    let expected = (1 << 0) | (1 << 1) | (1 << 2) | (1 << 3) | (1 << 4) | (1 << 5) | (1 << 6)
        | (1 << 7) | (1 << 8) | (1 << 9) | (1 << 10) | (1 << 13);
    assert_eq!(v, expected);
    assert_eq!(x86::detect_features(0, 0, 0, 0), 0);
    assert_eq!(x86::detect_features(1 << 5, 0, 0, 0), 1 << 11);
    assert_eq!(x86::detect_features(1 << 21, 0, 0, 0), 1 << 12);
    assert_eq!(x86::detect_features(u32::MAX, u32::MAX, u32::MAX, u64::MAX), (1 << 14) - 1);
}

#[test]
fn x86_xsave_gating() {
    // AVX raw bit set, OSXSAVE clear.
    let ecx = (1 << 26) | (1 << 28);
    let v = x86::detect_features(ecx, 0, 1 << 5, 0b110);
    assert!(!bit::test(v, x86::__Feature::avx.ordinal()));
    assert!(!bit::test(v, x86::__Feature::avx2.ordinal()));
    assert!(!x86::xsave_enabled(ecx));
    // OSXSAVE set, but the OS does not save the AVX state.
    let ecx = (1 << 26) | (1 << 27) | (1 << 28);
    assert!(x86::xsave_enabled(ecx));
    let v = x86::detect_features(ecx, 0, 1 << 5, 0b010);
    assert_eq!(v, 0);
    let v = x86::detect_features(ecx, 0, 1 << 5, 0b110);
    assert_eq!(v, (1 << 6) | (1 << 7));
}

#[test]
fn x86_feature_names() {
    assert_eq!(x86::feature_from_name("sse4.1"), Some(x86::__Feature::sse4_1));
    assert_eq!(x86::feature_from_name("lzcnt"), Some(x86::__Feature::abm));
    assert_eq!(x86::feature_from_name("abm"), Some(x86::__Feature::abm));
    assert_eq!(x86::feature_from_name("popcnt"), Some(x86::__Feature::popcnt));
    assert_eq!(x86::feature_from_name("avx512f"), None);
    assert_eq!(x86::feature_from_name(""), None);
    assert_eq!(x86::__Feature::popcnt.ordinal(), 13);
    assert_eq!(x86::__Feature::sse.ordinal(), 0);
}

const BROKEN_NEON: &str = "Processor\t: ARMv7 Processor rev 0 (v7l)
Features\t: swp half thumb fastmult vfp edsp neon vfpv3 tls vfpv4 pmull
CPU implementer\t: 0x51
CPU architecture: 7
CPU variant\t: 0x1
CPU part\t: 0x04d
CPU revision\t: 0
";

const CORTEX_A15: &str = "Processor\t: ARMv7 Processor rev 3 (v7l)
Features\t: swp half thumb fastmult vfp edsp neon vfpv3 tls vfpv4 idiva idivt
CPU implementer\t: 0x41
CPU architecture: 7
CPU variant\t: 0x2
CPU part\t: 0xc0f
CPU revision\t: 3
";

const AARCH64_TEXT: &str = "processor\t: 0
Features\t: fp asimd evtstrm aes pmull sha1 sha2 crc32
CPU implementer\t: 0x41
CPU architecture: 8
CPU variant\t: 0x0
CPU part\t: 0xd03
CPU revision\t: 4
";

#[test]
fn arm_broken_neon_erratum() {
    let mut c = CpuInfo::from_str(BROKEN_NEON);
    assert!(arm::has_broken_neon(&c));
    assert!(!c.has_feature(&arm::__Feature::neon));
    assert!(c.has_feature(&arm::__Feature::pmull));
    assert_eq!(arm::detect_features(None, Some(c)), 0b100);
    let d = CpuInfo::from_str(BROKEN_NEON);
    assert_eq!(arm::getauxval(Some(&d), AT_HWCAP), 0);
    assert_eq!(arm::getauxval(Some(&d), AT_HWCAP2), 1 << 2);
}

#[test]
fn arm_cpuinfo_detection() {
    let c = CpuInfo::from_str(CORTEX_A15);
    assert!(!arm::has_broken_neon(&c));
    assert_eq!(arm::getauxval(Some(&c), AT_HWCAP), 1 << 12);
    assert_eq!(arm::getauxval(Some(&c), AT_HWCAP2), 0);
    assert_eq!(arm::getauxval(Some(&c), 3), 0);
    assert_eq!(arm::getauxval(None, AT_HWCAP), 0);
    assert_eq!(arm::detect_features(None, Some(c)), 0b001);
    let a = CpuInfo::from_str(AARCH64_TEXT);
    assert_eq!(arm::detect_features(None, Some(a)), 0b111);
    assert_eq!(arm::detect_features(None, None), 0);
}

#[test]
fn arm_auxv_detection() {
    assert_eq!(arm::Auxv::new(Some(1), None), None);
    assert_eq!(arm::Auxv::new(None, Some(1)), None);
    let a = arm::Auxv::new(Some(1 << 12), Some(1 << 1)).unwrap();
    assert_eq!(a, arm::Auxv { hwcap: 1 << 12, hwcap2: 1 << 1 });
    let c = CpuInfo::from_str(AARCH64_TEXT);
    // The auxiliary vector wins over the text.
    assert_eq!(arm::detect_features(Some(a), Some(c)), 0b101);
    let only_neon = arm::Auxv { hwcap: 1 << 12, hwcap2: 0 };
    assert_eq!(arm::detect_features_impl(only_neon), 0b001);
    let b = aarch64::Auxv::new(Some((1 << 1) | (1 << 4)), Some(0)).unwrap();
    assert_eq!(aarch64::detect_features(Some(b), None), 0b111);
    let only_asimd = aarch64::Auxv { hwcap: 1 << 1, hwcap2: 0 };
    assert_eq!(aarch64::detect_features(Some(only_asimd), None), 0b011);
    assert_eq!(aarch64::detect_features(None, None), 0);
}

#[test]
fn arm_feature_names_and_cache() {
    assert_eq!(arm::feature_from_name("neon"), Some(arm::__Feature::neon));
    assert_eq!(arm::feature_from_name("asimd"), Some(arm::__Feature::asimd));
    assert_eq!(arm::feature_from_name("pmull"), Some(arm::__Feature::pmull));
    assert_eq!(arm::feature_from_name("sse"), None);
    let mut cache = FeatureCache::new();
    let detect = || arm::detect_features(None, Some(CpuInfo::from_str(CORTEX_A15)));
    assert!(arm::__unstable_detect_feature(&mut cache, arm::__Feature::neon, detect));
    assert!(!arm::__unstable_detect_feature(&mut cache, arm::__Feature::pmull, || 0b111));
}

#[test]
fn mask_lanes() {
    assert!(m1::new(true).test());
    assert!(!m8::new(false).test());
    assert!(m16::new(true).test());
    assert!(!m32::new(false).test());
    assert!(m64::new(true).test());
    assert_eq!(m8::new(true), m8::new(true));
}
