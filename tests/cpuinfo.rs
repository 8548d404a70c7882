use feature_detect::cpuinfo::CpuInfo;

const CORE_DUO_T6500: &str = r"processor       : 0
vendor_id       : GenuineIntel
cpu family      : 6
model           : 23
model name      : Intel(R) Core(TM)2 Duo CPU     T6500  @ 2.10GHz
stepping        : 10
microcode       : 0xa0b
cpu MHz         : 1600.000
cache size      : 2048 KB
physical id     : 0
siblings        : 2
core id         : 0
cpu cores       : 2
apicid          : 0
initial apicid  : 0
fdiv_bug        : no
hlt_bug         : no
f00f_bug        : no
coma_bug        : no
fpu             : yes
fpu_exception   : yes
cpuid level     : 13
wp              : yes
flags           : fpu vme de pse tsc msr pae mce cx8 apic sep mtrr pge mca cmov pat pse36 clflush dts acpi mmx fxsr sse sse2 ss ht tm pbe nx lm constant_tsc arch_perfmon pebs bts aperfmperf pni dtes64 monitor ds_cpl est tm2 ssse3 cx16 xtpr pdcm sse4_1 xsave lahf_lm dtherm
bogomips        : 4190.43
clflush size    : 64
cache_alignment : 64
address sizes   : 36 bits physical, 48 bits virtual
power management:

processor       : 1
vendor_id       : GenuineIntel
cpu family      : 6
model           : 23
model name      : Intel(R) Core(TM)2 Duo CPU     T6500  @ 2.10GHz
stepping        : 10
microcode       : 0xa0b
cpu MHz         : 1200.000
cache size      : 2048 KB
physical id     : 0
siblings        : 2
core id         : 1
cpu cores       : 2
apicid          : 1
initial apicid  : 1
fdiv_bug        : no
hlt_bug         : no
f00f_bug        : no
coma_bug        : no
fpu             : yes
fpu_exception   : yes
cpuid level     : 13
wp              : yes
flags           : fpu vme de pse tsc msr pae mce cx8 apic sep mtrr pge mca cmov pat pse36 clflush dts acpi mmx fxsr sse sse2 ss ht tm pbe nx lm constant_tsc arch_perfmon pebs bts aperfmperf pni dtes64 monitor ds_cpl est tm2 ssse3 cx16 xtpr pdcm sse4_1 xsave lahf_lm dtherm
bogomips        : 4190.43
clflush size    : 64
cache_alignment : 64
address sizes   : 36 bits physical, 48 bits virtual
power management:
";

const XEON_5460: &str = r"processor	: 0
vendor_id	: GenuineIntel
cpu family	: 6
model		: 23
model name	: Intel(R) Xeon(R) CPU           X5460  @ 3.16GHz
stepping	: 6
microcode	: 0x60f
cpu MHz		: 3158.785
cache size	: 6144 KB
physical id	: 0
siblings	: 4
core id		: 0
cpu cores	: 4
apicid		: 0
initial apicid	: 0
fpu		: yes
fpu_exception	: yes
cpuid level	: 10
wp		: yes
flags		: fpu vme de pse tsc msr pae mce cx8 apic sep mtrr pge mca cmov pat pse36 clflush dts acpi mmx fxsr sse sse2 ss ht tm pbe syscall nx lm constant_tsc arch_perfmon pebs bts rep_good nopl aperfmperf pni dtes64 monitor ds_cpl vmx est tm2 ssse3 cx16 xtpr pdcm dca sse4_1 lahf_lm dtherm tpr_shadow vnmi flexpriority
bogomips	: 6317.57
clflush size	: 64
cache_alignment	: 64
address sizes	: 38 bits physical, 48 bits virtual
power management:

processor	: 1
vendor_id	: GenuineIntel
cpu family	: 6
model		: 23
model name	: Intel(R) Xeon(R) CPU           X5460  @ 3.16GHz
stepping	: 6
microcode	: 0x60f
cpu MHz		: 3158.785
cache size	: 6144 KB
physical id	: 1
siblings	: 4
core id		: 0
cpu cores	: 4
apicid		: 4
initial apicid	: 4
fpu		: yes
fpu_exception	: yes
cpuid level	: 10
wp		: yes
flags		: fpu vme de pse tsc msr pae mce cx8 apic sep mtrr pge mca cmov pat pse36 clflush dts acpi mmx fxsr sse sse2 ss ht tm pbe syscall nx lm constant_tsc arch_perfmon pebs bts rep_good nopl aperfmperf pni dtes64 monitor ds_cpl vmx est tm2 ssse3 cx16 xtpr pdcm dca sse4_1 lahf_lm dtherm tpr_shadow vnmi flexpriority
bogomips	: 6317.56
clflush size	: 64
cache_alignment	: 64
address sizes	: 38 bits physical, 48 bits virtual
power management:
";

// The text of a running machine cannot be read from here; a Xeon's text
// stands in for it.
#[test]
fn test_cpuinfo_linux() {
    let cpuinfo = CpuInfo::from_str(XEON_5460);
    if cpuinfo.field("vendor_id") == "GenuineIntel" {
        assert!(cpuinfo.field("flags").present());
        assert!(!cpuinfo.field("vendor33_id").present());
        assert!(cpuinfo.field("flags").has("sse"));
        assert!(!cpuinfo.field("flags").has("avx314"));
    } else {
        panic!("the sample is an Intel CPU");
    }
    println!("{}", cpuinfo.raw());
}

#[test]
fn test_cpuinfo_linux_core_duo() {
    let cpuinfo = CpuInfo::from_str(CORE_DUO_T6500);
    assert!(cpuinfo.field("vendor_id") == "GenuineIntel");
    // No line begins with "family": the line is "cpu family".
    assert!(!cpuinfo.field("family").present());
    assert!(cpuinfo.field("cpu family") == "6");
    assert!(cpuinfo.field("model") == "23");
    assert!(cpuinfo.field("model name") ==
            "Intel(R) Core(TM)2 Duo CPU     T6500  @ 2.10GHz");
    assert!(cpuinfo.field("flags") ==
            "fpu vme de pse tsc msr pae mce cx8 apic sep mtrr pge mca cmov pat pse36 clflush dts acpi mmx fxsr sse sse2 ss ht tm pbe nx lm constant_tsc arch_perfmon pebs bts aperfmperf pni dtes64 monitor ds_cpl est tm2 ssse3 cx16 xtpr pdcm sse4_1 xsave lahf_lm dtherm");
    assert!(cpuinfo.field("flags").has("fpu"));
    assert!(cpuinfo.field("flags").has("dtherm"));
    assert!(cpuinfo.field("flags").has("sse2"));
    assert!(!cpuinfo.field("flags").has("avx"));
}

#[test]
fn missing_field_is_absent() {
    let cpuinfo = CpuInfo::from_str(CORE_DUO_T6500);
    assert!(!cpuinfo.field("nonexistent_key").present());
    assert!(cpuinfo.field("nonexistent_key") == "");
    assert!(!(cpuinfo.field("nonexistent_key") == "x"));
    assert!(cpuinfo.field("nonexistent_key").has(""));
    assert!(!cpuinfo.field("nonexistent_key").has("sse"));
}

#[test]
fn field_value_is_trimmed_and_keeps_inner_spaces() {
    let cpuinfo = CpuInfo::from_str("key\t:   a  b  \r\nnext: x: y\n");
    assert!(cpuinfo.field("key") == "a  b");
    assert!(cpuinfo.field("key") == "  a  b ");
    assert!(!(cpuinfo.field("key") == "a b"));
    assert!(cpuinfo.field("next") == "x: y");
}

#[test]
fn field_without_separator_is_absent() {
    let cpuinfo = CpuInfo::from_str("power management:\nflags : a\n");
    assert!(!cpuinfo.field("power").present());
    assert!(cpuinfo.field("flags").present());
}

#[test]
fn first_matching_line_wins() {
    let cpuinfo = CpuInfo::from_str("model : 1\nmodel : 2\n");
    assert!(cpuinfo.field("model") == "1");
}

#[test]
fn empty_text_has_no_fields() {
    let cpuinfo = CpuInfo::from_str("");
    assert!(!cpuinfo.field("flags").present());
    assert_eq!(cpuinfo.raw().as_str(), "");
}

#[test]
fn has_matches_whole_tokens_only() {
    let cpuinfo = CpuInfo::from_str("flags : sse sse2\tavx2  \n");
    let flags = cpuinfo.field("flags");
    assert!(flags.has("sse"));
    assert!(flags.has(" sse2 "));
    assert!(flags.has("avx2"));
    assert!(!flags.has("avx"));
    assert!(!flags.has("se"));
    assert!(!flags.has(""));
    assert!(!flags.has("sse sse2"));
}
