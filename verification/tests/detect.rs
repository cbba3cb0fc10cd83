use scirs2_core::detect::{
    adaptive_dot_prefers_ultra, get_cpu_features, select_add_kernel, select_dot_kernel,
    select_fma_kernel, select_mul_kernel, AddKernel, CpuFeatures, DotKernel, FeatureProbe,
    FmaKernel, MulKernel, TargetArch, ADAPTIVE_DOT_THRESHOLD,
};

fn probe(avx512f: bool, avx2: bool, sse: bool, fma: bool, neon: bool) -> FeatureProbe {
    FeatureProbe { avx512f, avx2, sse, fma, neon }
}

#[test]
fn x86_takes_x86_probes_and_drops_neon() {
    let f = get_cpu_features(TargetArch::X86_64, probe(true, true, false, true, true));
    assert_eq!(
        f,
        CpuFeatures { has_avx512f: true, has_avx2: true, has_sse: false, has_fma: true, has_neon: false }
    );
}

#[test]
fn aarch64_takes_only_neon() {
    let f = get_cpu_features(TargetArch::Aarch64, probe(true, true, true, true, true));
    assert_eq!(
        f,
        CpuFeatures { has_avx512f: false, has_avx2: false, has_sse: false, has_fma: false, has_neon: true }
    );
    let g = get_cpu_features(TargetArch::Aarch64, probe(true, true, true, true, false));
    assert!(!g.has_neon && !g.has_avx2);
}

#[test]
fn other_arch_reports_nothing() {
    let f = get_cpu_features(TargetArch::Other, probe(true, true, true, true, true));
    assert_eq!(
        f,
        CpuFeatures { has_avx512f: false, has_avx2: false, has_sse: false, has_fma: false, has_neon: false }
    );
}

#[test]
fn add_kernel_prefers_widest_available() {
    let all = get_cpu_features(TargetArch::X86_64, probe(true, true, true, true, false));
    assert_eq!(select_add_kernel(TargetArch::X86_64, &all), AddKernel::Avx2);
    let sse = get_cpu_features(TargetArch::X86_64, probe(false, false, true, false, false));
    assert_eq!(select_add_kernel(TargetArch::X86_64, &sse), AddKernel::Sse);
    let none = get_cpu_features(TargetArch::X86_64, probe(false, false, false, true, false));
    assert_eq!(select_add_kernel(TargetArch::X86_64, &none), AddKernel::Scalar);
    let neon = get_cpu_features(TargetArch::Aarch64, probe(false, false, false, false, true));
    assert_eq!(select_add_kernel(TargetArch::Aarch64, &neon), AddKernel::Neon);
    let plain = get_cpu_features(TargetArch::Aarch64, probe(false, false, false, false, false));
    assert_eq!(select_add_kernel(TargetArch::Aarch64, &plain), AddKernel::Scalar);
    assert_eq!(select_add_kernel(TargetArch::Other, &all), AddKernel::Scalar);
}

#[test]
fn dot_kernel_needs_avx2_and_uses_fma_when_present() {
    let fma = get_cpu_features(TargetArch::X86_64, probe(false, true, true, true, false));
    assert_eq!(select_dot_kernel(TargetArch::X86_64, &fma), DotKernel::Avx2Fma);
    let plain = get_cpu_features(TargetArch::X86_64, probe(false, true, true, false, false));
    assert_eq!(select_dot_kernel(TargetArch::X86_64, &plain), DotKernel::Avx2);
    let old = get_cpu_features(TargetArch::X86_64, probe(false, false, true, true, false));
    assert_eq!(select_dot_kernel(TargetArch::X86_64, &old), DotKernel::Portable);
    let arm = get_cpu_features(TargetArch::Aarch64, probe(true, true, true, true, true));
    assert_eq!(select_dot_kernel(TargetArch::Aarch64, &arm), DotKernel::Portable);
}

#[test]
fn fma_kernel_fuses_only_with_fma_and_avx2() {
    let both = get_cpu_features(TargetArch::X86_64, probe(false, true, false, true, false));
    assert_eq!(select_fma_kernel(TargetArch::X86_64, &both), FmaKernel::FusedAvx2);
    let no_fma = get_cpu_features(TargetArch::X86_64, probe(false, true, false, false, false));
    assert_eq!(select_fma_kernel(TargetArch::X86_64, &no_fma), FmaKernel::SplitAvx);
    let no_avx2 = get_cpu_features(TargetArch::X86_64, probe(false, false, false, true, false));
    assert_eq!(select_fma_kernel(TargetArch::X86_64, &no_avx2), FmaKernel::SplitAvx);
    let arm = get_cpu_features(TargetArch::Aarch64, probe(false, false, false, false, true));
    assert_eq!(select_fma_kernel(TargetArch::Aarch64, &arm), FmaKernel::Scalar);
    let other = get_cpu_features(TargetArch::Other, probe(true, true, true, true, true));
    assert_eq!(select_fma_kernel(TargetArch::Other, &other), FmaKernel::Scalar);
}

#[test]
fn mul_kernel_follows_avx2() {
    let avx2 = get_cpu_features(TargetArch::X86_64, probe(false, true, false, false, false));
    assert_eq!(select_mul_kernel(TargetArch::X86_64, &avx2), MulKernel::Avx2);
    let sse = get_cpu_features(TargetArch::X86_64, probe(false, false, true, false, false));
    assert_eq!(select_mul_kernel(TargetArch::X86_64, &sse), MulKernel::Scalar);
    let arm = get_cpu_features(TargetArch::Aarch64, probe(false, true, false, false, true));
    assert_eq!(select_mul_kernel(TargetArch::Aarch64, &arm), MulKernel::Scalar);
}

#[test]
fn adaptive_dot_threshold_is_inclusive() {
    assert_eq!(ADAPTIVE_DOT_THRESHOLD, 500_000);
    assert!(!adaptive_dot_prefers_ultra(0));
    assert!(!adaptive_dot_prefers_ultra(499_999));
    assert!(adaptive_dot_prefers_ultra(500_000));
    assert!(adaptive_dot_prefers_ultra(usize::MAX));
}

#[test]
fn records_never_mix_neon_with_x86() {
    for arch in [TargetArch::X86_64, TargetArch::Aarch64, TargetArch::Other] {
        for bits in 0u32..32 {
            let p = probe(bits & 1 != 0, bits & 2 != 0, bits & 4 != 0, bits & 8 != 0, bits & 16 != 0);
            let f = get_cpu_features(arch, p);
            if f.has_neon {
                assert!(!f.has_avx512f && !f.has_avx2 && !f.has_sse && !f.has_fma);
            }
            let k = select_add_kernel(arch, &f);
            match k {
                AddKernel::Avx2 => assert!(arch == TargetArch::X86_64 && p.avx2),
                AddKernel::Sse => assert!(arch == TargetArch::X86_64 && p.sse),
                AddKernel::Neon => assert!(arch == TargetArch::Aarch64 && p.neon),
                AddKernel::Scalar => {}
            }
        }
    }
}
