//! CPU feature records and the choice of kernel that they drive.
//!
//! The probes themselves (`is_x86_feature_detected!` and its aarch64
//! counterpart) and the process-wide cache of their answers live with the
//! caller; this module turns the raw answers into the feature record the
//! SIMD kernels consult, and picks, for each feature-dispatched operation,
//! the kernel that record allows.

use vstd::prelude::*;

verus! {

/// The architecture the crate was compiled for.
#[derive(Clone, Copy, Debug, PartialEq, Eq, Structural)]
pub enum TargetArch {
    X86_64,
    Aarch64,
    Other,
}

/// The raw answers of the runtime feature probes. On an architecture a
/// probe does not exist for, its answer is ignored.
#[derive(Clone, Copy, Debug, PartialEq, Eq, Structural)]
pub struct FeatureProbe {
    pub avx512f: bool,
    pub avx2: bool,
    pub sse: bool,
    pub fma: bool,
    pub neon: bool,
}

/// The instruction-set extensions the SIMD kernels may use.
#[derive(Clone, Copy, Debug, PartialEq, Eq, Structural)]
pub struct CpuFeatures {
    pub has_avx512f: bool,
    pub has_avx2: bool,
    pub has_sse: bool,
    pub has_fma: bool,
    pub has_neon: bool,
}

/// The feature record for `arch` given the probe answers: on x86_64 the
/// four x86 probes are taken as they are and NEON is off; on aarch64 only
/// the NEON probe counts (aarch64 FMA is a different instruction family and
/// is not reported here); elsewhere everything is off.
pub open spec fn cpu_features_for(arch: TargetArch, probe: FeatureProbe) -> CpuFeatures {
    match arch {
        TargetArch::X86_64 => CpuFeatures {
            has_avx512f: probe.avx512f,
            has_avx2: probe.avx2,
            has_sse: probe.sse,
            has_fma: probe.fma,
            has_neon: false,
        },
        TargetArch::Aarch64 => CpuFeatures {
            has_avx512f: false,
            has_avx2: false,
            has_sse: false,
            has_fma: false,
            has_neon: probe.neon,
        },
        TargetArch::Other => CpuFeatures {
            has_avx512f: false,
            has_avx2: false,
            has_sse: false,
            has_fma: false,
            has_neon: false,
        },
    }
}

/// No x86 extension and NEON are ever reported together.
pub open spec fn features_consistent(f: CpuFeatures) -> bool {
    f.has_neon ==> !f.has_avx512f && !f.has_avx2 && !f.has_sse && !f.has_fma
}

/// Builds the feature record from the probe answers (see `cpu_features_for`).
pub fn get_cpu_features(arch: TargetArch, probe: FeatureProbe) -> (f: CpuFeatures)
    ensures
        f == cpu_features_for(arch, probe),
        arch == TargetArch::X86_64 ==> {
            &&& f.has_avx512f == probe.avx512f
            &&& f.has_avx2 == probe.avx2
            &&& f.has_sse == probe.sse
            &&& f.has_fma == probe.fma
            &&& !f.has_neon
        },
        arch == TargetArch::Aarch64 ==> {
            &&& !f.has_avx512f
            &&& !f.has_avx2
            &&& !f.has_sse
            &&& !f.has_fma
            &&& f.has_neon == probe.neon
        },
        arch == TargetArch::Other ==> {
            &&& !f.has_avx512f
            &&& !f.has_avx2
            &&& !f.has_sse
            &&& !f.has_fma
            &&& !f.has_neon
        },
        features_consistent(f),
{
    match arch {
        TargetArch::X86_64 => CpuFeatures {
            has_avx512f: probe.avx512f,
            has_avx2: probe.avx2,
            has_sse: probe.sse,
            has_fma: probe.fma,
            has_neon: false,
        },
        TargetArch::Aarch64 => CpuFeatures {
            has_avx512f: false,
            has_avx2: false,
            has_sse: false,
            has_fma: false,
            has_neon: probe.neon,
        },
        TargetArch::Other => CpuFeatures {
            has_avx512f: false,
            has_avx2: false,
            has_sse: false,
            has_fma: false,
            has_neon: false,
        },
    }
}

/// The code path of the feature-dispatched element-wise addition.
#[derive(Clone, Copy, Debug, PartialEq, Eq, Structural)]
pub enum AddKernel {
    Avx2,
    Sse,
    Neon,
    Scalar,
}

/// On x86_64 AVX2 when available, else SSE, else scalar; on aarch64 NEON
/// when available, else scalar; elsewhere scalar.
pub open spec fn add_kernel_for(arch: TargetArch, f: CpuFeatures) -> AddKernel {
    match arch {
        TargetArch::X86_64 => if f.has_avx2 {
            AddKernel::Avx2
        } else if f.has_sse {
            AddKernel::Sse
        } else {
            AddKernel::Scalar
        },
        TargetArch::Aarch64 => if f.has_neon {
            AddKernel::Neon
        } else {
            AddKernel::Scalar
        },
        TargetArch::Other => AddKernel::Scalar,
    }
}

/// The path the feature-dispatched addition takes (see `add_kernel_for`).
pub fn select_add_kernel(arch: TargetArch, features: &CpuFeatures) -> (k: AddKernel)
    ensures
        k == add_kernel_for(arch, *features),
        arch == TargetArch::X86_64 && features.has_avx2 ==> k == AddKernel::Avx2,
        arch == TargetArch::X86_64 && !features.has_avx2 && features.has_sse ==> k
            == AddKernel::Sse,
        arch == TargetArch::X86_64 && !features.has_avx2 && !features.has_sse ==> k
            == AddKernel::Scalar,
        arch == TargetArch::Aarch64 && features.has_neon ==> k == AddKernel::Neon,
        arch == TargetArch::Aarch64 && !features.has_neon ==> k == AddKernel::Scalar,
        arch == TargetArch::Other ==> k == AddKernel::Scalar,
{
    match arch {
        TargetArch::X86_64 => {
            if features.has_avx2 {
                AddKernel::Avx2
            } else if features.has_sse {
                AddKernel::Sse
            } else {
                AddKernel::Scalar
            }
        },
        TargetArch::Aarch64 => {
            if features.has_neon {
                AddKernel::Neon
            } else {
                AddKernel::Scalar
            }
        },
        TargetArch::Other => AddKernel::Scalar,
    }
}

/// The code path of the feature-dispatched dot product.
#[derive(Clone, Copy, Debug, PartialEq, Eq, Structural)]
pub enum DotKernel {
    /// AVX2 with fused multiply-add accumulation.
    Avx2Fma,
    /// AVX2 with separate multiply and add.
    Avx2,
    /// The portable dot product.
    Portable,
}

/// AVX2 on x86_64 when available, accumulating with FMA when that is
/// available too; otherwise the portable dot product.
pub open spec fn dot_kernel_for(arch: TargetArch, f: CpuFeatures) -> DotKernel {
    if arch == TargetArch::X86_64 && f.has_avx2 {
        if f.has_fma {
            DotKernel::Avx2Fma
        } else {
            DotKernel::Avx2
        }
    } else {
        DotKernel::Portable
    }
}

/// The path of the feature-dispatched dot product (see `dot_kernel_for`).
pub fn select_dot_kernel(arch: TargetArch, features: &CpuFeatures) -> (k: DotKernel)
    ensures
        k == dot_kernel_for(arch, *features),
        arch == TargetArch::X86_64 && features.has_avx2 && features.has_fma ==> k
            == DotKernel::Avx2Fma,
        arch == TargetArch::X86_64 && features.has_avx2 && !features.has_fma ==> k
            == DotKernel::Avx2,
        !(arch == TargetArch::X86_64 && features.has_avx2) ==> k == DotKernel::Portable,
{
    if arch == TargetArch::X86_64 && features.has_avx2 {
        if features.has_fma {
            DotKernel::Avx2Fma
        } else {
            DotKernel::Avx2
        }
    } else {
        DotKernel::Portable
    }
}

/// The code path of the feature-dispatched multiply-add `a * b + c`.
#[derive(Clone, Copy, Debug, PartialEq, Eq, Structural)]
pub enum FmaKernel {
    /// 256-bit fused multiply-add.
    FusedAvx2,
    /// 256-bit multiply followed by a separate add.
    SplitAvx,
    /// One element at a time.
    Scalar,
}

/// On x86_64 the fused 256-bit kernel when both FMA and AVX2 are available
/// and the split 256-bit kernel otherwise; elsewhere the scalar loop.
pub open spec fn fma_kernel_for(arch: TargetArch, f: CpuFeatures) -> FmaKernel {
    if arch == TargetArch::X86_64 {
        if f.has_fma && f.has_avx2 {
            FmaKernel::FusedAvx2
        } else {
            FmaKernel::SplitAvx
        }
    } else {
        FmaKernel::Scalar
    }
}

/// The path of the feature-dispatched multiply-add (see `fma_kernel_for`).
pub fn select_fma_kernel(arch: TargetArch, features: &CpuFeatures) -> (k: FmaKernel)
    ensures
        k == fma_kernel_for(arch, *features),
        arch == TargetArch::X86_64 && features.has_fma && features.has_avx2 ==> k
            == FmaKernel::FusedAvx2,
        arch == TargetArch::X86_64 && !(features.has_fma && features.has_avx2) ==> k
            == FmaKernel::SplitAvx,
        arch != TargetArch::X86_64 ==> k == FmaKernel::Scalar,
{
    if arch == TargetArch::X86_64 {
        if features.has_fma && features.has_avx2 {
            FmaKernel::FusedAvx2
        } else {
            FmaKernel::SplitAvx
        }
    } else {
        FmaKernel::Scalar
    }
}

/// The code path of the feature-dispatched element-wise multiplication.
#[derive(Clone, Copy, Debug, PartialEq, Eq, Structural)]
pub enum MulKernel {
    Avx2,
    Scalar,
}

/// AVX2 on x86_64 when available, the scalar loop otherwise.
pub open spec fn mul_kernel_for(arch: TargetArch, f: CpuFeatures) -> MulKernel {
    if arch == TargetArch::X86_64 && f.has_avx2 {
        MulKernel::Avx2
    } else {
        MulKernel::Scalar
    }
}

/// The path of the feature-dispatched multiplication (see `mul_kernel_for`).
pub fn select_mul_kernel(arch: TargetArch, features: &CpuFeatures) -> (k: MulKernel)
    ensures
        k == mul_kernel_for(arch, *features),
        arch == TargetArch::X86_64 && features.has_avx2 ==> k == MulKernel::Avx2,
        !(arch == TargetArch::X86_64 && features.has_avx2) ==> k == MulKernel::Scalar,
{
    if arch == TargetArch::X86_64 && features.has_avx2 {
        MulKernel::Avx2
    } else {
        MulKernel::Scalar
    }
}

/// Arrays at least this long take the multi-accumulator dot product in the
/// adaptive dot product.
pub const ADAPTIVE_DOT_THRESHOLD: usize = 500000;

/// Whether the adaptive dot product hands an array of `len` elements to the
/// multi-accumulator kernel rather than to the standard one.
pub fn adaptive_dot_prefers_ultra(len: usize) -> (ultra: bool)
    ensures
        ultra == (len >= ADAPTIVE_DOT_THRESHOLD),
{
    len >= ADAPTIVE_DOT_THRESHOLD
}

/// Every record built from probe answers is consistent: NEON is never
/// reported beside an x86 extension.
pub proof fn lemma_features_consistent(arch: TargetArch, probe: FeatureProbe)
    ensures
        features_consistent(cpu_features_for(arch, probe)),
{
}

/// The dispatch never picks an instruction set that the probes did not
/// report on the architecture it runs on: each vector kernel chosen from the
/// record built from `probe` needs only extensions that `probe` reported.
pub proof fn lemma_dispatch_uses_only_probed_extensions(arch: TargetArch, probe: FeatureProbe)
    ensures
        ({
            let f = cpu_features_for(arch, probe);
            &&& add_kernel_for(arch, f) == AddKernel::Avx2 ==> arch == TargetArch::X86_64
                && probe.avx2
            &&& add_kernel_for(arch, f) == AddKernel::Sse ==> arch == TargetArch::X86_64
                && probe.sse
            &&& add_kernel_for(arch, f) == AddKernel::Neon ==> arch == TargetArch::Aarch64
                && probe.neon
            &&& dot_kernel_for(arch, f) == DotKernel::Avx2 ==> arch == TargetArch::X86_64
                && probe.avx2
            &&& dot_kernel_for(arch, f) == DotKernel::Avx2Fma ==> arch == TargetArch::X86_64
                && probe.avx2 && probe.fma
            &&& fma_kernel_for(arch, f) == FmaKernel::FusedAvx2 ==> arch == TargetArch::X86_64
                && probe.avx2 && probe.fma
            &&& mul_kernel_for(arch, f) == MulKernel::Avx2 ==> arch == TargetArch::X86_64
                && probe.avx2
        }),
{
}

/// On x86_64 each x86 field of the record is exactly the probe's answer and
/// NEON is off; on aarch64 only NEON is reported, as the probe answered;
/// elsewhere nothing is reported.
pub proof fn lemma_cpu_features_reflect_probes(arch: TargetArch, probe: FeatureProbe)
    ensures
        arch == TargetArch::X86_64 ==> {
            &&& cpu_features_for(arch, probe).has_avx512f == probe.avx512f
            &&& cpu_features_for(arch, probe).has_avx2 == probe.avx2
            &&& cpu_features_for(arch, probe).has_sse == probe.sse
            &&& cpu_features_for(arch, probe).has_fma == probe.fma
            &&& !cpu_features_for(arch, probe).has_neon
        },
        arch == TargetArch::Aarch64 ==> {
            &&& !cpu_features_for(arch, probe).has_avx512f
            &&& !cpu_features_for(arch, probe).has_avx2
            &&& !cpu_features_for(arch, probe).has_sse
            &&& !cpu_features_for(arch, probe).has_fma
            &&& cpu_features_for(arch, probe).has_neon == probe.neon
        },
        arch == TargetArch::Other ==> {
            &&& !cpu_features_for(arch, probe).has_avx512f
            &&& !cpu_features_for(arch, probe).has_avx2
            &&& !cpu_features_for(arch, probe).has_sse
            &&& !cpu_features_for(arch, probe).has_fma
            &&& !cpu_features_for(arch, probe).has_neon
        },
{
}

/// The addition takes the widest kernel the record allows: AVX2 whenever
/// x86_64 reports AVX2, SSE when it reports SSE but not AVX2, NEON whenever
/// aarch64 reports NEON, and the scalar loop otherwise.
pub proof fn lemma_add_kernel_widest_available(arch: TargetArch, features: CpuFeatures)
    ensures
        arch == TargetArch::X86_64 && features.has_avx2 ==> add_kernel_for(arch, features) == AddKernel::Avx2,
        arch == TargetArch::X86_64 && !features.has_avx2 && features.has_sse ==> add_kernel_for(arch, features)
            == AddKernel::Sse,
        arch == TargetArch::X86_64 && !features.has_avx2 && !features.has_sse ==> add_kernel_for(arch, features)
            == AddKernel::Scalar,
        arch == TargetArch::Aarch64 && features.has_neon ==> add_kernel_for(arch, features) == AddKernel::Neon,
        arch == TargetArch::Aarch64 && !features.has_neon ==> add_kernel_for(arch, features) == AddKernel::Scalar,
        arch == TargetArch::Other ==> add_kernel_for(arch, features) == AddKernel::Scalar,
{
}

/// The dot product uses AVX2 whenever x86_64 reports it, accumulating with
/// FMA exactly when FMA is reported too, and the portable dot product
/// otherwise.
pub proof fn lemma_dot_kernel_by_features(arch: TargetArch, features: CpuFeatures)
    ensures
        arch == TargetArch::X86_64 && features.has_avx2 && features.has_fma ==> dot_kernel_for(arch, features)
            == DotKernel::Avx2Fma,
        arch == TargetArch::X86_64 && features.has_avx2 && !features.has_fma ==> dot_kernel_for(arch, features)
            == DotKernel::Avx2,
        !(arch == TargetArch::X86_64 && features.has_avx2) ==> dot_kernel_for(arch, features) == DotKernel::Portable,
{
}

/// The multiply-add is fused exactly when x86_64 reports both FMA and AVX2,
/// split on any other x86_64 record, and scalar off x86_64.
pub proof fn lemma_fma_kernel_by_features(arch: TargetArch, features: CpuFeatures)
    ensures
        arch == TargetArch::X86_64 && features.has_fma && features.has_avx2 ==> fma_kernel_for(arch, features)
            == FmaKernel::FusedAvx2,
        arch == TargetArch::X86_64 && !(features.has_fma && features.has_avx2) ==> fma_kernel_for(arch, features)
            == FmaKernel::SplitAvx,
        arch != TargetArch::X86_64 ==> fma_kernel_for(arch, features) == FmaKernel::Scalar,
{
}

/// The multiplication uses AVX2 exactly when x86_64 reports AVX2.
pub proof fn lemma_mul_kernel_by_features(arch: TargetArch, features: CpuFeatures)
    ensures
        arch == TargetArch::X86_64 && features.has_avx2 ==> mul_kernel_for(arch, features) == MulKernel::Avx2,
        !(arch == TargetArch::X86_64 && features.has_avx2) ==> mul_kernel_for(arch, features) == MulKernel::Scalar,
{
}

} // verus!
