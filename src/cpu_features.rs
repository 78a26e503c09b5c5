use vstd::prelude::*;
use crate::error::Error;

verus! {

/// An instruction-set extension of x86-64 that the code generator may use.
#[derive(Debug, Clone, Copy, PartialEq, Eq, Structural)]
pub enum SpecificFeature {
    SSE3,
    SSSE3,
    SSE41,
    SSE42,
    Popcnt,
    AVX,
    BMI1,
    BMI2,
    LZCNT,
}

/// Number of specific features.
pub const NUM_FEATURES: usize = 9;

impl SpecificFeature {
    pub open spec fn index_spec(self) -> nat {
        match self {
            SpecificFeature::SSE3 => 0,
            SpecificFeature::SSSE3 => 1,
            SpecificFeature::SSE41 => 2,
            SpecificFeature::SSE42 => 3,
            SpecificFeature::Popcnt => 4,
            SpecificFeature::AVX => 5,
            SpecificFeature::BMI1 => 6,
            SpecificFeature::BMI2 => 7,
            SpecificFeature::LZCNT => 8,
        }
    }

    /// Position of this feature in the fixed feature order.
    pub fn index(&self) -> (r: usize)
        ensures
            r == self.index_spec(),
            r < NUM_FEATURES,
    {
        match self {
            SpecificFeature::SSE3 => 0,
            SpecificFeature::SSSE3 => 1,
            SpecificFeature::SSE41 => 2,
            SpecificFeature::SSE42 => 3,
            SpecificFeature::Popcnt => 4,
            SpecificFeature::AVX => 5,
            SpecificFeature::BMI1 => 6,
            SpecificFeature::BMI2 => 7,
            SpecificFeature::LZCNT => 8,
        }
    }

    pub open spec fn at_spec(i: nat) -> SpecificFeature {
        if i == 0 {
            SpecificFeature::SSE3
        } else if i == 1 {
            SpecificFeature::SSSE3
        } else if i == 2 {
            SpecificFeature::SSE41
        } else if i == 3 {
            SpecificFeature::SSE42
        } else if i == 4 {
            SpecificFeature::Popcnt
        } else if i == 5 {
            SpecificFeature::AVX
        } else if i == 6 {
            SpecificFeature::BMI1
        } else if i == 7 {
            SpecificFeature::BMI2
        } else {
            SpecificFeature::LZCNT
        }
    }

    /// The feature at position `i` of the fixed feature order.
    pub fn at(i: usize) -> (r: SpecificFeature)
        requires
            i < NUM_FEATURES,
        ensures
            r == Self::at_spec(i as nat),
            r.index_spec() == i,
    {
        if i == 0 {
            SpecificFeature::SSE3
        } else if i == 1 {
            SpecificFeature::SSSE3
        } else if i == 2 {
            SpecificFeature::SSE41
        } else if i == 3 {
            SpecificFeature::SSE42
        } else if i == 4 {
            SpecificFeature::Popcnt
        } else if i == 5 {
            SpecificFeature::AVX
        } else if i == 6 {
            SpecificFeature::BMI1
        } else if i == 7 {
            SpecificFeature::BMI2
        } else {
            SpecificFeature::LZCNT
        }
    }

    pub open spec fn setting_name_spec(self) -> Seq<char> {
        match self {
            SpecificFeature::SSE3 => "has_sse3"@,
            SpecificFeature::SSSE3 => "has_ssse3"@,
            SpecificFeature::SSE41 => "has_sse41"@,
            SpecificFeature::SSE42 => "has_sse42"@,
            SpecificFeature::Popcnt => "has_popcnt"@,
            SpecificFeature::AVX => "has_avx"@,
            SpecificFeature::BMI1 => "has_bmi1"@,
            SpecificFeature::BMI2 => "has_bmi2"@,
            SpecificFeature::LZCNT => "has_lzcnt"@,
        }
    }

    /// Name of the code generator's ISA setting that switches this feature.
    pub fn setting_name(&self) -> (r: &'static str)
        ensures
            r@ == self.setting_name_spec(),
    {
        match self {
            SpecificFeature::SSE3 => "has_sse3",
            SpecificFeature::SSSE3 => "has_ssse3",
            SpecificFeature::SSE41 => "has_sse41",
            SpecificFeature::SSE42 => "has_sse42",
            SpecificFeature::Popcnt => "has_popcnt",
            SpecificFeature::AVX => "has_avx",
            SpecificFeature::BMI1 => "has_bmi1",
            SpecificFeature::BMI2 => "has_bmi2",
            SpecificFeature::LZCNT => "has_lzcnt",
        }
    }
}

/// A CPU model whose features the generated code may assume.
#[derive(Debug, Clone, Copy, PartialEq, Eq, Structural)]
pub enum TargetCpu {
    /// The machine the compiler runs on, as detected there.
    Native,
    /// No extension beyond the base architecture.
    Baseline,
    Nehalem,
    Sandybridge,
    Haswell,
    Broadwell,
    Skylake,
    Cannonlake,
    Icelake,
    Znver1,
}

impl TargetCpu {
    /// Whether the CPU model's profile includes feature `f`.
    pub open spec fn has_spec(self, f: SpecificFeature) -> bool {
        let nehalem = f is SSE3 || f is SSSE3 || f is SSE41 || f is SSE42 || f is Popcnt;
        let sandybridge = nehalem || f is AVX;
        let haswell = sandybridge || f is BMI1 || f is BMI2 || f is LZCNT;
        match self {
            TargetCpu::Native | TargetCpu::Baseline => false,
            TargetCpu::Nehalem => nehalem,
            TargetCpu::Sandybridge => sandybridge,
            TargetCpu::Haswell | TargetCpu::Broadwell | TargetCpu::Skylake | TargetCpu::Cannonlake
            | TargetCpu::Icelake | TargetCpu::Znver1 => haswell,
        }
    }

    pub fn has_feature(&self, f: SpecificFeature) -> (r: bool)
        ensures
            r == self.has_spec(f),
    {
        let nehalem = match f {
            SpecificFeature::SSE3 | SpecificFeature::SSSE3 | SpecificFeature::SSE41
            | SpecificFeature::SSE42 | SpecificFeature::Popcnt => true,
            _ => false,
        };
        let sandybridge = nehalem || f == SpecificFeature::AVX;
        let haswell = sandybridge || f == SpecificFeature::BMI1 || f == SpecificFeature::BMI2 || f
            == SpecificFeature::LZCNT;
        match self {
            TargetCpu::Native | TargetCpu::Baseline => false,
            TargetCpu::Nehalem => nehalem,
            TargetCpu::Sandybridge => sandybridge,
            _ => haswell,
        }
    }
}

/// The CPU the code is compiled for: a CPU model, and features switched on or off
/// one by one (`None`: as the model has it), indexed by the feature order.
#[derive(Debug, Clone, Copy, PartialEq, Eq)]
pub struct CpuFeatures {
    pub cpu: TargetCpu,
    pub specific: [Option<bool>; 9],
}

impl CpuFeatures {
    /// The setting of feature `f`: an explicit choice wins over the CPU model,
    /// which only switches features on.
    pub open spec fn resolved_spec(self, f: SpecificFeature) -> Option<bool> {
        match self.specific@[f.index_spec() as int] {
            Some(b) => Some(b),
            None => if self.cpu.has_spec(f) {
                Some(true)
            } else {
                None
            },
        }
    }

    /// The settings of the first `k` features, in feature order, leaving out
    /// those that are not set.
    pub open spec fn settings_upto(self, k: nat) -> Seq<(SpecificFeature, bool)>
        decreases k,
    {
        if k == 0 {
            Seq::empty()
        } else {
            let f = SpecificFeature::at_spec((k - 1) as nat);
            let prev = self.settings_upto((k - 1) as nat);
            match self.resolved_spec(f) {
                Some(b) => prev.push((f, b)),
                None => prev,
            }
        }
    }

    pub open spec fn settings_spec(self) -> Seq<(SpecificFeature, bool)> {
        self.settings_upto(NUM_FEATURES as nat)
    }

    /// The given CPU model, with no feature switched one by one.
    pub fn new(cpu: TargetCpu) -> (r: CpuFeatures)
        ensures
            r.cpu == cpu,
            forall|i: int| 0 <= i < 9 ==> r.specific@[i] is None,
    {
        CpuFeatures { cpu, specific: [None; 9] }
    }

    /// Features of the machine the compiler runs on.
    pub fn detect_cpuid() -> (r: CpuFeatures)
        ensures
            r.cpu == TargetCpu::Native,
            forall|i: int| 0 <= i < 9 ==> r.specific@[i] is None,
    {
        Self::new(TargetCpu::Native)
    }

    /// No extension beyond the base architecture.
    pub fn baseline() -> (r: CpuFeatures)
        ensures
            r.cpu == TargetCpu::Baseline,
            forall|i: int| 0 <= i < 9 ==> r.specific@[i] is None,
    {
        Self::new(TargetCpu::Baseline)
    }

    /// Switches one feature on or off, whatever the CPU model says of it.
    pub fn set(&mut self, f: SpecificFeature, enabled: bool)
        ensures
            final(self).cpu == old(self).cpu,
            final(self).specific@ == old(self).specific@.update(f.index_spec() as int, Some(enabled)),
    {
        let i = f.index();
        self.specific[i] = Some(enabled);
    }

    /// The setting of feature `f`, as resolved from the CPU model and the explicit choices.
    pub fn resolved(&self, f: SpecificFeature) -> (r: Option<bool>)
        ensures
            r == self.resolved_spec(f),
    {
        match self.specific[f.index()] {
            Some(b) => Some(b),
            None => if self.cpu.has_feature(f) {
                Some(true)
            } else {
                None
            },
        }
    }

    /// Every feature that is set, with its setting, in feature order.
    pub fn settings(&self) -> (r: Vec<(SpecificFeature, bool)>)
        ensures
            r@ == self.settings_spec(),
    {
        let mut out: Vec<(SpecificFeature, bool)> = Vec::new();
        let mut i: usize = 0;
        while i < NUM_FEATURES
            invariant
                i <= NUM_FEATURES,
                out@ == self.settings_upto(i as nat),
            decreases NUM_FEATURES - i,
        {
            let f = SpecificFeature::at(i);
            if let Some(b) = self.resolved(f) {
                out.push((f, b));
            }
            i = i + 1;
        }
        out
    }
}

impl Default for CpuFeatures {
    fn default() -> (r: CpuFeatures)
        ensures
            r.cpu == TargetCpu::Native,
            forall|i: int| 0 <= i < 9 ==> r.specific@[i] is None,
    {
        Self::detect_cpuid()
    }
}

/// The architecture of a compilation target, as far as feature selection reads it.
#[derive(Debug, Clone, Copy, PartialEq, Eq, Structural)]
pub enum Architecture {
    X86_64,
    X86_32,
    Aarch64,
    Other,
}

/// The feature settings to hand to the code generator for `arch`. Every
/// specific feature is an x86-64 extension, so any feature that is set on
/// another architecture is a configuration error.
pub fn resolve_features(cf: &CpuFeatures, arch: Architecture) -> (r: Result<
    Vec<(SpecificFeature, bool)>,
    Error,
>)
    ensures
        match r {
            Ok(v) => v@ == cf.settings_spec() && (arch is X86_64 || v@.len() == 0),
            Err(e) => e == Error::TargetConfiguration && !(arch is X86_64)
                && cf.settings_spec().len() > 0,
        },
{
    let settings = cf.settings();
    if arch != Architecture::X86_64 && settings.len() > 0 {
        Err(Error::TargetConfiguration)
    } else {
        Ok(settings)
    }
}

} // verus!
