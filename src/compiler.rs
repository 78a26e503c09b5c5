use vstd::prelude::*;
use crate::cpu_features::{Architecture, CpuFeatures, SpecificFeature, resolve_features};
use crate::error::Error;
use crate::object::{
    CompiledFunction, ObjectArtifact, assembled, models, stack_probe, stack_probe_model,
};

verus! {

/// How hard the code generator works on the emitted code.
#[derive(Debug, Clone, Copy, PartialEq, Eq, Structural)]
pub enum OptLevel {
    NoOpt,
    Speed,
    SpeedAndSize,
}

impl OptLevel {
    /// The value of the code generator's `opt_level` setting for this level.
    pub open spec fn flag_spec(self) -> Seq<char> {
        match self {
            OptLevel::NoOpt => "none"@,
            OptLevel::Speed => "speed"@,
            OptLevel::SpeedAndSize => "speed_and_size"@,
        }
    }

    /// The name the code generator's `opt_level` setting takes for this level.
    pub fn to_flag(&self) -> (r: &'static str)
        ensures
            r@ == self.flag_spec(),
    {
        match self {
            OptLevel::NoOpt => "none",
            OptLevel::Speed => "speed",
            OptLevel::SpeedAndSize => "speed_and_size",
        }
    }
}

impl Default for OptLevel {
    fn default() -> (r: OptLevel)
        ensures
            r == OptLevel::SpeedAndSize,
    {
        OptLevel::SpeedAndSize
    }
}

/// Relies on target_lexicon::Architecture::host: the architecture of the machine
/// the crate was built for. Nothing is stated of which one it is.
#[verifier::external_body]
fn host_architecture() -> (r: Architecture) {
    match target_lexicon::Architecture::host() {
        target_lexicon::Architecture::X86_64 => Architecture::X86_64,
        target_lexicon::Architecture::X86_32(_) => Architecture::X86_32,
        target_lexicon::Architecture::Aarch64(_) => Architecture::Aarch64,
        _ => Architecture::Other,
    }
}

/// Sizes of the linear-memory reservation that heap accesses are compiled against.
#[derive(Debug, Clone, Copy, PartialEq, Eq, Structural)]
pub struct HeapSettings {
    pub min_reserved_size: u64,
    pub max_reserved_size: u64,
    pub guard_size: u64,
}

impl Default for HeapSettings {
    fn default() -> (r: HeapSettings)
        ensures
            r.min_reserved_size == 4 * 1024 * 1024,
            r.max_reserved_size == 6 * 1024 * 1024 * 1024,
            r.guard_size == 4 * 1024 * 1024,
    {
        HeapSettings {
            min_reserved_size: 4 * 1024 * 1024,
            max_reserved_size: 6 * 1024 * 1024 * 1024,
            guard_size: 4 * 1024 * 1024,
        }
    }
}

/// An external validator: the interface description (witx text) that the module
/// must conform to, and whether the module must be a WASI executable.
#[derive(Debug, PartialEq, Eq)]
pub struct Validator {
    pub witx: String,
    pub wasi_exe: bool,
}

/// Configuration of one compilation. Every field keeps what its setter was last given.
pub struct CompilerBuilder {
    pub target: Architecture,
    pub opt_level: OptLevel,
    pub cpu_features: CpuFeatures,
    pub heap_settings: HeapSettings,
    pub count_instructions: bool,
    pub canonicalize_nans: bool,
    pub validator: Option<Validator>,
}

impl CompilerBuilder {
    /// The host target, the strongest optimization, the host's CPU features, the
    /// default heap, no instrumentation, no NaN canonicalization, no validator.
    pub fn new() -> (r: CompilerBuilder)
        ensures
            r.opt_level == OptLevel::SpeedAndSize,
            r.cpu_features.cpu == crate::cpu_features::TargetCpu::Native,
            forall|i: int| 0 <= i < 9 ==> r.cpu_features.specific@[i] is None,
            r.heap_settings.min_reserved_size == 4 * 1024 * 1024,
            r.heap_settings.max_reserved_size == 6 * 1024 * 1024 * 1024,
            r.heap_settings.guard_size == 4 * 1024 * 1024,
            !r.count_instructions,
            !r.canonicalize_nans,
            r.validator is None,
    {
        CompilerBuilder {
            target: host_architecture(),
            opt_level: OptLevel::default(),
            cpu_features: CpuFeatures::default(),
            heap_settings: HeapSettings::default(),
            count_instructions: false,
            canonicalize_nans: false,
            validator: None,
        }
    }

    pub(crate) fn target_ref(&self) -> (r: &Architecture)
        ensures
            *r == self.target,
    {
        &self.target
    }

    pub fn target(&mut self, target: Architecture)
        ensures
            *final(self) == (CompilerBuilder { target, ..*old(self) }),
    {
        self.target = target;
    }

    pub fn with_target(self, target: Architecture) -> (r: Self)
        ensures
            r == (CompilerBuilder { target, ..self }),
    {
        let mut s = self;
        s.target(target);
        s
    }

    pub fn opt_level(&mut self, opt_level: OptLevel)
        ensures
            *final(self) == (CompilerBuilder { opt_level, ..*old(self) }),
    {
        self.opt_level = opt_level;
    }

    pub fn with_opt_level(self, opt_level: OptLevel) -> (r: Self)
        ensures
            r == (CompilerBuilder { opt_level, ..self }),
    {
        let mut s = self;
        s.opt_level(opt_level);
        s
    }

    pub fn cpu_features(&mut self, cpu_features: CpuFeatures)
        ensures
            *final(self) == (CompilerBuilder { cpu_features, ..*old(self) }),
    {
        self.cpu_features = cpu_features;
    }

    pub fn with_cpu_features(self, cpu_features: CpuFeatures) -> (r: Self)
        ensures
            r == (CompilerBuilder { cpu_features, ..self }),
    {
        let mut s = self;
        s.cpu_features(cpu_features);
        s
    }

    pub fn cpu_features_mut(&mut self) -> (r: &mut CpuFeatures)
        ensures
            *r == old(self).cpu_features,
            *final(self) == (CompilerBuilder { cpu_features: *final(r), ..*old(self) }),
    {
        &mut self.cpu_features
    }

    pub fn heap_settings(&mut self, heap_settings: HeapSettings)
        ensures
            *final(self) == (CompilerBuilder { heap_settings, ..*old(self) }),
    {
        self.heap_settings = heap_settings;
    }

    pub fn with_heap_settings(self, heap_settings: HeapSettings) -> (r: Self)
        ensures
            r == (CompilerBuilder { heap_settings, ..self }),
    {
        let mut s = self;
        s.heap_settings(heap_settings);
        s
    }

    pub fn heap_settings_mut(&mut self) -> (r: &mut HeapSettings)
        ensures
            *r == old(self).heap_settings,
            *final(self) == (CompilerBuilder { heap_settings: *final(r), ..*old(self) }),
    {
        &mut self.heap_settings
    }

    pub fn count_instructions(&mut self, count_instructions: bool)
        ensures
            *final(self) == (CompilerBuilder { count_instructions, ..*old(self) }),
    {
        self.count_instructions = count_instructions;
    }

    pub fn with_count_instructions(self, count_instructions: bool) -> (r: Self)
        ensures
            r == (CompilerBuilder { count_instructions, ..self }),
    {
        let mut s = self;
        s.count_instructions(count_instructions);
        s
    }

    pub fn canonicalize_nans(&mut self, canonicalize_nans: bool)
        ensures
            *final(self) == (CompilerBuilder { canonicalize_nans, ..*old(self) }),
    {
        self.canonicalize_nans = canonicalize_nans;
    }

    pub fn with_canonicalize_nans(self, canonicalize_nans: bool) -> (r: Self)
        ensures
            r == (CompilerBuilder { canonicalize_nans, ..self }),
    {
        let mut s = self;
        s.canonicalize_nans(canonicalize_nans);
        s
    }

    pub fn validator(&mut self, validator: Option<Validator>)
        ensures
            *final(self) == (CompilerBuilder { validator, ..*old(self) }),
    {
        self.validator = validator;
    }

    pub fn with_validator(self, validator: Option<Validator>) -> (r: Self)
        ensures
            r == (CompilerBuilder { validator, ..self }),
    {
        let mut s = self;
        s.validator(validator);
        s
    }

    /// Resolves the target configuration; it fails before any work on the module.
    pub fn create(&self) -> (r: Result<Compiler, Error>)
        ensures
            compiler_created(
                self.target,
                self.opt_level,
                self.cpu_features,
                self.count_instructions,
                self.canonicalize_nans,
                r,
            ),
    {
        Compiler::new(
            *self.target_ref(),
            self.opt_level,
            self.cpu_features,
            self.heap_settings,
            self.count_instructions,
            self.canonicalize_nans,
        )
    }
}

/// The code generator's flags for a compilation: the verifier and position
/// independent code always, the optimization level, and NaN canonicalization
/// when it is asked for.
pub open spec fn codegen_flags_spec(opt_level: OptLevel, canonicalize_nans: bool) -> Seq<
    (Seq<char>, Seq<char>),
> {
    seq![
        ("enable_verifier"@, "true"@),
        ("is_pic"@, "true"@),
        ("opt_level"@, opt_level.flag_spec()),
    ] + if canonicalize_nans {
        seq![("enable_nan_canonicalization"@, "true"@)]
    } else {
        Seq::empty()
    }
}

pub open spec fn flag_views(v: Seq<(&'static str, &'static str)>) -> Seq<(Seq<char>, Seq<char>)> {
    v.map_values(|p: (&'static str, &'static str)| (p.0@, p.1@))
}

/// The code generator's flags as (name, value) pairs, in the order they are set.
pub fn codegen_flags(opt_level: OptLevel, canonicalize_nans: bool) -> (r: Vec<
    (&'static str, &'static str),
>)
    ensures
        flag_views(r@) == codegen_flags_spec(opt_level, canonicalize_nans),
{
    proof {
        reveal_strlit("enable_verifier");
        reveal_strlit("is_pic");
        reveal_strlit("opt_level");
        reveal_strlit("true");
        reveal_strlit("enable_nan_canonicalization");
    }
    let mut r: Vec<(&'static str, &'static str)> = Vec::new();
    r.push(("enable_verifier", "true"));
    r.push(("is_pic", "true"));
    r.push(("opt_level", opt_level.to_flag()));
    if canonicalize_nans {
        r.push(("enable_nan_canonicalization", "true"));
    }
    assert(flag_views(r@) =~= codegen_flags_spec(opt_level, canonicalize_nans));
    r
}

/// Everything the code generator is configured with: its flags, and the ISA
/// feature settings.
pub struct IsaConfig {
    pub flags: Vec<(&'static str, &'static str)>,
    pub features: Vec<(SpecificFeature, bool)>,
}

pub open spec fn isa_config_of(
    target: Architecture,
    opt_level: OptLevel,
    cpu_features: CpuFeatures,
    canonicalize_nans: bool,
    r: Result<IsaConfig, Error>,
) -> bool {
    if !(target is X86_64) && cpu_features.settings_spec().len() > 0 {
        r == Err::<IsaConfig, Error>(Error::TargetConfiguration)
    } else {
        r is Ok && flag_views(r->Ok_0.flags@) == codegen_flags_spec(opt_level, canonicalize_nans)
            && r->Ok_0.features@ == cpu_features.settings_spec()
    }
}

/// Features that compiled code relies on, as recorded in the module's metadata.
#[derive(Debug, Clone, Copy, PartialEq, Eq, Structural)]
pub struct ModuleFeatures {
    pub sse3: bool,
    pub ssse3: bool,
    pub sse41: bool,
    pub sse42: bool,
    pub avx: bool,
    pub bmi1: bool,
    pub bmi2: bool,
    pub lzcnt: bool,
    pub popcnt: bool,
    pub instruction_count: bool,
}

pub open spec fn module_features_spec(cf: CpuFeatures, count_instructions: bool) -> ModuleFeatures {
    ModuleFeatures {
        sse3: cf.resolved_spec(SpecificFeature::SSE3) == Some(true),
        ssse3: cf.resolved_spec(SpecificFeature::SSSE3) == Some(true),
        sse41: cf.resolved_spec(SpecificFeature::SSE41) == Some(true),
        sse42: cf.resolved_spec(SpecificFeature::SSE42) == Some(true),
        avx: cf.resolved_spec(SpecificFeature::AVX) == Some(true),
        bmi1: cf.resolved_spec(SpecificFeature::BMI1) == Some(true),
        bmi2: cf.resolved_spec(SpecificFeature::BMI2) == Some(true),
        lzcnt: cf.resolved_spec(SpecificFeature::LZCNT) == Some(true),
        popcnt: cf.resolved_spec(SpecificFeature::Popcnt) == Some(true),
        instruction_count: count_instructions,
    }
}

fn feature_on(cf: &CpuFeatures, f: SpecificFeature) -> (r: bool)
    ensures
        r == (cf.resolved_spec(f) == Some(true)),
{
    match cf.resolved(f) {
        Some(b) => b,
        None => false,
    }
}

/// A compilation whose target configuration has been resolved.
pub struct Compiler {
    pub target: Architecture,
    pub opt_level: OptLevel,
    pub cpu_features: CpuFeatures,
    pub heap_settings: HeapSettings,
    pub count_instructions: bool,
    pub canonicalize_nans: bool,
    pub isa: IsaConfig,
}

pub open spec fn compiler_created(
    target: Architecture,
    opt_level: OptLevel,
    cpu_features: CpuFeatures,
    count_instructions: bool,
    canonicalize_nans: bool,
    r: Result<Compiler, Error>,
) -> bool {
    match r {
        Ok(c) => c.target == target && c.opt_level == opt_level && c.cpu_features == cpu_features
            && c.count_instructions == count_instructions && c.canonicalize_nans
            == canonicalize_nans && isa_config_of(
            target,
            opt_level,
            cpu_features,
            canonicalize_nans,
            Ok(c.isa),
        ),
        Err(e) => isa_config_of(target, opt_level, cpu_features, canonicalize_nans, Err(e)),
    }
}

impl Compiler {
    /// Resolves the code generator's configuration for the target. This is the
    /// first step of a compilation: a target that cannot take the requested CPU
    /// features fails here, before the module is looked at.
    pub fn new(
        target: Architecture,
        opt_level: OptLevel,
        cpu_features: CpuFeatures,
        heap_settings: HeapSettings,
        count_instructions: bool,
        canonicalize_nans: bool,
    ) -> (r: Result<Compiler, Error>)
        ensures
            compiler_created(target, opt_level, cpu_features, count_instructions, canonicalize_nans, r),
            r matches Ok(c) ==> c.heap_settings == heap_settings,
    {
        match Self::target_isa(target, opt_level, &cpu_features, canonicalize_nans) {
            Ok(isa) => Ok(
                Compiler {
                    target,
                    opt_level,
                    cpu_features,
                    heap_settings,
                    count_instructions,
                    canonicalize_nans,
                    isa,
                },
            ),
            Err(e) => Err(e),
        }
    }

    pub fn builder() -> (r: CompilerBuilder)
        ensures
            r.opt_level == OptLevel::SpeedAndSize,
            r.cpu_features.cpu == crate::cpu_features::TargetCpu::Native,
            !r.count_instructions,
            !r.canonicalize_nans,
            r.validator is None,
    {
        CompilerBuilder::new()
    }

    /// The code generator's configuration for a target, an optimization level,
    /// CPU features and the NaN canonicalization choice.
    pub fn target_isa(
        target: Architecture,
        opt_level: OptLevel,
        cpu_features: &CpuFeatures,
        canonicalize_nans: bool,
    ) -> (r: Result<IsaConfig, Error>)
        ensures
            isa_config_of(target, opt_level, *cpu_features, canonicalize_nans, r),
    {
        match resolve_features(cpu_features, target) {
            Ok(features) => Ok(IsaConfig { flags: codegen_flags(opt_level, canonicalize_nans), features }),
            Err(e) => Err(e),
        }
    }

    /// The features that the module's code relies on.
    pub fn module_features(&self) -> (r: ModuleFeatures)
        ensures
            r == module_features_spec(self.cpu_features, self.count_instructions),
    {
        let cf = &self.cpu_features;
        ModuleFeatures {
            sse3: feature_on(cf, SpecificFeature::SSE3),
            ssse3: feature_on(cf, SpecificFeature::SSSE3),
            sse41: feature_on(cf, SpecificFeature::SSE41),
            sse42: feature_on(cf, SpecificFeature::SSE42),
            avx: feature_on(cf, SpecificFeature::AVX),
            bmi1: feature_on(cf, SpecificFeature::BMI1),
            bmi2: feature_on(cf, SpecificFeature::BMI2),
            lzcnt: feature_on(cf, SpecificFeature::LZCNT),
            popcnt: feature_on(cf, SpecificFeature::Popcnt),
            instruction_count: self.count_instructions,
        }
    }

    /// Assembles the object from the module's compiled functions, with the stack
    /// probe after them, the serialized module metadata, the start function's
    /// index among the functions, and the table data.
    pub fn object_file(
        &self,
        functions: &Vec<CompiledFunction>,
        module_data: &Vec<u8>,
        start: Option<usize>,
        table_data: &Vec<u8>,
    ) -> (r: Result<ObjectArtifact, Error>)
        requires
            forall|i: int| 0 <= i < functions@.len() ==> (#[trigger] functions@[i]).traps@.len() * 8 <= usize::MAX,
        ensures
            assembled(models(functions@), stack_probe_model(), module_data@, start, table_data@, r),
    {
        let probe = stack_probe();
        crate::object::assemble(functions, &probe, module_data, start, table_data)
    }
}

} // verus!
