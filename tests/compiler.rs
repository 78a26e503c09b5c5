use lucetc::compiler::{codegen_flags, Compiler, CompilerBuilder, HeapSettings, OptLevel, Validator};
use lucetc::cpu_features::{resolve_features, Architecture, CpuFeatures, SpecificFeature, TargetCpu};
use lucetc::error::Error;
use lucetc::object::stack_probe;

#[test]
fn opt_level_flags() {
    assert_eq!(OptLevel::NoOpt.to_flag(), "none");
    assert_eq!(OptLevel::Speed.to_flag(), "speed");
    assert_eq!(OptLevel::SpeedAndSize.to_flag(), "speed_and_size");
    assert_eq!(OptLevel::default(), OptLevel::SpeedAndSize);
}

#[test]
fn codegen_flags_toggle_nan_canonicalization() {
    assert_eq!(
        codegen_flags(OptLevel::Speed, false),
        vec![("enable_verifier", "true"), ("is_pic", "true"), ("opt_level", "speed")]
    );
    assert_eq!(
        codegen_flags(OptLevel::NoOpt, true),
        vec![
            ("enable_verifier", "true"),
            ("is_pic", "true"),
            ("opt_level", "none"),
            ("enable_nan_canonicalization", "true"),
        ]
    );
}

#[test]
fn cpu_profiles_and_overrides() {
    let mut cf = CpuFeatures::new(TargetCpu::Sandybridge);
    assert_eq!(
        cf.settings(),
        vec![
            (SpecificFeature::SSE3, true),
            (SpecificFeature::SSSE3, true),
            (SpecificFeature::SSE41, true),
            (SpecificFeature::SSE42, true),
            (SpecificFeature::Popcnt, true),
            (SpecificFeature::AVX, true),
        ]
    );
    cf.set(SpecificFeature::AVX, false);
    cf.set(SpecificFeature::LZCNT, true);
    assert_eq!(cf.resolved(SpecificFeature::AVX), Some(false));
    assert_eq!(cf.resolved(SpecificFeature::LZCNT), Some(true));
    assert_eq!(cf.resolved(SpecificFeature::BMI1), None);
    assert_eq!(cf.settings().len(), 7);
    assert!(CpuFeatures::baseline().settings().is_empty());
    assert!(CpuFeatures::detect_cpuid().settings().is_empty());
    assert_eq!(CpuFeatures::new(TargetCpu::Haswell).settings().len(), 9);
    assert_eq!(SpecificFeature::SSE41.setting_name(), "has_sse41");
}

#[test]
fn x86_feature_on_other_architecture_is_rejected() {
    let haswell = CpuFeatures::new(TargetCpu::Haswell);
    assert_eq!(resolve_features(&haswell, Architecture::Aarch64).err(), Some(Error::TargetConfiguration));
    assert_eq!(resolve_features(&haswell, Architecture::X86_64).unwrap().len(), 9);
    assert!(resolve_features(&CpuFeatures::baseline(), Architecture::Aarch64).unwrap().is_empty());
    let mut one = CpuFeatures::baseline();
    one.set(SpecificFeature::Popcnt, false);
    assert_eq!(resolve_features(&one, Architecture::X86_32).err(), Some(Error::TargetConfiguration));

    let r = CompilerBuilder::new()
        .with_target(Architecture::Aarch64)
        .with_cpu_features(haswell)
        .create();
    assert_eq!(r.err().map(|_| ()), Some(()));
    let r = Compiler::new(
        Architecture::Aarch64,
        OptLevel::Speed,
        CpuFeatures::new(TargetCpu::Nehalem),
        HeapSettings::default(),
        false,
        false,
    );
    assert!(matches!(r, Err(Error::TargetConfiguration)));
}

#[test]
fn builder_keeps_settings() {
    let heap = HeapSettings { min_reserved_size: 1, max_reserved_size: 2, guard_size: 3 };
    let mut b = Compiler::builder()
        .with_target(Architecture::X86_64)
        .with_opt_level(OptLevel::Speed)
        .with_cpu_features(CpuFeatures::baseline())
        .with_heap_settings(heap)
        .with_count_instructions(true)
        .with_canonicalize_nans(true)
        .with_validator(Some(Validator { witx: String::new(), wasi_exe: true }));
    b.cpu_features_mut().set(SpecificFeature::BMI2, true);
    b.heap_settings_mut().guard_size = 4;
    assert_eq!(b.opt_level, OptLevel::Speed);
    assert_eq!(b.cpu_features.resolved(SpecificFeature::BMI2), Some(true));
    assert_eq!(b.heap_settings.guard_size, 4);
    assert!(b.count_instructions && b.canonicalize_nans && b.validator.is_some());
    b.validator(None);
    b.opt_level(OptLevel::NoOpt);
    assert!(b.validator.is_none());

    let c = b.create().unwrap();
    assert_eq!(c.opt_level, OptLevel::NoOpt);
    assert_eq!(c.isa.features, vec![(SpecificFeature::BMI2, true)]);
    assert_eq!(c.isa.flags.len(), 4);
    let mf = c.module_features();
    assert!(mf.bmi2 && mf.instruction_count);
    assert!(!mf.sse3 && !mf.avx && !mf.bmi1);
}

#[test]
fn builder_defaults() {
    let b = CompilerBuilder::new();
    assert_eq!(b.opt_level, OptLevel::SpeedAndSize);
    assert_eq!(b.cpu_features.cpu, TargetCpu::Native);
    assert!(!b.count_instructions && !b.canonicalize_nans && b.validator.is_none());
    assert_eq!(b.heap_settings, HeapSettings::default());
}

#[test]
fn module_features_follow_cpu_profile() {
    let c = Compiler::new(
        Architecture::X86_64,
        OptLevel::SpeedAndSize,
        CpuFeatures::new(TargetCpu::Nehalem),
        HeapSettings::default(),
        false,
        false,
    )
    .unwrap();
    let mf = c.module_features();
    assert!(mf.sse3 && mf.ssse3 && mf.sse41 && mf.sse42 && mf.popcnt);
    assert!(!mf.avx && !mf.bmi1 && !mf.bmi2 && !mf.lzcnt && !mf.instruction_count);
}

#[test]
fn compiler_object_file_appends_stack_probe() {
    let c = Compiler::new(
        Architecture::X86_64,
        OptLevel::Speed,
        CpuFeatures::baseline(),
        HeapSettings::default(),
        false,
        false,
    )
    .unwrap();
    let obj = c.object_file(&Vec::new(), &vec![3], None, &Vec::new()).unwrap();
    let probe = stack_probe();
    assert_eq!(obj.symbols[0].name, probe.symbol);
    assert_eq!(obj.symbols[0].bytes, probe.code);
    assert_eq!(obj.manifest.len(), 1);
}
