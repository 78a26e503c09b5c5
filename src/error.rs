use vstd::prelude::*;

verus! {

/// Why a compilation failed. Every failure is fatal to the compilation it belongs to.
#[derive(Debug, PartialEq, Eq)]
pub enum Error {
    /// The target, CPU features and optimization level do not fit together.
    TargetConfiguration,
    /// A structurally valid module was rejected by the embedder's policy.
    InputRejected,
    /// The module uses a construct this compiler does not implement.
    UnsupportedConstruct,
    /// An internal capacity limit was exceeded.
    ImplementationLimitExceeded,
    /// Lowering the body of the named function failed.
    FunctionTranslation { symbol: String },
    /// Generating code for the named function failed.
    FunctionDefinition { symbol: String },
    /// A symbol collision or a dangling reference among the declarations.
    Declaration,
    /// Module metadata or a trap table could not be encoded.
    Serialization,
    /// The object could not be assembled: the named symbol is defined twice.
    ObjectAssembly { symbol: String },
}

} // verus!
