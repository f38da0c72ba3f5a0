//! Target descriptions: data-layout information for a target, target triples,
//! and target-machine parameters.

pub mod layout;
pub mod parse;

pub use layout::Layout;
pub use parse::ParseError;

use crate::identifier::{spec_valid_identifier, Id, Identifier};
use crate::text::{push_char, str_to_chars};
use parse::{spec_split, split_tokens};
use vstd::prelude::*;

verus! {

/// The instruction set architecture named by a target triple.
#[derive(Copy, Clone, Debug, PartialEq, Eq, Structural)]
pub enum Architecture {
    /// An unknown architecture; usually the architecture being targeted is
    /// known beforehand.
    Unknown,
    /// A family of RISC architectures.
    ARM,
    /// The 64-bit version of the ARM architecture, sometimes known as ARM64.
    AArch64,
    /// A RISC architecture commonly used in embedded systems.
    MIPS,
    /// WebAssembly, a stack-based bytecode language.
    Wasm32,
    /// WebAssembly with support for 64-bit memory indices.
    Wasm64,
    /// A family of CISC instruction set architectures, sometimes known as
    /// i686.
    X86,
    /// The 64-bit version of the X86 architecture, sometimes known as AMD64.
    X86_64,
}

impl Default for Architecture {
    /// The unknown architecture.
    fn default() -> (r: Self)
        ensures
            r == Architecture::Unknown,
    {
        Architecture::Unknown
    }
}

/// How an architecture is written in a target triple.
pub open spec fn spec_architecture_str(a: Architecture) -> Seq<char> {
    match a {
        Architecture::Unknown => "unknown"@,
        Architecture::ARM => "arm"@,
        Architecture::AArch64 => "aarch64"@,
        Architecture::MIPS => "mips"@,
        Architecture::Wasm32 => "wasm32"@,
        Architecture::Wasm64 => "wasm64"@,
        Architecture::X86 => "i686"@,
        Architecture::X86_64 => "x86_64"@,
    }
}

/// The architecture named by a triple component, if any.
pub open spec fn spec_architecture_of(s: Seq<char>) -> Option<Architecture> {
    if s == "unknown"@ {
        Some(Architecture::Unknown)
    } else if s == "arm"@ {
        Some(Architecture::ARM)
    } else if s == "aarch64"@ {
        Some(Architecture::AArch64)
    } else if s == "mips"@ {
        Some(Architecture::MIPS)
    } else if s == "wasm32"@ {
        Some(Architecture::Wasm32)
    } else if s == "wasm64"@ {
        Some(Architecture::Wasm64)
    } else if s == "i686"@ {
        Some(Architecture::X86)
    } else if s == "x86_64"@ {
        Some(Architecture::X86_64)
    } else {
        None
    }
}

impl Architecture {
    /// Writes the architecture as it appears in a target triple.
    pub fn name(&self) -> (r: String)
        ensures
            r@ == spec_architecture_str(*self),
    {
        match self {
            Architecture::Unknown => "unknown".to_owned(),
            Architecture::ARM => "arm".to_owned(),
            Architecture::AArch64 => "aarch64".to_owned(),
            Architecture::MIPS => "mips".to_owned(),
            Architecture::Wasm32 => "wasm32".to_owned(),
            Architecture::Wasm64 => "wasm64".to_owned(),
            Architecture::X86 => "i686".to_owned(),
            Architecture::X86_64 => "x86_64".to_owned(),
        }
    }
}

/// Describes the vendor of a target triple.
#[derive(Copy, Clone, Debug, PartialEq, Eq, Structural)]
pub enum Vendor {
    /// An unknown vendor.
    Unknown,
    /// The vendor used for some Windows and Linux targets.
    PC,
}

impl Default for Vendor {
    /// The unknown vendor.
    fn default() -> (r: Self)
        ensures
            r == Vendor::Unknown,
    {
        Vendor::Unknown
    }
}

/// How a vendor is written in a target triple.
pub open spec fn spec_vendor_str(v: Vendor) -> Seq<char> {
    match v {
        Vendor::Unknown => "unknown"@,
        Vendor::PC => "pc"@,
    }
}

/// The vendor named by a triple component, if any.
pub open spec fn spec_vendor_of(s: Seq<char>) -> Option<Vendor> {
    if s == "unknown"@ {
        Some(Vendor::Unknown)
    } else if s == "pc"@ {
        Some(Vendor::PC)
    } else {
        None
    }
}

impl Vendor {
    /// Writes the vendor as it appears in a target triple.
    pub fn name(&self) -> (r: String)
        ensures
            r@ == spec_vendor_str(*self),
    {
        match self {
            Vendor::Unknown => "unknown".to_owned(),
            Vendor::PC => "pc".to_owned(),
        }
    }
}

/// The operating system of a target triple.
#[derive(Copy, Clone, Debug, PartialEq, Eq, Structural)]
pub enum OperatingSystem {
    /// An unknown operating system; usually the operating system being
    /// targeted is known.
    Unknown,
    /// Code compiled for this target runs on the bare metal.
    NoOs,
    /// The operating system of Apple's iPhone.
    IOS,
    /// A family of Unix-like operating systems.
    Linux,
    /// The desktop operating system developed by Apple.
    MacOSX,
    /// The WebAssembly System Interface, which lets WebAssembly programs
    /// interact with the outside world.
    WASI,
    /// The Windows family of operating systems.
    Windows,
}

impl Default for OperatingSystem {
    /// The unknown operating system.
    fn default() -> (r: Self)
        ensures
            r == OperatingSystem::Unknown,
    {
        OperatingSystem::Unknown
    }
}

/// How an operating system is written in a target triple.
pub open spec fn spec_operating_system_str(o: OperatingSystem) -> Seq<char> {
    match o {
        OperatingSystem::Unknown => "unknown"@,
        OperatingSystem::NoOs => "none"@,
        OperatingSystem::IOS => "ios"@,
        OperatingSystem::Linux => "linux"@,
        OperatingSystem::MacOSX => "macosx"@,
        OperatingSystem::WASI => "wasi"@,
        OperatingSystem::Windows => "windows"@,
    }
}

/// The operating system named by a triple component, if any.
pub open spec fn spec_operating_system_of(s: Seq<char>) -> Option<OperatingSystem> {
    if s == "unknown"@ {
        Some(OperatingSystem::Unknown)
    } else if s == "none"@ {
        Some(OperatingSystem::NoOs)
    } else if s == "ios"@ {
        Some(OperatingSystem::IOS)
    } else if s == "linux"@ {
        Some(OperatingSystem::Linux)
    } else if s == "macosx"@ {
        Some(OperatingSystem::MacOSX)
    } else if s == "wasi"@ {
        Some(OperatingSystem::WASI)
    } else if s == "windows"@ {
        Some(OperatingSystem::Windows)
    } else {
        None
    }
}

impl OperatingSystem {
    /// Writes the operating system as it appears in a target triple.
    pub fn name(&self) -> (r: String)
        ensures
            r@ == spec_operating_system_str(*self),
    {
        match self {
            OperatingSystem::Unknown => "unknown".to_owned(),
            OperatingSystem::NoOs => "none".to_owned(),
            OperatingSystem::IOS => "ios".to_owned(),
            OperatingSystem::Linux => "linux".to_owned(),
            OperatingSystem::MacOSX => "macosx".to_owned(),
            OperatingSystem::WASI => "wasi".to_owned(),
            OperatingSystem::Windows => "windows".to_owned(),
        }
    }
}

/// Additional information used to disambiguate targets.
#[derive(Copy, Clone, Debug, PartialEq, Eq, Structural)]
pub enum Environment {
    /// An unknown environment.
    Unknown,
    /// The GNU environment, including the glibc implementation of the C
    /// standard library.
    GNU,
    /// The musl implementation of the C standard library.
    MUSL,
    /// The Microsoft Visual C/C++ toolchain.
    MSVC,
    /// The Common Language Runtime, used to run languages such as C#.
    CoreCLR,
}

impl Default for Environment {
    /// The unknown environment.
    fn default() -> (r: Self)
        ensures
            r == Environment::Unknown,
    {
        Environment::Unknown
    }
}

/// How an environment is written in a target triple.
pub open spec fn spec_environment_str(e: Environment) -> Seq<char> {
    match e {
        Environment::Unknown => "unknown"@,
        Environment::GNU => "gnu"@,
        Environment::MUSL => "musl"@,
        Environment::MSVC => "msvc"@,
        Environment::CoreCLR => "coreclr"@,
    }
}

/// The environment named by a triple component, if any.
pub open spec fn spec_environment_of(s: Seq<char>) -> Option<Environment> {
    if s == "unknown"@ {
        Some(Environment::Unknown)
    } else if s == "gnu"@ {
        Some(Environment::GNU)
    } else if s == "musl"@ {
        Some(Environment::MUSL)
    } else if s == "msvc"@ {
        Some(Environment::MSVC)
    } else if s == "coreclr"@ {
        Some(Environment::CoreCLR)
    } else {
        None
    }
}

impl Environment {
    /// Writes the environment as it appears in a target triple.
    pub fn name(&self) -> (r: String)
        ensures
            r@ == spec_environment_str(*self),
    {
        match self {
            Environment::Unknown => "unknown".to_owned(),
            Environment::GNU => "gnu".to_owned(),
            Environment::MUSL => "musl".to_owned(),
            Environment::MSVC => "msvc".to_owned(),
            Environment::CoreCLR => "coreclr".to_owned(),
        }
    }
}

/// Represents a typical LLVM target triple, built from a closed vocabulary
/// of components. For anything else, use [`Triple::Custom`].
#[derive(Copy, Clone, Debug, PartialEq, Eq, Structural)]
pub struct KnownTriple {
    /// The instruction set architecture.
    pub architecture: Architecture,
    /// The vendor.
    pub vendor: Vendor,
    /// The operating system.
    pub operating_system: OperatingSystem,
    /// The environment, where one is needed to disambiguate.
    pub environment: Environment,
}

impl Default for KnownTriple {
    /// The triple whose components are all unknown.
    fn default() -> (r: Self)
        ensures
            r == (KnownTriple {
                architecture: Architecture::Unknown,
                vendor: Vendor::Unknown,
                operating_system: OperatingSystem::Unknown,
                environment: Environment::Unknown,
            }),
    {
        KnownTriple {
            architecture: Architecture::Unknown,
            vendor: Vendor::Unknown,
            operating_system: OperatingSystem::Unknown,
            environment: Environment::Unknown,
        }
    }
}

/// How a known triple is written: the architecture, vendor and operating
/// system separated by dashes, with the environment appended only when it is
/// not the unknown one.
pub open spec fn spec_known_triple_str(t: KnownTriple) -> Seq<char> {
    spec_architecture_str(t.architecture) + seq!['-'] + spec_vendor_str(t.vendor) + seq!['-']
        + spec_operating_system_str(t.operating_system) + (if t.environment == Environment::Unknown {
        Seq::<char>::empty()
    } else {
        seq!['-'] + spec_environment_str(t.environment)
    })
}

impl KnownTriple {
    /// Creates a target triple from all four components.
    pub fn with_environment(
        architecture: Architecture,
        vendor: Vendor,
        operating_system: OperatingSystem,
        environment: Environment,
    ) -> (r: Self)
        ensures
            r == (KnownTriple { architecture, vendor, operating_system, environment }),
    {
        KnownTriple { architecture, vendor, operating_system, environment }
    }

    /// Creates a target triple with an unknown environment.
    pub fn with_operating_system(
        architecture: Architecture,
        vendor: Vendor,
        operating_system: OperatingSystem,
    ) -> (r: Self)
        ensures
            r == (KnownTriple {
                architecture,
                vendor,
                operating_system,
                environment: Environment::Unknown,
            }),
    {
        KnownTriple::with_environment(architecture, vendor, operating_system, Environment::Unknown)
    }

    /// Gets the architecture of this target triple.
    pub fn architecture(&self) -> (r: &Architecture)
        ensures
            *r == self.architecture,
    {
        &self.architecture
    }

    /// Gets the vendor component of this target triple.
    pub fn vendor(&self) -> (r: &Vendor)
        ensures
            *r == self.vendor,
    {
        &self.vendor
    }

    /// Gets the system component of this target triple.
    pub fn operating_system(&self) -> (r: &OperatingSystem)
        ensures
            *r == self.operating_system,
    {
        &self.operating_system
    }

    /// Gets the environment component of this target triple.
    pub fn environment(&self) -> (r: &Environment)
        ensures
            *r == self.environment,
    {
        &self.environment
    }

    /// Writes the triple in its textual form.
    pub fn triple_string(&self) -> (r: String)
        ensures
            r@ == spec_known_triple_str(*self),
    {
        let mut r = self.architecture.name();
        push_char(&mut r, '-');
        let vendor = self.vendor.name();
        r.append(vendor.as_str());
        push_char(&mut r, '-');
        let operating_system = self.operating_system.name();
        r.append(operating_system.as_str());
        match self.environment {
            Environment::Unknown => {},
            _ => {
                push_char(&mut r, '-');
                let environment = self.environment.name();
                r.append(environment.as_str());
            },
        }
        assert(r@ =~= spec_known_triple_str(*self));
        r
    }
}

/// An LLVM target triple, typically in the form
/// `ARCHITECTURE-VENDOR-OPERATING_SYSTEM`.
#[derive(Clone, Debug)]
pub enum Triple {
    /// A custom LLVM target triple, for advanced options such as a
    /// sub-architecture or an ABI outside the closed vocabulary.
    Custom(Identifier),
    /// A target triple built from the closed vocabulary of components.
    Known(KnownTriple),
}

impl Default for Triple {
    /// A known triple whose components are all unknown.
    fn default() -> (r: Self)
        ensures
            r == Triple::Known(
                KnownTriple {
                    architecture: Architecture::Unknown,
                    vendor: Vendor::Unknown,
                    operating_system: OperatingSystem::Unknown,
                    environment: Environment::Unknown,
                },
            ),
    {
        Triple::Known(KnownTriple::default())
    }
}

impl From<KnownTriple> for Triple {
    /// Wraps a known triple.
    fn from(triple: KnownTriple) -> (r: Self) {
        Triple::Known(triple)
    }
}

impl vstd::std_specs::convert::FromSpecImpl<KnownTriple> for Triple {
    open spec fn obeys_from_spec() -> bool {
        true
    }

    open spec fn from_spec(triple: KnownTriple) -> Self {
        Triple::Known(triple)
    }
}

/// The known triple named by the dash-separated components of a string:
/// three or four components, each from the closed vocabulary. Anything else
/// is not a known triple.
pub open spec fn spec_known_triple_of(toks: Seq<Seq<char>>) -> Option<KnownTriple> {
    if toks.len() == 3 || toks.len() == 4 {
        match (spec_architecture_of(toks[0]), spec_vendor_of(toks[1]), spec_operating_system_of(
            toks[2],
        )) {
            (Some(architecture), Some(vendor), Some(operating_system)) => if toks.len() == 3 {
                Some(
                    KnownTriple {
                        architecture,
                        vendor,
                        operating_system,
                        environment: Environment::Unknown,
                    },
                )
            } else {
                match spec_environment_of(toks[3]) {
                    Some(environment) => Some(
                        KnownTriple { architecture, vendor, operating_system, environment },
                    ),
                    None => None,
                }
            },
            _ => None,
        }
    } else {
        None
    }
}

impl Triple {
    /// Valid: a custom triple holds a valid identifier.
    pub open spec fn wf(&self) -> bool {
        match self {
            Triple::Custom(id) => id.wf(),
            Triple::Known(_) => true,
        }
    }

    /// Parses a target triple from text. When the dash-separated components
    /// match the closed vocabulary of known triples the result is a known
    /// triple; any other text is kept whole as a custom triple.
    pub fn from_text(text: &str) -> (r: Self)
        requires
            spec_valid_identifier(text@),
        ensures
            match spec_known_triple_of(spec_split(text@)) {
                Some(known) => r == Triple::Known(known),
                None => r matches Triple::Custom(id) && id@ == text@,
            },
            r.wf(),
    {
        let chars = str_to_chars(text);
        let toks = split_tokens(&chars);
        let n = toks.len();
        if n == 3 || n == 4 {
            let architecture = architecture_of_token(&toks[0]);
            let vendor = vendor_of_token(&toks[1]);
            let operating_system = operating_system_of_token(&toks[2]);
            if let (Some(architecture), Some(vendor), Some(operating_system)) = (
                architecture,
                vendor,
                operating_system,
            ) {
                if n == 3 {
                    return Triple::Known(
                        KnownTriple {
                            architecture,
                            vendor,
                            operating_system,
                            environment: Environment::Unknown,
                        },
                    );
                }
                if let Some(environment) = environment_of_token(&toks[3]) {
                    return Triple::Known(
                        KnownTriple { architecture, vendor, operating_system, environment },
                    );
                }
            }
        }
        match Identifier::try_from(text.to_owned()) {
            Ok(id) => Triple::Custom(id),
            Err(_) => Triple::Custom(Identifier::default()),
        }
    }

    /// Writes the triple in its textual form: the text of a custom triple,
    /// or the dash-separated components of a known one.
    pub fn triple_string(&self) -> (r: String)
        ensures
            r@ == (match self {
                Triple::Custom(id) => id@,
                Triple::Known(known) => spec_known_triple_str(*known),
            }),
    {
        match self {
            Triple::Custom(id) => id.as_str().to_owned(),
            Triple::Known(known) => known.triple_string(),
        }
    }
}

/// The architecture named by one token of a triple, if any.
fn architecture_of_token(tok: &Vec<char>) -> (r: Option<Architecture>)
    ensures
        r == spec_architecture_of(tok@),
{
    let n = tok.len();
    proof {
        assert(tok@.subrange(0, n as int) =~= tok@);
    }
    if crate::text::range_eq_str(tok, 0, n, "unknown") {
        Some(Architecture::Unknown)
    } else if crate::text::range_eq_str(tok, 0, n, "arm") {
        Some(Architecture::ARM)
    } else if crate::text::range_eq_str(tok, 0, n, "aarch64") {
        Some(Architecture::AArch64)
    } else if crate::text::range_eq_str(tok, 0, n, "mips") {
        Some(Architecture::MIPS)
    } else if crate::text::range_eq_str(tok, 0, n, "wasm32") {
        Some(Architecture::Wasm32)
    } else if crate::text::range_eq_str(tok, 0, n, "wasm64") {
        Some(Architecture::Wasm64)
    } else if crate::text::range_eq_str(tok, 0, n, "i686") {
        Some(Architecture::X86)
    } else if crate::text::range_eq_str(tok, 0, n, "x86_64") {
        Some(Architecture::X86_64)
    } else {
        None
    }
}

/// The vendor named by one token of a triple, if any.
fn vendor_of_token(tok: &Vec<char>) -> (r: Option<Vendor>)
    ensures
        r == spec_vendor_of(tok@),
{
    let n = tok.len();
    proof {
        assert(tok@.subrange(0, n as int) =~= tok@);
    }
    if crate::text::range_eq_str(tok, 0, n, "unknown") {
        Some(Vendor::Unknown)
    } else if crate::text::range_eq_str(tok, 0, n, "pc") {
        Some(Vendor::PC)
    } else {
        None
    }
}

/// The operating system named by one token of a triple, if any.
fn operating_system_of_token(tok: &Vec<char>) -> (r: Option<OperatingSystem>)
    ensures
        r == spec_operating_system_of(tok@),
{
    let n = tok.len();
    proof {
        assert(tok@.subrange(0, n as int) =~= tok@);
    }
    if crate::text::range_eq_str(tok, 0, n, "unknown") {
        Some(OperatingSystem::Unknown)
    } else if crate::text::range_eq_str(tok, 0, n, "none") {
        Some(OperatingSystem::NoOs)
    } else if crate::text::range_eq_str(tok, 0, n, "ios") {
        Some(OperatingSystem::IOS)
    } else if crate::text::range_eq_str(tok, 0, n, "linux") {
        Some(OperatingSystem::Linux)
    } else if crate::text::range_eq_str(tok, 0, n, "macosx") {
        Some(OperatingSystem::MacOSX)
    } else if crate::text::range_eq_str(tok, 0, n, "wasi") {
        Some(OperatingSystem::WASI)
    } else if crate::text::range_eq_str(tok, 0, n, "windows") {
        Some(OperatingSystem::Windows)
    } else {
        None
    }
}

/// The environment named by one token of a triple, if any.
fn environment_of_token(tok: &Vec<char>) -> (r: Option<Environment>)
    ensures
        r == spec_environment_of(tok@),
{
    let n = tok.len();
    proof {
        assert(tok@.subrange(0, n as int) =~= tok@);
    }
    if crate::text::range_eq_str(tok, 0, n, "unknown") {
        Some(Environment::Unknown)
    } else if crate::text::range_eq_str(tok, 0, n, "gnu") {
        Some(Environment::GNU)
    } else if crate::text::range_eq_str(tok, 0, n, "musl") {
        Some(Environment::MUSL)
    } else if crate::text::range_eq_str(tok, 0, n, "msvc") {
        Some(Environment::MSVC)
    } else if crate::text::range_eq_str(tok, 0, n, "coreclr") {
        Some(Environment::CoreCLR)
    } else {
        None
    }
}

/// Indicates the level of optimization to use during code generation.
#[derive(Copy, Clone, Debug, PartialEq, Eq, Structural)]
pub enum CodeGenerationOptimization {
    /// Optimizations are disabled, corresponding to `-O0`.
    NoOptimizations,
    /// Optimizations that preserve the ability to debug the program,
    /// corresponding to `-O1`.
    Less,
    /// The standard optimization level, optimizing for fast execution
    /// without significant compile times, corresponding to `-O2`.
    Standard,
    /// Optimizes for fast execution, corresponding to `-O3`.
    Aggressive,
}

impl Default for CodeGenerationOptimization {
    /// The standard optimization level.
    fn default() -> (r: Self)
        ensures
            r == CodeGenerationOptimization::Standard,
    {
        CodeGenerationOptimization::Standard
    }
}

/// Specifies if and how code is relocated.
#[derive(Copy, Clone, Debug, PartialEq, Eq, Structural)]
pub enum RelocationMode {
    /// The target's usual relocation mode.
    Standard,
    /// Code that expects to be loaded at a fixed address.
    Static,
    /// Position-independent code.
    PIC,
    /// Non-position-independent code that avoids PIC dynamic linking.
    DynamicNoPIC,
    /// Read-only position independence, used in embedded systems.
    ROPI,
    /// Read-write position independence, used in embedded systems.
    RWPI,
    /// Both read-only and read-write position independence.
    ROPIRWPI,
}

impl Default for RelocationMode {
    /// The target's usual relocation mode.
    fn default() -> (r: Self)
        ensures
            r == RelocationMode::Standard,
    {
        RelocationMode::Standard
    }
}

/// Restrictions on the relative locations of code and data.
#[derive(Copy, Clone, Debug, PartialEq, Eq, Structural)]
pub enum CodeModel {
    /// The target's usual code model.
    Standard,
    /// The usual code model for just-in-time compiled code.
    JITDefault,
    /// Code and data must be very close together.
    Tiny,
    /// The code model safe to use for static code.
    Small,
    /// The code model used for kernels.
    Kernel,
    /// A code model for larger programs.
    Medium,
    /// The code model for code and data that are far apart.
    Large,
}

impl Default for CodeModel {
    /// The target's usual code model.
    fn default() -> (r: Self)
        ensures
            r == CodeModel::Standard,
    {
        CodeModel::Standard
    }
}

/// Represents an LLVM target machine: a triple together with the CPU,
/// feature set, and code generation parameters.
#[derive(Clone, Debug)]
pub struct Machine {
    triple: Triple,
    cpu_name: Identifier,
    features: Identifier,
    optimization_level: CodeGenerationOptimization,
    relocation_mode: RelocationMode,
    code_model: CodeModel,
}

impl Machine {
    /// The target triple.
    pub closed spec fn spec_triple(&self) -> Triple {
        self.triple
    }

    /// The CPU name.
    pub closed spec fn spec_cpu_name(&self) -> Seq<char> {
        self.cpu_name@
    }

    /// The feature string.
    pub closed spec fn spec_features(&self) -> Seq<char> {
        self.features@
    }

    /// The optimization level.
    pub closed spec fn spec_optimization_level(&self) -> CodeGenerationOptimization {
        self.optimization_level
    }

    /// The relocation mode.
    pub closed spec fn spec_relocation_mode(&self) -> RelocationMode {
        self.relocation_mode
    }

    /// The code model.
    pub closed spec fn spec_code_model(&self) -> CodeModel {
        self.code_model
    }

    /// Valid: the triple and the identifiers are valid.
    pub open spec fn wf(&self) -> bool {
        &&& self.spec_triple().wf()
        &&& spec_valid_identifier(self.spec_cpu_name())
        &&& spec_valid_identifier(self.spec_features())
    }

    /// Creates a new target machine.
    pub fn new(
        triple: Triple,
        cpu_name: Identifier,
        features: Identifier,
        optimization_level: CodeGenerationOptimization,
        relocation_mode: RelocationMode,
        code_model: CodeModel,
    ) -> (r: Self)
        requires
            triple.wf(),
            cpu_name.wf(),
            features.wf(),
        ensures
            r.spec_triple() == triple,
            r.spec_cpu_name() == cpu_name@,
            r.spec_features() == features@,
            r.spec_optimization_level() == optimization_level,
            r.spec_relocation_mode() == relocation_mode,
            r.spec_code_model() == code_model,
            r.wf(),
    {
        Machine { triple, cpu_name, features, optimization_level, relocation_mode, code_model }
    }

    /// Creates a new target machine using the default optimization level,
    /// relocation mode, and code model.
    pub fn with_defaults(triple: Triple, cpu_name: Identifier, features: Identifier) -> (r: Self)
        requires
            triple.wf(),
            cpu_name.wf(),
            features.wf(),
        ensures
            r.spec_triple() == triple,
            r.spec_cpu_name() == cpu_name@,
            r.spec_features() == features@,
            r.spec_optimization_level() == CodeGenerationOptimization::Standard,
            r.spec_relocation_mode() == RelocationMode::Standard,
            r.spec_code_model() == CodeModel::Standard,
            r.wf(),
    {
        Machine::new(
            triple,
            cpu_name,
            features,
            CodeGenerationOptimization::default(),
            RelocationMode::default(),
            CodeModel::default(),
        )
    }

    /// Gets the target triple for this target machine.
    pub fn target_triple(&self) -> (r: &Triple)
        ensures
            *r == self.spec_triple(),
    {
        &self.triple
    }

    /// Gets the CPU name of the target machine.
    pub fn cpu_name(&self) -> (r: Id<'_>)
        requires
            self.wf(),
        ensures
            r@ == self.spec_cpu_name(),
    {
        self.cpu_name.as_id()
    }

    /// A string describing additional features of the target machine.
    pub fn features(&self) -> (r: Id<'_>)
        requires
            self.wf(),
        ensures
            r@ == self.spec_features(),
    {
        self.features.as_id()
    }

    /// Gets a value indicating how much code is optimized for this target
    /// machine.
    pub fn code_generation_optimization_level(&self) -> (r: CodeGenerationOptimization)
        ensures
            r == self.spec_optimization_level(),
    {
        self.optimization_level
    }

    /// Indicates how code is relocated for this target machine.
    pub fn relocation_mode(&self) -> (r: RelocationMode)
        ensures
            r == self.spec_relocation_mode(),
    {
        self.relocation_mode
    }

    /// Gets the code model used for this target machine.
    pub fn code_model(&self) -> (r: CodeModel)
        ensures
            r == self.spec_code_model(),
    {
        self.code_model
    }
}

/// An LLVM target: a target machine together with its data layout.
#[derive(Clone, Debug)]
pub struct Target {
    machine: Machine,
    layout: Layout,
}

impl Target {
    /// The target machine.
    pub closed spec fn spec_machine(&self) -> Machine {
        self.machine
    }

    /// The data layout.
    pub closed spec fn spec_layout(&self) -> Layout {
        self.layout
    }

    /// Valid: the machine is valid and the layout's tables are well-formed.
    pub open spec fn wf(&self) -> bool {
        &&& self.spec_machine().wf()
        &&& self.spec_layout().wf()
    }

    /// Creates a new target.
    pub fn new(machine: Machine, layout: Layout) -> (r: Self)
        requires
            machine.wf(),
            layout.wf(),
        ensures
            r.spec_machine() == machine,
            r.spec_layout() == layout,
            r.wf(),
    {
        Target { machine, layout }
    }

    /// Gets the machine for this target.
    pub fn machine(&self) -> (r: &Machine)
        ensures
            *r == self.spec_machine(),
    {
        &self.machine
    }

    /// Gets the target triple of this target.
    pub fn triple(&self) -> (r: &Triple)
        ensures
            *r == self.spec_machine().spec_triple(),
    {
        self.machine.target_triple()
    }

    /// Gets the data layout for this target.
    pub fn layout(&self) -> (r: &Layout)
        ensures
            *r == self.spec_layout(),
    {
        &self.layout
    }
}

} // verus!
