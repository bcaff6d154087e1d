//! Building and loading modules through libNVVM and nvJitLink.
//!
//! NVVM IR is compiled to LTOIR with the libdevice bitcode and linked to a cubin
//! for the same architecture, or to PTX where a module for an older architecture
//! runs on a newer device. The tools, the driver and the file system are the
//! caller's; this module decides which artifact is used, what the tools are asked
//! for, and in which order.

use crate::cache_key::arch_option;
use crate::cache_key::arch_option_text;
use crate::cache_key::fma_option;
use crate::cache_key::fma_option_text;
use crate::cache_key::ltoir_key;
use crate::cache_key::nvvm_key;
use crate::cache_key::LtoirInputs;
use crate::cache_key::NvvmInputs;
use crate::cuda_arch::device_arch;
use crate::cuda_arch::device_text;
use crate::cuda_arch::execution_arch;
use crate::cuda_arch::parsed_arch;
use crate::cuda_arch::CudaArch;
use crate::ltoir_error::LtoirError;
use crate::ltoir_error::LtoirErrorView;
use crate::paths::file_stem;
use crate::paths::file_stem_of;
use crate::paths::join_path;
use crate::paths::joined_path;
use crate::paths::parent;
use crate::paths::parent_of;
use crate::sidecar::artifact_target;
use crate::sidecar::emitted_target_path;
use crate::sidecar::fma_contraction;
use crate::sidecar::read_fma_contraction_option;
use crate::sidecar::target_arch_for_artifact_with_explicit;
use crate::sidecar::target_file_text;
use crate::sidecar::target_path;
use crate::sidecar::validate_ir_target_sidecar;
use crate::sidecar::validated_target;
use crate::sidecar::viewed;
use crate::sidecar::write_artifact_target_sidecar;
use crate::sidecar::Sidecars;
use crate::text::contains;
use crate::text::copy_bytes;
use crate::text::has_substring;
use crate::text::opt_text;
use crate::text::texts;
use vstd::prelude::*;
use vstd::utf8::encode_utf8;

verus! {

broadcast use vstd::string::group_string_axioms;

// ---------------------------------------------------------------------------
// Options of the tools
// ---------------------------------------------------------------------------

/// The options of a link.
pub open spec fn link_options(
    arch_opt: Seq<char>,
    emit_ptx: bool,
    allow_fma: bool,
    optimize: bool,
) -> Seq<Seq<char>> {
    seq![arch_opt, "-lto"@] + (if emit_ptx {
        seq!["-ptx"@]
    } else {
        seq![]
    }) + (if optimize {
        seq!["-O3"@]
    } else {
        seq![]
    }) + seq![fma_option(allow_fma)]
}

/// The options of a link: target, link-time optimization, PTX output where asked
/// for, the optimization level where asked for, and the contraction policy.
pub fn nvjitlink_lto_options(
    arch_opt: &str,
    emit_ptx: bool,
    allow_fma_contraction: bool,
    optimize: bool,
) -> (r: Vec<String>)
    ensures
        texts(r@) == link_options(arch_opt@, emit_ptx, allow_fma_contraction, optimize),
{
    let mut r: Vec<String> = Vec::new();
    r.push(arch_opt.to_owned());
    r.push("-lto".to_owned());
    if emit_ptx {
        r.push("-ptx".to_owned());
    }
    if optimize {
        r.push("-O3".to_owned());
    }
    r.push(fma_option_text(allow_fma_contraction).to_owned());
    assert(texts(r@) =~= link_options(arch_opt@, emit_ptx, allow_fma_contraction, optimize));
    r
}

/// The options of a compilation to LTOIR.
pub open spec fn compile_options(arch_opt: Seq<char>, allow_fma: bool) -> Seq<Seq<char>> {
    seq![arch_opt, "-gen-lto"@, fma_option(allow_fma)]
}

/// The options of a compilation to LTOIR.
pub fn nvvm_compile_options(arch_opt: &str, allow_fma_contraction: bool) -> (r: Vec<String>)
    ensures
        texts(r@) == compile_options(arch_opt@, allow_fma_contraction),
{
    let mut r: Vec<String> = Vec::new();
    r.push(arch_opt.to_owned());
    r.push("-gen-lto".to_owned());
    r.push(fma_option_text(allow_fma_contraction).to_owned());
    assert(texts(r@) =~= compile_options(arch_opt@, allow_fma_contraction));
    r
}

/// The dialect that an architecture asks for.
pub open spec fn expected_dialect(arch: CudaArch) -> Seq<char> {
    if arch.legacy() {
        "legacy LLVM 7"@
    } else {
        "modern opaque-pointer"@
    }
}

/// libNVVM accepts the version of NVVM IR that is emitted.
pub open spec fn accepted_version(major: i32, minor: i32) -> Result<(), LtoirErrorView> {
    if major == 2 && minor == 0 {
        Ok(())
    } else {
        Err(LtoirErrorView::UnsupportedNvvmIrVersion { major, minor })
    }
}

/// libNVVM uses the dialect that the architecture asks for, where it says which it
/// uses.
pub open spec fn accepted_dialect(arch: CudaArch, llvm_major: Option<i32>) -> Result<
    (),
    LtoirErrorView,
> {
    match llvm_major {
        None => Ok(()),
        Some(llvm_major) => if arch.legacy() == (llvm_major == 7) {
            Ok(())
        } else {
            Err(
                LtoirErrorView::DialectMismatch {
                    target: arch.compute_text(),
                    llvm_major,
                    expected: expected_dialect(arch),
                },
            )
        },
    }
}

/// Fails where libNVVM accepts another version of NVVM IR than is emitted.
pub fn validate_ir_version(major: i32, minor: i32) -> (r: Result<(), LtoirError>)
    ensures
        viewed(r) == accepted_version(major, minor),
{
    if major != 2 || minor != 0 {
        return Err(LtoirError::UnsupportedNvvmIrVersion { major, minor });
    }
    Ok(())
}

/// Fails where libNVVM uses another dialect than the architecture asks for.
pub fn validate_dialect(arch: &CudaArch, llvm_major: Option<i32>) -> (r: Result<(), LtoirError>)
    ensures
        viewed(r) == accepted_dialect(*arch, llvm_major),
{
    if let Some(llvm_major) = llvm_major {
        let legacy = arch.uses_legacy_llvm();
        let mismatch = if legacy {
            llvm_major != 7
        } else {
            llvm_major == 7
        };
        if mismatch {
            return Err(
                LtoirError::DialectMismatch {
                    target: arch.compute(),
                    llvm_major,
                    expected: if legacy {
                        "legacy LLVM 7".to_owned()
                    } else {
                        "modern opaque-pointer".to_owned()
                    },
                },
            );
        }
    }
    Ok(())
}

/// Fails where libNVVM cannot take NVVM IR for the architecture: first by version,
/// then by dialect.
pub fn validate_nvvm_frontend(
    ir_version: (i32, i32),
    llvm_major: Option<i32>,
    arch: &CudaArch,
) -> (r: Result<(), LtoirError>)
    ensures
        viewed(r) == (if accepted_version(ir_version.0, ir_version.1) is Err {
            accepted_version(ir_version.0, ir_version.1)
        } else {
            accepted_dialect(*arch, llvm_major)
        }),
{
    if let Err(error) = validate_ir_version(ir_version.0, ir_version.1) {
        return Err(error);
    }
    validate_dialect(arch, llvm_major)
}

// ---------------------------------------------------------------------------
// Builds
// ---------------------------------------------------------------------------

/// What a build starts from.
#[derive(Debug, Clone, Copy, PartialEq, Eq, Structural)]
pub enum BuildSource {
    /// NVVM IR.
    NvvmIr,
    /// LTOIR.
    Ltoir,
}

/// What a build produces.
#[derive(Debug, Clone, Copy, PartialEq, Eq, Structural)]
pub enum BuildOutput {
    /// A cubin for the architecture.
    Cubin,
    /// PTX for the architecture.
    Ptx,
}

/// A build.
#[derive(Debug)]
pub struct BuildPlan {
    /// What it starts from.
    pub source: BuildSource,
    /// What it produces.
    pub output: BuildOutput,
    /// The input.
    pub input: Vec<u8>,
    /// Name of the NVVM module, where it starts from NVVM IR.
    pub nvvm_module_name: String,
    /// Name of the LTOIR module.
    pub ltoir_module_name: String,
    /// The architecture that the input was emitted for.
    pub arch: CudaArch,
    /// Whether contraction is allowed.
    pub allow_fma_contraction: bool,
    /// Whether the cubin cache is asked first.
    pub cached: bool,
}

/// `plan` builds `output` from `source` as the arguments say.
pub open spec fn plans(
    plan: BuildPlan,
    source: BuildSource,
    output: BuildOutput,
    input: Seq<u8>,
    module_name: Seq<char>,
    arch: CudaArch,
    allow_fma: bool,
) -> bool {
    &&& plan.source == source
    &&& plan.output == output
    &&& plan.input@ == input
    &&& plan.nvvm_module_name@ == module_name
    &&& plan.ltoir_module_name@ == (match source {
        BuildSource::NvvmIr => module_name + ".ltoir"@,
        BuildSource::Ltoir => module_name,
    })
    &&& plan.arch == arch
    &&& plan.allow_fma_contraction == allow_fma
    &&& !plan.cached
}

/// The result of planning a build for the architecture that `arch` names.
pub open spec fn planned(
    r: Result<BuildPlan, LtoirError>,
    source: BuildSource,
    output: BuildOutput,
    input: Seq<u8>,
    module_name: Seq<char>,
    arch: Seq<char>,
    allow_fma: bool,
) -> bool {
    match parsed_arch(arch) {
        Some(target) => r matches Ok(plan) && plans(
            plan,
            source,
            output,
            input,
            module_name,
            target,
            allow_fma,
        ),
        None => r matches Err(error) && error@ == LtoirErrorView::InvalidTarget(arch),
    }
}

fn plan_build(
    source: BuildSource,
    output: BuildOutput,
    input: &[u8],
    module_name: &str,
    arch: &str,
    allow_fma_contraction: bool,
) -> (r: Result<BuildPlan, LtoirError>)
    ensures
        planned(r, source, output, input@, module_name@, arch@, allow_fma_contraction),
{
    let arch = match CudaArch::parse(arch) {
        Ok(arch) => arch,
        Err(error) => {
            return Err(LtoirError::InvalidTarget(error));
        },
    };
    let mut ltoir_module_name = module_name.to_owned();
    match source {
        BuildSource::NvvmIr => ltoir_module_name.append(".ltoir"),
        BuildSource::Ltoir => {},
    }
    Ok(
        BuildPlan {
            source,
            output,
            input: copy_bytes(input),
            nvvm_module_name: module_name.to_owned(),
            ltoir_module_name,
            arch,
            allow_fma_contraction,
            cached: false,
        },
    )
}

/// Plans the build of a cubin from NVVM IR, with contraction allowed.
pub fn build_cubin_from_nvvm_ir(nvvm_ir: &[u8], module_name: &str, arch: &str) -> (r: Result<
    BuildPlan,
    LtoirError,
>)
    ensures
        planned(
            r,
            BuildSource::NvvmIr,
            BuildOutput::Cubin,
            nvvm_ir@,
            module_name@,
            arch@,
            true,
        ),
{
    build_cubin_from_nvvm_ir_with_options(nvvm_ir, module_name, arch, true)
}

/// Plans the build of a cubin from NVVM IR.
pub fn build_cubin_from_nvvm_ir_with_options(
    nvvm_ir: &[u8],
    module_name: &str,
    arch: &str,
    allow_fma_contraction: bool,
) -> (r: Result<BuildPlan, LtoirError>)
    ensures
        planned(
            r,
            BuildSource::NvvmIr,
            BuildOutput::Cubin,
            nvvm_ir@,
            module_name@,
            arch@,
            allow_fma_contraction,
        ),
{
    plan_build(
        BuildSource::NvvmIr,
        BuildOutput::Cubin,
        nvvm_ir,
        module_name,
        arch,
        allow_fma_contraction,
    )
}

/// Plans the build of PTX from NVVM IR, with contraction allowed.
pub fn build_ptx_from_nvvm_ir(nvvm_ir: &[u8], module_name: &str, arch: &str) -> (r: Result<
    BuildPlan,
    LtoirError,
>)
    ensures
        planned(r, BuildSource::NvvmIr, BuildOutput::Ptx, nvvm_ir@, module_name@, arch@, true),
{
    build_ptx_from_nvvm_ir_with_options(nvvm_ir, module_name, arch, true)
}

/// Plans the build of PTX from NVVM IR. `arch` is the architecture that the IR was
/// emitted for, and the PTX keeps it.
pub fn build_ptx_from_nvvm_ir_with_options(
    nvvm_ir: &[u8],
    module_name: &str,
    arch: &str,
    allow_fma_contraction: bool,
) -> (r: Result<BuildPlan, LtoirError>)
    ensures
        planned(
            r,
            BuildSource::NvvmIr,
            BuildOutput::Ptx,
            nvvm_ir@,
            module_name@,
            arch@,
            allow_fma_contraction,
        ),
{
    plan_build(
        BuildSource::NvvmIr,
        BuildOutput::Ptx,
        nvvm_ir,
        module_name,
        arch,
        allow_fma_contraction,
    )
}

/// Plans the link of LTOIR to a cubin, with contraction allowed.
pub fn link_ltoir_to_cubin(ltoir: &[u8], module_name: &str, arch: &str) -> (r: Result<
    BuildPlan,
    LtoirError,
>)
    ensures
        planned(r, BuildSource::Ltoir, BuildOutput::Cubin, ltoir@, module_name@, arch@, true),
{
    link_ltoir_to_cubin_with_options(ltoir, module_name, arch, true)
}

/// Plans the link of LTOIR to a cubin.
pub fn link_ltoir_to_cubin_with_options(
    ltoir: &[u8],
    module_name: &str,
    arch: &str,
    allow_fma_contraction: bool,
) -> (r: Result<BuildPlan, LtoirError>)
    ensures
        planned(
            r,
            BuildSource::Ltoir,
            BuildOutput::Cubin,
            ltoir@,
            module_name@,
            arch@,
            allow_fma_contraction,
        ),
{
    plan_build(
        BuildSource::Ltoir,
        BuildOutput::Cubin,
        ltoir,
        module_name,
        arch,
        allow_fma_contraction,
    )
}

/// Plans the link of LTOIR to PTX, with contraction allowed.
pub fn link_ltoir_to_ptx(ltoir: &[u8], module_name: &str, arch: &str) -> (r: Result<
    BuildPlan,
    LtoirError,
>)
    ensures
        planned(r, BuildSource::Ltoir, BuildOutput::Ptx, ltoir@, module_name@, arch@, true),
{
    link_ltoir_to_ptx_with_options(ltoir, module_name, arch, true)
}

/// Plans the link of LTOIR to PTX. `arch` is the architecture that the LTOIR was
/// emitted for, and the PTX keeps it.
pub fn link_ltoir_to_ptx_with_options(
    ltoir: &[u8],
    module_name: &str,
    arch: &str,
    allow_fma_contraction: bool,
) -> (r: Result<BuildPlan, LtoirError>)
    ensures
        planned(
            r,
            BuildSource::Ltoir,
            BuildOutput::Ptx,
            ltoir@,
            module_name@,
            arch@,
            allow_fma_contraction,
        ),
{
    plan_build(
        BuildSource::Ltoir,
        BuildOutput::Ptx,
        ltoir,
        module_name,
        arch,
        allow_fma_contraction,
    )
}

/// What a build is waiting for.
#[derive(Debug, Clone, Copy, PartialEq, Eq, Structural)]
pub enum BuildStage {
    /// The libdevice bitcode is being read.
    ReadingLibdevice,
    /// libNVVM is being loaded.
    LoadingNvvm,
    /// libNVVM is being asked for its version of NVVM IR.
    QueryingIrVersion,
    /// libNVVM is being asked for its LLVM version.
    QueryingLlvmVersion,
    /// NVVM IR is being compiled.
    Compiling,
    /// nvJitLink is being loaded.
    LoadingLinker,
    /// The cache is being asked.
    LookingUp,
    /// LTOIR is being linked with optimization.
    LinkingOptimized,
    /// LTOIR is being linked without optimization.
    LinkingPlain,
    /// Nothing more: the build has ended.
    Ended,
}

/// The outcome of the last step of a build.
#[derive(Debug)]
pub enum BuildEvent {
    /// It succeeded.
    Done,
    /// libNVVM accepts this version of NVVM IR.
    IrVersion {
        /// Major version.
        major: i32,
        /// Minor version.
        minor: i32,
    },
    /// libNVVM uses this LLVM version, where it says so.
    LlvmVersion(Option<i32>),
    /// The cache has no entry, or the build has no key.
    CacheMiss,
    /// It failed.
    Failed(LtoirError),
}

/// What libNVVM is asked for.
#[derive(Debug)]
pub struct NvvmProgram {
    /// The modules in order; the first is the libdevice bitcode.
    pub modules: Vec<String>,
    /// The options of the verification.
    pub verify_options: Vec<String>,
    /// The options of the compilation.
    pub compile_options: Vec<String>,
}

/// What nvJitLink is asked for.
#[derive(Debug)]
pub struct LinkRequest {
    /// Name of the LTOIR module.
    pub module_name: String,
    /// The options.
    pub options: Vec<String>,
}

/// The next step of a build.
#[derive(Debug)]
pub enum BuildAction {
    /// Find and read the libdevice bitcode.
    ReadLibdevice,
    /// Load libNVVM.
    LoadNvvm,
    /// Ask libNVVM for its version of NVVM IR.
    QueryIrVersion,
    /// Ask libNVVM for its LLVM version.
    QueryLlvmVersion,
    /// Compile NVVM IR.
    Compile(NvvmProgram),
    /// Load nvJitLink.
    LoadLinker,
    /// Ask the cache.
    LookUp,
    /// Link LTOIR.
    Link(LinkRequest),
    /// The build succeeded: what came last is its output.
    Finish,
    /// The build failed.
    Fail(LtoirError),
}

/// What [`BuildAction`] says.
pub enum BuildActionView {
    /// Find and read the libdevice bitcode.
    ReadLibdevice,
    /// Load libNVVM.
    LoadNvvm,
    /// Ask libNVVM for its version of NVVM IR.
    QueryIrVersion,
    /// Ask libNVVM for its LLVM version.
    QueryLlvmVersion,
    /// Compile NVVM IR.
    Compile {
        /// The modules in order.
        modules: Seq<Seq<char>>,
        /// The options of the verification.
        verify_options: Seq<Seq<char>>,
        /// The options of the compilation.
        compile_options: Seq<Seq<char>>,
    },
    /// Load nvJitLink.
    LoadLinker,
    /// Ask the cache.
    LookUp,
    /// Link LTOIR.
    Link {
        /// Name of the LTOIR module.
        module_name: Seq<char>,
        /// The options.
        options: Seq<Seq<char>>,
    },
    /// The build succeeded.
    Finish,
    /// The build failed.
    Fail(LtoirErrorView),
}

impl View for BuildAction {
    type V = BuildActionView;

    open spec fn view(&self) -> BuildActionView {
        match self {
            BuildAction::ReadLibdevice => BuildActionView::ReadLibdevice,
            BuildAction::LoadNvvm => BuildActionView::LoadNvvm,
            BuildAction::QueryIrVersion => BuildActionView::QueryIrVersion,
            BuildAction::QueryLlvmVersion => BuildActionView::QueryLlvmVersion,
            BuildAction::Compile(program) => BuildActionView::Compile {
                modules: texts(program.modules@),
                verify_options: texts(program.verify_options@),
                compile_options: texts(program.compile_options@),
            },
            BuildAction::LoadLinker => BuildActionView::LoadLinker,
            BuildAction::LookUp => BuildActionView::LookUp,
            BuildAction::Link(request) => BuildActionView::Link {
                module_name: request.module_name@,
                options: texts(request.options@),
            },
            BuildAction::Finish => BuildActionView::Finish,
            BuildAction::Fail(error) => BuildActionView::Fail(error@),
        }
    }
}

/// A stage of a build and the step that leads out of it.
pub struct BuildStep {
    /// The stage.
    pub stage: BuildStage,
    /// The step.
    pub action: BuildActionView,
}

/// The event may come in the stage.
pub open spec fn build_may_follow(stage: BuildStage, event: BuildEvent) -> bool {
    ||| stage != BuildStage::Ended && event is Failed
    ||| match stage {
        BuildStage::QueryingIrVersion => event is IrVersion,
        BuildStage::QueryingLlvmVersion => event is LlvmVersion,
        BuildStage::LookingUp => event is Done || event is CacheMiss,
        BuildStage::Ended => false,
        _ => event is Done,
    }
}

/// A build ends with `error`.
pub open spec fn failed_build(error: LtoirErrorView) -> BuildStep {
    BuildStep { stage: BuildStage::Ended, action: BuildActionView::Fail(error) }
}

/// What libNVVM is asked to compile: the libdevice bitcode first, so that the
/// references of the module to it are resolved, then the module.
pub open spec fn compile_step(plan: BuildPlan) -> BuildStep {
    let arch = arch_option(plan.arch.compute_text());
    BuildStep {
        stage: BuildStage::Compiling,
        action: BuildActionView::Compile {
            modules: seq!["libdevice.10.bc"@, plan.nvvm_module_name@],
            verify_options: seq![arch],
            compile_options: compile_options(arch, plan.allow_fma_contraction),
        },
    }
}

/// What nvJitLink is asked to link.
pub open spec fn link_step(plan: BuildPlan, optimize: bool) -> BuildStep {
    BuildStep {
        stage: if optimize {
            BuildStage::LinkingOptimized
        } else {
            BuildStage::LinkingPlain
        },
        action: BuildActionView::Link {
            module_name: plan.ltoir_module_name@,
            options: link_options(
                arch_option(plan.arch.sm_text()),
                plan.output == BuildOutput::Ptx,
                plan.allow_fma_contraction,
                optimize,
            ),
        },
    }
}

/// The first link of a build: optimized for a cubin, plain for PTX.
pub open spec fn first_link_step(plan: BuildPlan) -> BuildStep {
    link_step(plan, plan.output == BuildOutput::Cubin)
}

/// The step that loads nvJitLink.
pub open spec fn load_linker_step() -> BuildStep {
    BuildStep { stage: BuildStage::LoadingLinker, action: BuildActionView::LoadLinker }
}

/// The step that follows a loaded linker and, where it was asked, a cache without
/// an entry.
pub open spec fn produce_step(plan: BuildPlan) -> BuildStep {
    if plan.cached && plan.source == BuildSource::NvvmIr {
        compile_step(plan)
    } else {
        first_link_step(plan)
    }
}

/// A build succeeds.
pub open spec fn finished_build() -> BuildStep {
    BuildStep { stage: BuildStage::Ended, action: BuildActionView::Finish }
}

/// The failure of an optimized link that a plain link is tried after: a module
/// with debug information cannot be optimized.
pub open spec fn is_debug_failure(error: LtoirErrorView) -> bool {
    has_substring(error.text(), "Optimized debugging not supported"@)
}

/// The first step of a build.
pub open spec fn first_build_step(plan: BuildPlan) -> BuildStep {
    match plan.source {
        BuildSource::NvvmIr => BuildStep {
            stage: BuildStage::ReadingLibdevice,
            action: BuildActionView::ReadLibdevice,
        },
        BuildSource::Ltoir => load_linker_step(),
    }
}

/// The step of a build that follows `event` in `stage`.
pub open spec fn next_build_step(plan: BuildPlan, stage: BuildStage, event: BuildEvent) -> BuildStep {
    match event {
        BuildEvent::Failed(error) => if stage == BuildStage::LinkingOptimized && is_debug_failure(
            error@,
        ) {
            link_step(plan, false)
        } else if stage == BuildStage::LookingUp {
            produce_step(plan)
        } else {
            failed_build(error@)
        },
        BuildEvent::IrVersion { major, minor } => match accepted_version(major, minor) {
            Ok(_) => BuildStep {
                stage: BuildStage::QueryingLlvmVersion,
                action: BuildActionView::QueryLlvmVersion,
            },
            Err(error) => failed_build(error),
        },
        BuildEvent::LlvmVersion(llvm_major) => match accepted_dialect(plan.arch, llvm_major) {
            Ok(_) => if plan.cached {
                load_linker_step()
            } else {
                compile_step(plan)
            },
            Err(error) => failed_build(error),
        },
        BuildEvent::CacheMiss => produce_step(plan),
        BuildEvent::Done => match stage {
            BuildStage::ReadingLibdevice => BuildStep {
                stage: BuildStage::LoadingNvvm,
                action: BuildActionView::LoadNvvm,
            },
            BuildStage::LoadingNvvm => BuildStep {
                stage: BuildStage::QueryingIrVersion,
                action: BuildActionView::QueryIrVersion,
            },
            BuildStage::Compiling => if plan.cached {
                first_link_step(plan)
            } else {
                load_linker_step()
            },
            BuildStage::LoadingLinker => if plan.cached {
                BuildStep { stage: BuildStage::LookingUp, action: BuildActionView::LookUp }
            } else {
                first_link_step(plan)
            },
            _ => finished_build(),
        },
    }
}

fn compile_action(plan: &BuildPlan) -> (r: BuildAction)
    ensures
        r@ == compile_step(*plan).action,
{
    let arch = arch_option_text(plan.arch.compute().as_str());
    let mut modules: Vec<String> = Vec::new();
    modules.push("libdevice.10.bc".to_owned());
    modules.push(plan.nvvm_module_name.clone());
    let mut verify_options: Vec<String> = Vec::new();
    verify_options.push(arch.clone());
    let options = nvvm_compile_options(arch.as_str(), plan.allow_fma_contraction);
    assert(texts(modules@) =~= seq!["libdevice.10.bc"@, plan.nvvm_module_name@]);
    assert(texts(verify_options@) =~= seq![arch@]);
    BuildAction::Compile(NvvmProgram { modules, verify_options, compile_options: options })
}

fn link_action(plan: &BuildPlan, optimize: bool) -> (r: BuildAction)
    ensures
        r@ == link_step(*plan, optimize).action,
{
    let arch = arch_option_text(plan.arch.sm().as_str());
    let options = nvjitlink_lto_options(
        arch.as_str(),
        plan.output == BuildOutput::Ptx,
        plan.allow_fma_contraction,
        optimize,
    );
    BuildAction::Link(LinkRequest { module_name: plan.ltoir_module_name.clone(), options })
}

fn first_link(plan: &BuildPlan) -> (r: (BuildStage, BuildAction))
    ensures
        (BuildStep { stage: r.0, action: r.1@ }) == first_link_step(*plan),
{
    match plan.output {
        BuildOutput::Cubin => (BuildStage::LinkingOptimized, link_action(plan, true)),
        BuildOutput::Ptx => (BuildStage::LinkingPlain, link_action(plan, false)),
    }
}

fn produce(plan: &BuildPlan) -> (r: (BuildStage, BuildAction))
    ensures
        (BuildStep { stage: r.0, action: r.1@ }) == produce_step(*plan),
{
    if plan.cached && plan.source == BuildSource::NvvmIr {
        (BuildStage::Compiling, compile_action(plan))
    } else {
        first_link(plan)
    }
}

/// Starts a build.
pub fn start_build(plan: &BuildPlan) -> (r: (BuildStage, BuildAction))
    ensures
        (BuildStep { stage: r.0, action: r.1@ }) == first_build_step(*plan),
{
    match plan.source {
        BuildSource::NvvmIr => (BuildStage::ReadingLibdevice, BuildAction::ReadLibdevice),
        BuildSource::Ltoir => (BuildStage::LoadingLinker, BuildAction::LoadLinker),
    }
}

/// Runs a build by one step: takes the outcome of the last one and gives the next.
///
/// A cubin is linked with optimization first. Where that fails because the module
/// carries debug information, it is linked once more without. A cache that fails is
/// taken for one without an entry.
pub fn continue_build(plan: &BuildPlan, stage: BuildStage, event: BuildEvent) -> (r: (
    BuildStage,
    BuildAction,
))
    requires
        build_may_follow(stage, event),
    ensures
        (BuildStep { stage: r.0, action: r.1@ }) == next_build_step(*plan, stage, event),
{
    match event {
        BuildEvent::Failed(error) => {
            if stage == BuildStage::LinkingOptimized && contains(
                error.message().as_str(),
                "Optimized debugging not supported",
            ) {
                (BuildStage::LinkingPlain, link_action(plan, false))
            } else if stage == BuildStage::LookingUp {
                produce(plan)
            } else {
                (BuildStage::Ended, BuildAction::Fail(error))
            }
        },
        BuildEvent::IrVersion { major, minor } => match validate_ir_version(major, minor) {
            Ok(_) => (BuildStage::QueryingLlvmVersion, BuildAction::QueryLlvmVersion),
            Err(error) => (BuildStage::Ended, BuildAction::Fail(error)),
        },
        BuildEvent::LlvmVersion(llvm_major) => match validate_dialect(&plan.arch, llvm_major) {
            Ok(_) => {
                if plan.cached {
                    (BuildStage::LoadingLinker, BuildAction::LoadLinker)
                } else {
                    (BuildStage::Compiling, compile_action(plan))
                }
            },
            Err(error) => (BuildStage::Ended, BuildAction::Fail(error)),
        },
        BuildEvent::CacheMiss => produce(plan),
        BuildEvent::Done => match stage {
            BuildStage::ReadingLibdevice => (BuildStage::LoadingNvvm, BuildAction::LoadNvvm),
            BuildStage::LoadingNvvm => (
                BuildStage::QueryingIrVersion,
                BuildAction::QueryIrVersion,
            ),
            BuildStage::Compiling => {
                if plan.cached {
                    first_link(plan)
                } else {
                    (BuildStage::LoadingLinker, BuildAction::LoadLinker)
                }
            },
            BuildStage::LoadingLinker => {
                if plan.cached {
                    (BuildStage::LookingUp, BuildAction::LookUp)
                } else {
                    first_link(plan)
                }
            },
            _ => (BuildStage::Ended, BuildAction::Finish),
        },
    }
}

// ---------------------------------------------------------------------------
// Routes and artifacts
// ---------------------------------------------------------------------------

/// How an artifact is executed.
#[derive(Debug, Clone, Copy, PartialEq, Eq, Structural)]
pub enum ExecutionRoute {
    /// As native code for the architecture that it was emitted for.
    Cubin,
    /// As PTX for that architecture, which the driver compiles for a newer device.
    PtxBridge,
}

/// The device cannot run an artifact for `emitted`, for this reason.
pub open spec fn incompatible(emitted: CudaArch, execution: CudaArch, reason: Seq<char>) -> Result<
    ExecutionRoute,
    LtoirErrorView,
> {
    Err(
        LtoirErrorView::IncompatibleExecutionTarget {
            emitted: emitted.sm_text(),
            execution: execution.sm_text(),
            reason,
        },
    )
}

/// How an artifact for `emitted` runs on a device of architecture `execution`.
pub open spec fn route_for(emitted: CudaArch, execution: CudaArch) -> Result<
    ExecutionRoute,
    LtoirErrorView,
> {
    if emitted.capability == execution.capability {
        Ok(ExecutionRoute::Cubin)
    } else if emitted.suffix is Some {
        incompatible(
            emitted,
            execution,
            "targets with an architecture suffix, such as sm_90a, cannot be forwarded to a different GPU"@,
        )
    } else if emitted.capability > execution.capability {
        incompatible(
            emitted,
            execution,
            "an artifact built for a newer GPU cannot run on an older GPU"@,
        )
    } else if emitted.legacy() && execution.capability >= 100 {
        Ok(ExecutionRoute::PtxBridge)
    } else {
        incompatible(
            emitted,
            execution,
            "only standard pre-Blackwell targets, such as sm_86, can be converted to PTX for Blackwell"@,
        )
    }
}

fn incompatible_error(emitted: &CudaArch, execution: &CudaArch, reason: &str) -> (r: LtoirError)
    ensures
        r@ == (LtoirErrorView::IncompatibleExecutionTarget {
            emitted: emitted.sm_text(),
            execution: execution.sm_text(),
            reason: reason@,
        }),
{
    LtoirError::IncompatibleExecutionTarget {
        emitted: emitted.sm(),
        execution: execution.sm(),
        reason: reason.to_owned(),
    }
}

/// How an artifact for `emitted` runs on a device of architecture `execution`.
/// Neither architecture is changed.
pub fn execution_route(emitted: &CudaArch, execution: &CudaArch) -> (r: Result<
    ExecutionRoute,
    LtoirError,
>)
    ensures
        viewed(r) == route_for(*emitted, *execution),
{
    if emitted.capability == execution.capability {
        return Ok(ExecutionRoute::Cubin);
    }
    if emitted.suffix.is_some() {
        return Err(
            incompatible_error(
                emitted,
                execution,
                "targets with an architecture suffix, such as sm_90a, cannot be forwarded to a different GPU",
            ),
        );
    }
    if emitted.capability > execution.capability {
        return Err(
            incompatible_error(
                emitted,
                execution,
                "an artifact built for a newer GPU cannot run on an older GPU",
            ),
        );
    }
    if emitted.uses_legacy_llvm() && execution.capability >= 100 {
        return Ok(ExecutionRoute::PtxBridge);
    }
    Err(
        incompatible_error(
            emitted,
            execution,
            "only standard pre-Blackwell targets, such as sm_86, can be converted to PTX for Blackwell",
        ),
    )
}

/// An artifact file.
#[derive(Debug, Clone, Copy, PartialEq, Eq, Structural)]
pub enum FileArtifact {
    /// PTX.
    Ptx,
    /// NVVM IR.
    NvvmIr,
    /// LTOIR.
    Ltoir,
    /// A cubin.
    Cubin,
}

/// The artifact to load. A recorded target says that NVVM output is current;
/// without one, PTX is.
pub open spec fn selected_artifact(
    has_ptx: bool,
    has_nvvm_ir: bool,
    has_ltoir: bool,
    has_cubin: bool,
    has_recorded_nvvm_target: bool,
) -> Option<FileArtifact> {
    if has_ptx && !has_recorded_nvvm_target {
        Some(FileArtifact::Ptx)
    } else if has_nvvm_ir {
        Some(FileArtifact::NvvmIr)
    } else if has_ltoir {
        Some(FileArtifact::Ltoir)
    } else if has_cubin && !has_recorded_nvvm_target {
        Some(FileArtifact::Cubin)
    } else {
        None
    }
}

/// The artifact to load.
pub fn select_file_artifact(
    has_ptx: bool,
    has_nvvm_ir: bool,
    has_ltoir: bool,
    has_cubin: bool,
    has_recorded_nvvm_target: bool,
) -> (r: Option<FileArtifact>)
    ensures
        r == selected_artifact(
            has_ptx,
            has_nvvm_ir,
            has_ltoir,
            has_cubin,
            has_recorded_nvvm_target,
        ),
{
    if has_recorded_nvvm_target {
        if has_nvvm_ir {
            return Some(FileArtifact::NvvmIr);
        }
        if has_ltoir {
            return Some(FileArtifact::Ltoir);
        }
        return None;
    }
    if has_ptx {
        Some(FileArtifact::Ptx)
    } else if has_nvvm_ir {
        Some(FileArtifact::NvvmIr)
    } else if has_ltoir {
        Some(FileArtifact::Ltoir)
    } else if has_cubin {
        Some(FileArtifact::Cubin)
    } else {
        None
    }
}

// ---------------------------------------------------------------------------
// Builds from files
// ---------------------------------------------------------------------------

/// The build of a cubin from a file of NVVM IR.
#[derive(Debug)]
pub struct FileBuildPlan {
    /// Path of the target file, which is written before anything is built.
    pub target_path: String,
    /// What the target file says.
    pub target_text: String,
    /// The directory whose cache is asked.
    pub source_dir: String,
    /// Path of the LTOIR that is written.
    pub ltoir_path: String,
    /// Path of the cubin that is written.
    pub cubin_path: String,
    /// The build.
    pub build: BuildPlan,
}

/// The directory that a file lies in.
pub open spec fn directory_of(path: Seq<char>) -> Seq<char> {
    match parent_of(path) {
        Some(dir) => dir,
        None => "."@,
    }
}

/// The file beside `path` with the same stem and the extension `extension`.
pub open spec fn sibling_of(path: Seq<char>, extension: Seq<char>) -> Seq<char> {
    let stem = match file_stem_of(path) {
        Some(stem) => stem,
        None => "kernel"@,
    };
    joined_path(directory_of(path), stem + extension)
}

fn directory(path: &str) -> (r: String)
    ensures
        r@ == directory_of(path@),
{
    match parent(path) {
        Some(dir) => dir,
        None => ".".to_owned(),
    }
}

fn sibling(path: &str, extension: &str) -> (r: String)
    ensures
        r@ == sibling_of(path@, extension@),
{
    let mut name = match file_stem(path) {
        Some(stem) => stem,
        None => "kernel".to_owned(),
    };
    name.append(extension);
    join_path(directory(path).as_str(), name.as_str())
}

/// What is checked before a file of NVVM IR is built: the file can be read, its
/// options are well formed, it was emitted for `arch`, and its target file can be
/// written. Gives the contraction policy and the text of the target file.
pub open spec fn checked_file(
    ll_path: Seq<char>,
    arch: CudaArch,
    source: Result<Vec<u8>, String>,
    sidecars: Sidecars,
    marker: Seq<char>,
) -> Result<(bool, Seq<char>), LtoirErrorView> {
    match source {
        Err(reason) => Err(LtoirErrorView::Io { path: ll_path, source: reason@ }),
        Ok(_) => match fma_contraction(ll_path, sidecars.options) {
            Err(error) => Err(error),
            Ok(allow) => match validated_target(ll_path, sidecars, marker, arch) {
                Err(error) => Err(error),
                Ok(_) => match target_file_text(ll_path, sidecars, marker, arch) {
                    Err(error) => Err(error),
                    Ok(text) => Ok((allow, text)),
                },
            },
        },
    }
}

/// `plan` is a cached build of a cubin from `input` as the arguments say.
pub open spec fn plans_cached(
    plan: BuildPlan,
    source: BuildSource,
    input: Seq<u8>,
    nvvm_module_name: Seq<char>,
    ltoir_module_name: Seq<char>,
    arch: CudaArch,
    allow_fma: bool,
) -> bool {
    &&& plan.source == source
    &&& plan.output == BuildOutput::Cubin
    &&& plan.input@ == input
    &&& plan.nvvm_module_name@ == nvvm_module_name
    &&& plan.ltoir_module_name@ == ltoir_module_name
    &&& plan.arch == arch
    &&& plan.allow_fma_contraction == allow_fma
    &&& plan.cached
}

/// The result of planning the build of a file.
pub open spec fn planned_file(
    r: Result<FileBuildPlan, LtoirError>,
    ll_path: Seq<char>,
    arch: CudaArch,
    source: Result<Vec<u8>, String>,
    sidecars: Sidecars,
    marker: Seq<char>,
) -> bool {
    match checked_file(ll_path, arch, source, sidecars, marker) {
        Err(error) => r matches Err(e) && e@ == error,
        Ok((allow, text)) => {
            &&& r matches Ok(plan)
            &&& source matches Ok(bytes)
            &&& plan.target_path@ == target_path(ll_path)
            &&& plan.target_text@ == text
            &&& plan.source_dir@ == directory_of(ll_path)
            &&& plan.ltoir_path@ == sibling_of(ll_path, ".ltoir"@)
            &&& plan.cubin_path@ == sibling_of(ll_path, ".cubin"@)
            &&& plans_cached(
                plan.build,
                BuildSource::NvvmIr,
                bytes@,
                ll_path,
                sibling_of(ll_path, ".ltoir"@),
                arch,
                allow,
            )
        },
    }
}

/// Plans the build of a cubin from a file of NVVM IR for a known architecture.
pub fn build_cubin_from_ll_file(
    ll_path: &str,
    arch: &CudaArch,
    source: Result<Vec<u8>, String>,
    sidecars: &Sidecars,
    marker: &str,
) -> (r: Result<FileBuildPlan, LtoirError>)
    ensures
        planned_file(r, ll_path@, *arch, source, *sidecars, marker@),
{
    let input = match source {
        Ok(bytes) => bytes,
        Err(reason) => {
            return Err(LtoirError::Io { path: ll_path.to_owned(), source: reason });
        },
    };
    let allow_fma_contraction: bool = match read_fma_contraction_option(
        ll_path,
        &sidecars.options,
    ) {
        Ok(allow) => allow,
        Err(error) => {
            return Err(error);
        },
    };
    if let Err(error) = validate_ir_target_sidecar(ll_path, sidecars, marker, arch) {
        return Err(error);
    }
    let target_text = match write_artifact_target_sidecar(ll_path, sidecars, marker, arch) {
        Ok(text) => text,
        Err(error) => {
            return Err(error);
        },
    };
    let ltoir_path = sibling(ll_path, ".ltoir");
    let cubin_path = sibling(ll_path, ".cubin");
    Ok(
        FileBuildPlan {
            target_path: emitted_target_path(ll_path),
            target_text,
            source_dir: directory(ll_path),
            ltoir_path: ltoir_path.clone(),
            cubin_path,
            build: BuildPlan {
                source: BuildSource::NvvmIr,
                output: BuildOutput::Cubin,
                input,
                nvvm_module_name: ll_path.to_owned(),
                ltoir_module_name: ltoir_path,
                arch: *arch,
                allow_fma_contraction,
                cached: true,
            },
        },
    )
}

/// Plans the build of a cubin from a file of NVVM IR for the architecture that
/// `arch` names. The file is read before its target is recorded, so a missing
/// file gains no target.
pub fn build_cubin_from_ll(
    ll_path: &str,
    arch: &str,
    source: Result<Vec<u8>, String>,
    sidecars: &Sidecars,
    marker: &str,
) -> (r: Result<FileBuildPlan, LtoirError>)
    ensures
        match parsed_arch(arch@) {
            Some(target) => planned_file(r, ll_path@, target, source, *sidecars, marker@),
            None => r matches Err(error) && error@ == LtoirErrorView::InvalidTarget(arch@),
        },
{
    match CudaArch::parse(arch) {
        Ok(target) => build_cubin_from_ll_file(ll_path, &target, source, sidecars, marker),
        Err(error) => Err(LtoirError::InvalidTarget(error)),
    }
}

// ---------------------------------------------------------------------------
// Loading
// ---------------------------------------------------------------------------

/// Which artifact files there are.
#[derive(Debug)]
pub struct ArtifactProbe {
    /// Whether there is a target file, or why that is unknown.
    pub target: Result<bool, String>,
    /// Whether there is PTX.
    pub ptx: bool,
    /// Whether there is NVVM IR.
    pub ll: bool,
    /// Whether there is LTOIR.
    pub ltoir: bool,
    /// Whether there is a cubin.
    pub cubin: bool,
}

/// What a load looks at besides which files there are.
#[derive(Debug)]
pub struct LoadInputs {
    /// The sidecar files.
    pub sidecars: Sidecars,
    /// The explicit source target.
    pub explicit_target: Option<String>,
    /// The compute capability of the device, or why it is unknown.
    pub compute_capability: Result<(i32, i32), String>,
    /// The NVVM IR or LTOIR, or why it cannot be read.
    pub artifact: Result<Vec<u8>, String>,
}

/// How a module is loaded.
#[derive(Debug)]
pub enum LoadPlan {
    /// Load this file.
    File(String),
    /// Build this file and load the cubin.
    BuildFile(FileBuildPlan),
    /// Run this build and load its output.
    Build {
        /// The directory whose cache is asked.
        source_dir: String,
        /// The build.
        plan: BuildPlan,
    },
}

/// The path of an artifact file.
pub open spec fn artifact_path(dir: Seq<char>, name: Seq<char>, extension: Seq<char>) -> Seq<char> {
    joined_path(dir, name + extension)
}

fn artifact_file(dir: &str, name: &str, extension: &str) -> (r: String)
    ensures
        r@ == artifact_path(dir@, name@, extension@),
{
    let mut file = name.to_owned();
    file.append(extension);
    join_path(dir, file.as_str())
}

/// The architecture of the device, or why it is unknown.
pub open spec fn device_of(capability: Result<(i32, i32), String>) -> Result<
    CudaArch,
    LtoirErrorView,
> {
    match capability {
        Err(reason) => Err(LtoirErrorView::Driver(reason@)),
        Ok((major, minor)) => match device_arch(major, minor) {
            Some(arch) => Ok(arch),
            None => Err(LtoirErrorView::InvalidTarget(device_text(major, minor))),
        },
    }
}

/// The architecture of the device that executes the module.
pub fn execution_arch_for_context(capability: &Result<(i32, i32), String>) -> (r: Result<
    CudaArch,
    LtoirError,
>)
    ensures
        viewed(r) == device_of(*capability),
{
    match capability {
        Err(reason) => Err(LtoirError::Driver(reason.clone())),
        Ok(pair) => match execution_arch(pair.0, pair.1) {
            Ok(arch) => Ok(arch),
            Err(error) => Err(LtoirError::InvalidTarget(error)),
        },
    }
}

/// The architecture that the artifact at `path` was emitted for and that of the
/// device.
pub open spec fn architectures(path: Seq<char>, inputs: LoadInputs, marker: Seq<char>) -> Result<
    (CudaArch, CudaArch),
    LtoirErrorView,
> {
    match artifact_target(path, inputs.sidecars, marker, opt_text(inputs.explicit_target)) {
        Err(error) => Err(error),
        Ok(emitted) => match device_of(inputs.compute_capability) {
            Err(error) => Err(error),
            Ok(execution) => Ok((emitted, execution)),
        },
    }
}

/// The bytes of the artifact at `path` and its contraction policy.
pub open spec fn contents(path: Seq<char>, inputs: LoadInputs) -> Result<
    (Seq<u8>, bool),
    LtoirErrorView,
> {
    match inputs.artifact {
        Err(reason) => Err(LtoirErrorView::Io { path, source: reason@ }),
        Ok(bytes) => match fma_contraction(path, inputs.sidecars.options) {
            Err(error) => Err(error),
            Ok(allow) => Ok((bytes@, allow)),
        },
    }
}

/// The result failed with `error`.
pub open spec fn fails(r: Result<LoadPlan, LtoirError>, error: LtoirErrorView) -> bool {
    r matches Err(e) && e@ == error
}

/// The result of planning to load the NVVM IR at `path`: natively where the device
/// is of the same architecture, as PTX where it bridges forward.
pub open spec fn loads_nvvm_ir(
    r: Result<LoadPlan, LtoirError>,
    path: Seq<char>,
    inputs: LoadInputs,
    marker: Seq<char>,
) -> bool {
    match architectures(path, inputs, marker) {
        Err(error) => fails(r, error),
        Ok((emitted, execution)) => match route_for(emitted, execution) {
            Err(error) => fails(r, error),
            Ok(ExecutionRoute::Cubin) => match r {
                Ok(LoadPlan::BuildFile(plan)) => planned_file(
                    Ok(plan),
                    path,
                    emitted,
                    inputs.artifact,
                    inputs.sidecars,
                    marker,
                ),
                Ok(_) => false,
                Err(error) => planned_file(
                    Err(error),
                    path,
                    emitted,
                    inputs.artifact,
                    inputs.sidecars,
                    marker,
                ),
            },
            Ok(ExecutionRoute::PtxBridge) => match contents(path, inputs) {
                Err(error) => fails(r, error),
                Ok((bytes, allow)) => {
                    &&& r matches Ok(LoadPlan::Build { source_dir, plan })
                    &&& source_dir@ == directory_of(path)
                    &&& plans(
                        plan,
                        BuildSource::NvvmIr,
                        BuildOutput::Ptx,
                        bytes,
                        path,
                        emitted,
                        allow,
                    )
                },
            },
        },
    }
}

/// The result of planning to load the LTOIR at `path`.
pub open spec fn loads_ltoir(
    r: Result<LoadPlan, LtoirError>,
    path: Seq<char>,
    inputs: LoadInputs,
    marker: Seq<char>,
) -> bool {
    match architectures(path, inputs, marker) {
        Err(error) => fails(r, error),
        Ok((emitted, execution)) => match contents(path, inputs) {
            Err(error) => fails(r, error),
            Ok((bytes, allow)) => match route_for(emitted, execution) {
                Err(error) => fails(r, error),
                Ok(ExecutionRoute::Cubin) => {
                    &&& r matches Ok(LoadPlan::Build { source_dir, plan })
                    &&& source_dir@ == directory_of(path)
                    &&& plans_cached(plan, BuildSource::Ltoir, bytes, path, path, emitted, allow)
                },
                Ok(ExecutionRoute::PtxBridge) => {
                    &&& r matches Ok(LoadPlan::Build { source_dir, plan })
                    &&& source_dir@ == directory_of(path)
                    &&& plans(
                        plan,
                        BuildSource::Ltoir,
                        BuildOutput::Ptx,
                        bytes,
                        path,
                        emitted,
                        allow,
                    )
                },
            },
        },
    }
}

/// The result of planning to load the module `name` from `dir`.
pub open spec fn loads(
    r: Result<LoadPlan, LtoirError>,
    dir: Seq<char>,
    name: Seq<char>,
    probe: ArtifactProbe,
    inputs: LoadInputs,
    marker: Seq<char>,
) -> bool {
    let ll = artifact_path(dir, name, ".ll"@);
    match probe.target {
        Err(reason) => fails(r, LtoirErrorView::Io { path: target_path(ll), source: reason@ }),
        Ok(recorded) => match selected_artifact(
            probe.ptx,
            probe.ll,
            probe.ltoir,
            probe.cubin,
            recorded,
        ) {
            None => fails(r, LtoirErrorView::NoArtifact { name, dir }),
            Some(FileArtifact::Ptx) => r matches Ok(LoadPlan::File(path)) && path@
                == artifact_path(dir, name, ".ptx"@),
            Some(FileArtifact::Cubin) => r matches Ok(LoadPlan::File(path)) && path@
                == artifact_path(dir, name, ".cubin"@),
            Some(FileArtifact::NvvmIr) => loads_nvvm_ir(r, ll, inputs, marker),
            Some(FileArtifact::Ltoir) => loads_ltoir(
                r,
                artifact_path(dir, name, ".ltoir"@),
                inputs,
                marker,
            ),
        },
    }
}

fn resolve_architectures(path: &str, inputs: &LoadInputs, marker: &str) -> (r: Result<
    (CudaArch, CudaArch),
    LtoirError,
>)
    ensures
        viewed(r) == architectures(path@, *inputs, marker@),
{
    let explicit: Option<&str> = match &inputs.explicit_target {
        Some(text) => Some(text.as_str()),
        None => None,
    };
    let emitted = match target_arch_for_artifact_with_explicit(
        path,
        &inputs.sidecars,
        marker,
        explicit,
    ) {
        Ok(arch) => arch,
        Err(error) => {
            return Err(error);
        },
    };
    match execution_arch_for_context(&inputs.compute_capability) {
        Ok(execution) => Ok((emitted, execution)),
        Err(error) => Err(error),
    }
}

fn load_nvvm_ir(path: &str, inputs: LoadInputs, marker: &str) -> (r: Result<LoadPlan, LtoirError>)
    ensures
        loads_nvvm_ir(r, path@, inputs, marker@),
{
    let (emitted, execution) = match resolve_architectures(path, &inputs, marker) {
        Ok(pair) => pair,
        Err(error) => {
            return Err(error);
        },
    };
    match execution_route(&emitted, &execution) {
        Err(error) => Err(error),
        Ok(ExecutionRoute::Cubin) => match build_cubin_from_ll_file(
            path,
            &emitted,
            inputs.artifact,
            &inputs.sidecars,
            marker,
        ) {
            Ok(plan) => Ok(LoadPlan::BuildFile(plan)),
            Err(error) => Err(error),
        },
        Ok(ExecutionRoute::PtxBridge) => {
            let bytes = match inputs.artifact {
                Ok(bytes) => bytes,
                Err(reason) => {
                    return Err(LtoirError::Io { path: path.to_owned(), source: reason });
                },
            };
            let allow: bool = match read_fma_contraction_option(path, &inputs.sidecars.options) {
                Ok(allow) => allow,
                Err(error) => {
                    return Err(error);
                },
            };
            let sm = emitted.sm();
            proof {
                crate::cuda_arch::spellings_name_the_architecture(emitted);
            }
            match build_ptx_from_nvvm_ir_with_options(
                bytes.as_slice(),
                path,
                sm.as_str(),
                allow,
            ) {
                Ok(plan) => Ok(LoadPlan::Build { source_dir: directory(path), plan }),
                Err(error) => Err(error),
            }
        },
    }
}

fn load_ltoir(path: &str, inputs: LoadInputs, marker: &str) -> (r: Result<LoadPlan, LtoirError>)
    ensures
        loads_ltoir(r, path@, inputs, marker@),
{
    let (emitted, execution) = match resolve_architectures(path, &inputs, marker) {
        Ok(pair) => pair,
        Err(error) => {
            return Err(error);
        },
    };
    let bytes = match inputs.artifact {
        Ok(bytes) => bytes,
        Err(reason) => {
            return Err(LtoirError::Io { path: path.to_owned(), source: reason });
        },
    };
    let allow: bool = match read_fma_contraction_option(path, &inputs.sidecars.options) {
        Ok(allow) => allow,
        Err(error) => {
            return Err(error);
        },
    };
    let (output, cached) = match execution_route(&emitted, &execution) {
        Err(error) => {
            return Err(error);
        },
        Ok(ExecutionRoute::Cubin) => (BuildOutput::Cubin, true),
        Ok(ExecutionRoute::PtxBridge) => (BuildOutput::Ptx, false),
    };
    Ok(
        LoadPlan::Build {
            source_dir: directory(path),
            plan: BuildPlan {
                source: BuildSource::Ltoir,
                output,
                input: bytes,
                nvvm_module_name: path.to_owned(),
                ltoir_module_name: path.to_owned(),
                arch: emitted,
                allow_fma_contraction: allow,
                cached,
            },
        },
    )
}

/// Plans to load the module `name` from `dir`.
///
/// NVVM IR or LTOIR with a recorded target comes first, then PTX, then NVVM IR or
/// LTOIR whose target is given explicitly, then a cubin.
pub fn load_kernel_module(
    dir: &str,
    name: &str,
    probe: &ArtifactProbe,
    inputs: LoadInputs,
    marker: &str,
) -> (r: Result<LoadPlan, LtoirError>)
    ensures
        loads(r, dir@, name@, *probe, inputs, marker@),
{
    let ll = artifact_file(dir, name, ".ll");
    let recorded: bool = match &probe.target {
        Ok(recorded) => *recorded,
        Err(reason) => {
            return Err(
                LtoirError::Io {
                    path: emitted_target_path(ll.as_str()),
                    source: reason.clone(),
                },
            );
        },
    };
    match select_file_artifact(probe.ptx, probe.ll, probe.ltoir, probe.cubin, recorded) {
        None => Err(LtoirError::NoArtifact { name: name.to_owned(), dir: dir.to_owned() }),
        Some(FileArtifact::Ptx) => Ok(LoadPlan::File(artifact_file(dir, name, ".ptx"))),
        Some(FileArtifact::Cubin) => Ok(LoadPlan::File(artifact_file(dir, name, ".cubin"))),
        Some(FileArtifact::NvvmIr) => load_nvvm_ir(ll.as_str(), inputs, marker),
        Some(FileArtifact::Ltoir) => load_ltoir(
            artifact_file(dir, name, ".ltoir").as_str(),
            inputs,
            marker,
        ),
    }
}

// ---------------------------------------------------------------------------
// Laws
// ---------------------------------------------------------------------------

/// Where a target is recorded, neither PTX nor a cubin is ever selected: both would
/// be older than the NVVM output.
pub proof fn recorded_output_never_falls_back(
    has_ptx: bool,
    has_nvvm_ir: bool,
    has_ltoir: bool,
    has_cubin: bool,
)
    ensures
        selected_artifact(has_ptx, has_nvvm_ir, has_ltoir, has_cubin, true) != Some(
            FileArtifact::Ptx,
        ),
        selected_artifact(has_ptx, has_nvvm_ir, has_ltoir, has_cubin, true) != Some(
            FileArtifact::Cubin,
        ),
        selected_artifact(has_ptx, has_nvvm_ir, has_ltoir, has_cubin, true) is None <==> !has_nvvm_ir
            && !has_ltoir,
{
}

/// Only a file that is there is ever selected.
pub proof fn selected_artifacts_exist(
    has_ptx: bool,
    has_nvvm_ir: bool,
    has_ltoir: bool,
    has_cubin: bool,
    recorded: bool,
)
    ensures
        match selected_artifact(has_ptx, has_nvvm_ir, has_ltoir, has_cubin, recorded) {
            Some(FileArtifact::Ptx) => has_ptx,
            Some(FileArtifact::NvvmIr) => has_nvvm_ir,
            Some(FileArtifact::Ltoir) => has_ltoir,
            Some(FileArtifact::Cubin) => has_cubin,
            None => !has_nvvm_ir && !has_ltoir && (recorded || (!has_ptx && !has_cubin)),
        },
{
}

/// A native route never crosses compute capabilities, and a bridge leads forward
/// only, from an architecture without a suffix of the older dialect to a device of
/// the newer one.
pub proof fn routes_keep_the_architecture(emitted: CudaArch, execution: CudaArch)
    ensures
        route_for(emitted, execution) == Ok::<ExecutionRoute, LtoirErrorView>(
            ExecutionRoute::Cubin,
        ) <==> emitted.capability == execution.capability,
        route_for(emitted, execution) == Ok::<ExecutionRoute, LtoirErrorView>(
            ExecutionRoute::PtxBridge,
        ) <==> emitted.suffix is None && emitted.capability < 100 <= execution.capability,
{
}

/// A file of NVVM IR that cannot be read is never built, and its target is never
/// recorded.
pub proof fn missing_sources_are_not_built(
    r: Result<FileBuildPlan, LtoirError>,
    ll_path: Seq<char>,
    arch: CudaArch,
    source: Result<Vec<u8>, String>,
    sidecars: Sidecars,
    marker: Seq<char>,
)
    requires
        source is Err,
        planned_file(r, ll_path, arch, source, sidecars, marker),
    ensures
        r matches Err(error) && error@ == (LtoirErrorView::Io {
            path: ll_path,
            source: source->Err_0@,
        }),
{
}

/// Every compilation and every link of a build is told the contraction policy of
/// the artifact, as its last option.
pub proof fn builds_keep_the_contraction_policy(
    plan: BuildPlan,
    stage: BuildStage,
    event: BuildEvent,
)
    requires
        build_may_follow(stage, event),
    ensures
        match next_build_step(plan, stage, event).action {
            BuildActionView::Compile { modules, verify_options, compile_options } => {
                compile_options.last() == fma_option(plan.allow_fma_contraction)
            },
            BuildActionView::Link { module_name, options } => options.last() == fma_option(
                plan.allow_fma_contraction,
            ),
            _ => true,
        },
{
}

/// After a link without optimization a build ends, so no link is tried more than
/// twice.
pub proof fn plain_links_are_final(plan: BuildPlan, event: BuildEvent)
    requires
        build_may_follow(BuildStage::LinkingPlain, event),
    ensures
        next_build_step(plan, BuildStage::LinkingPlain, event).stage == BuildStage::Ended,
{
}

/// A failed optimized link is tried without optimization exactly where it failed
/// because of debug information; any other failure of a tool ends the build.
pub proof fn only_debug_failures_are_retried(plan: BuildPlan, stage: BuildStage, error: LtoirError)
    requires
        stage != BuildStage::Ended,
        stage != BuildStage::LookingUp,
    ensures
        next_build_step(plan, stage, BuildEvent::Failed(error)).action is Link <==> stage
            == BuildStage::LinkingOptimized && is_debug_failure(error@),
        next_build_step(plan, stage, BuildEvent::Failed(error)).action is Link
            || next_build_step(plan, stage, BuildEvent::Failed(error)).action
            == BuildActionView::Fail(error@),
{
}

/// A cache that fails never prevents a build: the build goes on as it does without an
/// entry.
pub proof fn cache_failures_never_prevent_a_build(plan: BuildPlan, error: LtoirError)
    ensures
        next_build_step(plan, BuildStage::LookingUp, BuildEvent::Failed(error))
            == next_build_step(plan, BuildStage::LookingUp, BuildEvent::CacheMiss),
        next_build_step(plan, BuildStage::LookingUp, BuildEvent::CacheMiss).action is Compile
            || next_build_step(plan, BuildStage::LookingUp, BuildEvent::CacheMiss).action is Link,
{
}

/// How many steps a stage is from the end of a build at most.
pub open spec fn steps_left(plan: BuildPlan, stage: BuildStage) -> nat {
    match stage {
        BuildStage::ReadingLibdevice => 9,
        BuildStage::LoadingNvvm => 8,
        BuildStage::QueryingIrVersion => 7,
        BuildStage::QueryingLlvmVersion => 6,
        BuildStage::Compiling => if plan.cached {
            3
        } else {
            5
        },
        BuildStage::LoadingLinker => if plan.cached {
            5
        } else {
            4
        },
        BuildStage::LookingUp => 4,
        BuildStage::LinkingOptimized => 2,
        BuildStage::LinkingPlain => 1,
        BuildStage::Ended => 0,
    }
}

/// Every step brings a build closer to its end.
pub proof fn builds_end(plan: BuildPlan, stage: BuildStage, event: BuildEvent)
    requires
        build_may_follow(stage, event),
    ensures
        steps_left(plan, next_build_step(plan, stage, event).stage) < steps_left(plan, stage),
{
}

/// The key of a build from NVVM IR holds, in order, every option that the compilation
/// and the optimized link are given.
pub proof fn nvvm_keys_hold_the_ordered_options(i: NvvmInputs)
    ensures
        ({
            let key = nvvm_key(i);
            let compile = compile_options(
                arch_option(i.arch.compute_text()),
                i.allow_fma_contraction,
            );
            let link = link_options(
                arch_option(i.arch.sm_text()),
                false,
                i.allow_fma_contraction,
                true,
            );
            &&& compile.len() == 3
            &&& forall|k: int|
                0 <= k < 3 ==> #[trigger] key[9 + k].value == encode_utf8(compile[k])
            &&& link.len() == 4
            &&& forall|k: int|
                0 <= k < 4 ==> #[trigger] key[14 + k].value == encode_utf8(link[k])
        }),
{
    let key = nvvm_key(i);
    let link = link_options(
        arch_option(i.arch.sm_text()),
        false,
        i.allow_fma_contraction,
        true,
    );
    assert(link =~= seq![
        arch_option(i.arch.sm_text()),
        "-lto"@,
        "-O3"@,
        fma_option(i.allow_fma_contraction),
    ]);
    assert(key[14].value == encode_utf8(link[0]));
    assert(key[15].value == encode_utf8(link[1]));
    assert(key[16].value == encode_utf8(link[2]));
    assert(key[17].value == encode_utf8(link[3]));
}

/// The key of a build from LTOIR holds, in order, every option that the optimized
/// link is given.
pub proof fn ltoir_keys_hold_the_ordered_options(i: LtoirInputs)
    ensures
        ({
            let key = ltoir_key(i);
            let link = link_options(
                arch_option(i.arch.sm_text()),
                false,
                i.allow_fma_contraction,
                true,
            );
            &&& link.len() == 4
            &&& forall|k: int|
                0 <= k < 4 ==> #[trigger] key[6 + k].value == encode_utf8(link[k])
        }),
{
    let key = ltoir_key(i);
    let link = link_options(
        arch_option(i.arch.sm_text()),
        false,
        i.allow_fma_contraction,
        true,
    );
    assert(link =~= seq![
        arch_option(i.arch.sm_text()),
        "-lto"@,
        "-O3"@,
        fma_option(i.allow_fma_contraction),
    ]);
    assert(key[6].value == encode_utf8(link[0]));
    assert(key[7].value == encode_utf8(link[1]));
    assert(key[8].value == encode_utf8(link[2]));
    assert(key[9].value == encode_utf8(link[3]));
}

/// The build that a plan to load a module makes.
pub open spec fn planned_build(plan: LoadPlan) -> Option<BuildPlan> {
    match plan {
        LoadPlan::File(_) => None,
        LoadPlan::BuildFile(file) => Some(file.build),
        LoadPlan::Build { source_dir, plan } => Some(plan),
    }
}

/// A build for loading goes through the cache exactly where its output is a native
/// cubin, and then the device has the compute capability that the artifact was emitted
/// for. A bridge to a newer device is never cached.
pub proof fn only_native_builds_are_cached(
    r: Result<LoadPlan, LtoirError>,
    dir: Seq<char>,
    name: Seq<char>,
    probe: ArtifactProbe,
    inputs: LoadInputs,
    marker: Seq<char>,
)
    requires
        loads(r, dir, name, probe, inputs, marker),
        r is Ok,
    ensures
        planned_build(r->Ok_0) matches Some(build) ==> {
            &&& build.cached <==> build.output == BuildOutput::Cubin
            &&& build.cached ==> {
                &&& device_of(inputs.compute_capability) matches Ok(execution)
                &&& build.arch.capability == execution.capability
            }
        },
{
}

}
