//! The compilation pipeline from collected functions to a device artifact.
//!
//! Translation, verification and code generation are done by the caller. This
//! module decides what is done when: [`run_pipeline`] takes the outcome of the
//! last step and gives the next one. Files are named here and written by the
//! caller.

use crate::arg_attrs::carrier_of;
use crate::arg_attrs::no_param_attrs;
use crate::arg_attrs::ArgAttrs;
use crate::arg_attrs::LlvmParamAttrsAttr;
use crate::arg_attrs::ARG_ATTRS_KEY;
use crate::debug_scopes::DebugSourceScopeMap;
use crate::device_extern::DeviceExternDecl;
use crate::identifier::is_identifier;
use crate::identifier::try_identifier;
use crate::ir::AttrObj;
use crate::ir::AttributeDict;
use crate::paths::join_path;
use crate::paths::joined_path;
use crate::text::copy_text;
use crate::text::opt_text;
use vstd::prelude::*;

verus! {

broadcast use vstd::string::group_string_axioms;

// ---------------------------------------------------------------------------
// Inputs and outputs
// ---------------------------------------------------------------------------

/// How much debug information the device code gets.
#[derive(Debug, Clone, Copy, PartialEq, Eq, Structural)]
pub enum DebugKind {
    /// None.
    Off,
    /// Line tables.
    LineTables,
    /// Line tables and variables.
    Full,
}

/// A function collected for GPU compilation.
#[derive(Debug)]
pub struct CollectedFunction {
    /// The monomorphic instance, as the compiler front end numbers it.
    pub instance: u64,
    /// Whether it is a kernel entry point.
    pub is_kernel: bool,
    /// The name to export.
    pub export_name: String,
    /// Source scopes, where they are known.
    pub debug_source_scopes: Option<DebugSourceScopeMap>,
    /// Whether it is always inlined.
    pub is_inline_always: bool,
    /// Parameter attributes, one entry per source parameter.
    pub arg_attrs: Vec<Option<ArgAttrs>>,
}

/// The format of a device artifact.
#[derive(Debug, Clone, Copy, PartialEq, Eq, Structural)]
pub enum CompilationArtifactKind {
    /// Textual PTX.
    Ptx,
    /// NVVM IR.
    NvvmIr,
    /// Binary LTOIR.
    Ltoir,
    /// A cubin image.
    Cubin,
}

/// What a successful compilation produced.
#[derive(Debug)]
pub struct CompilationResult {
    /// Path of the LLVM IR.
    pub ll_path: String,
    /// Path of the PTX.
    pub ptx_path: String,
    /// Path of the artifact to embed.
    pub artifact_path: String,
    /// Format of the artifact.
    pub artifact_kind: CompilationArtifactKind,
    /// Target architecture.
    pub target: String,
    /// Whether later stages may contract multiplications and additions.
    pub allow_fma_contraction: bool,
}

/// Configuration of the pipeline.
#[derive(Debug)]
pub struct PipelineConfig {
    /// Directory of the output files.
    pub output_dir: String,
    /// Base name of the output files.
    pub output_name: String,
    /// Whether progress is reported.
    pub verbose: bool,
    /// Whether the translated module is dumped.
    pub show_mir_dialect: bool,
    /// Whether the lowered module is dumped.
    pub show_llvm_dialect: bool,
    /// Whether NVVM IR is emitted.
    pub emit_nvvm_ir: bool,
    /// Explicit target.
    pub target_arch: Option<String>,
    /// Architecture of the local device, used without an explicit target.
    pub device_arch_hint: Option<String>,
    /// Device debug information.
    pub debug_kind: DebugKind,
    /// Whether multiplications and additions may be contracted.
    pub allow_fma_contraction: bool,
}

/// The directory that output goes to: the current one, or `.` where its path is
/// unknown.
pub open spec fn default_output_dir(current_dir: Option<String>) -> Seq<char> {
    match current_dir {
        Some(dir) => dir@,
        None => "."@,
    }
}

/// The directory that output goes to, given the path of the current one.
pub(crate) fn output_dir_or_dot(current_dir: Option<String>) -> (r: String)
    ensures
        r@ == default_output_dir(current_dir),
{
    match current_dir {
        Some(dir) => dir,
        None => ".".to_owned(),
    }
}

impl PipelineConfig {
    /// The default configuration of a process whose current directory has this path:
    /// that directory, the name `kernel`, progress reports, and contraction allowed.
    pub fn default(current_dir: Option<String>) -> (r: PipelineConfig)
        ensures
            r.output_dir@ == default_output_dir(current_dir),
            r.output_name@ == "kernel"@,
            r.verbose,
            !r.show_mir_dialect,
            !r.show_llvm_dialect,
            !r.emit_nvvm_ir,
            r.target_arch is None,
            r.device_arch_hint is None,
            r.debug_kind == DebugKind::Off,
            r.allow_fma_contraction,
    {
        PipelineConfig {
            output_dir: output_dir_or_dot(current_dir),
            output_name: "kernel".to_owned(),
            verbose: true,
            show_mir_dialect: false,
            show_llvm_dialect: false,
            emit_nvvm_ir: false,
            target_arch: None,
            device_arch_hint: None,
            debug_kind: DebugKind::Off,
            allow_fma_contraction: true,
        }
    }
}

/// Why a pipeline failed.
#[derive(Debug)]
pub enum PipelineError {
    /// A function has no body.
    NoBody(String),
    /// A function could not be translated.
    Translation(String),
    /// An output could not be written.
    Export(String),
    /// Verification or code generation failed.
    Backend(String),
}

/// Options of the code generator.
#[derive(Debug)]
pub struct BackendOptions {
    /// Explicit target.
    pub target_arch: Option<String>,
    /// Architecture of the local device.
    pub device_arch_hint: Option<String>,
    /// Whether progress is reported.
    pub verbose: bool,
    /// Whether contraction is off.
    pub no_fma: bool,
}

/// Texts of the sidecar files that go with NVVM IR.
#[derive(Debug)]
pub struct SidecarText {
    /// The line that marks a target file as complete.
    pub marker: String,
    /// What the options file says where contraction is allowed.
    pub contraction_on: String,
    /// What the options file says where contraction is not allowed.
    pub contraction_off: String,
}

impl SidecarText {
    /// What the options file says of a contraction policy.
    pub open spec fn options(self, allow_fma_contraction: bool) -> Seq<char> {
        if allow_fma_contraction {
            self.contraction_on@
        } else {
            self.contraction_off@
        }
    }
}

/// The format that the code generator produced.
#[derive(Debug, Clone, Copy, PartialEq, Eq, Structural)]
pub enum ModuleArtifactKind {
    /// NVVM IR.
    NvvmIr,
    /// PTX.
    Ptx,
}

/// What the code generator produced.
#[derive(Debug)]
pub struct GeneratedModule {
    /// The format.
    pub artifact_kind: ModuleArtifactKind,
    /// The resolved target.
    pub target: String,
}

/// What the code generator is asked for.
#[derive(Debug)]
pub struct CompileRequest<'a> {
    /// The external device functions to declare.
    pub device_externs: &'a Vec<DeviceExternDecl>,
    /// Whether NVVM IR is wanted.
    pub emit_nvvm_ir: bool,
    /// Options.
    pub backend: BackendOptions,
    /// Device debug information.
    pub debug_kind: DebugKind,
    /// Path of the LLVM IR.
    pub ll_path: String,
    /// Path of the PTX.
    pub ptx_path: String,
    /// Files to remove before anything is written.
    pub stale: Vec<String>,
    /// Whether progress is reported.
    pub verbose: bool,
    /// Whether the translated module is dumped.
    pub dump_mir: bool,
    /// Whether the lowered module is dumped.
    pub dump_llvm: bool,
}

// ---------------------------------------------------------------------------
// Views
// ---------------------------------------------------------------------------

/// What [`CompilationResult`] holds.
pub struct ResultView {
    /// Path of the LLVM IR.
    pub ll_path: Seq<char>,
    /// Path of the PTX.
    pub ptx_path: Seq<char>,
    /// Path of the artifact to embed.
    pub artifact_path: Seq<char>,
    /// Format of the artifact.
    pub artifact_kind: CompilationArtifactKind,
    /// Target architecture.
    pub target: Seq<char>,
    /// Whether later stages may contract.
    pub allow_fma_contraction: bool,
}

impl View for CompilationResult {
    type V = ResultView;

    open spec fn view(&self) -> ResultView {
        ResultView {
            ll_path: self.ll_path@,
            ptx_path: self.ptx_path@,
            artifact_path: self.artifact_path@,
            artifact_kind: self.artifact_kind,
            target: self.target@,
            allow_fma_contraction: self.allow_fma_contraction,
        }
    }
}

/// What [`BackendOptions`] holds.
pub struct OptionsView {
    /// Explicit target.
    pub target_arch: Option<Seq<char>>,
    /// Architecture of the local device.
    pub device_arch_hint: Option<Seq<char>>,
    /// Whether progress is reported.
    pub verbose: bool,
    /// Whether contraction is off.
    pub no_fma: bool,
}

impl View for BackendOptions {
    type V = OptionsView;

    open spec fn view(&self) -> OptionsView {
        OptionsView {
            target_arch: opt_text(self.target_arch),
            device_arch_hint: opt_text(self.device_arch_hint),
            verbose: self.verbose,
            no_fma: self.no_fma,
        }
    }
}

/// What [`CompileRequest`] holds.
pub struct RequestView {
    /// The external device functions to declare.
    pub device_externs: Seq<DeviceExternDecl>,
    /// Whether NVVM IR is wanted.
    pub emit_nvvm_ir: bool,
    /// Options.
    pub backend: OptionsView,
    /// Device debug information.
    pub debug_kind: DebugKind,
    /// Path of the LLVM IR.
    pub ll_path: Seq<char>,
    /// Path of the PTX.
    pub ptx_path: Seq<char>,
    /// Files to remove before anything is written.
    pub stale: Seq<Seq<char>>,
    /// Whether progress is reported.
    pub verbose: bool,
    /// Whether the translated module is dumped.
    pub dump_mir: bool,
    /// Whether the lowered module is dumped.
    pub dump_llvm: bool,
}

impl<'a> View for CompileRequest<'a> {
    type V = RequestView;

    open spec fn view(&self) -> RequestView {
        RequestView {
            device_externs: self.device_externs@,
            emit_nvvm_ir: self.emit_nvvm_ir,
            backend: self.backend@,
            debug_kind: self.debug_kind,
            ll_path: self.ll_path@,
            ptx_path: self.ptx_path@,
            stale: crate::text::texts(self.stale@),
            verbose: self.verbose,
            dump_mir: self.dump_mir,
            dump_llvm: self.dump_llvm,
        }
    }
}

/// What [`PipelineError`] says.
pub enum ErrorView {
    /// A function has no body.
    NoBody(Seq<char>),
    /// A function could not be translated.
    Translation(Seq<char>),
    /// An output could not be written.
    Export(Seq<char>),
    /// Verification or code generation failed.
    Backend(Seq<char>),
}

impl View for PipelineError {
    type V = ErrorView;

    open spec fn view(&self) -> ErrorView {
        match self {
            PipelineError::NoBody(s) => ErrorView::NoBody(s@),
            PipelineError::Translation(s) => ErrorView::Translation(s@),
            PipelineError::Export(s) => ErrorView::Export(s@),
            PipelineError::Backend(s) => ErrorView::Backend(s@),
        }
    }
}

// ---------------------------------------------------------------------------
// Pieces
// ---------------------------------------------------------------------------

/// The carriers of a function's parameter attributes, one per source parameter.
pub open spec fn carriers(arg_attrs: Seq<Option<ArgAttrs>>) -> Seq<Option<LlvmParamAttrsAttr>> {
    arg_attrs.map_values(
        |slot: Option<ArgAttrs>|
            match slot {
                Some(attrs) => Some(carrier_of(attrs)),
                None => Some(no_param_attrs()),
            },
    )
}

/// No parameter has attributes.
pub open spec fn nothing_to_stamp(arg_attrs: Seq<Option<ArgAttrs>>) -> bool {
    forall|i: int| 0 <= i < arg_attrs.len() ==> (#[trigger] arg_attrs[i]) is None
}

/// Puts the carriers of a function's parameter attributes on its operation, unless
/// no parameter has any.
pub fn stamp_source_arg_attrs(attributes: &mut AttributeDict, arg_attrs: &Vec<Option<ArgAttrs>>)
    ensures
        nothing_to_stamp(arg_attrs@) ==> *final(attributes) == *old(attributes),
        !nothing_to_stamp(arg_attrs@) ==> (final(attributes).lookup("llvm_arg_attrs"@) matches Some(
            AttrObj::Params(list),
        ) && list@ == carriers(arg_attrs@)),
        forall|key: Seq<char>|
            key != "llvm_arg_attrs"@ ==> #[trigger] final(attributes).lookup(key) == old(
                attributes,
            ).lookup(key),
        old(attributes).wf() ==> final(attributes).wf(),
{
    let mut any: bool = false;
    let mut list: Vec<Option<LlvmParamAttrsAttr>> = Vec::new();
    let mut i: usize = 0;
    while i < arg_attrs.len()
        invariant
            i <= arg_attrs.len(),
            list@ == carriers(arg_attrs@).take(i as int),
            any <==> exists|k: int| 0 <= k < i && (#[trigger] arg_attrs@[k]) is Some,
        decreases arg_attrs.len() - i,
    {
        match &arg_attrs[i] {
            Some(attrs) => {
                any = true;
                assert(arg_attrs@[i as int] is Some);
                list.push(Some(LlvmParamAttrsAttr::from(attrs)));
            },
            None => {
                list.push(Some(LlvmParamAttrsAttr::default()));
            },
        }
        i += 1;
        assert(list@ =~= carriers(arg_attrs@).take(i as int));
    }
    assert(list@ =~= carriers(arg_attrs@));
    if !any {
        assert(nothing_to_stamp(arg_attrs@));
        return;
    }
    assert(!nothing_to_stamp(arg_attrs@));
    attributes.set(ARG_ATTRS_KEY, AttrObj::Params(list));
}

/// The exporter reads back what was stamped: the carrier of each parameter's
/// attributes, and an empty carrier where a parameter has none.
pub proof fn exporter_reads_what_was_stamped(
    attributes: AttributeDict,
    arg_attrs: Seq<Option<ArgAttrs>>,
    list: Vec<Option<LlvmParamAttrsAttr>>,
    i: int,
)
    requires
        attributes.lookup("llvm_arg_attrs"@) == Some(AttrObj::Params(list)),
        list@ == carriers(arg_attrs),
        0 <= i < arg_attrs.len(),
    ensures
        crate::function::flat_param_attrs(attributes).len() == arg_attrs.len(),
        crate::function::flat_param_attrs(attributes)[i] == (match arg_attrs[i] {
            Some(attrs) => carrier_of(attrs),
            None => no_param_attrs(),
        }),
{
}

/// `name` followed by a dot and `suffix`.
pub open spec fn output_file_name(name: Seq<char>, suffix: Seq<char>) -> Seq<char> {
    name + "."@ + suffix
}

/// The path of an output file.
pub open spec fn output_file(dir: Seq<char>, name: Seq<char>, suffix: Seq<char>) -> Seq<char> {
    joined_path(dir, output_file_name(name, suffix))
}

fn output_path(dir: &str, name: &str, suffix: &str) -> (r: String)
    ensures
        r@ == output_file(dir@, name@, suffix@),
{
    let mut file = name.to_owned();
    file.append(".");
    file.append(suffix);
    join_path(dir, file.as_str())
}

/// The suffixes of the files that a run may leave behind.
pub open spec fn artifact_suffixes() -> Seq<Seq<char>> {
    seq!["ll"@, "ptx"@, "target"@, "options"@, "ltoir"@, "cubin"@, "cubin.target"@]
}

/// The files that an earlier run may have left behind.
pub open spec fn stale_paths(dir: Seq<char>, name: Seq<char>) -> Seq<Seq<char>> {
    artifact_suffixes().map_values(|suffix: Seq<char>| output_file(dir, name, suffix))
}

/// The files that an earlier run may have left behind.
pub fn stale_compilation_artifact_paths(output_dir: &str, output_name: &str) -> (r: Vec<String>)
    ensures
        crate::text::texts(r@) == stale_paths(output_dir@, output_name@),
{
    let mut r: Vec<String> = Vec::new();
    r.push(output_path(output_dir, output_name, "ll"));
    r.push(output_path(output_dir, output_name, "ptx"));
    r.push(output_path(output_dir, output_name, "target"));
    r.push(output_path(output_dir, output_name, "options"));
    r.push(output_path(output_dir, output_name, "ltoir"));
    r.push(output_path(output_dir, output_name, "cubin"));
    r.push(output_path(output_dir, output_name, "cubin.target"));
    assert(crate::text::texts(r@) =~= stale_paths(output_dir@, output_name@));
    r
}

/// The name of the module: the output name where it is an identifier.
pub open spec fn module_name_for(output_name: Seq<char>) -> Seq<char> {
    if is_identifier(output_name) {
        output_name
    } else {
        "kernel"@
    }
}

/// The name of the module.
pub fn module_name(output_name: &String) -> (r: String)
    ensures
        r@ == module_name_for(output_name@),
{
    match try_identifier(output_name.clone()) {
        Some(name) => name,
        None => "kernel".to_owned(),
    }
}

/// The options of the code generator: the configuration wins over what the
/// environment asks for.
pub open spec fn resolved_options(config: PipelineConfig, env: BackendOptions) -> OptionsView {
    OptionsView {
        target_arch: opt_text(
            if config.target_arch is Some {
                config.target_arch
            } else {
                env.target_arch
            },
        ),
        device_arch_hint: opt_text(
            if config.device_arch_hint is Some {
                config.device_arch_hint
            } else {
                env.device_arch_hint
            },
        ),
        verbose: env.verbose || config.verbose,
        no_fma: !config.allow_fma_contraction,
    }
}

/// The options of the code generator.
pub fn resolve_options(config: &PipelineConfig, env: &BackendOptions) -> (r: BackendOptions)
    ensures
        r@ == resolved_options(*config, *env),
{
    BackendOptions {
        target_arch: if config.target_arch.is_some() {
            copy_text(&config.target_arch)
        } else {
            copy_text(&env.target_arch)
        },
        device_arch_hint: if config.device_arch_hint.is_some() {
            copy_text(&config.device_arch_hint)
        } else {
            copy_text(&env.device_arch_hint)
        },
        verbose: env.verbose || config.verbose,
        no_fma: !config.allow_fma_contraction,
    }
}

/// What the code generator is asked for.
pub open spec fn request_for(
    device_externs: Seq<DeviceExternDecl>,
    config: PipelineConfig,
    env: BackendOptions,
) -> RequestView {
    let dir = config.output_dir@;
    let name = config.output_name@;
    RequestView {
        device_externs,
        emit_nvvm_ir: config.emit_nvvm_ir,
        backend: resolved_options(config, env),
        debug_kind: config.debug_kind,
        ll_path: output_file(dir, name, "ll"@),
        ptx_path: output_file(dir, name, "ptx"@),
        stale: stale_paths(dir, name),
        verbose: config.verbose,
        dump_mir: config.show_mir_dialect,
        dump_llvm: config.show_llvm_dialect,
    }
}

fn compile_request<'a>(
    device_externs: &'a Vec<DeviceExternDecl>,
    config: &PipelineConfig,
    env: &BackendOptions,
) -> (r: CompileRequest<'a>)
    ensures
        r@ == request_for(device_externs@, *config, *env),
{
    let dir: &str = config.output_dir.as_str();
    let name: &str = config.output_name.as_str();
    CompileRequest {
        device_externs,
        emit_nvvm_ir: config.emit_nvvm_ir,
        backend: resolve_options(config, env),
        debug_kind: config.debug_kind,
        ll_path: output_path(dir, name, "ll"),
        ptx_path: output_path(dir, name, "ptx"),
        stale: stale_compilation_artifact_paths(dir, name),
        verbose: config.verbose,
        dump_mir: config.show_mir_dialect,
        dump_llvm: config.show_llvm_dialect,
    }
}

/// The result of a run that produced `kind` for `target`.
pub open spec fn result_for(
    config: PipelineConfig,
    kind: ModuleArtifactKind,
    target: Seq<char>,
) -> ResultView {
    let ll_path = output_file(config.output_dir@, config.output_name@, "ll"@);
    let ptx_path = output_file(config.output_dir@, config.output_name@, "ptx"@);
    ResultView {
        ll_path,
        ptx_path,
        artifact_path: match kind {
            ModuleArtifactKind::NvvmIr => ll_path,
            ModuleArtifactKind::Ptx => ptx_path,
        },
        artifact_kind: match kind {
            ModuleArtifactKind::NvvmIr => CompilationArtifactKind::NvvmIr,
            ModuleArtifactKind::Ptx => CompilationArtifactKind::Ptx,
        },
        target,
        allow_fma_contraction: config.allow_fma_contraction,
    }
}

fn compilation_result(config: &PipelineConfig, generated: GeneratedModule) -> (r: CompilationResult)
    ensures
        r@ == result_for(*config, generated.artifact_kind, generated.target@),
{
    let ll_path = output_path(config.output_dir.as_str(), config.output_name.as_str(), "ll");
    let ptx_path = output_path(config.output_dir.as_str(), config.output_name.as_str(), "ptx");
    let (artifact_path, artifact_kind) = match generated.artifact_kind {
        ModuleArtifactKind::NvvmIr => (ll_path.clone(), CompilationArtifactKind::NvvmIr),
        ModuleArtifactKind::Ptx => (ptx_path.clone(), CompilationArtifactKind::Ptx),
    };
    CompilationResult {
        ll_path,
        ptx_path,
        artifact_path,
        artifact_kind,
        target: generated.target,
        allow_fma_contraction: config.allow_fma_contraction,
    }
}

/// What the target file says: the target, and that the options file is complete.
pub open spec fn target_sidecar(target: Seq<char>, marker: Seq<char>) -> Seq<char> {
    target + "\n"@ + marker + "\n"@
}

fn target_sidecar_text(target: &str, marker: &str) -> (r: String)
    ensures
        r@ == target_sidecar(target@, marker@),
{
    let mut r = target.to_owned();
    r.append("\n");
    r.append(marker);
    r.append("\n");
    r
}

fn failure_text(head: &str, subject: &str, reason: &str) -> (r: String)
    ensures
        r@ == head@ + subject@ + ": "@ + reason@,
{
    let mut r = head.to_owned();
    r.append(subject);
    r.append(": ");
    r.append(reason);
    r
}

// ---------------------------------------------------------------------------
// The run
// ---------------------------------------------------------------------------

/// What a run is waiting for.
#[derive(Debug)]
pub enum PipelineStage {
    /// The output directory is being created.
    Preparing,
    /// The module is being created.
    CreatingModule,
    /// The function at this position is being translated.
    Translating(usize),
    /// The function at this position is being stamped.
    Stamping(usize),
    /// The function at this position is being dumped.
    Dumping(usize),
    /// The function at this position is being verified.
    Verifying(usize),
    /// The function at this position is being appended to the module.
    Appending(usize),
    /// The module is being compiled.
    Compiling,
    /// The options file is being written.
    RecordingOptions(GeneratedModule),
    /// The target file is being written.
    RecordingTarget(GeneratedModule),
    /// Nothing more: the run has ended.
    Ended,
}

/// The outcome of the last step.
#[derive(Debug)]
pub enum PipelineEvent {
    /// It succeeded.
    Done,
    /// The function to translate has no body.
    NoBody,
    /// The module was compiled.
    Generated(GeneratedModule),
    /// It failed, for this reason.
    Failed(String),
}

/// The next step.
#[derive(Debug)]
pub enum PipelineAction<'a> {
    /// Create this directory and those above it.
    CreateDirectory(String),
    /// Create a module of this name.
    CreateModule(String),
    /// Translate the function at this position with this much debug information.
    Translate {
        /// The position.
        function: usize,
        /// The debug information.
        debug_kind: DebugKind,
    },
    /// Stamp the parameter attributes of the function at this position on its
    /// operation.
    Stamp(usize),
    /// Print the operation of the function at this position.
    Dump(usize),
    /// Verify the operation of the function at this position.
    Verify(usize),
    /// Append the operation of the function at this position to the module.
    Append(usize),
    /// Compile the module.
    Compile(CompileRequest<'a>),
    /// Write this text to this path.
    Write {
        /// The path.
        path: String,
        /// The text.
        text: String,
    },
    /// The run succeeded.
    Finish(CompilationResult),
    /// The run failed.
    Fail(PipelineError),
}

/// What [`PipelineStage`] says.
pub enum StageView {
    /// The output directory is being created.
    Preparing,
    /// The module is being created.
    CreatingModule,
    /// The function at this position is being translated.
    Translating(nat),
    /// The function at this position is being stamped.
    Stamping(nat),
    /// The function at this position is being dumped.
    Dumping(nat),
    /// The function at this position is being verified.
    Verifying(nat),
    /// The function at this position is being appended to the module.
    Appending(nat),
    /// The module is being compiled.
    Compiling,
    /// The options file is being written.
    RecordingOptions(ModuleArtifactKind, Seq<char>),
    /// The target file is being written.
    RecordingTarget(ModuleArtifactKind, Seq<char>),
    /// Nothing more: the run has ended.
    Ended,
}

impl View for PipelineStage {
    type V = StageView;

    open spec fn view(&self) -> StageView {
        match self {
            PipelineStage::Preparing => StageView::Preparing,
            PipelineStage::CreatingModule => StageView::CreatingModule,
            PipelineStage::Translating(i) => StageView::Translating(*i as nat),
            PipelineStage::Stamping(i) => StageView::Stamping(*i as nat),
            PipelineStage::Dumping(i) => StageView::Dumping(*i as nat),
            PipelineStage::Verifying(i) => StageView::Verifying(*i as nat),
            PipelineStage::Appending(i) => StageView::Appending(*i as nat),
            PipelineStage::Compiling => StageView::Compiling,
            PipelineStage::RecordingOptions(g) => StageView::RecordingOptions(
                g.artifact_kind,
                g.target@,
            ),
            PipelineStage::RecordingTarget(g) => StageView::RecordingTarget(
                g.artifact_kind,
                g.target@,
            ),
            PipelineStage::Ended => StageView::Ended,
        }
    }
}

/// What [`PipelineAction`] says.
pub enum ActionView {
    /// Create this directory and those above it.
    CreateDirectory(Seq<char>),
    /// Create a module of this name.
    CreateModule(Seq<char>),
    /// Translate the function at this position with this much debug information.
    Translate {
        /// The position.
        function: nat,
        /// The debug information.
        debug_kind: DebugKind,
    },
    /// Stamp the parameter attributes of the function at this position on its
    /// operation.
    Stamp(nat),
    /// Print the operation of the function at this position.
    Dump(nat),
    /// Verify the operation of the function at this position.
    Verify(nat),
    /// Append the operation of the function at this position to the module.
    Append(nat),
    /// Compile the module.
    Compile(RequestView),
    /// Write this text to this path.
    Write {
        /// The path.
        path: Seq<char>,
        /// The text.
        text: Seq<char>,
    },
    /// The run succeeded.
    Finish(ResultView),
    /// The run failed.
    Fail(ErrorView),
}

impl<'a> View for PipelineAction<'a> {
    type V = ActionView;

    open spec fn view(&self) -> ActionView {
        match self {
            PipelineAction::CreateDirectory(dir) => ActionView::CreateDirectory(dir@),
            PipelineAction::CreateModule(name) => ActionView::CreateModule(name@),
            PipelineAction::Translate { function, debug_kind } => ActionView::Translate {
                function: *function as nat,
                debug_kind: *debug_kind,
            },
            PipelineAction::Stamp(i) => ActionView::Stamp(*i as nat),
            PipelineAction::Dump(i) => ActionView::Dump(*i as nat),
            PipelineAction::Verify(i) => ActionView::Verify(*i as nat),
            PipelineAction::Append(i) => ActionView::Append(*i as nat),
            PipelineAction::Compile(request) => ActionView::Compile(request@),
            PipelineAction::Write { path, text } => ActionView::Write { path: path@, text: text@ },
            PipelineAction::Finish(result) => ActionView::Finish(result@),
            PipelineAction::Fail(error) => ActionView::Fail(error@),
        }
    }
}

/// A stage and the step that leads out of it.
pub struct StepView {
    /// The stage.
    pub stage: StageView,
    /// The step.
    pub action: ActionView,
}

/// The event may come in the stage.
pub open spec fn may_follow(stage: PipelineStage, event: PipelineEvent, functions: nat) -> bool {
    match stage {
        PipelineStage::CreatingModule => event is Done,
        PipelineStage::Translating(i) => i < functions && !(event is Generated),
        PipelineStage::Stamping(i) => i < functions && event is Done,
        PipelineStage::Dumping(i) => i < functions && event is Done,
        PipelineStage::Verifying(i) => i < functions && (event is Done || event is Failed),
        PipelineStage::Appending(i) => i < functions && event is Done,
        PipelineStage::Compiling => event is Generated || event is Failed,
        PipelineStage::Ended => false,
        _ => event is Done || event is Failed,
    }
}

/// The run ends with `error`.
pub open spec fn failed_step(error: ErrorView) -> StepView {
    StepView { stage: StageView::Ended, action: ActionView::Fail(error) }
}

/// The step that takes up the function at `i`, or the module where all functions
/// are in it.
pub open spec fn take_up(
    functions: nat,
    device_externs: Seq<DeviceExternDecl>,
    config: PipelineConfig,
    env: BackendOptions,
    i: nat,
) -> StepView {
    if i < functions {
        StepView {
            stage: StageView::Translating(i),
            action: ActionView::Translate { function: i, debug_kind: config.debug_kind },
        }
    } else {
        StepView {
            stage: StageView::Compiling,
            action: ActionView::Compile(request_for(device_externs, config, env)),
        }
    }
}

/// The step that verifies the function at `i`.
pub open spec fn verify_step(i: nat) -> StepView {
    StepView { stage: StageView::Verifying(i), action: ActionView::Verify(i) }
}

/// The step that ends a run with what was generated.
pub open spec fn finished_step(
    config: PipelineConfig,
    kind: ModuleArtifactKind,
    target: Seq<char>,
) -> StepView {
    StepView {
        stage: StageView::Ended,
        action: ActionView::Finish(result_for(config, kind, target)),
    }
}

/// The step that follows `event` in `stage`.
pub open spec fn next_step(
    functions: Seq<CollectedFunction>,
    device_externs: Seq<DeviceExternDecl>,
    config: PipelineConfig,
    env: BackendOptions,
    sidecars: SidecarText,
    stage: PipelineStage,
    event: PipelineEvent,
) -> StepView {
    let dir = config.output_dir@;
    let name = config.output_name@;
    let reason = match event {
        PipelineEvent::Failed(reason) => reason@,
        _ => ""@,
    };
    match stage {
        PipelineStage::Preparing => if event is Failed {
            failed_step(
                ErrorView::Export(
                    "failed to create output directory "@ + dir + ": "@ + reason,
                ),
            )
        } else {
            StepView {
                stage: StageView::CreatingModule,
                action: ActionView::CreateModule(module_name_for(name)),
            }
        },
        PipelineStage::CreatingModule => take_up(functions.len(), device_externs, config, env, 0),
        PipelineStage::Translating(i) => match event {
            PipelineEvent::NoBody => failed_step(
                ErrorView::NoBody(functions[i as int].export_name@),
            ),
            PipelineEvent::Failed(_) => failed_step(
                ErrorView::Translation(functions[i as int].export_name@ + ": "@ + reason),
            ),
            _ => StepView {
                stage: StageView::Stamping(i as nat),
                action: ActionView::Stamp(i as nat),
            },
        },
        PipelineStage::Stamping(i) => if config.show_mir_dialect {
            StepView { stage: StageView::Dumping(i as nat), action: ActionView::Dump(i as nat) }
        } else {
            verify_step(i as nat)
        },
        PipelineStage::Dumping(i) => verify_step(i as nat),
        PipelineStage::Verifying(i) => if event is Failed {
            failed_step(ErrorView::Backend(reason))
        } else {
            StepView {
                stage: StageView::Appending(i as nat),
                action: ActionView::Append(i as nat),
            }
        },
        PipelineStage::Appending(i) => take_up(
            functions.len(),
            device_externs,
            config,
            env,
            (i + 1) as nat,
        ),
        PipelineStage::Compiling => match event {
            PipelineEvent::Generated(generated) => match generated.artifact_kind {
                ModuleArtifactKind::NvvmIr => StepView {
                    stage: StageView::RecordingOptions(
                        generated.artifact_kind,
                        generated.target@,
                    ),
                    action: ActionView::Write {
                        path: output_file(dir, name, "options"@),
                        text: sidecars.options(config.allow_fma_contraction),
                    },
                },
                ModuleArtifactKind::Ptx => finished_step(
                    config,
                    generated.artifact_kind,
                    generated.target@,
                ),
            },
            _ => failed_step(ErrorView::Backend(reason)),
        },
        PipelineStage::RecordingOptions(generated) => if event is Failed {
            failed_step(
                ErrorView::Export(
                    "failed to record NVVM compile options in "@ + output_file(
                        dir,
                        name,
                        "options"@,
                    ) + ": "@ + reason,
                ),
            )
        } else {
            StepView {
                stage: StageView::RecordingTarget(generated.artifact_kind, generated.target@),
                action: ActionView::Write {
                    path: output_file(dir, name, "target"@),
                    text: target_sidecar(generated.target@, sidecars.marker@),
                },
            }
        },
        PipelineStage::RecordingTarget(generated) => if event is Failed {
            failed_step(
                ErrorView::Export(
                    "failed to record NVVM target in "@ + output_file(dir, name, "target"@)
                        + ": "@ + reason,
                ),
            )
        } else {
            finished_step(config, generated.artifact_kind, generated.target@)
        },
        PipelineStage::Ended => failed_step(ErrorView::Backend(reason)),
    }
}

/// The first step of a run: the output directory has to exist before anything is
/// written.
pub fn start_pipeline<'a>(config: &PipelineConfig) -> (r: (PipelineStage, PipelineAction<'a>))
    ensures
        r.0@ == StageView::Preparing,
        r.1@ == ActionView::CreateDirectory(config.output_dir@),
{
    (PipelineStage::Preparing, PipelineAction::CreateDirectory(config.output_dir.clone()))
}

fn fail_with<'a>(error: PipelineError) -> (r: (PipelineStage, PipelineAction<'a>))
    ensures
        r.0@ == StageView::Ended,
        r.1@ == ActionView::Fail(error@),
{
    (PipelineStage::Ended, PipelineAction::Fail(error))
}

fn take_up_function<'a>(
    functions: &Vec<CollectedFunction>,
    device_externs: &'a Vec<DeviceExternDecl>,
    config: &PipelineConfig,
    env: &BackendOptions,
    i: usize,
) -> (r: (PipelineStage, PipelineAction<'a>))
    ensures
        (StepView { stage: r.0@, action: r.1@ }) == take_up(
            functions@.len(),
            device_externs@,
            *config,
            *env,
            i as nat,
        ),
{
    if i < functions.len() {
        (
            PipelineStage::Translating(i),
            PipelineAction::Translate { function: i, debug_kind: config.debug_kind },
        )
    } else {
        (PipelineStage::Compiling, PipelineAction::Compile(compile_request(device_externs, config, env)))
    }
}

/// Runs the pipeline by one step: takes the outcome of the last one and gives the
/// next.
///
/// The directory is created, the module is created, every function is translated,
/// stamped, dumped where that is asked for, verified and appended in order, and the
/// module is compiled. A function is dumped before it is verified, so that it can be
/// seen where verification fails. Where NVVM IR comes out, the options file is written and then the target file, whose
/// marker says that the options are complete.
pub fn run_pipeline<'a>(
    functions: &Vec<CollectedFunction>,
    device_externs: &'a Vec<DeviceExternDecl>,
    config: &PipelineConfig,
    env: &BackendOptions,
    sidecars: &SidecarText,
    stage: PipelineStage,
    event: PipelineEvent,
) -> (r: (PipelineStage, PipelineAction<'a>))
    requires
        may_follow(stage, event, functions@.len()),
    ensures
        (StepView { stage: r.0@, action: r.1@ }) == next_step(
            functions@,
            device_externs@,
            *config,
            *env,
            *sidecars,
            stage,
            event,
        ),
{
    let dir: &str = config.output_dir.as_str();
    let name: &str = config.output_name.as_str();
    match stage {
        PipelineStage::Preparing => match event {
            PipelineEvent::Failed(reason) => fail_with(
                PipelineError::Export(
                    failure_text("failed to create output directory ", dir, reason.as_str()),
                ),
            ),
            _ => (
                PipelineStage::CreatingModule,
                PipelineAction::CreateModule(module_name(&config.output_name)),
            ),
        },
        PipelineStage::CreatingModule => take_up_function(
            functions,
            device_externs,
            config,
            env,
            0,
        ),
        PipelineStage::Translating(i) => match event {
            PipelineEvent::NoBody => fail_with(
                PipelineError::NoBody(functions[i].export_name.clone()),
            ),
            PipelineEvent::Failed(reason) => {
                let mut message = functions[i].export_name.clone();
                message.append(": ");
                message.append(reason.as_str());
                fail_with(PipelineError::Translation(message))
            },
            _ => (PipelineStage::Stamping(i), PipelineAction::Stamp(i)),
        },
        PipelineStage::Stamping(i) => {
            if config.show_mir_dialect {
                (PipelineStage::Dumping(i), PipelineAction::Dump(i))
            } else {
                (PipelineStage::Verifying(i), PipelineAction::Verify(i))
            }
        },
        PipelineStage::Dumping(i) => (PipelineStage::Verifying(i), PipelineAction::Verify(i)),
        PipelineStage::Verifying(i) => match event {
            PipelineEvent::Failed(reason) => fail_with(PipelineError::Backend(reason)),
            _ => (PipelineStage::Appending(i), PipelineAction::Append(i)),
        },
        PipelineStage::Appending(i) => {
            let count: usize = functions.len();
            assert(i < count);
            take_up_function(functions, device_externs, config, env, i + 1)
        },
        PipelineStage::Compiling => match event {
            PipelineEvent::Generated(generated) => match generated.artifact_kind {
                ModuleArtifactKind::NvvmIr => (
                    PipelineStage::RecordingOptions(generated),
                    PipelineAction::Write {
                        path: output_path(dir, name, "options"),
                        text: if config.allow_fma_contraction {
                            sidecars.contraction_on.clone()
                        } else {
                            sidecars.contraction_off.clone()
                        },
                    },
                ),
                ModuleArtifactKind::Ptx => (
                    PipelineStage::Ended,
                    PipelineAction::Finish(compilation_result(config, generated)),
                ),
            },
            PipelineEvent::Failed(reason) => fail_with(PipelineError::Backend(reason)),
            _ => fail_with(PipelineError::Backend("".to_owned())),
        },
        PipelineStage::RecordingOptions(generated) => match event {
            PipelineEvent::Failed(reason) => fail_with(
                PipelineError::Export(
                    failure_text(
                        "failed to record NVVM compile options in ",
                        output_path(dir, name, "options").as_str(),
                        reason.as_str(),
                    ),
                ),
            ),
            _ => {
                let text = target_sidecar_text(
                    generated.target.as_str(),
                    sidecars.marker.as_str(),
                );
                (
                    PipelineStage::RecordingTarget(generated),
                    PipelineAction::Write { path: output_path(dir, name, "target"), text },
                )
            },
        },
        PipelineStage::RecordingTarget(generated) => match event {
            PipelineEvent::Failed(reason) => fail_with(
                PipelineError::Export(
                    failure_text(
                        "failed to record NVVM target in ",
                        output_path(dir, name, "target").as_str(),
                        reason.as_str(),
                    ),
                ),
            ),
            _ => (
                PipelineStage::Ended,
                PipelineAction::Finish(compilation_result(config, generated)),
            ),
        },
        PipelineStage::Ended => fail_with(PipelineError::Backend("".to_owned())),
    }
}

// ---------------------------------------------------------------------------
// Laws
// ---------------------------------------------------------------------------

/// The target file is written only once the options file has been: its marker is
/// the record that the run is complete.
pub proof fn target_is_recorded_after_options(
    functions: Seq<CollectedFunction>,
    device_externs: Seq<DeviceExternDecl>,
    config: PipelineConfig,
    env: BackendOptions,
    sidecars: SidecarText,
    stage: PipelineStage,
    event: PipelineEvent,
)
    requires
        may_follow(stage, event, functions.len()),
        next_step(functions, device_externs, config, env, sidecars, stage, event).stage is RecordingTarget,
    ensures
        stage is RecordingOptions,
        event is Done,
{
}

/// A run with NVVM IR ends well only once the target file has been written.
pub proof fn nvvm_runs_end_with_the_target(
    functions: Seq<CollectedFunction>,
    device_externs: Seq<DeviceExternDecl>,
    config: PipelineConfig,
    env: BackendOptions,
    sidecars: SidecarText,
    stage: PipelineStage,
    event: PipelineEvent,
)
    requires
        may_follow(stage, event, functions.len()),
        next_step(functions, device_externs, config, env, sidecars, stage, event).action matches ActionView::Finish(
            result,
        ) && result.artifact_kind == CompilationArtifactKind::NvvmIr,
    ensures
        stage is RecordingTarget,
        event is Done,
{
}

/// A run that generated PTX writes no file besides it.
pub proof fn ptx_runs_write_no_sidecar(
    functions: Seq<CollectedFunction>,
    device_externs: Seq<DeviceExternDecl>,
    config: PipelineConfig,
    env: BackendOptions,
    sidecars: SidecarText,
    generated: GeneratedModule,
)
    requires
        generated.artifact_kind == ModuleArtifactKind::Ptx,
    ensures
        next_step(
            functions,
            device_externs,
            config,
            env,
            sidecars,
            PipelineStage::Compiling,
            PipelineEvent::Generated(generated),
        ).action is Finish,
{
}

/// Whatever a run finishes with carries the contraction policy that was asked for,
/// and the code generator and the options file are told the same.
pub proof fn contraction_policy_is_kept(
    functions: Seq<CollectedFunction>,
    device_externs: Seq<DeviceExternDecl>,
    config: PipelineConfig,
    env: BackendOptions,
    sidecars: SidecarText,
    stage: PipelineStage,
    event: PipelineEvent,
)
    requires
        may_follow(stage, event, functions.len()),
    ensures
        match next_step(functions, device_externs, config, env, sidecars, stage, event).action {
            ActionView::Finish(result) => result.allow_fma_contraction
                == config.allow_fma_contraction,
            ActionView::Compile(request) => request.backend.no_fma
                == !config.allow_fma_contraction,
            _ => true,
        },
        next_step(
            functions,
            device_externs,
            config,
            env,
            sidecars,
            stage,
            event,
        ).stage is RecordingOptions ==> (next_step(
            functions,
            device_externs,
            config,
            env,
            sidecars,
            stage,
            event,
        ).action matches ActionView::Write { path, text } && text == sidecars.options(
            config.allow_fma_contraction,
        )),
{
}

/// The code generator is asked for exactly the external device functions that the run
/// was given.
pub proof fn device_externs_reach_the_code_generator(
    functions: Seq<CollectedFunction>,
    device_externs: Seq<DeviceExternDecl>,
    config: PipelineConfig,
    env: BackendOptions,
    sidecars: SidecarText,
    stage: PipelineStage,
    event: PipelineEvent,
)
    requires
        may_follow(stage, event, functions.len()),
        next_step(functions, device_externs, config, env, sidecars, stage, event).action is Compile,
    ensures
        next_step(
            functions,
            device_externs,
            config,
            env,
            sidecars,
            stage,
            event,
        ).action->Compile_0.device_externs == device_externs,
{
}

/// A function is dumped only where that is asked for, and then always before it is
/// verified; it is appended only once it was verified.
pub proof fn functions_are_dumped_before_verification(
    functions: Seq<CollectedFunction>,
    device_externs: Seq<DeviceExternDecl>,
    config: PipelineConfig,
    env: BackendOptions,
    sidecars: SidecarText,
    stage: PipelineStage,
    event: PipelineEvent,
)
    requires
        may_follow(stage, event, functions.len()),
    ensures
        match next_step(functions, device_externs, config, env, sidecars, stage, event).action {
            ActionView::Dump(i) => config.show_mir_dialect && stage@ == StageView::Stamping(i),
            ActionView::Verify(i) => stage@ == StageView::Dumping(i) || (!config.show_mir_dialect
                && stage@ == StageView::Stamping(i)),
            ActionView::Append(i) => stage@ == StageView::Verifying(i) && event is Done,
            _ => true,
        },
{
}

/// Every file that a run writes, and the artifact it finishes with, is among the
/// files that the next run removes first.
pub proof fn written_files_are_stale_for_the_next_run(
    functions: Seq<CollectedFunction>,
    device_externs: Seq<DeviceExternDecl>,
    config: PipelineConfig,
    env: BackendOptions,
    sidecars: SidecarText,
    stage: PipelineStage,
    event: PipelineEvent,
)
    requires
        may_follow(stage, event, functions.len()),
    ensures
        match next_step(functions, device_externs, config, env, sidecars, stage, event).action {
            ActionView::Write { path, text } => stale_paths(
                config.output_dir@,
                config.output_name@,
            ).contains(path),
            ActionView::Finish(result) => stale_paths(
                config.output_dir@,
                config.output_name@,
            ).contains(result.artifact_path),
            _ => true,
        },
{
    let stale = stale_paths(config.output_dir@, config.output_name@);
    assert(stale[0] == output_file(config.output_dir@, config.output_name@, "ll"@));
    assert(stale[1] == output_file(config.output_dir@, config.output_name@, "ptx"@));
    assert(stale[2] == output_file(config.output_dir@, config.output_name@, "target"@));
    assert(stale[3] == output_file(config.output_dir@, config.output_name@, "options"@));
}

/// How many steps a stage is from the end of a run at most.
pub open spec fn pipeline_steps_left(stage: StageView, functions: int) -> int {
    match stage {
        StageView::Preparing => 5 * functions + 5,
        StageView::CreatingModule => 5 * functions + 4,
        StageView::Translating(i) => 5 * (functions - i) + 3,
        StageView::Stamping(i) => 5 * (functions - i) + 2,
        StageView::Dumping(i) => 5 * (functions - i) + 1,
        StageView::Verifying(i) => 5 * (functions - i),
        StageView::Appending(i) => 5 * (functions - i) - 1,
        StageView::Compiling => 3,
        StageView::RecordingOptions(_, _) => 2,
        StageView::RecordingTarget(_, _) => 1,
        StageView::Ended => 0,
    }
}

/// Every step brings a run closer to its end, so each function is taken up once and
/// the run ends.
pub proof fn runs_end(
    functions: Seq<CollectedFunction>,
    device_externs: Seq<DeviceExternDecl>,
    config: PipelineConfig,
    env: BackendOptions,
    sidecars: SidecarText,
    stage: PipelineStage,
    event: PipelineEvent,
)
    requires
        may_follow(stage, event, functions.len()),
    ensures
        0 <= pipeline_steps_left(
            next_step(functions, device_externs, config, env, sidecars, stage, event).stage,
            functions.len() as int,
        ) < pipeline_steps_left(stage@, functions.len() as int),
{
}

}
