//! Device code generation: from the functions that the compiler collected to the
//! artifact that is embedded in the host binary.
//!
//! The pipeline itself runs outside. [`generate_device_code`] checks what was
//! collected and says what the pipeline is asked for; [`complete_device_code`]
//! turns what came of it into the result.

use crate::abi_attrs::derive_arg_attrs;
use crate::abi_attrs::derived;
use crate::abi_attrs::ArgAbi;
use crate::arg_attrs::ArgAttrs;
use crate::debug_scopes::build_debug_source_scope_map;
use crate::debug_scopes::describes_body;
use crate::debug_scopes::BodyInfo;
use crate::device_extern::extern_type;
use crate::device_extern::rustc_ty_to_device_extern_type;
use crate::device_extern::DeviceExternAttrs;
use crate::device_extern::DeviceExternDecl;
use crate::device_extern::DeviceExternType;
use crate::device_extern::DeviceExternTypePosition;
use crate::device_extern::RustTy;
use crate::paths::file_name;
use crate::paths::file_name_of;
use crate::pipeline::default_output_dir;
use crate::pipeline::output_dir_or_dot;
use crate::pipeline::CollectedFunction;
use crate::pipeline::CompilationArtifactKind;
use crate::pipeline::CompilationResult;
use crate::pipeline::DebugKind;
use crate::pipeline::PipelineConfig;
use crate::text::ascii_lowered;
use crate::text::copy_bytes;
use crate::text::copy_text;
use crate::text::decimal;
use crate::text::opt_text;
use crate::text::push_decimal;
use crate::text::str_eq;
use crate::text::to_ascii_lowercase;
use crate::text::trim;
use crate::text::trimmed;
use vstd::prelude::*;
use vstd::utf8::decode_utf8;
use vstd::utf8::valid_utf8;

verus! {

broadcast use vstd::string::group_string_axioms;

// ---------------------------------------------------------------------------
// Inputs and outputs
// ---------------------------------------------------------------------------

/// The format of a device artifact.
#[derive(Debug, Clone, Copy, PartialEq, Eq, Structural)]
pub enum DeviceCodegenArtifactKind {
    /// Textual PTX.
    Ptx,
    /// NVVM IR.
    NvvmIr,
    /// Binary LTOIR.
    Ltoir,
    /// A cubin image.
    Cubin,
}

/// A device artifact to embed.
#[derive(Debug)]
pub struct DeviceCodegenArtifact {
    /// Its format.
    pub kind: DeviceCodegenArtifactKind,
    /// Its name.
    pub name: String,
    /// Its contents.
    pub bytes: Vec<u8>,
}

/// What device code generation produced.
#[derive(Debug)]
pub struct DeviceCodegenResult {
    /// Path of the PTX.
    pub ptx_path: String,
    /// Path of the LLVM IR.
    pub ll_path: String,
    /// Target architecture.
    pub target: String,
    /// The PTX, where PTX was produced.
    pub ptx_content: Option<String>,
    /// The artifact to embed, where there is one.
    pub artifact: Option<DeviceCodegenArtifact>,
    /// Whether later stages may contract multiplications and additions.
    pub allow_fma_contraction: bool,
}

/// Configuration of device code generation.
#[derive(Debug)]
pub struct DeviceCodegenConfig {
    /// Directory of the output files.
    pub output_dir: String,
    /// Base name of the output files.
    pub output_name: String,
    /// Whether progress is reported.
    pub verbose: bool,
    /// Whether the compiler's own representation is dumped.
    pub dump_rustc_mir: bool,
    /// Whether the translated module is dumped.
    pub dump_mir_dialect: bool,
    /// Whether the lowered module is dumped.
    pub dump_llvm_dialect: bool,
}

impl DeviceCodegenConfig {
    /// The default configuration of a process whose current directory has this path:
    /// that directory, the name `kernel`, and no reports or dumps.
    pub fn default(current_dir: Option<String>) -> (r: DeviceCodegenConfig)
        ensures
            r.output_dir@ == default_output_dir(current_dir),
            r.output_name@ == "kernel"@,
            !r.verbose,
            !r.dump_rustc_mir,
            !r.dump_mir_dialect,
            !r.dump_llvm_dialect,
    {
        DeviceCodegenConfig {
            output_dir: output_dir_or_dot(current_dir),
            output_name: "kernel".to_owned(),
            verbose: false,
            dump_rustc_mir: false,
            dump_mir_dialect: false,
            dump_llvm_dialect: false,
        }
    }
}

/// Why device code generation failed.
#[derive(Debug)]
pub enum DeviceCodegenError {
    /// There is nothing to compile.
    NoKernels,
    /// The compiler's stable interface could not be entered.
    StableMirError(String),
    /// A function could not be translated.
    Translation(String),
    /// The pipeline failed.
    PtxGeneration(String),
    /// The signature of an external device function cannot be expressed.
    InvalidDeviceExternSignature(String),
    /// A file could not be read.
    Io(String),
}

/// What [`DeviceCodegenError`] says.
pub enum DeviceErrorView {
    /// There is nothing to compile.
    NoKernels,
    /// The compiler's stable interface could not be entered.
    StableMirError(Seq<char>),
    /// A function could not be translated.
    Translation(Seq<char>),
    /// The pipeline failed.
    PtxGeneration(Seq<char>),
    /// The signature of an external device function cannot be expressed.
    InvalidDeviceExternSignature(Seq<char>),
    /// A file could not be read.
    Io(Seq<char>),
}

impl View for DeviceCodegenError {
    type V = DeviceErrorView;

    open spec fn view(&self) -> DeviceErrorView {
        match self {
            DeviceCodegenError::NoKernels => DeviceErrorView::NoKernels,
            DeviceCodegenError::StableMirError(s) => DeviceErrorView::StableMirError(s@),
            DeviceCodegenError::Translation(s) => DeviceErrorView::Translation(s@),
            DeviceCodegenError::PtxGeneration(s) => DeviceErrorView::PtxGeneration(s@),
            DeviceCodegenError::InvalidDeviceExternSignature(s) => {
                DeviceErrorView::InvalidDeviceExternSignature(s@)
            },
            DeviceCodegenError::Io(s) => DeviceErrorView::Io(s@),
        }
    }
}

impl DeviceErrorView {
    /// The message of the error.
    pub open spec fn text(self) -> Seq<char> {
        match self {
            DeviceErrorView::NoKernels => "No kernel functions found"@,
            DeviceErrorView::StableMirError(s) => "stable_mir error: "@ + s,
            DeviceErrorView::Translation(s) => "Translation failed: "@ + s,
            DeviceErrorView::PtxGeneration(s) => "PTX generation failed: "@ + s,
            DeviceErrorView::InvalidDeviceExternSignature(s) => {
                "Invalid device-extern signature: "@ + s
            },
            DeviceErrorView::Io(s) => "IO error: "@ + s,
        }
    }
}

fn prefixed(head: &str, tail: &str) -> (r: String)
    ensures
        r@ == head@ + tail@,
{
    let mut r = head.to_owned();
    r.append(tail);
    r
}

impl DeviceCodegenError {
    /// The message of the error.
    pub fn message(&self) -> (r: String)
        ensures
            r@ == self@.text(),
    {
        match self {
            DeviceCodegenError::NoKernels => "No kernel functions found".to_owned(),
            DeviceCodegenError::StableMirError(s) => prefixed("stable_mir error: ", s.as_str()),
            DeviceCodegenError::Translation(s) => prefixed("Translation failed: ", s.as_str()),
            DeviceCodegenError::PtxGeneration(s) => prefixed("PTX generation failed: ", s.as_str()),
            DeviceCodegenError::InvalidDeviceExternSignature(s) => prefixed(
                "Invalid device-extern signature: ",
                s.as_str(),
            ),
            DeviceCodegenError::Io(s) => prefixed("IO error: ", s.as_str()),
        }
    }
}

/// The inlining hint of a function.
#[derive(Debug, Clone, Copy, PartialEq, Eq, Structural)]
pub enum InlineAttr {
    /// No hint.
    NoHint,
    /// Suggested.
    Hint,
    /// Always.
    Always,
    /// Never.
    Never,
    /// Always, and an error where it is impossible.
    Force,
}

/// A function that the compiler collected for the device.
#[derive(Debug)]
pub struct DeviceFunction {
    /// The monomorphic instance, as the compiler front end numbers it.
    pub instance: u64,
    /// The name to export.
    pub export_name: String,
    /// Whether it is a kernel entry point.
    pub is_kernel: bool,
    /// Its inlining hint.
    pub inline: InlineAttr,
    /// Its source scopes and locations.
    pub body: BodyInfo,
    /// Its computed calling convention, where there is one.
    pub fn_abi: Option<Vec<ArgAbi>>,
}

/// An external device function with its Rust signature.
#[derive(Debug)]
pub struct DeviceExternSig {
    /// The name to export.
    pub export_name: String,
    /// Whether its calling convention is that of C without unwinding.
    pub is_c_without_unwind: bool,
    /// How diagnostics show its calling convention.
    pub abi_shown: String,
    /// Whether it is variadic.
    pub c_variadic: bool,
    /// Types of the parameters.
    pub inputs: Vec<RustTy>,
    /// Type of the result.
    pub output: RustTy,
    /// What else is known of it.
    pub attrs: DeviceExternAttrs,
}

/// How much debug information the host code gets.
#[derive(Debug, Clone, Copy, PartialEq, Eq, Structural)]
pub enum DebugInfo {
    /// None.
    NoInfo,
    /// Line directives only.
    LineDirectivesOnly,
    /// Line tables only.
    LineTablesOnly,
    /// Without variables.
    Limited,
    /// All.
    Full,
}

/// What the compilation session and its environment ask for.
#[derive(Debug)]
pub struct SessionEnv {
    /// Whether NVVM IR is asked for.
    pub emit_nvvm_ir: bool,
    /// The request for device debug information.
    pub debug_override: Option<String>,
    /// Debug information of the host code.
    pub debuginfo: DebugInfo,
    /// Explicit target.
    pub target: Option<String>,
    /// Architecture of the local device.
    pub device_arch: Option<String>,
    /// Whether contraction is switched off.
    pub no_fma: bool,
}

/// What the pipeline is asked for.
#[derive(Debug)]
pub struct DeviceCodegenRequest {
    /// The functions.
    pub functions: Vec<CollectedFunction>,
    /// The external device functions.
    pub device_externs: Vec<DeviceExternDecl>,
    /// The configuration.
    pub config: PipelineConfig,
}

/// What came of reading a file.
#[derive(Debug)]
pub enum FileRead {
    /// Its contents.
    Contents(Vec<u8>),
    /// There is no such file.
    NotFound,
    /// It could not be read, for this reason.
    Failed(String),
}

// ---------------------------------------------------------------------------
// Debug information
// ---------------------------------------------------------------------------

/// The request for device debug information that a text makes, where it makes one.
pub open spec fn requested_debug(value: Seq<char>) -> Option<DebugKind> {
    let word = ascii_lowered(trimmed(value));
    if word == "0"@ || word == "off"@ || word == "none"@ {
        Some(DebugKind::Off)
    } else if word == "1"@ || word == "line"@ || word == "lines"@ || word == "line-tables"@ || word
        == "line-tables-only"@ {
        Some(DebugKind::LineTables)
    } else if word == "2"@ || word == "full"@ {
        Some(DebugKind::Full)
    } else {
        None
    }
}

/// The device debug information: what is requested, and none otherwise, whatever
/// the host code gets.
pub open spec fn debug_kind_for(override_value: Option<Seq<char>>) -> DebugKind {
    match override_value {
        Some(value) => match requested_debug(value) {
            Some(kind) => kind,
            None => DebugKind::Off,
        },
        None => DebugKind::Off,
    }
}

/// The device debug information for a host setting and a request.
pub fn device_debug_kind_with_override(
    rustc_debug: DebugInfo,
    override_value: Option<&str>,
) -> (r: DebugKind)
    ensures
        r == debug_kind_for(
            match override_value {
                Some(value) => Some(value@),
                None => None,
            },
        ),
{
    if let Some(value) = override_value {
        let trimmed = trim(value);
        let lowered = to_ascii_lowercase(trimmed.as_str());
        let word: &str = lowered.as_str();
        if str_eq(word, "0") || str_eq(word, "off") || str_eq(word, "none") {
            return DebugKind::Off;
        }
        if str_eq(word, "1") || str_eq(word, "line") || str_eq(word, "lines") || str_eq(
            word,
            "line-tables",
        ) || str_eq(word, "line-tables-only") {
            return DebugKind::LineTables;
        }
        if str_eq(word, "2") || str_eq(word, "full") {
            return DebugKind::Full;
        }
    }
    match rustc_debug {
        DebugInfo::NoInfo => DebugKind::Off,
        DebugInfo::LineDirectivesOnly => DebugKind::Off,
        DebugInfo::LineTablesOnly => DebugKind::Off,
        DebugInfo::Limited => DebugKind::Off,
        DebugInfo::Full => DebugKind::Off,
    }
}

/// The device debug information of a session.
pub fn device_debug_kind(env: &SessionEnv) -> (r: DebugKind)
    ensures
        r == debug_kind_for(opt_text(env.debug_override)),
{
    match &env.debug_override {
        Some(value) => device_debug_kind_with_override(env.debuginfo, Some(value.as_str())),
        None => device_debug_kind_with_override(env.debuginfo, None),
    }
}

// ---------------------------------------------------------------------------
// External device functions
// ---------------------------------------------------------------------------

/// Why the first parameter from the `i`-th on cannot be expressed.
pub open spec fn input_failure(name: Seq<char>, inputs: Seq<RustTy>, i: nat) -> Option<Seq<char>>
    decreases inputs.len() - i,
{
    if i >= inputs.len() {
        None
    } else {
        match extern_type(inputs[i as int], DeviceExternTypePosition::Parameter) {
            Ok(_) => input_failure(name, inputs, i + 1),
            Err(reason) => Some(
                "`"@ + name + "` parameter "@ + decimal(i) + " (`"@ + inputs[i as int].shown@
                    + "`): "@ + reason,
            ),
        }
    }
}

/// Why the signature of an external device function cannot be expressed.
pub open spec fn signature_failure(sig: DeviceExternSig) -> Option<Seq<char>> {
    if !sig.is_c_without_unwind {
        Some(
            "`"@ + sig.export_name@ + "` uses ABI "@ + sig.abi_shown@
                + "; device externs must use `extern \"C\"` without unwinding"@,
        )
    } else if sig.c_variadic {
        Some(
            "`"@ + sig.export_name@
                + "` is variadic; variadic device externs are not supported"@,
        )
    } else if input_failure(sig.export_name@, sig.inputs@, 0) is Some {
        input_failure(sig.export_name@, sig.inputs@, 0)
    } else {
        match extern_type(sig.output, DeviceExternTypePosition::Result) {
            Ok(_) => None,
            Err(reason) => Some(
                "`"@ + sig.export_name@ + "` result (`"@ + sig.output.shown@ + "`): "@ + reason,
            ),
        }
    }
}

/// Why the first external device function from the `i`-th on cannot be declared.
pub open spec fn externs_failure(externs: Seq<DeviceExternSig>, i: nat) -> Option<Seq<char>>
    decreases externs.len() - i,
{
    if i >= externs.len() {
        None
    } else {
        match signature_failure(externs[i as int]) {
            Some(message) => Some(message),
            None => externs_failure(externs, i + 1),
        }
    }
}

/// `decl` declares the function of `sig`.
pub open spec fn declares(decl: DeviceExternDecl, sig: DeviceExternSig) -> bool {
    &&& decl.export_name@ == sig.export_name@
    &&& decl.attrs == sig.attrs
    &&& decl.param_types@.len() == sig.inputs@.len()
    &&& forall|i: int|
        0 <= i < sig.inputs@.len() ==> extern_type(
            #[trigger] sig.inputs@[i],
            DeviceExternTypePosition::Parameter,
        ) == Ok::<DeviceExternType, Seq<char>>(decl.param_types@[i])
    &&& extern_type(sig.output, DeviceExternTypePosition::Result) == Ok::<
        DeviceExternType,
        Seq<char>,
    >(decl.return_type)
}

/// Expresses the signature of an external device function.
pub fn convert_device_extern(sig: &DeviceExternSig) -> (r: Result<
    DeviceExternDecl,
    DeviceCodegenError,
>)
    ensures
        match r {
            Ok(decl) => signature_failure(*sig) is None && declares(decl, *sig),
            Err(error) => signature_failure(*sig) is Some && error@
                == DeviceErrorView::InvalidDeviceExternSignature(signature_failure(*sig)->0),
        },
{
    let name: &str = sig.export_name.as_str();
    if !sig.is_c_without_unwind {
        let mut message = "`".to_owned();
        message.append(name);
        message.append("` uses ABI ");
        message.append(sig.abi_shown.as_str());
        message.append("; device externs must use `extern \"C\"` without unwinding");
        return Err(DeviceCodegenError::InvalidDeviceExternSignature(message));
    }
    if sig.c_variadic {
        let mut message = "`".to_owned();
        message.append(name);
        message.append("` is variadic; variadic device externs are not supported");
        return Err(DeviceCodegenError::InvalidDeviceExternSignature(message));
    }
    let mut param_types: Vec<DeviceExternType> = Vec::new();
    let mut i: usize = 0;
    while i < sig.inputs.len()
        invariant
            i <= sig.inputs.len(),
            name@ == sig.export_name@,
            sig.is_c_without_unwind,
            !sig.c_variadic,
            param_types@.len() == i,
            forall|k: int|
                0 <= k < i ==> extern_type(
                    #[trigger] sig.inputs@[k],
                    DeviceExternTypePosition::Parameter,
                ) == Ok::<DeviceExternType, Seq<char>>(param_types@[k]),
            input_failure(name@, sig.inputs@, 0) == input_failure(name@, sig.inputs@, i as nat),
        decreases sig.inputs.len() - i,
    {
        let ty = &sig.inputs[i];
        match rustc_ty_to_device_extern_type(ty, DeviceExternTypePosition::Parameter) {
            Ok(converted) => {
                param_types.push(converted);
            },
            Err(reason) => {
                let mut message = "`".to_owned();
                message.append(name);
                message.append("` parameter ");
                push_decimal(&mut message, i as u64);
                message.append(" (`");
                message.append(ty.shown.as_str());
                message.append("`): ");
                message.append(reason.as_str());
                return Err(DeviceCodegenError::InvalidDeviceExternSignature(message));
            },
        }
        i += 1;
    }
    match rustc_ty_to_device_extern_type(&sig.output, DeviceExternTypePosition::Result) {
        Ok(return_type) => Ok(
            DeviceExternDecl {
                export_name: sig.export_name.clone(),
                param_types,
                return_type,
                attrs: sig.attrs,
            },
        ),
        Err(reason) => {
            let mut message = "`".to_owned();
            message.append(name);
            message.append("` result (`");
            message.append(sig.output.shown.as_str());
            message.append("`): ");
            message.append(reason.as_str());
            Err(DeviceCodegenError::InvalidDeviceExternSignature(message))
        },
    }
}

// ---------------------------------------------------------------------------
// What the pipeline is asked for
// ---------------------------------------------------------------------------

/// The attributes of the parameters of a function.
pub open spec fn function_attrs(fn_abi: Option<Vec<ArgAbi>>) -> Seq<Option<ArgAttrs>> {
    match fn_abi {
        Some(args) => args@.map_values(|arg: ArgAbi| derived(arg)),
        None => seq![],
    }
}

/// `to` is the request for the function `from`.
pub open spec fn collects(to: CollectedFunction, from: DeviceFunction) -> bool {
    &&& to.instance == from.instance
    &&& to.is_kernel == from.is_kernel
    &&& to.export_name@ == from.export_name@
    &&& to.is_inline_always == (from.inline == InlineAttr::Always || from.inline
        == InlineAttr::Force)
    &&& to.arg_attrs@ == function_attrs(from.fn_abi)
    &&& to.debug_source_scopes matches Some(map) && describes_body(map, from.body)
}

/// `to` is the configuration that `config` and `env` ask for.
pub open spec fn configures(
    to: PipelineConfig,
    config: DeviceCodegenConfig,
    env: SessionEnv,
) -> bool {
    &&& to.output_dir@ == config.output_dir@
    &&& to.output_name@ == config.output_name@
    &&& to.verbose == config.verbose
    &&& to.show_mir_dialect == config.dump_mir_dialect
    &&& to.show_llvm_dialect == config.dump_llvm_dialect
    &&& to.emit_nvvm_ir == env.emit_nvvm_ir
    &&& opt_text(to.target_arch) == opt_text(env.target)
    &&& opt_text(to.device_arch_hint) == opt_text(env.device_arch)
    &&& to.debug_kind == debug_kind_for(opt_text(env.debug_override))
    &&& to.allow_fma_contraction == !env.no_fma
}

/// The configuration of the pipeline.
pub fn pipeline_config(config: &DeviceCodegenConfig, env: &SessionEnv) -> (r: PipelineConfig)
    ensures
        configures(r, *config, *env),
{
    PipelineConfig {
        output_dir: config.output_dir.clone(),
        output_name: config.output_name.clone(),
        verbose: config.verbose,
        show_mir_dialect: config.dump_mir_dialect,
        show_llvm_dialect: config.dump_llvm_dialect,
        emit_nvvm_ir: env.emit_nvvm_ir,
        target_arch: copy_text(&env.target),
        device_arch_hint: copy_text(&env.device_arch),
        debug_kind: device_debug_kind(env),
        allow_fma_contraction: !env.no_fma,
    }
}

fn collect_function(function: &DeviceFunction) -> (r: CollectedFunction)
    requires
        function.body.scopes@.len() <= u32::MAX,
    ensures
        collects(r, *function),
{
    let arg_attrs = derive_arg_attrs(&function.fn_abi);
    assert(arg_attrs@ =~= function_attrs(function.fn_abi));
    CollectedFunction {
        instance: function.instance,
        is_kernel: function.is_kernel,
        export_name: function.export_name.clone(),
        debug_source_scopes: Some(build_debug_source_scope_map(&function.body)),
        is_inline_always: match function.inline {
            InlineAttr::Always => true,
            InlineAttr::Force => true,
            _ => false,
        },
        arg_attrs,
    }
}

/// Checks what the compiler collected and says what the pipeline is asked for.
///
/// Fails where nothing was collected, and where the signature of an external
/// device function cannot be expressed exactly.
pub fn generate_device_code(
    functions: &Vec<DeviceFunction>,
    device_externs: &Vec<DeviceExternSig>,
    config: &DeviceCodegenConfig,
    env: &SessionEnv,
) -> (r: Result<DeviceCodegenRequest, DeviceCodegenError>)
    requires
        forall|i: int|
            0 <= i < functions@.len() ==> (#[trigger] functions@[i]).body.scopes@.len() <= u32::MAX,
    ensures
        match r {
            Ok(request) => {
                &&& functions@.len() > 0
                &&& externs_failure(device_externs@, 0) is None
                &&& request.functions@.len() == functions@.len()
                &&& forall|i: int|
                    0 <= i < functions@.len() ==> collects(
                        #[trigger] request.functions@[i],
                        functions@[i],
                    )
                &&& request.device_externs@.len() == device_externs@.len()
                &&& forall|i: int|
                    0 <= i < device_externs@.len() ==> declares(
                        #[trigger] request.device_externs@[i],
                        device_externs@[i],
                    )
                &&& configures(request.config, *config, *env)
            },
            Err(error) => if functions@.len() == 0 {
                error@ == DeviceErrorView::NoKernels
            } else {
                externs_failure(device_externs@, 0) is Some && error@
                    == DeviceErrorView::InvalidDeviceExternSignature(
                    externs_failure(device_externs@, 0)->0,
                )
            },
        },
{
    if functions.is_empty() {
        return Err(DeviceCodegenError::NoKernels);
    }
    let mut externs: Vec<DeviceExternDecl> = Vec::new();
    let mut i: usize = 0;
    while i < device_externs.len()
        invariant
            functions@.len() > 0,
            i <= device_externs.len(),
            externs@.len() == i,
            forall|k: int|
                0 <= k < i ==> declares(#[trigger] externs@[k], device_externs@[k]),
            externs_failure(device_externs@, 0) == externs_failure(device_externs@, i as nat),
        decreases device_externs.len() - i,
    {
        match convert_device_extern(&device_externs[i]) {
            Ok(decl) => {
                externs.push(decl);
            },
            Err(error) => {
                return Err(error);
            },
        }
        i += 1;
    }
    let mut collected: Vec<CollectedFunction> = Vec::new();
    let mut i: usize = 0;
    while i < functions.len()
        invariant
            i <= functions.len(),
            forall|i: int|
                0 <= i < functions@.len() ==> (#[trigger] functions@[i]).body.scopes@.len()
                    <= u32::MAX,
            collected@.len() == i,
            forall|k: int| 0 <= k < i ==> collects(#[trigger] collected@[k], functions@[k]),
        decreases functions.len() - i,
    {
        collected.push(collect_function(&functions[i]));
        i += 1;
    }
    Ok(
        DeviceCodegenRequest {
            functions: collected,
            device_externs: externs,
            config: pipeline_config(config, env),
        },
    )
}

// ---------------------------------------------------------------------------
// What came of the pipeline
// ---------------------------------------------------------------------------

/// Why bytes are no UTF-8 text.
pub uninterp spec fn utf8_error_text(bytes: Seq<u8>) -> Seq<char>;

/// `String::from_utf8`: the text that the bytes encode, where they are UTF-8. What
/// the error says depends on the bytes alone; its wording is left unsaid.
#[verifier::external_body]
fn string_from_utf8(bytes: Vec<u8>) -> (r: Result<String, String>)
    ensures
        match r {
            Ok(s) => valid_utf8(bytes@) && s@ == decode_utf8(bytes@),
            Err(message) => !valid_utf8(bytes@) && message@ == utf8_error_text(bytes@),
        },
{
    String::from_utf8(bytes).map_err(|e| format!("{e}"))
}

/// The artifact format that stands for a compilation format.
pub open spec fn artifact_kind_for(kind: CompilationArtifactKind) -> DeviceCodegenArtifactKind {
    match kind {
        CompilationArtifactKind::Ptx => DeviceCodegenArtifactKind::Ptx,
        CompilationArtifactKind::NvvmIr => DeviceCodegenArtifactKind::NvvmIr,
        CompilationArtifactKind::Ltoir => DeviceCodegenArtifactKind::Ltoir,
        CompilationArtifactKind::Cubin => DeviceCodegenArtifactKind::Cubin,
    }
}

/// The name of an artifact: the file name of its path.
pub open spec fn artifact_name_for(path: Seq<char>) -> Seq<char> {
    match file_name_of(path) {
        Some(name) => name,
        None => "device-artifact"@,
    }
}

/// `artifact` holds the artifact of `result` with these contents.
pub open spec fn holds_artifact(
    artifact: DeviceCodegenArtifact,
    result: CompilationResult,
    bytes: Seq<u8>,
) -> bool {
    &&& artifact.kind == artifact_kind_for(result.artifact_kind)
    &&& artifact.name@ == artifact_name_for(result.artifact_path@)
    &&& artifact.bytes@ == bytes
}

/// Makes the artifact that a compilation declared from what came of reading its
/// file. A missing file is no artifact, and no other file takes its place.
pub fn read_compilation_artifact(result: &CompilationResult, file: FileRead) -> (r: Result<
    Option<DeviceCodegenArtifact>,
    DeviceCodegenError,
>)
    ensures
        match (file, r) {
            (FileRead::Contents(bytes), Ok(Some(artifact))) => holds_artifact(
                artifact,
                *result,
                bytes@,
            ),
            (FileRead::NotFound, Ok(None)) => true,
            (FileRead::Failed(reason), Err(error)) => error@ == DeviceErrorView::Io(reason@),
            _ => false,
        },
{
    let kind = match result.artifact_kind {
        CompilationArtifactKind::Ptx => DeviceCodegenArtifactKind::Ptx,
        CompilationArtifactKind::NvvmIr => DeviceCodegenArtifactKind::NvvmIr,
        CompilationArtifactKind::Ltoir => DeviceCodegenArtifactKind::Ltoir,
        CompilationArtifactKind::Cubin => DeviceCodegenArtifactKind::Cubin,
    };
    match file {
        FileRead::Contents(bytes) => {
            let name = match file_name(result.artifact_path.as_str()) {
                Some(name) => name,
                None => "device-artifact".to_owned(),
            };
            Ok(Some(DeviceCodegenArtifact { kind, name, bytes }))
        },
        FileRead::NotFound => Ok(None),
        FileRead::Failed(reason) => Err(DeviceCodegenError::Io(reason)),
    }
}

/// The PTX of an artifact, or why it has none to show.
pub open spec fn ptx_of(kind: CompilationArtifactKind, bytes: Seq<u8>) -> Result<
    Option<Seq<char>>,
    DeviceErrorView,
> {
    if kind != CompilationArtifactKind::Ptx {
        Ok(None)
    } else if valid_utf8(bytes) {
        Ok(Some(decode_utf8(bytes)))
    } else {
        Err(
            DeviceErrorView::PtxGeneration(
                "generated PTX is not valid UTF-8: "@ + utf8_error_text(bytes),
            ),
        )
    }
}

/// `r` passes on the paths, the target and the policy of `compiled`.
pub open spec fn passes_on(r: DeviceCodegenResult, compiled: CompilationResult) -> bool {
    &&& r.ptx_path@ == compiled.ptx_path@
    &&& r.ll_path@ == compiled.ll_path@
    &&& r.target@ == compiled.target@
    &&& r.allow_fma_contraction == compiled.allow_fma_contraction
}

/// What a compiled module and the reading of its artifact come to.
pub open spec fn completes(
    r: Result<DeviceCodegenResult, DeviceCodegenError>,
    compiled: CompilationResult,
    file: FileRead,
) -> bool {
    match file {
        FileRead::Failed(reason) => r matches Err(error) && error@ == DeviceErrorView::Io(reason@),
        FileRead::NotFound => r matches Ok(done) && passes_on(done, compiled)
            && done.artifact is None && done.ptx_content is None,
        FileRead::Contents(bytes) => match ptx_of(compiled.artifact_kind, bytes@) {
            Err(failure) => r matches Err(error) && error@ == failure,
            Ok(ptx) => {
                &&& r matches Ok(done)
                &&& passes_on(done, compiled)
                &&& opt_text(done.ptx_content) == ptx
                &&& done.artifact matches Some(artifact) && holds_artifact(
                    artifact,
                    compiled,
                    bytes@,
                )
            },
        },
    }
}

/// Turns the outcome of the pipeline, and of reading the artifact it declared,
/// into the result of device code generation.
pub fn complete_device_code(
    outcome: Result<Result<CompilationResult, String>, String>,
    file: FileRead,
) -> (r: Result<DeviceCodegenResult, DeviceCodegenError>)
    ensures
        match outcome {
            Err(reason) => r matches Err(error) && error@ == DeviceErrorView::StableMirError(
                reason@,
            ),
            Ok(Err(reason)) => r matches Err(error) && error@ == DeviceErrorView::PtxGeneration(
                reason@,
            ),
            Ok(Ok(compiled)) => completes(r, compiled, file),
        },
{
    let compiled = match outcome {
        Err(reason) => {
            return Err(DeviceCodegenError::StableMirError(reason));
        },
        Ok(Err(reason)) => {
            return Err(DeviceCodegenError::PtxGeneration(reason));
        },
        Ok(Ok(compiled)) => compiled,
    };
    let artifact = match read_compilation_artifact(&compiled, file) {
        Ok(artifact) => artifact,
        Err(error) => {
            return Err(error);
        },
    };
    let ptx_content = match &artifact {
        Some(found) => {
            if found.kind == DeviceCodegenArtifactKind::Ptx {
                match string_from_utf8(copy_bytes(found.bytes.as_slice())) {
                    Ok(text) => Some(text),
                    Err(reason) => {
                        return Err(
                            DeviceCodegenError::PtxGeneration(
                                prefixed("generated PTX is not valid UTF-8: ", reason.as_str()),
                            ),
                        );
                    },
                }
            } else {
                None
            }
        },
        None => None,
    };
    Ok(
        DeviceCodegenResult {
            ptx_path: compiled.ptx_path,
            ll_path: compiled.ll_path,
            target: compiled.target,
            ptx_content,
            artifact,
            allow_fma_contraction: compiled.allow_fma_contraction,
        },
    )
}

// ---------------------------------------------------------------------------
// Laws
// ---------------------------------------------------------------------------

/// Without a request that is understood, the device code gets no debug
/// information.
pub proof fn debug_information_is_opt_in(value: Option<Seq<char>>)
    requires
        debug_kind_for(value) != DebugKind::Off,
    ensures
        value is Some,
        requested_debug(value->0) == Some(debug_kind_for(value)),
{
}

/// PTX text is shown exactly where the declared artifact is PTX and was read.
pub proof fn only_ptx_is_shown_as_text(
    r: Result<DeviceCodegenResult, DeviceCodegenError>,
    compiled: CompilationResult,
    file: FileRead,
)
    requires
        completes(r, compiled, file),
        r is Ok,
    ensures
        r->Ok_0.ptx_content is Some <==> compiled.artifact_kind == CompilationArtifactKind::Ptx
            && file is Contents,
{
}

}
