//! What is taken over from the compiler front end, value by value.

use crate::abi_attrs::decode;
use crate::abi_attrs::derive_arg_attrs;
use crate::abi_attrs::disjoint_slice_attrs;
use crate::abi_attrs::AdtInfo;
use crate::abi_attrs::ArgAbi;
use crate::abi_attrs::ArgAttributes;
use crate::abi_attrs::ArgExtension;
use crate::abi_attrs::PassMode;
use crate::arg_attrs::ArgAttrs;
use crate::arg_attrs::ArgExt;
use crate::arg_attrs::LlvmParamAttrsAttr;
use crate::device_codegen::complete_device_code;
use crate::device_codegen::convert_device_extern;
use crate::device_codegen::device_debug_kind_with_override;
use crate::device_codegen::generate_device_code;
use crate::device_codegen::pipeline_config;
use crate::device_codegen::DebugInfo;
use crate::device_codegen::DeviceCodegenArtifactKind;
use crate::device_codegen::DeviceCodegenConfig;
use crate::device_codegen::DeviceCodegenError;
use crate::device_codegen::DeviceCodegenRequest;
use crate::device_codegen::DeviceCodegenResult;
use crate::device_codegen::DeviceExternSig;
use crate::device_codegen::DeviceFunction;
use crate::device_codegen::FileRead;
use crate::device_codegen::InlineAttr;
use crate::device_codegen::SessionEnv;
use crate::device_extern::rustc_ty_to_device_extern_type;
use crate::device_extern::DeviceExternDecl;
use crate::device_extern::DeviceExternType;
use crate::device_extern::DeviceExternTypePosition;
use crate::device_extern::FloatTy;
use crate::device_extern::IntTy;
use crate::device_extern::RustTy;
use crate::device_extern::RustTyKind;
use crate::device_extern::UintTy;
use crate::ir::AttributeDict;
use crate::paths::file_name;
use crate::pipeline::stamp_source_arg_attrs;
use crate::pipeline::CompilationArtifactKind;
use crate::pipeline::CompilationResult;
use crate::pipeline::DebugKind;
use crate::pipeline::PipelineConfig;
use vstd::prelude::*;

verus! {

broadcast use vstd::string::group_string_axioms;

// ---------------------------------------------------------------------------
// Parameter attributes
// ---------------------------------------------------------------------------

/// `carrier` carries exactly `attrs`.
pub open spec fn carries(carrier: LlvmParamAttrsAttr, attrs: ArgAttrs) -> bool {
    &&& carrier.noalias == attrs.noalias
    &&& carrier.readonly == attrs.readonly
    &&& carrier.nonnull == attrs.nonnull
    &&& carrier.noundef == attrs.noundef
    &&& carrier.signext <==> attrs.ext == ArgExt::Sign
    &&& carrier.zeroext <==> attrs.ext == ArgExt::Zero
    &&& attrs.dereferenceable is Some ==> attrs.dereferenceable == Some(carrier.dereferenceable)
    &&& attrs.dereferenceable is None ==> carrier.dereferenceable == 0
    &&& attrs.align is Some ==> attrs.align == Some(carrier.align)
    &&& attrs.align is None ==> carrier.align == 0
}

/// `carrier` carries nothing.
pub open spec fn carries_nothing(carrier: LlvmParamAttrsAttr) -> bool {
    &&& !carrier.noalias && !carrier.readonly && !carrier.nonnull && !carrier.noundef
    &&& !carrier.signext && !carrier.zeroext
    &&& carrier.dereferenceable == 0 && carrier.align == 0
}

/// What the exporter reads of a stamped function is, parameter by parameter, what was
/// stamped. Other attributes stay as they were.
pub proof fn stamped_attributes_are_read_by_the_exporter(
    attributes: &mut AttributeDict,
    arg_attrs: Vec<Option<ArgAttrs>>,
    i: int,
    key: Seq<char>,
)
    requires
        call_ensures(stamp_source_arg_attrs, (attributes, &arg_attrs), ()),
        0 <= i < arg_attrs@.len(),
        arg_attrs@[i] is Some,
    ensures
        ({
            let read = crate::function::flat_param_attrs(*final(attributes));
            &&& read.len() == arg_attrs@.len()
            &&& forall|k: int|
                0 <= k < read.len() ==> match arg_attrs@[k] {
                    Some(attrs) => carries(#[trigger] read[k], attrs),
                    None => carries_nothing(read[k]),
                }
        }),
        key != "llvm_arg_attrs"@ ==> final(attributes).lookup(key) == old(attributes).lookup(key),
{
    assert(!crate::pipeline::nothing_to_stamp(arg_attrs@)) by {
        assert(arg_attrs@[i] is Some);
    }
}

/// Decoded attributes are those whose flags are set, with the extension, the size and the
/// alignment that were computed; there are none exactly where nothing is set.
pub proof fn decoded_attributes_are_the_set_flags(attrs: ArgAttributes, r: Option<ArgAttrs>)
    requires
        call_ensures(decode, (&attrs,), r),
    ensures
        r is None <==> attrs.regular & 8 == 0 && attrs.regular & 16 == 0 && attrs.regular & 32 == 0
            && attrs.regular & 128 == 0 && attrs.pointee_size == 0 && attrs.pointee_align is None
            && attrs.arg_ext == ArgExtension::NoExt,
        r matches Some(decoded) ==> {
            &&& decoded.noalias <==> attrs.regular & 8 != 0
            &&& decoded.nonnull <==> attrs.regular & 16 != 0
            &&& decoded.readonly <==> attrs.regular & 32 != 0
            &&& decoded.noundef <==> attrs.regular & 128 != 0
            &&& attrs.pointee_size == 0 ==> decoded.dereferenceable is None
            &&& attrs.pointee_size != 0 ==> decoded.dereferenceable == Some(attrs.pointee_size)
            &&& decoded.align == attrs.pointee_align
            &&& decoded.ext == ArgExt::Sign <==> attrs.arg_ext == ArgExtension::Sext
            &&& decoded.ext == ArgExt::Zero <==> attrs.arg_ext == ArgExtension::Zext
        },
{
}

/// A disjoint slice of the device crate promises a unique, non-null and defined pointer of
/// the alignment of its elements, and no other type promises anything.
pub proof fn disjoint_slices_promise_unique_pointers(adt: Option<AdtInfo>, r: Option<ArgAttrs>)
    requires
        call_ensures(disjoint_slice_attrs, (&adt,), r),
    ensures
        r is Some <==> (adt matches Some(info) && info.item_name@ == "DisjointSlice"@
            && info.crate_name@ == "cuda_device"@),
        r matches Some(attrs) ==> {
            &&& attrs.noalias && attrs.nonnull && attrs.noundef
            &&& !attrs.readonly && attrs.dereferenceable is None && attrs.ext == ArgExt::NoExt
            &&& adt matches Some(info) && attrs.align == info.element_align
        },
{
}

/// The attributes of the parameters are derived one by one and in order: those of a value
/// passed directly or behind a pointer are its own, those of a pair are those of its data,
/// and a value that is not passed or is passed through another type has none. A disjoint
/// slice has what it promises.
pub proof fn attributes_are_derived_one_by_one(
    args: Vec<ArgAbi>,
    r: Vec<Option<ArgAttrs>>,
    i: int,
    promised: Option<ArgAttrs>,
    own: Option<ArgAttrs>,
)
    requires
        call_ensures(derive_arg_attrs, (&Some(args),), r),
        0 <= i < args@.len(),
        call_ensures(disjoint_slice_attrs, (&args@[i].adt,), promised),
        match args@[i].mode {
            PassMode::Direct(attrs) => call_ensures(decode, (&attrs,), own),
            PassMode::Indirect(attrs) => call_ensures(decode, (&attrs,), own),
            PassMode::Pair(data, meta) => call_ensures(decode, (&data,), own),
            PassMode::Ignore => own is None,
            PassMode::Cast => own is None,
        },
    ensures
        r@.len() == args@.len(),
        promised is Some ==> r@[i] == promised,
        promised is None ==> r@[i] == own,
{
}

// ---------------------------------------------------------------------------
// External device functions
// ---------------------------------------------------------------------------

/// A type at the boundary of an external device function was expressed.
pub open spec fn expressed(
    ty: RustTy,
    position: DeviceExternTypePosition,
    r: Result<DeviceExternType, String>,
) -> bool {
    call_ensures(rustc_ty_to_device_extern_type, (&ty, position), r)
}

/// The width of an integer type of the device, where sizes of pointers are 64 bits.
pub open spec fn device_width(kind: RustTyKind) -> Option<u32> {
    match kind {
        RustTyKind::Int(IntTy::I8) | RustTyKind::Uint(UintTy::U8) => Some(8u32),
        RustTyKind::Int(IntTy::I16) | RustTyKind::Uint(UintTy::U16) => Some(16u32),
        RustTyKind::Int(IntTy::I32) | RustTyKind::Uint(UintTy::U32) => Some(32u32),
        RustTyKind::Int(IntTy::I64) | RustTyKind::Uint(UintTy::U64) => Some(64u32),
        RustTyKind::Int(IntTy::Isize) | RustTyKind::Uint(UintTy::Usize) => Some(64u32),
        RustTyKind::Int(IntTy::I128) | RustTyKind::Uint(UintTy::U128) => Some(128u32),
        _ => None,
    }
}

/// Integers keep their width: any behind a pointer, and 32 and 64 bits by value. Numbers
/// of single and double precision keep their precision, and of half precision behind a
/// pointer only. Other scalars are refused.
pub proof fn scalars_keep_their_width(
    ty: RustTy,
    position: DeviceExternTypePosition,
    r: Result<DeviceExternType, String>,
)
    requires
        expressed(ty, position, r),
    ensures
        device_width(ty.kind) matches Some(bits) ==> (if position
            == DeviceExternTypePosition::Pointee || bits == 32 || bits == 64 {
            r == Ok::<DeviceExternType, String>(DeviceExternType::Integer(bits))
        } else {
            r is Err
        }),
        ty.kind == RustTyKind::Float(FloatTy::F16) ==> (if position
            == DeviceExternTypePosition::Pointee {
            r == Ok::<DeviceExternType, String>(DeviceExternType::Float16)
        } else {
            r is Err
        }),
        ty.kind == RustTyKind::Float(FloatTy::F32) ==> r == Ok::<DeviceExternType, String>(
            DeviceExternType::Float32,
        ),
        ty.kind == RustTyKind::Float(FloatTy::F64) ==> r == Ok::<DeviceExternType, String>(
            DeviceExternType::Float64,
        ),
        ty.kind == RustTyKind::Float(FloatTy::F128) || ty.kind is Bool || ty.kind is Char
            || ty.kind is Never || ty.kind is Other ==> r is Err,
        ty.kind is CVoid ==> (if position == DeviceExternTypePosition::Pointee {
            r == Ok::<DeviceExternType, String>(DeviceExternType::Integer(8))
        } else {
            r is Err
        }),
        ty.kind matches RustTyKind::Tuple { fields } ==> (if fields == 0 && position
            == DeviceExternTypePosition::Result {
            r == Ok::<DeviceExternType, String>(DeviceExternType::Void)
        } else {
            r is Err
        }),
{
}

/// A pointer or a reference is a generic pointer to what its pointee is behind a pointer,
/// where the empty tuple is a byte, and is refused for the same reason as its pointee.
pub proof fn pointers_lead_to_their_pointee(
    ty: RustTy,
    pointee: RustTy,
    position: DeviceExternTypePosition,
    r: Result<DeviceExternType, String>,
    inner: Result<DeviceExternType, String>,
)
    requires
        ty.kind == RustTyKind::RawPtr(Box::new(pointee)) || ty.kind == RustTyKind::Ref(
            Box::new(pointee),
        ),
        expressed(ty, position, r),
        expressed(pointee, DeviceExternTypePosition::Pointee, inner),
    ensures
        ({
            let unit = pointee.kind == (RustTyKind::Tuple { fields: 0 });
            &&& r matches Ok(DeviceExternType::Pointer { pointee: to, address_space })
                ==> address_space == 0 && (unit ==> *to == DeviceExternType::Integer(8)) && (!unit
                ==> inner == Ok::<DeviceExternType, String>(*to))
            &&& r is Ok ==> r->Ok_0 is Pointer
            &&& r is Ok <==> unit || inner is Ok
            &&& r matches Err(reason) ==> (inner matches Err(why) && reason@ == why@)
        }),
{
    let there = crate::device_extern::extern_pointee(pointee);
    let unit = pointee.kind == (RustTyKind::Tuple { fields: 0 });
    assert(there == (if unit {
        Ok(DeviceExternType::Integer(8))
    } else {
        crate::device_extern::extern_type(pointee, DeviceExternTypePosition::Pointee)
    }));
    assert(crate::device_extern::extern_type(ty, position) == (match there {
        Ok(to) => Ok(DeviceExternType::Pointer { pointee: Box::new(to), address_space: 0 }),
        Err(reason) => Err(reason),
    }));
}

/// An array is an array of what its element is behind a pointer, of the same length. It is
/// refused by value and without a length.
pub proof fn arrays_keep_their_length(
    ty: RustTy,
    element: RustTy,
    len: Option<u64>,
    position: DeviceExternTypePosition,
    r: Result<DeviceExternType, String>,
    inner: Result<DeviceExternType, String>,
)
    requires
        ty.kind == (RustTyKind::Array { element: Box::new(element), len }),
        expressed(ty, position, r),
        expressed(element, DeviceExternTypePosition::Pointee, inner),
    ensures
        r is Ok <==> position == DeviceExternTypePosition::Pointee && len is Some && inner is Ok,
        r matches Ok(array) ==> (array matches DeviceExternType::Array { element: of, len: n }
            && len == Some(n) && inner == Ok::<DeviceExternType, String>(*of)),
{
}

/// A declared external function keeps its name and what is known of it, and has, in order,
/// the types of its parameters and the type of its result. Only functions of the C calling
/// convention that do not unwind and are not variadic are declared.
pub proof fn externs_are_declared_as_written(
    sig: DeviceExternSig,
    r: Result<DeviceExternDecl, DeviceCodegenError>,
    i: int,
    param: Result<DeviceExternType, String>,
    result: Result<DeviceExternType, String>,
)
    requires
        call_ensures(convert_device_extern, (&sig,), r),
        0 <= i < sig.inputs@.len(),
        expressed(sig.inputs@[i], DeviceExternTypePosition::Parameter, param),
        expressed(sig.output, DeviceExternTypePosition::Result, result),
    ensures
        !sig.is_c_without_unwind || sig.c_variadic || param is Err || result is Err ==> r is Err,
        r is Err ==> r->Err_0 is InvalidDeviceExternSignature,
        r matches Ok(decl) ==> {
            &&& decl.export_name@ == sig.export_name@
            &&& decl.attrs == sig.attrs
            &&& decl.param_types@.len() == sig.inputs@.len()
            &&& param == Ok::<DeviceExternType, String>(decl.param_types@[i])
            &&& result == Ok::<DeviceExternType, String>(decl.return_type)
        },
{
    if let Ok(decl) = r {
        assert(crate::device_extern::extern_type(
            sig.inputs@[i],
            DeviceExternTypePosition::Parameter,
        ) is Ok);
    }
}

// ---------------------------------------------------------------------------
// Configuration
// ---------------------------------------------------------------------------

/// Two optional texts say the same.
pub open spec fn same_text(a: Option<String>, b: Option<String>) -> bool {
    match (a, b) {
        (Some(x), Some(y)) => x@ == y@,
        (None, None) => true,
        _ => false,
    }
}

/// The pipeline is configured with the directory, the name, the reports and the dumps of
/// the code generation, and with the format, the targets and the contraction of the
/// session.
pub proof fn the_pipeline_is_configured_by_the_session(
    config: DeviceCodegenConfig,
    env: SessionEnv,
    r: PipelineConfig,
)
    requires
        call_ensures(pipeline_config, (&config, &env), r),
    ensures
        r.output_dir@ == config.output_dir@,
        r.output_name@ == config.output_name@,
        r.verbose == config.verbose,
        r.show_mir_dialect == config.dump_mir_dialect,
        r.show_llvm_dialect == config.dump_llvm_dialect,
        r.emit_nvvm_ir == env.emit_nvvm_ir,
        same_text(r.target_arch, env.target),
        same_text(r.device_arch_hint, env.device_arch),
        r.allow_fma_contraction == !env.no_fma,
        env.debug_override is None ==> r.debug_kind == DebugKind::Off,
{
}

/// Every collected function is compiled, in order, under its own name, as a kernel where it
/// is one, and inlined where the hint says so always; the external functions keep their
/// names and order. There is no request without a function.
pub proof fn every_function_is_asked_for(
    functions: Vec<DeviceFunction>,
    externs: Vec<DeviceExternSig>,
    config: DeviceCodegenConfig,
    env: SessionEnv,
    r: Result<DeviceCodegenRequest, DeviceCodegenError>,
    i: int,
    j: int,
)
    requires
        call_ensures(generate_device_code, (&functions, &externs, &config, &env), r),
    ensures
        functions@.len() == 0 ==> r == Err::<DeviceCodegenRequest, DeviceCodegenError>(
            DeviceCodegenError::NoKernels,
        ),
        functions@.len() > 0 && externs@.len() == 0 ==> r is Ok,
        r matches Ok(request) ==> {
            &&& request.functions@.len() == functions@.len()
            &&& request.device_externs@.len() == externs@.len()
            &&& 0 <= i < functions@.len() ==> {
                let to = request.functions@[i];
                let from = functions@[i];
                &&& to.instance == from.instance
                &&& to.is_kernel == from.is_kernel
                &&& to.export_name@ == from.export_name@
                &&& to.is_inline_always <==> from.inline == InlineAttr::Always || from.inline
                    == InlineAttr::Force
                &&& from.fn_abi is None ==> to.arg_attrs@.len() == 0
                &&& from.fn_abi matches Some(args) ==> to.arg_attrs@.len() == args@.len()
                &&& to.debug_source_scopes is Some
            }
            &&& 0 <= j < externs@.len() ==> request.device_externs@[j].export_name@
                == externs@[j].export_name@ && request.device_externs@[j].attrs == externs@[j].attrs
            &&& request.config.output_dir@ == config.output_dir@
            &&& request.config.output_name@ == config.output_name@
            &&& request.config.emit_nvvm_ir == env.emit_nvvm_ir
            &&& request.config.allow_fma_contraction == !env.no_fma
        },
{
    if let Ok(request) = r {
        if 0 <= i < functions@.len() {
            assert(crate::device_codegen::collects(request.functions@[i], functions@[i]));
        }
        if 0 <= j < externs@.len() {
            assert(crate::device_codegen::declares(request.device_externs@[j], externs@[j]));
        }
    }
}

proof fn lemma_plain_word(word: Seq<char>)
    requires
        word.len() > 0,
        forall|i: int|
            0 <= i < word.len() ==> ('a' <= #[trigger] word[i] <= 'z' || '0' <= word[i] <= '9'
                || word[i] == '-'),
    ensures
        crate::text::ascii_lowered(crate::text::trimmed(word)) == word,
{
    assert(!crate::text::is_white_space(word[0]));
    assert(crate::text::trimmed_start(word) == word);
    assert(!crate::text::is_white_space(word[word.len() - 1]));
    assert(crate::text::trimmed_end(word) == word);
    assert(crate::text::ascii_lowered(word) =~= word);
}

/// Device debug information comes from the request alone, whatever the host code gets:
/// none for `0`, `off` and `none`, line tables for `1`, `line`, `lines`, `line-tables` and
/// `line-tables-only`, all of it for `2` and `full`, and none without a request.
pub proof fn requests_decide_the_debug_information(
    host: DebugInfo,
    request: Option<&str>,
    r: DebugKind,
)
    requires
        call_ensures(device_debug_kind_with_override, (host, request), r),
    ensures
        request is None ==> r == DebugKind::Off,
        request matches Some(word) ==> {
            &&& word@ == "0"@ || word@ == "off"@ || word@ == "none"@ ==> r == DebugKind::Off
            &&& word@ == "1"@ || word@ == "line"@ || word@ == "lines"@ || word@ == "line-tables"@
                || word@ == "line-tables-only"@ ==> r == DebugKind::LineTables
            &&& word@ == "2"@ || word@ == "full"@ ==> r == DebugKind::Full
        },
{
    reveal_strlit("0");
    reveal_strlit("off");
    reveal_strlit("none");
    reveal_strlit("1");
    reveal_strlit("line");
    reveal_strlit("lines");
    reveal_strlit("line-tables");
    reveal_strlit("line-tables-only");
    reveal_strlit("2");
    reveal_strlit("full");
    lemma_plain_word("0"@);
    lemma_plain_word("off"@);
    lemma_plain_word("none"@);
    lemma_plain_word("1"@);
    lemma_plain_word("line"@);
    lemma_plain_word("lines"@);
    lemma_plain_word("line-tables"@);
    lemma_plain_word("line-tables-only"@);
    lemma_plain_word("2"@);
    lemma_plain_word("full"@);
    assert("0"@[0] == '0' && "off"@[0] == 'o' && "none"@[0] == 'n' && "1"@[0] == '1' && "line"@[0]
        == 'l' && "lines"@[0] == 'l' && "line-tables"@[0] == 'l' && "line-tables-only"@[0] == 'l'
        && "2"@[0] == '2' && "full"@[0] == 'f');
}

// ---------------------------------------------------------------------------
// Results
// ---------------------------------------------------------------------------

/// The two formats are the same.
pub open spec fn same_format(
    kind: DeviceCodegenArtifactKind,
    compiled: CompilationArtifactKind,
) -> bool {
    &&& kind == DeviceCodegenArtifactKind::Ptx <==> compiled == CompilationArtifactKind::Ptx
    &&& kind == DeviceCodegenArtifactKind::NvvmIr <==> compiled == CompilationArtifactKind::NvvmIr
    &&& kind == DeviceCodegenArtifactKind::Ltoir <==> compiled == CompilationArtifactKind::Ltoir
    &&& kind == DeviceCodegenArtifactKind::Cubin <==> compiled == CompilationArtifactKind::Cubin
}

/// The result of code generation has the paths, the target and the policy of what was
/// compiled, and embeds exactly the bytes of the declared artifact in its format. Without
/// the file nothing is embedded, and only PTX is shown as text.
pub proof fn results_embed_the_declared_artifact(
    compiled: CompilationResult,
    file: FileRead,
    r: Result<DeviceCodegenResult, DeviceCodegenError>,
)
    requires
        call_ensures(
            complete_device_code,
            (Ok::<Result<CompilationResult, String>, String>(Ok(compiled)), file),
            r,
        ),
    ensures
        file is Failed ==> r is Err && r->Err_0 is Io,
        file is NotFound ==> r is Ok,
        file is Contents && compiled.artifact_kind != CompilationArtifactKind::Ptx ==> r is Ok,
        r matches Ok(done) ==> {
            &&& done.ptx_path@ == compiled.ptx_path@
            &&& done.ll_path@ == compiled.ll_path@
            &&& done.target@ == compiled.target@
            &&& done.allow_fma_contraction == compiled.allow_fma_contraction
            &&& done.artifact is Some <==> file is Contents
            &&& done.artifact matches Some(artifact) ==> (file matches FileRead::Contents(bytes)
                && artifact.bytes@ == bytes@) && same_format(artifact.kind, compiled.artifact_kind)
            &&& done.ptx_content is Some <==> file is Contents && compiled.artifact_kind
                == CompilationArtifactKind::Ptx
            &&& done.ptx_content matches Some(text) ==> (file matches FileRead::Contents(bytes)
                && text@ == vstd::utf8::decode_utf8(bytes@))
        },
{
}

/// A failure before the result keeps its reason: of the compiler interface, or of the
/// pipeline.
pub proof fn failures_keep_their_reason(
    outcome: Result<Result<CompilationResult, String>, String>,
    file: FileRead,
    r: Result<DeviceCodegenResult, DeviceCodegenError>,
)
    requires
        call_ensures(complete_device_code, (outcome, file), r),
    ensures
        outcome matches Err(reason) ==> (r matches Err(DeviceCodegenError::StableMirError(why))
            && why@ == reason@),
        outcome matches Ok(Err(reason)) ==> (r matches Err(DeviceCodegenError::PtxGeneration(why))
            && why@ == reason@),
{
}

// ---------------------------------------------------------------------------
// Success
// ---------------------------------------------------------------------------

/// Every parameter of the signature can be expressed by value, and so can its result.
pub open spec fn is_expressible(sig: DeviceExternSig) -> bool {
    &&& forall|i: int|
        0 <= i < sig.inputs@.len() ==> crate::device_extern::extern_type(
            #[trigger] sig.inputs@[i],
            DeviceExternTypePosition::Parameter,
        ) is Ok
    &&& crate::device_extern::extern_type(sig.output, DeviceExternTypePosition::Result) is Ok
}

proof fn lemma_no_input_fails(sig: DeviceExternSig, i: nat)
    requires
        is_expressible(sig),
    ensures
        crate::device_codegen::input_failure(sig.export_name@, sig.inputs@, i) is None,
    decreases sig.inputs@.len() - i,
{
    if i < sig.inputs@.len() {
        assert(crate::device_extern::extern_type(
            sig.inputs@[i as int],
            DeviceExternTypePosition::Parameter,
        ) is Ok);
        lemma_no_input_fails(sig, i + 1);
    }
}

/// A signature of the C calling convention that does not unwind, is not variadic and can be
/// expressed is always declared.
pub proof fn expressible_externs_are_declared(
    sig: DeviceExternSig,
    r: Result<DeviceExternDecl, DeviceCodegenError>,
)
    requires
        is_expressible(sig),
        call_ensures(convert_device_extern, (&sig,), r),
    ensures
        r is Ok <==> sig.is_c_without_unwind && !sig.c_variadic,
{
    lemma_no_input_fails(sig, 0);
}

proof fn lemma_no_extern_fails(externs: Seq<DeviceExternSig>, i: nat)
    requires
        forall|k: int|
            0 <= k < externs.len() ==> is_expressible(#[trigger] externs[k])
                && externs[k].is_c_without_unwind && !externs[k].c_variadic,
    ensures
        crate::device_codegen::externs_failure(externs, i) is None,
    decreases externs.len() - i,
{
    if i < externs.len() {
        assert(is_expressible(externs[i as int]));
        lemma_no_input_fails(externs[i as int], 0);
        lemma_no_extern_fails(externs, i + 1);
    }
}

/// What the compiler collected is always asked for where there is a function and every
/// external one can be declared.
pub proof fn collected_functions_are_asked_for(
    functions: Vec<DeviceFunction>,
    externs: Vec<DeviceExternSig>,
    config: DeviceCodegenConfig,
    env: SessionEnv,
    r: Result<DeviceCodegenRequest, DeviceCodegenError>,
)
    requires
        functions@.len() > 0,
        forall|k: int|
            0 <= k < externs@.len() ==> is_expressible(#[trigger] externs@[k])
                && externs@[k].is_c_without_unwind && !externs@[k].c_variadic,
        call_ensures(generate_device_code, (&functions, &externs, &config, &env), r),
    ensures
        r is Ok,
{
    lemma_no_extern_fails(externs@, 0);
}

/// The message of an error says which step failed, and why.
pub proof fn error_messages_say_which_step_failed(error: DeviceCodegenError, r: String)
    requires
        call_ensures(DeviceCodegenError::message, (&error,), r),
    ensures
        match error {
            DeviceCodegenError::NoKernels => r@ == "No kernel functions found"@,
            DeviceCodegenError::StableMirError(why) => r@ == "stable_mir error: "@ + why@,
            DeviceCodegenError::Translation(why) => r@ == "Translation failed: "@ + why@,
            DeviceCodegenError::PtxGeneration(why) => r@ == "PTX generation failed: "@ + why@,
            DeviceCodegenError::InvalidDeviceExternSignature(why) => r@
                == "Invalid device-extern signature: "@ + why@,
            DeviceCodegenError::Io(why) => r@ == "IO error: "@ + why@,
        },
{
}

/// A process generates into its current directory, or the one called `.` where that is
/// unknown, under the name `kernel`, with contraction, without debug information and
/// without dumps. The pipeline by itself reports its progress.
pub proof fn defaults_use_the_current_directory(
    current: Option<String>,
    code: DeviceCodegenConfig,
    pipeline: PipelineConfig,
)
    requires
        call_ensures(DeviceCodegenConfig::default, (current,), code),
        call_ensures(PipelineConfig::default, (current,), pipeline),
    ensures
        current matches Some(dir) ==> code.output_dir@ == dir@ && pipeline.output_dir@ == dir@,
        current is None ==> code.output_dir@ == "."@ && pipeline.output_dir@ == "."@,
        code.output_name@ == "kernel"@ && pipeline.output_name@ == "kernel"@,
        !code.verbose && pipeline.verbose,
        !code.dump_rustc_mir && !code.dump_mir_dialect && !code.dump_llvm_dialect,
        !pipeline.show_mir_dialect && !pipeline.show_llvm_dialect,
        !pipeline.emit_nvvm_ir,
        pipeline.target_arch is None && pipeline.device_arch_hint is None,
        pipeline.debug_kind == DebugKind::Off,
        pipeline.allow_fma_contraction,
{
}

/// A carrier is read as the attributes that it carries, where the sign extension goes before
/// the zero extension, and is empty exactly where it carries nothing.
pub proof fn carriers_are_read_as_they_are(
    carrier: LlvmParamAttrsAttr,
    r: ArgAttrs,
    empty: bool,
)
    requires
        call_ensures(LlvmParamAttrsAttr::to_arg_attrs, (&carrier,), r),
        call_ensures(LlvmParamAttrsAttr::is_empty, (&carrier,), empty),
    ensures
        !(carrier.signext && carrier.zeroext) ==> carries(carrier, r),
        carrier.signext ==> r.ext == ArgExt::Sign,
        empty <==> carries_nothing(carrier),
{
}

/// A session asks the pipeline for the debug information that its request stands for.
pub proof fn sessions_ask_for_the_requested_debug_information(
    config: DeviceCodegenConfig,
    env: SessionEnv,
    request: &str,
    kind: DebugKind,
    r: PipelineConfig,
)
    requires
        env.debug_override matches Some(text) && text@ == request@,
        call_ensures(device_debug_kind_with_override, (env.debuginfo, Some(request)), kind),
        call_ensures(pipeline_config, (&config, &env), r),
    ensures
        r.debug_kind == kind,
{
}

/// Every collected function carries the attributes that are derived from its calling
/// convention, and every external one the signature that it is declared with.
pub proof fn requests_carry_attributes_and_signatures(
    functions: Vec<DeviceFunction>,
    externs: Vec<DeviceExternSig>,
    config: DeviceCodegenConfig,
    env: SessionEnv,
    request: DeviceCodegenRequest,
    i: int,
    attrs: Vec<Option<ArgAttrs>>,
    j: int,
    decl: DeviceExternDecl,
)
    requires
        call_ensures(
            generate_device_code,
            (&functions, &externs, &config, &env),
            Ok::<DeviceCodegenRequest, DeviceCodegenError>(request),
        ),
        0 <= i < functions@.len(),
        call_ensures(derive_arg_attrs, (&functions@[i].fn_abi,), attrs),
        0 <= j < externs@.len(),
        call_ensures(
            convert_device_extern,
            (&externs@[j],),
            Ok::<DeviceExternDecl, DeviceCodegenError>(decl),
        ),
    ensures
        request.functions@[i].arg_attrs@ == attrs@,
        request.device_externs@[j].param_types@ == decl.param_types@,
        request.device_externs@[j].return_type == decl.return_type,
{
    assert(crate::device_codegen::collects(request.functions@[i], functions@[i]));
    assert(request.functions@[i].arg_attrs@ =~= attrs@);
    let made = request.device_externs@[j];
    let sig = externs@[j];
    assert(crate::device_codegen::declares(made, sig));
    assert(crate::device_codegen::declares(decl, sig));
    assert forall|k: int| 0 <= k < made.param_types@.len() implies made.param_types@[k]
        == decl.param_types@[k] by {
        assert(crate::device_extern::extern_type(
            sig.inputs@[k],
            DeviceExternTypePosition::Parameter,
        ) == Ok::<DeviceExternType, Seq<char>>(made.param_types@[k]));
    }
    assert(made.param_types@ =~= decl.param_types@);
}

/// An embedded artifact is called by its file name.
pub proof fn artifacts_are_called_by_their_file_name(
    compiled: CompilationResult,
    bytes: Vec<u8>,
    path: &str,
    name: Option<String>,
    done: DeviceCodegenResult,
)
    requires
        compiled.artifact_path@ == path@,
        call_ensures(
            complete_device_code,
            (
                Ok::<Result<CompilationResult, String>, String>(Ok(compiled)),
                FileRead::Contents(bytes),
            ),
            Ok::<DeviceCodegenResult, DeviceCodegenError>(done),
        ),
        call_ensures(file_name, (path,), name),
    ensures
        done.artifact matches Some(artifact) && (name matches Some(last) ==> artifact.name@
            == last@),
{
}

}
