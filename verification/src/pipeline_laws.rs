//! What a run of the pipeline asks for and declares, field by field.

use crate::device_extern::DeviceExternDecl;
use crate::paths::join_path;
use crate::pipeline::may_follow;
use crate::pipeline::module_name;
use crate::pipeline::run_pipeline;
use crate::pipeline::stale_compilation_artifact_paths;
use crate::pipeline::start_pipeline;
use crate::pipeline::BackendOptions;
use crate::pipeline::CollectedFunction;
use crate::pipeline::CompilationArtifactKind;
use crate::pipeline::CompileRequest;
use crate::pipeline::ModuleArtifactKind;
use crate::pipeline::PipelineAction;
use crate::pipeline::PipelineConfig;
use crate::pipeline::PipelineError;
use crate::pipeline::PipelineEvent;
use crate::pipeline::PipelineStage;
use crate::pipeline::SidecarText;
use crate::text::opt_text;
use vstd::prelude::*;

verus! {

broadcast use vstd::string::group_string_axioms;

/// `path` leads to the file `file` of the directory `dir`: through one separator, unless
/// the directory is empty or ends with one, and to the file itself where that is absolute.
pub open spec fn leads_to(path: Seq<char>, dir: Seq<char>, file: Seq<char>) -> bool {
    &&& file.len() > 0 && file[0] == '/' ==> path == file
    &&& !(file.len() > 0 && file[0] == '/') ==> {
        if dir.len() == 0 || dir[dir.len() - 1] == '/' {
            path == dir + file
        } else {
            path == dir.push('/') + file
        }
    }
}

/// A file joined to a directory lies in it.
pub proof fn lemma_leads_to(dir: Seq<char>, file: Seq<char>)
    ensures
        leads_to(crate::paths::joined_path(dir, file), dir, file),
{
    reveal_strlit("/");
    assert(dir + "/"@ + file =~= dir.push('/') + file);
}

/// A joined path leads to the file in the directory.
pub proof fn joined_paths_lead_to_the_file(dir: &str, name: &str, r: String)
    requires
        call_ensures(join_path, (dir, name), r),
    ensures
        leads_to(r@, dir@, name@),
{
    lemma_leads_to(dir@, name@);
}

proof fn lemma_suffixes(dir: Seq<char>, name: Seq<char>)
    ensures
        leads_to(crate::pipeline::output_file(dir, name, "ll"@), dir, name + ".ll"@),
        leads_to(crate::pipeline::output_file(dir, name, "ptx"@), dir, name + ".ptx"@),
        leads_to(crate::pipeline::output_file(dir, name, "target"@), dir, name + ".target"@),
        leads_to(crate::pipeline::output_file(dir, name, "options"@), dir, name + ".options"@),
        leads_to(crate::pipeline::output_file(dir, name, "ltoir"@), dir, name + ".ltoir"@),
        leads_to(crate::pipeline::output_file(dir, name, "cubin"@), dir, name + ".cubin"@),
        leads_to(
            crate::pipeline::output_file(dir, name, "cubin.target"@),
            dir,
            name + ".cubin.target"@,
        ),
{
    reveal_strlit(".");
    reveal_strlit("ll");
    reveal_strlit("ptx");
    reveal_strlit("target");
    reveal_strlit("options");
    reveal_strlit("ltoir");
    reveal_strlit("cubin");
    reveal_strlit("cubin.target");
    reveal_strlit(".ll");
    reveal_strlit(".ptx");
    reveal_strlit(".target");
    reveal_strlit(".options");
    reveal_strlit(".ltoir");
    reveal_strlit(".cubin");
    reveal_strlit(".cubin.target");
    assert(name + "."@ + "ll"@ =~= name + ".ll"@);
    assert(name + "."@ + "ptx"@ =~= name + ".ptx"@);
    assert(name + "."@ + "target"@ =~= name + ".target"@);
    assert(name + "."@ + "options"@ =~= name + ".options"@);
    assert(name + "."@ + "ltoir"@ =~= name + ".ltoir"@);
    assert(name + "."@ + "cubin"@ =~= name + ".cubin"@);
    assert(name + "."@ + "cubin.target"@ =~= name + ".cubin.target"@);
    lemma_leads_to(dir, name + ".ll"@);
    lemma_leads_to(dir, name + ".ptx"@);
    lemma_leads_to(dir, name + ".target"@);
    lemma_leads_to(dir, name + ".options"@);
    lemma_leads_to(dir, name + ".ltoir"@);
    lemma_leads_to(dir, name + ".cubin"@);
    lemma_leads_to(dir, name + ".cubin.target"@);
}

/// What a step of a run was given.
pub open spec fn steps(
    functions: Vec<CollectedFunction>,
    device_externs: Vec<DeviceExternDecl>,
    config: PipelineConfig,
    env: BackendOptions,
    sidecars: SidecarText,
    stage: PipelineStage,
    event: PipelineEvent,
    r: (PipelineStage, PipelineAction),
) -> bool {
    &&& may_follow(stage, event, functions@.len())
    &&& call_ensures(
        run_pipeline,
        (&functions, &device_externs, &config, &env, &sidecars, stage, event),
        r,
    )
}

/// The artifact that a finished run declares is the file of its format: the PTX where PTX
/// was generated and the LLVM IR where NVVM IR was, both where the code generator was
/// asked to write them. Its format and its target are those of the generated module, and
/// its contraction policy is the one that was asked for. A run finishes only behind the
/// generation of PTX or behind the target file of NVVM IR.
pub proof fn finished_runs_declare_the_file_of_their_format(
    functions: Vec<CollectedFunction>,
    device_externs: Vec<DeviceExternDecl>,
    config: PipelineConfig,
    env: BackendOptions,
    sidecars: SidecarText,
    stage: PipelineStage,
    event: PipelineEvent,
    r: (PipelineStage, PipelineAction),
)
    requires
        steps(functions, device_externs, config, env, sidecars, stage, event, r),
    ensures
        r.1 matches PipelineAction::Finish(result) ==> {
            let dir = config.output_dir@;
            let name = config.output_name@;
            &&& leads_to(result.ptx_path@, dir, name + ".ptx"@)
            &&& leads_to(result.ll_path@, dir, name + ".ll"@)
            &&& result.artifact_kind == CompilationArtifactKind::Ptx ==> result.artifact_path@
                == result.ptx_path@
            &&& result.artifact_kind == CompilationArtifactKind::NvvmIr ==> result.artifact_path@
                == result.ll_path@
            &&& result.allow_fma_contraction == config.allow_fma_contraction
            &&& match (stage, event) {
                (PipelineStage::Compiling, PipelineEvent::Generated(generated)) => {
                    &&& generated.artifact_kind == ModuleArtifactKind::Ptx
                    &&& result.artifact_kind == CompilationArtifactKind::Ptx
                    &&& result.target@ == generated.target@
                },
                (PipelineStage::RecordingTarget(generated), PipelineEvent::Done) => {
                    &&& generated.artifact_kind == ModuleArtifactKind::Ptx <==> result.artifact_kind
                        == CompilationArtifactKind::Ptx
                    &&& generated.artifact_kind == ModuleArtifactKind::NvvmIr
                        <==> result.artifact_kind == CompilationArtifactKind::NvvmIr
                    &&& result.target@ == generated.target@
                },
                _ => false,
            }
            &&& r.0 is Ended
        },
        stage is Compiling && (event matches PipelineEvent::Generated(generated)
            && generated.artifact_kind == ModuleArtifactKind::Ptx) ==> r.1 is Finish,
        stage is RecordingTarget && event is Done ==> r.1 is Finish,
{
    lemma_suffixes(config.output_dir@, config.output_name@);
}

/// `asked` is what the configuration gives, and what the environment gives where the
/// configuration gives nothing.
pub open spec fn configured_or_inherited(
    asked: Option<String>,
    configured: Option<String>,
    inherited: Option<String>,
) -> bool {
    match configured {
        Some(text) => asked matches Some(given) && given@ == text@,
        None => match inherited {
            Some(text) => asked matches Some(given) && given@ == text@,
            None => asked is None,
        },
    }
}

/// The code generator is asked, once every function is in the module, for what the
/// configuration says: the two output files, the format, the debug information, the
/// targets, where the configuration goes before the environment, and no contraction
/// exactly where it is not allowed. It removes first what an earlier run may have left.
pub proof fn the_code_generator_is_asked_for_what_is_configured(
    functions: Vec<CollectedFunction>,
    device_externs: Vec<DeviceExternDecl>,
    config: PipelineConfig,
    env: BackendOptions,
    sidecars: SidecarText,
    stage: PipelineStage,
    event: PipelineEvent,
    r: (PipelineStage, PipelineAction),
)
    requires
        steps(functions, device_externs, config, env, sidecars, stage, event, r),
    ensures
        r.1 is Compile <==> (stage is CreatingModule && functions@.len() == 0) || (
        stage matches PipelineStage::Appending(i) && i + 1 == functions@.len()),
        r.1 is Compile <==> r.0 is Compiling,
        r.1 matches PipelineAction::Compile(request) ==> {
            let dir = config.output_dir@;
            let name = config.output_name@;
            &&& request.device_externs@ == device_externs@
            &&& request.emit_nvvm_ir == config.emit_nvvm_ir
            &&& configured_or_inherited(
                request.backend.target_arch,
                config.target_arch,
                env.target_arch,
            )
            &&& configured_or_inherited(
                request.backend.device_arch_hint,
                config.device_arch_hint,
                env.device_arch_hint,
            )
            &&& request.backend.verbose <==> config.verbose || env.verbose
            &&& request.backend.no_fma <==> !config.allow_fma_contraction
            &&& request.debug_kind == config.debug_kind
            &&& leads_to(request.ll_path@, dir, name + ".ll"@)
            &&& leads_to(request.ptx_path@, dir, name + ".ptx"@)
            &&& removes_outputs(request.stale@, dir, name)
            &&& request.verbose == config.verbose
            &&& request.dump_mir == config.show_mir_dialect
            &&& request.dump_llvm == config.show_llvm_dialect
        },
{
    lemma_suffixes(config.output_dir@, config.output_name@);
    if let PipelineAction::Compile(request) = r.1 {
        lemma_request(config, env, request);
    }
}

proof fn lemma_request(config: PipelineConfig, env: BackendOptions, request: CompileRequest)
    requires
        crate::text::texts(request.stale@) == crate::pipeline::stale_paths(
            config.output_dir@,
            config.output_name@,
        ),
        opt_text(request.backend.target_arch) == opt_text(
            if config.target_arch is Some {
                config.target_arch
            } else {
                env.target_arch
            },
        ),
        opt_text(request.backend.device_arch_hint) == opt_text(
            if config.device_arch_hint is Some {
                config.device_arch_hint
            } else {
                env.device_arch_hint
            },
        ),
    ensures
        removes_outputs(request.stale@, config.output_dir@, config.output_name@),
        configured_or_inherited(request.backend.target_arch, config.target_arch, env.target_arch),
        configured_or_inherited(
            request.backend.device_arch_hint,
            config.device_arch_hint,
            env.device_arch_hint,
        ),
{
    lemma_stale(request.stale@, config.output_dir@, config.output_name@);
}

/// `list` is the seven files that a run may leave behind.
pub open spec fn removes_outputs(list: Seq<String>, dir: Seq<char>, name: Seq<char>) -> bool {
    &&& list.len() == 7
    &&& leads_to(list[0]@, dir, name + ".ll"@)
    &&& leads_to(list[1]@, dir, name + ".ptx"@)
    &&& leads_to(list[2]@, dir, name + ".target"@)
    &&& leads_to(list[3]@, dir, name + ".options"@)
    &&& leads_to(list[4]@, dir, name + ".ltoir"@)
    &&& leads_to(list[5]@, dir, name + ".cubin"@)
    &&& leads_to(list[6]@, dir, name + ".cubin.target"@)
}

proof fn lemma_stale(list: Seq<String>, dir: Seq<char>, name: Seq<char>)
    requires
        crate::text::texts(list) == crate::pipeline::stale_paths(dir, name),
    ensures
        removes_outputs(list, dir, name),
{
    lemma_suffixes(dir, name);
    let viewed = crate::text::texts(list);
    let stale = crate::pipeline::stale_paths(dir, name);
    assert(viewed.len() == list.len());
    assert(stale.len() == 7);
    assert(viewed[0] == list[0]@ && viewed[1] == list[1]@ && viewed[2] == list[2]@ && viewed[3]
        == list[3]@ && viewed[4] == list[4]@ && viewed[5] == list[5]@ && viewed[6] == list[6]@);
    assert(stale[0] == crate::pipeline::output_file(dir, name, "ll"@));
    assert(stale[1] == crate::pipeline::output_file(dir, name, "ptx"@));
    assert(stale[2] == crate::pipeline::output_file(dir, name, "target"@));
    assert(stale[3] == crate::pipeline::output_file(dir, name, "options"@));
    assert(stale[4] == crate::pipeline::output_file(dir, name, "ltoir"@));
    assert(stale[5] == crate::pipeline::output_file(dir, name, "cubin"@));
    assert(stale[6] == crate::pipeline::output_file(dir, name, "cubin.target"@));
}

/// What counts as left behind by an earlier run is every file that this one may write or
/// that may be built from it.
pub proof fn stale_files_are_the_outputs(dir: &str, name: &str, r: Vec<String>)
    requires
        call_ensures(stale_compilation_artifact_paths, (dir, name), r),
    ensures
        removes_outputs(r@, dir@, name@),
{
    lemma_stale(r@, dir@, name@);
}

/// A run writes nothing but the two files beside NVVM IR: behind the generation the
/// options file, with the text of the contraction policy, and behind that the target file,
/// with the target on the first line and the marker on the second.
pub proof fn sidecar_files_hold_policy_and_target(
    functions: Vec<CollectedFunction>,
    device_externs: Vec<DeviceExternDecl>,
    config: PipelineConfig,
    env: BackendOptions,
    sidecars: SidecarText,
    stage: PipelineStage,
    event: PipelineEvent,
    r: (PipelineStage, PipelineAction),
)
    requires
        steps(functions, device_externs, config, env, sidecars, stage, event, r),
    ensures
        r.1 matches PipelineAction::Write { path, text } ==> {
            let dir = config.output_dir@;
            let name = config.output_name@;
            match stage {
                PipelineStage::Compiling => {
                    &&& event matches PipelineEvent::Generated(generated) && generated.artifact_kind
                        == ModuleArtifactKind::NvvmIr && (
                    r.0 matches PipelineStage::RecordingOptions(kept) && kept.artifact_kind
                        == ModuleArtifactKind::NvvmIr && kept.target@ == generated.target@)
                    &&& leads_to(path@, dir, name + ".options"@)
                    &&& config.allow_fma_contraction ==> text@ == sidecars.contraction_on@
                    &&& !config.allow_fma_contraction ==> text@ == sidecars.contraction_off@
                },
                PipelineStage::RecordingOptions(generated) => {
                    &&& r.0 matches PipelineStage::RecordingTarget(kept) && kept.artifact_kind
                        == generated.artifact_kind && kept.target@ == generated.target@
                    &&& leads_to(path@, dir, name + ".target"@)
                    &&& text@ == (generated.target@.push('\n') + sidecars.marker@).push('\n')
                },
                _ => false,
            }
        },
        stage is Compiling && (event matches PipelineEvent::Generated(generated)
            && generated.artifact_kind == ModuleArtifactKind::NvvmIr) ==> r.1 is Write,
        stage is RecordingOptions && event is Done ==> r.1 is Write,
{
    lemma_suffixes(config.output_dir@, config.output_name@);
    reveal_strlit("\n");
    if let PipelineStage::RecordingOptions(generated) = stage {
        assert(generated.target@ + "\n"@ + sidecars.marker@ + "\n"@ =~= (generated.target@.push(
            '\n',
        ) + sidecars.marker@).push('\n'));
    }
}

/// A run creates the directory that is configured, then the module, then takes up the
/// functions one after the other: each is translated with the debug information that is
/// configured, stamped, dumped where that is asked for, verified and appended, and the
/// next one is taken up.
pub proof fn functions_go_through_every_step_in_order(
    functions: Vec<CollectedFunction>,
    device_externs: Vec<DeviceExternDecl>,
    config: PipelineConfig,
    env: BackendOptions,
    sidecars: SidecarText,
    stage: PipelineStage,
    r: (PipelineStage, PipelineAction),
)
    requires
        steps(
            functions,
            device_externs,
            config,
            env,
            sidecars,
            stage,
            PipelineEvent::Done,
            r,
        ),
    ensures
        stage is Preparing ==> r.0 is CreatingModule && r.1 is CreateModule,
        stage is CreatingModule && functions@.len() > 0 ==> r.0 == PipelineStage::Translating(0)
            && r.1 == (PipelineAction::Translate { function: 0, debug_kind: config.debug_kind }),
        stage matches PipelineStage::Translating(i) ==> r.0 == PipelineStage::Stamping(i) && r.1
            == PipelineAction::Stamp(i),
        stage matches PipelineStage::Stamping(i) ==> (if config.show_mir_dialect {
            r.0 == PipelineStage::Dumping(i) && r.1 == PipelineAction::Dump(i)
        } else {
            r.0 == PipelineStage::Verifying(i) && r.1 == PipelineAction::Verify(i)
        }),
        stage matches PipelineStage::Dumping(i) ==> r.0 == PipelineStage::Verifying(i) && r.1
            == PipelineAction::Verify(i),
        stage matches PipelineStage::Verifying(i) ==> r.0 == PipelineStage::Appending(i) && r.1
            == PipelineAction::Append(i),
        stage matches PipelineStage::Appending(i) ==> i + 1 < functions@.len() ==> (
        r.0 matches PipelineStage::Translating(k) && k == i + 1) && (
        r.1 matches PipelineAction::Translate { function, debug_kind } && function == i + 1
            && debug_kind == config.debug_kind),
        !(r.1 is Fail),
{
}

/// A run starts with the directory that is configured, and names its module by the output
/// name where that is an identifier.
pub proof fn runs_start_with_their_directory(config: PipelineConfig, r: (
    PipelineStage,
    PipelineAction,
))
    requires
        call_ensures(start_pipeline, (&config,), r),
    ensures
        r.0 is Preparing,
        r.1 matches PipelineAction::CreateDirectory(dir) && dir@ == config.output_dir@,
{
}

/// `name` is a letter or an underscore followed by letters, digits and underscores.
pub open spec fn is_name(name: Seq<char>) -> bool {
    &&& name.len() > 0
    &&& !('0' <= name[0] <= '9')
    &&& forall|i: int|
        0 <= i < name.len() ==> {
            let c = #[trigger] name[i];
            'a' <= c <= 'z' || 'A' <= c <= 'Z' || '0' <= c <= '9' || c == '_'
        }
}

/// A module is named by the output name where that is an identifier and `kernel`
/// otherwise.
pub proof fn modules_are_named_by_their_output(output_name: String, r: String)
    requires
        call_ensures(module_name, (&output_name,), r),
    ensures
        is_name(output_name@) ==> r@ == output_name@,
        !is_name(output_name@) ==> r@ == "kernel"@,
{
}

/// A step that fails ends the run, and the error says what failed: a directory or a
/// sidecar file by its path, a function by its name, and verification and code generation
/// by their reason.
pub proof fn failures_end_the_run_and_say_what_failed(
    functions: Vec<CollectedFunction>,
    device_externs: Vec<DeviceExternDecl>,
    config: PipelineConfig,
    env: BackendOptions,
    sidecars: SidecarText,
    stage: PipelineStage,
    event: PipelineEvent,
    r: (PipelineStage, PipelineAction),
)
    requires
        steps(functions, device_externs, config, env, sidecars, stage, event, r),
    ensures
        r.1 is Fail <==> event is Failed || event is NoBody,
        r.1 is Fail ==> r.0 is Ended,
        event is NoBody ==> (r.1 matches PipelineAction::Fail(PipelineError::NoBody(name)) && (
        stage matches PipelineStage::Translating(i) && name@ == functions@[i as int].export_name@)),
        event matches PipelineEvent::Failed(reason) ==> match stage {
            PipelineStage::Preparing => r.1 matches PipelineAction::Fail(
                PipelineError::Export(message),
            ) && message@ == "failed to create output directory "@ + config.output_dir@ + ": "@
                + reason@,
            PipelineStage::Translating(i) => r.1 matches PipelineAction::Fail(
                PipelineError::Translation(message),
            ) && message@ == functions@[i as int].export_name@ + ": "@ + reason@,
            PipelineStage::Verifying(_) => r.1 matches PipelineAction::Fail(
                PipelineError::Backend(message),
            ) && message@ == reason@,
            PipelineStage::Compiling => r.1 matches PipelineAction::Fail(
                PipelineError::Backend(message),
            ) && message@ == reason@,
            PipelineStage::RecordingOptions(_) => r.1 matches PipelineAction::Fail(
                PipelineError::Export(message),
            ) && exists|path: Seq<char>| #[trigger]
                leads_to(path, config.output_dir@, config.output_name@ + ".options"@) && message@
                    == "failed to record NVVM compile options in "@ + path + ": "@ + reason@,
            PipelineStage::RecordingTarget(_) => r.1 matches PipelineAction::Fail(
                PipelineError::Export(message),
            ) && exists|path: Seq<char>| #[trigger]
                leads_to(path, config.output_dir@, config.output_name@ + ".target"@) && message@
                    == "failed to record NVVM target in "@ + path + ": "@ + reason@,
            _ => false,
        },
{
    lemma_suffixes(config.output_dir@, config.output_name@);
}

}
