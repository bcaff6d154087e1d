//! What is loaded and built, in terms of the files that are there, the device and the plan.

use crate::cuda_arch::execution_arch;
use crate::cuda_arch::ArchSuffix;
use crate::cuda_arch::CudaArch;
use crate::cuda_arch::CudaArchParseError;
use crate::ltoir::build_may_follow;
use crate::ltoir::continue_build;
use crate::ltoir::execution_route;
use crate::ltoir::load_kernel_module;
use crate::ltoir::nvjitlink_lto_options;
use crate::ltoir::nvvm_compile_options;
use crate::ltoir::select_file_artifact;
use crate::ltoir::start_build;
use crate::ltoir::validate_dialect;
use crate::ltoir::validate_ir_version;
use crate::ltoir::ArtifactProbe;
use crate::ltoir::BuildAction;
use crate::ltoir::BuildEvent;
use crate::ltoir::BuildOutput;
use crate::ltoir::BuildPlan;
use crate::ltoir::BuildSource;
use crate::ltoir::BuildStage;
use crate::ltoir::ExecutionRoute;
use crate::ltoir::FileArtifact;
use crate::ltoir::LoadInputs;
use crate::ltoir::LoadPlan;
use crate::ltoir_error::LtoirError;
use crate::pipeline_laws::leads_to;
use crate::pipeline_laws::lemma_leads_to;
use crate::sidecar::OptionsFile;
use crate::text::decimal;
use crate::text::texts;
use vstd::prelude::*;

verus! {

broadcast use vstd::string::group_string_axioms;

// ---------------------------------------------------------------------------
// Architectures
// ---------------------------------------------------------------------------

/// An architecture as `prefix`, its capability in decimal, and the letter of its suffix.
pub open spec fn spelling(prefix: Seq<char>, arch: CudaArch) -> Seq<char> {
    let number = prefix + decimal(arch.capability as nat);
    match arch.suffix {
        None => number,
        Some(ArchSuffix::A) => number.push('a'),
        Some(ArchSuffix::F) => number.push('f'),
    }
}

proof fn lemma_spellings(arch: CudaArch)
    ensures
        arch.sm_text() == spelling("sm_"@, arch),
        arch.compute_text() == spelling("compute_"@, arch),
        crate::cache_key::arch_option(arch.sm_text()) == spelling("-arch=sm_"@, arch),
        crate::cache_key::arch_option(arch.compute_text()) == spelling("-arch=compute_"@, arch),
{
    assert(arch.sm_text() =~= spelling("sm_"@, arch));
    assert(arch.compute_text() =~= spelling("compute_"@, arch));
    reveal_strlit("sm_");
    reveal_strlit("compute_");
    reveal_strlit("-arch=");
    reveal_strlit("-arch=sm_");
    reveal_strlit("-arch=compute_");
    assert("-arch="@ + "sm_"@ =~= "-arch=sm_"@);
    assert("-arch="@ + "compute_"@ =~= "-arch=compute_"@);
    assert("-arch="@ + arch.sm_text() =~= spelling("-arch="@ + "sm_"@, arch));
    assert("-arch="@ + arch.compute_text() =~= spelling("-arch="@ + "compute_"@, arch));
}

/// The real spelling of an architecture is `sm_`, its capability and its suffix.
pub proof fn real_targets_are_spelled_out(arch: CudaArch, r: String)
    requires
        call_ensures(CudaArch::sm, (&arch,), r),
    ensures
        r@ == spelling("sm_"@, arch),
{
    lemma_spellings(arch);
}

/// The virtual spelling of an architecture is `compute_`, its capability and its suffix.
pub proof fn virtual_targets_are_spelled_out(arch: CudaArch, r: String)
    requires
        call_ensures(CudaArch::compute, (&arch,), r),
    ensures
        r@ == spelling("compute_"@, arch),
{
    lemma_spellings(arch);
}

/// What spells an architecture is read as that architecture.
pub proof fn spelled_targets_are_read(
    arch: CudaArch,
    text: &str,
    r: Result<CudaArch, CudaArchParseError>,
)
    requires
        text@ == spelling("sm_"@, arch) || text@ == spelling("compute_"@, arch),
        call_ensures(CudaArch::parse, (text,), r),
    ensures
        r == Ok::<CudaArch, CudaArchParseError>(arch),
{
    lemma_spellings(arch);
    crate::cuda_arch::spellings_name_the_architecture(arch);
}

/// A device of compute capability `major.minor` has the architecture of ten times the
/// major number plus the minor, without a suffix.
pub proof fn devices_have_the_architecture_of_their_capability(
    major: i32,
    minor: i32,
    r: Result<CudaArch, CudaArchParseError>,
)
    requires
        major > 0,
        0 <= minor <= 9,
        10 * major + minor <= u32::MAX,
        call_ensures(execution_arch, (major, minor), r),
    ensures
        r matches Ok(arch) && arch.capability == 10 * major + minor && arch.suffix is None,
{
    lemma_device(major, minor);
}

proof fn lemma_device(major: i32, minor: i32)
    requires
        major > 0,
        0 <= minor <= 9,
        10 * major + minor <= u32::MAX,
    ensures
        crate::cuda_arch::device_arch(major, minor) == Some(
            CudaArch { capability: (10 * major + minor) as u32, suffix: None },
        ),
{
    let n = (10 * major + minor) as nat;
    assert(0 <= n <= u32::MAX);
    let arch = CudaArch { capability: n as u32, suffix: None };
    assert(n / 10 == major && n % 10 == minor);
    assert(decimal(n) == decimal(major as nat).push(crate::text::digit_char(minor as nat)));
    assert(decimal(minor as nat) == seq![crate::text::digit_char(minor as nat)]);
    assert(crate::cuda_arch::device_text(major, minor) =~= spelling("sm_"@, arch));
    lemma_spellings(arch);
    crate::cuda_arch::spellings_name_the_architecture(arch);
}

// ---------------------------------------------------------------------------
// Selection
// ---------------------------------------------------------------------------

/// A recorded target makes NVVM output current: NVVM IR, or else LTOIR, or else nothing.
/// Without one, PTX goes first, then NVVM IR, then LTOIR, then a cubin.
pub proof fn artifacts_are_selected_in_order(
    has_ptx: bool,
    has_nvvm_ir: bool,
    has_ltoir: bool,
    has_cubin: bool,
    recorded: bool,
    r: Option<FileArtifact>,
)
    requires
        call_ensures(
            select_file_artifact,
            (has_ptx, has_nvvm_ir, has_ltoir, has_cubin, recorded),
            r,
        ),
    ensures
        r == Some(FileArtifact::Ptx) <==> has_ptx && !recorded,
        r == Some(FileArtifact::NvvmIr) <==> has_nvvm_ir && (recorded || !has_ptx),
        r == Some(FileArtifact::Ltoir) <==> has_ltoir && !has_nvvm_ir && (recorded || !has_ptx),
        r == Some(FileArtifact::Cubin) <==> has_cubin && !recorded && !has_ptx && !has_nvvm_ir
            && !has_ltoir,
{
}

/// An artifact runs natively exactly on a device of its own capability. Otherwise it runs
/// as PTX, and only without a suffix and from below capability 100 to 100 and above; any
/// other pair is refused with the two targets.
pub proof fn artifacts_run_natively_or_bridge_forward(
    emitted: CudaArch,
    execution: CudaArch,
    r: Result<ExecutionRoute, LtoirError>,
)
    requires
        call_ensures(execution_route, (&emitted, &execution), r),
    ensures
        r == Ok::<ExecutionRoute, LtoirError>(ExecutionRoute::Cubin) <==> emitted.capability
            == execution.capability,
        r == Ok::<ExecutionRoute, LtoirError>(ExecutionRoute::PtxBridge) <==> emitted.suffix is None
            && emitted.capability < 100 && execution.capability >= 100,
        r is Err ==> (r matches Err(
            LtoirError::IncompatibleExecutionTarget { emitted: from, execution: to, reason },
        ) && from@ == spelling("sm_"@, emitted) && to@ == spelling("sm_"@, execution)),
{
    lemma_spellings(emitted);
    lemma_spellings(execution);
    let error = r->Err_0;
    if r is Err {
        assert(crate::sidecar::viewed(r)->Err_0 == error@);
    }
}

/// A call that plans to load a module.
pub open spec fn planned_load(
    dir: &str,
    name: &str,
    probe: ArtifactProbe,
    inputs: LoadInputs,
    marker: &str,
    r: Result<LoadPlan, LtoirError>,
) -> bool {
    call_ensures(load_kernel_module, (dir, name, &probe, inputs, marker), r)
}

proof fn lemma_artifacts(dir: Seq<char>, name: Seq<char>)
    ensures
        leads_to(crate::ltoir::artifact_path(dir, name, ".ptx"@), dir, name + ".ptx"@),
        leads_to(crate::ltoir::artifact_path(dir, name, ".cubin"@), dir, name + ".cubin"@),
        leads_to(crate::ltoir::artifact_path(dir, name, ".ll"@), dir, name + ".ll"@),
        leads_to(crate::ltoir::artifact_path(dir, name, ".ltoir"@), dir, name + ".ltoir"@),
{
    lemma_leads_to(dir, name + ".ptx"@);
    lemma_leads_to(dir, name + ".cubin"@);
    lemma_leads_to(dir, name + ".ll"@);
    lemma_leads_to(dir, name + ".ltoir"@);
}

/// A plan to load a file names a file that is there: the PTX of the module where there is
/// PTX, and otherwise its cubin where that is all there is. Neither is loaded where a
/// target is recorded, and both are loaded whatever the device is.
pub proof fn loaded_files_are_there(
    dir: &str,
    name: &str,
    probe: ArtifactProbe,
    inputs: LoadInputs,
    marker: &str,
    r: Result<LoadPlan, LtoirError>,
)
    requires
        planned_load(dir, name, probe, inputs, marker, r),
    ensures
        r matches Ok(LoadPlan::File(path)) ==> {
            &&& probe.target == Ok::<bool, String>(false)
            &&& probe.ptx ==> leads_to(path@, dir@, name@ + ".ptx"@)
            &&& !probe.ptx ==> probe.cubin && !probe.ll && !probe.ltoir && leads_to(
                path@,
                dir@,
                name@ + ".cubin"@,
            )
        },
        probe.target == Ok::<bool, String>(false) && (probe.ptx || (probe.cubin && !probe.ll
            && !probe.ltoir)) ==> r matches Ok(LoadPlan::File(path)),
{
    lemma_artifacts(dir@, name@);
}

/// A load finds no artifact exactly where no current one is there, and says which module
/// it looked for and where.
pub proof fn missing_artifacts_are_reported(
    dir: &str,
    name: &str,
    probe: ArtifactProbe,
    inputs: LoadInputs,
    marker: &str,
    r: Result<LoadPlan, LtoirError>,
)
    requires
        planned_load(dir, name, probe, inputs, marker, r),
        probe.target is Ok,
        !probe.ll,
        !probe.ltoir,
    ensures
        r is Err <==> probe.target->Ok_0 || (!probe.ptx && !probe.cubin),
        r is Err ==> (r matches Err(LtoirError::NoArtifact { name: module, dir: place })
            && module@ == name@ && place@ == dir@),
{
    if r is Err {
        assert(crate::ltoir::fails(
            r,
            crate::ltoir_error::LtoirErrorView::NoArtifact { name: name@, dir: dir@ },
        ));
    }
}

/// What a build for loading has to do with the device.
pub open spec fn suits_the_device(
    arch: CudaArch,
    output: BuildOutput,
    capability: Result<(i32, i32), String>,
) -> bool {
    &&& capability matches Ok((major, minor))
    &&& major > 0 && 0 <= minor <= 9 && 10 * major + minor <= u32::MAX ==> {
        let device = 10 * major + minor;
        match output {
            BuildOutput::Cubin => arch.capability == device,
            BuildOutput::Ptx => arch.suffix is None && arch.capability < 100 && device >= 100,
        }
    }
}

/// The contraction policy is that of the options file, and contraction is allowed where
/// there is none.
pub open spec fn keeps_the_policy(allow: bool, options: OptionsFile) -> bool {
    match options {
        OptionsFile::Policy(given) => allow == given,
        OptionsFile::NotFound => allow,
        _ => false,
    }
}

/// A build for loading compiles exactly the bytes of the artifact that is there, NVVM IR
/// before LTOIR, for the architecture that they were emitted for, under their own
/// contraction policy: to a cubin, by way of the cache, for a device of that capability,
/// and to PTX, without the cache, for a newer one.
pub proof fn builds_for_loading_start_from_the_artifact(
    dir: &str,
    name: &str,
    probe: ArtifactProbe,
    inputs: LoadInputs,
    marker: &str,
    r: Result<LoadPlan, LtoirError>,
)
    requires
        planned_load(dir, name, probe, inputs, marker, r),
    ensures
        r matches Ok(plan) ==> !(plan is File) ==> {
            &&& probe.target is Ok
            &&& !(probe.ptx && !probe.target->Ok_0)
            &&& probe.ll || probe.ltoir
            &&& inputs.artifact is Ok
            &&& crate::ltoir::planned_build(plan) matches Some(build) && {
                &&& build.source == BuildSource::NvvmIr <==> probe.ll
                &&& build.input@ == inputs.artifact->Ok_0@
                &&& keeps_the_policy(build.allow_fma_contraction, inputs.sidecars.options)
                &&& build.cached <==> build.output == BuildOutput::Cubin
                &&& suits_the_device(build.arch, build.output, inputs.compute_capability)
                &&& probe.ll ==> leads_to(build.nvvm_module_name@, dir@, name@ + ".ll"@)
                &&& !probe.ll ==> leads_to(build.ltoir_module_name@, dir@, name@ + ".ltoir"@)
                &&& inputs.sidecars.target is NotFound ==> (
                inputs.explicit_target matches Some(text) && forall|arch: CudaArch|
                    #![trigger spelling("sm_"@, arch)]
                    text@ == spelling("sm_"@, arch) ==> build.arch == arch)
            }
            &&& plan is BuildFile <==> probe.ll && crate::ltoir::planned_build(plan)->0.output
                == BuildOutput::Cubin
        },
{
    lemma_artifacts(dir@, name@);
    if let Ok((major, minor)) = inputs.compute_capability {
        if major > 0 && 0 <= minor <= 9 && 10 * major + minor <= u32::MAX {
            lemma_device(major, minor);
        }
    }
    if let Some(text) = inputs.explicit_target {
        assert forall|arch: CudaArch|
            #![trigger spelling("sm_"@, arch)]
            text@ == spelling("sm_"@, arch) implies crate::cuda_arch::parsed_arch(text@) == Some(
            arch,
        ) by {
            lemma_spellings(arch);
            crate::cuda_arch::spellings_name_the_architecture(arch);
        }
    }
}

// ---------------------------------------------------------------------------
// Builds
// ---------------------------------------------------------------------------

/// The texts of `list` are `expected`, in order.
pub open spec fn reads(list: Seq<String>, expected: Seq<Seq<char>>) -> bool {
    list.len() == expected.len() && forall|i: int|
        0 <= i < list.len() ==> (#[trigger] list[i])@ == expected[i]
}

proof fn lemma_reads(list: Seq<String>, expected: Seq<Seq<char>>)
    requires
        texts(list) == expected,
    ensures
        reads(list, expected),
{
    assert forall|i: int| 0 <= i < list.len() implies (#[trigger] list[i])@ == expected[i] by {
        assert(texts(list)[i] == list[i]@);
    }
}

/// The option of a contraction policy.
pub open spec fn policy(allow: bool) -> Seq<char> {
    if allow {
        "-fma=1"@
    } else {
        "-fma=0"@
    }
}

/// The options of a link, spelled out for each pair of output and optimization.
pub open spec fn link_line(
    target: Seq<char>,
    ptx: bool,
    allow: bool,
    optimize: bool,
) -> Seq<Seq<char>> {
    match (ptx, optimize) {
        (false, true) => seq![target, "-lto"@, "-O3"@, policy(allow)],
        (false, false) => seq![target, "-lto"@, policy(allow)],
        (true, true) => seq![target, "-lto"@, "-ptx"@, "-O3"@, policy(allow)],
        (true, false) => seq![target, "-lto"@, "-ptx"@, policy(allow)],
    }
}

proof fn lemma_link_line(target: Seq<char>, ptx: bool, allow: bool, optimize: bool)
    ensures
        crate::ltoir::link_options(target, ptx, allow, optimize) == link_line(
            target,
            ptx,
            allow,
            optimize,
        ),
{
    assert(crate::ltoir::link_options(target, ptx, allow, optimize) =~= link_line(
        target,
        ptx,
        allow,
        optimize,
    ));
}

/// A link is told its target, link-time optimization, the output where that is PTX, the
/// level where it optimizes, and its contraction policy, in this order.
pub proof fn links_are_told_their_options(
    target: &str,
    emit_ptx: bool,
    allow: bool,
    optimize: bool,
    r: Vec<String>,
)
    requires
        call_ensures(nvjitlink_lto_options, (target, emit_ptx, allow, optimize), r),
    ensures
        reads(r@, link_line(target@, emit_ptx, allow, optimize)),
{
    lemma_link_line(target@, emit_ptx, allow, optimize);
    lemma_reads(r@, link_line(target@, emit_ptx, allow, optimize));
}

/// A compilation is told its target, that LTOIR is wanted, and its contraction policy.
pub proof fn compilations_are_told_their_options(target: &str, allow: bool, r: Vec<String>)
    requires
        call_ensures(nvvm_compile_options, (target, allow), r),
    ensures
        reads(r@, seq![target@, "-gen-lto"@, policy(allow)]),
{
    lemma_reads(r@, seq![target@, "-gen-lto"@, policy(allow)]);
}

/// What a step of a build asks a tool for is what the plan says: libNVVM compiles the
/// libdevice bitcode and then the module for the virtual target, and nvJitLink links the
/// LTOIR module for the real target to the output of the plan. Only a cubin is linked with
/// optimization.
pub proof fn tools_are_asked_for_what_is_planned(
    plan: BuildPlan,
    stage: BuildStage,
    event: BuildEvent,
    r: (BuildStage, BuildAction),
)
    requires
        build_may_follow(stage, event),
        call_ensures(continue_build, (&plan, stage, event), r),
    ensures
        r.1 matches BuildAction::Compile(program) ==> {
            &&& r.0 == BuildStage::Compiling
            &&& reads(program.modules@, seq!["libdevice.10.bc"@, plan.nvvm_module_name@])
            &&& reads(program.verify_options@, seq![spelling("-arch=compute_"@, plan.arch)])
            &&& reads(
                program.compile_options@,
                seq![
                    spelling("-arch=compute_"@, plan.arch),
                    "-gen-lto"@,
                    policy(plan.allow_fma_contraction),
                ],
            )
        },
        r.1 matches BuildAction::Link(request) ==> {
            &&& r.0 == BuildStage::LinkingOptimized || r.0 == BuildStage::LinkingPlain
            &&& r.0 == BuildStage::LinkingOptimized ==> plan.output == BuildOutput::Cubin
            &&& request.module_name@ == plan.ltoir_module_name@
            &&& reads(
                request.options@,
                link_line(
                    spelling("-arch=sm_"@, plan.arch),
                    plan.output == BuildOutput::Ptx,
                    plan.allow_fma_contraction,
                    r.0 == BuildStage::LinkingOptimized,
                ),
            )
        },
{
    lemma_spellings(plan.arch);
    let sm = spelling("-arch=sm_"@, plan.arch);
    let compute = spelling("-arch=compute_"@, plan.arch);
    let ptx = plan.output == BuildOutput::Ptx;
    let allow = plan.allow_fma_contraction;
    let optimize = r.0 == BuildStage::LinkingOptimized;
    lemma_link_line(sm, ptx, allow, optimize);
    if let BuildAction::Compile(program) = r.1 {
        lemma_reads(program.modules@, seq!["libdevice.10.bc"@, plan.nvvm_module_name@]);
        lemma_reads(program.verify_options@, seq![compute]);
        lemma_reads(program.compile_options@, seq![compute, "-gen-lto"@, policy(allow)]);
    }
    if let BuildAction::Link(request) = r.1 {
        lemma_reads(request.options@, link_line(sm, ptx, allow, optimize));
    }
}

/// A build from NVVM IR starts with the libdevice bitcode, and one from LTOIR with the
/// linker.
pub proof fn builds_start_with_what_they_need(plan: BuildPlan, r: (BuildStage, BuildAction))
    requires
        call_ensures(start_build, (&plan,), r),
    ensures
        plan.source == BuildSource::NvvmIr ==> r.0 == BuildStage::ReadingLibdevice
            && r.1 is ReadLibdevice,
        plan.source == BuildSource::Ltoir ==> r.0 == BuildStage::LoadingLinker && r.1 is LoadLinker,
{
}

/// The step links the output for the first time.
pub open spec fn links_first(plan: BuildPlan, r: (BuildStage, BuildAction)) -> bool {
    r.1 is Link && r.0 == (match plan.output {
        BuildOutput::Cubin => BuildStage::LinkingOptimized,
        BuildOutput::Ptx => BuildStage::LinkingPlain,
    })
}

/// A build goes from the libdevice bitcode to libNVVM, from its two versions to the
/// compilation and from there to the linker and the link. A cached build asks the cache
/// once both tools are loaded: an entry ends it, and without one it compiles, where it
/// starts from NVVM IR, and links.
pub proof fn builds_take_their_steps_in_order(
    plan: BuildPlan,
    stage: BuildStage,
    event: BuildEvent,
    r: (BuildStage, BuildAction),
)
    requires
        build_may_follow(stage, event),
        !(event is Failed),
        call_ensures(continue_build, (&plan, stage, event), r),
    ensures
        stage == BuildStage::ReadingLibdevice ==> r.0 == BuildStage::LoadingNvvm
            && r.1 is LoadNvvm,
        stage == BuildStage::LoadingNvvm ==> r.0 == BuildStage::QueryingIrVersion
            && r.1 is QueryIrVersion,
        event matches BuildEvent::IrVersion { major, minor } ==> (if major == 2 && minor == 0 {
            r.0 == BuildStage::QueryingLlvmVersion && r.1 is QueryLlvmVersion
        } else {
            r.0 == BuildStage::Ended && r.1 == BuildAction::Fail(
                LtoirError::UnsupportedNvvmIrVersion { major, minor },
            )
        }),
        event matches BuildEvent::LlvmVersion(version) ==> {
            let fits = version is None || (plan.arch.capability < 100 <==> version == Some(7i32));
            &&& fits && plan.cached ==> r.0 == BuildStage::LoadingLinker && r.1 is LoadLinker
            &&& fits && !plan.cached ==> r.0 == BuildStage::Compiling && r.1 is Compile
            &&& !fits ==> r.0 == BuildStage::Ended && r.1 is Fail
        },
        stage == BuildStage::Compiling && plan.cached ==> links_first(plan, r),
        stage == BuildStage::Compiling && !plan.cached ==> r.0 == BuildStage::LoadingLinker
            && r.1 is LoadLinker,
        stage == BuildStage::LoadingLinker && plan.cached ==> r.0 == BuildStage::LookingUp
            && r.1 is LookUp,
        stage == BuildStage::LoadingLinker && !plan.cached ==> links_first(plan, r),
        stage == BuildStage::LookingUp && event is Done ==> r.0 == BuildStage::Ended
            && r.1 is Finish,
        event is CacheMiss && plan.cached && plan.source == BuildSource::NvvmIr ==> r.0
            == BuildStage::Compiling && r.1 is Compile,
        event is CacheMiss && plan.source == BuildSource::Ltoir ==> links_first(plan, r),
        stage == BuildStage::LinkingOptimized || stage == BuildStage::LinkingPlain ==> r.0
            == BuildStage::Ended && r.1 is Finish,
{
}

/// libNVVM is accepted with version 2.0 of NVVM IR only.
pub proof fn one_version_is_accepted(major: i32, minor: i32, r: Result<(), LtoirError>)
    requires
        call_ensures(validate_ir_version, (major, minor), r),
    ensures
        r is Ok <==> major == 2 && minor == 0,
        r is Err ==> r == Err::<(), LtoirError>(
            LtoirError::UnsupportedNvvmIrVersion { major, minor },
        ),
{
}

/// An architecture below capability 100 takes LLVM 7 and any other takes a later one. A
/// libNVVM that does not say which it uses is accepted.
pub proof fn dialects_fit_the_architecture(
    arch: CudaArch,
    version: Option<i32>,
    r: Result<(), LtoirError>,
)
    requires
        call_ensures(validate_dialect, (&arch, version), r),
    ensures
        r is Ok <==> (version is None || (arch.capability < 100 <==> version == Some(7i32))),
        r is Err ==> (r matches Err(LtoirError::DialectMismatch { target, llvm_major, expected })
            && target@ == spelling("compute_"@, arch) && version == Some(llvm_major) && expected@
            == (if arch.capability < 100 {
            "legacy LLVM 7"@
        } else {
            "modern opaque-pointer"@
        })),
{
    lemma_spellings(arch);
    if r is Err {
        assert(crate::sidecar::viewed(r)->Err_0 == r->Err_0@);
    }
}

// ---------------------------------------------------------------------------
// Success
// ---------------------------------------------------------------------------

/// An artifact of NVVM output that is current and readable, emitted for a given
/// architecture and under a readable policy, is always planned to be built: to a cubin for a
/// device of its capability, and to PTX, where it has no suffix and is older than
/// capability 100, for a device of 100 and above.
pub proof fn current_artifacts_are_built(
    dir: &str,
    name: &str,
    probe: ArtifactProbe,
    inputs: LoadInputs,
    marker: &str,
    arch: CudaArch,
    major: i32,
    minor: i32,
    r: Result<LoadPlan, LtoirError>,
)
    requires
        planned_load(dir, name, probe, inputs, marker, r),
        probe.target is Ok,
        probe.ll || probe.ltoir,
        probe.target->Ok_0 || !probe.ptx,
        inputs.sidecars.target is NotFound,
        inputs.explicit_target matches Some(text) && text@ == spelling("sm_"@, arch),
        inputs.compute_capability == Ok::<(i32, i32), String>((major, minor)),
        major > 0 && 0 <= minor <= 9 && 10 * major + minor <= u32::MAX,
        inputs.artifact is Ok,
        inputs.sidecars.options is Policy || inputs.sidecars.options is NotFound,
        inputs.sidecars.options_exist is Ok,
    ensures
        arch.capability == 10 * major + minor ==> (r matches Ok(plan) && (
        crate::ltoir::planned_build(plan) matches Some(build) && build.output
            == BuildOutput::Cubin && build.arch == arch)),
        arch.suffix is None && arch.capability < 100 && 10 * major + minor >= 100 ==> (
        r matches Ok(plan) && (crate::ltoir::planned_build(plan) matches Some(build)
            && build.output == BuildOutput::Ptx && build.arch == arch)),
{
    lemma_device(major, minor);
    lemma_spellings(arch);
    crate::cuda_arch::spellings_name_the_architecture(arch);
}

/// An optimized link that the linker refuses because of debug information is tried once
/// more without optimization, and any other failure ends the build with its reason. A cache
/// that fails counts as one without an entry.
pub proof fn failures_end_a_build_or_are_tried_again(
    plan: BuildPlan,
    stage: BuildStage,
    error: LtoirError,
    r: (BuildStage, BuildAction),
    before: Seq<char>,
    behind: Seq<char>,
)
    requires
        stage != BuildStage::Ended,
        call_ensures(continue_build, (&plan, stage, BuildEvent::Failed(error)), r),
    ensures
        stage == BuildStage::LinkingOptimized && (error matches LtoirError::NvJitLink(message)
            && message@ == before + "Optimized debugging not supported"@ + behind) ==> r.0
            == BuildStage::LinkingPlain && r.1 is Link,
        stage != BuildStage::LinkingOptimized && stage != BuildStage::LookingUp ==> r.0
            == BuildStage::Ended && (r.1 matches BuildAction::Fail(reason) && reason@ == error@),
        stage == BuildStage::LookingUp ==> (if plan.cached && plan.source == BuildSource::NvvmIr {
            r.0 == BuildStage::Compiling && r.1 is Compile
        } else {
            links_first(plan, r)
        }),
        r.1 is Link || r.1 is Compile || (r.1 matches BuildAction::Fail(reason) && reason@
            == error@),
{
    if let LtoirError::NvJitLink(message) = error {
        let needle = "Optimized debugging not supported"@;
        if message@ == before + needle + behind {
            let text = error@.text();
            let at = "nvJitLink: "@.len() + before.len();
            assert(text.subrange(at as int, at as int + needle.len()) =~= needle);
            assert(crate::text::occurs_at(text, needle, at as int));
        }
    }
}

/// The message of an error says what failed, with the paths, targets and reasons that it
/// holds.
pub proof fn error_messages_say_what_failed(error: LtoirError, r: String)
    requires
        call_ensures(LtoirError::message, (&error,), r),
    ensures
        match error {
            LtoirError::InvalidTarget(why) => r@ == "invalid CUDA architecture `"@ + why.value@
                + "`: expected sm_XX or compute_XX"@,
            LtoirError::TargetMismatch { ir_path, emitted, requested } => r@
                == "NVVM IR target mismatch: "@ + ir_path@ + " was emitted for "@ + emitted@
                + ", but the loader requested "@ + requested@,
            LtoirError::InvalidCompileOptions { path, value } => r@
                == "invalid cuda-oxide compile metadata in "@ + path@ + ": "@ + value@,
            LtoirError::IncompatibleExecutionTarget { emitted, execution, reason } => r@
                == "cannot execute CUDA artifact emitted for "@ + emitted@ + " on "@ + execution@
                + ": "@ + reason@,
            LtoirError::Nvvm(why) => r@ == "libnvvm: "@ + why@,
            LtoirError::NvJitLink(why) => r@ == "nvJitLink: "@ + why@,
            LtoirError::Io { path, source } => r@ == "Failed reading "@ + path@ + ": "@ + source@,
            LtoirError::Driver(why) => r@ == "CUDA driver: "@ + why@,
            _ => true,
        },
{
}

}
