//! Building and loading of NVVM output.

use cuda_oxide::cache_key::identified_ltoir_key;
use cuda_oxide::cache_key::identified_nvvm_key;
use cuda_oxide::cache_key::loaded_tool_digest;
use cuda_oxide::cache_key::ltoir_cubin_cache_key_with_options;
use cuda_oxide::cache_key::nvvm_ir_cubin_cache_key_with_options;
use cuda_oxide::cache_key::CacheKey;
use cuda_oxide::cache_key::ToolFile;
use cuda_oxide::cache_result::report_cache_result;
use cuda_oxide::cache_result::report_changed_tool;
use cuda_oxide::cache_result::uncached_result;
use cuda_oxide::cuda_arch::execution_arch;
use cuda_oxide::cuda_arch::ArchSuffix;
use cuda_oxide::cuda_arch::CudaArch;
use cuda_oxide::libdevice::find_libdevice;
use cuda_oxide::libdevice::libdevice_candidates;
use cuda_oxide::libdevice::ToolkitEnv;
use cuda_oxide::ltoir::build_cubin_from_ll;
use cuda_oxide::ltoir::build_cubin_from_nvvm_ir;
use cuda_oxide::ltoir::build_cubin_from_nvvm_ir_with_options;
use cuda_oxide::ltoir::build_ptx_from_nvvm_ir;
use cuda_oxide::ltoir::continue_build;
use cuda_oxide::ltoir::execution_arch_for_context;
use cuda_oxide::ltoir::execution_route;
use cuda_oxide::ltoir::link_ltoir_to_cubin;
use cuda_oxide::ltoir::link_ltoir_to_ptx;
use cuda_oxide::ltoir::load_kernel_module;
use cuda_oxide::ltoir::nvjitlink_lto_options;
use cuda_oxide::ltoir::nvvm_compile_options;
use cuda_oxide::ltoir::select_file_artifact;
use cuda_oxide::ltoir::start_build;
use cuda_oxide::ltoir::validate_nvvm_frontend;
use cuda_oxide::ltoir::ArtifactProbe;
use cuda_oxide::ltoir::BuildAction;
use cuda_oxide::ltoir::BuildEvent;
use cuda_oxide::ltoir::BuildPlan;
use cuda_oxide::ltoir::BuildStage;
use cuda_oxide::ltoir::ExecutionRoute;
use cuda_oxide::ltoir::FileArtifact;
use cuda_oxide::ltoir::LoadInputs;
use cuda_oxide::ltoir::LoadPlan;
use cuda_oxide::ltoir_error::LtoirError;
use cuda_oxide::sidecar::emitted_compile_options_path;
use cuda_oxide::sidecar::emitted_target_path;
use cuda_oxide::sidecar::read_emitted_target;
use cuda_oxide::sidecar::read_fma_contraction_option;
use cuda_oxide::sidecar::target_arch;
use cuda_oxide::sidecar::target_arch_for_artifact_with_explicit;
use cuda_oxide::sidecar::validate_ir_target_sidecar;
use cuda_oxide::sidecar::write_artifact_target_sidecar;
use cuda_oxide::sidecar::FileText;
use cuda_oxide::sidecar::OptionsFile;
use cuda_oxide::sidecar::Sidecars;

const MARKER: &str = "compile-options=1";

fn arch(text: &str) -> CudaArch {
    CudaArch::parse(text).unwrap()
}

fn no_sidecars() -> Sidecars {
    Sidecars {
        target: FileText::NotFound,
        options_exist: Ok(false),
        options: OptionsFile::NotFound,
    }
}

fn target_file(text: &str) -> Sidecars {
    Sidecars {
        target: FileText::Contents(text.to_string()),
        ..no_sidecars()
    }
}

fn nvvm_ir_cubin_cache_key(
    nvvm_ir: &[u8],
    nvvm_module_name: &str,
    ltoir_module_name: &str,
    arch: &CudaArch,
    libdevice: &[u8],
    nvvm_digest: &[u8; 32],
    nvjitlink_digest: &[u8; 32],
) -> CacheKey {
    nvvm_ir_cubin_cache_key_with_options(
        nvvm_ir,
        nvvm_module_name,
        ltoir_module_name,
        arch,
        libdevice,
        (nvvm_digest, nvjitlink_digest),
        true,
    )
}

fn ltoir_cubin_cache_key(
    ltoir: &[u8],
    module_name: &str,
    arch: &CudaArch,
    nvjitlink_digest: &[u8; 32],
) -> CacheKey {
    ltoir_cubin_cache_key_with_options(ltoir, module_name, arch, nvjitlink_digest, true)
}

#[test]
fn recorded_target_takes_precedence_over_environment() {
    let ll = "target_sidecar/kernel.ll";
    let sidecars = target_file("compute_86\n");

    let emitted = read_emitted_target(ll, &sidecars, MARKER).unwrap().unwrap();
    assert_eq!(emitted.sm(), "sm_86");
    assert_eq!(
        target_arch_for_artifact_with_explicit(ll, &sidecars, MARKER, Some("sm_120"))
            .unwrap()
            .sm(),
        "sm_86",
        "the recorded target must take precedence"
    );
    validate_ir_target_sidecar(ll, &sidecars, MARKER, &arch("sm_86")).unwrap();

    let mismatch = validate_ir_target_sidecar(ll, &sidecars, MARKER, &arch("sm_120"))
        .expect_err("cross-target reuse must fail");
    assert!(matches!(mismatch, LtoirError::TargetMismatch { .. }));
}

#[test]
fn versioned_target_requires_valid_compile_options() {
    let ll = "versioned_compile_options/kernel.ll";
    let target = format!("sm_86\n{MARKER}\n");
    let mut sidecars = target_file(&target);

    assert!(matches!(
        read_emitted_target(ll, &sidecars, MARKER),
        Err(LtoirError::InvalidCompileOptions { .. })
    ));

    sidecars.options_exist = Ok(true);
    sidecars.options = OptionsFile::Policy(false);
    assert_eq!(
        read_emitted_target(ll, &sidecars, MARKER)
            .unwrap()
            .unwrap()
            .sm(),
        "sm_86"
    );
    assert!(!read_fma_contraction_option(ll, &sidecars.options).unwrap());

    sidecars.options = OptionsFile::Malformed("fma-contraction=off\n".to_string());
    assert!(matches!(
        read_emitted_target(ll, &sidecars, MARKER),
        Err(LtoirError::InvalidCompileOptions { .. })
    ));
}

#[test]
fn nvidia_lto_options_set_fma_policy_explicitly() {
    assert_eq!(
        nvvm_compile_options("-arch=compute_86", true),
        ["-arch=compute_86", "-gen-lto", "-fma=1"]
    );
    assert_eq!(
        nvvm_compile_options("-arch=compute_86", false),
        ["-arch=compute_86", "-gen-lto", "-fma=0"]
    );
    assert_eq!(
        nvjitlink_lto_options("-arch=sm_86", false, false, false),
        ["-arch=sm_86", "-lto", "-fma=0"]
    );
    assert_eq!(
        nvjitlink_lto_options("-arch=sm_86", true, true, false),
        ["-arch=sm_86", "-lto", "-ptx", "-fma=1"]
    );
    // `optimize` adds `-O3` after any `-ptx`, before the FMA policy.
    assert_eq!(
        nvjitlink_lto_options("-arch=sm_86", false, true, true),
        ["-arch=sm_86", "-lto", "-O3", "-fma=1"]
    );
}

#[test]
fn artifact_without_target_requires_explicit_target() {
    let ll = "missing_target/kernel.ll";
    let sidecars = no_sidecars();

    let error = target_arch_for_artifact_with_explicit(ll, &sidecars, MARKER, None)
        .expect_err("the original build target is required");
    assert!(matches!(error, LtoirError::TargetNotFound));

    let asserted =
        target_arch_for_artifact_with_explicit(ll, &sidecars, MARKER, Some("compute_86")).unwrap();
    assert_eq!(asserted.sm(), "sm_86");
}

#[test]
fn explicit_build_target_is_recorded_for_sibling_ltoir() {
    let ll = "record_explicit_target/kernel.ll";
    let requested = arch("compute_86");

    validate_ir_target_sidecar(ll, &no_sidecars(), MARKER, &requested).unwrap();
    let text = write_artifact_target_sidecar(ll, &no_sidecars(), MARKER, &requested).unwrap();
    assert_eq!(text, "sm_86\n");

    let ltoir = "record_explicit_target/kernel.ltoir";
    assert_eq!(emitted_target_path(ltoir), emitted_target_path(ll));
    assert_eq!(
        target_arch_for_artifact_with_explicit(ltoir, &target_file(&text), MARKER, None)
            .unwrap()
            .sm(),
        "sm_86"
    );
}

#[test]
fn recorded_nvvm_output_takes_precedence_over_stale_ptx() {
    assert_eq!(
        select_file_artifact(true, true, false, true, true),
        Some(FileArtifact::NvvmIr)
    );
    assert_eq!(
        select_file_artifact(true, false, true, true, true),
        Some(FileArtifact::Ltoir)
    );
    assert_eq!(
        select_file_artifact(true, false, false, true, true),
        None,
        "a missing NVVM artifact must not fall back to older output"
    );

    // In an ordinary PTX build there is also an LLVM `.ll`, but no NVVM target
    // sidecar. PTX is therefore the current loadable artifact.
    assert_eq!(
        select_file_artifact(true, true, false, true, false),
        Some(FileArtifact::Ptx)
    );
}

#[test]
fn file_artifact_selection_accepts_older_unrecorded_nvvm_output() {
    assert_eq!(
        select_file_artifact(false, true, false, true, false),
        Some(FileArtifact::NvvmIr)
    );
    assert_eq!(
        select_file_artifact(false, false, true, true, false),
        Some(FileArtifact::Ltoir)
    );
    assert_eq!(
        select_file_artifact(false, false, false, true, false),
        Some(FileArtifact::Cubin)
    );
    assert_eq!(
        select_file_artifact(false, false, false, false, false),
        None
    );
}

#[test]
fn missing_ll_cannot_reuse_old_cubin_or_publish_target() {
    let ll = "missing_ll_old_cubin/kernel.ll";
    let error = build_cubin_from_ll(
        ll,
        "sm_86",
        Err("No such file or directory (os error 2)".to_string()),
        &no_sidecars(),
        MARKER,
    )
    .expect_err("a derived cubin is invalid without its source NVVM IR");
    assert!(matches!(error, LtoirError::Io { path, .. } if path == ll));
}

#[test]
fn invalid_link_target_fails_before_loading_nvidia_libraries() {
    let error = link_ltoir_to_cubin(&[], "empty", "nvvm-ir").unwrap_err();
    assert!(matches!(error, LtoirError::InvalidTarget(_)));

    let error = link_ltoir_to_ptx(&[], "empty", "nvvm-ir").unwrap_err();
    assert!(matches!(error, LtoirError::InvalidTarget(_)));
}

#[test]
fn same_target_keeps_native_cubin_route() {
    for (emitted, execution) in [
        ("sm_86", "sm_86"),
        ("compute_120", "sm_120"),
        // The suffix is preserved in the link target. The driver remains responsible
        // for accepting it on this same numeric device architecture.
        ("sm_90a", "sm_90"),
    ] {
        assert_eq!(
            execution_route(&arch(emitted), &arch(execution)).unwrap(),
            ExecutionRoute::Cubin,
            "{emitted} on {execution}"
        );
    }
}

#[test]
fn standard_legacy_target_bridges_forward_to_blackwell_as_ptx() {
    for (emitted, execution) in [
        ("sm_75", "sm_100"),
        ("compute_86", "sm_120"),
        ("sm_90", "sm_120"),
    ] {
        assert_eq!(
            execution_route(&arch(emitted), &arch(execution)).unwrap(),
            ExecutionRoute::PtxBridge,
            "{emitted} on {execution}"
        );
    }
}

#[test]
fn ptx_bridge_rejects_suffixed_and_unsupported_forward_targets() {
    for (emitted, execution) in [
        ("sm_90a", "sm_120"),
        ("sm_90f", "sm_120"),
        ("sm_86", "sm_90"),
        ("sm_100", "sm_120"),
    ] {
        let error = execution_route(&arch(emitted), &arch(execution))
            .expect_err("cross-target route must be explicitly supported");
        assert!(
            matches!(error, LtoirError::IncompatibleExecutionTarget { .. }),
            "{emitted} on {execution}: {}",
            error.message()
        );
    }
}

#[test]
fn execution_route_rejects_backward_targets() {
    let error = execution_route(&arch("sm_120"), &arch("sm_86"))
        .expect_err("a newer artifact cannot run on an older GPU");

    let LtoirError::IncompatibleExecutionTarget {
        emitted,
        execution,
        reason,
    } = error
    else {
        panic!("unexpected error: {}", error.message());
    };
    assert_eq!(emitted, "sm_120");
    assert_eq!(execution, "sm_86");
    assert!(reason.contains("newer GPU"));
}

#[test]
fn nvvm_cubin_cache_key_tracks_every_external_input() {
    let sm_86 = arch("sm_86");
    let nvvm = [1_u8; 32];
    let nvjitlink = [2_u8; 32];
    let original = nvvm_ir_cubin_cache_key(
        b"nvvm ir",
        "kernel.ll",
        "kernel.ltoir",
        &sm_86,
        b"libdevice",
        &nvvm,
        &nvjitlink,
    );

    let changed = [
        nvvm_ir_cubin_cache_key(
            b"different nvvm ir",
            "kernel.ll",
            "kernel.ltoir",
            &sm_86,
            b"libdevice",
            &nvvm,
            &nvjitlink,
        ),
        nvvm_ir_cubin_cache_key(
            b"nvvm ir",
            "renamed.ll",
            "kernel.ltoir",
            &sm_86,
            b"libdevice",
            &nvvm,
            &nvjitlink,
        ),
        nvvm_ir_cubin_cache_key(
            b"nvvm ir",
            "kernel.ll",
            "renamed.ltoir",
            &sm_86,
            b"libdevice",
            &nvvm,
            &nvjitlink,
        ),
        nvvm_ir_cubin_cache_key(
            b"nvvm ir",
            "kernel.ll",
            "kernel.ltoir",
            &arch("sm_90"),
            b"libdevice",
            &nvvm,
            &nvjitlink,
        ),
        nvvm_ir_cubin_cache_key(
            b"nvvm ir",
            "kernel.ll",
            "kernel.ltoir",
            &sm_86,
            b"different libdevice",
            &nvvm,
            &nvjitlink,
        ),
        nvvm_ir_cubin_cache_key(
            b"nvvm ir",
            "kernel.ll",
            "kernel.ltoir",
            &sm_86,
            b"libdevice",
            &[3_u8; 32],
            &nvjitlink,
        ),
        nvvm_ir_cubin_cache_key(
            b"nvvm ir",
            "kernel.ll",
            "kernel.ltoir",
            &sm_86,
            b"libdevice",
            &nvvm,
            &[4_u8; 32],
        ),
    ];
    assert!(changed.into_iter().all(|key| key != original));

    assert_eq!(
        original,
        nvvm_ir_cubin_cache_key(
            b"nvvm ir",
            "kernel.ll",
            "kernel.ltoir",
            &arch("compute_86"),
            b"libdevice",
            &nvvm,
            &nvjitlink,
        ),
        "equivalent target spellings must normalize to one key"
    );
    assert_ne!(
        original,
        nvvm_ir_cubin_cache_key(
            b"nvvm ir",
            "kernel.ll",
            "kernel.ltoir",
            &arch("sm_86a"),
            b"libdevice",
            &nvvm,
            &nvjitlink,
        ),
        "architecture suffixes must remain part of the key"
    );
    assert_ne!(
        original,
        nvvm_ir_cubin_cache_key_with_options(
            b"nvvm ir",
            "kernel.ll",
            "kernel.ltoir",
            &sm_86,
            b"libdevice",
            (&nvvm, &nvjitlink),
            false,
        ),
        "FMA policy changes both libNVVM and nvJitLink output"
    );
}

#[test]
fn standalone_ltoir_cache_key_is_separate_and_complete() {
    let sm_86 = arch("sm_86");
    let nvjitlink = [5_u8; 32];
    let original = ltoir_cubin_cache_key(b"ltoir", "kernel.ltoir", &sm_86, &nvjitlink);

    assert_ne!(
        original,
        ltoir_cubin_cache_key(b"different ltoir", "kernel.ltoir", &sm_86, &nvjitlink)
    );
    assert_ne!(
        original,
        ltoir_cubin_cache_key(b"ltoir", "renamed.ltoir", &sm_86, &nvjitlink)
    );
    assert_ne!(
        original,
        ltoir_cubin_cache_key(b"ltoir", "kernel.ltoir", &arch("sm_90"), &nvjitlink)
    );
    assert_ne!(
        original,
        ltoir_cubin_cache_key(b"ltoir", "kernel.ltoir", &sm_86, &[6_u8; 32])
    );
    assert_ne!(
        original,
        ltoir_cubin_cache_key_with_options(b"ltoir", "kernel.ltoir", &sm_86, &nvjitlink, false),
        "FMA policy changes nvJitLink LTO output"
    );
    assert_ne!(
        original,
        nvvm_ir_cubin_cache_key(
            b"ltoir",
            "kernel.ltoir",
            "kernel.ltoir",
            &sm_86,
            b"",
            &[0_u8; 32],
            &nvjitlink,
        ),
        "NVVM IR and standalone LTOIR routes must never share a key"
    );
}

// ---------------------------------------------------------------------------
// Architectures and their files
// ---------------------------------------------------------------------------

#[test]
fn architectures_parse_in_both_spellings() {
    assert_eq!(
        arch("compute_90a"),
        CudaArch {
            capability: 90,
            suffix: Some(ArchSuffix::A),
        }
    );
    assert_eq!(arch("compute_90a").sm(), "sm_90a");
    assert_eq!(arch("sm_120f").compute(), "compute_120f");
    assert!(arch("sm_90").uses_legacy_llvm());
    assert!(!arch("sm_100").uses_legacy_llvm());
    for text in ["", "sm_", "sm86", "sm_86x", "compute_", "nvvm-ir", "sm_86a "] {
        assert!(CudaArch::parse(text).is_err(), "{text}");
    }
    assert_eq!(execution_arch(8, 6).unwrap().sm(), "sm_86");
    assert_eq!(execution_arch(12, 0).unwrap().sm(), "sm_120");
}

#[test]
fn sidecars_stand_beside_the_artifact() {
    assert_eq!(emitted_target_path("out/k.ll"), "out/k.target");
    assert_eq!(emitted_compile_options_path("out/k.ltoir"), "out/k.options");
    assert_eq!(target_arch(Some("sm_75")).unwrap(), "sm_75");
    assert!(matches!(target_arch(None), Err(LtoirError::TargetNotFound)));
}

#[test]
fn what_is_recorded_is_read_back() {
    let mut sidecars = no_sidecars();
    sidecars.options_exist = Ok(true);
    sidecars.options = OptionsFile::Policy(true);
    let text =
        write_artifact_target_sidecar("k.ll", &sidecars, MARKER, &arch("sm_90a")).unwrap();
    assert_eq!(text, format!("sm_90a\n{MARKER}\n"));
    sidecars.target = FileText::Contents(text);
    assert_eq!(
        read_emitted_target("k.ll", &sidecars, MARKER).unwrap(),
        Some(arch("sm_90a"))
    );
}

#[test]
fn unreadable_sidecars_are_errors() {
    let sidecars = Sidecars {
        target: FileText::Failed("denied".to_string()),
        ..no_sidecars()
    };
    let error = read_emitted_target("k.ll", &sidecars, MARKER).unwrap_err();
    assert_eq!(error.message(), "Failed reading k.target: denied");
    assert!(matches!(
        read_fma_contraction_option("k.ll", &OptionsFile::Failed("denied".to_string())),
        Err(LtoirError::Io { .. })
    ));
    assert!(read_fma_contraction_option("k.ll", &OptionsFile::NotFound).unwrap());
}

// ---------------------------------------------------------------------------
// Builds
// ---------------------------------------------------------------------------

fn step(plan: &BuildPlan, at: BuildStage, event: BuildEvent) -> (BuildStage, BuildAction) {
    continue_build(plan, at, event)
}

#[test]
fn builds_run_through_their_stages() {
    let plan =
        build_cubin_from_nvvm_ir_with_options(b"ir", "k.ll", "compute_86", false).unwrap();
    let (stage, action) = start_build(&plan);
    assert!(matches!(action, BuildAction::ReadLibdevice));
    let (stage, action) = step(&plan, stage, BuildEvent::Done);
    assert!(matches!(action, BuildAction::LoadNvvm));
    let (stage, action) = step(&plan, stage, BuildEvent::Done);
    assert!(matches!(action, BuildAction::QueryIrVersion));
    let (stage, action) = step(&plan, stage, BuildEvent::IrVersion { major: 2, minor: 0 });
    assert!(matches!(action, BuildAction::QueryLlvmVersion));
    let (stage, action) = step(&plan, stage, BuildEvent::LlvmVersion(Some(7)));
    let BuildAction::Compile(program) = action else {
        panic!("expected a compilation");
    };
    assert_eq!(program.modules, ["libdevice.10.bc", "k.ll"]);
    assert_eq!(
        program.compile_options,
        ["-arch=compute_86", "-gen-lto", "-fma=0"]
    );
    let (stage, action) = step(&plan, stage, BuildEvent::Done);
    assert!(matches!(action, BuildAction::LoadLinker));
    let (stage, action) = step(&plan, stage, BuildEvent::Done);
    let BuildAction::Link(link) = action else {
        panic!("expected a link");
    };
    assert_eq!(link.options, ["-arch=sm_86", "-lto", "-O3", "-fma=0"]);
    assert_eq!(stage, BuildStage::LinkingOptimized);

    // A module with debug information is linked once more without optimization.
    let (stage, action) = step(
        &plan,
        stage,
        BuildEvent::Failed(LtoirError::NvJitLink(
            "ptxas: Optimized debugging not supported".to_string(),
        )),
    );
    let BuildAction::Link(link) = action else {
        panic!("expected another link");
    };
    assert_eq!(link.options, ["-arch=sm_86", "-lto", "-fma=0"]);
    let (stage, action) = step(&plan, stage, BuildEvent::Done);
    assert!(matches!(action, BuildAction::Finish));
    assert_eq!(stage, BuildStage::Ended);
}

#[test]
fn other_link_failures_end_the_build() {
    let plan = link_ltoir_to_cubin(b"lto", "k.ltoir", "sm_86").unwrap();
    let (stage, action) = start_build(&plan);
    assert!(matches!(action, BuildAction::LoadLinker));
    let (stage, _) = step(&plan, stage, BuildEvent::Done);
    let (stage, action) = step(
        &plan,
        stage,
        BuildEvent::Failed(LtoirError::NvJitLink("out of memory".to_string())),
    );
    assert_eq!(stage, BuildStage::Ended);
    let BuildAction::Fail(error) = action else {
        panic!("expected a failure");
    };
    assert_eq!(error.message(), "nvJitLink: out of memory");
}

#[test]
fn ptx_builds_link_without_optimization() {
    let plan = build_ptx_from_nvvm_ir(b"ir", "k.ll", "sm_86").unwrap();
    let (stage, action) = step(&plan, BuildStage::LoadingLinker, BuildEvent::Done);
    assert_eq!(stage, BuildStage::LinkingPlain);
    let BuildAction::Link(link) = action else {
        panic!("expected a link");
    };
    assert_eq!(link.options, ["-arch=sm_86", "-lto", "-ptx", "-fma=1"]);
    assert!(build_cubin_from_nvvm_ir(b"ir", "k.ll", "gfx90").is_err());
}

#[test]
fn frontends_are_checked_by_version_then_dialect() {
    assert!(validate_nvvm_frontend((2, 0), None, &arch("sm_86")).is_ok());
    let error = validate_nvvm_frontend((1, 9), Some(7), &arch("sm_86")).unwrap_err();
    assert_eq!(
        error.message(),
        "installed libNVVM accepts NVVM IR 1.9, but cuda-oxide emits NVVM IR 2.0"
    );
    let error = validate_nvvm_frontend((2, 0), Some(7), &arch("sm_120")).unwrap_err();
    assert!(matches!(error, LtoirError::DialectMismatch { .. }));
}

#[test]
fn file_builds_are_cached_and_recorded() {
    let plan = build_cubin_from_ll(
        "out/k.ll",
        "sm_90",
        Ok(b"ir".to_vec()),
        &no_sidecars(),
        MARKER,
    )
    .unwrap();
    assert_eq!(plan.target_path, "out/k.target");
    assert_eq!(plan.target_text, "sm_90\n");
    assert_eq!(plan.source_dir, "out");
    assert_eq!(plan.ltoir_path, "out/k.ltoir");
    assert_eq!(plan.cubin_path, "out/k.cubin");
    assert!(plan.build.cached);
    assert_eq!(plan.build.input, b"ir");
    let (stage, action) = step(&plan.build, BuildStage::LoadingLinker, BuildEvent::Done);
    assert!(matches!(action, BuildAction::LookUp));
    let (_, action) = step(&plan.build, stage, BuildEvent::CacheMiss);
    assert!(matches!(action, BuildAction::Compile(_)));
    let (_, action) = step(&plan.build, stage, BuildEvent::Done);
    assert!(matches!(action, BuildAction::Finish));
    // A cache that fails does not prevent the build.
    let (_, action) = step(
        &plan.build,
        stage,
        BuildEvent::Failed(LtoirError::Driver("cache".to_string())),
    );
    assert!(matches!(action, BuildAction::Compile(_)));
}

fn inputs(capability: (i32, i32), sidecars: Sidecars, explicit: Option<&str>) -> LoadInputs {
    LoadInputs {
        sidecars,
        explicit_target: explicit.map(|s| s.to_string()),
        compute_capability: Ok(capability),
        artifact: Ok(b"ir".to_vec()),
    }
}

fn probe(target: bool, ptx: bool, ll: bool, ltoir: bool, cubin: bool) -> ArtifactProbe {
    ArtifactProbe {
        target: Ok(target),
        ptx,
        ll,
        ltoir,
        cubin,
    }
}

#[test]
fn modules_load_from_the_current_artifact() {
    let plan = load_kernel_module(
        "d",
        "k",
        &probe(false, true, true, false, true),
        inputs((8, 6), no_sidecars(), None),
        MARKER,
    )
    .unwrap();
    assert!(matches!(plan, LoadPlan::File(path) if path == "d/k.ptx"));

    let plan = load_kernel_module(
        "d",
        "k",
        &probe(true, true, true, false, false),
        inputs((8, 6), target_file("sm_86\n"), None),
        MARKER,
    )
    .unwrap();
    assert!(matches!(plan, LoadPlan::BuildFile(file) if file.cubin_path == "d/k.cubin"));

    // A legacy target bridges forward as PTX.
    let plan = load_kernel_module(
        "d",
        "k",
        &probe(true, false, true, false, false),
        inputs((12, 0), target_file("sm_86\n"), None),
        MARKER,
    )
    .unwrap();
    let LoadPlan::Build { plan, .. } = plan else {
        panic!("expected a build");
    };
    assert!(!plan.cached);
    assert_eq!(plan.arch, arch("sm_86"));

    let error = load_kernel_module(
        "d",
        "k",
        &probe(false, false, false, false, false),
        inputs((8, 6), no_sidecars(), None),
        MARKER,
    )
    .unwrap_err();
    assert!(matches!(error, LtoirError::NoArtifact { .. }));
    assert_eq!(
        execution_arch_for_context(&Ok((9, 0))).unwrap(),
        arch("sm_90")
    );
    assert!(matches!(
        execution_arch_for_context(&Err("lost".to_string())),
        Err(LtoirError::Driver(_))
    ));
}

// ---------------------------------------------------------------------------
// Cache
// ---------------------------------------------------------------------------

#[test]
fn builds_without_identified_tools_have_no_key() {
    let digest = Some([7_u8; 32]);
    let sm_86 = arch("sm_86");
    assert!(
        identified_nvvm_key(b"ir", "a", "b", &sm_86, b"ld", (&digest, &None), true).is_none()
    );
    assert_eq!(
        identified_nvvm_key(b"ir", "a", "b", &sm_86, b"ld", (&digest, &digest), true),
        Some(nvvm_ir_cubin_cache_key(
            b"ir",
            "a",
            "b",
            &sm_86,
            b"ld",
            &[7_u8; 32],
            &[7_u8; 32]
        ))
    );
    assert!(identified_ltoir_key(b"lto", "a", &sm_86, &None, true).is_none());
    let file = ToolFile::Digest([7_u8; 32]);
    assert_eq!(
        loaded_tool_digest("libNVVM", &file, true, true),
        (digest, None)
    );
    assert_eq!(
        loaded_tool_digest("libNVVM", &file, false, true),
        (
            None,
            Some("cuda-oxide: libNVVM changed while it was fingerprinted; bypassing the cubin cache".to_string())
        )
    );
    assert_eq!(
        loaded_tool_digest("nvJitLink", &ToolFile::Unknown, true, true),
        (
            None,
            Some("cuda-oxide: nvJitLink has no exact loaded-file identity; bypassing the cubin cache".to_string())
        )
    );
    assert_eq!(
        loaded_tool_digest("nvJitLink", &ToolFile::Unreadable("denied".to_string()), true, true),
        (
            None,
            Some("cuda-oxide: could not fingerprint the loaded nvJitLink file (denied); bypassing the cubin cache".to_string())
        )
    );
    assert_eq!(
        loaded_tool_digest("nvJitLink", &ToolFile::Unknown, true, false),
        (None, None)
    );
}

#[test]
fn cache_reports_are_told_only_when_asked() {
    let mut result = uncached_result(vec![1], Some(vec![2]));
    assert_eq!(report_cache_result(&result, false), None);
    assert_eq!(
        report_cache_result(&result, true).as_deref(),
        Some("cuda-oxide: using an uncached cubin")
    );
    result.immutable_cubin_path = Some("c/image.cubin".to_string());
    assert_eq!(
        report_cache_result(&result, true).as_deref(),
        Some("cuda-oxide: cached cubin: c/image.cubin")
    );
    result.cache_hit = true;
    assert_eq!(
        report_cache_result(&result, true).as_deref(),
        Some("cuda-oxide: cubin cache hit: c/image.cubin")
    );
    assert_eq!(
        report_changed_tool("libNVVM", true).as_deref(),
        Some("cuda-oxide: libNVVM changed while it was fingerprinted; bypassing the cubin cache")
    );
}

#[test]
fn keys_hold_the_ordered_options() {
    let key = nvvm_ir_cubin_cache_key(
        b"ir",
        "a.ll",
        "a.ltoir",
        &arch("sm_86"),
        b"ld",
        &[1_u8; 32],
        &[2_u8; 32],
    );
    let values = |label: &str| -> Vec<String> {
        key.fields
            .iter()
            .filter(|f| f.label == label)
            .map(|f| String::from_utf8(f.value.clone()).unwrap())
            .collect()
    };
    assert_eq!(
        values("nvvm-compile-option"),
        ["-arch=compute_86", "-gen-lto"]
    );
    assert_eq!(values("nvvm-fma-policy"), ["-fma=1"]);
    assert_eq!(values("nvjitlink-option"), ["-arch=sm_86", "-lto", "-O3"]);
    assert_eq!(values("nvjitlink-fma-policy"), ["-fma=1"]);
    assert_eq!(values("recipe"), ["cuda-host/native-ltoir-cubin/v2"]);
}

#[test]
fn libdevice_is_searched_in_order() {
    let env = ToolkitEnv {
        libdevice: Some("/own/ld.bc".to_string()),
        toolkit_path: None,
        home: Some("/cuda/".to_string()),
        path: None,
    };
    let places = libdevice_candidates(&env);
    assert_eq!(
        places,
        [
            "/own/ld.bc",
            "/cuda/nvvm/libdevice/libdevice.10.bc",
            "/usr/local/cuda/nvvm/libdevice/libdevice.10.bc",
            "/opt/cuda/nvvm/libdevice/libdevice.10.bc",
        ]
    );
    assert_eq!(
        find_libdevice(&env, &vec![false, true, true, false]).unwrap(),
        places[1]
    );
    let error = find_libdevice(&env, &vec![false; 4]).unwrap_err();
    assert!(matches!(
        error,
        LtoirError::LibdeviceNotFound { tried } if tried == places.join("\n")
    ));
}
