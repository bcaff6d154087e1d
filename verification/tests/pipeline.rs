//! The compilation pipeline.

use cuda_oxide::arg_attrs::ArgAttrs;
use cuda_oxide::arg_attrs::ARG_ATTRS_KEY;
use cuda_oxide::device_extern::DeviceExternAttrs;
use cuda_oxide::device_extern::DeviceExternDecl;
use cuda_oxide::device_extern::DeviceExternType;
use cuda_oxide::ir::AttrObj;
use cuda_oxide::ir::AttributeDict;
use cuda_oxide::pipeline::module_name;
use cuda_oxide::pipeline::resolve_options;
use cuda_oxide::pipeline::run_pipeline;
use cuda_oxide::pipeline::stale_compilation_artifact_paths;
use cuda_oxide::pipeline::stamp_source_arg_attrs;
use cuda_oxide::pipeline::start_pipeline;
use cuda_oxide::pipeline::BackendOptions;
use cuda_oxide::pipeline::CollectedFunction;
use cuda_oxide::pipeline::CompilationArtifactKind;
use cuda_oxide::pipeline::CompilationResult;
use cuda_oxide::pipeline::DebugKind;
use cuda_oxide::pipeline::GeneratedModule;
use cuda_oxide::pipeline::ModuleArtifactKind;
use cuda_oxide::pipeline::PipelineAction;
use cuda_oxide::pipeline::PipelineConfig;
use cuda_oxide::pipeline::PipelineError;
use cuda_oxide::pipeline::PipelineEvent;
use cuda_oxide::pipeline::SidecarText;
use std::collections::BTreeMap;
use std::collections::BTreeSet;

#[test]
fn test_pipeline_config_default_values() {
    let config = PipelineConfig::default(Some("/work".to_string()));

    assert_eq!(config.output_name, "kernel");
    assert!(config.verbose);
    assert!(!config.show_mir_dialect);
    assert!(!config.show_llvm_dialect);
    assert!(!config.emit_nvvm_ir);
    assert_eq!(config.target_arch, None);
    assert_eq!(config.device_arch_hint, None);
    assert_eq!(config.debug_kind, DebugKind::Off);
}

#[test]
fn output_goes_to_the_current_directory() {
    assert_eq!(
        PipelineConfig::default(Some("/work".to_string())).output_dir,
        "/work"
    );
    assert_eq!(PipelineConfig::default(None).output_dir, ".");
}

fn config(dir: &str, name: &str) -> PipelineConfig {
    PipelineConfig {
        output_dir: dir.to_string(),
        output_name: name.to_string(),
        verbose: false,
        show_mir_dialect: false,
        show_llvm_dialect: false,
        emit_nvvm_ir: true,
        target_arch: Some("sm_86".to_string()),
        device_arch_hint: None,
        debug_kind: DebugKind::Off,
        allow_fma_contraction: true,
    }
}

fn environment() -> BackendOptions {
    BackendOptions {
        target_arch: None,
        device_arch_hint: None,
        verbose: false,
        no_fma: false,
    }
}

fn sidecars() -> SidecarText {
    SidecarText {
        marker: "compile-options=1".to_string(),
        contraction_on: "fma-contraction=on\n".to_string(),
        contraction_off: "fma-contraction=off\n".to_string(),
    }
}

fn function(name: &str) -> CollectedFunction {
    CollectedFunction {
        instance: 1,
        is_kernel: true,
        export_name: name.to_string(),
        debug_source_scopes: None,
        is_inline_always: false,
        arg_attrs: vec![],
    }
}

fn externs() -> Vec<DeviceExternDecl> {
    vec![DeviceExternDecl {
        export_name: "consume_float".to_string(),
        param_types: vec![DeviceExternType::pointer_to(DeviceExternType::Float32, 0)],
        return_type: DeviceExternType::Void,
        attrs: DeviceExternAttrs {
            is_convergent: false,
            is_pure: false,
            is_readonly: false,
        },
    }]
}

/// Files and directories as a run leaves them behind.
#[derive(Default)]
struct Disk {
    dirs: BTreeSet<String>,
    files: BTreeMap<String, Vec<u8>>,
    log: Vec<String>,
}

/// Runs a pipeline whose module compiles to NVVM IR for the configured target.
fn run(
    functions: &Vec<CollectedFunction>,
    externs: &Vec<DeviceExternDecl>,
    config: &PipelineConfig,
    disk: &mut Disk,
) -> Result<CompilationResult, PipelineError> {
    let (mut stage, mut action) = start_pipeline(config);
    loop {
        let event = match action {
            PipelineAction::CreateDirectory(dir) => {
                disk.log.push(format!("mkdir {dir}"));
                disk.dirs.insert(dir);
                PipelineEvent::Done
            }
            PipelineAction::CreateModule(name) => {
                disk.log.push(format!("module {name}"));
                PipelineEvent::Done
            }
            PipelineAction::Translate {
                function,
                debug_kind,
            } => {
                assert_eq!(debug_kind, config.debug_kind);
                disk.log.push(format!("translate {function}"));
                PipelineEvent::Done
            }
            PipelineAction::Stamp(i) => {
                disk.log.push(format!("stamp {i}"));
                PipelineEvent::Done
            }
            PipelineAction::Dump(i) => {
                disk.log.push(format!("dump {i}"));
                PipelineEvent::Done
            }
            PipelineAction::Verify(i) => {
                disk.log.push(format!("verify {i}"));
                PipelineEvent::Done
            }
            PipelineAction::Append(i) => {
                disk.log.push(format!("append {i}"));
                PipelineEvent::Done
            }
            PipelineAction::Compile(request) => {
                disk.log.push("compile".to_string());
                for decl in request.device_externs {
                    disk.log.push(format!("declare {}", decl.export_name));
                }
                for path in &request.stale {
                    disk.files.remove(path);
                }
                disk.files.insert(request.ll_path, b"; module".to_vec());
                PipelineEvent::Generated(GeneratedModule {
                    artifact_kind: ModuleArtifactKind::NvvmIr,
                    target: request.backend.target_arch.unwrap(),
                })
            }
            PipelineAction::Write { path, text } => {
                disk.log.push(format!("write {path}"));
                disk.files.insert(path, text.into_bytes());
                PipelineEvent::Done
            }
            PipelineAction::Finish(result) => return Ok(result),
            PipelineAction::Fail(error) => return Err(error),
        };
        (stage, action) = run_pipeline(
            functions,
            externs,
            config,
            &environment(),
            &sidecars(),
            stage,
            event,
        );
    }
}

#[test]
fn stale_artifact_invalidation_removes_every_competing_output() {
    let root = "/tmp/cuda_oxide_stale_artifacts";
    let mut disk = Disk::default();
    for suffix in [
        "ll",
        "ptx",
        "target",
        "options",
        "ltoir",
        "cubin",
        "cubin.target",
    ] {
        disk.files
            .insert(format!("{root}/kernel.{suffix}"), b"stale".to_vec());
    }
    let cached_cubin =
        format!("{root}/.oxide-artifacts/ltoir-cubin-cache/v1/entries/key/image.cubin");
    disk.files
        .insert(cached_cubin.clone(), b"persistent cache entry".to_vec());

    let result = run(&vec![], &vec![], &config(root, "kernel"), &mut disk).expect("pipeline run");

    assert_eq!(result.artifact_kind, CompilationArtifactKind::NvvmIr);
    assert_ne!(disk.files[&result.ll_path], b"stale");
    for suffix in ["ptx", "ltoir", "cubin", "cubin.target"] {
        assert!(
            !disk.files.contains_key(&format!("{root}/kernel.{suffix}")),
            "{suffix}"
        );
    }
    assert_ne!(disk.files[&format!("{root}/kernel.target")], b"stale");
    assert_ne!(disk.files[&format!("{root}/kernel.options")], b"stale");
    assert_eq!(
        disk.files[&cached_cubin], b"persistent cache entry",
        "content-addressed cache entries must survive compiler cleanup"
    );
}

#[test]
fn run_pipeline_creates_missing_output_dir_before_export() {
    let output_dir = "/tmp/cuda_oxide_mir_importer_output_dir/fresh/nested";
    let mut disk = Disk::default();

    let result =
        run(&vec![], &vec![], &config(output_dir, "empty"), &mut disk).expect("pipeline run");

    assert!(disk.dirs.contains(output_dir));
    assert!(disk.files.contains_key(&result.ll_path));
    assert_eq!(result.artifact_path, result.ll_path);
    assert_eq!(result.artifact_kind, CompilationArtifactKind::NvvmIr);
    assert_eq!(result.target, "sm_86");
    assert_eq!(
        disk.files[&format!("{output_dir}/empty.target")],
        b"sm_86\ncompile-options=1\n"
    );
    assert_eq!(
        disk.files[&format!("{output_dir}/empty.options")],
        b"fma-contraction=on\n"
    );
    assert_eq!(disk.log[0], format!("mkdir {output_dir}"));
}

#[test]
fn functions_are_taken_up_in_order() {
    let mut disk = Disk::default();
    run(
        &vec![function("a"), function("b")],
        &externs(),
        &config("d", "not an identifier"),
        &mut disk,
    )
    .expect("pipeline run");
    assert_eq!(
        disk.log,
        [
            "mkdir d",
            "module kernel",
            "translate 0",
            "stamp 0",
            "verify 0",
            "append 0",
            "translate 1",
            "stamp 1",
            "verify 1",
            "append 1",
            "compile",
            "declare consume_float",
            "write d/not an identifier.options",
            "write d/not an identifier.target",
        ]
    );
}

#[test]
fn functions_are_dumped_before_they_are_verified() {
    let mut disk = Disk::default();
    let mut config = config("d", "k");
    config.show_mir_dialect = true;
    config.allow_fma_contraction = false;
    run(&vec![function("a")], &externs(), &config, &mut disk).expect("pipeline run");
    assert_eq!(
        disk.log[2..7],
        ["translate 0", "stamp 0", "dump 0", "verify 0", "append 0"]
    );
    assert_eq!(disk.files["d/k.options"], b"fma-contraction=off\n");
}

#[test]
fn failures_say_what_failed() {
    let functions = vec![function("f")];
    let externs = externs();
    let config = config("d", "k");
    let fail_at = |steps: usize, event: PipelineEvent| {
        let (mut stage, _) = start_pipeline(&config);
        for _ in 0..steps {
            let (next, _) = run_pipeline(
                &functions,
                &externs,
                &config,
                &environment(),
                &sidecars(),
                stage,
                PipelineEvent::Done,
            );
            stage = next;
        }
        let (_, action) = run_pipeline(
            &functions,
            &externs,
            &config,
            &environment(),
            &sidecars(),
            stage,
            event,
        );
        match action {
            PipelineAction::Fail(error) => error,
            _ => panic!("expected a failure"),
        }
    };
    assert!(matches!(
        fail_at(0, PipelineEvent::Failed("denied".to_string())),
        PipelineError::Export(m) if m == "failed to create output directory d: denied"
    ));
    assert!(matches!(fail_at(2, PipelineEvent::NoBody), PipelineError::NoBody(m) if m == "f"));
    assert!(matches!(
        fail_at(2, PipelineEvent::Failed("bad".to_string())),
        PipelineError::Translation(m) if m == "f: bad"
    ));
    assert!(matches!(
        fail_at(4, PipelineEvent::Failed("malformed".to_string())),
        PipelineError::Backend(m) if m == "malformed"
    ));
    assert!(matches!(
        fail_at(6, PipelineEvent::Failed("x".to_string())),
        PipelineError::Backend(m) if m == "x"
    ));
}

#[test]
fn module_names_are_identifiers() {
    assert_eq!(module_name(&"my_kernel1".to_string()), "my_kernel1");
    assert_eq!(module_name(&"_".to_string()), "_");
    for name in ["", "1st", "a-b", "caf\u{e9}"] {
        assert_eq!(module_name(&name.to_string()), "kernel");
    }
}

#[test]
fn stale_files_are_listed_in_order() {
    assert_eq!(
        stale_compilation_artifact_paths("o/", "k"),
        [
            "o/k.ll",
            "o/k.ptx",
            "o/k.target",
            "o/k.options",
            "o/k.ltoir",
            "o/k.cubin",
            "o/k.cubin.target"
        ]
    );
}

#[test]
fn configured_options_win() {
    let env = BackendOptions {
        target_arch: Some("sm_75".to_string()),
        device_arch_hint: Some("sm_89".to_string()),
        verbose: true,
        no_fma: true,
    };
    let options = resolve_options(&config("d", "k"), &env);
    assert_eq!(options.target_arch.as_deref(), Some("sm_86"));
    assert_eq!(options.device_arch_hint.as_deref(), Some("sm_89"));
    assert!(options.verbose);
    assert!(!options.no_fma);
}

#[test]
fn stamps_are_left_out_where_nothing_is_said() {
    let mut attributes = AttributeDict::new();
    stamp_source_arg_attrs(&mut attributes, &vec![None, None]);
    assert!(attributes.get(ARG_ATTRS_KEY).is_none());
    stamp_source_arg_attrs(
        &mut attributes,
        &vec![
            None,
            Some(ArgAttrs {
                noundef: true,
                ..Default::default()
            }),
        ],
    );
    let Some(AttrObj::Params(params)) = attributes.get(ARG_ATTRS_KEY) else {
        panic!("expected carriers");
    };
    assert_eq!(params.len(), 2);
    assert!(params[0].unwrap().is_empty());
    assert!(params[1].unwrap().noundef);
}
