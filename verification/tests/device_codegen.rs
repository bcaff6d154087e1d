//! Generation of device code.

use cuda_oxide::abi_attrs::derive_arg_attrs;
use cuda_oxide::abi_attrs::AdtInfo;
use cuda_oxide::abi_attrs::ArgAbi;
use cuda_oxide::abi_attrs::ArgAttributes;
use cuda_oxide::abi_attrs::ArgExtension;
use cuda_oxide::abi_attrs::PassMode;
use cuda_oxide::arg_attrs::LlvmParamClass;
use cuda_oxide::debug_scopes::build_debug_source_scope_map;
use cuda_oxide::debug_scopes::debug_position_from_span;
use cuda_oxide::debug_scopes::BlockInfo;
use cuda_oxide::debug_scopes::BodyInfo;
use cuda_oxide::debug_scopes::ScopeInfo;
use cuda_oxide::debug_scopes::SourceInfo;
use cuda_oxide::debug_scopes::SpanInfo;
use cuda_oxide::device_codegen::complete_device_code;
use cuda_oxide::device_codegen::convert_device_extern;
use cuda_oxide::device_codegen::generate_device_code;
use cuda_oxide::device_codegen::DeviceCodegenError;
use cuda_oxide::device_codegen::DeviceExternSig;
use cuda_oxide::device_codegen::DeviceFunction;
use cuda_oxide::device_codegen::InlineAttr;
use cuda_oxide::device_codegen::SessionEnv;
use cuda_oxide::device_extern::rustc_ty_to_device_extern_type;
use cuda_oxide::device_extern::DeviceExternAttrs;
use cuda_oxide::device_extern::DeviceExternType;
use cuda_oxide::device_extern::DeviceExternTypePosition;
use cuda_oxide::device_extern::FloatTy;
use cuda_oxide::device_extern::IntTy;
use cuda_oxide::device_extern::RustTy;
use cuda_oxide::device_extern::RustTyKind;
use cuda_oxide::device_codegen::device_debug_kind_with_override;
use cuda_oxide::device_codegen::read_compilation_artifact;
use cuda_oxide::device_codegen::DebugInfo;
use cuda_oxide::device_codegen::DeviceCodegenArtifactKind;
use cuda_oxide::device_codegen::DeviceCodegenConfig;
use cuda_oxide::device_codegen::FileRead;
use cuda_oxide::pipeline::CompilationArtifactKind;
use cuda_oxide::pipeline::CompilationResult;
use cuda_oxide::pipeline::DebugKind;

#[test]
fn test_config_default() {
    let config = DeviceCodegenConfig::default(Some("/work".to_string()));
    assert!(!config.verbose);
    assert_eq!(config.output_name, "kernel");
    assert_eq!(config.output_dir, "/work");
    assert_eq!(DeviceCodegenConfig::default(None).output_dir, ".");
}

#[test]
fn device_debug_kind_defaults_to_off_regardless_of_rustc_debuginfo() {
    // Device debug is off by default at every level, so optimized links stay enabled
    // unless debug is explicitly opted into.
    for level in [
        DebugInfo::NoInfo,
        DebugInfo::LineTablesOnly,
        DebugInfo::Full,
    ] {
        assert_eq!(
            device_debug_kind_with_override(level, None),
            DebugKind::Off
        );
    }
}

#[test]
fn device_debug_kind_env_override_wins() {
    assert_eq!(
        device_debug_kind_with_override(DebugInfo::Full, Some("off")),
        DebugKind::Off
    );
    assert_eq!(
        device_debug_kind_with_override(DebugInfo::NoInfo, Some(" Line-Tables ")),
        DebugKind::LineTables
    );
    assert_eq!(
        device_debug_kind_with_override(DebugInfo::NoInfo, Some("full")),
        DebugKind::Full
    );
}

#[test]
fn read_compilation_artifact_uses_declared_nvvm_ir_path() {
    let ll_path = "/tmp/cuda-codegen-artifact/demo.ll".to_string();
    let result = CompilationResult {
        ll_path: ll_path.clone(),
        ptx_path: "/tmp/cuda-codegen-artifact/demo.ptx".to_string(),
        artifact_path: ll_path,
        artifact_kind: CompilationArtifactKind::NvvmIr,
        target: "sm_90".to_string(),
        allow_fma_contraction: false,
    };

    let artifact = read_compilation_artifact(&result, FileRead::Contents(b"nvvm ir".to_vec()))
        .unwrap()
        .unwrap();
    assert_eq!(artifact.kind, DeviceCodegenArtifactKind::NvvmIr);
    assert_eq!(artifact.name, "demo.ll");
    assert_eq!(artifact.bytes, b"nvvm ir");
}

#[test]
fn read_compilation_artifact_reads_declared_cubin_path() {
    let result = CompilationResult {
        ll_path: "/tmp/cuda-codegen-artifact/demo.ll".to_string(),
        ptx_path: "/tmp/cuda-codegen-artifact/demo.ptx".to_string(),
        artifact_path: "/tmp/cuda-codegen-artifact/demo.cubin".to_string(),
        artifact_kind: CompilationArtifactKind::Cubin,
        target: "sm_90".to_string(),
        allow_fma_contraction: true,
    };

    let artifact = read_compilation_artifact(&result, FileRead::Contents(b"cubin".to_vec()))
        .unwrap()
        .unwrap();
    assert_eq!(artifact.kind, DeviceCodegenArtifactKind::Cubin);
    assert_eq!(artifact.name, "demo.cubin");
    assert_eq!(artifact.bytes, b"cubin");
}

fn compiled(kind: CompilationArtifactKind) -> CompilationResult {
    CompilationResult {
        ll_path: "out/k.ll".to_string(),
        ptx_path: "out/k.ptx".to_string(),
        artifact_path: "out/k.ptx".to_string(),
        artifact_kind: kind,
        target: "sm_80".to_string(),
        allow_fma_contraction: true,
    }
}

#[test]
fn ptx_text_is_shown() {
    let done = complete_device_code(
        Ok(Ok(compiled(CompilationArtifactKind::Ptx))),
        FileRead::Contents("// \u{e9}".as_bytes().to_vec()),
    )
    .unwrap();
    assert_eq!(done.ptx_content.as_deref(), Some("// \u{e9}"));
    assert_eq!(done.artifact.unwrap().name, "k.ptx");
    assert_eq!(done.target, "sm_80");
}

#[test]
fn ptx_must_be_utf8() {
    let error = complete_device_code(
        Ok(Ok(compiled(CompilationArtifactKind::Ptx))),
        FileRead::Contents(vec![b'a', 0xff]),
    )
    .unwrap_err();
    assert_eq!(
        error.message(),
        "PTX generation failed: generated PTX is not valid UTF-8: invalid utf-8 sequence of 1 bytes from index 1"
    );
}

#[test]
fn other_artifacts_are_not_read_as_text() {
    let done = complete_device_code(
        Ok(Ok(compiled(CompilationArtifactKind::Cubin))),
        FileRead::Contents(vec![0xff]),
    )
    .unwrap();
    assert_eq!(done.ptx_content, None);
    assert_eq!(done.artifact.unwrap().bytes, vec![0xff]);
}

#[test]
fn missing_and_unreadable_artifacts_are_told_apart() {
    let done = complete_device_code(
        Ok(Ok(compiled(CompilationArtifactKind::Ptx))),
        FileRead::NotFound,
    )
    .unwrap();
    assert!(done.artifact.is_none());
    let error = complete_device_code(
        Ok(Ok(compiled(CompilationArtifactKind::Ptx))),
        FileRead::Failed("denied".to_string()),
    )
    .unwrap_err();
    assert_eq!(error.message(), "IO error: denied");
}

#[test]
fn failures_before_the_artifact_are_passed_on() {
    let error = complete_device_code(Err("no session".to_string()), FileRead::NotFound).unwrap_err();
    assert_eq!(error.message(), "stable_mir error: no session");
    let error =
        complete_device_code(Ok(Err("llc".to_string())), FileRead::NotFound).unwrap_err();
    assert_eq!(error.message(), "PTX generation failed: llc");
    assert_eq!(
        DeviceCodegenError::Translation("f".to_string()).message(),
        "Translation failed: f"
    );
}

fn ty(kind: RustTyKind, shown: &str) -> RustTy {
    RustTy {
        kind,
        shown: shown.to_string(),
    }
}

fn session() -> SessionEnv {
    SessionEnv {
        emit_nvvm_ir: true,
        debug_override: Some("2".to_string()),
        debuginfo: DebugInfo::NoInfo,
        target: Some("sm_90".to_string()),
        device_arch: None,
        no_fma: true,
    }
}

fn span(file: &str, line: usize, column: usize) -> SpanInfo {
    SpanInfo {
        file: Some(file.to_string()),
        line,
        column,
    }
}

fn body() -> BodyInfo {
    BodyInfo {
        scopes: vec![ScopeInfo {
            parent: None,
            span: span("a.rs", 1, 1),
            inlined: None,
        }],
        blocks: vec![BlockInfo {
            statements: vec![
                SourceInfo {
                    span: span("b.rs", 2, 1),
                    scope: 0,
                },
                SourceInfo {
                    span: span("a.rs", 9, 4),
                    scope: 0,
                },
            ],
            terminator: SourceInfo {
                span: span("b.rs", 2, 1),
                scope: 0,
            },
        }],
    }
}

#[test]
fn nothing_to_compile_is_an_error() {
    let error = generate_device_code(&vec![], &vec![], &DeviceCodegenConfig::default(None), &session())
        .unwrap_err();
    assert_eq!(error.message(), "No kernel functions found");
}

#[test]
fn requests_carry_the_session() {
    let function = DeviceFunction {
        instance: 7,
        export_name: "k".to_string(),
        is_kernel: true,
        inline: InlineAttr::Force,
        body: body(),
        fn_abi: None,
    };
    let request = generate_device_code(
        &vec![function],
        &vec![],
        &DeviceCodegenConfig::default(None),
        &session(),
    )
    .unwrap();
    assert_eq!(request.functions.len(), 1);
    assert!(request.functions[0].is_inline_always);
    assert!(request.functions[0].arg_attrs.is_empty());
    assert!(request.config.emit_nvvm_ir);
    assert!(!request.config.allow_fma_contraction);
    assert_eq!(request.config.debug_kind, DebugKind::Full);
    assert_eq!(request.config.target_arch.as_deref(), Some("sm_90"));
}

#[test]
fn source_locations_are_ordered_and_unique() {
    let map = build_debug_source_scope_map(&body());
    let locations: Vec<(&str, i32, i32, u32)> = map
        .locations
        .iter()
        .map(|l| (l.pos.file.as_str(), l.pos.line, l.pos.column, l.scope))
        .collect();
    assert_eq!(locations, vec![("a.rs", 9, 4, 0), ("b.rs", 2, 1, 0)]);
    assert_eq!(map.scopes.len(), 1);
    assert_eq!(map.scopes[0].id, 0);
}

#[test]
fn positions_need_a_file() {
    assert!(debug_position_from_span(&SpanInfo {
        file: None,
        line: 3,
        column: 3,
    })
    .is_none());
    assert!(debug_position_from_span(&span("a.rs", 3, 0)).is_none());
    assert!(debug_position_from_span(&span("a.rs", 0, 3)).is_none());
}

fn extern_sig(inputs: Vec<RustTy>, output: RustTy) -> DeviceExternSig {
    DeviceExternSig {
        export_name: "f".to_string(),
        is_c_without_unwind: true,
        abi_shown: "C".to_string(),
        c_variadic: false,
        inputs,
        output,
        attrs: DeviceExternAttrs {
            is_convergent: true,
            is_pure: false,
            is_readonly: false,
        },
    }
}

fn unit() -> RustTy {
    ty(RustTyKind::Tuple { fields: 0 }, "()")
}

#[test]
fn device_externs_are_declared_exactly() {
    let pointer = ty(
        RustTyKind::RawPtr(Box::new(ty(RustTyKind::Float(FloatTy::F32), "f32"))),
        "*mut f32",
    );
    let decl = convert_device_extern(&extern_sig(
        vec![pointer, ty(RustTyKind::Int(IntTy::I32), "i32")],
        unit(),
    ))
    .unwrap();
    assert_eq!(
        decl.param_types,
        vec![
            DeviceExternType::pointer_to(DeviceExternType::Float32, 0),
            DeviceExternType::Integer(32),
        ]
    );
    assert_eq!(decl.return_type, DeviceExternType::Void);
    assert!(decl.attrs.is_convergent);
}

#[test]
fn device_externs_name_the_refused_parameter() {
    let error =
        convert_device_extern(&extern_sig(vec![ty(RustTyKind::Bool, "bool")], unit())).unwrap_err();
    assert_eq!(
        error.message(),
        "Invalid device-extern signature: `f` parameter 0 (`bool`): `bool` is not yet supported in device extern signatures; use `u32` in a C-compatible wrapper"
    );
    let mut sig = extern_sig(vec![], unit());
    sig.c_variadic = true;
    assert_eq!(
        convert_device_extern(&sig).unwrap_err().message(),
        "Invalid device-extern signature: `f` is variadic; variadic device externs are not supported"
    );
    sig.is_c_without_unwind = false;
    sig.abi_shown = "Rust".to_string();
    assert_eq!(
        convert_device_extern(&sig).unwrap_err().message(),
        "Invalid device-extern signature: `f` uses ABI Rust; device externs must use `extern \"C\"` without unwinding"
    );
}

#[test]
fn extern_types_depend_on_their_position() {
    let bytes = ty(
        RustTyKind::Array {
            element: Box::new(ty(RustTyKind::Int(IntTy::I8), "i8")),
            len: Some(4),
        },
        "[i8; 4]",
    );
    assert_eq!(
        rustc_ty_to_device_extern_type(&bytes, DeviceExternTypePosition::Pointee),
        Ok(DeviceExternType::Array {
            element: Box::new(DeviceExternType::Integer(8)),
            len: 4,
        })
    );
    assert!(rustc_ty_to_device_extern_type(&bytes, DeviceExternTypePosition::Parameter).is_err());
    let void = ty(RustTyKind::CVoid, "c_void");
    assert_eq!(
        rustc_ty_to_device_extern_type(&void, DeviceExternTypePosition::Parameter),
        Err("`c_void` is only supported behind a pointer".to_string())
    );
    assert_eq!(
        rustc_ty_to_device_extern_type(
            &ty(RustTyKind::Int(IntTy::I16), "i16"),
            DeviceExternTypePosition::Parameter
        ),
        Err("`i16` is not yet supported by value in a device extern; use i32/i64 or pass a pointer".to_string())
    );
}

fn direct(regular: u16) -> ArgAttributes {
    ArgAttributes {
        regular,
        arg_ext: ArgExtension::NoExt,
        pointee_size: 0,
        pointee_align: None,
    }
}

#[test]
fn compiler_attributes_are_decoded() {
    let attrs = derive_arg_attrs(&Some(vec![
        ArgAbi {
            adt: None,
            mode: PassMode::Direct(ArgAttributes {
                regular: 8 + 16 + 128,
                arg_ext: ArgExtension::NoExt,
                pointee_size: 16,
                pointee_align: Some(8),
            }),
        },
        ArgAbi {
            adt: None,
            mode: PassMode::Ignore,
        },
        ArgAbi {
            adt: None,
            mode: PassMode::Direct(direct(0)),
        },
    ]));
    assert_eq!(attrs.len(), 3);
    assert_eq!(
        attrs[0]
            .unwrap()
            .to_fragment(LlvmParamClass::Pointer)
            .as_deref(),
        Some("noalias nonnull noundef dereferenceable(16) align 8")
    );
    assert_eq!(attrs[1], None);
    assert_eq!(attrs[2], None);
}

#[test]
fn disjoint_slices_get_their_contract() {
    let attrs = derive_arg_attrs(&Some(vec![ArgAbi {
        adt: Some(AdtInfo {
            item_name: "DisjointSlice".to_string(),
            crate_name: "cuda_device".to_string(),
            element_align: Some(4),
        }),
        mode: PassMode::Pair(direct(0), direct(0)),
    }]));
    let slice = attrs[0].unwrap();
    assert!(slice.noalias && slice.nonnull && slice.noundef);
    assert_eq!(slice.align, Some(4));
    assert_eq!(derive_arg_attrs(&None), vec![]);
}
