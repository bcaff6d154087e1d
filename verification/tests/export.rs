//! Export of functions and globals.

use cuda_oxide::abi_attrs::disjoint_slice_attrs;
use cuda_oxide::abi_attrs::AdtInfo;
use cuda_oxide::apint::IntegerAttr;
use cuda_oxide::arg_attrs::ArgAttrs;
use cuda_oxide::arg_attrs::ArgExt;
use cuda_oxide::edges::block_label;
use cuda_oxide::edges::validate_edge;
use cuda_oxide::export_state::ModuleExportState;
use cuda_oxide::export_state::NvvmIrDialect;
use cuda_oxide::global::decode_hex_initializer;
use cuda_oxide::ir::AttrObj;
use cuda_oxide::ir::AttributeDict;
use cuda_oxide::ir::BlockIr;
use cuda_oxide::ir::ConstAttr;
use cuda_oxide::ir::Context;
use cuda_oxide::ir::FuncIr;
use cuda_oxide::ir::GlobalIr;
use cuda_oxide::ir::OpIr;
use cuda_oxide::ir::OpKind;
use cuda_oxide::ir::Piece;
use cuda_oxide::ir::TypeKind;
use cuda_oxide::ir::TypeObj;
use cuda_oxide::ir::Value;
use cuda_oxide::naming::exported_symbol;
use cuda_oxide::naming::has_device_prefix;
use cuda_oxide::naming::strip_device_prefix;
use cuda_oxide::pipeline::stamp_source_arg_attrs;

const VOID: usize = 0;
const I32: usize = 1;
const PTR: usize = 2;
const FLOAT: usize = 3;
const FN_PTR_I32: usize = 4;
const FN_VOID: usize = 5;
const I8: usize = 6;
const BYTES: usize = 7;
const I64: usize = 8;
const FN_TWO_SLICES_FLOAT: usize = 9;
const FN_TWO_SLICES: usize = 10;
const FN_SLICE_I32: usize = 11;

fn type_obj(kind: TypeKind, spelled: &str) -> TypeObj {
    TypeObj {
        kind,
        shown: format!("llvm.{spelled}"),
        exported: Ok(spelled.to_string()),
        pointer_exported: Ok(format!("{spelled}*")),
    }
}

fn context() -> Context {
    Context {
        types: vec![
            type_obj(TypeKind::Void, "void"),
            type_obj(TypeKind::Integer { width: 32 }, "i32"),
            type_obj(TypeKind::Pointer { address_space: 0 }, "ptr"),
            type_obj(TypeKind::Single, "float"),
            type_obj(
                TypeKind::Function {
                    result: VOID,
                    args: vec![PTR, I32],
                },
                "void (ptr, i32)",
            ),
            type_obj(
                TypeKind::Function {
                    result: VOID,
                    args: vec![],
                },
                "void ()",
            ),
            type_obj(TypeKind::Integer { width: 8 }, "i8"),
            type_obj(TypeKind::Array { elem: I8, size: 3 }, "[3 x i8]"),
            type_obj(TypeKind::Integer { width: 64 }, "i64"),
            type_obj(
                TypeKind::Function {
                    result: VOID,
                    args: vec![PTR, I64, PTR, I64, FLOAT],
                },
                "void (ptr, i64, ptr, i64, float)",
            ),
            type_obj(
                TypeKind::Function {
                    result: VOID,
                    args: vec![PTR, I64, PTR, I64],
                },
                "void (ptr, i64, ptr, i64)",
            ),
            type_obj(
                TypeKind::Function {
                    result: VOID,
                    args: vec![PTR, I64, I32],
                },
                "void (ptr, i64, i32)",
            ),
        ],
    }
}

fn text(s: &str) -> Piece {
    Piece::Text(s.to_string())
}

fn plain(results: Vec<Value>, line: Vec<Piece>) -> OpIr {
    OpIr {
        kind: OpKind::Plain,
        results,
        line,
    }
}

fn ret() -> OpIr {
    plain(vec![], vec![text("  ret void\n")])
}

fn constant(value: i64, result: Value) -> OpIr {
    OpIr {
        kind: OpKind::Constant(ConstAttr::Integer(IntegerAttr::from_i64(value, 32))),
        results: vec![result],
        line: vec![],
    }
}

fn branch(dest: usize, args: Vec<Value>) -> OpIr {
    OpIr {
        kind: OpKind::Br { dest, args },
        results: vec![],
        line: vec![text("  br label %"), Piece::Label(dest), text("\n")],
    }
}

fn func(name: &str, ty: usize, body: Option<Vec<BlockIr>>) -> FuncIr {
    FuncIr {
        symbol_name: name.to_string(),
        attributes: AttributeDict::new(),
        ty,
        body,
        debug_scope: None,
        convergent_intrinsic: false,
    }
}

fn value(id: u64, ty: usize) -> Value {
    Value { id, ty }
}

fn export(state: &mut ModuleExportState, func: &FuncIr) -> Result<String, String> {
    let mut output = String::new();
    state.export_function(func, &mut output)?;
    Ok(output)
}

/// The first line of the definition of `attr_probe(ptr, i32)` with these attributes.
fn signature(attrs: Vec<Option<ArgAttrs>>) -> String {
    let ctx = context();
    let mut state = ModuleExportState::new(&ctx, false, false, None);
    let mut probe = func(
        "attr_probe",
        FN_PTR_I32,
        Some(vec![BlockIr {
            args: vec![value(0, PTR), value(1, I32)],
            ops: vec![ret()],
        }]),
    );
    stamp_source_arg_attrs(&mut probe.attributes, &attrs);
    let ir = export(&mut state, &probe).expect("export succeeds");
    ir.lines()
        .find(|line| line.contains("@attr_probe("))
        .unwrap_or_else(|| panic!("no @attr_probe signature in:\n{ir}"))
        .to_string()
}

#[test]
fn faithful_pointer_and_integer_attrs_reach_the_ll_signature() {
    let sig = signature(vec![
        // `&mut i32`-shaped pointer.
        Some(ArgAttrs {
            noalias: true,
            nonnull: true,
            noundef: true,
            dereferenceable: Some(16),
            align: Some(4),
            ..Default::default()
        }),
        // Narrow signed integer at the ABI boundary.
        Some(ArgAttrs {
            noundef: true,
            ext: ArgExt::Sign,
            ..Default::default()
        }),
    ]);

    // Pointer family lands on the `ptr` parameter, in canonical order.
    assert!(
        sig.contains("noalias nonnull noundef dereferenceable(16) align 4"),
        "pointer attrs missing from signature: {sig}"
    );
    // Integer extension + `noundef` land on the `i32` parameter; pointer-only tokens
    // do not leak onto it.
    assert!(
        sig.contains("signext noundef"),
        "integer attrs missing from signature: {sig}"
    );
    assert!(
        !sig.contains("signext noalias"),
        "pointer-only tokens leaked onto the integer parameter: {sig}"
    );
}

#[test]
fn a_function_without_attrs_stays_bare() {
    let sig = signature(vec![None, None]);
    for token in ["noalias", "noundef", "signext", "align ", "dereferenceable"] {
        assert!(
            !sig.contains(token),
            "unexpected `{token}` on a function with no attributes: {sig}"
        );
    }
}

#[test]
fn empty_carriers_render_nothing() {
    // Present-but-empty carriers (all fields false/zero) must render bare, so a
    // vector of empties does not change the output.
    let sig = signature(vec![Some(ArgAttrs::default()), Some(ArgAttrs::default())]);
    assert!(
        !sig.contains("noalias") && !sig.contains("noundef") && !sig.contains("signext"),
        "empty carriers should render nothing: {sig}"
    );
}

/// The text of a kernel with these parameters, each with its attributes.
fn kernel(name: &str, ty: usize, params: Vec<(usize, Option<ArgAttrs>)>) -> String {
    let ctx = context();
    let mut state = ModuleExportState::new(&ctx, false, true, None);
    let args = params
        .iter()
        .enumerate()
        .map(|(i, (ty, _))| value(i as u64, *ty))
        .collect();
    let mut kernel = func(
        name,
        ty,
        Some(vec![BlockIr {
            args,
            ops: vec![ret()],
        }]),
    );
    kernel
        .attributes
        .set("gpu_kernel", AttrObj::Text("true".to_string()));
    let attrs: Vec<Option<ArgAttrs>> = params.into_iter().map(|(_, attrs)| attrs).collect();
    stamp_source_arg_attrs(&mut kernel.attributes, &attrs);
    export(&mut state, &kernel).expect("export succeeds")
}

/// The line that opens the definition of the kernel `name`.
fn define_line<'a>(ir: &'a str, name: &str) -> &'a str {
    ir.lines()
        .find(|line| line.contains(&format!("@{name}(")) && line.trim_start().starts_with("define"))
        .unwrap_or_else(|| panic!("no `define ... @{name}(` line in IR:\n{ir}"))
}

/// A unique slice borrow, or a slice that is written by disjoint indices.
fn written_slice() -> ArgAttrs {
    ArgAttrs {
        noalias: true,
        nonnull: true,
        noundef: true,
        align: Some(4),
        ..Default::default()
    }
}

/// A shared slice borrow.
fn read_slice() -> ArgAttrs {
    ArgAttrs {
        readonly: true,
        ..written_slice()
    }
}

#[test]
fn fnabi_pointer_param_attrs_land_on_flattened_data_pointers() {
    // `fn k(out: &mut [f32], inp: &[f32], a: f32)`: each slice is a data pointer and a
    // length, and the attributes of the slice belong to the data pointer.
    let ir = kernel(
        "k",
        FN_TWO_SLICES_FLOAT,
        vec![
            (PTR, Some(written_slice())),
            (I64, None),
            (PTR, Some(read_slice())),
            (I64, None),
            (FLOAT, None),
        ],
    );
    let define_line = define_line(&ir, "k");

    assert!(
        define_line.contains("ptr noalias nonnull noundef align 4 %v0"),
        "expected `out` data pointer (%v0) to carry `noalias ... align 4`; got:\n{define_line}"
    );
    assert!(
        define_line.contains("ptr noalias readonly nonnull noundef align 4 %v2"),
        "expected `inp` data pointer (%v2) to carry `noalias readonly ... align 4`; got:\n{define_line}"
    );
    assert_eq!(
        ir.matches("readonly").count(),
        1,
        "`readonly` must appear exactly once (on the shared `&[f32]` input only); IR:\n{ir}"
    );
    assert!(
        !define_line.contains("ptr noalias readonly nonnull noundef align 4 %v0"),
        "the unique `&mut out` (%v0) must NOT be `readonly`:\n{define_line}"
    );
    assert!(
        define_line.contains("i64 %v1") && define_line.contains("i64 %v3"),
        "slice length params must be present and separate from the data pointers:\n{define_line}"
    );
    assert!(
        define_line.contains("float %v4"),
        "scalar `a: f32` must be the last param with no pointer attributes:\n{define_line}"
    );
    assert!(
        !define_line.contains("float noalias")
            && !define_line.contains("float readonly")
            && !define_line.contains("float align"),
        "scalar param must carry no pointer attributes:\n{define_line}"
    );
}

#[test]
fn disjoint_slice_output_gets_noalias_and_align() {
    // `fn copy(input: &[f32], output: DisjointSlice<f32>)`. The attributes of the output
    // are the ones its constructor promises.
    let output = disjoint_slice_attrs(&Some(AdtInfo {
        item_name: "DisjointSlice".to_string(),
        crate_name: "cuda_device".to_string(),
        element_align: Some(4),
    }));
    assert_eq!(output, Some(written_slice()));
    let ir = kernel(
        "copy",
        FN_TWO_SLICES,
        vec![
            (PTR, Some(read_slice())),
            (I64, None),
            (PTR, output),
            (I64, None),
        ],
    );
    let define_line = define_line(&ir, "copy");

    assert!(
        define_line.contains("ptr noalias readonly nonnull noundef align 4 %v0"),
        "expected `input` data pointer (%v0) to carry `noalias readonly ... align 4`:\n{define_line}"
    );
    assert!(
        define_line.contains("ptr noalias nonnull noundef align 4 %v2"),
        "expected `DisjointSlice` output data pointer (%v2) to carry `noalias ... align 4`:\n{define_line}"
    );
    assert_eq!(
        ir.matches("readonly").count(),
        1,
        "`readonly` must appear exactly once (on the shared input only):\n{ir}"
    );
}

#[test]
fn per_attribute_gate_filters_attrs_by_param_class() {
    // `fn gate(buf: &mut [f32], n: u32)` with more attributes than each parameter takes.
    let ir = kernel(
        "gate",
        FN_SLICE_I32,
        vec![
            (
                PTR,
                Some(ArgAttrs {
                    ext: ArgExt::Sign,
                    ..written_slice()
                }),
            ),
            (I64, None),
            (
                I32,
                Some(ArgAttrs {
                    noalias: true,
                    readonly: true,
                    nonnull: true,
                    noundef: true,
                    dereferenceable: Some(8),
                    align: Some(2),
                    ext: ArgExt::Zero,
                }),
            ),
        ],
    );
    let define_line = define_line(&ir, "gate");

    assert!(
        define_line.contains("ptr noalias nonnull noundef align 4 %v0"),
        "expected slice data pointer (%v0) to carry the pointer family:\n{define_line}"
    );
    assert!(
        define_line.contains("i32 zeroext noundef %v2"),
        "expected i32 (%v2) to carry exactly `zeroext noundef`:\n{define_line}"
    );
    assert!(
        !define_line.contains("signext"),
        "`signext` is integer-only and must never land on a pointer:\n{define_line}"
    );
    assert_eq!(
        define_line.matches("noalias").count(),
        1,
        "`noalias` must appear once (on the pointer only):\n{define_line}"
    );
    assert!(
        !define_line.contains("readonly"),
        "`readonly` was only on the integer slot and must be gated out:\n{define_line}"
    );
}

#[test]
fn blocks_print_phis_and_constants() {
    let ctx = context();
    let mut state = ModuleExportState::new(&ctx, true, false, None);
    let minus_one = value(2, I32);
    let x = value(3, I32);
    let sum = value(4, I32);
    let exported = export(
        &mut state,
        &func(
            "cuda_oxide_device_f",
            FN_PTR_I32,
            Some(vec![
                BlockIr {
                    args: vec![value(0, PTR), value(1, I32)],
                    ops: vec![constant(-1, minus_one), branch(1, vec![minus_one])],
                },
                BlockIr {
                    args: vec![x],
                    ops: vec![
                        plain(
                            vec![sum],
                            vec![
                                text("  "),
                                Piece::Value(sum),
                                text(" = add "),
                                Piece::Type(I32),
                                text(" "),
                                Piece::Value(x),
                                text(", "),
                                Piece::Value(value(1, I32)),
                                text("\n"),
                            ],
                        ),
                        ret(),
                    ],
                },
            ]),
        ),
    )
    .unwrap();
    assert_eq!(
        exported,
        "define void @f(ptr %v0, i32 %v1) #0 {\n\
         entry:\n  br label %bb0\n\
         bb0:\n  %v2 = phi i32 [ 4294967295, %entry ]\n  %v3 = add i32 %v2, %v1\n  ret void\n\
         }\n\n"
    );
    assert_eq!(state.device_functions, ["f"]);
    assert!(state.convergent_used);
}

#[test]
fn kernels_are_recorded() {
    let ctx = context();
    let mut state = ModuleExportState::new(&ctx, true, true, None);
    let mut kernel = func(
        "k",
        FN_VOID,
        Some(vec![BlockIr {
            args: vec![],
            ops: vec![ret()],
        }]),
    );
    kernel
        .attributes
        .set("gpu_kernel", AttrObj::Text("true".to_string()));
    kernel.attributes.set(
        "maxntid",
        AttrObj::Integer(IntegerAttr::from_i64(256, 32)),
    );
    kernel.attributes.set(
        "minctasm",
        AttrObj::Integer(IntegerAttr::from_i64(0, 32)),
    );
    for key in ["cluster_dim_x", "cluster_dim_y", "cluster_dim_z"] {
        kernel
            .attributes
            .set(key, AttrObj::Integer(IntegerAttr::from_i64(2, 32)));
    }
    kernel.debug_scope = Some(12);
    let exported = export(&mut state, &kernel).unwrap();
    assert_eq!(
        exported,
        "define ptx_kernel void @k() #0 !dbg !12 {\nentry:\n  ret void\n}\n\n"
    );
    assert_eq!(state.all_kernels.len(), 1);
    assert_eq!(state.launch_bounds_kernels[0].max_threads, 256);
    assert_eq!(state.launch_bounds_kernels[0].min_blocks, None);
    assert_eq!(state.cluster_kernels[0].dim_z, 2);
    assert!(state.device_functions.is_empty());
}

#[test]
fn declarations_name_intrinsics_with_dots() {
    let ctx = context();
    let mut state = ModuleExportState::new(&ctx, false, false, None);
    let mut barrier = func("llvm_nvvm_barrier0", FN_VOID, None);
    barrier.convergent_intrinsic = true;
    assert_eq!(
        export(&mut state, &barrier).unwrap(),
        "declare void @llvm.nvvm.barrier0() #0\n"
    );
    assert!(state.convergent_used);
    assert_eq!(
        export(&mut state, &func("g", FN_PTR_I32, None)).unwrap(),
        "declare void @g(ptr, i32)\n"
    );
    assert_eq!(
        export(&mut state, &func("g", I32, None)),
        Err("Not a function type".to_string())
    );
}

#[test]
fn edges_are_checked() {
    let ctx = context();
    let blocks = vec![
        BlockIr {
            args: vec![],
            ops: vec![],
        },
        BlockIr {
            args: vec![value(1, FLOAT)],
            ops: vec![],
        },
    ];
    assert_eq!(
        validate_edge(&ctx, &blocks, 0, 1, &vec![value(5, FLOAT)]),
        Ok(())
    );
    assert_eq!(
        validate_edge(&ctx, &blocks, 0, 1, &vec![]),
        Err("predecessor `%entry` supplies 0 values to `%bb0`, which expects 1 block arguments".to_string())
    );
    assert_eq!(
        validate_edge(&ctx, &blocks, 0, 1, &vec![value(5, I32)]),
        Err("predecessor `%entry` value 0 has type `llvm.i32`, but `%bb0` block argument has type `llvm.float`".to_string())
    );
    assert_eq!(block_label(0), "entry");
    assert_eq!(block_label(11), "bb10");
}

#[test]
fn duplicate_edges_must_agree() {
    let ctx = context();
    let mut state = ModuleExportState::new(&ctx, false, false, None);
    let a = value(0, I32);
    let b = value(1, I32);
    let f = func(
        "f",
        FN_VOID,
        Some(vec![
            BlockIr {
                args: vec![],
                ops: vec![
                    constant(1, a),
                    constant(2, b),
                    OpIr {
                        kind: OpKind::CondBr {
                            true_dest: 1,
                            true_args: vec![a],
                            false_dest: 1,
                            false_args: vec![b],
                        },
                        results: vec![],
                        line: vec![],
                    },
                ],
            },
            BlockIr {
                args: vec![value(2, I32)],
                ops: vec![ret()],
            },
        ]),
    );
    assert_eq!(
        export(&mut state, &f),
        Err("conditional branch `%entry` reaches `%bb0` on both edges with different forwarded values; LLVM PHIs cannot distinguish duplicate edges from one predecessor".to_string())
    );
}

#[test]
fn addresses_refer_to_known_symbols() {
    let ctx = context();
    let mut state = ModuleExportState::new(&ctx, false, false, None);
    let address = |symbol: &str| {
        func(
            "f",
            FN_VOID,
            Some(vec![BlockIr {
                args: vec![],
                ops: vec![
                    OpIr {
                        kind: OpKind::AddressOf {
                            symbol: symbol.to_string(),
                        },
                        results: vec![value(0, PTR)],
                        line: vec![],
                    },
                    plain(vec![], vec![text("  use "), Piece::Value(value(0, PTR)), text("\n")]),
                ],
            }]),
        )
    };
    assert_eq!(
        export(&mut state, &address("lost")),
        Err("addressof references unknown symbol `@lost`".to_string())
    );
    let exported = export(&mut state, &address("f")).unwrap();
    assert!(exported.contains("  use @f\n"), "{exported}");
}

fn global(ty: usize, address_space: u32) -> GlobalIr {
    GlobalIr {
        symbol_name: "g".to_string(),
        ty,
        address_space,
        external_linkage: false,
        alignment: None,
        initializer_hex: None,
    }
}

fn export_global(state: &ModuleExportState, global: &GlobalIr) -> Result<String, String> {
    let mut output = String::new();
    state.export_global(global, &mut output)?;
    Ok(output)
}

#[test]
fn globals_print_storage_and_alignment() {
    let ctx = context();
    let state = ModuleExportState::new(&ctx, false, false, Some(NvvmIrDialect::Modern));
    assert_eq!(
        export_global(&state, &global(BYTES, 1)).unwrap(),
        "@g = addrspace(1) global [3 x i8] zeroinitializer, align 1\n"
    );
    assert_eq!(
        export_global(&state, &global(BYTES, 3)).unwrap(),
        "@g = addrspace(3) global [3 x i8] undef, align 1\n"
    );
    let mut spelled = global(BYTES, 1);
    spelled.initializer_hex = Some("00ffA1".to_string());
    spelled.alignment = Some(16);
    assert_eq!(
        export_global(&state, &spelled).unwrap(),
        "@g = addrspace(1) global [3 x i8] c\"\\00\\FF\\A1\", align 16\n"
    );
    let mut external = global(I32, 1);
    external.external_linkage = true;
    assert_eq!(
        export_global(&state, &external).unwrap(),
        "@g = external addrspace(1) global i32, align 8\n"
    );
    assert_eq!(
        export_global(&state, &global(BYTES, 5)),
        Err("NVVM global `@g` uses unsupported address space 5; expected generic (0), global (1), shared (3), or constant (4)".to_string())
    );
}

#[test]
fn initializers_must_fit_their_storage() {
    let ctx = context();
    let state = ModuleExportState::new(&ctx, false, false, None);
    let mut short = global(BYTES, 1);
    short.initializer_hex = Some("00".to_string());
    assert_eq!(
        export_global(&state, &short),
        Err("explicit global initializer has 1 bytes but storage type is `llvm.[3 x i8]`; expected `[1 x i8]`".to_string())
    );
    let mut word = global(I32, 1);
    word.initializer_hex = Some("00000000".to_string());
    assert_eq!(
        export_global(&state, &word),
        Err("explicit global initializer requires `[N x i8]` storage, found `llvm.i32`".to_string())
    );
}

#[test]
fn hex_is_decoded_in_either_case() {
    assert_eq!(decode_hex_initializer("00fFa5"), Ok(vec![0, 255, 165]));
    assert_eq!(
        decode_hex_initializer("abc"),
        Err("global initializer hex string has odd length".to_string())
    );
    assert_eq!(
        decode_hex_initializer("0'"),
        Err("invalid hex digit '\\''".to_string())
    );
    assert_eq!(
        decode_hex_initializer("g0"),
        Err("invalid hex digit 'g'".to_string())
    );
}

#[test]
fn symbols_lose_the_device_prefix() {
    assert!(has_device_prefix("cuda_oxide_device_f"));
    assert_eq!(strip_device_prefix("cuda_oxide_device_f"), "f");
    assert_eq!(strip_device_prefix("f"), "f");
    assert_eq!(
        exported_symbol("llvm_nvvm_read_ptx_sreg_tid_x"),
        "llvm.nvvm.read.ptx.sreg.tid.x"
    );
}

#[test]
fn integers_keep_their_low_bits() {
    assert_eq!(
        IntegerAttr::from_i64(-1, 32).to_string_unsigned_decimal(),
        "4294967295"
    );
    assert_eq!(
        IntegerAttr::from_i64(-1, 1).to_string_unsigned_decimal(),
        "1"
    );
    assert_eq!(
        IntegerAttr::from_i64(-1, 128).to_string_unsigned_decimal(),
        "340282366920938463463374607431768211455"
    );
    assert_eq!(
        IntegerAttr {
            bits: 0x1_0000_0005,
            width: 64
        }
        .to_u32(),
        5
    );
    assert_eq!(
        IntegerAttr {
            bits: 0x1ff,
            width: 8
        }
        .to_u32(),
        255
    );
}
