//! Import of calls.

use cuda_oxide::float_math::emit_rust_float_math_intrinsic;
use cuda_oxide::float_math::PlaceholderNames;
use cuda_oxide::float_math::RustFloatMathIntrinsic;
use cuda_oxide::importer::emit_atomic_add_global_v4_f32;
use cuda_oxide::importer::emit_cp_async_ca_shared_global_16;
use cuda_oxide::importer::emit_cp_async_commit_group;
use cuda_oxide::importer::emit_cp_async_wait_group;
use cuda_oxide::importer::emit_ld_global_v4_f32;
use cuda_oxide::importer::emit_st_global_v4_f32;
use cuda_oxide::importer::Continuation;
use cuda_oxide::importer::ImportError;
use cuda_oxide::importer::ImportedKind;
use cuda_oxide::importer::ImportedOp;
use cuda_oxide::importer::ImportedType;
use cuda_oxide::importer::ImportedValue;
use cuda_oxide::importer::Importer;
use cuda_oxide::importer::Operand;

fn computed() -> ImportedOp {
    ImportedOp {
        kind: ImportedKind::Computed,
        operands: vec![],
        results: vec![],
        loc: 0,
    }
}

/// A block of two operations, with two more that compute operands.
fn importer() -> Importer {
    Importer {
        ops: vec![computed(), computed(), computed(), computed()],
        block: vec![0, 1],
        next_value: 100,
    }
}

fn operand(lead: Vec<usize>, value: u64) -> Result<Operand, String> {
    Ok(Operand { lead, value })
}

#[test]
fn copies_stand_behind_their_operands() {
    let mut importer = importer();
    let continuation = emit_cp_async_ca_shared_global_16(
        &mut importer,
        &vec![operand(vec![2], 7), operand(vec![3], 8)],
        Some(5),
        Some(0),
        42,
    );
    assert_eq!(
        continuation,
        Ok(Continuation::Goto {
            target: 5,
            after: 3
        })
    );
    assert_eq!(importer.block, [0, 2, 3, 4, 1]);
    assert_eq!(
        importer.ops[4],
        ImportedOp {
            kind: ImportedKind::CpAsyncCaShared16,
            operands: vec![7, 8],
            results: vec![],
            loc: 42,
        }
    );
}

#[test]
fn calls_without_a_predecessor_come_first() {
    let mut importer = importer();
    emit_cp_async_commit_group(&mut importer, &vec![], Some(0), None, 0).unwrap();
    assert_eq!(importer.block, [4, 0, 1]);
}

#[test]
fn wrong_argument_counts_are_refused() {
    let mut importer = importer();
    let none: Vec<Result<Operand, String>> = vec![];
    let message = |r: Result<Continuation, ImportError>| match r {
        Err(ImportError::Unsupported(message)) => message,
        _ => panic!("expected a refusal"),
    };
    assert_eq!(
        message(emit_cp_async_ca_shared_global_16(
            &mut importer,
            &none,
            Some(0),
            None,
            0
        )),
        "cp_async_ca_shared_global_16 expects 2 arguments, got 0"
    );
    assert_eq!(
        message(emit_cp_async_commit_group(
            &mut importer,
            &vec![operand(vec![], 1)],
            Some(0),
            None,
            0
        )),
        "cp_async_commit_group expects 0 arguments, got 1"
    );
    assert_eq!(
        message(emit_cp_async_wait_group(
            &mut importer,
            &none,
            Some(0),
            None,
            0
        )),
        "cp_async_wait_group expects 1 argument, got 0"
    );
    assert_eq!(
        message(emit_st_global_v4_f32(
            &mut importer,
            &none,
            Some(0),
            None,
            0
        )),
        "st_global_v4_f32 expects 5 arguments (p, a, b, c, d), got 0"
    );
    assert_eq!(
        message(emit_ld_global_v4_f32(
            &mut importer,
            &none,
            0,
            Some(0),
            None,
            0
        )),
        "ld_global_v4_f32 expects 1 argument (p), got 0"
    );
    assert_eq!(
        message(emit_atomic_add_global_v4_f32(
            &mut importer,
            &none,
            Some(0),
            None,
            0
        )),
        "atomic_add_global_v4_f32 expects 5 arguments (p, a, b, c, d), got 0"
    );
    assert_eq!(importer.block, [0, 1]);
}

#[test]
fn calls_need_a_target() {
    let mut importer = importer();
    assert_eq!(
        emit_cp_async_wait_group(&mut importer, &vec![operand(vec![], 9)], None, Some(1), 0),
        Err(ImportError::Unsupported(
            "cp_async_wait_group call without target block".to_string()
        ))
    );
    // The operation is there all the same.
    assert_eq!(importer.block, [0, 1, 4]);
}

#[test]
fn the_first_untranslated_operand_is_reported() {
    let mut importer = importer();
    let args = vec![
        operand(vec![2], 1),
        Err("first".to_string()),
        operand(vec![3], 3),
        Err("second".to_string()),
        operand(vec![], 5),
    ];
    assert_eq!(
        emit_st_global_v4_f32(&mut importer, &args, Some(0), Some(1), 0),
        Err(ImportError::Untranslated("first".to_string()))
    );
    assert_eq!(importer.block, [0, 1, 2]);
    assert_eq!(importer.ops.len(), 4);
}

#[test]
fn stores_and_additions_pass_all_operands() {
    let mut importer = importer();
    let args: Vec<Result<Operand, String>> = (1..6).map(|v| operand(vec![], v)).collect();
    emit_st_global_v4_f32(&mut importer, &args, Some(0), None, 0).unwrap();
    emit_atomic_add_global_v4_f32(&mut importer, &args, Some(0), None, 0).unwrap();
    assert_eq!(importer.ops[4].kind, ImportedKind::StGlobalV4F32);
    assert_eq!(importer.ops[5].kind, ImportedKind::AtomicAddGlobalV4F32);
    assert_eq!(importer.ops[5].operands, [1, 2, 3, 4, 5]);
    assert_eq!(importer.block, [5, 4, 0, 1]);
}

#[test]
fn loads_bundle_their_floats() {
    let mut importer = importer();
    let continuation = emit_ld_global_v4_f32(
        &mut importer,
        &vec![operand(vec![2], 9)],
        77,
        Some(3),
        Some(1),
        6,
    );
    let array = ImportedValue {
        id: 104,
        ty: ImportedType::Float32Array { len: 4 },
    };
    assert_eq!(
        continuation,
        Ok(Continuation::StoreAndGoto {
            destination: 77,
            value: array,
            target: 3,
            after: 4
        })
    );
    assert_eq!(importer.block, [0, 1, 2, 4, 5]);
    assert_eq!(importer.ops[4].results.len(), 4);
    assert_eq!(importer.ops[5].operands, [100, 101, 102, 103]);
    assert_eq!(importer.ops[5].results, [array]);
    assert_eq!(importer.next_value, 105);
}

#[test]
fn float_functions_are_recognised_by_path() {
    use_path("core::intrinsics::sqrtf32", RustFloatMathIntrinsic::SqrtF32);
    use_path("std::intrinsics::powf64", RustFloatMathIntrinsic::PowfF64);
    use_path("std::intrinsics::powif64", RustFloatMathIntrinsic::PowiF64);
    use_path("core::intrinsics::fabs", RustFloatMathIntrinsic::Fabs);
    use_path(
        "core::intrinsics::round_ties_even_f32",
        RustFloatMathIntrinsic::RoundevenF32,
    );
    use_path("std::sys::cmath::atan2f", RustFloatMathIntrinsic::Atan2F32);
    use_path("std::sys::cmath::atan", RustFloatMathIntrinsic::AtanF64);
    for path in [
        "",
        "core::intrinsics::",
        "core::sys::cmath::atan",
        "core::intrinsics::atan2f",
        "std::intrinsics::sqrtf32 ",
        "sqrtf32",
    ] {
        assert_eq!(RustFloatMathIntrinsic::from_core_path(path), None, "{path}");
    }
}

fn use_path(path: &str, expected: RustFloatMathIntrinsic) {
    assert_eq!(
        RustFloatMathIntrinsic::from_core_path(path),
        Some(expected)
    );
}

fn names() -> PlaceholderNames {
    let n = |s: &str| s.to_string();
    PlaceholderNames {
        sqrt_f32: n("sqrt_f32"),
        sqrt_f64: n("sqrt_f64"),
        powi_f32: n("powi_f32"),
        powi_f64: n("powi_f64"),
        sin_f32: n("sin_f32"),
        sin_f64: n("sin_f64"),
        cos_f32: n("cos_f32"),
        cos_f64: n("cos_f64"),
        tan_f32: n("tan_f32"),
        tan_f64: n("tan_f64"),
        powf_f32: n("powf_f32"),
        powf_f64: n("powf_f64"),
        exp_f32: n("exp_f32"),
        exp_f64: n("exp_f64"),
        exp2_f32: n("exp2_f32"),
        exp2_f64: n("exp2_f64"),
        log_f32: n("log_f32"),
        log_f64: n("log_f64"),
        log2_f32: n("log2_f32"),
        log2_f64: n("log2_f64"),
        log10_f32: n("log10_f32"),
        log10_f64: n("log10_f64"),
        fma_f32: n("fma_f32"),
        fma_f64: n("fma_f64"),
        fmuladd_f32: n("fmuladd_f32"),
        fmuladd_f64: n("fmuladd_f64"),
        floor_f32: n("floor_f32"),
        floor_f64: n("floor_f64"),
        ceil_f32: n("ceil_f32"),
        ceil_f64: n("ceil_f64"),
        trunc_f32: n("trunc_f32"),
        trunc_f64: n("trunc_f64"),
        round_f32: n("round_f32"),
        round_f64: n("round_f64"),
        roundeven_f32: n("roundeven_f32"),
        roundeven_f64: n("roundeven_f64"),
        fabs: n("fabs"),
        copysign_f32: n("copysign_f32"),
        copysign_f64: n("copysign_f64"),
        atan2_f32: n("atan2_f32"),
        atan2_f64: n("atan2_f64"),
        atan_f32: n("atan_f32"),
        atan_f64: n("atan_f64"),
    }
}

#[test]
fn float_functions_become_placeholder_calls() {
    let names = names();
    let call = emit_rust_float_math_intrinsic(
        &names,
        RustFloatMathIntrinsic::Log10F64,
        vec![operand(vec![], 3)],
        2,
        Ok(11),
        Some(4),
        None,
        5,
    )
    .unwrap();
    assert_eq!(call.callee, "log10_f64");
    assert_eq!(call.destination, 2);
    assert_eq!(call.return_type, 11);
    assert_eq!(call.target, Some(4));
    assert_eq!(
        RustFloatMathIntrinsic::CopysignF32.placeholder_callee(&names),
        "copysign_f32"
    );
    assert_eq!(
        emit_rust_float_math_intrinsic(
            &names,
            RustFloatMathIntrinsic::Fabs,
            vec![],
            0,
            Err("no type".to_string()),
            None,
            None,
            0,
        ),
        Err("no type".to_string())
    );
}

#[test]
fn every_spelled_path_is_recognised_and_no_other() {
    let mut found: Vec<RustFloatMathIntrinsic> = Vec::new();
    let mut paths: usize = 0;
    for stem in [
        "sqrt", "powi", "sin", "cos", "tan", "pow", "exp", "exp2", "log", "log2", "log10", "fma",
        "fmuladd", "floor", "ceil", "trunc", "round", "round_ties_even_", "copysign",
    ] {
        for width in ["f32", "f64"] {
            let through_core =
                RustFloatMathIntrinsic::from_core_path(&format!("core::intrinsics::{stem}{width}"));
            let through_std =
                RustFloatMathIntrinsic::from_core_path(&format!("std::intrinsics::{stem}{width}"));
            assert_eq!(through_core, through_std, "{stem}{width}");
            found.push(through_core.unwrap());
            paths += 2;
        }
    }
    found.push(RustFloatMathIntrinsic::from_core_path("core::intrinsics::fabs").unwrap());
    assert!(RustFloatMathIntrinsic::from_core_path("std::intrinsics::fabs").is_some());
    paths += 2;
    for name in ["atan2f", "atan2", "atanf", "atan"] {
        found.push(
            RustFloatMathIntrinsic::from_core_path(&format!("std::sys::cmath::{name}")).unwrap(),
        );
        paths += 1;
        assert_eq!(
            RustFloatMathIntrinsic::from_core_path(&format!("core::sys::cmath::{name}")),
            None
        );
    }
    assert_eq!(paths, 82);
    assert_eq!(found.len(), 43);
    for (i, a) in found.iter().enumerate() {
        assert!(found[i + 1..].iter().all(|b| a != b));
    }
}
