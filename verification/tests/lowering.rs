//! Lowering of device operations.

use cuda_oxide::atomic_lowering::convert_atom_add_bf16x2;
use cuda_oxide::atomic_lowering::convert_atom_add_f16x2;
use cuda_oxide::atomic_lowering::convert_atomic_cmpxchg;
use cuda_oxide::atomic_lowering::convert_atomic_load;
use cuda_oxide::atomic_lowering::convert_atomic_rmw;
use cuda_oxide::atomic_lowering::convert_atomic_store;
use cuda_oxide::atomic_lowering::AtomicOrdering;
use cuda_oxide::atomic_lowering::AtomicRmwKind;
use cuda_oxide::atomic_lowering::AtomicScope;
use cuda_oxide::intrinsic_lowering::convert_atomic_add_global_v4_f32;
use cuda_oxide::intrinsic_lowering::convert_barrier0;
use cuda_oxide::intrinsic_lowering::convert_commit_group;
use cuda_oxide::intrinsic_lowering::convert_copy_ca_16;
use cuda_oxide::intrinsic_lowering::convert_griddepcontrol_launch_dependents;
use cuda_oxide::intrinsic_lowering::convert_griddepcontrol_wait;
use cuda_oxide::intrinsic_lowering::convert_sreg_read_i32;
use cuda_oxide::intrinsic_lowering::convert_sreg_read_inline;
use cuda_oxide::intrinsic_lowering::convert_threadfence;
use cuda_oxide::intrinsic_lowering::convert_threadfence_block;
use cuda_oxide::intrinsic_lowering::convert_threadfence_system;
use cuda_oxide::intrinsic_lowering::convert_wait_group;
use cuda_oxide::lowering::cast_to_cluster_shared_addrspace;
use cuda_oxide::lowering::create_i1_const;
use cuda_oxide::lowering::create_i32_const;
use cuda_oxide::lowering::create_i64_const;
use cuda_oxide::lowering::trunc_to_i1;
use cuda_oxide::lowering::AsmKind;
use cuda_oxide::lowering::Disposal;
use cuda_oxide::lowering::LlvmAtomicOrdering;
use cuda_oxide::lowering::LlvmAtomicRmwKind;
use cuda_oxide::lowering::LlvmOp;
use cuda_oxide::lowering::LlvmSyncScope;
use cuda_oxide::lowering::LowType;
use cuda_oxide::lowering::LowValue;
use cuda_oxide::lowering::Rewriter;

fn rewriter() -> Rewriter {
    Rewriter::new(Ok(vec![]), 10)
}

fn pointer(id: u64, address_space: u32) -> LowValue {
    LowValue {
        id,
        ty: LowType::Pointer { address_space },
    }
}

fn word(id: u64) -> LowValue {
    LowValue {
        id,
        ty: LowType::Integer { width: 32 },
    }
}

/// The templates of the inline assembly that was inserted, and "op" for anything
/// else.
fn templates(rewriter: &Rewriter) -> Vec<String> {
    rewriter
        .emitted
        .iter()
        .map(|e| match &e.op {
            LlvmOp::InlineAsm { template, .. } => template.clone(),
            _ => "op".to_string(),
        })
        .collect()
}

#[test]
fn test_intrinsic_insertion() {
    let mut rewriter = rewriter();
    convert_sreg_read_i32(&mut rewriter, "llvm_nvvm_read_ptx_sreg_tid_x").unwrap();

    let declared = rewriter.module.as_ref().unwrap();
    assert!(
        declared
            .iter()
            .any(|d| d.name == "llvm_nvvm_read_ptx_sreg_tid_x"),
        "Intrinsic function declaration not found"
    );
    assert!(matches!(
        &rewriter.emitted[0].op,
        LlvmOp::Call { callee, .. } if callee == "llvm_nvvm_read_ptx_sreg_tid_x"
    ));
    assert_eq!(rewriter.emitted[0].result, Some(word(10)));
    assert_eq!(rewriter.disposal, Disposal::ReplacedBy(0));
}

#[test]
fn test_threadfence_system_lowers_to_inline_asm() {
    let mut rewriter = rewriter();
    convert_threadfence_system(&mut rewriter);

    let mut found_inline_asm = false;
    for emitted in &rewriter.emitted {
        if let LlvmOp::InlineAsm { template, kind, .. } = &emitted.op {
            if template == "membar.sys;" {
                found_inline_asm = true;
                assert_eq!(*kind, AsmKind::Convergent);
            }
        }
    }
    assert!(
        found_inline_asm,
        "Expected membar.sys inline asm in lowered kernel"
    );
    assert_eq!(rewriter.disposal, Disposal::Erased);
}

#[test]
fn intrinsics_are_declared_once() {
    let mut rewriter = rewriter();
    convert_barrier0(&mut rewriter).unwrap();
    convert_barrier0(&mut rewriter).unwrap();
    assert_eq!(rewriter.module.unwrap().len(), 1);
    assert_eq!(rewriter.emitted.len(), 2);
    let mut closed = Rewriter::new(Err("no module".to_string()), 0);
    assert_eq!(
        convert_barrier0(&mut closed),
        Err("no module".to_string())
    );
    assert!(closed.emitted.is_empty());
    assert_eq!(closed.disposal, Disposal::Pending);
}

#[test]
fn fences_lower_to_their_scopes() {
    let mut rewriter = rewriter();
    convert_threadfence_block(&mut rewriter);
    convert_threadfence(&mut rewriter);
    convert_griddepcontrol_launch_dependents(&mut rewriter);
    convert_griddepcontrol_wait(&mut rewriter);
    convert_commit_group(&mut rewriter);
    assert_eq!(
        templates(&rewriter),
        [
            "membar.cta;",
            "membar.gl;",
            "griddepcontrol.launch_dependents;",
            "griddepcontrol.wait;",
            "cp.async.commit_group;",
        ]
    );
    assert!(rewriter.emitted.iter().all(|e| matches!(
        &e.op,
        LlvmOp::InlineAsm { constraints, .. } if constraints == "~{memory}"
    )));
}

#[test]
fn registers_are_read_inline() {
    let mut rewriter = rewriter();
    convert_sreg_read_inline(
        &mut rewriter,
        64,
        "mov.u64 $0, %gridid;",
        "=l",
        AsmKind::SideEffect,
    );
    assert_eq!(
        rewriter.emitted[0].result.unwrap().ty,
        LowType::Integer { width: 64 }
    );
    assert_eq!(rewriter.disposal, Disposal::ReplacedBy(0));
}

#[test]
fn loads_and_stores_take_their_side_of_the_ordering() {
    let cases = [
        (AtomicOrdering::Relaxed, "relaxed", "relaxed"),
        (AtomicOrdering::Acquire, "acquire", "relaxed"),
        (AtomicOrdering::Release, "relaxed", "release"),
        (AtomicOrdering::AcqRel, "acquire", "release"),
        (AtomicOrdering::SeqCst, "acquire", "release"),
    ];
    for (ordering, load, store) in cases {
        let mut rewriter = rewriter();
        convert_atomic_load(
            &mut rewriter,
            &vec![pointer(1, 0)],
            ordering,
            AtomicScope::Device,
            Ok(LowType::Integer { width: 32 }),
        )
        .unwrap();
        convert_atomic_store(
            &mut rewriter,
            &vec![word(2), pointer(1, 0)],
            ordering,
            AtomicScope::System,
        );
        assert_eq!(
            templates(&rewriter),
            [
                format!("ld.{load}.gpu.b32 $0, [$1];"),
                format!("st.{store}.sys.b32 [$0], $1;"),
            ]
        );
        let LlvmOp::InlineAsm { inputs, .. } = &rewriter.emitted[1].op else {
            panic!("expected inline assembly");
        };
        assert_eq!(*inputs, [pointer(1, 0), word(2)]);
    }
    let mut rewriter = rewriter();
    assert_eq!(
        convert_atomic_load(
            &mut rewriter,
            &vec![pointer(1, 0)],
            AtomicOrdering::Relaxed,
            AtomicScope::Device,
            Err("no such type".to_string()),
        ),
        Err("no such type".to_string())
    );
}

#[test]
fn fences_stand_around_read_modify_writes() {
    let cases = [
        (AtomicOrdering::Relaxed, vec!["op"], 0),
        (
            AtomicOrdering::Acquire,
            vec!["op", "fence.acq_rel.cta;"],
            0,
        ),
        (
            AtomicOrdering::Release,
            vec!["fence.acq_rel.cta;", "op"],
            1,
        ),
        (
            AtomicOrdering::AcqRel,
            vec!["fence.acq_rel.cta;", "op", "fence.acq_rel.cta;"],
            1,
        ),
        (
            AtomicOrdering::SeqCst,
            vec!["fence.sc.cta;", "op", "fence.sc.cta;"],
            1,
        ),
    ];
    for (ordering, expected, at) in cases {
        let mut rewriter = rewriter();
        convert_atomic_rmw(
            &mut rewriter,
            &vec![pointer(1, 0), word(2)],
            AtomicRmwKind::UMax,
            ordering,
            AtomicScope::Block,
        );
        assert_eq!(templates(&rewriter), expected);
        assert_eq!(rewriter.disposal, Disposal::ReplacedBy(at));
        assert_eq!(
            rewriter.emitted[at].op,
            LlvmOp::AtomicRmw {
                ptr: pointer(1, 0),
                value: word(2),
                action: LlvmAtomicRmwKind::UMax,
                ordering: LlvmAtomicOrdering::Monotonic,
                scope: LlvmSyncScope::Block,
            }
        );
        assert_eq!(rewriter.emitted[at].result, Some(word(10)));
    }
}

#[test]
fn exchanges_give_the_loaded_value() {
    let mut rewriter = rewriter();
    convert_atomic_cmpxchg(
        &mut rewriter,
        &vec![pointer(1, 0), word(2), word(3)],
        AtomicOrdering::AcqRel,
        AtomicOrdering::Relaxed,
        AtomicScope::System,
    );
    assert_eq!(
        rewriter.emitted[0].op,
        LlvmOp::AtomicCmpxchg {
            ptr: pointer(1, 0),
            expected: word(2),
            new_value: word(3),
            success: LlvmAtomicOrdering::AcqRel,
            failure: LlvmAtomicOrdering::Monotonic,
            scope: LlvmSyncScope::System,
        }
    );
    assert_eq!(
        rewriter.emitted[1].op,
        LlvmOp::ExtractValue {
            value: rewriter.emitted[0].result.unwrap(),
            index: 0,
            ty: LowType::Integer { width: 32 },
        }
    );
    assert_eq!(rewriter.disposal, Disposal::ReplacedBy(1));
}

#[test]
fn packed_additions_take_two_operands() {
    let mut rewriter = rewriter();
    convert_atom_add_f16x2(&mut rewriter, &vec![pointer(1, 1), word(2)]).unwrap();
    convert_atom_add_bf16x2(&mut rewriter, &vec![pointer(1, 1), word(2)]).unwrap();
    assert_eq!(
        templates(&rewriter),
        [
            "atom.global.add.noftz.f16x2 $0, [$1], $2;",
            "atom.global.add.noftz.bf16x2 $0, [$1], $2;",
        ]
    );
    assert_eq!(
        convert_atom_add_f16x2(&mut rewriter, &vec![word(2)]),
        Err("packed atomic add requires 2 operands (address, addend), got 1".to_string())
    );
}

#[test]
fn copies_reach_their_address_spaces() {
    let mut rewriter = rewriter();
    convert_copy_ca_16(&mut rewriter, &vec![pointer(1, 0), pointer(2, 1)]).unwrap();
    assert_eq!(
        rewriter.emitted[0].op,
        LlvmOp::AddrSpaceCast {
            value: pointer(1, 0),
            address_space: 3,
        }
    );
    assert_eq!(
        rewriter.emitted[1].op,
        LlvmOp::Call {
            callee: "llvm_nvvm_cp_async_ca_shared_global_16".to_string(),
            result: LowType::Void,
            args: vec![pointer(10, 3), pointer(2, 1)],
        }
    );
    assert_eq!(rewriter.disposal, Disposal::Erased);
    assert_eq!(
        convert_copy_ca_16(&mut rewriter, &vec![]),
        Err("cp.async.ca.shared.global.16 requires 2 operands, got 0".to_string())
    );
    let mut closed = Rewriter::new(Err("no module".to_string()), 0);
    assert!(convert_copy_ca_16(&mut closed, &vec![pointer(1, 0), pointer(2, 0)]).is_err());
    assert_eq!(closed.emitted.len(), 2);
    assert_eq!(closed.disposal, Disposal::Pending);
}

#[test]
fn waits_default_to_all_groups() {
    let mut rewriter = rewriter();
    convert_wait_group(&mut rewriter, &vec![]);
    let LlvmOp::Constant(zero) = &rewriter.emitted[0].op else {
        panic!("expected a constant");
    };
    assert_eq!(zero.to_u32(), 0);
    let LlvmOp::InlineAsm {
        inputs,
        template,
        constraints,
        ..
    } = &rewriter.emitted[1].op
    else {
        panic!("expected inline assembly");
    };
    assert_eq!(*inputs, [word(10)]);
    assert_eq!(template, "cp.async.wait_group $0;");
    assert_eq!(constraints, "n,~{memory}");
}

#[test]
fn vector_additions_take_five_operands() {
    let mut rewriter = rewriter();
    assert_eq!(
        convert_atomic_add_global_v4_f32(&mut rewriter, vec![pointer(1, 1)]),
        Err("atomic_add_global_v4_f32 requires 5 operands".to_string())
    );
    let operands = vec![pointer(1, 1), word(2), word(3), word(4), word(5)];
    convert_atomic_add_global_v4_f32(&mut rewriter, operands).unwrap();
    assert_eq!(
        templates(&rewriter),
        ["red.global.add.v4.f32 [$0], {$1, $2, $3, $4};"]
    );
}

#[test]
fn constants_keep_the_bits_of_their_width() {
    let mut rewriter = rewriter();
    create_i1_const(&mut rewriter, true);
    create_i32_const(&mut rewriter, -1);
    create_i64_const(&mut rewriter, -1);
    let values: Vec<String> = rewriter
        .emitted
        .iter()
        .map(|e| match &e.op {
            LlvmOp::Constant(attr) => attr.to_string_unsigned_decimal(),
            _ => panic!("expected a constant"),
        })
        .collect();
    assert_eq!(values, ["1", "4294967295", "18446744073709551615"]);
}

#[test]
fn casts_are_inserted_only_where_needed() {
    let mut rewriter = rewriter();
    let near = cast_to_cluster_shared_addrspace(&mut rewriter, pointer(1, 3));
    assert_eq!(near, pointer(10, 7));
    assert_eq!(
        cast_to_cluster_shared_addrspace(&mut rewriter, near),
        near
    );
    assert_eq!(rewriter.emitted.len(), 1);
    let bit = trunc_to_i1(&mut rewriter, word(4));
    assert_eq!(bit.ty, LowType::Integer { width: 1 });
}
