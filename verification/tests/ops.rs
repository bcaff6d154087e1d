//! Dialect operations.

use cuda_oxide::ir::AttributeDict;
use cuda_oxide::ir::TypeKind;
use cuda_oxide::ir::Value;
use cuda_oxide::memory_ops;
use cuda_oxide::memory_ops::alignment_attr_key;
use cuda_oxide::memory_ops::op_alignment;
use cuda_oxide::memory_ops::set_op_alignment;
use cuda_oxide::memory_ops::AllocaOp;
use cuda_oxide::memory_ops::AllocaOpVerifyErr;
use cuda_oxide::memory_ops::GepIndex;
use cuda_oxide::memory_ops::GetElementPtrOp;
use cuda_oxide::memory_ops::GetElementPtrOpErr;
use cuda_oxide::memory_ops::LoadOp;
use cuda_oxide::memory_ops::LoadOpVerifyErr;
use cuda_oxide::memory_ops::StoreOp;
use cuda_oxide::memory_ops::StoreOpVerifyErr;
use cuda_oxide::nvvm;
use cuda_oxide::nvvm::cluster::DsmemReadU32Op;
use cuda_oxide::nvvm::cluster::ReadPtxSregClusterIdxOp;
use cuda_oxide::op_arena::OpArena;
use cuda_oxide::op_arena::OpRegistry;
use cuda_oxide::op_arena::Operation;

const I32: usize = 0;
const FLOAT: usize = 1;
const ARRAY: usize = 2;
const STRUCT: usize = 3;
const SHARED: usize = 4;

fn arena() -> OpArena {
    let mut ir = OpArena::new();
    ir.types.push(TypeKind::Integer { width: 32 });
    ir.types.push(TypeKind::Single);
    ir.types.push(TypeKind::Array {
        elem: FLOAT,
        size: 4,
    });
    ir.types.push(TypeKind::Struct {
        fields: vec![I32, ARRAY],
    });
    ir.types.push(TypeKind::Pointer { address_space: 3 });
    ir
}

fn value(id: u64, ty: usize) -> Value {
    Value { id, ty }
}

#[test]
fn allocations_give_generic_pointers() {
    let mut ir = arena();
    let alloca = AllocaOp::new(&mut ir, FLOAT, value(100, I32));
    assert_eq!(ir.ops[alloca.op].name, "llvm.alloca");
    let pointer = ir.ops[alloca.op].results[0];
    assert!(matches!(
        ir.types[pointer.ty],
        TypeKind::Pointer { address_space: 0 }
    ));
    assert_eq!(alloca.result_pointee_type(&ir), FLOAT);
    assert_eq!(alloca.verify(&ir), Ok(()));

    let other = AllocaOp::new(&mut ir, FLOAT, value(100, FLOAT));
    assert_eq!(ir.ops[other.op].results[0].ty, pointer.ty);
    assert_ne!(ir.ops[other.op].results[0].id, pointer.id);
    assert_eq!(other.verify(&ir), Err(AllocaOpVerifyErr::OperandType));
    assert_eq!(
        AllocaOpVerifyErr::OperandType.message(),
        "Operand must be a signless integer"
    );
    ir.ops[alloca.op].attributes = AttributeDict::new();
    assert_eq!(alloca.verify(&ir), Err(AllocaOpVerifyErr::ElemTypeAttr));
    assert_eq!(
        AllocaOpVerifyErr::ElemTypeAttr.message(),
        "Missing or incorrect type of attribute for element type"
    );
}

#[test]
fn loads_and_stores_check_their_address() {
    let mut ir = arena();
    let pointer = value(100, SHARED);
    let load = LoadOp::new(&mut ir, pointer, FLOAT);
    assert_eq!(load.verify(&ir), Ok(()));
    assert_eq!(ir.ops[load.op].results[0].ty, FLOAT);
    assert!(ir.ops[load.op].attributes.entries.is_empty());
    let bad = LoadOp::new(&mut ir, value(1, I32), FLOAT);
    assert_eq!(bad.verify(&ir), Err(LoadOpVerifyErr::OperandTypeErr));
    assert_eq!(
        LoadOpVerifyErr::OperandTypeErr.message(),
        "Load operand must be a pointer"
    );
    let store = StoreOp::new(&mut ir, value(2, FLOAT), pointer);
    assert_eq!(store.verify(&ir), Ok(()));
    assert_eq!(store.value_opd(&ir), value(2, FLOAT));
    assert_eq!(store.address_opd(&ir), pointer);
    let swapped = StoreOp::new(&mut ir, pointer, value(2, FLOAT));
    assert_eq!(
        swapped.verify(&ir),
        Err(StoreOpVerifyErr::AddrOpdTypeErr)
    );
    assert_eq!(
        StoreOpVerifyErr::AddrOpdTypeErr.message(),
        "Store operand must have a pointer as its second argument"
    );
    assert_eq!(
        StoreOpVerifyErr::NumOpdsErr.message(),
        "Store operand must have two operands"
    );
}

#[test]
fn alignments_are_read_back() {
    let mut ir = arena();
    let load = LoadOp::new(&mut ir, value(100, SHARED), ARRAY);
    assert_eq!(op_alignment(&ir, load.op), None);
    set_op_alignment(&mut ir, load.op, 16);
    set_op_alignment(&mut ir, load.op, 8);
    assert_eq!(op_alignment(&ir, load.op), Some(8));
    assert_eq!(alignment_attr_key(), "llvm_alignment");
}

#[test]
fn address_computations_keep_their_indices() {
    let mut ir = arena();
    let base = value(100, SHARED);
    let indices = vec![
        GepIndex::Value(value(5, I32)),
        GepIndex::Constant(1),
        GepIndex::Value(value(6, I32)),
    ];
    let gep = GetElementPtrOp::new(&mut ir, base, indices.clone(), STRUCT).unwrap();
    assert_eq!(gep.indices(&ir), indices);
    assert_eq!(gep.src_ptr(&ir), base);
    assert_eq!(gep.src_elem_type(&ir), STRUCT);
    assert_eq!(
        ir.ops[gep.op].operands,
        [base, value(5, I32), value(6, I32)]
    );
    assert_eq!(ir.ops[gep.op].results[0].ty, SHARED);
    assert_eq!(
        GetElementPtrOp::indexed_type(&ir, STRUCT, &indices),
        Ok(FLOAT)
    );
    assert_eq!(gep.verify(&ir), Ok(()));
    assert_eq!(gep.result_pointee_type(&ir), FLOAT);
    // Missing indices are reported before the element type is looked at.
    ir.ops[gep.op].attributes = AttributeDict::new();
    assert_eq!(gep.verify(&ir), Err(GetElementPtrOpErr::IndicesAttrErr));
    assert_eq!(
        GetElementPtrOpErr::IndicesAttrErr.message(),
        "GetElementPtrOp has no or incorrect indices attribute"
    );
}

#[test]
fn indices_must_fit_the_type() {
    let mut ir = arena();
    for indices in [
        vec![GepIndex::Constant(0), GepIndex::Constant(2)],
        vec![GepIndex::Constant(0), GepIndex::Value(value(5, I32))],
        vec![
            GepIndex::Constant(0),
            GepIndex::Constant(0),
            GepIndex::Constant(0),
        ],
    ] {
        let gep = GetElementPtrOp::new(&mut ir, value(100, SHARED), indices, STRUCT).unwrap();
        assert_eq!(gep.verify(&ir), Err(GetElementPtrOpErr::IndicesErr));
    }
    assert_eq!(
        GetElementPtrOpErr::IndicesErr.message(),
        "The indices on this GEP are invalid for its source element type"
    );
    assert_eq!(
        GetElementPtrOp::indexed_type(&ir, ARRAY, &vec![GepIndex::Constant(9)]),
        Ok(ARRAY)
    );
}

#[test]
fn registries_keep_the_order_of_registration() {
    let mut registry = OpRegistry::new();
    memory_ops::register(&mut registry);
    nvvm::cluster::register(&mut registry);
    nvvm::grid::register(&mut registry);
    nvvm::cp_async::register(&mut registry);
    nvvm::vec::register(&mut registry);
    let names: Vec<&str> = registry.infos.iter().map(|i| i.name.as_str()).collect();
    assert_eq!(
        names,
        [
            "llvm.alloca",
            "llvm.load",
            "llvm.store",
            "llvm.gep",
            "nvvm.read_ptx_sreg_cluster_ctaid_x",
            "nvvm.read_ptx_sreg_cluster_ctaid_y",
            "nvvm.read_ptx_sreg_cluster_ctaid_z",
            "nvvm.read_ptx_sreg_cluster_nctaid_x",
            "nvvm.read_ptx_sreg_cluster_nctaid_y",
            "nvvm.read_ptx_sreg_cluster_nctaid_z",
            "nvvm.read_ptx_sreg_cluster_idx",
            "nvvm.read_ptx_sreg_nclusterid",
            "nvvm.cluster_sync",
            "nvvm.mapa_shared_cluster",
            "nvvm.dsmem_read_u32",
            "nvvm.dsmem_atom_add_f32",
            "nvvm.grid_sync",
            "nvvm.griddepcontrol_launch_dependents",
            "nvvm.griddepcontrol_wait",
            "nvvm.cp_async_ca_shared_global_16",
            "nvvm.cp_async_commit_group",
            "nvvm.cp_async_wait_group",
            "nvvm.atomic_add_global_v4_f32",
        ]
    );
    assert_eq!(registry.infos.last().unwrap().operands, Some(5));
}

fn with_result(ty: usize) -> OpArena {
    let mut ir = arena();
    ir.types.push(TypeKind::Integer { width: 64 });
    ir.ops.push(Operation {
        name: "nvvm.read_ptx_sreg_cluster_idx".to_string(),
        operands: vec![],
        results: vec![value(1, ty)],
        attributes: AttributeDict::new(),
    });
    ir
}

#[test]
fn register_reads_give_words() {
    let read = ReadPtxSregClusterIdxOp::new(0);
    assert_eq!(read.verify(&with_result(I32)), Ok(()));
    assert_eq!(
        read.verify(&with_result(FLOAT)),
        Err("nvvm.read_ptx_sreg_cluster_idx result must be integer".to_string())
    );
    assert_eq!(
        read.verify(&with_result(5)),
        Err("nvvm.read_ptx_sreg_cluster_idx result must be 32-bit integer".to_string())
    );
    assert_eq!(
        DsmemReadU32Op::new(0).verify(&with_result(5)),
        Err("nvvm.dsmem_read_u32 result must be 32-bit integer".to_string())
    );
}
