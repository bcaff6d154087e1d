//! What the dialect records of its operations, and what it checks of them.

use crate::ir::TypeKind;
use crate::memory_ops;
use crate::nvvm::cluster;
use crate::nvvm::cluster::ReadPtxSregClusterCtaidXOp;
use crate::nvvm::cluster::ReadPtxSregClusterCtaidYOp;
use crate::nvvm::cluster::ReadPtxSregClusterCtaidZOp;
use crate::nvvm::cluster::ReadPtxSregClusterNctaidXOp;
use crate::nvvm::cluster::ReadPtxSregClusterNctaidYOp;
use crate::nvvm::cluster::ReadPtxSregClusterNctaidZOp;
use crate::nvvm::cluster::ReadPtxSregClusterIdxOp;
use crate::nvvm::cluster::ReadPtxSregNclusterIdOp;
use crate::nvvm::cluster::DsmemReadU32Op;
use crate::nvvm::cp_async;
use crate::nvvm::grid;
use crate::op_arena::OpArena;
use crate::op_arena::OpInfo;
use crate::op_arena::OpRegistry;
use vstd::prelude::*;

verus! {

broadcast use vstd::string::group_string_axioms;

/// The registered operation has this name and these numbers of operands and results.
pub open spec fn is_entry(
    info: OpInfo,
    name: Seq<char>,
    operands: Option<usize>,
    results: usize,
) -> bool {
    info.name@ == name && info.operands == operands && info.results == results
}

/// `after` has `count` operations more than `before`, behind those that were there.
pub open spec fn registered(before: OpRegistry, after: OpRegistry, count: nat) -> bool {
    &&& after.infos@.len() == before.infos@.len() + count
    &&& forall|i: int|
        0 <= i < before.infos@.len() ==> (#[trigger] after.infos@[i])@ == before.infos@[i]@
}

proof fn lemma_registry(r: OpRegistry)
    ensures
        r@.len() == r.infos@.len(),
        forall|i: int| 0 <= i < r.infos@.len() ==> r@[i] == (#[trigger] r.infos@[i])@,
{
}

/// The operations of thread-block clusters are registered: the reads of the eight registers
/// take nothing and give a word, synchronization takes and gives nothing, an address is
/// mapped from an address and a rank, and a remote word is read and added to by address and
/// rank.
pub proof fn cluster_operations_are_registered(registry: &mut OpRegistry)
    requires
        call_ensures(cluster::register, (registry,), ()),
    ensures
        registered(*old(registry), *final(registry), 12),
        ({
            let n = old(registry).infos@.len() as int;
            let list = final(registry).infos@;
            &&& is_entry(list[n], "nvvm.read_ptx_sreg_cluster_ctaid_x"@, Some(0usize), 1)
            &&& is_entry(list[n + 1], "nvvm.read_ptx_sreg_cluster_ctaid_y"@, Some(0usize), 1)
            &&& is_entry(list[n + 2], "nvvm.read_ptx_sreg_cluster_ctaid_z"@, Some(0usize), 1)
            &&& is_entry(list[n + 3], "nvvm.read_ptx_sreg_cluster_nctaid_x"@, Some(0usize), 1)
            &&& is_entry(list[n + 4], "nvvm.read_ptx_sreg_cluster_nctaid_y"@, Some(0usize), 1)
            &&& is_entry(list[n + 5], "nvvm.read_ptx_sreg_cluster_nctaid_z"@, Some(0usize), 1)
            &&& is_entry(list[n + 6], "nvvm.read_ptx_sreg_cluster_idx"@, Some(0usize), 1)
            &&& is_entry(list[n + 7], "nvvm.read_ptx_sreg_nclusterid"@, Some(0usize), 1)
            &&& is_entry(list[n + 8], "nvvm.cluster_sync"@, Some(0usize), 0)
            &&& is_entry(list[n + 9], "nvvm.mapa_shared_cluster"@, Some(2usize), 1)
            &&& is_entry(list[n + 10], "nvvm.dsmem_read_u32"@, Some(2usize), 1)
            &&& is_entry(list[n + 11], "nvvm.dsmem_atom_add_f32"@, Some(3usize), 0)
        }),
{
    lemma_registry(*old(registry));
    lemma_registry(*final(registry));
}

/// The asynchronous copy takes a destination and a source, its commit nothing and its wait
/// the number of groups; none gives anything.
pub proof fn copy_operations_are_registered(registry: &mut OpRegistry)
    requires
        call_ensures(cp_async::register, (registry,), ()),
    ensures
        registered(*old(registry), *final(registry), 3),
        ({
            let n = old(registry).infos@.len() as int;
            let list = final(registry).infos@;
            &&& is_entry(list[n], "nvvm.cp_async_ca_shared_global_16"@, Some(2usize), 0)
            &&& is_entry(list[n + 1], "nvvm.cp_async_commit_group"@, Some(0usize), 0)
            &&& is_entry(list[n + 2], "nvvm.cp_async_wait_group"@, Some(1usize), 0)
        }),
{
    lemma_registry(*old(registry));
    lemma_registry(*final(registry));
}

/// The operations on grids take and give nothing.
pub proof fn grid_operations_are_registered(registry: &mut OpRegistry)
    requires
        call_ensures(grid::register, (registry,), ()),
    ensures
        registered(*old(registry), *final(registry), 3),
        ({
            let n = old(registry).infos@.len() as int;
            let list = final(registry).infos@;
            &&& is_entry(list[n], "nvvm.grid_sync"@, Some(0usize), 0)
            &&& is_entry(list[n + 1], "nvvm.griddepcontrol_launch_dependents"@, Some(0usize), 0)
            &&& is_entry(list[n + 2], "nvvm.griddepcontrol_wait"@, Some(0usize), 0)
        }),
{
    lemma_registry(*old(registry));
    lemma_registry(*final(registry));
}

/// The atomic addition of four floats takes an address and four addends and gives nothing.
pub proof fn vector_operations_are_registered(registry: &mut OpRegistry)
    requires
        call_ensures(crate::nvvm::vec::register, (registry,), ()),
    ensures
        registered(*old(registry), *final(registry), 1),
        ({
            let n = old(registry).infos@.len() as int;
            let list = final(registry).infos@;
            &&& is_entry(list[n], "nvvm.atomic_add_global_v4_f32"@, Some(5usize), 0)
        }),
{
    lemma_registry(*old(registry));
    lemma_registry(*final(registry));
}

/// The memory operations are registered: an allocation takes the number of elements and a
/// load an address, and both give a value, a store takes a value and an address, and an
/// address computation takes any number of operands.
pub proof fn memory_operations_are_registered(registry: &mut OpRegistry)
    requires
        call_ensures(memory_ops::register, (registry,), ()),
    ensures
        registered(*old(registry), *final(registry), 4),
        ({
            let n = old(registry).infos@.len() as int;
            let list = final(registry).infos@;
            &&& is_entry(list[n], "llvm.alloca"@, Some(1usize), 1)
            &&& is_entry(list[n + 1], "llvm.load"@, Some(1usize), 1)
            &&& is_entry(list[n + 2], "llvm.store"@, Some(2usize), 0)
            &&& is_entry(list[n + 3], "llvm.gep"@, None, 1)
        }),
{
    lemma_registry(*old(registry));
    lemma_registry(*final(registry));
}

/// The first result of the operation at `op` is an integer of 32 bits.
pub open spec fn gives_a_word(ir: OpArena, op: usize) -> bool {
    ir.types@[ir.ops@[op as int].results@[0].ty as int] == (TypeKind::Integer { width: 32 })
}

/// The reads of cluster registers and of remote memory are well formed exactly where they
/// give a word.
pub proof fn reads_give_words(ir: OpArena, op: usize, r: Result<(), String>)
    ensures
        call_ensures(ReadPtxSregClusterCtaidXOp::verify, (&ReadPtxSregClusterCtaidXOp { op }, &ir), r) ==> (
        r is Ok <==> gives_a_word(ir, op)),
        call_ensures(ReadPtxSregClusterCtaidYOp::verify, (&ReadPtxSregClusterCtaidYOp { op }, &ir), r) ==> (
        r is Ok <==> gives_a_word(ir, op)),
        call_ensures(ReadPtxSregClusterCtaidZOp::verify, (&ReadPtxSregClusterCtaidZOp { op }, &ir), r) ==> (
        r is Ok <==> gives_a_word(ir, op)),
        call_ensures(ReadPtxSregClusterNctaidXOp::verify, (&ReadPtxSregClusterNctaidXOp { op }, &ir), r) ==> (
        r is Ok <==> gives_a_word(ir, op)),
        call_ensures(ReadPtxSregClusterNctaidYOp::verify, (&ReadPtxSregClusterNctaidYOp { op }, &ir), r) ==> (
        r is Ok <==> gives_a_word(ir, op)),
        call_ensures(ReadPtxSregClusterNctaidZOp::verify, (&ReadPtxSregClusterNctaidZOp { op }, &ir), r) ==> (
        r is Ok <==> gives_a_word(ir, op)),
        call_ensures(ReadPtxSregClusterIdxOp::verify, (&ReadPtxSregClusterIdxOp { op }, &ir), r) ==> (
        r is Ok <==> gives_a_word(ir, op)),
        call_ensures(ReadPtxSregNclusterIdOp::verify, (&ReadPtxSregNclusterIdOp { op }, &ir), r) ==> (
        r is Ok <==> gives_a_word(ir, op)),
        call_ensures(DsmemReadU32Op::verify, (&DsmemReadU32Op { op }, &ir), r) ==> (
        r is Ok <==> gives_a_word(ir, op)),
{
}

}
