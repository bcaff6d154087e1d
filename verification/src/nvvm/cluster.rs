//! Cluster operations: special registers, the cluster barrier and distributed shared
//! memory.

use crate::nvvm::check_word_result;
use crate::nvvm::verdict;
use crate::nvvm::word_result_failure;
use crate::op_arena::fixed;
use crate::op_arena::fixed_info;
use crate::op_arena::OpArena;
use crate::op_arena::OpInfo;
use crate::op_arena::OpInfoView;
use crate::op_arena::OpRegistry;
use vstd::prelude::*;

verus! {

broadcast use vstd::string::group_string_axioms;

/// Position of the block within its cluster, x dimension.
#[derive(Debug, Clone, Copy, PartialEq, Eq, Structural)]
pub struct ReadPtxSregClusterCtaidXOp {
    /// The operation.
    pub op: usize,
}

impl ReadPtxSregClusterCtaidXOp {
    /// The operation at `op`.
    pub fn new(op: usize) -> (r: ReadPtxSregClusterCtaidXOp)
        ensures
            r.op == op,
    {
        ReadPtxSregClusterCtaidXOp { op }
    }

    /// What the dialect records of the operation.
    pub fn op_info() -> (r: OpInfo)
        ensures
            r@ == fixed("nvvm.read_ptx_sreg_cluster_ctaid_x"@, 0, 1),
    {
        fixed_info("nvvm.read_ptx_sreg_cluster_ctaid_x", 0, 1)
    }

    /// Fails unless the result is a 32-bit integer.
    pub fn verify(&self, ir: &OpArena) -> (r: Result<(), String>)
        requires
            ir.wf_op(self.op),
            ir.ops@[self.op as int].results@.len() > 0,
        ensures
            verdict(r, word_result_failure(*ir, self.op, "nvvm.read_ptx_sreg_cluster_ctaid_x"@)),
    {
        check_word_result(ir, self.op, "nvvm.read_ptx_sreg_cluster_ctaid_x")
    }
}

/// Position of the block within its cluster, y dimension.
#[derive(Debug, Clone, Copy, PartialEq, Eq, Structural)]
pub struct ReadPtxSregClusterCtaidYOp {
    /// The operation.
    pub op: usize,
}

impl ReadPtxSregClusterCtaidYOp {
    /// The operation at `op`.
    pub fn new(op: usize) -> (r: ReadPtxSregClusterCtaidYOp)
        ensures
            r.op == op,
    {
        ReadPtxSregClusterCtaidYOp { op }
    }

    /// What the dialect records of the operation.
    pub fn op_info() -> (r: OpInfo)
        ensures
            r@ == fixed("nvvm.read_ptx_sreg_cluster_ctaid_y"@, 0, 1),
    {
        fixed_info("nvvm.read_ptx_sreg_cluster_ctaid_y", 0, 1)
    }

    /// Fails unless the result is a 32-bit integer.
    pub fn verify(&self, ir: &OpArena) -> (r: Result<(), String>)
        requires
            ir.wf_op(self.op),
            ir.ops@[self.op as int].results@.len() > 0,
        ensures
            verdict(r, word_result_failure(*ir, self.op, "nvvm.read_ptx_sreg_cluster_ctaid_y"@)),
    {
        check_word_result(ir, self.op, "nvvm.read_ptx_sreg_cluster_ctaid_y")
    }
}

/// Position of the block within its cluster, z dimension.
#[derive(Debug, Clone, Copy, PartialEq, Eq, Structural)]
pub struct ReadPtxSregClusterCtaidZOp {
    /// The operation.
    pub op: usize,
}

impl ReadPtxSregClusterCtaidZOp {
    /// The operation at `op`.
    pub fn new(op: usize) -> (r: ReadPtxSregClusterCtaidZOp)
        ensures
            r.op == op,
    {
        ReadPtxSregClusterCtaidZOp { op }
    }

    /// What the dialect records of the operation.
    pub fn op_info() -> (r: OpInfo)
        ensures
            r@ == fixed("nvvm.read_ptx_sreg_cluster_ctaid_z"@, 0, 1),
    {
        fixed_info("nvvm.read_ptx_sreg_cluster_ctaid_z", 0, 1)
    }

    /// Fails unless the result is a 32-bit integer.
    pub fn verify(&self, ir: &OpArena) -> (r: Result<(), String>)
        requires
            ir.wf_op(self.op),
            ir.ops@[self.op as int].results@.len() > 0,
        ensures
            verdict(r, word_result_failure(*ir, self.op, "nvvm.read_ptx_sreg_cluster_ctaid_z"@)),
    {
        check_word_result(ir, self.op, "nvvm.read_ptx_sreg_cluster_ctaid_z")
    }
}

/// Size of the cluster in blocks, x dimension.
#[derive(Debug, Clone, Copy, PartialEq, Eq, Structural)]
pub struct ReadPtxSregClusterNctaidXOp {
    /// The operation.
    pub op: usize,
}

impl ReadPtxSregClusterNctaidXOp {
    /// The operation at `op`.
    pub fn new(op: usize) -> (r: ReadPtxSregClusterNctaidXOp)
        ensures
            r.op == op,
    {
        ReadPtxSregClusterNctaidXOp { op }
    }

    /// What the dialect records of the operation.
    pub fn op_info() -> (r: OpInfo)
        ensures
            r@ == fixed("nvvm.read_ptx_sreg_cluster_nctaid_x"@, 0, 1),
    {
        fixed_info("nvvm.read_ptx_sreg_cluster_nctaid_x", 0, 1)
    }

    /// Fails unless the result is a 32-bit integer.
    pub fn verify(&self, ir: &OpArena) -> (r: Result<(), String>)
        requires
            ir.wf_op(self.op),
            ir.ops@[self.op as int].results@.len() > 0,
        ensures
            verdict(r, word_result_failure(*ir, self.op, "nvvm.read_ptx_sreg_cluster_nctaid_x"@)),
    {
        check_word_result(ir, self.op, "nvvm.read_ptx_sreg_cluster_nctaid_x")
    }
}

/// Size of the cluster in blocks, y dimension.
#[derive(Debug, Clone, Copy, PartialEq, Eq, Structural)]
pub struct ReadPtxSregClusterNctaidYOp {
    /// The operation.
    pub op: usize,
}

impl ReadPtxSregClusterNctaidYOp {
    /// The operation at `op`.
    pub fn new(op: usize) -> (r: ReadPtxSregClusterNctaidYOp)
        ensures
            r.op == op,
    {
        ReadPtxSregClusterNctaidYOp { op }
    }

    /// What the dialect records of the operation.
    pub fn op_info() -> (r: OpInfo)
        ensures
            r@ == fixed("nvvm.read_ptx_sreg_cluster_nctaid_y"@, 0, 1),
    {
        fixed_info("nvvm.read_ptx_sreg_cluster_nctaid_y", 0, 1)
    }

    /// Fails unless the result is a 32-bit integer.
    pub fn verify(&self, ir: &OpArena) -> (r: Result<(), String>)
        requires
            ir.wf_op(self.op),
            ir.ops@[self.op as int].results@.len() > 0,
        ensures
            verdict(r, word_result_failure(*ir, self.op, "nvvm.read_ptx_sreg_cluster_nctaid_y"@)),
    {
        check_word_result(ir, self.op, "nvvm.read_ptx_sreg_cluster_nctaid_y")
    }
}

/// Size of the cluster in blocks, z dimension.
#[derive(Debug, Clone, Copy, PartialEq, Eq, Structural)]
pub struct ReadPtxSregClusterNctaidZOp {
    /// The operation.
    pub op: usize,
}

impl ReadPtxSregClusterNctaidZOp {
    /// The operation at `op`.
    pub fn new(op: usize) -> (r: ReadPtxSregClusterNctaidZOp)
        ensures
            r.op == op,
    {
        ReadPtxSregClusterNctaidZOp { op }
    }

    /// What the dialect records of the operation.
    pub fn op_info() -> (r: OpInfo)
        ensures
            r@ == fixed("nvvm.read_ptx_sreg_cluster_nctaid_z"@, 0, 1),
    {
        fixed_info("nvvm.read_ptx_sreg_cluster_nctaid_z", 0, 1)
    }

    /// Fails unless the result is a 32-bit integer.
    pub fn verify(&self, ir: &OpArena) -> (r: Result<(), String>)
        requires
            ir.wf_op(self.op),
            ir.ops@[self.op as int].results@.len() > 0,
        ensures
            verdict(r, word_result_failure(*ir, self.op, "nvvm.read_ptx_sreg_cluster_nctaid_z"@)),
    {
        check_word_result(ir, self.op, "nvvm.read_ptx_sreg_cluster_nctaid_z")
    }
}

/// Index of the cluster in the grid.
#[derive(Debug, Clone, Copy, PartialEq, Eq, Structural)]
pub struct ReadPtxSregClusterIdxOp {
    /// The operation.
    pub op: usize,
}

impl ReadPtxSregClusterIdxOp {
    /// The operation at `op`.
    pub fn new(op: usize) -> (r: ReadPtxSregClusterIdxOp)
        ensures
            r.op == op,
    {
        ReadPtxSregClusterIdxOp { op }
    }

    /// What the dialect records of the operation.
    pub fn op_info() -> (r: OpInfo)
        ensures
            r@ == fixed("nvvm.read_ptx_sreg_cluster_idx"@, 0, 1),
    {
        fixed_info("nvvm.read_ptx_sreg_cluster_idx", 0, 1)
    }

    /// Fails unless the result is a 32-bit integer.
    pub fn verify(&self, ir: &OpArena) -> (r: Result<(), String>)
        requires
            ir.wf_op(self.op),
            ir.ops@[self.op as int].results@.len() > 0,
        ensures
            verdict(r, word_result_failure(*ir, self.op, "nvvm.read_ptx_sreg_cluster_idx"@)),
    {
        check_word_result(ir, self.op, "nvvm.read_ptx_sreg_cluster_idx")
    }
}

/// Number of clusters in the grid.
#[derive(Debug, Clone, Copy, PartialEq, Eq, Structural)]
pub struct ReadPtxSregNclusterIdOp {
    /// The operation.
    pub op: usize,
}

impl ReadPtxSregNclusterIdOp {
    /// The operation at `op`.
    pub fn new(op: usize) -> (r: ReadPtxSregNclusterIdOp)
        ensures
            r.op == op,
    {
        ReadPtxSregNclusterIdOp { op }
    }

    /// What the dialect records of the operation.
    pub fn op_info() -> (r: OpInfo)
        ensures
            r@ == fixed("nvvm.read_ptx_sreg_nclusterid"@, 0, 1),
    {
        fixed_info("nvvm.read_ptx_sreg_nclusterid", 0, 1)
    }

    /// Fails unless the result is a 32-bit integer.
    pub fn verify(&self, ir: &OpArena) -> (r: Result<(), String>)
        requires
            ir.wf_op(self.op),
            ir.ops@[self.op as int].results@.len() > 0,
        ensures
            verdict(r, word_result_failure(*ir, self.op, "nvvm.read_ptx_sreg_nclusterid"@)),
    {
        check_word_result(ir, self.op, "nvvm.read_ptx_sreg_nclusterid")
    }
}

/// Barrier over the threads of a cluster.
#[derive(Debug, Clone, Copy, PartialEq, Eq, Structural)]
pub struct ClusterSyncOp {
    /// The operation.
    pub op: usize,
}

impl ClusterSyncOp {
    /// The operation at `op`.
    pub fn new(op: usize) -> (r: ClusterSyncOp)
        ensures
            r.op == op,
    {
        ClusterSyncOp { op }
    }

    /// What the dialect records of the operation.
    pub fn op_info() -> (r: OpInfo)
        ensures
            r@ == fixed("nvvm.cluster_sync"@, 0, 0),
    {
        fixed_info("nvvm.cluster_sync", 0, 0)
    }
}

/// Address of a shared-memory location in another block of the cluster.
#[derive(Debug, Clone, Copy, PartialEq, Eq, Structural)]
pub struct MapaSharedClusterOp {
    /// The operation.
    pub op: usize,
}

impl MapaSharedClusterOp {
    /// The operation at `op`.
    pub fn new(op: usize) -> (r: MapaSharedClusterOp)
        ensures
            r.op == op,
    {
        MapaSharedClusterOp { op }
    }

    /// What the dialect records of the operation.
    pub fn op_info() -> (r: OpInfo)
        ensures
            r@ == fixed("nvvm.mapa_shared_cluster"@, 2, 1),
    {
        fixed_info("nvvm.mapa_shared_cluster", 2, 1)
    }
}

/// Read of a word from the shared memory of another block of the cluster.
#[derive(Debug, Clone, Copy, PartialEq, Eq, Structural)]
pub struct DsmemReadU32Op {
    /// The operation.
    pub op: usize,
}

impl DsmemReadU32Op {
    /// The operation at `op`.
    pub fn new(op: usize) -> (r: DsmemReadU32Op)
        ensures
            r.op == op,
    {
        DsmemReadU32Op { op }
    }

    /// What the dialect records of the operation.
    pub fn op_info() -> (r: OpInfo)
        ensures
            r@ == fixed("nvvm.dsmem_read_u32"@, 2, 1),
    {
        fixed_info("nvvm.dsmem_read_u32", 2, 1)
    }

    /// Fails unless the result is a 32-bit integer.
    pub fn verify(&self, ir: &OpArena) -> (r: Result<(), String>)
        requires
            ir.wf_op(self.op),
            ir.ops@[self.op as int].results@.len() > 0,
        ensures
            verdict(r, word_result_failure(*ir, self.op, "nvvm.dsmem_read_u32"@)),
    {
        check_word_result(ir, self.op, "nvvm.dsmem_read_u32")
    }
}

/// Atomic addition in the shared memory of another block of the cluster.
#[derive(Debug, Clone, Copy, PartialEq, Eq, Structural)]
pub struct DsmemAtomAddF32Op {
    /// The operation.
    pub op: usize,
}

impl DsmemAtomAddF32Op {
    /// The operation at `op`.
    pub fn new(op: usize) -> (r: DsmemAtomAddF32Op)
        ensures
            r.op == op,
    {
        DsmemAtomAddF32Op { op }
    }

    /// What the dialect records of the operation.
    pub fn op_info() -> (r: OpInfo)
        ensures
            r@ == fixed("nvvm.dsmem_atom_add_f32"@, 3, 0),
    {
        fixed_info("nvvm.dsmem_atom_add_f32", 3, 0)
    }
}

/// The operations in the order in which they are registered.
pub open spec fn ops() -> Seq<OpInfoView> {
    seq![
        fixed("nvvm.read_ptx_sreg_cluster_ctaid_x"@, 0, 1),
        fixed("nvvm.read_ptx_sreg_cluster_ctaid_y"@, 0, 1),
        fixed("nvvm.read_ptx_sreg_cluster_ctaid_z"@, 0, 1),
        fixed("nvvm.read_ptx_sreg_cluster_nctaid_x"@, 0, 1),
        fixed("nvvm.read_ptx_sreg_cluster_nctaid_y"@, 0, 1),
        fixed("nvvm.read_ptx_sreg_cluster_nctaid_z"@, 0, 1),
        fixed("nvvm.read_ptx_sreg_cluster_idx"@, 0, 1),
        fixed("nvvm.read_ptx_sreg_nclusterid"@, 0, 1),
        fixed("nvvm.cluster_sync"@, 0, 0),
        fixed("nvvm.mapa_shared_cluster"@, 2, 1),
        fixed("nvvm.dsmem_read_u32"@, 2, 1),
        fixed("nvvm.dsmem_atom_add_f32"@, 3, 0),
    ]
}

/// Registers the operations.
pub fn register(registry: &mut OpRegistry)
    ensures
        final(registry)@ == old(registry)@ + ops(),
{
    registry.add(ReadPtxSregClusterCtaidXOp::op_info());
    registry.add(ReadPtxSregClusterCtaidYOp::op_info());
    registry.add(ReadPtxSregClusterCtaidZOp::op_info());
    registry.add(ReadPtxSregClusterNctaidXOp::op_info());
    registry.add(ReadPtxSregClusterNctaidYOp::op_info());
    registry.add(ReadPtxSregClusterNctaidZOp::op_info());
    registry.add(ReadPtxSregClusterIdxOp::op_info());
    registry.add(ReadPtxSregNclusterIdOp::op_info());
    registry.add(ClusterSyncOp::op_info());
    registry.add(MapaSharedClusterOp::op_info());
    registry.add(DsmemReadU32Op::op_info());
    registry.add(DsmemAtomAddF32Op::op_info());
    assert(registry@ =~= old(registry)@ + ops());
}

}
