//! Asynchronous copies from global to shared memory.

use crate::op_arena::fixed;
use crate::op_arena::fixed_info;
use crate::op_arena::OpInfo;
use crate::op_arena::OpInfoView;
use crate::op_arena::OpRegistry;
use vstd::prelude::*;

verus! {

broadcast use vstd::string::group_string_axioms;

/// Asynchronous copy of 16 bytes from global to shared memory.
#[derive(Debug, Clone, Copy, PartialEq, Eq, Structural)]
pub struct CpAsyncCaShared16Op {
    /// The operation.
    pub op: usize,
}

impl CpAsyncCaShared16Op {
    /// The operation at `op`.
    pub fn new(op: usize) -> (r: CpAsyncCaShared16Op)
        ensures
            r.op == op,
    {
        CpAsyncCaShared16Op { op }
    }

    /// What the dialect records of the operation.
    pub fn op_info() -> (r: OpInfo)
        ensures
            r@ == fixed("nvvm.cp_async_ca_shared_global_16"@, 2, 0),
    {
        fixed_info("nvvm.cp_async_ca_shared_global_16", 2, 0)
    }
}

/// Commits the pending asynchronous copies as a group.
#[derive(Debug, Clone, Copy, PartialEq, Eq, Structural)]
pub struct CpAsyncCommitGroupOp {
    /// The operation.
    pub op: usize,
}

impl CpAsyncCommitGroupOp {
    /// The operation at `op`.
    pub fn new(op: usize) -> (r: CpAsyncCommitGroupOp)
        ensures
            r.op == op,
    {
        CpAsyncCommitGroupOp { op }
    }

    /// What the dialect records of the operation.
    pub fn op_info() -> (r: OpInfo)
        ensures
            r@ == fixed("nvvm.cp_async_commit_group"@, 0, 0),
    {
        fixed_info("nvvm.cp_async_commit_group", 0, 0)
    }
}

/// Waits until at most a number of groups is pending.
#[derive(Debug, Clone, Copy, PartialEq, Eq, Structural)]
pub struct CpAsyncWaitGroupOp {
    /// The operation.
    pub op: usize,
}

impl CpAsyncWaitGroupOp {
    /// The operation at `op`.
    pub fn new(op: usize) -> (r: CpAsyncWaitGroupOp)
        ensures
            r.op == op,
    {
        CpAsyncWaitGroupOp { op }
    }

    /// What the dialect records of the operation.
    pub fn op_info() -> (r: OpInfo)
        ensures
            r@ == fixed("nvvm.cp_async_wait_group"@, 1, 0),
    {
        fixed_info("nvvm.cp_async_wait_group", 1, 0)
    }
}

/// The operations in the order in which they are registered.
pub open spec fn ops() -> Seq<OpInfoView> {
    seq![
        fixed("nvvm.cp_async_ca_shared_global_16"@, 2, 0),
        fixed("nvvm.cp_async_commit_group"@, 0, 0),
        fixed("nvvm.cp_async_wait_group"@, 1, 0),
    ]
}

/// Registers the operations.
pub fn register(registry: &mut OpRegistry)
    ensures
        final(registry)@ == old(registry)@ + ops(),
{
    registry.add(CpAsyncCaShared16Op::op_info());
    registry.add(CpAsyncCommitGroupOp::op_info());
    registry.add(CpAsyncWaitGroupOp::op_info());
    assert(registry@ =~= old(registry)@ + ops());
}

}
