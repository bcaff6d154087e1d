//! Grid operations: the grid barrier and dependent launches.

use crate::op_arena::fixed;
use crate::op_arena::fixed_info;
use crate::op_arena::OpInfo;
use crate::op_arena::OpInfoView;
use crate::op_arena::OpRegistry;
use vstd::prelude::*;

verus! {

broadcast use vstd::string::group_string_axioms;

/// Barrier over the threads of a grid.
#[derive(Debug, Clone, Copy, PartialEq, Eq, Structural)]
pub struct GridSyncOp {
    /// The operation.
    pub op: usize,
}

impl GridSyncOp {
    /// The operation at `op`.
    pub fn new(op: usize) -> (r: GridSyncOp)
        ensures
            r.op == op,
    {
        GridSyncOp { op }
    }

    /// What the dialect records of the operation.
    pub fn op_info() -> (r: OpInfo)
        ensures
            r@ == fixed("nvvm.grid_sync"@, 0, 0),
    {
        fixed_info("nvvm.grid_sync", 0, 0)
    }
}

/// Lets the grids that depend on this one start.
#[derive(Debug, Clone, Copy, PartialEq, Eq, Structural)]
pub struct GriddepcontrolLaunchDependentsOp {
    /// The operation.
    pub op: usize,
}

impl GriddepcontrolLaunchDependentsOp {
    /// The operation at `op`.
    pub fn new(op: usize) -> (r: GriddepcontrolLaunchDependentsOp)
        ensures
            r.op == op,
    {
        GriddepcontrolLaunchDependentsOp { op }
    }

    /// What the dialect records of the operation.
    pub fn op_info() -> (r: OpInfo)
        ensures
            r@ == fixed("nvvm.griddepcontrol_launch_dependents"@, 0, 0),
    {
        fixed_info("nvvm.griddepcontrol_launch_dependents", 0, 0)
    }
}

/// Waits for the grids that this one depends on.
#[derive(Debug, Clone, Copy, PartialEq, Eq, Structural)]
pub struct GriddepcontrolWaitOp {
    /// The operation.
    pub op: usize,
}

impl GriddepcontrolWaitOp {
    /// The operation at `op`.
    pub fn new(op: usize) -> (r: GriddepcontrolWaitOp)
        ensures
            r.op == op,
    {
        GriddepcontrolWaitOp { op }
    }

    /// What the dialect records of the operation.
    pub fn op_info() -> (r: OpInfo)
        ensures
            r@ == fixed("nvvm.griddepcontrol_wait"@, 0, 0),
    {
        fixed_info("nvvm.griddepcontrol_wait", 0, 0)
    }
}

/// The operations in the order in which they are registered.
pub open spec fn ops() -> Seq<OpInfoView> {
    seq![
        fixed("nvvm.grid_sync"@, 0, 0),
        fixed("nvvm.griddepcontrol_launch_dependents"@, 0, 0),
        fixed("nvvm.griddepcontrol_wait"@, 0, 0),
    ]
}

/// Registers the operations.
pub fn register(registry: &mut OpRegistry)
    ensures
        final(registry)@ == old(registry)@ + ops(),
{
    registry.add(GridSyncOp::op_info());
    registry.add(GriddepcontrolLaunchDependentsOp::op_info());
    registry.add(GriddepcontrolWaitOp::op_info());
    assert(registry@ =~= old(registry)@ + ops());
}

}
