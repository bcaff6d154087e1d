//! Vector memory access.

use crate::op_arena::fixed;
use crate::op_arena::fixed_info;
use crate::op_arena::OpInfo;
use crate::op_arena::OpInfoView;
use crate::op_arena::OpRegistry;
use vstd::prelude::*;

verus! {

broadcast use vstd::string::group_string_axioms;

/// Atomic addition of four floats in global memory.
#[derive(Debug, Clone, Copy, PartialEq, Eq, Structural)]
pub struct AtomicAddGlobalV4F32Op {
    /// The operation.
    pub op: usize,
}

impl AtomicAddGlobalV4F32Op {
    /// The operation at `op`.
    pub fn new(op: usize) -> (r: AtomicAddGlobalV4F32Op)
        ensures
            r.op == op,
    {
        AtomicAddGlobalV4F32Op { op }
    }

    /// What the dialect records of the operation.
    pub fn op_info() -> (r: OpInfo)
        ensures
            r@ == fixed("nvvm.atomic_add_global_v4_f32"@, 5, 0),
    {
        fixed_info("nvvm.atomic_add_global_v4_f32", 5, 0)
    }
}

/// The operations in the order in which they are registered.
pub open spec fn ops() -> Seq<OpInfoView> {
    seq![
        fixed("nvvm.atomic_add_global_v4_f32"@, 5, 0),
    ]
}

/// Registers the operations.
pub fn register(registry: &mut OpRegistry)
    ensures
        final(registry)@ == old(registry)@ + ops(),
{
    registry.add(AtomicAddGlobalV4F32Op::op_info());
    assert(registry@ =~= old(registry)@ + ops());
}

}
