//! Operations of the NVVM dialect.

pub mod cluster;
pub mod cp_async;
pub mod grid;
pub mod vec;

use crate::ir::TypeKind;
use crate::op_arena::OpArena;
use vstd::prelude::*;

verus! {

broadcast use vstd::string::group_string_axioms;

/// Why the first result of the operation at `op` is no 32-bit integer.
pub open spec fn word_result_failure(ir: OpArena, op: usize, name: Seq<char>) -> Option<Seq<char>> {
    match ir.types@[ir.ops@[op as int].results@[0].ty as int] {
        TypeKind::Integer { width } => if width == 32 {
            None
        } else {
            Some(name + " result must be 32-bit integer"@)
        },
        _ => Some(name + " result must be integer"@),
    }
}

/// A check gave this verdict.
pub open spec fn verdict(r: Result<(), String>, failure: Option<Seq<char>>) -> bool {
    match r {
        Ok(_) => failure is None,
        Err(message) => failure == Some(message@),
    }
}

/// Fails unless the first result of the operation at `op` is a 32-bit integer.
pub(crate) fn check_word_result(ir: &OpArena, op: usize, name: &str) -> (r: Result<(), String>)
    requires
        ir.wf_op(op),
        ir.ops@[op as int].results@.len() > 0,
    ensures
        verdict(r, word_result_failure(*ir, op, name@)),
{
    match &ir.types[ir.ops[op].results[0].ty] {
        TypeKind::Integer { width } => {
            if *width == 32 {
                Ok(())
            } else {
                let mut message = name.to_owned();
                message.append(" result must be 32-bit integer");
                Err(message)
            }
        },
        _ => {
            let mut message = name.to_owned();
            message.append(" result must be integer");
            Err(message)
        },
    }
}

}
