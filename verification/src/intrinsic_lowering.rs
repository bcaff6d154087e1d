//! Lowering of special-register reads, barriers, memory fences, asynchronous copies
//! and vector accesses.

use crate::identifier::is_identifier;
use crate::lowering::call_intrinsic;
use crate::lowering::called;
use crate::lowering::cast_state;
use crate::lowering::cast_to_global_addrspace;
use crate::lowering::cast_to_shared_addrspace;
use crate::lowering::cast_value;
use crate::lowering::constant_op;
use crate::lowering::create_i32_const;
use crate::lowering::declared;
use crate::lowering::inline_asm;
use crate::lowering::inline_asm_convergent;
use crate::lowering::AsmKind;
use crate::lowering::LlvmOpView;
use crate::lowering::LowType;
use crate::lowering::LowValue;
use crate::lowering::Rewriter;
use crate::lowering::RewriterView;
use crate::text::decimal;
use crate::text::push_decimal;
use vstd::prelude::*;

verus! {

broadcast use vstd::string::group_string_axioms;

// ---------------------------------------------------------------------------
// Special registers and barriers
// ---------------------------------------------------------------------------

/// The state after an operation was replaced by a call of an intrinsic without
/// arguments that returns a word.
pub open spec fn sreg_read_lowered(v: RewriterView, name: Seq<char>) -> RewriterView {
    if v.module is Ok {
        called(v, name, LowType::Integer { width: 32 }, seq![], seq![]).replaced_by_last()
    } else {
        v
    }
}

/// Lowers the read of a 32-bit special register to a call of an intrinsic.
pub fn convert_sreg_read_i32(rewriter: &mut Rewriter, intrinsic_name: &str) -> (r: Result<
    (),
    String,
>)
    requires
        old(rewriter)@.has_room(1),
        is_identifier(intrinsic_name@),
    ensures
        declared(old(rewriter)@, r),
        final(rewriter)@ == sreg_read_lowered(old(rewriter)@, intrinsic_name@),
{
    let params: Vec<LowType> = Vec::new();
    let args: Vec<LowValue> = Vec::new();
    assert(params@ =~= seq![]);
    assert(args@ =~= seq![]);
    match call_intrinsic(
        rewriter,
        intrinsic_name,
        LowType::Integer { width: 32 },
        params,
        args,
    ) {
        Ok(at) => {
            rewriter.replace_operation(at);
            Ok(())
        },
        Err(reason) => Err(reason),
    }
}

/// Lowers the read of a special register to inline PTX. `kind` says whether reads
/// may be merged and removed.
pub fn convert_sreg_read_inline(
    rewriter: &mut Rewriter,
    result_width: u32,
    asm_template: &str,
    constraints: &str,
    kind: AsmKind,
)
    requires
        old(rewriter)@.has_room(1),
    ensures
        final(rewriter)@ == old(rewriter)@.with_op(
            LlvmOpView::InlineAsm {
                template: asm_template@,
                constraints: constraints@,
                inputs: seq![],
                result: LowType::Integer { width: result_width },
                kind,
            },
        ).replaced_by_last(),
{
    let inputs: Vec<LowValue> = Vec::new();
    assert(inputs@ =~= seq![]);
    let at: usize = inline_asm(
        rewriter,
        LowType::Integer { width: result_width },
        inputs,
        asm_template,
        constraints,
        kind,
    );
    rewriter.replace_operation(at);
}

/// The state after a barrier was lowered.
pub open spec fn barrier_lowered(v: RewriterView) -> RewriterView {
    if v.module is Ok {
        called(v, "llvm_nvvm_barrier0"@, LowType::Void, seq![], seq![]).erased()
    } else {
        v
    }
}

/// Lowers the barrier over the threads of a block.
pub fn convert_barrier0(rewriter: &mut Rewriter) -> (r: Result<(), String>)
    requires
        old(rewriter)@.has_room(1),
    ensures
        declared(old(rewriter)@, r),
        final(rewriter)@ == barrier_lowered(old(rewriter)@),
{
    let params: Vec<LowType> = Vec::new();
    let args: Vec<LowValue> = Vec::new();
    proof {
        reveal_strlit("llvm_nvvm_barrier0");
        assert(is_identifier("llvm_nvvm_barrier0"@));
        assert(params@ =~= seq![]);
        assert(args@ =~= seq![]);
    }
    match call_intrinsic(rewriter, "llvm_nvvm_barrier0", LowType::Void, params, args) {
        Ok(_) => {
            rewriter.erase_operation();
            Ok(())
        },
        Err(reason) => Err(reason),
    }
}

// ---------------------------------------------------------------------------
// Memory fences and grid control
// ---------------------------------------------------------------------------

/// Inline PTX that clobbers memory and must not be made control dependent.
pub open spec fn membar_op(template: Seq<char>) -> LlvmOpView {
    LlvmOpView::InlineAsm {
        template,
        constraints: "~{memory}"@,
        inputs: seq![],
        result: LowType::Void,
        kind: AsmKind::Convergent,
    }
}

fn convert_membar(rewriter: &mut Rewriter, asm_template: &str)
    requires
        old(rewriter)@.has_room(1),
    ensures
        final(rewriter)@ == old(rewriter)@.with_op(membar_op(asm_template@)).erased(),
{
    let inputs: Vec<LowValue> = Vec::new();
    assert(inputs@ =~= seq![]);
    inline_asm_convergent(rewriter, LowType::Void, inputs, asm_template, "~{memory}");
    rewriter.erase_operation();
}

/// Lowers the memory fence of a block.
pub fn convert_threadfence_block(rewriter: &mut Rewriter)
    requires
        old(rewriter)@.has_room(1),
    ensures
        final(rewriter)@ == old(rewriter)@.with_op(membar_op("membar.cta;"@)).erased(),
{
    convert_membar(rewriter, "membar.cta;")
}

/// Lowers the memory fence of the device.
pub fn convert_threadfence(rewriter: &mut Rewriter)
    requires
        old(rewriter)@.has_room(1),
    ensures
        final(rewriter)@ == old(rewriter)@.with_op(membar_op("membar.gl;"@)).erased(),
{
    convert_membar(rewriter, "membar.gl;")
}

/// Lowers the memory fence of the system.
pub fn convert_threadfence_system(rewriter: &mut Rewriter)
    requires
        old(rewriter)@.has_room(1),
    ensures
        final(rewriter)@ == old(rewriter)@.with_op(membar_op("membar.sys;"@)).erased(),
{
    convert_membar(rewriter, "membar.sys;")
}

/// Lowers the trigger that lets dependent grids start. It orders no memory, but it
/// must stay where it is among the side effects around it.
pub fn convert_griddepcontrol_launch_dependents(rewriter: &mut Rewriter)
    requires
        old(rewriter)@.has_room(1),
    ensures
        final(rewriter)@ == old(rewriter)@.with_op(
            membar_op("griddepcontrol.launch_dependents;"@),
        ).erased(),
{
    convert_membar(rewriter, "griddepcontrol.launch_dependents;")
}

/// Lowers the wait for the grids that this one depends on. Loads must not be moved
/// above it.
pub fn convert_griddepcontrol_wait(rewriter: &mut Rewriter)
    requires
        old(rewriter)@.has_room(1),
    ensures
        final(rewriter)@ == old(rewriter)@.with_op(membar_op("griddepcontrol.wait;"@)).erased(),
{
    convert_membar(rewriter, "griddepcontrol.wait;")
}

// ---------------------------------------------------------------------------
// Asynchronous copies
// ---------------------------------------------------------------------------

/// The types of the parameters of the copy: shared memory and global memory.
pub open spec fn copy_params() -> Seq<LowType> {
    seq![LowType::Pointer { address_space: 3 }, LowType::Pointer { address_space: 1 }]
}

/// The state after the operands of a copy were cast.
pub open spec fn copy_cast(v: RewriterView, operands: Seq<LowValue>) -> RewriterView {
    cast_state(cast_state(v, operands[0], 3), operands[1], 1)
}

/// The arguments of the copy.
pub open spec fn copy_args(v: RewriterView, operands: Seq<LowValue>) -> Seq<LowValue> {
    seq![
        cast_value(v, operands[0], 3),
        cast_value(cast_state(v, operands[0], 3), operands[1], 1),
    ]
}

/// A copy was lowered from `v` to `w` with this outcome.
pub open spec fn copy_lowered(
    v: RewriterView,
    w: RewriterView,
    operands: Seq<LowValue>,
    r: Result<(), String>,
) -> bool {
    if operands.len() != 2 {
        &&& w == v
        &&& r matches Err(message)
        &&& message@ == "cp.async.ca.shared.global.16 requires 2 operands, got "@ + decimal(
            operands.len(),
        )
    } else if v.module is Ok {
        &&& r is Ok
        &&& w == called(
            copy_cast(v, operands),
            "llvm_nvvm_cp_async_ca_shared_global_16"@,
            LowType::Void,
            copy_params(),
            copy_args(v, operands),
        ).erased()
    } else {
        &&& declared(v, r)
        &&& w == copy_cast(v, operands)
    }
}

/// Lowers the asynchronous copy of 16 bytes to its first operand, in shared memory,
/// from its second, in global memory.
pub fn convert_copy_ca_16(rewriter: &mut Rewriter, operands: &Vec<LowValue>) -> (r: Result<
    (),
    String,
>)
    requires
        old(rewriter)@.has_room(3),
    ensures
        copy_lowered(old(rewriter)@, final(rewriter)@, operands@, r),
{
    if operands.len() != 2 {
        let mut message = "cp.async.ca.shared.global.16 requires 2 operands, got ".to_owned();
        push_decimal(&mut message, operands.len() as u64);
        return Err(message);
    }
    let dst_casted = cast_to_shared_addrspace(rewriter, operands[0]);
    let src_casted = cast_to_global_addrspace(rewriter, operands[1]);
    let mut params: Vec<LowType> = Vec::new();
    params.push(LowType::Pointer { address_space: 3 });
    params.push(LowType::Pointer { address_space: 1 });
    let mut args: Vec<LowValue> = Vec::new();
    args.push(dst_casted);
    args.push(src_casted);
    proof {
        reveal_strlit("llvm_nvvm_cp_async_ca_shared_global_16");
        assert(is_identifier("llvm_nvvm_cp_async_ca_shared_global_16"@));
        assert(params@ =~= copy_params());
        assert(args@ =~= copy_args(old(rewriter)@, operands@));
    }
    match call_intrinsic(
        rewriter,
        "llvm_nvvm_cp_async_ca_shared_global_16",
        LowType::Void,
        params,
        args,
    ) {
        Ok(_) => {
            rewriter.erase_operation();
            Ok(())
        },
        Err(reason) => Err(reason),
    }
}

/// Lowers the commit of the pending copies.
pub fn convert_commit_group(rewriter: &mut Rewriter)
    requires
        old(rewriter)@.has_room(1),
    ensures
        final(rewriter)@ == old(rewriter)@.with_op(membar_op("cp.async.commit_group;"@)).erased(),
{
    convert_membar(rewriter, "cp.async.commit_group;")
}

/// Inline PTX that waits for groups of copies.
pub open spec fn wait_group_op(n: LowValue) -> LlvmOpView {
    LlvmOpView::InlineAsm {
        template: "cp.async.wait_group $0;"@,
        constraints: "n,~{memory}"@,
        inputs: seq![n],
        result: LowType::Void,
        kind: AsmKind::Convergent,
    }
}

/// The state after a wait was lowered. Without an operand it waits for all groups.
pub open spec fn wait_group_lowered(v: RewriterView, operands: Seq<LowValue>) -> RewriterView {
    if operands.len() > 0 {
        v.with_op(wait_group_op(operands[0])).erased()
    } else {
        v.with_op(constant_op(0, 32)).with_op(
            wait_group_op(v.next_of_type(LowType::Integer { width: 32 })),
        ).erased()
    }
}

/// Lowers the wait until at most as many groups are pending as the first operand
/// says.
pub fn convert_wait_group(rewriter: &mut Rewriter, operands: &Vec<LowValue>)
    requires
        old(rewriter)@.has_room(2),
    ensures
        final(rewriter)@ == wait_group_lowered(old(rewriter)@, operands@),
{
    let n = if operands.len() > 0 {
        operands[0]
    } else {
        create_i32_const(rewriter, 0)
    };
    let mut inputs: Vec<LowValue> = Vec::new();
    inputs.push(n);
    assert(inputs@ =~= seq![n]);
    inline_asm_convergent(
        rewriter,
        LowType::Void,
        inputs,
        "cp.async.wait_group $0;",
        "n,~{memory}",
    );
    rewriter.erase_operation();
}

// ---------------------------------------------------------------------------
// Vector access
// ---------------------------------------------------------------------------

/// Inline PTX that adds four floats to memory.
pub open spec fn vector_add_op(operands: Seq<LowValue>) -> LlvmOpView {
    LlvmOpView::InlineAsm {
        template: "red.global.add.v4.f32 [$0], {$1, $2, $3, $4};"@,
        constraints: "l,f,f,f,f"@,
        inputs: operands,
        result: LowType::Void,
        kind: AsmKind::Plain,
    }
}

/// Lowers the atomic addition of four floats to global memory: its operands are the
/// address and the four addends.
pub fn convert_atomic_add_global_v4_f32(rewriter: &mut Rewriter, operands: Vec<LowValue>) -> (r:
    Result<(), String>)
    requires
        old(rewriter)@.has_room(1),
    ensures
        match r {
            Ok(_) => operands@.len() == 5 && final(rewriter)@ == old(rewriter)@.with_op(
                vector_add_op(operands@),
            ).erased(),
            Err(message) => operands@.len() != 5 && final(rewriter)@ == old(rewriter)@
                && message@ == "atomic_add_global_v4_f32 requires 5 operands"@,
        },
{
    if operands.len() != 5 {
        return Err("atomic_add_global_v4_f32 requires 5 operands".to_owned());
    }
    inline_asm(
        rewriter,
        LowType::Void,
        operands,
        "red.global.add.v4.f32 [$0], {$1, $2, $3, $4};",
        "l,f,f,f,f",
        AsmKind::Plain,
    );
    rewriter.erase_operation();
    Ok(())
}

// ---------------------------------------------------------------------------
// Laws
// ---------------------------------------------------------------------------

/// Lowering keeps what was inserted before: conversions only insert.
pub proof fn conversions_only_insert(
    v: RewriterView,
    name: Seq<char>,
    operands: Seq<LowValue>,
)
    ensures
        v.continues_in(sreg_read_lowered(v, name)),
        v.continues_in(barrier_lowered(v)),
        v.continues_in(v.with_op(membar_op(name)).erased()),
        v.continues_in(wait_group_lowered(v, operands)),
        operands.len() == 2 ==> v.continues_in(copy_cast(v, operands)),
        forall|w: RewriterView, r: Result<(), String>| #[trigger]
            copy_lowered(v, w, operands, r) ==> v.continues_in(w),
{
    assert(sreg_read_lowered(v, name).emitted.take(v.emitted.len() as int) =~= v.emitted);
    assert(barrier_lowered(v).emitted.take(v.emitted.len() as int) =~= v.emitted);
    assert(v.with_op(membar_op(name)).emitted.take(v.emitted.len() as int) =~= v.emitted);
    assert(wait_group_lowered(v, operands).emitted.take(v.emitted.len() as int) =~= v.emitted);
    assert(copy_cast(v, operands).emitted.take(v.emitted.len() as int) =~= v.emitted);
    assert forall|w: RewriterView, r: Result<(), String>| #[trigger]
        copy_lowered(v, w, operands, r) implies v.continues_in(w) by {
        assert(w.emitted.take(v.emitted.len() as int) =~= v.emitted);
    }
}

/// A failed copy leaves the operation in place: it is removed only where the copy was
/// inserted.
pub proof fn failed_copies_stay(
    v: RewriterView,
    w: RewriterView,
    operands: Seq<LowValue>,
    r: Result<(), String>,
)
    requires
        copy_lowered(v, w, operands, r),
        r is Err,
    ensures
        w.disposal == v.disposal,
        w.module == v.module,
{
}

}
