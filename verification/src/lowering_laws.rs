//! What the lowered operations are, in terms of the operations that were rewritten.
//!
//! The laws of this module speak of what the conversions leave in a [`Rewriter`], field by
//! field and with the texts written out.

use crate::atomic_lowering::convert_atom_add_bf16x2;
use crate::atomic_lowering::convert_atom_add_f16x2;
use crate::atomic_lowering::convert_atomic_cmpxchg;
use crate::atomic_lowering::convert_atomic_load;
use crate::atomic_lowering::convert_atomic_rmw;
use crate::atomic_lowering::convert_atomic_store;
use crate::atomic_lowering::AtomicOrdering;
use crate::atomic_lowering::AtomicRmwKind;
use crate::atomic_lowering::AtomicScope;
use crate::intrinsic_lowering::convert_atomic_add_global_v4_f32;
use crate::intrinsic_lowering::convert_barrier0;
use crate::intrinsic_lowering::convert_commit_group;
use crate::intrinsic_lowering::convert_copy_ca_16;
use crate::intrinsic_lowering::convert_griddepcontrol_launch_dependents;
use crate::intrinsic_lowering::convert_griddepcontrol_wait;
use crate::intrinsic_lowering::convert_sreg_read_i32;
use crate::intrinsic_lowering::convert_sreg_read_inline;
use crate::intrinsic_lowering::convert_threadfence;
use crate::intrinsic_lowering::convert_threadfence_block;
use crate::intrinsic_lowering::convert_threadfence_system;
use crate::intrinsic_lowering::convert_wait_group;
use crate::lowering::cast_to_cluster_shared_addrspace;
use crate::lowering::cast_to_global_addrspace;
use crate::lowering::cast_to_shared_addrspace;
use crate::lowering::create_i1_const;
use crate::lowering::create_i32_const;
use crate::lowering::create_i64_const;
use crate::lowering::trunc_to_i1;
use crate::lowering::AsmKind;
use crate::lowering::Disposal;
use crate::lowering::Emitted;
use crate::lowering::LlvmAtomicOrdering;
use crate::lowering::LlvmAtomicRmwKind;
use crate::lowering::LlvmOp;
use crate::lowering::LlvmSyncScope;
use crate::lowering::LowType;
use crate::lowering::LowValue;
use crate::lowering::Rewriter;
use vstd::prelude::*;

verus! {

broadcast use vstd::string::group_string_axioms;

// ---------------------------------------------------------------------------
// What a rewriter holds
// ---------------------------------------------------------------------------

/// `after` has `count` operations more than `before`, behind those that were there.
pub open spec fn inserted(before: Rewriter, after: Rewriter, count: nat) -> bool {
    &&& after.emitted@.len() == before.emitted@.len() + count
    &&& forall|i: int|
        0 <= i < before.emitted@.len() ==> (#[trigger] after.emitted@[i])@ == before.emitted@[i]@
}

/// The position behind the last operation.
pub open spec fn end(r: Rewriter) -> int {
    r.emitted@.len() as int
}

/// The declarations of the module are the same.
pub open spec fn same_module(before: Rewriter, after: Rewriter) -> bool {
    match (before.module, after.module) {
        (Ok(a), Ok(b)) => a@.len() == b@.len() && forall|i: int|
            0 <= i < a@.len() ==> (#[trigger] b@[i])@ == a@[i]@,
        (Err(a), Err(b)) => a@ == b@,
        _ => false,
    }
}

/// The operation is inline assembly without a result.
pub open spec fn is_statement(
    e: Emitted,
    text: Seq<char>,
    bound: Seq<char>,
    values: Seq<LowValue>,
    effect: AsmKind,
) -> bool {
    &&& e.op matches LlvmOp::InlineAsm { template, constraints, inputs, result, kind }
    &&& template@ == text
    &&& constraints@ == bound
    &&& inputs@ == values
    &&& result == LowType::Void
    &&& kind == effect
    &&& e.result is None
}

/// The operation is inline assembly with a result.
pub open spec fn is_expression(
    e: Emitted,
    text: Seq<char>,
    bound: Seq<char>,
    values: Seq<LowValue>,
    effect: AsmKind,
    given: LowValue,
) -> bool {
    &&& e.op matches LlvmOp::InlineAsm { template, constraints, inputs, result, kind }
    &&& template@ == text
    &&& constraints@ == bound
    &&& inputs@ == values
    &&& result == given.ty
    &&& kind == effect
    &&& e.result == Some(given)
}

/// The operation calls a function without a result.
pub open spec fn is_call_statement(e: Emitted, name: Seq<char>, values: Seq<LowValue>) -> bool {
    &&& e.op matches LlvmOp::Call { callee, result, args }
    &&& callee@ == name
    &&& result == LowType::Void
    &&& args@ == values
    &&& e.result is None
}

/// A function that was not declared has been declared with this signature, behind what
/// was declared before; one that was declared is not declared again.
pub open spec fn declared_now(
    before: Rewriter,
    after: Rewriter,
    name: Seq<char>,
    result: LowType,
    params: Seq<LowType>,
) -> bool {
    &&& before.module matches Ok(a)
    &&& after.module matches Ok(b)
    &&& a@.len() <= b@.len()
    &&& forall|i: int| 0 <= i < a@.len() ==> (#[trigger] b@[i])@ == a@[i]@
    &&& if exists|i: int| 0 <= i < a@.len() && (#[trigger] a@[i]).name@ == name {
        b@.len() == a@.len()
    } else {
        b@.len() == a@.len() + 1 && b@.last().name@ == name && b@.last().result == result
            && b@.last().params@ == params
    }
}

proof fn lemma_emitted(r: Rewriter)
    ensures
        r@.emitted.len() == r.emitted@.len(),
        forall|i: int| 0 <= i < r.emitted@.len() ==> r@.emitted[i] == (#[trigger] r.emitted@[i])@,
{
}

proof fn lemma_inserted(before: Rewriter, after: Rewriter, count: nat)
    requires
        after@.emitted.len() == before@.emitted.len() + count,
        forall|i: int|
            0 <= i < before@.emitted.len() ==> (#[trigger] after@.emitted[i]) == before@.emitted[i],
    ensures
        inserted(before, after, count),
{
    assert forall|i: int| 0 <= i < before.emitted@.len() implies (
    #[trigger] after.emitted@[i])@ == before.emitted@[i]@ by {
        assert(after@.emitted[i] == before@.emitted[i]);
    }
}

proof fn lemma_same_module(before: Rewriter, after: Rewriter)
    requires
        after@.module == before@.module,
    ensures
        same_module(before, after),
{
    if let (Ok(a), Ok(b)) = (before.module, after.module) {
        let x = before@.module->Ok_0;
        let y = after@.module->Ok_0;
        assert(x.len() == a@.len() && y.len() == b@.len());
        assert forall|i: int| 0 <= i < a@.len() implies (#[trigger] b@[i])@ == a@[i]@ by {
            assert(x[i] == a@[i]@ && y[i] == b@[i]@);
        }
    }
}

// ---------------------------------------------------------------------------
// Atomics
// ---------------------------------------------------------------------------

/// The ordering has a release side.
pub open spec fn releases(ordering: AtomicOrdering) -> bool {
    ordering == AtomicOrdering::Release || ordering == AtomicOrdering::AcqRel || ordering
        == AtomicOrdering::SeqCst
}

/// The ordering has an acquire side.
pub open spec fn acquires(ordering: AtomicOrdering) -> bool {
    ordering == AtomicOrdering::Acquire || ordering == AtomicOrdering::AcqRel || ordering
        == AtomicOrdering::SeqCst
}

/// The two scopes are those of the same threads.
pub open spec fn same_threads(scope: AtomicScope, lowered: LlvmSyncScope) -> bool {
    &&& scope == AtomicScope::Device <==> lowered == LlvmSyncScope::Device
    &&& scope == AtomicScope::Block <==> lowered == LlvmSyncScope::Block
    &&& scope == AtomicScope::System <==> lowered == LlvmSyncScope::System
}

/// The two orderings are the same.
pub open spec fn same_ordering(ordering: AtomicOrdering, lowered: LlvmAtomicOrdering) -> bool {
    &&& ordering == AtomicOrdering::Relaxed <==> lowered == LlvmAtomicOrdering::Monotonic
    &&& ordering == AtomicOrdering::Acquire <==> lowered == LlvmAtomicOrdering::Acquire
    &&& ordering == AtomicOrdering::Release <==> lowered == LlvmAtomicOrdering::Release
    &&& ordering == AtomicOrdering::AcqRel <==> lowered == LlvmAtomicOrdering::AcqRel
    &&& ordering == AtomicOrdering::SeqCst <==> lowered == LlvmAtomicOrdering::SeqCst
}

/// The two read-modify-writes do the same.
pub open spec fn same_action(kind: AtomicRmwKind, action: LlvmAtomicRmwKind) -> bool {
    &&& kind == AtomicRmwKind::Add <==> action == LlvmAtomicRmwKind::Add
    &&& kind == AtomicRmwKind::Sub <==> action == LlvmAtomicRmwKind::Sub
    &&& kind == AtomicRmwKind::And <==> action == LlvmAtomicRmwKind::And
    &&& kind == AtomicRmwKind::Or <==> action == LlvmAtomicRmwKind::Or
    &&& kind == AtomicRmwKind::Xor <==> action == LlvmAtomicRmwKind::Xor
    &&& kind == AtomicRmwKind::Xchg <==> action == LlvmAtomicRmwKind::Xchg
    &&& kind == AtomicRmwKind::Min <==> action == LlvmAtomicRmwKind::Min
    &&& kind == AtomicRmwKind::Max <==> action == LlvmAtomicRmwKind::Max
    &&& kind == AtomicRmwKind::UMin <==> action == LlvmAtomicRmwKind::UMin
    &&& kind == AtomicRmwKind::UMax <==> action == LlvmAtomicRmwKind::UMax
    &&& kind == AtomicRmwKind::FAdd <==> action == LlvmAtomicRmwKind::FAdd
}

/// The PTX fence that keeps the accesses of a scope apart.
pub open spec fn is_fence(e: Emitted, consistent: bool, scope: AtomicScope) -> bool {
    is_statement(
        e,
        match (consistent, scope) {
            (true, AtomicScope::Device) => "fence.sc.gpu;"@,
            (true, AtomicScope::Block) => "fence.sc.cta;"@,
            (true, AtomicScope::System) => "fence.sc.sys;"@,
            (false, AtomicScope::Device) => "fence.acq_rel.gpu;"@,
            (false, AtomicScope::Block) => "fence.acq_rel.cta;"@,
            (false, AtomicScope::System) => "fence.acq_rel.sys;"@,
        },
        ""@,
        seq![],
        AsmKind::SideEffect,
    )
}

proof fn lemma_fence_texts()
    ensures
        "fence."@ + "sc"@ + "."@ + "gpu"@ + ";"@ == "fence.sc.gpu;"@,
        "fence."@ + "sc"@ + "."@ + "cta"@ + ";"@ == "fence.sc.cta;"@,
        "fence."@ + "sc"@ + "."@ + "sys"@ + ";"@ == "fence.sc.sys;"@,
        "fence."@ + "acq_rel"@ + "."@ + "gpu"@ + ";"@ == "fence.acq_rel.gpu;"@,
        "fence."@ + "acq_rel"@ + "."@ + "cta"@ + ";"@ == "fence.acq_rel.cta;"@,
        "fence."@ + "acq_rel"@ + "."@ + "sys"@ + ";"@ == "fence.acq_rel.sys;"@,
{
    reveal_strlit("fence.");
    reveal_strlit("sc");
    reveal_strlit(".");
    reveal_strlit("gpu");
    reveal_strlit(";");
    reveal_strlit("fence.sc.gpu;");
    reveal_strlit("cta");
    reveal_strlit("fence.sc.cta;");
    reveal_strlit("sys");
    reveal_strlit("fence.sc.sys;");
    reveal_strlit("acq_rel");
    reveal_strlit("fence.acq_rel.gpu;");
    reveal_strlit("fence.acq_rel.cta;");
    reveal_strlit("fence.acq_rel.sys;");
    assert("fence."@ + "sc"@ + "."@ + "gpu"@ + ";"@ =~= "fence.sc.gpu;"@);
    assert("fence."@ + "sc"@ + "."@ + "cta"@ + ";"@ =~= "fence.sc.cta;"@);
    assert("fence."@ + "sc"@ + "."@ + "sys"@ + ";"@ =~= "fence.sc.sys;"@);
    assert("fence."@ + "acq_rel"@ + "."@ + "gpu"@ + ";"@ =~= "fence.acq_rel.gpu;"@);
    assert("fence."@ + "acq_rel"@ + "."@ + "cta"@ + ";"@ =~= "fence.acq_rel.cta;"@);
    assert("fence."@ + "acq_rel"@ + "."@ + "sys"@ + ";"@ =~= "fence.acq_rel.sys;"@);
}

proof fn lemma_load_texts()
    ensures
        "ld."@ + "relaxed"@ + "."@ + "gpu"@ + ".b32 $0, [$1];"@ == "ld.relaxed.gpu.b32 $0, [$1];"@,
        "ld."@ + "relaxed"@ + "."@ + "cta"@ + ".b32 $0, [$1];"@ == "ld.relaxed.cta.b32 $0, [$1];"@,
        "ld."@ + "relaxed"@ + "."@ + "sys"@ + ".b32 $0, [$1];"@ == "ld.relaxed.sys.b32 $0, [$1];"@,
        "ld."@ + "acquire"@ + "."@ + "gpu"@ + ".b32 $0, [$1];"@ == "ld.acquire.gpu.b32 $0, [$1];"@,
        "ld."@ + "acquire"@ + "."@ + "cta"@ + ".b32 $0, [$1];"@ == "ld.acquire.cta.b32 $0, [$1];"@,
        "ld."@ + "acquire"@ + "."@ + "sys"@ + ".b32 $0, [$1];"@ == "ld.acquire.sys.b32 $0, [$1];"@,
{
    reveal_strlit("ld.");
    reveal_strlit("relaxed");
    reveal_strlit(".");
    reveal_strlit("gpu");
    reveal_strlit(".b32 $0, [$1];");
    reveal_strlit("ld.relaxed.gpu.b32 $0, [$1];");
    reveal_strlit("cta");
    reveal_strlit("ld.relaxed.cta.b32 $0, [$1];");
    reveal_strlit("sys");
    reveal_strlit("ld.relaxed.sys.b32 $0, [$1];");
    reveal_strlit("acquire");
    reveal_strlit("ld.acquire.gpu.b32 $0, [$1];");
    reveal_strlit("ld.acquire.cta.b32 $0, [$1];");
    reveal_strlit("ld.acquire.sys.b32 $0, [$1];");
    assert("ld."@ + "relaxed"@ + "."@ + "gpu"@ + ".b32 $0, [$1];"@ =~= "ld.relaxed.gpu.b32 $0, [$1];"@);
    assert("ld."@ + "relaxed"@ + "."@ + "cta"@ + ".b32 $0, [$1];"@ =~= "ld.relaxed.cta.b32 $0, [$1];"@);
    assert("ld."@ + "relaxed"@ + "."@ + "sys"@ + ".b32 $0, [$1];"@ =~= "ld.relaxed.sys.b32 $0, [$1];"@);
    assert("ld."@ + "acquire"@ + "."@ + "gpu"@ + ".b32 $0, [$1];"@ =~= "ld.acquire.gpu.b32 $0, [$1];"@);
    assert("ld."@ + "acquire"@ + "."@ + "cta"@ + ".b32 $0, [$1];"@ =~= "ld.acquire.cta.b32 $0, [$1];"@);
    assert("ld."@ + "acquire"@ + "."@ + "sys"@ + ".b32 $0, [$1];"@ =~= "ld.acquire.sys.b32 $0, [$1];"@);
}

proof fn lemma_store_texts()
    ensures
        "st."@ + "relaxed"@ + "."@ + "gpu"@ + ".b32 [$0], $1;"@ == "st.relaxed.gpu.b32 [$0], $1;"@,
        "st."@ + "relaxed"@ + "."@ + "cta"@ + ".b32 [$0], $1;"@ == "st.relaxed.cta.b32 [$0], $1;"@,
        "st."@ + "relaxed"@ + "."@ + "sys"@ + ".b32 [$0], $1;"@ == "st.relaxed.sys.b32 [$0], $1;"@,
        "st."@ + "release"@ + "."@ + "gpu"@ + ".b32 [$0], $1;"@ == "st.release.gpu.b32 [$0], $1;"@,
        "st."@ + "release"@ + "."@ + "cta"@ + ".b32 [$0], $1;"@ == "st.release.cta.b32 [$0], $1;"@,
        "st."@ + "release"@ + "."@ + "sys"@ + ".b32 [$0], $1;"@ == "st.release.sys.b32 [$0], $1;"@,
{
    reveal_strlit("st.");
    reveal_strlit("relaxed");
    reveal_strlit(".");
    reveal_strlit("gpu");
    reveal_strlit(".b32 [$0], $1;");
    reveal_strlit("st.relaxed.gpu.b32 [$0], $1;");
    reveal_strlit("cta");
    reveal_strlit("st.relaxed.cta.b32 [$0], $1;");
    reveal_strlit("sys");
    reveal_strlit("st.relaxed.sys.b32 [$0], $1;");
    reveal_strlit("release");
    reveal_strlit("st.release.gpu.b32 [$0], $1;");
    reveal_strlit("st.release.cta.b32 [$0], $1;");
    reveal_strlit("st.release.sys.b32 [$0], $1;");
    assert("st."@ + "relaxed"@ + "."@ + "gpu"@ + ".b32 [$0], $1;"@ =~= "st.relaxed.gpu.b32 [$0], $1;"@);
    assert("st."@ + "relaxed"@ + "."@ + "cta"@ + ".b32 [$0], $1;"@ =~= "st.relaxed.cta.b32 [$0], $1;"@);
    assert("st."@ + "relaxed"@ + "."@ + "sys"@ + ".b32 [$0], $1;"@ =~= "st.relaxed.sys.b32 [$0], $1;"@);
    assert("st."@ + "release"@ + "."@ + "gpu"@ + ".b32 [$0], $1;"@ =~= "st.release.gpu.b32 [$0], $1;"@);
    assert("st."@ + "release"@ + "."@ + "cta"@ + ".b32 [$0], $1;"@ =~= "st.release.cta.b32 [$0], $1;"@);
    assert("st."@ + "release"@ + "."@ + "sys"@ + ".b32 [$0], $1;"@ =~= "st.release.sys.b32 [$0], $1;"@);
}

proof fn lemma_packed_add_texts()
    ensures
        "atom.global.add.noftz."@ + "f16x2"@ + " $0, [$1], $2;"@ == "atom.global.add.noftz.f16x2 $0, [$1], $2;"@,
        "atom.global.add.noftz."@ + "bf16x2"@ + " $0, [$1], $2;"@ == "atom.global.add.noftz.bf16x2 $0, [$1], $2;"@,
{
    reveal_strlit("atom.global.add.noftz.");
    reveal_strlit("f16x2");
    reveal_strlit(" $0, [$1], $2;");
    reveal_strlit("atom.global.add.noftz.f16x2 $0, [$1], $2;");
    reveal_strlit("bf16x2");
    reveal_strlit("atom.global.add.noftz.bf16x2 $0, [$1], $2;");
    assert("atom.global.add.noftz."@ + "f16x2"@ + " $0, [$1], $2;"@ =~= "atom.global.add.noftz.f16x2 $0, [$1], $2;"@);
    assert("atom.global.add.noftz."@ + "bf16x2"@ + " $0, [$1], $2;"@ =~= "atom.global.add.noftz.bf16x2 $0, [$1], $2;"@);
}

/// A read-modify-write of the device becomes one operation that does the same at the same
/// address with the same operand among the same threads. That operation takes its place
/// and gives its result. It is relaxed: a fence stands before it exactly where the ordering
/// has a release side, and one behind it exactly where it has an acquire side.
pub proof fn read_modify_writes_do_the_same(
    rewriter: &mut Rewriter,
    operands: Vec<LowValue>,
    kind: AtomicRmwKind,
    ordering: AtomicOrdering,
    scope: AtomicScope,
)
    requires
        operands@.len() >= 2,
        old(rewriter).emitted@.len() < usize::MAX,
        operands@[1].ty != LowType::Void,
        call_ensures(convert_atomic_rmw, (rewriter, &operands, kind, ordering, scope), ()),
    ensures
        ({
            let n = old(rewriter).emitted@.len() as int;
            let at = if releases(ordering) {
                n + 1
            } else {
                n
            };
            let count: int = if acquires(ordering) {
                at + 2 - n
            } else {
                at + 1 - n
            };
            let list = final(rewriter).emitted@;
            let consistent = ordering == AtomicOrdering::SeqCst;
            &&& inserted(*old(rewriter), *final(rewriter), count as nat)
            &&& same_module(*old(rewriter), *final(rewriter))
            &&& final(rewriter).disposal == Disposal::ReplacedBy(at as usize)
            &&& list[at].op matches LlvmOp::AtomicRmw { ptr, value, action, ordering: o, scope: s }
                && ptr == operands@[0] && value == operands@[1] && same_action(kind, action) && o
                == LlvmAtomicOrdering::Monotonic && same_threads(scope, s)
            &&& list[at].result == Some(
                LowValue { id: old(rewriter).next_value, ty: operands@[1].ty },
            )
            &&& final(rewriter).next_value == old(rewriter).next_value + 1
            &&& releases(ordering) ==> is_fence(list[n], consistent, scope)
            &&& acquires(ordering) ==> is_fence(list[at + 1], consistent, scope)
        }),
{
    lemma_fence_texts();
    let before = *old(rewriter);
    let after = *final(rewriter);
    let n = before.emitted@.len() as int;
    let count = (after.emitted@.len() - n) as nat;
    lemma_inserted(before, after, count);
    lemma_same_module(before, after);
    lemma_emitted(before);
    lemma_emitted(after);
}

/// A compare-and-exchange of the device becomes one at the same address, with the same
/// expected and new values, the same orderings and among the same threads; the loaded
/// value, the first part of what it gives, takes its place.
pub proof fn exchanges_do_the_same(
    rewriter: &mut Rewriter,
    operands: Vec<LowValue>,
    success: AtomicOrdering,
    failure: AtomicOrdering,
    scope: AtomicScope,
)
    requires
        operands@.len() >= 3,
        old(rewriter).emitted@.len() < usize::MAX - 1,
        operands@[1].ty != LowType::Void,
        call_ensures(convert_atomic_cmpxchg, (rewriter, &operands, success, failure, scope), ()),
    ensures
        ({
            let n = end(*old(rewriter));
            let list = final(rewriter).emitted@;
            let exchanged = LowValue { id: old(rewriter).next_value, ty: LowType::Exchanged };
            &&& inserted(*old(rewriter), *final(rewriter), 2)
            &&& same_module(*old(rewriter), *final(rewriter))
            &&& final(rewriter).disposal matches Disposal::ReplacedBy(at) && at == n + 1
            &&& list[n].op matches LlvmOp::AtomicCmpxchg {
                ptr,
                expected,
                new_value,
                success: s,
                failure: f,
                scope: threads,
            } && ptr == operands@[0] && expected == operands@[1] && new_value == operands@[2]
                && same_ordering(success, s) && same_ordering(failure, f) && same_threads(
                scope,
                threads,
            )
            &&& list[n].result == Some(exchanged)
            &&& list[n + 1].op == LlvmOp::ExtractValue {
                value: exchanged,
                index: 0,
                ty: operands@[1].ty,
            }
            &&& list[n + 1].result matches Some(loaded) && loaded.ty == operands@[1].ty
                && loaded.id == old(rewriter).next_value + 1
        }),
{
    let before = *old(rewriter);
    let after = *final(rewriter);
    lemma_emitted(before);
    lemma_emitted(after);
    lemma_inserted(before, after, 2);
    lemma_same_module(before, after);
}

/// The PTX of a load of the device: acquiring where the ordering has an acquire side.
pub open spec fn load_ptx(acquiring: bool, scope: AtomicScope) -> Seq<char> {
    match (acquiring, scope) {
        (true, AtomicScope::Device) => "ld.acquire.gpu.b32 $0, [$1];"@,
        (true, AtomicScope::Block) => "ld.acquire.cta.b32 $0, [$1];"@,
        (true, AtomicScope::System) => "ld.acquire.sys.b32 $0, [$1];"@,
        (false, AtomicScope::Device) => "ld.relaxed.gpu.b32 $0, [$1];"@,
        (false, AtomicScope::Block) => "ld.relaxed.cta.b32 $0, [$1];"@,
        (false, AtomicScope::System) => "ld.relaxed.sys.b32 $0, [$1];"@,
    }
}

/// The PTX of a store of the device: releasing where the ordering has a release side.
pub open spec fn store_ptx(releasing: bool, scope: AtomicScope) -> Seq<char> {
    match (releasing, scope) {
        (true, AtomicScope::Device) => "st.release.gpu.b32 [$0], $1;"@,
        (true, AtomicScope::Block) => "st.release.cta.b32 [$0], $1;"@,
        (true, AtomicScope::System) => "st.release.sys.b32 [$0], $1;"@,
        (false, AtomicScope::Device) => "st.relaxed.gpu.b32 [$0], $1;"@,
        (false, AtomicScope::Block) => "st.relaxed.cta.b32 [$0], $1;"@,
        (false, AtomicScope::System) => "st.relaxed.sys.b32 [$0], $1;"@,
    }
}

/// A load becomes one PTX load from its operand in its scope, acquiring exactly where its
/// ordering has an acquire side. Without a type for its result nothing is lowered.
pub proof fn loads_do_the_same(
    rewriter: &mut Rewriter,
    operands: Vec<LowValue>,
    ordering: AtomicOrdering,
    scope: AtomicScope,
    result_ty: Result<LowType, String>,
    r: Result<(), String>,
)
    requires
        operands@.len() >= 1,
        result_ty != Ok::<LowType, String>(LowType::Void),
        call_ensures(convert_atomic_load, (rewriter, &operands, ordering, scope, result_ty), r),
    ensures
        ({
            let n = old(rewriter).emitted@.len() as int;
            match result_ty {
                Ok(ty) => {
                    &&& r is Ok
                    &&& inserted(*old(rewriter), *final(rewriter), 1)
                    &&& same_module(*old(rewriter), *final(rewriter))
                    &&& final(rewriter).disposal == Disposal::ReplacedBy(n as usize)
                    &&& is_expression(
                        final(rewriter).emitted@[n],
                        load_ptx(acquires(ordering), scope),
                        "=r,l"@,
                        seq![operands@[0]],
                        AsmKind::SideEffect,
                        LowValue { id: old(rewriter).next_value, ty },
                    )
                },
                Err(reason) => {
                    &&& r == Err::<(), String>(reason)
                    &&& inserted(*old(rewriter), *final(rewriter), 0)
                    &&& same_module(*old(rewriter), *final(rewriter))
                    &&& final(rewriter).disposal == old(rewriter).disposal
                },
            }
        }),
{
    lemma_load_texts();
    let before = *old(rewriter);
    let after = *final(rewriter);
    lemma_emitted(before);
    lemma_emitted(after);
    lemma_inserted(before, after, (after.emitted@.len() - before.emitted@.len()) as nat);
    lemma_same_module(before, after);
}

/// A store becomes one PTX store of its first operand at its second in its scope,
/// releasing exactly where its ordering has a release side.
pub proof fn stores_do_the_same(
    rewriter: &mut Rewriter,
    operands: Vec<LowValue>,
    ordering: AtomicOrdering,
    scope: AtomicScope,
)
    requires
        operands@.len() >= 2,
        call_ensures(convert_atomic_store, (rewriter, &operands, ordering, scope), ()),
    ensures
        inserted(*old(rewriter), *final(rewriter), 1),
        same_module(*old(rewriter), *final(rewriter)),
        final(rewriter).disposal == Disposal::Erased,
        is_statement(
            final(rewriter).emitted@[old(rewriter).emitted@.len() as int],
            store_ptx(releases(ordering), scope),
            "l,r"@,
            seq![operands@[1], operands@[0]],
            AsmKind::SideEffect,
        ),
{
    lemma_store_texts();
    let before = *old(rewriter);
    let after = *final(rewriter);
    lemma_emitted(before);
    lemma_emitted(after);
    lemma_inserted(before, after, (after.emitted@.len() - before.emitted@.len()) as nat);
    lemma_same_module(before, after);
}

/// The atomic addition of packed half-precision numbers adds its second operand at its first and gives
/// what was there; it takes exactly two operands.
pub proof fn packed_f16x2_additions_do_the_same(
    rewriter: &mut Rewriter,
    operands: Vec<LowValue>,
    r: Result<(), String>,
)
    requires
        call_ensures(convert_atom_add_f16x2, (rewriter, &operands), r),
    ensures
        r is Ok <==> operands@.len() == 2,
        same_module(*old(rewriter), *final(rewriter)),
        r is Ok ==> {
            let n = old(rewriter).emitted@.len() as int;
            &&& inserted(*old(rewriter), *final(rewriter), 1)
            &&& final(rewriter).disposal == Disposal::ReplacedBy(n as usize)
            &&& is_expression(
                final(rewriter).emitted@[n],
                "atom.global.add.noftz.f16x2 $0, [$1], $2;"@,
                "=r,l,r,~{memory}"@,
                seq![operands@[0], operands@[1]],
                AsmKind::SideEffect,
                LowValue { id: old(rewriter).next_value, ty: LowType::Integer { width: 32 } },
            )
        },
        r is Err ==> inserted(*old(rewriter), *final(rewriter), 0) && final(rewriter).disposal
            == old(rewriter).disposal,
{
    lemma_packed_add_texts();
    let before = *old(rewriter);
    let after = *final(rewriter);
    lemma_emitted(before);
    lemma_emitted(after);
    lemma_inserted(before, after, (after.emitted@.len() - before.emitted@.len()) as nat);
    lemma_same_module(before, after);
    if operands@.len() == 2 {
        assert(operands@ =~= seq![operands@[0], operands@[1]]);
    }
}

/// The atomic addition of packed brain floats adds its second operand at its first and gives
/// what was there; it takes exactly two operands.
pub proof fn packed_bf16x2_additions_do_the_same(
    rewriter: &mut Rewriter,
    operands: Vec<LowValue>,
    r: Result<(), String>,
)
    requires
        call_ensures(convert_atom_add_bf16x2, (rewriter, &operands), r),
    ensures
        r is Ok <==> operands@.len() == 2,
        same_module(*old(rewriter), *final(rewriter)),
        r is Ok ==> {
            let n = old(rewriter).emitted@.len() as int;
            &&& inserted(*old(rewriter), *final(rewriter), 1)
            &&& final(rewriter).disposal == Disposal::ReplacedBy(n as usize)
            &&& is_expression(
                final(rewriter).emitted@[n],
                "atom.global.add.noftz.bf16x2 $0, [$1], $2;"@,
                "=r,l,r,~{memory}"@,
                seq![operands@[0], operands@[1]],
                AsmKind::SideEffect,
                LowValue { id: old(rewriter).next_value, ty: LowType::Integer { width: 32 } },
            )
        },
        r is Err ==> inserted(*old(rewriter), *final(rewriter), 0) && final(rewriter).disposal
            == old(rewriter).disposal,
{
    lemma_packed_add_texts();
    let before = *old(rewriter);
    let after = *final(rewriter);
    lemma_emitted(before);
    lemma_emitted(after);
    lemma_inserted(before, after, (after.emitted@.len() - before.emitted@.len()) as nat);
    lemma_same_module(before, after);
    if operands@.len() == 2 {
        assert(operands@ =~= seq![operands@[0], operands@[1]]);
    }
}

// ---------------------------------------------------------------------------
// Fences, barriers and copies
// ---------------------------------------------------------------------------

/// The memory fence of a block is the PTX fence of the block, `membar.cta`. It clobbers memory, is convergent
/// and leaves nothing of the rewritten operation.
pub proof fn block_fences_cover_the_block(rewriter: &mut Rewriter)
    requires
        call_ensures(convert_threadfence_block, (rewriter,), ()),
    ensures
        inserted(*old(rewriter), *final(rewriter), 1),
        same_module(*old(rewriter), *final(rewriter)),
        final(rewriter).disposal == Disposal::Erased,
        is_statement(
            final(rewriter).emitted@[old(rewriter).emitted@.len() as int],
            "membar.cta;"@,
            "~{memory}"@,
            seq![],
            AsmKind::Convergent,
        ),
{
    let before = *old(rewriter);
    let after = *final(rewriter);
    lemma_emitted(before);
    lemma_emitted(after);
    lemma_inserted(before, after, (after.emitted@.len() - before.emitted@.len()) as nat);
    lemma_same_module(before, after);
}

/// The memory fence of the device is the PTX fence of the device, `membar.gl`. It clobbers memory, is convergent
/// and leaves nothing of the rewritten operation.
pub proof fn device_fences_cover_the_device(rewriter: &mut Rewriter)
    requires
        call_ensures(convert_threadfence, (rewriter,), ()),
    ensures
        inserted(*old(rewriter), *final(rewriter), 1),
        same_module(*old(rewriter), *final(rewriter)),
        final(rewriter).disposal == Disposal::Erased,
        is_statement(
            final(rewriter).emitted@[old(rewriter).emitted@.len() as int],
            "membar.gl;"@,
            "~{memory}"@,
            seq![],
            AsmKind::Convergent,
        ),
{
    let before = *old(rewriter);
    let after = *final(rewriter);
    lemma_emitted(before);
    lemma_emitted(after);
    lemma_inserted(before, after, (after.emitted@.len() - before.emitted@.len()) as nat);
    lemma_same_module(before, after);
}

/// The memory fence of the system is the PTX fence of the system, `membar.sys`. It clobbers memory, is convergent
/// and leaves nothing of the rewritten operation.
pub proof fn system_fences_cover_the_system(rewriter: &mut Rewriter)
    requires
        call_ensures(convert_threadfence_system, (rewriter,), ()),
    ensures
        inserted(*old(rewriter), *final(rewriter), 1),
        same_module(*old(rewriter), *final(rewriter)),
        final(rewriter).disposal == Disposal::Erased,
        is_statement(
            final(rewriter).emitted@[old(rewriter).emitted@.len() as int],
            "membar.sys;"@,
            "~{memory}"@,
            seq![],
            AsmKind::Convergent,
        ),
{
    let before = *old(rewriter);
    let after = *final(rewriter);
    lemma_emitted(before);
    lemma_emitted(after);
    lemma_inserted(before, after, (after.emitted@.len() - before.emitted@.len()) as nat);
    lemma_same_module(before, after);
}

/// The trigger for dependent grids lets them start. It clobbers memory, is convergent
/// and leaves nothing of the rewritten operation.
pub proof fn triggers_launch_dependents(rewriter: &mut Rewriter)
    requires
        call_ensures(convert_griddepcontrol_launch_dependents, (rewriter,), ()),
    ensures
        inserted(*old(rewriter), *final(rewriter), 1),
        same_module(*old(rewriter), *final(rewriter)),
        final(rewriter).disposal == Disposal::Erased,
        is_statement(
            final(rewriter).emitted@[old(rewriter).emitted@.len() as int],
            "griddepcontrol.launch_dependents;"@,
            "~{memory}"@,
            seq![],
            AsmKind::Convergent,
        ),
{
    let before = *old(rewriter);
    let after = *final(rewriter);
    lemma_emitted(before);
    lemma_emitted(after);
    lemma_inserted(before, after, (after.emitted@.len() - before.emitted@.len()) as nat);
    lemma_same_module(before, after);
}

/// The wait for the grids that this one depends on waits for them. It clobbers memory, is convergent
/// and leaves nothing of the rewritten operation.
pub proof fn grid_waits_wait(rewriter: &mut Rewriter)
    requires
        call_ensures(convert_griddepcontrol_wait, (rewriter,), ()),
    ensures
        inserted(*old(rewriter), *final(rewriter), 1),
        same_module(*old(rewriter), *final(rewriter)),
        final(rewriter).disposal == Disposal::Erased,
        is_statement(
            final(rewriter).emitted@[old(rewriter).emitted@.len() as int],
            "griddepcontrol.wait;"@,
            "~{memory}"@,
            seq![],
            AsmKind::Convergent,
        ),
{
    let before = *old(rewriter);
    let after = *final(rewriter);
    lemma_emitted(before);
    lemma_emitted(after);
    lemma_inserted(before, after, (after.emitted@.len() - before.emitted@.len()) as nat);
    lemma_same_module(before, after);
}

/// The commit of the pending copies makes one group of them. It clobbers memory, is convergent
/// and leaves nothing of the rewritten operation.
pub proof fn commits_close_a_group(rewriter: &mut Rewriter)
    requires
        call_ensures(convert_commit_group, (rewriter,), ()),
    ensures
        inserted(*old(rewriter), *final(rewriter), 1),
        same_module(*old(rewriter), *final(rewriter)),
        final(rewriter).disposal == Disposal::Erased,
        is_statement(
            final(rewriter).emitted@[old(rewriter).emitted@.len() as int],
            "cp.async.commit_group;"@,
            "~{memory}"@,
            seq![],
            AsmKind::Convergent,
        ),
{
    let before = *old(rewriter);
    let after = *final(rewriter);
    lemma_emitted(before);
    lemma_emitted(after);
    lemma_inserted(before, after, (after.emitted@.len() - before.emitted@.len()) as nat);
    lemma_same_module(before, after);
}

proof fn lemma_declared_now(
    before: Rewriter,
    after: Rewriter,
    name: Seq<char>,
    result: LowType,
    params: Seq<LowType>,
)
    requires
        before.module is Ok,
        after@.module == before@.declaring(
            crate::lowering::DeclarationView { name, result, params },
        ).module,
    ensures
        declared_now(before, after, name, result, params),
{
    let a = before.module->Ok_0@;
    let b = after.module->Ok_0@;
    let x = before@.module->Ok_0;
    let y = after@.module->Ok_0;
    assert(after.module is Ok);
    assert(x.len() == a.len() && y.len() == b.len());
    assert forall|i: int| 0 <= i < a.len() implies (#[trigger] b[i])@ == a[i]@ by {
        assert(x[i] == a[i]@ && y[i] == b[i]@);
    }
    if exists|i: int| 0 <= i < a.len() && (#[trigger] a[i]).name@ == name {
        let i = choose|i: int| 0 <= i < a.len() && (#[trigger] a[i]).name@ == name;
        assert(x[i].name == name);
    } else {
        assert forall|i: int| 0 <= i < x.len() implies (#[trigger] x[i]).name != name by {
            assert(x[i] == a[i]@);
            assert(a[i].name@ != name);
        }
        assert(y.last() == b.last()@);
    }
}

/// The barrier over the threads of a block becomes a call of the barrier intrinsic, which
/// the module declares once. Where the module takes no declarations nothing changes.
pub proof fn barriers_are_called(rewriter: &mut Rewriter, r: Result<(), String>)
    requires
        call_ensures(convert_barrier0, (rewriter,), r),
    ensures
        r is Ok <==> old(rewriter).module is Ok,
        r matches Err(reason) ==> old(rewriter).module matches Err(given) && reason@ == given@,
        r is Ok ==> {
            &&& inserted(*old(rewriter), *final(rewriter), 1)
            &&& declared_now(
                *old(rewriter),
                *final(rewriter),
                "llvm_nvvm_barrier0"@,
                LowType::Void,
                seq![],
            )
            &&& final(rewriter).disposal == Disposal::Erased
            &&& is_call_statement(
                final(rewriter).emitted@[old(rewriter).emitted@.len() as int],
                "llvm_nvvm_barrier0"@,
                seq![],
            )
        },
        r is Err ==> inserted(*old(rewriter), *final(rewriter), 0) && final(rewriter).disposal
            == old(rewriter).disposal,
{
    let before = *old(rewriter);
    let after = *final(rewriter);
    lemma_emitted(before);
    lemma_emitted(after);
    lemma_inserted(before, after, (after.emitted@.len() - before.emitted@.len()) as nat);
    if before.module is Ok {
        lemma_declared_now(before, after, "llvm_nvvm_barrier0"@, LowType::Void, seq![]);
    }
}

/// The read of a special register becomes a call of the given intrinsic, without
/// arguments, that gives a word in its place.
pub proof fn register_reads_are_called(
    rewriter: &mut Rewriter,
    intrinsic_name: &str,
    r: Result<(), String>,
)
    requires
        call_ensures(convert_sreg_read_i32, (rewriter, intrinsic_name), r),
    ensures
        r is Ok <==> old(rewriter).module is Ok,
        r is Ok ==> {
            let n = old(rewriter).emitted@.len() as int;
            let e = final(rewriter).emitted@[n];
            let word = LowType::Integer { width: 32 };
            &&& inserted(*old(rewriter), *final(rewriter), 1)
            &&& declared_now(
                *old(rewriter),
                *final(rewriter),
                intrinsic_name@,
                word,
                seq![],
            )
            &&& final(rewriter).disposal == Disposal::ReplacedBy(n as usize)
            &&& e.op matches LlvmOp::Call { callee, result, args } && callee@ == intrinsic_name@
                && result == word && args@.len() == 0
            &&& e.result == Some(LowValue { id: old(rewriter).next_value, ty: word })
        },
        r is Err ==> inserted(*old(rewriter), *final(rewriter), 0) && final(rewriter).disposal
            == old(rewriter).disposal,
{
    let before = *old(rewriter);
    let after = *final(rewriter);
    lemma_emitted(before);
    lemma_emitted(after);
    lemma_inserted(before, after, (after.emitted@.len() - before.emitted@.len()) as nat);
    if before.module is Ok {
        lemma_declared_now(
            before,
            after,
            intrinsic_name@,
            LowType::Integer { width: 32 },
            seq![],
        );
    }
}

/// The inline read of a special register is the given PTX, without inputs, that gives an
/// integer of the given width in its place.
pub proof fn register_reads_are_written_inline(
    rewriter: &mut Rewriter,
    result_width: u32,
    template: &str,
    constraints: &str,
    kind: AsmKind,
)
    requires
        call_ensures(
            convert_sreg_read_inline,
            (rewriter, result_width, template, constraints, kind),
            (),
        ),
    ensures
        ({
            let n = old(rewriter).emitted@.len() as int;
            &&& inserted(*old(rewriter), *final(rewriter), 1)
            &&& same_module(*old(rewriter), *final(rewriter))
            &&& final(rewriter).disposal == Disposal::ReplacedBy(n as usize)
            &&& is_expression(
                final(rewriter).emitted@[n],
                template@,
                constraints@,
                seq![],
                kind,
                LowValue {
                    id: old(rewriter).next_value,
                    ty: LowType::Integer { width: result_width },
                },
            )
        }),
{
    let before = *old(rewriter);
    let after = *final(rewriter);
    lemma_emitted(before);
    lemma_emitted(after);
    lemma_inserted(before, after, (after.emitted@.len() - before.emitted@.len()) as nat);
    lemma_same_module(before, after);
}

/// The wait for groups of copies leaves as many groups pending as its operand says, and
/// none where it has no operand.
pub proof fn waits_leave_as_many_groups(rewriter: &mut Rewriter, operands: Vec<LowValue>)
    requires
        call_ensures(convert_wait_group, (rewriter, &operands), ()),
    ensures
        ({
            let n = old(rewriter).emitted@.len() as int;
            let list = final(rewriter).emitted@;
            let zero = LowValue {
                id: old(rewriter).next_value,
                ty: LowType::Integer { width: 32 },
            };
            &&& same_module(*old(rewriter), *final(rewriter))
            &&& final(rewriter).disposal == Disposal::Erased
            &&& operands@.len() > 0 ==> inserted(*old(rewriter), *final(rewriter), 1)
                && is_statement(
                list[n],
                "cp.async.wait_group $0;"@,
                "n,~{memory}"@,
                seq![operands@[0]],
                AsmKind::Convergent,
            )
            &&& operands@.len() == 0 ==> inserted(*old(rewriter), *final(rewriter), 2)
                && list[n].result == Some(zero) && (list[n].op matches LlvmOp::Constant(c)
                && c.unsigned() == 0 && c.width == 32) && is_statement(
                list[n + 1],
                "cp.async.wait_group $0;"@,
                "n,~{memory}"@,
                seq![zero],
                AsmKind::Convergent,
            )
        }),
{
    vstd::arithmetic::power2::lemma2_to64();
    let before = *old(rewriter);
    let after = *final(rewriter);
    lemma_emitted(before);
    lemma_emitted(after);
    lemma_inserted(before, after, (after.emitted@.len() - before.emitted@.len()) as nat);
    lemma_same_module(before, after);
}

/// The address space of a value, the generic one where it is no pointer.
pub open spec fn home(value: LowValue) -> u32 {
    match value.ty {
        LowType::Pointer { address_space } => address_space,
        _ => 0,
    }
}

/// `e` casts `value` to the address space, giving `to`.
pub open spec fn is_cast(e: Emitted, value: LowValue, space: u32, to: LowValue) -> bool {
    &&& e.op == LlvmOp::AddrSpaceCast { value, address_space: space }
    &&& e.result == Some(to)
    &&& to.ty == LowType::Pointer { address_space: space }
}

/// The asynchronous copy takes exactly two operands: it writes to the first, brought to
/// shared memory, from the second, brought to global memory. A pointer that is there
/// already is passed as it is.
pub proof fn copies_go_from_global_to_shared(
    rewriter: &mut Rewriter,
    operands: Vec<LowValue>,
    r: Result<(), String>,
)
    requires
        old(rewriter).next_value + 3 <= u64::MAX,
        call_ensures(convert_copy_ca_16, (rewriter, &operands), r),
    ensures
        r is Ok <==> operands@.len() == 2 && old(rewriter).module is Ok,
        r is Ok ==> {
            let n = old(rewriter).emitted@.len() as int;
            let list = final(rewriter).emitted@;
            let dst = operands@[0];
            let src = operands@[1];
            let dst_cast: int = if home(dst) == 3 {
                0
            } else {
                1
            };
            let src_cast: int = if home(src) == 1 {
                0
            } else {
                1
            };
            &&& inserted(*old(rewriter), *final(rewriter), (dst_cast + src_cast + 1) as nat)
            &&& declared_now(
                *old(rewriter),
                *final(rewriter),
                "llvm_nvvm_cp_async_ca_shared_global_16"@,
                LowType::Void,
                seq![LowType::Pointer { address_space: 3 }, LowType::Pointer { address_space: 1 }],
            )
            &&& final(rewriter).disposal == Disposal::Erased
            &&& list[n + dst_cast + src_cast].op matches LlvmOp::Call { callee, result, args }
                && callee@ == "llvm_nvvm_cp_async_ca_shared_global_16"@ && result == LowType::Void
                && args@.len() == 2 && (if dst_cast == 0 {
                args@[0] == dst
            } else {
                is_cast(list[n], dst, 3, args@[0])
            }) && (if src_cast == 0 {
                args@[1] == src
            } else {
                is_cast(list[n + dst_cast], src, 1, args@[1])
            })
        },
{
    let before = *old(rewriter);
    let after = *final(rewriter);
    lemma_emitted(before);
    lemma_emitted(after);
    lemma_inserted(before, after, (after.emitted@.len() - before.emitted@.len()) as nat);
    if r is Ok {
        lemma_declared_now(
            before,
            after,
            "llvm_nvvm_cp_async_ca_shared_global_16"@,
            LowType::Void,
            seq![LowType::Pointer { address_space: 3 }, LowType::Pointer { address_space: 1 }],
        );
    }
}

/// The atomic addition of four floats adds its last four operands at its first, and takes
/// exactly five.
pub proof fn vector_additions_do_the_same(
    rewriter: &mut Rewriter,
    operands: Vec<LowValue>,
    r: Result<(), String>,
)
    requires
        call_ensures(convert_atomic_add_global_v4_f32, (rewriter, operands), r),
    ensures
        r is Ok <==> operands@.len() == 5,
        same_module(*old(rewriter), *final(rewriter)),
        r is Ok ==> inserted(*old(rewriter), *final(rewriter), 1) && final(rewriter).disposal
            == Disposal::Erased && is_statement(
            final(rewriter).emitted@[old(rewriter).emitted@.len() as int],
            "red.global.add.v4.f32 [$0], {$1, $2, $3, $4};"@,
            "l,f,f,f,f"@,
            seq![operands@[0], operands@[1], operands@[2], operands@[3], operands@[4]],
            AsmKind::Plain,
        ),
        r is Err ==> inserted(*old(rewriter), *final(rewriter), 0) && final(rewriter).disposal
            == old(rewriter).disposal,
{
    let before = *old(rewriter);
    let after = *final(rewriter);
    lemma_emitted(before);
    lemma_emitted(after);
    lemma_inserted(before, after, (after.emitted@.len() - before.emitted@.len()) as nat);
    lemma_same_module(before, after);
    if operands@.len() == 5 {
        assert(operands@ =~= seq![
            operands@[0],
            operands@[1],
            operands@[2],
            operands@[3],
            operands@[4],
        ]);
    }
}

// ---------------------------------------------------------------------------
// Shared steps
// ---------------------------------------------------------------------------

/// A pointer is brought to shared memory by one cast of itself, or by none where it
/// is there.
pub proof fn shared_casts_reach_shared_memory(rewriter: &mut Rewriter, ptr: LowValue, r: LowValue)
    requires
        call_ensures(cast_to_shared_addrspace, (rewriter, ptr), r),
    ensures
        same_module(*old(rewriter), *final(rewriter)),
        final(rewriter).disposal == old(rewriter).disposal,
        home(ptr) == 3 ==> r == ptr && inserted(*old(rewriter), *final(rewriter), 0),
        home(ptr) != 3 ==> inserted(*old(rewriter), *final(rewriter), 1) && r.id == old(
            rewriter,
        ).next_value && is_cast(
            final(rewriter).emitted@[old(rewriter).emitted@.len() as int],
            ptr,
            3,
            r,
        ),
{
    let before = *old(rewriter);
    let after = *final(rewriter);
    lemma_emitted(before);
    lemma_emitted(after);
    lemma_inserted(before, after, (after.emitted@.len() - before.emitted@.len()) as nat);
    lemma_same_module(before, after);
}

/// A pointer is brought to global memory by one cast of itself, or by none where it
/// is there.
pub proof fn global_casts_reach_global_memory(rewriter: &mut Rewriter, ptr: LowValue, r: LowValue)
    requires
        call_ensures(cast_to_global_addrspace, (rewriter, ptr), r),
    ensures
        same_module(*old(rewriter), *final(rewriter)),
        final(rewriter).disposal == old(rewriter).disposal,
        home(ptr) == 1 ==> r == ptr && inserted(*old(rewriter), *final(rewriter), 0),
        home(ptr) != 1 ==> inserted(*old(rewriter), *final(rewriter), 1) && r.id == old(
            rewriter,
        ).next_value && is_cast(
            final(rewriter).emitted@[old(rewriter).emitted@.len() as int],
            ptr,
            1,
            r,
        ),
{
    let before = *old(rewriter);
    let after = *final(rewriter);
    lemma_emitted(before);
    lemma_emitted(after);
    lemma_inserted(before, after, (after.emitted@.len() - before.emitted@.len()) as nat);
    lemma_same_module(before, after);
}

/// A pointer is brought to the shared memory of the cluster by one cast of itself, or by none where it
/// is there.
pub proof fn cluster_casts_reach_cluster_memory(rewriter: &mut Rewriter, ptr: LowValue, r: LowValue)
    requires
        call_ensures(cast_to_cluster_shared_addrspace, (rewriter, ptr), r),
    ensures
        same_module(*old(rewriter), *final(rewriter)),
        final(rewriter).disposal == old(rewriter).disposal,
        home(ptr) == 7 ==> r == ptr && inserted(*old(rewriter), *final(rewriter), 0),
        home(ptr) != 7 ==> inserted(*old(rewriter), *final(rewriter), 1) && r.id == old(
            rewriter,
        ).next_value && is_cast(
            final(rewriter).emitted@[old(rewriter).emitted@.len() as int],
            ptr,
            7,
            r,
        ),
{
    let before = *old(rewriter);
    let after = *final(rewriter);
    lemma_emitted(before);
    lemma_emitted(after);
    lemma_inserted(before, after, (after.emitted@.len() - before.emitted@.len()) as nat);
    lemma_same_module(before, after);
}

/// A constant of 32 bits is the number where that is not negative, and what it lacks to
/// a full turn where it is.
pub proof fn constant_words_hold_their_number(rewriter: &mut Rewriter, value: i32, r: LowValue)
    requires
        call_ensures(create_i32_const, (rewriter, value), r),
    ensures
        inserted(*old(rewriter), *final(rewriter), 1),
        same_module(*old(rewriter), *final(rewriter)),
        r == (LowValue { id: old(rewriter).next_value, ty: LowType::Integer { width: 32 } }),
        ({
            let e = final(rewriter).emitted@[old(rewriter).emitted@.len() as int];
            &&& e.result == Some(r)
            &&& e.op matches LlvmOp::Constant(c) && c.width == 32 && c.unsigned() == (if value
                >= 0 {
                value as int
            } else {
                value + 0x100000000
            })
        }),
{
    vstd::arithmetic::power2::lemma2_to64();
    let before = *old(rewriter);
    let after = *final(rewriter);
    lemma_emitted(before);
    lemma_emitted(after);
    lemma_inserted(before, after, (after.emitted@.len() - before.emitted@.len()) as nat);
    lemma_same_module(before, after);
}

/// A constant of 64 bits is the number where that is not negative, and what it lacks to
/// a full turn where it is.
pub proof fn constant_double_words_hold_their_number(rewriter: &mut Rewriter, value: i64, r: LowValue)
    requires
        call_ensures(create_i64_const, (rewriter, value), r),
    ensures
        inserted(*old(rewriter), *final(rewriter), 1),
        same_module(*old(rewriter), *final(rewriter)),
        r == (LowValue { id: old(rewriter).next_value, ty: LowType::Integer { width: 64 } }),
        ({
            let e = final(rewriter).emitted@[old(rewriter).emitted@.len() as int];
            &&& e.result == Some(r)
            &&& e.op matches LlvmOp::Constant(c) && c.width == 64 && c.unsigned() == (if value
                >= 0 {
                value as int
            } else {
                value + 0x10000000000000000
            })
        }),
{
    vstd::arithmetic::power2::lemma2_to64();
    let before = *old(rewriter);
    let after = *final(rewriter);
    lemma_emitted(before);
    lemma_emitted(after);
    lemma_inserted(before, after, (after.emitted@.len() - before.emitted@.len()) as nat);
    lemma_same_module(before, after);
}

/// A boolean constant is one for true and zero for false, in one bit.
pub proof fn constant_booleans_hold_their_value(rewriter: &mut Rewriter, value: bool, r: LowValue)
    requires
        call_ensures(create_i1_const, (rewriter, value), r),
    ensures
        inserted(*old(rewriter), *final(rewriter), 1),
        same_module(*old(rewriter), *final(rewriter)),
        r == (LowValue { id: old(rewriter).next_value, ty: LowType::Integer { width: 1 } }),
        ({
            let e = final(rewriter).emitted@[old(rewriter).emitted@.len() as int];
            &&& e.result == Some(r)
            &&& e.op matches LlvmOp::Constant(c) && c.width == 1 && (c.unsigned() == 1 <==> value)
                && (c.unsigned() == 0 <==> !value)
        }),
{
    vstd::arithmetic::power2::lemma2_to64();
    let before = *old(rewriter);
    let after = *final(rewriter);
    lemma_emitted(before);
    lemma_emitted(after);
    lemma_inserted(before, after, (after.emitted@.len() - before.emitted@.len()) as nat);
    lemma_same_module(before, after);
}

/// The truncation of an integer to its lowest bit truncates that very integer to one bit.
pub proof fn truncations_keep_one_bit(rewriter: &mut Rewriter, value: LowValue, r: LowValue)
    requires
        call_ensures(trunc_to_i1, (rewriter, value), r),
    ensures
        inserted(*old(rewriter), *final(rewriter), 1),
        same_module(*old(rewriter), *final(rewriter)),
        r == (LowValue { id: old(rewriter).next_value, ty: LowType::Integer { width: 1 } }),
        ({
            let e = final(rewriter).emitted@[old(rewriter).emitted@.len() as int];
            e.op == (LlvmOp::Trunc { value, width: 1 }) && e.result == Some(r)
        }),
{
    let before = *old(rewriter);
    let after = *final(rewriter);
    lemma_emitted(before);
    lemma_emitted(after);
    lemma_inserted(before, after, (after.emitted@.len() - before.emitted@.len()) as nat);
    lemma_same_module(before, after);
}

}
