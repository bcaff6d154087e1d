//! Lowering of atomic operations.
//!
//! Loads, stores and fences become inline PTX, since the code generator takes no
//! atomic loads, stores or fences. The ordering of a read-modify-write is expressed
//! by fences around a relaxed operation:
//!
//! | Ordering | before               | after                |
//! |----------|----------------------|----------------------|
//! | Relaxed  |                      |                      |
//! | Acquire  |                      | acquire fence        |
//! | Release  | release fence        |                      |
//! | AcqRel   | release fence        | acquire fence        |
//! | SeqCst   | seq_cst fence        | seq_cst fence        |

use crate::lowering::inline_asm;
use crate::lowering::AsmKind;
use crate::lowering::Disposal;
use crate::lowering::EmittedView;
use crate::lowering::LlvmAtomicOrdering;
use crate::lowering::LlvmAtomicRmwKind;
use crate::lowering::LlvmOp;
use crate::lowering::LlvmOpView;
use crate::lowering::LlvmSyncScope;
use crate::lowering::LowType;
use crate::lowering::LowValue;
use crate::lowering::Rewriter;
use crate::lowering::RewriterView;
use crate::text::decimal;
use crate::text::push_decimal;
use vstd::prelude::*;

verus! {

broadcast use vstd::string::group_string_axioms;

/// Threads among which a device operation is atomic.
#[derive(Debug, Clone, Copy, PartialEq, Eq, Structural)]
pub enum AtomicScope {
    /// The device.
    Device,
    /// The block.
    Block,
    /// The system.
    System,
}

/// Memory ordering of a device operation.
#[derive(Debug, Clone, Copy, PartialEq, Eq, Structural)]
pub enum AtomicOrdering {
    /// No ordering.
    Relaxed,
    /// Acquire.
    Acquire,
    /// Release.
    Release,
    /// Acquire and release.
    AcqRel,
    /// Sequential consistency.
    SeqCst,
}

/// What a device read-modify-write does.
#[derive(Debug, Clone, Copy, PartialEq, Eq, Structural)]
pub enum AtomicRmwKind {
    /// Addition.
    Add,
    /// Subtraction.
    Sub,
    /// Bitwise and.
    And,
    /// Bitwise or.
    Or,
    /// Bitwise exclusive or.
    Xor,
    /// Exchange.
    Xchg,
    /// Signed minimum.
    Min,
    /// Signed maximum.
    Max,
    /// Unsigned minimum.
    UMin,
    /// Unsigned maximum.
    UMax,
    /// Floating-point addition.
    FAdd,
}

// ---------------------------------------------------------------------------
// Mappings
// ---------------------------------------------------------------------------

/// The LLVM scope of a scope.
pub open spec fn llvm_scope(scope: AtomicScope) -> LlvmSyncScope {
    match scope {
        AtomicScope::Device => LlvmSyncScope::Device,
        AtomicScope::Block => LlvmSyncScope::Block,
        AtomicScope::System => LlvmSyncScope::System,
    }
}

fn map_scope(scope: &AtomicScope) -> (r: LlvmSyncScope)
    ensures
        r == llvm_scope(*scope),
{
    match scope {
        AtomicScope::Device => LlvmSyncScope::Device,
        AtomicScope::Block => LlvmSyncScope::Block,
        AtomicScope::System => LlvmSyncScope::System,
    }
}

/// The LLVM ordering of an ordering.
pub open spec fn llvm_ordering(ordering: AtomicOrdering) -> LlvmAtomicOrdering {
    match ordering {
        AtomicOrdering::Relaxed => LlvmAtomicOrdering::Monotonic,
        AtomicOrdering::Acquire => LlvmAtomicOrdering::Acquire,
        AtomicOrdering::Release => LlvmAtomicOrdering::Release,
        AtomicOrdering::AcqRel => LlvmAtomicOrdering::AcqRel,
        AtomicOrdering::SeqCst => LlvmAtomicOrdering::SeqCst,
    }
}

fn map_ordering(ordering: &AtomicOrdering) -> (r: LlvmAtomicOrdering)
    ensures
        r == llvm_ordering(*ordering),
{
    match ordering {
        AtomicOrdering::Relaxed => LlvmAtomicOrdering::Monotonic,
        AtomicOrdering::Acquire => LlvmAtomicOrdering::Acquire,
        AtomicOrdering::Release => LlvmAtomicOrdering::Release,
        AtomicOrdering::AcqRel => LlvmAtomicOrdering::AcqRel,
        AtomicOrdering::SeqCst => LlvmAtomicOrdering::SeqCst,
    }
}

/// The LLVM operation of a read-modify-write.
pub open spec fn llvm_rmw_kind(kind: AtomicRmwKind) -> LlvmAtomicRmwKind {
    match kind {
        AtomicRmwKind::Add => LlvmAtomicRmwKind::Add,
        AtomicRmwKind::Sub => LlvmAtomicRmwKind::Sub,
        AtomicRmwKind::And => LlvmAtomicRmwKind::And,
        AtomicRmwKind::Or => LlvmAtomicRmwKind::Or,
        AtomicRmwKind::Xor => LlvmAtomicRmwKind::Xor,
        AtomicRmwKind::Xchg => LlvmAtomicRmwKind::Xchg,
        AtomicRmwKind::Min => LlvmAtomicRmwKind::Min,
        AtomicRmwKind::Max => LlvmAtomicRmwKind::Max,
        AtomicRmwKind::UMin => LlvmAtomicRmwKind::UMin,
        AtomicRmwKind::UMax => LlvmAtomicRmwKind::UMax,
        AtomicRmwKind::FAdd => LlvmAtomicRmwKind::FAdd,
    }
}

fn map_rmw_kind(kind: &AtomicRmwKind) -> (r: LlvmAtomicRmwKind)
    ensures
        r == llvm_rmw_kind(*kind),
{
    match kind {
        AtomicRmwKind::Add => LlvmAtomicRmwKind::Add,
        AtomicRmwKind::Sub => LlvmAtomicRmwKind::Sub,
        AtomicRmwKind::And => LlvmAtomicRmwKind::And,
        AtomicRmwKind::Or => LlvmAtomicRmwKind::Or,
        AtomicRmwKind::Xor => LlvmAtomicRmwKind::Xor,
        AtomicRmwKind::Xchg => LlvmAtomicRmwKind::Xchg,
        AtomicRmwKind::Min => LlvmAtomicRmwKind::Min,
        AtomicRmwKind::Max => LlvmAtomicRmwKind::Max,
        AtomicRmwKind::UMin => LlvmAtomicRmwKind::UMin,
        AtomicRmwKind::UMax => LlvmAtomicRmwKind::UMax,
        AtomicRmwKind::FAdd => LlvmAtomicRmwKind::FAdd,
    }
}

/// The PTX name of a scope.
pub open spec fn ptx_scope_text(scope: AtomicScope) -> Seq<char> {
    match scope {
        AtomicScope::Device => "gpu"@,
        AtomicScope::Block => "cta"@,
        AtomicScope::System => "sys"@,
    }
}

fn ptx_scope(scope: &AtomicScope) -> (r: &'static str)
    ensures
        r@ == ptx_scope_text(*scope),
{
    match scope {
        AtomicScope::Device => "gpu",
        AtomicScope::Block => "cta",
        AtomicScope::System => "sys",
    }
}

/// The PTX ordering of a load: the acquire side of `ordering`.
pub open spec fn ptx_load_text(ordering: AtomicOrdering) -> Seq<char> {
    match ordering {
        AtomicOrdering::Relaxed | AtomicOrdering::Release => "relaxed"@,
        _ => "acquire"@,
    }
}

fn ptx_load_sem(ordering: &AtomicOrdering) -> (r: &'static str)
    ensures
        r@ == ptx_load_text(*ordering),
{
    match ordering {
        AtomicOrdering::Relaxed | AtomicOrdering::Release => "relaxed",
        AtomicOrdering::Acquire | AtomicOrdering::AcqRel | AtomicOrdering::SeqCst => "acquire",
    }
}

/// The PTX ordering of a store: the release side of `ordering`.
pub open spec fn ptx_store_text(ordering: AtomicOrdering) -> Seq<char> {
    match ordering {
        AtomicOrdering::Relaxed | AtomicOrdering::Acquire => "relaxed"@,
        _ => "release"@,
    }
}

fn ptx_store_sem(ordering: &AtomicOrdering) -> (r: &'static str)
    ensures
        r@ == ptx_store_text(*ordering),
{
    match ordering {
        AtomicOrdering::Relaxed | AtomicOrdering::Acquire => "relaxed",
        AtomicOrdering::Release | AtomicOrdering::AcqRel | AtomicOrdering::SeqCst => "release",
    }
}

/// A load acquires exactly where its ordering has an acquire side, and a store releases
/// exactly where its ordering has a release side; otherwise each is relaxed. A load
/// never releases and a store never acquires.
pub proof fn loads_acquire_and_stores_release(ordering: AtomicOrdering)
    ensures
        ptx_load_text(ordering) == "acquire"@ <==> (ordering == AtomicOrdering::Acquire || ordering
            == AtomicOrdering::AcqRel || ordering == AtomicOrdering::SeqCst),
        ptx_load_text(ordering) != "acquire"@ ==> ptx_load_text(ordering) == "relaxed"@,
        ptx_load_text(ordering) != "release"@,
        ptx_store_text(ordering) == "release"@ <==> (ordering == AtomicOrdering::Release || ordering
            == AtomicOrdering::AcqRel || ordering == AtomicOrdering::SeqCst),
        ptx_store_text(ordering) != "release"@ ==> ptx_store_text(ordering) == "relaxed"@,
        ptx_store_text(ordering) != "acquire"@,
{
    reveal_strlit("acquire");
    reveal_strlit("relaxed");
    reveal_strlit("release");
    assert("acquire"@[0] == 'a' && "relaxed"@[0] == 'r' && "release"@[0] == 'r');
    assert("relaxed"@[3] == 'a' && "release"@[3] == 'e');
}

// ---------------------------------------------------------------------------
// Fences
// ---------------------------------------------------------------------------

/// The PTX of a fence.
pub open spec fn fence_text(ordering: LlvmAtomicOrdering, scope: LlvmSyncScope) -> Seq<char> {
    "fence."@ + (if ordering == LlvmAtomicOrdering::SeqCst {
        "sc"@
    } else {
        "acq_rel"@
    }) + "."@ + (match scope {
        LlvmSyncScope::Block => "cta"@,
        LlvmSyncScope::System => "sys"@,
        LlvmSyncScope::Device => "gpu"@,
    }) + ";"@
}

/// Inline PTX with side effects.
pub open spec fn side_effect_asm(
    template: Seq<char>,
    constraints: Seq<char>,
    inputs: Seq<LowValue>,
    result: LowType,
) -> LlvmOpView {
    LlvmOpView::InlineAsm { template, constraints, inputs, result, kind: AsmKind::SideEffect }
}

/// A fence.
pub open spec fn fence_op(ordering: LlvmAtomicOrdering, scope: LlvmSyncScope) -> LlvmOpView {
    side_effect_asm(fence_text(ordering, scope), ""@, seq![], LowType::Void)
}

fn emit_fence(rewriter: &mut Rewriter, ordering: LlvmAtomicOrdering, syncscope: LlvmSyncScope)
    requires
        old(rewriter)@.has_room(1),
    ensures
        final(rewriter)@ == old(rewriter)@.with_op(fence_op(ordering, syncscope)),
{
    let mut ptx = "fence.".to_owned();
    match ordering {
        LlvmAtomicOrdering::SeqCst => ptx.append("sc"),
        _ => ptx.append("acq_rel"),
    }
    ptx.append(".");
    match syncscope {
        LlvmSyncScope::Block => ptx.append("cta"),
        LlvmSyncScope::System => ptx.append("sys"),
        LlvmSyncScope::Device => ptx.append("gpu"),
    }
    ptx.append(";");
    let inputs: Vec<LowValue> = Vec::new();
    assert(inputs@ =~= seq![]);
    inline_asm(rewriter, LowType::Void, inputs, ptx.as_str(), "", AsmKind::SideEffect);
}

// ---------------------------------------------------------------------------
// Loads and stores
// ---------------------------------------------------------------------------

/// The PTX of a load.
pub open spec fn load_text(ordering: AtomicOrdering, scope: AtomicScope) -> Seq<char> {
    "ld."@ + ptx_load_text(ordering) + "."@ + ptx_scope_text(scope) + ".b32 $0, [$1];"@
}

/// Lowers an atomic load from its first operand. `result_ty` is the lowered type of
/// its result, or why there is none.
pub fn convert_atomic_load(
    rewriter: &mut Rewriter,
    operands: &Vec<LowValue>,
    ordering: AtomicOrdering,
    scope: AtomicScope,
    result_ty: Result<LowType, String>,
) -> (r: Result<(), String>)
    requires
        old(rewriter)@.has_room(1),
        operands@.len() >= 1,
    ensures
        match result_ty {
            Ok(ty) => r is Ok && final(rewriter)@ == old(rewriter)@.with_op(
                side_effect_asm(load_text(ordering, scope), "=r,l"@, seq![operands@[0]], ty),
            ).replaced_by_last(),
            Err(reason) => r == Err::<(), String>(reason) && final(rewriter)@ == old(rewriter)@,
        },
{
    let sem = ptx_load_sem(&ordering);
    let scope = ptx_scope(&scope);
    let ptr = operands[0];
    let ty = match result_ty {
        Ok(ty) => ty,
        Err(reason) => {
            return Err(reason);
        },
    };
    let mut ptx = "ld.".to_owned();
    ptx.append(sem);
    ptx.append(".");
    ptx.append(scope);
    ptx.append(".b32 $0, [$1];");
    let mut inputs: Vec<LowValue> = Vec::new();
    inputs.push(ptr);
    assert(inputs@ =~= seq![operands@[0]]);
    let at: usize = inline_asm(rewriter, ty, inputs, ptx.as_str(), "=r,l", AsmKind::SideEffect);
    rewriter.replace_operation(at);
    Ok(())
}

/// The PTX of a store.
pub open spec fn store_text(ordering: AtomicOrdering, scope: AtomicScope) -> Seq<char> {
    "st."@ + ptx_store_text(ordering) + "."@ + ptx_scope_text(scope) + ".b32 [$0], $1;"@
}

/// Lowers an atomic store of its first operand at its second.
pub fn convert_atomic_store(
    rewriter: &mut Rewriter,
    operands: &Vec<LowValue>,
    ordering: AtomicOrdering,
    scope: AtomicScope,
)
    requires
        old(rewriter)@.has_room(1),
        operands@.len() >= 2,
    ensures
        final(rewriter)@ == old(rewriter)@.with_op(
            side_effect_asm(
                store_text(ordering, scope),
                "l,r"@,
                seq![operands@[1], operands@[0]],
                LowType::Void,
            ),
        ).erased(),
{
    let sem = ptx_store_sem(&ordering);
    let scope = ptx_scope(&scope);
    let val = operands[0];
    let ptr = operands[1];
    let mut ptx = "st.".to_owned();
    ptx.append(sem);
    ptx.append(".");
    ptx.append(scope);
    ptx.append(".b32 [$0], $1;");
    let mut inputs: Vec<LowValue> = Vec::new();
    inputs.push(ptr);
    inputs.push(val);
    assert(inputs@ =~= seq![operands@[1], operands@[0]]);
    inline_asm(rewriter, LowType::Void, inputs, ptx.as_str(), "l,r", AsmKind::SideEffect);
    rewriter.erase_operation();
}

// ---------------------------------------------------------------------------
// Read-modify-write
// ---------------------------------------------------------------------------

/// The fence before a read-modify-write.
pub open spec fn fence_before(ordering: AtomicOrdering) -> Option<LlvmAtomicOrdering> {
    match ordering {
        AtomicOrdering::Release | AtomicOrdering::AcqRel => Some(LlvmAtomicOrdering::Release),
        AtomicOrdering::SeqCst => Some(LlvmAtomicOrdering::SeqCst),
        AtomicOrdering::Relaxed | AtomicOrdering::Acquire => None,
    }
}

/// The fence after a read-modify-write.
pub open spec fn fence_after(ordering: AtomicOrdering) -> Option<LlvmAtomicOrdering> {
    match ordering {
        AtomicOrdering::Acquire | AtomicOrdering::AcqRel => Some(LlvmAtomicOrdering::Acquire),
        AtomicOrdering::SeqCst => Some(LlvmAtomicOrdering::SeqCst),
        AtomicOrdering::Relaxed | AtomicOrdering::Release => None,
    }
}

/// The state after a fence, where there is one.
pub open spec fn fenced(
    v: RewriterView,
    fence: Option<LlvmAtomicOrdering>,
    scope: LlvmSyncScope,
) -> RewriterView {
    match fence {
        Some(ordering) => v.with_op(fence_op(ordering, scope)),
        None => v,
    }
}

/// The relaxed operation between the fences.
pub open spec fn rmw_op(
    operands: Seq<LowValue>,
    kind: AtomicRmwKind,
    scope: AtomicScope,
) -> LlvmOpView {
    LlvmOpView::AtomicRmw {
        ptr: operands[0],
        value: operands[1],
        action: llvm_rmw_kind(kind),
        ordering: LlvmAtomicOrdering::Monotonic,
        scope: llvm_scope(scope),
    }
}

/// The state after a read-modify-write was lowered.
pub open spec fn rmw_lowered(
    v: RewriterView,
    operands: Seq<LowValue>,
    kind: AtomicRmwKind,
    ordering: AtomicOrdering,
    scope: AtomicScope,
) -> RewriterView {
    let guarded = fenced(v, fence_before(ordering), llvm_scope(scope));
    let modified = guarded.with_op(rmw_op(operands, kind, scope));
    let done = fenced(modified, fence_after(ordering), llvm_scope(scope));
    RewriterView { disposal: Disposal::ReplacedBy(guarded.emitted.len() as usize), ..done }
}

/// Lowers an atomic read-modify-write at its first operand with its second.
pub fn convert_atomic_rmw(
    rewriter: &mut Rewriter,
    operands: &Vec<LowValue>,
    kind: AtomicRmwKind,
    ordering: AtomicOrdering,
    scope: AtomicScope,
)
    requires
        old(rewriter)@.has_room(3),
        operands@.len() >= 2,
    ensures
        final(rewriter)@ == rmw_lowered(old(rewriter)@, operands@, kind, ordering, scope),
{
    let syncscope = map_scope(&scope);
    let rmw_kind = map_rmw_kind(&kind);
    let ptr = operands[0];
    let val = operands[1];

    match ordering {
        AtomicOrdering::Release | AtomicOrdering::AcqRel => {
            emit_fence(rewriter, LlvmAtomicOrdering::Release, syncscope);
        },
        AtomicOrdering::SeqCst => {
            emit_fence(rewriter, LlvmAtomicOrdering::SeqCst, syncscope);
        },
        AtomicOrdering::Relaxed | AtomicOrdering::Acquire => {},
    }

    let at: usize = rewriter.insert_operation(
        LlvmOp::AtomicRmw {
            ptr,
            value: val,
            action: rmw_kind,
            ordering: LlvmAtomicOrdering::Monotonic,
            scope: syncscope,
        },
    );

    match ordering {
        AtomicOrdering::Acquire | AtomicOrdering::AcqRel => {
            emit_fence(rewriter, LlvmAtomicOrdering::Acquire, syncscope);
        },
        AtomicOrdering::SeqCst => {
            emit_fence(rewriter, LlvmAtomicOrdering::SeqCst, syncscope);
        },
        AtomicOrdering::Relaxed | AtomicOrdering::Release => {},
    }

    rewriter.replace_operation(at);
}

/// The operations that stand for a fence: one, or none.
pub open spec fn fence_list(
    fence: Option<LlvmAtomicOrdering>,
    scope: LlvmSyncScope,
) -> Seq<EmittedView> {
    match fence {
        Some(ordering) => seq![EmittedView { op: fence_op(ordering, scope), result: None }],
        None => seq![],
    }
}

/// A read-modify-write becomes one relaxed operation between the fences that its
/// ordering asks for, all in its scope; that operation takes its place.
pub proof fn fences_surround_the_relaxed_operation(
    v: RewriterView,
    operands: Seq<LowValue>,
    kind: AtomicRmwKind,
    ordering: AtomicOrdering,
    scope: AtomicScope,
)
    requires
        operands.len() >= 2,
        v.emitted.len() < usize::MAX,
    ensures
        ({
            let done = rmw_lowered(v, operands, kind, ordering, scope);
            let op = rmw_op(operands, kind, scope);
            let before = fence_list(fence_before(ordering), llvm_scope(scope));
            let after = fence_list(fence_after(ordering), llvm_scope(scope));
            &&& done.emitted == v.emitted + before + seq![
                EmittedView { op, result: v.result_of(op) },
            ] + after
            &&& done.disposal == Disposal::ReplacedBy((v.emitted.len() + before.len()) as usize)
        }),
{
    let done = rmw_lowered(v, operands, kind, ordering, scope);
    let op = rmw_op(operands, kind, scope);
    let before = fence_list(fence_before(ordering), llvm_scope(scope));
    let after = fence_list(fence_after(ordering), llvm_scope(scope));
    assert(done.emitted =~= v.emitted + before + seq![
        EmittedView { op, result: v.result_of(op) },
    ] + after);
}

/// A read-modify-write is fenced before it exactly where its ordering has a release
/// side, and after it exactly where its ordering has an acquire side.
pub proof fn orderings_decide_the_fences(ordering: AtomicOrdering)
    ensures
        fence_before(ordering) is Some <==> (ordering == AtomicOrdering::Release || ordering
            == AtomicOrdering::AcqRel || ordering == AtomicOrdering::SeqCst),
        fence_after(ordering) is Some <==> (ordering == AtomicOrdering::Acquire || ordering
            == AtomicOrdering::AcqRel || ordering == AtomicOrdering::SeqCst),
{
}

// ---------------------------------------------------------------------------
// Compare-and-exchange
// ---------------------------------------------------------------------------

/// The state after a compare-and-exchange was lowered: the loaded value is taken out
/// of the pair that the operation gives.
pub open spec fn cmpxchg_lowered(
    v: RewriterView,
    operands: Seq<LowValue>,
    success: AtomicOrdering,
    failure: AtomicOrdering,
    scope: AtomicScope,
) -> RewriterView {
    v.with_op(
        LlvmOpView::AtomicCmpxchg {
            ptr: operands[0],
            expected: operands[1],
            new_value: operands[2],
            success: llvm_ordering(success),
            failure: llvm_ordering(failure),
            scope: llvm_scope(scope),
        },
    ).with_op(
        LlvmOpView::ExtractValue {
            value: v.next_of_type(LowType::Exchanged),
            index: 0,
            ty: operands[1].ty,
        },
    ).replaced_by_last()
}

/// Lowers an atomic compare-and-exchange at its first operand: where the second is
/// there, the third takes its place.
pub fn convert_atomic_cmpxchg(
    rewriter: &mut Rewriter,
    operands: &Vec<LowValue>,
    success: AtomicOrdering,
    failure: AtomicOrdering,
    scope: AtomicScope,
)
    requires
        old(rewriter)@.has_room(2),
        operands@.len() >= 3,
    ensures
        final(rewriter)@ == cmpxchg_lowered(
            old(rewriter)@,
            operands@,
            success,
            failure,
            scope,
        ),
{
    let success_ord = map_ordering(&success);
    let failure_ord = map_ordering(&failure);
    let syncscope = map_scope(&scope);
    let exchanged = rewriter.insert_value(
        LlvmOp::AtomicCmpxchg {
            ptr: operands[0],
            expected: operands[1],
            new_value: operands[2],
            success: success_ord,
            failure: failure_ord,
            scope: syncscope,
        },
    );
    let at: usize = rewriter.insert_operation(
        LlvmOp::ExtractValue { value: exchanged, index: 0, ty: operands[1].ty },
    );
    rewriter.replace_operation(at);
}

// ---------------------------------------------------------------------------
// Packed addition
// ---------------------------------------------------------------------------

/// The PTX of a packed atomic addition.
pub open spec fn packed_add_text(ptx_type: Seq<char>) -> Seq<char> {
    "atom.global.add.noftz."@ + ptx_type + " $0, [$1], $2;"@
}

/// A packed atomic addition was lowered from `v` to `w` with this outcome.
pub open spec fn packed_add_lowered(
    v: RewriterView,
    w: RewriterView,
    operands: Seq<LowValue>,
    ptx_type: Seq<char>,
    r: Result<(), String>,
) -> bool {
    match r {
        Ok(_) => operands.len() == 2 && w == v.with_op(
            side_effect_asm(
                packed_add_text(ptx_type),
                "=r,l,r,~{memory}"@,
                operands,
                LowType::Integer { width: 32 },
            ),
        ).replaced_by_last(),
        Err(message) => operands.len() != 2 && w == v && message@
            == "packed atomic add requires 2 operands (address, addend), got "@ + decimal(
            operands.len(),
        ),
    }
}

fn convert_packed_atom_add(rewriter: &mut Rewriter, operands: &Vec<LowValue>, ptx_type: &str) -> (r:
    Result<(), String>)
    requires
        old(rewriter)@.has_room(1),
    ensures
        packed_add_lowered(old(rewriter)@, final(rewriter)@, operands@, ptx_type@, r),
{
    if operands.len() != 2 {
        let mut message =
            "packed atomic add requires 2 operands (address, addend), got ".to_owned();
        push_decimal(&mut message, operands.len() as u64);
        return Err(message);
    }
    let mut ptx = "atom.global.add.noftz.".to_owned();
    ptx.append(ptx_type);
    ptx.append(" $0, [$1], $2;");
    let mut inputs: Vec<LowValue> = Vec::new();
    inputs.push(operands[0]);
    inputs.push(operands[1]);
    assert(inputs@ =~= operands@);
    let at: usize = inline_asm(
        rewriter,
        LowType::Integer { width: 32 },
        inputs,
        ptx.as_str(),
        "=r,l,r,~{memory}",
        AsmKind::SideEffect,
    );
    rewriter.replace_operation(at);
    Ok(())
}

/// Lowers the atomic addition of two packed half-precision numbers.
pub fn convert_atom_add_f16x2(rewriter: &mut Rewriter, operands: &Vec<LowValue>) -> (r: Result<
    (),
    String,
>)
    requires
        old(rewriter)@.has_room(1),
    ensures
        packed_add_lowered(old(rewriter)@, final(rewriter)@, operands@, "f16x2"@, r),
{
    convert_packed_atom_add(rewriter, operands, "f16x2")
}

/// Lowers the atomic addition of two packed brain floats.
pub fn convert_atom_add_bf16x2(rewriter: &mut Rewriter, operands: &Vec<LowValue>) -> (r: Result<
    (),
    String,
>)
    requires
        old(rewriter)@.has_room(1),
    ensures
        packed_add_lowered(old(rewriter)@, final(rewriter)@, operands@, "bf16x2"@, r),
{
    convert_packed_atom_add(rewriter, operands, "bf16x2")
}

}
