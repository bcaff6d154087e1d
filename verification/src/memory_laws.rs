//! What memory operations give back of what they were created with.

use crate::ir::TypeKind;
use crate::ir::Value;
use crate::memory_ops::op_alignment;
use crate::memory_ops::set_op_alignment;
use crate::memory_ops::AllocaOp;
use crate::memory_ops::AllocaOpVerifyErr;
use crate::memory_ops::GepIndex;
use crate::memory_ops::GetElementPtrOp;
use crate::memory_ops::GetElementPtrOpErr;
use crate::memory_ops::LoadOp;
use crate::memory_ops::LoadOpVerifyErr;
use crate::memory_ops::StoreOp;
use crate::memory_ops::StoreOpVerifyErr;
use crate::op_arena::OpArena;
use vstd::prelude::*;

verus! {

broadcast use vstd::string::group_string_axioms;

/// `after` is `before` with one operation more, at the end, under this name.
pub open spec fn one_more(before: OpArena, after: OpArena, op: usize, name: Seq<char>) -> bool {
    &&& op == before.ops@.len()
    &&& after.ops@.len() == before.ops@.len() + 1
    &&& forall|i: int| 0 <= i < before.ops@.len() ==> #[trigger] after.ops@[i] == before.ops@[i]
    &&& after.ops@[op as int].name@ == name
}

/// The operation has one result, the next value, of this type.
pub open spec fn results_in(before: OpArena, after: OpArena, op: usize, ty: usize) -> bool {
    &&& after.ops@[op as int].results@.len() == 1
    &&& after.ops@[op as int].results@[0].id == before.next_value
    &&& after.ops@[op as int].results@[0].ty == ty
    &&& after.next_value == before.next_value + 1
}

/// `ty` is the pointer type of an address space.
pub open spec fn is_pointer(ir: OpArena, ty: usize, space: u32) -> bool {
    ty < ir.types@.len() && ir.types@[ty as int] == (TypeKind::Pointer { address_space: space })
}

proof fn lemma_one_more(
    before: OpArena,
    after: OpArena,
    op: usize,
    name: Seq<char>,
    operands: Seq<Value>,
    result: Option<usize>,
)
    requires
        crate::memory_ops::appended(before, after, op, name, operands, result),
    ensures
        one_more(before, after, op, name),
        result matches Some(ty) ==> results_in(before, after, op, ty),
        result is None ==> after.ops@[op as int].results@.len() == 0 && after.next_value
            == before.next_value,
        after.ops@[op as int].operands@ == operands,
{
    assert forall|i: int| 0 <= i < before.ops@.len() implies #[trigger] after.ops@[i]
        == before.ops@[i] by {
        assert(after.ops@.take(op as int)[i] == before.ops@[i]);
    }
}

proof fn lemma_pointer(types: Seq<TypeKind>, space: u32, i: nat)
    requires
        i <= types.len(),
    ensures
        ({
            let at = crate::op_arena::pointer_position(types, space, i);
            i <= at <= types.len() && (at < types.len() ==> types[at as int] == (
            TypeKind::Pointer { address_space: space }))
        }),
    decreases types.len() - i,
{
    if i < types.len() && types[i as int] != (TypeKind::Pointer { address_space: space }) {
        lemma_pointer(types, space, i + 1);
    }
}

/// A store keeps its value and its address apart: it gives back the value that it was
/// created with as its value and the address as its address. It has no result.
pub proof fn stores_give_back_value_and_address(
    ir: &mut OpArena,
    value: Value,
    ptr: Value,
    op: StoreOp,
    stored: Value,
    address: Value,
)
    requires
        call_ensures(StoreOp::new, (ir, value, ptr), op),
        call_ensures(StoreOp::value_opd, (&op, final(ir)), stored),
        call_ensures(StoreOp::address_opd, (&op, final(ir)), address),
    ensures
        one_more(*old(ir), *final(ir), op.op, "llvm.store"@),
        final(ir).ops@[op.op as int].results@.len() == 0,
        final(ir).ops@[op.op as int].operands@.len() == 2,
        stored == value,
        address == ptr,
{
    lemma_one_more(*old(ir), *final(ir), op.op, "llvm.store"@, seq![value, ptr], None);
}

/// A load reads at the pointer that it was created with and gives a value of the type that
/// was asked for.
pub proof fn loads_read_at_their_pointer(ir: &mut OpArena, ptr: Value, ty: usize, op: LoadOp)
    requires
        call_ensures(LoadOp::new, (ir, ptr, ty), op),
    ensures
        one_more(*old(ir), *final(ir), op.op, "llvm.load"@),
        final(ir).ops@[op.op as int].operands@ == seq![ptr],
        results_in(*old(ir), *final(ir), op.op, ty),
{
    lemma_one_more(*old(ir), *final(ir), op.op, "llvm.load"@, seq![ptr], Some(ty));
}

/// An allocation of a number of elements gives a generic pointer to elements of the type
/// that it was created with.
pub proof fn allocations_point_to_their_elements(
    ir: &mut OpArena,
    elem: usize,
    size: Value,
    op: AllocaOp,
    pointee: usize,
)
    requires
        old(ir).types@.len() < usize::MAX,
        call_ensures(AllocaOp::new, (ir, elem, size), op),
        call_ensures(AllocaOp::result_pointee_type, (&op, final(ir)), pointee),
    ensures
        one_more(*old(ir), *final(ir), op.op, "llvm.alloca"@),
        final(ir).ops@[op.op as int].operands@ == seq![size],
        pointee == elem,
        ({
            let ty = final(ir).ops@[op.op as int].results@[0].ty;
            results_in(*old(ir), *final(ir), op.op, ty) && is_pointer(*final(ir), ty, 0)
        }),
{
    let at = crate::op_arena::pointer_position(old(ir).types@, 0, 0);
    lemma_pointer(old(ir).types@, 0, 0);
    lemma_one_more(
        *old(ir),
        *final(ir),
        op.op,
        "llvm.alloca"@,
        seq![size],
        Some(at as usize),
    );
}

/// An address computation gives back the base, the element type and the indices that it was
/// created with, and its result is a pointer in the address space of the base.
pub proof fn address_computations_give_back_their_indices(
    ir: &mut OpArena,
    base: Value,
    indices: Vec<GepIndex>,
    elem: usize,
    op: GetElementPtrOp,
    pointer: Value,
    source: usize,
    read: Vec<GepIndex>,
)
    requires
        old(ir).types@.len() < usize::MAX,
        base.ty < old(ir).types@.len(),
        indices@.len() < usize::MAX,
        call_ensures(
            GetElementPtrOp::new,
            (ir, base, indices, elem),
            Ok::<GetElementPtrOp, GetElementPtrOpErr>(op),
        ),
        call_ensures(GetElementPtrOp::src_ptr, (&op, final(ir)), pointer),
        call_ensures(GetElementPtrOp::src_elem_type, (&op, final(ir)), source),
        call_ensures(GetElementPtrOp::indices, (&op, final(ir)), read),
    ensures
        one_more(*old(ir), *final(ir), op.op, "llvm.gep"@),
        pointer == base,
        source == elem,
        read@ == indices@,
        ({
            let ty = final(ir).ops@[op.op as int].results@[0].ty;
            let space = match old(ir).types@[base.ty as int] {
                TypeKind::Pointer { address_space } => address_space,
                _ => 0,
            };
            results_in(*old(ir), *final(ir), op.op, ty) && is_pointer(*final(ir), ty, space)
        }),
{
    let space = crate::memory_ops::space_of(old(ir).types@, base);
    let at = crate::op_arena::pointer_position(old(ir).types@, space, 0);
    lemma_pointer(old(ir).types@, space, 0);
    let operands = crate::memory_ops::gep_operands(base, indices@, indices@.len());
    lemma_one_more(*old(ir), *final(ir), op.op, "llvm.gep"@, operands, Some(at as usize));
    lemma_base(base, indices@, indices@.len());
}

proof fn lemma_base(base: Value, indices: Seq<GepIndex>, n: nat)
    requires
        n <= indices.len(),
    ensures
        crate::memory_ops::gep_operands(base, indices, n).len() > 0,
        crate::memory_ops::gep_operands(base, indices, n)[0] == base,
    decreases n,
{
    if n > 0 {
        lemma_base(base, indices, (n - 1) as nat);
    }
}

/// The indices behind the first lead into a type step by step: with no more than the first
/// index the type is the element type itself.
pub proof fn first_indices_step_over_the_base(
    ir: OpArena,
    ty: usize,
    indices: Vec<GepIndex>,
    r: Result<usize, GetElementPtrOpErr>,
)
    requires
        indices@.len() <= 1,
        call_ensures(GetElementPtrOp::indexed_type, (&ir, ty, &indices), r),
    ensures
        r == Ok::<usize, GetElementPtrOpErr>(ty),
{
}

/// The second index selects a field of a structure, where it is a constant within its
/// fields, or an element of an array, and the rest leads on from there; anything else has
/// nothing to select.
pub proof fn indices_select_one_after_the_other(
    ir: OpArena,
    ty: usize,
    indices: Vec<GepIndex>,
    r: Result<usize, GetElementPtrOpErr>,
    inner: usize,
    rest: Vec<GepIndex>,
    next: Result<usize, GetElementPtrOpErr>,
)
    requires
        indices@.len() >= 2,
        call_ensures(GetElementPtrOp::indexed_type, (&ir, ty, &indices), r),
        rest@ == indices@.remove(1),
        call_ensures(GetElementPtrOp::indexed_type, (&ir, inner, &rest), next),
    ensures
        match ir.types@[ty as int] {
            TypeKind::Struct { fields } => match indices@[1] {
                GepIndex::Constant(c) => if c < fields@.len() {
                    inner == fields@[c as int] ==> r == next
                } else {
                    r == Err::<usize, GetElementPtrOpErr>(GetElementPtrOpErr::IndicesErr)
                },
                GepIndex::Value(_) => r == Err::<usize, GetElementPtrOpErr>(
                    GetElementPtrOpErr::IndicesErr,
                ),
            },
            TypeKind::Array { elem, size } => inner == elem ==> r == next,
            _ => r == Err::<usize, GetElementPtrOpErr>(GetElementPtrOpErr::IndicesErr),
        },
{
    lemma_shift(ir.types@, inner, indices@, rest@, 2);
}

proof fn lemma_shift(
    types: Seq<TypeKind>,
    ty: usize,
    indices: Seq<GepIndex>,
    rest: Seq<GepIndex>,
    i: nat,
)
    requires
        indices.len() >= 2,
        rest == indices.remove(1),
        2 <= i <= indices.len(),
    ensures
        crate::memory_ops::indexed_from(types, ty, indices, i) == crate::memory_ops::indexed_from(
            types,
            ty,
            rest,
            (i - 1) as nat,
        ),
    decreases indices.len() - i,
{
    if i < indices.len() {
        assert(rest[i - 1] == indices[i as int]);
        match types[ty as int] {
            TypeKind::Struct { fields } => {
                if let GepIndex::Constant(c) = indices[i as int] {
                    if c < fields@.len() {
                        lemma_shift(types, fields@[c as int], indices, rest, i + 1);
                    }
                }
            },
            TypeKind::Array { elem, size } => {
                lemma_shift(types, elem, indices, rest, i + 1);
            },
            _ => {},
        }
    }
}

/// An alignment that was given to an operation is read back from it, and from no other.
pub proof fn alignments_are_read_back(
    ir: &mut OpArena,
    op: usize,
    align: u32,
    other: usize,
    r: Option<u32>,
    before: Option<u32>,
)
    requires
        op < old(ir).ops@.len(),
        other < old(ir).ops@.len(),
        call_ensures(op_alignment, (&*old(ir), other), before),
        call_ensures(set_op_alignment, (ir, op, align), ()),
        call_ensures(op_alignment, (final(ir), other), r),
    ensures
        other == op ==> r == Some(align),
        other != op ==> r == before,
        final(ir).ops@[op as int].operands == old(ir).ops@[op as int].operands,
        final(ir).ops@[op as int].results == old(ir).ops@[op as int].results,
{
}

/// A load is well formed exactly where it reads at a pointer, and a store exactly where its
/// second operand is one.
pub proof fn accesses_take_pointers(
    ir: OpArena,
    load: LoadOp,
    loaded: Result<(), LoadOpVerifyErr>,
    store: StoreOp,
    stored: Result<(), StoreOpVerifyErr>,
)
    requires
        call_ensures(LoadOp::verify, (&load, &ir), loaded),
        call_ensures(StoreOp::verify, (&store, &ir), stored),
    ensures
        loaded is Ok <==> ir.types@[ir.ops@[load.op as int].operands@[0].ty as int] is Pointer,
        stored is Ok <==> ir.types@[ir.ops@[store.op as int].operands@[1].ty as int] is Pointer,
{
}

/// An allocation is well formed exactly where the number of elements is an integer and their
/// type is given.
pub proof fn allocations_count_in_integers(
    ir: OpArena,
    op: AllocaOp,
    r: Result<(), AllocaOpVerifyErr>,
)
    requires
        call_ensures(AllocaOp::verify, (&op, &ir), r),
    ensures
        ({
            let this = ir.ops@[op.op as int];
            let counted = ir.types@[this.operands@[0].ty as int] is Integer;
            let typed = this.attributes.lookup("alloca_element_type"@) matches Some(
                crate::ir::AttrObj::Type(_),
            );
            &&& r is Ok <==> counted && typed
            &&& !counted ==> r == Err::<(), AllocaOpVerifyErr>(AllocaOpVerifyErr::OperandType)
            &&& counted && !typed ==> r == Err::<(), AllocaOpVerifyErr>(
                AllocaOpVerifyErr::ElemTypeAttr,
            )
        }),
{
}

}
