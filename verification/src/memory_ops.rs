//! Memory operations: allocation, load, store and address computation.

use crate::identifier::try_identifier;
use crate::ir::AttrObj;
use crate::ir::AttributeDict;
use crate::ir::GepIndexAttr;
use crate::ir::TypeKind;
use crate::ir::Value;
use crate::op_arena::fixed;
use crate::op_arena::fixed_info;
use crate::op_arena::fresh_results;
use crate::op_arena::pointer_position;
use crate::op_arena::OpArena;
use crate::op_arena::OpInfo;
use crate::op_arena::OpInfoView;
use crate::op_arena::OpRegistry;
use vstd::prelude::*;

verus! {

broadcast use vstd::string::group_string_axioms;

// ---------------------------------------------------------------------------
// Alignment
// ---------------------------------------------------------------------------

/// The attribute key of an alignment.
pub fn alignment_attr_key() -> (r: String)
    ensures
        r@ == "llvm_alignment"@,
{
    proof {
        reveal_strlit("llvm_alignment");
        assert(crate::identifier::is_identifier("llvm_alignment"@));
    }
    try_identifier("llvm_alignment".to_owned()).unwrap()
}

/// The alignment of the operation at `op`, where it states one.
pub open spec fn alignment_of(ir: OpArena, op: usize) -> Option<u32> {
    match ir.ops@[op as int].attributes.lookup("llvm_alignment"@) {
        Some(AttrObj::Alignment(align)) => Some(align),
        _ => None,
    }
}

/// Gives the operation at `op` an alignment in bytes.
pub fn set_op_alignment(ir: &mut OpArena, op: usize, align: u32)
    requires
        old(ir).has_op(op),
    ensures
        alignment_of(*final(ir), op) == Some(align),
        final(ir).types == old(ir).types,
        final(ir).next_value == old(ir).next_value,
        final(ir).ops@.len() == old(ir).ops@.len(),
        forall|i: int|
            0 <= i < old(ir).ops@.len() && i != op ==> #[trigger] final(ir).ops@[i] == old(
                ir,
            ).ops@[i],
        final(ir).ops@[op as int].name == old(ir).ops@[op as int].name,
        final(ir).ops@[op as int].operands == old(ir).ops@[op as int].operands,
        final(ir).ops@[op as int].results == old(ir).ops@[op as int].results,
        forall|key: Seq<char>|
            key != "llvm_alignment"@ ==> #[trigger] final(ir).ops@[op as int].attributes.lookup(key)
                == old(ir).ops@[op as int].attributes.lookup(key),
{
    let key = alignment_attr_key();
    ir.ops[op].attributes.set(key.as_str(), AttrObj::Alignment(align));
}

/// The alignment of the operation at `op`, where it states one.
pub fn op_alignment(ir: &OpArena, op: usize) -> (r: Option<u32>)
    requires
        ir.has_op(op),
    ensures
        r == alignment_of(*ir, op),
{
    let key = alignment_attr_key();
    match ir.ops[op].attributes.get(key.as_str()) {
        Some(AttrObj::Alignment(align)) => Some(*align),
        _ => None,
    }
}

// ---------------------------------------------------------------------------
// Allocation
// ---------------------------------------------------------------------------

/// Why an [`AllocaOp`] is malformed.
#[derive(Debug, Clone, Copy, PartialEq, Eq, Structural)]
pub enum AllocaOpVerifyErr {
    /// The operand is no integer.
    OperandType,
    /// The element type is missing.
    ElemTypeAttr,
}

impl AllocaOpVerifyErr {
    /// The message of the error.
    pub open spec fn text(self) -> Seq<char> {
        match self {
            AllocaOpVerifyErr::OperandType => "Operand must be a signless integer"@,
            AllocaOpVerifyErr::ElemTypeAttr => {
                "Missing or incorrect type of attribute for element type"@
            },
        }
    }

    /// The message of the error.
    pub fn message(&self) -> (r: String)
        ensures
            r@ == self.text(),
    {
        match self {
            AllocaOpVerifyErr::OperandType => "Operand must be a signless integer".to_owned(),
            AllocaOpVerifyErr::ElemTypeAttr => {
                "Missing or incorrect type of attribute for element type".to_owned()
            },
        }
    }
}

/// Stack allocation of a number of elements.
#[derive(Debug, Clone, Copy, PartialEq, Eq, Structural)]
pub struct AllocaOp {
    /// The operation.
    pub op: usize,
}

/// The type under an attribute key.
pub open spec fn type_attr(attributes: AttributeDict, key: Seq<char>) -> Option<usize> {
    match attributes.lookup(key) {
        Some(AttrObj::Type(ty)) => Some(ty),
        _ => None,
    }
}

fn get_type_attr(attributes: &AttributeDict, key: &str) -> (r: Option<usize>)
    ensures
        r == type_attr(*attributes, key@),
{
    match attributes.get(key) {
        Some(AttrObj::Type(ty)) => Some(*ty),
        _ => None,
    }
}

/// The operation at `op` is new: everything that was there before it is unchanged
/// and it has this name, these operands and a result of type `result`.
pub open spec fn appended(
    before: OpArena,
    after: OpArena,
    op: usize,
    name: Seq<char>,
    operands: Seq<Value>,
    result: Option<usize>,
) -> bool {
    &&& op == before.ops@.len()
    &&& after.ops@.len() == before.ops@.len() + 1
    &&& after.ops@.take(op as int) == before.ops@
    &&& after.ops@[op as int].name@ == name
    &&& after.ops@[op as int].operands@ == operands
    &&& after.ops@[op as int].results@ == fresh_results(before.next_value, result)
    &&& after.next_value == before.next_value + fresh_results(before.next_value, result).len()
}

/// The operation at `op` carries no attribute besides those under `keys`.
pub open spec fn carries_only(ir: OpArena, op: usize, keys: Seq<Seq<char>>) -> bool {
    forall|key: Seq<char>|
        !keys.contains(key) ==> (#[trigger] ir.ops@[op as int].attributes.lookup(key)) is None
}

/// The types of an arena once a pointer type is in it.
pub open spec fn with_pointer(types: Seq<TypeKind>, address_space: u32) -> Seq<TypeKind> {
    if pointer_position(types, address_space, 0) < types.len() {
        types
    } else {
        types.push(TypeKind::Pointer { address_space })
    }
}

impl AllocaOp {
    /// Creates an allocation of `size` elements of `elem_type`. Its result is a
    /// generic pointer.
    pub fn new(ir: &mut OpArena, elem_type: usize, size: Value) -> (r: AllocaOp)
        requires
            old(ir).next_value < u64::MAX,
        ensures
            appended(
                *old(ir),
                *final(ir),
                r.op,
                "llvm.alloca"@,
                seq![size],
                Some(pointer_position(old(ir).types@, 0, 0) as usize),
            ),
            final(ir).types@ == with_pointer(old(ir).types@, 0),
            type_attr(final(ir).ops@[r.op as int].attributes, "alloca_element_type"@) == Some(
                elem_type,
            ),
            carries_only(*final(ir), r.op, seq!["alloca_element_type"@]),
    {
        let ptr_ty: usize = ir.pointer_type(0);
        let mut operands: Vec<Value> = Vec::new();
        operands.push(size);
        let mut attributes = AttributeDict::new();
        attributes.set("alloca_element_type", AttrObj::Type(elem_type));
        let op: usize = ir.create("llvm.alloca", Some(ptr_ty), operands, attributes);
        assert(operands@ =~= seq![size]);
        assert(seq!["alloca_element_type"@][0] == "alloca_element_type"@);
        AllocaOp { op }
    }

    /// What the dialect records of the operation.
    pub fn op_info() -> (r: OpInfo)
        ensures
            r@ == fixed("llvm.alloca"@, 1, 1),
    {
        fixed_info("llvm.alloca", 1, 1)
    }

    /// Why the operation is malformed.
    pub open spec fn failure(self, ir: OpArena) -> Option<AllocaOpVerifyErr> {
        let op = ir.ops@[self.op as int];
        if !(ir.types@[op.operands@[0].ty as int] is Integer) {
            Some(AllocaOpVerifyErr::OperandType)
        } else if type_attr(op.attributes, "alloca_element_type"@) is None {
            Some(AllocaOpVerifyErr::ElemTypeAttr)
        } else {
            None
        }
    }

    /// Fails where the operation is malformed.
    pub fn verify(&self, ir: &OpArena) -> (r: Result<(), AllocaOpVerifyErr>)
        requires
            ir.wf_op(self.op),
            ir.ops@[self.op as int].operands@.len() > 0,
        ensures
            match r {
                Ok(_) => self.failure(*ir) is None,
                Err(error) => self.failure(*ir) == Some(error),
            },
    {
        let op = &ir.ops[self.op];
        match &ir.types[op.operands[0].ty] {
            TypeKind::Integer { .. } => {},
            _ => {
                return Err(AllocaOpVerifyErr::OperandType);
            },
        }
        if get_type_attr(&op.attributes, "alloca_element_type").is_none() {
            return Err(AllocaOpVerifyErr::ElemTypeAttr);
        }
        Ok(())
    }

    /// What the result points to.
    pub fn result_pointee_type(&self, ir: &OpArena) -> (r: usize)
        requires
            ir.has_op(self.op),
            type_attr(ir.ops@[self.op as int].attributes, "alloca_element_type"@) is Some,
        ensures
            type_attr(ir.ops@[self.op as int].attributes, "alloca_element_type"@) == Some(r),
    {
        get_type_attr(&ir.ops[self.op].attributes, "alloca_element_type").unwrap()
    }
}

// ---------------------------------------------------------------------------
// Load
// ---------------------------------------------------------------------------

/// Why a [`LoadOp`] is malformed.
#[derive(Debug, Clone, Copy, PartialEq, Eq, Structural)]
pub enum LoadOpVerifyErr {
    /// The operand is no pointer.
    OperandTypeErr,
}

impl LoadOpVerifyErr {
    /// The message of the error.
    pub fn message(&self) -> (r: String)
        ensures
            r@ == "Load operand must be a pointer"@,
    {
        "Load operand must be a pointer".to_owned()
    }
}

/// A load from memory.
#[derive(Debug, Clone, Copy, PartialEq, Eq, Structural)]
pub struct LoadOp {
    /// The operation.
    pub op: usize,
}

impl LoadOp {
    /// Creates a load of a value of type `res_ty`.
    pub fn new(ir: &mut OpArena, ptr: Value, res_ty: usize) -> (r: LoadOp)
        requires
            old(ir).next_value < u64::MAX,
        ensures
            appended(*old(ir), *final(ir), r.op, "llvm.load"@, seq![ptr], Some(res_ty)),
            final(ir).types == old(ir).types,
            carries_only(*final(ir), r.op, seq![]),
    {
        let mut operands: Vec<Value> = Vec::new();
        operands.push(ptr);
        let op: usize = ir.create("llvm.load", Some(res_ty), operands, AttributeDict::new());
        assert(operands@ =~= seq![ptr]);
        LoadOp { op }
    }

    /// What the dialect records of the operation.
    pub fn op_info() -> (r: OpInfo)
        ensures
            r@ == fixed("llvm.load"@, 1, 1),
    {
        fixed_info("llvm.load", 1, 1)
    }

    /// Fails where the operand is no pointer.
    pub fn verify(&self, ir: &OpArena) -> (r: Result<(), LoadOpVerifyErr>)
        requires
            ir.wf_op(self.op),
            ir.ops@[self.op as int].operands@.len() > 0,
        ensures
            r is Ok <==> ir.types@[ir.ops@[self.op as int].operands@[0].ty as int] is Pointer,
    {
        match &ir.types[ir.ops[self.op].operands[0].ty] {
            TypeKind::Pointer { .. } => Ok(()),
            _ => Err(LoadOpVerifyErr::OperandTypeErr),
        }
    }
}

// ---------------------------------------------------------------------------
// Store
// ---------------------------------------------------------------------------

/// Why a [`StoreOp`] is malformed.
#[derive(Debug, Clone, Copy, PartialEq, Eq, Structural)]
pub enum StoreOpVerifyErr {
    /// It does not have two operands.
    NumOpdsErr,
    /// The address is no pointer.
    AddrOpdTypeErr,
}

impl StoreOpVerifyErr {
    /// The message of the error.
    pub open spec fn text(self) -> Seq<char> {
        match self {
            StoreOpVerifyErr::NumOpdsErr => "Store operand must have two operands"@,
            StoreOpVerifyErr::AddrOpdTypeErr => {
                "Store operand must have a pointer as its second argument"@
            },
        }
    }

    /// The message of the error.
    pub fn message(&self) -> (r: String)
        ensures
            r@ == self.text(),
    {
        match self {
            StoreOpVerifyErr::NumOpdsErr => "Store operand must have two operands".to_owned(),
            StoreOpVerifyErr::AddrOpdTypeErr => {
                "Store operand must have a pointer as its second argument".to_owned()
            },
        }
    }
}

/// A store to memory.
#[derive(Debug, Clone, Copy, PartialEq, Eq, Structural)]
pub struct StoreOp {
    /// The operation.
    pub op: usize,
}

impl StoreOp {
    /// Creates a store of `value` at `ptr`.
    pub fn new(ir: &mut OpArena, value: Value, ptr: Value) -> (r: StoreOp)
        requires
            old(ir).next_value < u64::MAX,
        ensures
            appended(*old(ir), *final(ir), r.op, "llvm.store"@, seq![value, ptr], None),
            final(ir).types == old(ir).types,
            carries_only(*final(ir), r.op, seq![]),
    {
        let mut operands: Vec<Value> = Vec::new();
        operands.push(value);
        operands.push(ptr);
        let op: usize = ir.create("llvm.store", None, operands, AttributeDict::new());
        assert(operands@ =~= seq![value, ptr]);
        StoreOp { op }
    }

    /// What the dialect records of the operation.
    pub fn op_info() -> (r: OpInfo)
        ensures
            r@ == fixed("llvm.store"@, 2, 0),
    {
        fixed_info("llvm.store", 2, 0)
    }

    /// The stored value.
    pub fn value_opd(&self, ir: &OpArena) -> (r: Value)
        requires
            ir.has_op(self.op),
            ir.ops@[self.op as int].operands@.len() > 0,
        ensures
            r == ir.ops@[self.op as int].operands@[0],
    {
        ir.ops[self.op].operands[0]
    }

    /// The address.
    pub fn address_opd(&self, ir: &OpArena) -> (r: Value)
        requires
            ir.has_op(self.op),
            ir.ops@[self.op as int].operands@.len() > 1,
        ensures
            r == ir.ops@[self.op as int].operands@[1],
    {
        ir.ops[self.op].operands[1]
    }

    /// Fails where the address is no pointer.
    pub fn verify(&self, ir: &OpArena) -> (r: Result<(), StoreOpVerifyErr>)
        requires
            ir.wf_op(self.op),
            ir.ops@[self.op as int].operands@.len() > 1,
        ensures
            match r {
                Ok(_) => ir.types@[ir.ops@[self.op as int].operands@[1].ty as int] is Pointer,
                Err(error) => error == StoreOpVerifyErr::AddrOpdTypeErr
                    && !(ir.types@[ir.ops@[self.op as int].operands@[1].ty as int] is Pointer),
            },
    {
        match &ir.types[ir.ops[self.op].operands[1].ty] {
            TypeKind::Pointer { .. } => Ok(()),
            _ => Err(StoreOpVerifyErr::AddrOpdTypeErr),
        }
    }
}

// ---------------------------------------------------------------------------
// Address computation
// ---------------------------------------------------------------------------

/// An index of an address computation.
#[derive(Debug, Clone, Copy, PartialEq, Eq, Structural)]
pub enum GepIndex {
    /// A constant.
    Constant(u32),
    /// A value.
    Value(Value),
}

/// Why a [`GetElementPtrOp`] is malformed.
#[derive(Debug, Clone, Copy, PartialEq, Eq, Structural)]
pub enum GetElementPtrOpErr {
    /// The indices are missing.
    IndicesAttrErr,
    /// The indices do not fit the type.
    IndicesErr,
}

impl GetElementPtrOpErr {
    /// The message of the error.
    pub open spec fn text(self) -> Seq<char> {
        match self {
            GetElementPtrOpErr::IndicesAttrErr => {
                "GetElementPtrOp has no or incorrect indices attribute"@
            },
            GetElementPtrOpErr::IndicesErr => {
                "The indices on this GEP are invalid for its source element type"@
            },
        }
    }

    /// The message of the error.
    pub fn message(&self) -> (r: String)
        ensures
            r@ == self.text(),
    {
        match self {
            GetElementPtrOpErr::IndicesAttrErr => {
                "GetElementPtrOp has no or incorrect indices attribute".to_owned()
            },
            GetElementPtrOpErr::IndicesErr => {
                "The indices on this GEP are invalid for its source element type".to_owned()
            },
        }
    }
}

/// Computation of the address of an element inside nested aggregates.
#[derive(Debug, Clone, Copy, PartialEq, Eq, Structural)]
pub struct GetElementPtrOp {
    /// The operation.
    pub op: usize,
}

/// The type that the indices from the `i`-th on lead to from `ty`: a constant index
/// selects a field of a structure, any index an element of an array.
pub open spec fn indexed_from(
    types: Seq<TypeKind>,
    ty: usize,
    indices: Seq<GepIndex>,
    i: nat,
) -> Option<usize>
    decreases indices.len() - i,
{
    if i >= indices.len() {
        Some(ty)
    } else {
        match types[ty as int] {
            TypeKind::Struct { fields } => match indices[i as int] {
                GepIndex::Constant(c) => if c < fields@.len() {
                    indexed_from(types, fields@[c as int], indices, i + 1)
                } else {
                    None
                },
                GepIndex::Value(_) => None,
            },
            TypeKind::Array { elem, size } => indexed_from(types, elem, indices, i + 1),
            _ => None,
        }
    }
}

/// How many of the first `n` indices are values.
pub open spec fn values_before(indices: Seq<GepIndex>, n: nat) -> nat
    decreases n,
{
    if n == 0 {
        0
    } else {
        values_before(indices, (n - 1) as nat) + (if indices[n - 1] is Value {
            1nat
        } else {
            0nat
        })
    }
}

/// The operands of an address computation: the base and the indices that are
/// values.
pub open spec fn gep_operands(base: Value, indices: Seq<GepIndex>, n: nat) -> Seq<Value>
    decreases n,
{
    if n == 0 {
        seq![base]
    } else {
        match indices[n - 1] {
            GepIndex::Constant(_) => gep_operands(base, indices, (n - 1) as nat),
            GepIndex::Value(v) => gep_operands(base, indices, (n - 1) as nat).push(v),
        }
    }
}

/// The indices as the attribute holds them: a value by the position of its operand.
pub open spec fn gep_attr(indices: Seq<GepIndex>) -> Seq<GepIndexAttr> {
    Seq::new(
        indices.len(),
        |i: int|
            match indices[i] {
                GepIndex::Constant(c) => GepIndexAttr::Constant(c),
                GepIndex::Value(_) => GepIndexAttr::OperandIdx(
                    (values_before(indices, i as nat) + 1) as usize,
                ),
            },
    )
}

/// The indices that an attribute stands for among `operands`.
pub open spec fn read_indices(attr: Seq<GepIndexAttr>, operands: Seq<Value>) -> Seq<GepIndex> {
    attr.map_values(
        |index: GepIndexAttr|
            match index {
                GepIndexAttr::Constant(c) => GepIndex::Constant(c),
                GepIndexAttr::OperandIdx(i) => GepIndex::Value(operands[i as int]),
            },
    )
}

/// The address space of a pointer; generic where the value is no pointer.
pub open spec fn space_of(types: Seq<TypeKind>, value: Value) -> u32 {
    match types[value.ty as int] {
        TypeKind::Pointer { address_space } => address_space,
        _ => 0,
    }
}

proof fn lemma_operand_count(base: Value, indices: Seq<GepIndex>, n: nat)
    requires
        n <= indices.len(),
    ensures
        gep_operands(base, indices, n).len() == values_before(indices, n) + 1,
        values_before(indices, n) <= n,
    decreases n,
{
    if n > 0 {
        lemma_operand_count(base, indices, (n - 1) as nat);
    }
}

proof fn lemma_operands_grow(base: Value, indices: Seq<GepIndex>, m: nat, n: nat)
    requires
        m <= n <= indices.len(),
    ensures
        gep_operands(base, indices, m).len() <= gep_operands(base, indices, n).len(),
        forall|i: int|
            0 <= i < gep_operands(base, indices, m).len() ==> #[trigger] gep_operands(
                base,
                indices,
                n,
            )[i] == gep_operands(base, indices, m)[i],
    decreases n,
{
    if m < n {
        lemma_operands_grow(base, indices, m, (n - 1) as nat);
    }
}

/// Reading the indices of a new address computation gives back the indices that it
/// was created with.
pub proof fn indices_are_read_back(base: Value, indices: Seq<GepIndex>)
    requires
        indices.len() < usize::MAX,
    ensures
        read_indices(gep_attr(indices), gep_operands(base, indices, indices.len())) == indices,
{
    let operands = gep_operands(base, indices, indices.len());
    let read = read_indices(gep_attr(indices), operands);
    assert forall|i: int| 0 <= i < indices.len() implies #[trigger] read[i] == indices[i] by {
        if let GepIndex::Value(v) = indices[i] {
            lemma_operand_count(base, indices, i as nat);
            lemma_operands_grow(base, indices, (i + 1) as nat, indices.len());
            assert(gep_operands(base, indices, (i + 1) as nat).last() == v);
            assert(operands[(values_before(indices, i as nat) + 1) as int] == v);
        }
    }
    assert(read =~= indices);
}

impl GetElementPtrOp {
    /// Creates an address computation. Its result is a pointer in the address space
    /// of the base.
    pub fn new(ir: &mut OpArena, base: Value, indices: Vec<GepIndex>, src_elem_type: usize) -> (r:
        Result<GetElementPtrOp, GetElementPtrOpErr>)
        requires
            old(ir).next_value < u64::MAX,
            old(ir).has_type(base.ty),
            indices@.len() < usize::MAX,
        ensures
            r is Ok,
            appended(
                *old(ir),
                *final(ir),
                r->Ok_0.op,
                "llvm.gep"@,
                gep_operands(base, indices@, indices@.len()),
                Some(
                    pointer_position(
                        old(ir).types@,
                        space_of(old(ir).types@, base),
                        0,
                    ) as usize,
                ),
            ),
            final(ir).types@ == with_pointer(
                old(ir).types@,
                space_of(old(ir).types@, base),
            ),
            type_attr(final(ir).ops@[r->Ok_0.op as int].attributes, "gep_src_elem_type"@) == Some(
                src_elem_type,
            ),
            final(ir).ops@[r->Ok_0.op as int].attributes.lookup("gep_indices"@) matches Some(
                AttrObj::GepIndices(attr),
            ) && attr@ == gep_attr(indices@),
            carries_only(
                *final(ir),
                r->Ok_0.op,
                seq!["gep_indices"@, "gep_src_elem_type"@],
            ),
            r->Ok_0.has_indices(*final(ir)),
            r->Ok_0.index_list(*final(ir)) == indices@,
    {
        let address_space: u32 = match &ir.types[base.ty] {
            TypeKind::Pointer { address_space } => *address_space,
            _ => 0,
        };
        let result_type: usize = ir.pointer_type(address_space);
        let mut attr: Vec<GepIndexAttr> = Vec::new();
        let mut operands: Vec<Value> = Vec::new();
        operands.push(base);
        assert(operands@ =~= gep_operands(base, indices@, 0));
        let mut i: usize = 0;
        while i < indices.len()
            invariant
                i <= indices.len(),
                indices@.len() < usize::MAX,
                operands@ == gep_operands(base, indices@, i as nat),
                attr@ == gep_attr(indices@).take(i as int),
            decreases indices.len() - i,
        {
            proof {
                lemma_operand_count(base, indices@, i as nat);
            }
            match indices[i] {
                GepIndex::Constant(c) => {
                    attr.push(GepIndexAttr::Constant(c));
                },
                GepIndex::Value(v) => {
                    attr.push(GepIndexAttr::OperandIdx(operands.len()));
                    operands.push(v);
                },
            }
            i += 1;
            assert(attr@ =~= gep_attr(indices@).take(i as int));
        }
        assert(attr@ =~= gep_attr(indices@));
        let mut attributes = AttributeDict::new();
        attributes.set("gep_indices", AttrObj::GepIndices(attr));
        proof {
            reveal_strlit("gep_indices");
            reveal_strlit("gep_src_elem_type");
            assert("gep_indices"@.len() != "gep_src_elem_type"@.len());
        }
        attributes.set("gep_src_elem_type", AttrObj::Type(src_elem_type));
        let op: usize = ir.create("llvm.gep", Some(result_type), operands, attributes);
        proof {
            indices_are_read_back(base, indices@);
            let keys = seq!["gep_indices"@, "gep_src_elem_type"@];
            assert(keys[0] == "gep_indices"@ && keys[1] == "gep_src_elem_type"@);
            assert forall|k: int| 0 <= k < attr@.len() implies (#[trigger] attr@[k] matches
                GepIndexAttr::OperandIdx(at) ==> at < operands@.len()) by {
                if indices@[k] is Value {
                    lemma_operand_count(base, indices@, k as nat);
                    lemma_operand_count(base, indices@, (k + 1) as nat);
                    lemma_operands_grow(base, indices@, (k + 1) as nat, indices@.len());
                }
            }
        }
        Ok(GetElementPtrOp { op })
    }

    /// What the dialect records of the operation.
    pub fn op_info() -> (r: OpInfo)
        ensures
            r@ == (OpInfoView { name: "llvm.gep"@, operands: None, results: 1 }),
    {
        OpInfo { name: "llvm.gep".to_owned(), operands: None, results: 1 }
    }

    /// The type that the base points to.
    pub fn src_elem_type(&self, ir: &OpArena) -> (r: usize)
        requires
            ir.has_op(self.op),
            type_attr(ir.ops@[self.op as int].attributes, "gep_src_elem_type"@) is Some,
        ensures
            type_attr(ir.ops@[self.op as int].attributes, "gep_src_elem_type"@) == Some(r),
    {
        get_type_attr(&ir.ops[self.op].attributes, "gep_src_elem_type").unwrap()
    }

    /// The base.
    pub fn src_ptr(&self, ir: &OpArena) -> (r: Value)
        requires
            ir.has_op(self.op),
            ir.ops@[self.op as int].operands@.len() > 0,
        ensures
            r == ir.ops@[self.op as int].operands@[0],
    {
        ir.ops[self.op].operands[0]
    }

    /// The operation has indices, and those that are values are operands of it.
    pub open spec fn has_indices(self, ir: OpArena) -> bool {
        ir.ops@[self.op as int].attributes.lookup("gep_indices"@) matches Some(
            AttrObj::GepIndices(attr),
        ) && forall|i: int|
            0 <= i < attr@.len() ==> (#[trigger] attr@[i] matches GepIndexAttr::OperandIdx(k) ==> k
                < ir.ops@[self.op as int].operands@.len())
    }

    /// The indices of the operation.
    pub open spec fn index_list(self, ir: OpArena) -> Seq<GepIndex> {
        match ir.ops@[self.op as int].attributes.lookup("gep_indices"@) {
            Some(AttrObj::GepIndices(attr)) => read_indices(
                attr@,
                ir.ops@[self.op as int].operands@,
            ),
            _ => seq![],
        }
    }

    /// The indices of the operation.
    pub fn indices(&self, ir: &OpArena) -> (r: Vec<GepIndex>)
        requires
            ir.has_op(self.op),
            self.has_indices(*ir),
        ensures
            r@ == self.index_list(*ir),
    {
        let op = &ir.ops[self.op];
        let mut r: Vec<GepIndex> = Vec::new();
        if let Some(AttrObj::GepIndices(attr)) = op.attributes.get("gep_indices") {
            let mut i: usize = 0;
            while i < attr.len()
                invariant
                    i <= attr.len(),
                    ir.has_op(self.op),
                    *op == ir.ops@[self.op as int],
                    self.has_indices(*ir),
                    op.attributes.lookup("gep_indices"@) == Some(AttrObj::GepIndices(*attr)),
                    r@ == self.index_list(*ir).take(i as int),
                decreases attr.len() - i,
            {
                match attr[i] {
                    GepIndexAttr::Constant(c) => r.push(GepIndex::Constant(c)),
                    GepIndexAttr::OperandIdx(k) => r.push(GepIndex::Value(op.operands[k])),
                }
                i += 1;
                assert(r@ =~= self.index_list(*ir).take(i as int));
            }
        }
        assert(r@ =~= self.index_list(*ir));
        r
    }

    /// The type that indices lead to from `src_elem_type`. The first index steps over
    /// the base pointer and is skipped.
    pub fn indexed_type(ir: &OpArena, src_elem_type: usize, indices: &Vec<GepIndex>) -> (r: Result<
        usize,
        GetElementPtrOpErr,
    >)
        requires
            ir.wf_types(),
            ir.has_type(src_elem_type),
        ensures
            match r {
                Ok(ty) => indexed_from(ir.types@, src_elem_type, indices@, 1) == Some(ty)
                    && ir.has_type(ty),
                Err(error) => error == GetElementPtrOpErr::IndicesErr && indexed_from(
                    ir.types@,
                    src_elem_type,
                    indices@,
                    1,
                ) is None,
            },
    {
        let mut ty: usize = src_elem_type;
        let mut i: usize = 1;
        while i < indices.len()
            invariant
                1 <= i,
                i <= indices.len() || i == 1,
                ir.wf_types(),
                ir.has_type(ty),
                indexed_from(ir.types@, src_elem_type, indices@, 1) == indexed_from(
                    ir.types@,
                    ty,
                    indices@,
                    i as nat,
                ),
            decreases indices.len() - i,
        {
            match &ir.types[ty] {
                TypeKind::Struct { fields } => match indices[i] {
                    GepIndex::Constant(c) => {
                        if c as usize >= fields.len() {
                            return Err(GetElementPtrOpErr::IndicesErr);
                        }
                        ty = fields[c as usize];
                    },
                    GepIndex::Value(_) => {
                        return Err(GetElementPtrOpErr::IndicesErr);
                    },
                },
                TypeKind::Array { elem, .. } => {
                    ty = *elem;
                },
                _ => {
                    return Err(GetElementPtrOpErr::IndicesErr);
                },
            }
            i += 1;
        }
        Ok(ty)
    }

    /// What the result points to.
    pub fn result_pointee_type(&self, ir: &OpArena) -> (r: usize)
        requires
            ir.wf_types(),
            ir.has_op(self.op),
            type_attr(ir.ops@[self.op as int].attributes, "gep_src_elem_type"@) matches Some(ty)
                && ir.has_type(ty) && indexed_from(ir.types@, ty, self.index_list(*ir), 1) is Some,
            self.has_indices(*ir),
        ensures
            indexed_from(
                ir.types@,
                type_attr(ir.ops@[self.op as int].attributes, "gep_src_elem_type"@)->0,
                self.index_list(*ir),
                1,
            ) == Some(r),
    {
        let indices = self.indices(ir);
        GetElementPtrOp::indexed_type(ir, self.src_elem_type(ir), &indices).unwrap()
    }

    /// Fails where the indices are missing or do not fit the type.
    pub fn verify(&self, ir: &OpArena) -> (r: Result<(), GetElementPtrOpErr>)
        requires
            ir.wf_types(),
            ir.has_op(self.op),
            ir.ops@[self.op as int].attributes.lookup("gep_indices"@) matches Some(
                AttrObj::GepIndices(_),
            ) ==> {
                &&& self.has_indices(*ir)
                &&& type_attr(ir.ops@[self.op as int].attributes, "gep_src_elem_type"@) matches Some(
                    ty,
                )
                &&& ir.has_type(ty)
            },
        ensures
            match r {
                Ok(_) => self.has_indices(*ir) && indexed_from(
                    ir.types@,
                    type_attr(ir.ops@[self.op as int].attributes, "gep_src_elem_type"@)->0,
                    self.index_list(*ir),
                    1,
                ) is Some,
                Err(GetElementPtrOpErr::IndicesAttrErr) => !(
                ir.ops@[self.op as int].attributes.lookup("gep_indices"@) matches Some(
                    AttrObj::GepIndices(_),
                )),
                Err(GetElementPtrOpErr::IndicesErr) => self.has_indices(*ir) && indexed_from(
                    ir.types@,
                    type_attr(ir.ops@[self.op as int].attributes, "gep_src_elem_type"@)->0,
                    self.index_list(*ir),
                    1,
                ) is None,
            },
    {
        match ir.ops[self.op].attributes.get("gep_indices") {
            Some(AttrObj::GepIndices(_)) => {},
            _ => {
                return Err(GetElementPtrOpErr::IndicesAttrErr);
            },
        }
        let indices = self.indices(ir);
        match GetElementPtrOp::indexed_type(ir, self.src_elem_type(ir), &indices) {
            Ok(_) => Ok(()),
            Err(error) => Err(error),
        }
    }
}

/// Registers the memory operations.
pub fn register(registry: &mut OpRegistry)
    ensures
        final(registry)@ == old(registry)@ + seq![
            fixed("llvm.alloca"@, 1, 1),
            fixed("llvm.load"@, 1, 1),
            fixed("llvm.store"@, 2, 0),
            OpInfoView { name: "llvm.gep"@, operands: None, results: 1 },
        ],
{
    registry.add(AllocaOp::op_info());
    registry.add(LoadOp::op_info());
    registry.add(StoreOp::op_info());
    registry.add(GetElementPtrOp::op_info());
    assert(registry@ =~= old(registry)@ + seq![
        fixed("llvm.alloca"@, 1, 1),
        fixed("llvm.load"@, 1, 1),
        fixed("llvm.store"@, 2, 0),
        OpInfoView { name: "llvm.gep"@, operands: None, results: 1 },
    ]);
}

}
