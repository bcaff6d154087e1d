//! Operations and their types, addressed by position.

use crate::ir::AttributeDict;
use crate::ir::TypeKind;
use crate::ir::Value;
use vstd::prelude::*;

verus! {

broadcast use vstd::string::group_string_axioms;

/// An operation.
#[derive(Debug)]
pub struct Operation {
    /// Its name.
    pub name: String,
    /// Its operands.
    pub operands: Vec<Value>,
    /// Its results.
    pub results: Vec<Value>,
    /// Its attributes.
    pub attributes: AttributeDict,
}

/// The types and the operations of a module.
#[derive(Debug)]
pub struct OpArena {
    /// The types, by position.
    pub types: Vec<TypeKind>,
    /// The operations, by position.
    pub ops: Vec<Operation>,
    /// The next free value identifier.
    pub next_value: u64,
}

/// Where the first pointer type of an address space stands at or after `i`; the
/// number of types where there is none.
pub open spec fn pointer_position(types: Seq<TypeKind>, address_space: u32, i: nat) -> nat
    decreases types.len() - i,
{
    if i >= types.len() {
        types.len()
    } else if types[i as int] == (TypeKind::Pointer { address_space }) {
        i
    } else {
        pointer_position(types, address_space, i + 1)
    }
}

impl OpArena {
    /// `op` is an operation of the arena.
    pub open spec fn has_op(self, op: usize) -> bool {
        op < self.ops@.len()
    }

    /// `ty` is a type of the arena.
    pub open spec fn has_type(self, ty: usize) -> bool {
        ty < self.types@.len()
    }

    /// The types that a type mentions are types of the arena.
    pub open spec fn wf_types(self) -> bool {
        forall|i: int|
            0 <= i < self.types@.len() ==> match #[trigger] self.types@[i] {
                TypeKind::Array { elem, size } => self.has_type(elem),
                TypeKind::Struct { fields } => forall|j: int|
                    0 <= j < fields@.len() ==> self.has_type(#[trigger] fields@[j]),
                _ => true,
            }
    }

    /// The values of the operation at `op` have types of the arena.
    pub open spec fn wf_op(self, op: usize) -> bool {
        &&& self.has_op(op)
        &&& forall|i: int|
            0 <= i < self.ops@[op as int].operands@.len() ==> self.has_type(
                (#[trigger] self.ops@[op as int].operands@[i]).ty,
            )
        &&& forall|i: int|
            0 <= i < self.ops@[op as int].results@.len() ==> self.has_type(
                (#[trigger] self.ops@[op as int].results@[i]).ty,
            )
    }

    /// An arena without types or operations.
    pub fn new() -> (r: OpArena)
        ensures
            r.types@.len() == 0,
            r.ops@.len() == 0,
            r.next_value == 0,
    {
        OpArena { types: Vec::new(), ops: Vec::new(), next_value: 0 }
    }

    /// The pointer type of an address space. There is one, and it is added where it
    /// is missing.
    pub fn pointer_type(&mut self, address_space: u32) -> (ty: usize)
        ensures
            ty == pointer_position(old(self).types@, address_space, 0),
            final(self).types@ == (if ty < old(self).types@.len() {
                old(self).types@
            } else {
                old(self).types@.push(TypeKind::Pointer { address_space })
            }),
            final(self).types@[ty as int] == (TypeKind::Pointer { address_space }),
            ty < final(self).types@.len(),
            final(self).ops == old(self).ops,
            final(self).next_value == old(self).next_value,
    {
        let mut i: usize = 0;
        while i < self.types.len()
            invariant
                i <= self.types.len(),
                self.types == old(self).types,
                self.ops == old(self).ops,
                self.next_value == old(self).next_value,
                pointer_position(self.types@, address_space, 0) == pointer_position(
                    self.types@,
                    address_space,
                    i as nat,
                ),
            decreases self.types.len() - i,
        {
            if let TypeKind::Pointer { address_space: space } = &self.types[i] {
                if *space == address_space {
                    return i;
                }
            }
            i += 1;
        }
        self.types.push(TypeKind::Pointer { address_space });
        i
    }

    /// Adds an operation with at most one result and returns its position.
    pub(crate) fn create(
        &mut self,
        name: &str,
        result: Option<usize>,
        operands: Vec<Value>,
        attributes: AttributeDict,
    ) -> (op: usize)
        requires
            old(self).next_value < u64::MAX,
        ensures
            op == old(self).ops@.len(),
            final(self).types == old(self).types,
            final(self).ops@.len() == old(self).ops@.len() + 1,
            final(self).ops@.take(op as int) == old(self).ops@,
            final(self).ops@[op as int].name@ == name@,
            final(self).ops@[op as int].operands == operands,
            final(self).ops@[op as int].attributes == attributes,
            final(self).ops@[op as int].results@ == fresh_results(
                old(self).next_value,
                result,
            ),
            final(self).next_value == old(self).next_value + fresh_results(
                old(self).next_value,
                result,
            ).len(),
    {
        let mut results: Vec<Value> = Vec::new();
        if let Some(ty) = result {
            results.push(Value { id: self.next_value, ty });
            self.next_value = self.next_value + 1;
        }
        assert(results@ =~= fresh_results(old(self).next_value, result));
        let op: usize = self.ops.len();
        self.ops.push(Operation { name: name.to_owned(), operands, results, attributes });
        assert(self.ops@.take(op as int) =~= old(self).ops@);
        op
    }
}

/// The results of a new operation.
pub open spec fn fresh_results(next: u64, result: Option<usize>) -> Seq<Value> {
    match result {
        Some(ty) => seq![Value { id: next, ty }],
        None => seq![],
    }
}

/// What a dialect records of an operation: its name and how many operands and
/// results it has.
#[derive(Debug)]
pub struct OpInfo {
    /// The name.
    pub name: String,
    /// Number of operands, where it is fixed.
    pub operands: Option<usize>,
    /// Number of results.
    pub results: usize,
}

/// What [`OpInfo`] holds.
pub struct OpInfoView {
    /// The name.
    pub name: Seq<char>,
    /// Number of operands, where it is fixed.
    pub operands: Option<usize>,
    /// Number of results.
    pub results: usize,
}

impl View for OpInfo {
    type V = OpInfoView;

    open spec fn view(&self) -> OpInfoView {
        OpInfoView { name: self.name@, operands: self.operands, results: self.results }
    }
}

/// The operations that a dialect has registered, in order.
#[derive(Debug)]
pub struct OpRegistry {
    /// The operations.
    pub infos: Vec<OpInfo>,
}

impl View for OpRegistry {
    type V = Seq<OpInfoView>;

    open spec fn view(&self) -> Seq<OpInfoView> {
        self.infos@.map_values(|i: OpInfo| i@)
    }
}

impl OpRegistry {
    /// A registry without operations.
    pub fn new() -> (r: OpRegistry)
        ensures
            r@ == Seq::<OpInfoView>::empty(),
    {
        let r = OpRegistry { infos: Vec::new() };
        assert(r@ =~= Seq::<OpInfoView>::empty());
        r
    }

    /// Registers an operation.
    pub fn add(&mut self, info: OpInfo)
        ensures
            final(self)@ == old(self)@.push(info@),
    {
        self.infos.push(info);
        assert(self@ =~= old(self)@.push(info@));
    }
}

/// An operation with a fixed number of operands.
pub open spec fn fixed(name: Seq<char>, operands: usize, results: usize) -> OpInfoView {
    OpInfoView { name, operands: Some(operands), results }
}

/// An operation with a fixed number of operands.
pub(crate) fn fixed_info(name: &str, operands: usize, results: usize) -> (r: OpInfo)
    ensures
        r@ == fixed(name@, operands, results),
{
    OpInfo { name: name.to_owned(), operands: Some(operands), results }
}

}
