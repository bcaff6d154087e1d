//! Rewriting of device operations into LLVM operations: the rewriter and the steps
//! that the conversions share.

use crate::apint::IntegerAttr;
use crate::identifier::is_identifier;
use crate::identifier::try_identifier;
use crate::text::str_eq;
use vstd::prelude::*;

verus! {

broadcast use vstd::string::group_string_axioms;

// ---------------------------------------------------------------------------
// Operations
// ---------------------------------------------------------------------------

/// The type of a lowered value.
#[derive(Debug, Clone, Copy, PartialEq, Eq, Structural)]
pub enum LowType {
    /// `void`.
    Void,
    /// An integer of `width` bits.
    Integer {
        /// Bits.
        width: u32,
    },
    /// A pointer.
    Pointer {
        /// Address space of the pointee.
        address_space: u32,
    },
    /// The pair of a loaded value and a flag that a compare-and-exchange gives.
    Exchanged,
    /// Any other type, by an identifier.
    Other {
        /// The identifier.
        id: u64,
    },
}

/// A lowered value.
#[derive(Debug, Clone, Copy, PartialEq, Eq, Structural)]
pub struct LowValue {
    /// Identifier of the value.
    pub id: u64,
    /// Its type.
    pub ty: LowType,
}

/// What the optimiser may do with an inline assembly operation.
#[derive(Debug, Clone, Copy, PartialEq, Eq, Structural)]
pub enum AsmKind {
    /// Nothing is said.
    Plain,
    /// It may be removed and merged.
    Pure,
    /// It has side effects.
    SideEffect,
    /// It has side effects and must not be made control dependent.
    Convergent,
}

/// Memory ordering of an atomic operation.
#[derive(Debug, Clone, Copy, PartialEq, Eq, Structural)]
pub enum LlvmAtomicOrdering {
    /// `monotonic`.
    Monotonic,
    /// `acquire`.
    Acquire,
    /// `release`.
    Release,
    /// `acq_rel`.
    AcqRel,
    /// `seq_cst`.
    SeqCst,
}

/// Threads among which an atomic operation is atomic.
#[derive(Debug, Clone, Copy, PartialEq, Eq, Structural)]
pub enum LlvmSyncScope {
    /// The device.
    Device,
    /// The block.
    Block,
    /// The system.
    System,
}

/// What a read-modify-write operation does.
#[derive(Debug, Clone, Copy, PartialEq, Eq, Structural)]
pub enum LlvmAtomicRmwKind {
    /// Addition.
    Add,
    /// Subtraction.
    Sub,
    /// Bitwise and.
    And,
    /// Bitwise or.
    Or,
    /// Bitwise exclusive or.
    Xor,
    /// Exchange.
    Xchg,
    /// Signed minimum.
    Min,
    /// Signed maximum.
    Max,
    /// Unsigned minimum.
    UMin,
    /// Unsigned maximum.
    UMax,
    /// Floating-point addition.
    FAdd,
}

/// An LLVM operation.
#[derive(Debug, PartialEq, Eq)]
pub enum LlvmOp {
    /// An integer constant.
    Constant(IntegerAttr),
    /// A pointer in another address space.
    AddrSpaceCast {
        /// The pointer.
        value: LowValue,
        /// The address space.
        address_space: u32,
    },
    /// A call.
    Call {
        /// Name of the callee.
        callee: String,
        /// Type of the result.
        result: LowType,
        /// The arguments.
        args: Vec<LowValue>,
    },
    /// Inline assembly.
    InlineAsm {
        /// The template.
        template: String,
        /// The constraints.
        constraints: String,
        /// The inputs.
        inputs: Vec<LowValue>,
        /// Type of the result.
        result: LowType,
        /// What the optimiser may do with it.
        kind: AsmKind,
    },
    /// The low bits of an integer.
    Trunc {
        /// The integer.
        value: LowValue,
        /// How many bits.
        width: u32,
    },
    /// An atomic read-modify-write.
    AtomicRmw {
        /// The address.
        ptr: LowValue,
        /// The operand.
        value: LowValue,
        /// What is done.
        action: LlvmAtomicRmwKind,
        /// Its ordering.
        ordering: LlvmAtomicOrdering,
        /// Its scope.
        scope: LlvmSyncScope,
    },
    /// An atomic compare-and-exchange.
    AtomicCmpxchg {
        /// The address.
        ptr: LowValue,
        /// The expected value.
        expected: LowValue,
        /// The new value.
        new_value: LowValue,
        /// Ordering on success.
        success: LlvmAtomicOrdering,
        /// Ordering on failure.
        failure: LlvmAtomicOrdering,
        /// Its scope.
        scope: LlvmSyncScope,
    },
    /// A part of an aggregate.
    ExtractValue {
        /// The aggregate.
        value: LowValue,
        /// Position of the part.
        index: u32,
        /// Type of the part.
        ty: LowType,
    },
}

/// What [`LlvmOp`] holds.
#[verifier::ext_equal]
pub enum LlvmOpView {
    /// An integer constant: its value and its width.
    Constant {
        /// The unsigned value.
        number: nat,
        /// Bits.
        width: u32,
    },
    /// A pointer in another address space.
    AddrSpaceCast {
        /// The pointer.
        value: LowValue,
        /// The address space.
        address_space: u32,
    },
    /// A call.
    Call {
        /// Name of the callee.
        callee: Seq<char>,
        /// Type of the result.
        result: LowType,
        /// The arguments.
        args: Seq<LowValue>,
    },
    /// Inline assembly.
    InlineAsm {
        /// The template.
        template: Seq<char>,
        /// The constraints.
        constraints: Seq<char>,
        /// The inputs.
        inputs: Seq<LowValue>,
        /// Type of the result.
        result: LowType,
        /// What the optimiser may do with it.
        kind: AsmKind,
    },
    /// The low bits of an integer.
    Trunc {
        /// The integer.
        value: LowValue,
        /// How many bits.
        width: u32,
    },
    /// An atomic read-modify-write.
    AtomicRmw {
        /// The address.
        ptr: LowValue,
        /// The operand.
        value: LowValue,
        /// What is done.
        action: LlvmAtomicRmwKind,
        /// Its ordering.
        ordering: LlvmAtomicOrdering,
        /// Its scope.
        scope: LlvmSyncScope,
    },
    /// An atomic compare-and-exchange.
    AtomicCmpxchg {
        /// The address.
        ptr: LowValue,
        /// The expected value.
        expected: LowValue,
        /// The new value.
        new_value: LowValue,
        /// Ordering on success.
        success: LlvmAtomicOrdering,
        /// Ordering on failure.
        failure: LlvmAtomicOrdering,
        /// Its scope.
        scope: LlvmSyncScope,
    },
    /// A part of an aggregate.
    ExtractValue {
        /// The aggregate.
        value: LowValue,
        /// Position of the part.
        index: u32,
        /// Type of the part.
        ty: LowType,
    },
}

impl View for LlvmOp {
    type V = LlvmOpView;

    open spec fn view(&self) -> LlvmOpView {
        match *self {
            LlvmOp::Constant(attr) => LlvmOpView::Constant {
                number: attr.unsigned(),
                width: attr.width,
            },
            LlvmOp::AddrSpaceCast { value, address_space } => LlvmOpView::AddrSpaceCast {
                value,
                address_space,
            },
            LlvmOp::Call { callee, result, args } => LlvmOpView::Call {
                callee: callee@,
                result,
                args: args@,
            },
            LlvmOp::InlineAsm {
                template,
                constraints,
                inputs,
                result,
                kind,
            } => LlvmOpView::InlineAsm {
                template: template@,
                constraints: constraints@,
                inputs: inputs@,
                result,
                kind,
            },
            LlvmOp::Trunc { value, width } => LlvmOpView::Trunc { value, width },
            LlvmOp::AtomicRmw {
                ptr,
                value,
                action,
                ordering,
                scope,
            } => LlvmOpView::AtomicRmw { ptr, value, action, ordering, scope },
            LlvmOp::AtomicCmpxchg {
                ptr,
                expected,
                new_value,
                success,
                failure,
                scope,
            } => LlvmOpView::AtomicCmpxchg { ptr, expected, new_value, success, failure, scope },
            LlvmOp::ExtractValue { value, index, ty } => LlvmOpView::ExtractValue {
                value,
                index,
                ty,
            },
        }
    }
}

impl LlvmOpView {
    /// Type of the result; `void` where there is none.
    pub open spec fn result_type(self) -> LowType {
        match self {
            LlvmOpView::Constant { number, width } => LowType::Integer { width },
            LlvmOpView::AddrSpaceCast { value, address_space } => LowType::Pointer {
                address_space,
            },
            LlvmOpView::Call { callee, result, args } => result,
            LlvmOpView::InlineAsm { template, constraints, inputs, result, kind } => result,
            LlvmOpView::Trunc { value, width } => LowType::Integer { width },
            LlvmOpView::AtomicRmw { ptr, value, action, ordering, scope } => value.ty,
            LlvmOpView::AtomicCmpxchg { .. } => LowType::Exchanged,
            LlvmOpView::ExtractValue { value, index, ty } => ty,
        }
    }
}

impl LlvmOp {
    fn result_type(&self) -> (r: LowType)
        ensures
            r == self@.result_type(),
    {
        match self {
            LlvmOp::Constant(attr) => LowType::Integer { width: attr.width },
            LlvmOp::AddrSpaceCast { address_space, .. } => LowType::Pointer {
                address_space: *address_space,
            },
            LlvmOp::Call { result, .. } => *result,
            LlvmOp::InlineAsm { result, .. } => *result,
            LlvmOp::Trunc { width, .. } => LowType::Integer { width: *width },
            LlvmOp::AtomicRmw { value, .. } => value.ty,
            LlvmOp::AtomicCmpxchg { .. } => LowType::Exchanged,
            LlvmOp::ExtractValue { ty, .. } => *ty,
        }
    }
}

// ---------------------------------------------------------------------------
// Rewriter
// ---------------------------------------------------------------------------

/// An operation with its result.
#[derive(Debug, PartialEq, Eq)]
pub struct Emitted {
    /// The operation.
    pub op: LlvmOp,
    /// Its result, where it has one.
    pub result: Option<LowValue>,
}

/// What [`Emitted`] holds.
#[verifier::ext_equal]
pub struct EmittedView {
    /// The operation.
    pub op: LlvmOpView,
    /// Its result, where it has one.
    pub result: Option<LowValue>,
}

impl View for Emitted {
    type V = EmittedView;

    open spec fn view(&self) -> EmittedView {
        EmittedView { op: self.op@, result: self.result }
    }
}

/// A function that a module declares.
#[derive(Debug, PartialEq, Eq)]
pub struct Declaration {
    /// Its name.
    pub name: String,
    /// Type of its result.
    pub result: LowType,
    /// Types of its parameters.
    pub params: Vec<LowType>,
}

/// What [`Declaration`] holds.
#[verifier::ext_equal]
pub struct DeclarationView {
    /// Its name.
    pub name: Seq<char>,
    /// Type of its result.
    pub result: LowType,
    /// Types of its parameters.
    pub params: Seq<LowType>,
}

impl View for Declaration {
    type V = DeclarationView;

    open spec fn view(&self) -> DeclarationView {
        DeclarationView { name: self.name@, result: self.result, params: self.params@ }
    }
}

/// What became of the operation that is rewritten.
#[derive(Debug, Clone, Copy, PartialEq, Eq, Structural)]
pub enum Disposal {
    /// Nothing yet.
    Pending,
    /// Its uses are those of the emitted operation at this position.
    ReplacedBy(usize),
    /// It was removed.
    Erased,
}

/// The state of the rewriting of one operation.
#[derive(Debug)]
pub struct Rewriter {
    /// The operations that were inserted before the rewritten one, in order.
    pub emitted: Vec<Emitted>,
    /// The declarations of the enclosing module, or why it takes none.
    pub module: Result<Vec<Declaration>, String>,
    /// The next free value identifier.
    pub next_value: u64,
    /// What became of the rewritten operation.
    pub disposal: Disposal,
}

/// What [`Rewriter`] holds.
#[verifier::ext_equal]
pub struct RewriterView {
    /// The operations that were inserted, in order.
    pub emitted: Seq<EmittedView>,
    /// The declarations of the enclosing module, or why it takes none.
    pub module: Result<Seq<DeclarationView>, Seq<char>>,
    /// The next free value identifier.
    pub next_value: nat,
    /// What became of the rewritten operation.
    pub disposal: Disposal,
}

impl View for Rewriter {
    type V = RewriterView;

    open spec fn view(&self) -> RewriterView {
        RewriterView {
            emitted: self.emitted@.map_values(|e: Emitted| e@),
            module: match self.module {
                Ok(declarations) => Ok(declarations@.map_values(|d: Declaration| d@)),
                Err(reason) => Err(reason@),
            },
            next_value: self.next_value as nat,
            disposal: self.disposal,
        }
    }
}

/// Some declaration has this name.
pub open spec fn is_declared(declarations: Seq<DeclarationView>, name: Seq<char>) -> bool {
    exists|i: int| 0 <= i < declarations.len() && (#[trigger] declarations[i]).name == name
}

impl RewriterView {
    /// `n` more values can be numbered.
    pub open spec fn has_room(self, n: nat) -> bool {
        self.next_value + n <= u64::MAX
    }

    /// The next value to be numbered, with a type.
    pub open spec fn next_of_type(self, ty: LowType) -> LowValue {
        LowValue { id: self.next_value as u64, ty }
    }

    /// The result that `op` gets.
    pub open spec fn result_of(self, op: LlvmOpView) -> Option<LowValue> {
        if op.result_type() == LowType::Void {
            None
        } else {
            Some(self.next_of_type(op.result_type()))
        }
    }

    /// After inserting `op`.
    pub open spec fn with_op(self, op: LlvmOpView) -> RewriterView {
        RewriterView {
            emitted: self.emitted.push(EmittedView { op, result: self.result_of(op) }),
            next_value: if op.result_type() == LowType::Void {
                self.next_value
            } else {
                self.next_value + 1
            },
            ..self
        }
    }

    /// After replacing the rewritten operation by the one inserted last.
    pub open spec fn replaced_by_last(self) -> RewriterView {
        RewriterView {
            disposal: Disposal::ReplacedBy((self.emitted.len() - 1) as usize),
            ..self
        }
    }

    /// After removing the rewritten operation.
    pub open spec fn erased(self) -> RewriterView {
        RewriterView { disposal: Disposal::Erased, ..self }
    }

    /// After declaring a function: nothing changes where the name is declared.
    pub open spec fn declaring(self, declaration: DeclarationView) -> RewriterView {
        match self.module {
            Ok(declarations) => if is_declared(declarations, declaration.name) {
                self
            } else {
                RewriterView { module: Ok(declarations.push(declaration)), ..self }
            },
            Err(_) => self,
        }
    }

    /// Everything that `self` has inserted, `later` has inserted too, in the same
    /// places.
    pub open spec fn continues_in(self, later: RewriterView) -> bool {
        &&& self.emitted.len() <= later.emitted.len()
        &&& later.emitted.take(self.emitted.len() as int) == self.emitted
    }
}

impl Rewriter {
    /// A rewriter that has done nothing.
    pub fn new(module: Result<Vec<Declaration>, String>, next_value: u64) -> (r: Rewriter)
        ensures
            r.module == module,
            r@.emitted == Seq::<EmittedView>::empty(),
            r@.next_value == next_value,
            r@.disposal == Disposal::Pending,
    {
        let r = Rewriter {
            emitted: Vec::new(),
            module,
            next_value,
            disposal: Disposal::Pending,
        };
        assert(r@.emitted =~= Seq::<EmittedView>::empty());
        r
    }

    /// Inserts an operation and returns its position.
    pub fn insert_operation(&mut self, op: LlvmOp) -> (at: usize)
        requires
            old(self)@.has_room(1),
        ensures
            at == old(self)@.emitted.len(),
            final(self)@ == old(self)@.with_op(op@),
    {
        let at: usize = self.emitted.len();
        let ghost before = self@;
        let ty = op.result_type();
        let result = match ty {
            LowType::Void => None,
            _ => Some(LowValue { id: self.next_value, ty }),
        };
        match ty {
            LowType::Void => {},
            _ => {
                self.next_value = self.next_value + 1;
            },
        }
        self.emitted.push(Emitted { op, result });
        assert(self@.emitted =~= before.with_op(op@).emitted);
        at
    }

    /// Inserts an operation that has a result and returns the result.
    pub(crate) fn insert_value(&mut self, op: LlvmOp) -> (value: LowValue)
        requires
            old(self)@.has_room(1),
            op@.result_type() != LowType::Void,
        ensures
            Some(value) == old(self)@.result_of(op@),
            final(self)@ == old(self)@.with_op(op@),
    {
        let value = LowValue { id: self.next_value, ty: op.result_type() };
        self.insert_operation(op);
        value
    }

    /// Lets the emitted operation at `at` take the place of the rewritten one.
    pub fn replace_operation(&mut self, at: usize)
        ensures
            final(self)@ == (RewriterView { disposal: Disposal::ReplacedBy(at), ..old(self)@ }),
    {
        self.disposal = Disposal::ReplacedBy(at);
    }

    /// Removes the rewritten operation.
    pub fn erase_operation(&mut self)
        ensures
            final(self)@ == old(self)@.erased(),
    {
        self.disposal = Disposal::Erased;
    }

    /// Declares a function in the enclosing module where it is not declared yet. Fails
    /// where the module takes no declarations.
    pub fn ensure_intrinsic_declared(
        &mut self,
        name: &str,
        result: LowType,
        params: Vec<LowType>,
    ) -> (r: Result<(), String>)
        ensures
            final(self)@ == old(self)@.declaring(
                DeclarationView { name: name@, result, params: params@ },
            ),
            match r {
                Ok(_) => old(self)@.module is Ok,
                Err(reason) => old(self)@.module == Err::<Seq<DeclarationView>, Seq<char>>(
                    reason@,
                ),
            },
    {
        let ghost before = self@;
        let mut declared = false;
        match &self.module {
            Err(reason) => {
                return Err(reason.as_str().to_owned());
            },
            Ok(declarations) => {
                let mut i: usize = 0;
                while i < declarations.len() && !declared
                    invariant
                        i <= declarations.len(),
                        before.module == Ok::<Seq<DeclarationView>, Seq<char>>(
                            declarations@.map_values(|d: Declaration| d@),
                        ),
                        declared ==> is_declared(before.module->Ok_0, name@),
                        !declared ==> forall|j: int|
                            0 <= j < i ==> (#[trigger] before.module->Ok_0[j]).name != name@,
                    decreases declarations.len() - i,
                {
                    assert(before.module->Ok_0[i as int] == declarations@[i as int]@);
                    if str_eq(declarations[i].name.as_str(), name) {
                        declared = true;
                    }
                    i += 1;
                }
            },
        }
        if !declared {
            let declaration = Declaration { name: name.to_owned(), result, params };
            if let Ok(declarations) = &mut self.module {
                declarations.push(declaration);
            }
            assert(self@.module->Ok_0 =~= before.module->Ok_0.push(declaration@));
        }
        Ok(())
    }
}

// ---------------------------------------------------------------------------
// Shared steps
// ---------------------------------------------------------------------------

/// The constant `value` in `width` bits.
pub open spec fn constant_op(value: int, width: u32) -> LlvmOpView {
    LlvmOpView::Constant { number: crate::apint::low_bits(value, width as nat), width }
}

/// Inserts a boolean constant.
pub fn create_i1_const(rewriter: &mut Rewriter, value: bool) -> (r: LowValue)
    requires
        old(rewriter)@.has_room(1),
    ensures
        final(rewriter)@ == old(rewriter)@.with_op(constant_op(if value { 1 } else { 0 }, 1)),
        Some(r) == old(rewriter)@.result_of(constant_op(if value { 1 } else { 0 }, 1)),
{
    let const_value: i64 = if value { 1 } else { 0 };
    rewriter.insert_value(LlvmOp::Constant(IntegerAttr::from_i64(const_value, 1)))
}

/// Inserts a 32-bit constant.
pub fn create_i32_const(rewriter: &mut Rewriter, value: i32) -> (r: LowValue)
    requires
        old(rewriter)@.has_room(1),
    ensures
        final(rewriter)@ == old(rewriter)@.with_op(constant_op(value as int, 32)),
        Some(r) == old(rewriter)@.result_of(constant_op(value as int, 32)),
{
    rewriter.insert_value(LlvmOp::Constant(IntegerAttr::from_i64(value as i64, 32)))
}

/// Inserts a 64-bit constant.
pub fn create_i64_const(rewriter: &mut Rewriter, value: i64) -> (r: LowValue)
    requires
        old(rewriter)@.has_room(1),
    ensures
        final(rewriter)@ == old(rewriter)@.with_op(constant_op(value as int, 64)),
        Some(r) == old(rewriter)@.result_of(constant_op(value as int, 64)),
{
    rewriter.insert_value(LlvmOp::Constant(IntegerAttr::from_i64(value, 64)))
}

/// The address space of a value; generic where it is no pointer.
pub open spec fn address_space_of(value: LowValue) -> u32 {
    match value.ty {
        LowType::Pointer { address_space } => address_space,
        _ => 0,
    }
}

/// The state after a pointer was brought to an address space.
pub open spec fn cast_state(v: RewriterView, ptr: LowValue, space: u32) -> RewriterView {
    if address_space_of(ptr) == space {
        v
    } else {
        v.with_op(LlvmOpView::AddrSpaceCast { value: ptr, address_space: space })
    }
}

/// A pointer brought to an address space.
pub open spec fn cast_value(v: RewriterView, ptr: LowValue, space: u32) -> LowValue {
    if address_space_of(ptr) == space {
        ptr
    } else {
        v.next_of_type(LowType::Pointer { address_space: space })
    }
}

/// A pointer that is in an address space already is not cast to it again.
pub proof fn casts_are_not_repeated(v: RewriterView, ptr: LowValue, space: u32)
    ensures
        cast_state(cast_state(v, ptr, space), cast_value(v, ptr, space), space) == cast_state(
            v,
            ptr,
            space,
        ),
        cast_value(cast_state(v, ptr, space), cast_value(v, ptr, space), space) == cast_value(
            v,
            ptr,
            space,
        ),
{
}

/// A pointer that was brought to an address space is in it.
pub proof fn casts_reach_their_address_space(v: RewriterView, ptr: LowValue, space: u32)
    ensures
        address_space_of(cast_value(v, ptr, space)) == space,
{
}

fn cast_to_addrspace(rewriter: &mut Rewriter, ptr: LowValue, space: u32) -> (r: LowValue)
    requires
        old(rewriter)@.has_room(1),
    ensures
        final(rewriter)@ == cast_state(old(rewriter)@, ptr, space),
        r == cast_value(old(rewriter)@, ptr, space),
{
    let current: u32 = match ptr.ty {
        LowType::Pointer { address_space } => address_space,
        _ => 0,
    };
    if current != space {
        rewriter.insert_value(LlvmOp::AddrSpaceCast { value: ptr, address_space: space })
    } else {
        ptr
    }
}

/// Brings a pointer to shared memory, address space 3.
pub fn cast_to_shared_addrspace(rewriter: &mut Rewriter, ptr: LowValue) -> (r: LowValue)
    requires
        old(rewriter)@.has_room(1),
    ensures
        final(rewriter)@ == cast_state(old(rewriter)@, ptr, 3),
        r == cast_value(old(rewriter)@, ptr, 3),
{
    cast_to_addrspace(rewriter, ptr, 3)
}

/// Brings a pointer to global memory, address space 1.
pub fn cast_to_global_addrspace(rewriter: &mut Rewriter, ptr: LowValue) -> (r: LowValue)
    requires
        old(rewriter)@.has_room(1),
    ensures
        final(rewriter)@ == cast_state(old(rewriter)@, ptr, 1),
        r == cast_value(old(rewriter)@, ptr, 1),
{
    cast_to_addrspace(rewriter, ptr, 1)
}

/// Brings a pointer to the shared memory of the cluster, address space 7.
pub fn cast_to_cluster_shared_addrspace(rewriter: &mut Rewriter, ptr: LowValue) -> (r: LowValue)
    requires
        old(rewriter)@.has_room(1),
    ensures
        final(rewriter)@ == cast_state(old(rewriter)@, ptr, 7),
        r == cast_value(old(rewriter)@, ptr, 7),
{
    cast_to_addrspace(rewriter, ptr, 7)
}

/// The state after a call of an intrinsic. Where the module takes no declarations,
/// there is no call.
pub open spec fn called(
    v: RewriterView,
    name: Seq<char>,
    result: LowType,
    params: Seq<LowType>,
    args: Seq<LowValue>,
) -> RewriterView {
    if v.module is Ok {
        v.declaring(DeclarationView { name, result, params }).with_op(
            LlvmOpView::Call { callee: name, result, args },
        )
    } else {
        v
    }
}

/// A step failed exactly where the module takes no declarations.
pub open spec fn declared<T>(v: RewriterView, r: Result<T, String>) -> bool {
    match r {
        Ok(_) => v.module is Ok,
        Err(reason) => v.module == Err::<Seq<DeclarationView>, Seq<char>>(reason@),
    }
}

/// Declares an intrinsic where it is not declared yet and calls it. Returns the
/// position of the call.
pub fn call_intrinsic(
    rewriter: &mut Rewriter,
    intrinsic_name: &str,
    result: LowType,
    params: Vec<LowType>,
    args: Vec<LowValue>,
) -> (r: Result<usize, String>)
    requires
        old(rewriter)@.has_room(1),
        is_identifier(intrinsic_name@),
    ensures
        final(rewriter)@ == called(old(rewriter)@, intrinsic_name@, result, params@, args@),
        declared(old(rewriter)@, r),
        r matches Ok(at) ==> at == old(rewriter)@.emitted.len(),
{
    match rewriter.ensure_intrinsic_declared(intrinsic_name, result, params) {
        Ok(_) => {},
        Err(reason) => {
            return Err(reason);
        },
    }
    let callee = try_identifier(intrinsic_name.to_owned()).unwrap();
    Ok(rewriter.insert_operation(LlvmOp::Call { callee, result, args }))
}

/// Inserts inline assembly. Returns its position.
pub(crate) fn inline_asm(
    rewriter: &mut Rewriter,
    result: LowType,
    inputs: Vec<LowValue>,
    template: &str,
    constraints: &str,
    kind: AsmKind,
) -> (at: usize)
    requires
        old(rewriter)@.has_room(1),
    ensures
        final(rewriter)@ == old(rewriter)@.with_op(
            LlvmOpView::InlineAsm {
                template: template@,
                constraints: constraints@,
                inputs: inputs@,
                result,
                kind,
            },
        ),
        at == old(rewriter)@.emitted.len(),
{
    rewriter.insert_operation(
        LlvmOp::InlineAsm {
            template: template.to_owned(),
            constraints: constraints.to_owned(),
            inputs,
            result,
            kind,
        },
    )
}

/// Inserts inline assembly that must not be made control dependent. Returns its
/// position.
pub fn inline_asm_convergent(
    rewriter: &mut Rewriter,
    result: LowType,
    inputs: Vec<LowValue>,
    asm_template: &str,
    constraints: &str,
) -> (at: usize)
    requires
        old(rewriter)@.has_room(1),
    ensures
        final(rewriter)@ == old(rewriter)@.with_op(
            LlvmOpView::InlineAsm {
                template: asm_template@,
                constraints: constraints@,
                inputs: inputs@,
                result,
                kind: AsmKind::Convergent,
            },
        ),
        at == old(rewriter)@.emitted.len(),
{
    inline_asm(rewriter, result, inputs, asm_template, constraints, AsmKind::Convergent)
}

/// Truncates an integer to its lowest bit.
pub fn trunc_to_i1(rewriter: &mut Rewriter, i32_val: LowValue) -> (r: LowValue)
    requires
        old(rewriter)@.has_room(1),
    ensures
        final(rewriter)@ == old(rewriter)@.with_op(
            LlvmOpView::Trunc { value: i32_val, width: 1 },
        ),
        Some(r) == old(rewriter)@.result_of(LlvmOpView::Trunc { value: i32_val, width: 1 }),
{
    rewriter.insert_value(LlvmOp::Trunc { value: i32_val, width: 1 })
}

}
