//! A plain model of the intermediate representation that the exporter reads.
//!
//! Types are interned: a type is the index of its [`TypeObj`] in a [`Context`],
//! and two types are the same exactly when their indices are. Values carry an
//! identifier and their type. Blocks are referred to by their position in the
//! function, blocks forward values to the arguments of their successors, and an
//! operation that is printed holds its line as a sequence of [`Piece`]s whose
//! value and label references are resolved when the line is printed.

use crate::apint::IntegerAttr;
use crate::arg_attrs::LlvmParamAttrsAttr;
use crate::text::str_eq;
use vstd::prelude::*;

verus! {

/// What the exporter and the memory operations look at in a type.
#[derive(Debug)]
pub enum TypeKind {
    /// `void`.
    Void,
    /// An integer of `width` bits.
    Integer {
        /// Bits.
        width: u32,
    },
    /// `half`.
    Half,
    /// `float`.
    Single,
    /// `double`.
    Double,
    /// A pointer.
    Pointer {
        /// Address space of the pointee.
        address_space: u32,
    },
    /// An array of `size` elements.
    Array {
        /// Type of the elements.
        elem: usize,
        /// Number of elements.
        size: u64,
    },
    /// A structure with the types of its fields.
    Struct {
        /// Types of the fields.
        fields: Vec<usize>,
    },
    /// A function type.
    Function {
        /// Type of the result.
        result: usize,
        /// Types of the parameters.
        args: Vec<usize>,
    },
    /// Any other type.
    Other,
}

/// A type: its kind and its spellings.
#[derive(Debug)]
pub struct TypeObj {
    /// What kind of type it is.
    pub kind: TypeKind,
    /// How diagnostics show it.
    pub shown: String,
    /// How the exported module spells it, or why it cannot be spelled.
    pub exported: Result<String, String>,
    /// How the exported module spells a pointer to it, or why it cannot.
    pub pointer_exported: Result<String, String>,
}

/// The interned types of a module.
#[derive(Debug)]
pub struct Context {
    /// The types, by index.
    pub types: Vec<TypeObj>,
}

impl Context {
    /// `ty` is a type of this context.
    pub open spec fn has(self, ty: usize) -> bool {
        ty < self.types@.len()
    }

    /// The kind of `ty`.
    pub open spec fn kind(self, ty: usize) -> TypeKind {
        self.types@[ty as int].kind
    }

    /// How diagnostics show `ty`.
    pub open spec fn shown(self, ty: usize) -> Seq<char> {
        self.types@[ty as int].shown@
    }

    /// How the exported module spells `ty`.
    pub open spec fn exported(self, ty: usize) -> Result<Seq<char>, Seq<char>> {
        crate::emission::rendered(self.types@[ty as int].exported)
    }

    /// How the exported module spells a pointer to `ty`.
    pub open spec fn pointer_exported(self, ty: usize) -> Result<Seq<char>, Seq<char>> {
        crate::emission::rendered(self.types@[ty as int].pointer_exported)
    }

    /// Types that mention other types mention types of this context.
    pub open spec fn wf(self) -> bool {
        forall|i: int|
            0 <= i < self.types@.len() ==> #[trigger] self.refers_within(self.types@[i].kind)
    }

    /// The types that `kind` mentions are types of this context.
    pub open spec fn refers_within(self, kind: TypeKind) -> bool {
        match kind {
            TypeKind::Array { elem, size } => self.has(elem),
            TypeKind::Struct { fields } => forall|j: int|
                0 <= j < fields@.len() ==> self.has(#[trigger] fields@[j]),
            TypeKind::Function { result, args } => self.has(result) && forall|j: int|
                0 <= j < args@.len() ==> self.has(#[trigger] args@[j]),
            _ => true,
        }
    }
}

/// A value: its identity and its type.
#[derive(Debug, Clone, Copy, PartialEq, Eq, Structural)]
pub struct Value {
    /// Identifier, unique within a function.
    pub id: u64,
    /// Type of the value.
    pub ty: usize,
}

/// The value of a constant operation.
#[derive(Debug)]
pub enum ConstAttr {
    /// An integer.
    Integer(IntegerAttr),
    /// A floating-point number, given by its LLVM literal.
    Float {
        /// The literal.
        literal: String,
    },
    /// Anything else.
    Other {
        /// How diagnostics show it.
        shown: String,
    },
}

/// A piece of the line that prints an operation.
#[derive(Debug)]
pub enum Piece {
    /// Fixed text.
    Text(String),
    /// The name of a value.
    Value(Value),
    /// The label of a block.
    Label(usize),
    /// The spelling of a type.
    Type(usize),
}

/// What the exporter distinguishes in an operation.
#[derive(Debug)]
pub enum OpKind {
    /// An undefined value, which is written where it is used.
    Undef,
    /// A constant, which is written where it is used.
    Constant(ConstAttr),
    /// The address of a global or a function.
    AddressOf {
        /// The symbol.
        symbol: String,
    },
    /// An unconditional branch.
    Br {
        /// Destination block.
        dest: usize,
        /// Values forwarded to it.
        args: Vec<Value>,
    },
    /// A conditional branch.
    CondBr {
        /// Destination block where the condition holds.
        true_dest: usize,
        /// Values forwarded to it.
        true_args: Vec<Value>,
        /// Destination block where the condition does not hold.
        false_dest: usize,
        /// Values forwarded to it.
        false_args: Vec<Value>,
    },
    /// Any other operation.
    Plain,
}

/// An operation.
#[derive(Debug)]
pub struct OpIr {
    /// What kind of operation it is.
    pub kind: OpKind,
    /// Its results.
    pub results: Vec<Value>,
    /// The line that prints it.
    pub line: Vec<Piece>,
}

/// A basic block.
#[derive(Debug)]
pub struct BlockIr {
    /// Block arguments.
    pub args: Vec<Value>,
    /// Operations in order; the last is the terminator.
    pub ops: Vec<OpIr>,
}

/// The value of an attribute.
#[derive(Debug)]
pub enum AttrObj {
    /// A text.
    Text(String),
    /// An integer.
    Integer(IntegerAttr),
    /// Parameter-attribute carriers; `None` stands for an element of another kind.
    Params(Vec<Option<LlvmParamAttrsAttr>>),
    /// An alignment in bytes.
    Alignment(u32),
    /// A type.
    Type(usize),
    /// The indices of an address computation.
    GepIndices(Vec<GepIndexAttr>),
}

/// An index of an address computation, as an attribute holds it.
#[derive(Debug, Clone, Copy, PartialEq, Eq, Structural)]
pub enum GepIndexAttr {
    /// A constant.
    Constant(u32),
    /// The operand at this position.
    OperandIdx(usize),
}

/// One entry of an attribute dictionary.
#[derive(Debug)]
pub struct AttrEntry {
    /// The key.
    pub key: String,
    /// The value.
    pub value: AttrObj,
}

/// The attributes of an operation.
#[derive(Debug)]
pub struct AttributeDict {
    /// The entries. A later entry hides an earlier one of the same key.
    pub entries: Vec<AttrEntry>,
}

/// The value that `entries` give to `key`.
pub open spec fn attr_lookup(entries: Seq<AttrEntry>, key: Seq<char>) -> Option<AttrObj>
    decreases entries.len(),
{
    if entries.len() == 0 {
        None
    } else if entries.last().key@ == key {
        Some(entries.last().value)
    } else {
        attr_lookup(entries.drop_last(), key)
    }
}

impl AttributeDict {
    /// The value of `key`.
    pub open spec fn lookup(self, key: Seq<char>) -> Option<AttrObj> {
        attr_lookup(self.entries@, key)
    }

    /// A text stands under `key`.
    pub open spec fn has_text(self, key: Seq<char>) -> bool {
        self.lookup(key) matches Some(AttrObj::Text(_))
    }

    /// The integer under `key`.
    pub open spec fn integer(self, key: Seq<char>) -> Option<IntegerAttr> {
        match self.lookup(key) {
            Some(AttrObj::Integer(n)) => Some(n),
            _ => None,
        }
    }

    /// Every integer of the dictionary has at least one bit.
    pub open spec fn wf(self) -> bool {
        forall|i: int|
            0 <= i < self.entries@.len() ==> (#[trigger] self.entries@[i].value matches AttrObj::Integer(
                n,
            ) ==> n.wf())
    }

    /// A dictionary without entries.
    pub fn new() -> (r: AttributeDict)
        ensures
            forall|key: Seq<char>| (#[trigger] r.lookup(key)) is None,
            r.wf(),
    {
        AttributeDict { entries: Vec::new() }
    }

    /// The value of `key`.
    pub fn get(&self, key: &str) -> (r: Option<&AttrObj>)
        ensures
            r is Some <==> self.lookup(key@) is Some,
            r matches Some(value) ==> *value == self.lookup(key@)->0,
    {
        let mut i: usize = self.entries.len();
        assert(self.entries@.take(i as int) == self.entries@);
        while i > 0
            invariant
                i <= self.entries.len(),
                self.lookup(key@) == attr_lookup(self.entries@.take(i as int), key@),
            decreases i,
        {
            let ghost now = self.entries@.take(i as int);
            assert(now.last() == self.entries@[i - 1]);
            assert(now.drop_last() == self.entries@.take(i - 1));
            if str_eq(self.entries[i - 1].key.as_str(), key) {
                return Some(&self.entries[i - 1].value);
            }
            i -= 1;
        }
        None
    }

    /// Whether a text stands under `key`.
    pub fn get_text(&self, key: &str) -> (r: bool)
        ensures
            r == self.has_text(key@),
    {
        match self.get(key) {
            Some(AttrObj::Text(_)) => true,
            _ => false,
        }
    }

    /// The integer under `key`.
    pub fn get_integer(&self, key: &str) -> (r: Option<IntegerAttr>)
        requires
            self.wf(),
        ensures
            r == self.integer(key@),
            r matches Some(n) ==> n.wf(),
    {
        proof {
            lemma_lookup_is_an_entry(self.entries@, key@);
        }
        match self.get(key) {
            Some(AttrObj::Integer(n)) => Some(*n),
            _ => None,
        }
    }

    /// Gives `key` the value `value`.
    pub fn set(&mut self, key: &str, value: AttrObj)
        ensures
            final(self).lookup(key@) == Some(value),
            forall|other: Seq<char>|
                other != key@ ==> #[trigger] final(self).lookup(other) == old(self).lookup(other),
            old(self).wf() && (value matches AttrObj::Integer(n) ==> n.wf()) ==> final(self).wf(),
    {
        self.entries.push(AttrEntry { key: key.to_owned(), value });
        assert(self.entries@.drop_last() == old(self).entries@);
    }
}

/// What a dictionary gives for a key stands in one of its entries.
pub proof fn lemma_lookup_is_an_entry(entries: Seq<AttrEntry>, key: Seq<char>)
    ensures
        attr_lookup(entries, key) matches Some(value) ==> exists|i: int|
            0 <= i < entries.len() && value == (#[trigger] entries[i]).value,
    decreases entries.len(),
{
    if entries.len() > 0 && entries.last().key@ != key {
        lemma_lookup_is_an_entry(entries.drop_last(), key);
        if let Some(value) = attr_lookup(entries, key) {
            let i = choose|i: int|
                0 <= i < entries.len() - 1 && value == (#[trigger] entries.drop_last()[i]).value;
            assert(entries[i].value == value);
        }
    } else if entries.len() > 0 {
        assert(entries[entries.len() - 1].value == entries.last().value);
    }
}

/// A function operation.
#[derive(Debug)]
pub struct FuncIr {
    /// Symbol of the function.
    pub symbol_name: String,
    /// Attributes of the operation.
    pub attributes: AttributeDict,
    /// Type of the function.
    pub ty: usize,
    /// The blocks of the body, the entry block first. `None` where the function
    /// has no body region.
    pub body: Option<Vec<BlockIr>>,
    /// The debug-info subprogram that stands for the function.
    pub debug_scope: Option<u64>,
    /// Whether the exported name is that of a convergent intrinsic.
    pub convergent_intrinsic: bool,
}

/// A global variable.
#[derive(Debug)]
pub struct GlobalIr {
    /// Symbol of the global.
    pub symbol_name: String,
    /// Type of its storage.
    pub ty: usize,
    /// Address space that it lives in.
    pub address_space: u32,
    /// Whether it has external linkage.
    pub external_linkage: bool,
    /// Alignment, where one is given.
    pub alignment: Option<u64>,
    /// Initial bytes in hexadecimal, where they are given.
    pub initializer_hex: Option<String>,
}

/// Every value of `values` has a type of `ctx`.
pub open spec fn values_within(ctx: Context, values: Seq<Value>) -> bool {
    forall|i: int| 0 <= i < values.len() ==> ctx.has((#[trigger] values[i]).ty)
}

impl Piece {
    /// The references of a piece lead to types of `ctx` and to one of `blocks` blocks.
    pub open spec fn within(self, ctx: Context, blocks: nat) -> bool {
        match self {
            Piece::Text(_) => true,
            Piece::Value(v) => true,
            Piece::Label(b) => b < blocks,
            Piece::Type(ty) => ctx.has(ty),
        }
    }
}

impl OpIr {
    /// The operation refers to types of `ctx` and to some of `blocks` blocks, and
    /// has the result that its kind needs.
    pub open spec fn within(self, ctx: Context, blocks: nat) -> bool {
        &&& values_within(ctx, self.results@)
        &&& forall|i: int| 0 <= i < self.line@.len() ==> (#[trigger] self.line@[i]).within(ctx, blocks)
        &&& match self.kind {
            OpKind::Constant(c) => self.results@.len() > 0 && (c matches ConstAttr::Integer(n)
                ==> n.wf()),
            OpKind::AddressOf { symbol } => self.results@.len() > 0,
            OpKind::Br { dest, args } => dest < blocks && values_within(ctx, args@),
            OpKind::CondBr { true_dest, true_args, false_dest, false_args } => {
                &&& true_dest < blocks
                &&& false_dest < blocks
                &&& values_within(ctx, true_args@)
                &&& values_within(ctx, false_args@)
            },
            _ => true,
        }
    }
}

impl BlockIr {
    /// Arguments and operations refer to types of `ctx` and to some of `blocks` blocks.
    pub open spec fn within(self, ctx: Context, blocks: nat) -> bool {
        &&& values_within(ctx, self.args@)
        &&& forall|i: int| 0 <= i < self.ops@.len() ==> (#[trigger] self.ops@[i]).within(ctx, blocks)
    }
}

/// Every block of `blocks` is well formed among them.
pub open spec fn blocks_within(ctx: Context, blocks: Seq<BlockIr>) -> bool {
    forall|i: int| 0 <= i < blocks.len() ==> (#[trigger] blocks[i]).within(ctx, blocks.len())
}

impl FuncIr {
    /// The function refers to types of `ctx` and to its own blocks only.
    pub open spec fn within(self, ctx: Context) -> bool {
        &&& ctx.has(self.ty)
        &&& self.attributes.wf()
        &&& self.body matches Some(blocks) ==> blocks_within(ctx, blocks@)
    }
}

/// How many values the first `n` operations define at most.
pub open spec fn result_count(ops: Seq<OpIr>) -> nat
    decreases ops.len(),
{
    if ops.len() == 0 {
        0
    } else {
        result_count(ops.drop_last()) + ops.last().results@.len()
    }
}

/// How many values the blocks define at most.
pub open spec fn value_count(blocks: Seq<BlockIr>) -> nat
    decreases blocks.len(),
{
    if blocks.len() == 0 {
        0
    } else {
        value_count(blocks.drop_last()) + blocks.last().args@.len() + result_count(
            blocks.last().ops@,
        )
    }
}

}
