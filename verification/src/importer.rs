//! Import of calls of device functions: each becomes an operation in the block that
//! the call ends, after the operations that compute its operands.

use crate::text::decimal;
use crate::text::push_decimal;
use vstd::prelude::*;

verus! {

broadcast use vstd::string::group_string_axioms;

/// What an imported operation is.
#[derive(Debug, Clone, Copy, PartialEq, Eq, Structural)]
pub enum ImportedKind {
    /// Asynchronous copy of 16 bytes from global to shared memory.
    CpAsyncCaShared16,
    /// Commit of the pending copies as a group.
    CpAsyncCommitGroup,
    /// Wait for groups of copies.
    CpAsyncWaitGroup,
    /// Store of four floats.
    StGlobalV4F32,
    /// Load of four floats.
    LdGlobalV4F32,
    /// Atomic addition of four floats.
    AtomicAddGlobalV4F32,
    /// Construction of an array from its elements.
    ConstructArray,
    /// An operation that computes an operand.
    Computed,
}

/// The type of an imported value.
#[derive(Debug, Clone, Copy, PartialEq, Eq, Structural)]
pub enum ImportedType {
    /// A 32-bit float.
    Float32,
    /// An array of 32-bit floats.
    Float32Array {
        /// Number of elements.
        len: u64,
    },
}

/// A result of an imported operation.
#[derive(Debug, Clone, Copy, PartialEq, Eq, Structural)]
pub struct ImportedValue {
    /// Identifier of the value.
    pub id: u64,
    /// Its type.
    pub ty: ImportedType,
}

/// An imported operation.
#[derive(Debug, PartialEq, Eq)]
pub struct ImportedOp {
    /// What it is.
    pub kind: ImportedKind,
    /// Identifiers of its operands.
    pub operands: Vec<u64>,
    /// Its results.
    pub results: Vec<ImportedValue>,
    /// The source location that it carries.
    pub loc: u64,
}

/// A translated operand: the operations that compute it, by position among the
/// operations, in the order in which they stand in the block, and its value.
#[derive(Debug, PartialEq, Eq)]
pub struct Operand {
    /// The operations that compute it.
    pub lead: Vec<usize>,
    /// Identifier of the value.
    pub value: u64,
}

/// Why a call cannot be imported.
#[derive(Debug, PartialEq, Eq)]
pub enum ImportError {
    /// The call is not supported.
    Unsupported(String),
    /// An operand or a type cannot be translated.
    Untranslated(String),
}

/// What [`ImportError`] holds.
#[verifier::ext_equal]
pub enum ImportErrorView {
    /// The call is not supported.
    Unsupported(Seq<char>),
    /// An operand or a type cannot be translated.
    Untranslated(Seq<char>),
}

impl View for ImportError {
    type V = ImportErrorView;

    open spec fn view(&self) -> ImportErrorView {
        match *self {
            ImportError::Unsupported(message) => ImportErrorView::Unsupported(message@),
            ImportError::Untranslated(message) => ImportErrorView::Untranslated(message@),
        }
    }
}

/// How the block goes on after an imported call.
#[derive(Debug, Clone, Copy, PartialEq, Eq, Structural)]
pub enum Continuation {
    /// A jump to a block, after the operation at this position of the block.
    Goto {
        /// The block to jump to.
        target: usize,
        /// The position.
        after: usize,
    },
    /// A value is stored to the destination of the call, then a jump follows.
    StoreAndGoto {
        /// The place that the call assigns to, as the front end numbers it.
        destination: u64,
        /// The value.
        value: ImportedValue,
        /// The block to jump to.
        target: usize,
        /// The position after which the store stands.
        after: usize,
    },
}

/// The state of the import of one block.
#[derive(Debug)]
pub struct Importer {
    /// The operations, by position.
    pub ops: Vec<ImportedOp>,
    /// The operations of the block, in order.
    pub block: Vec<usize>,
    /// The next free value identifier.
    pub next_value: u64,
}

// ---------------------------------------------------------------------------
// Operands
// ---------------------------------------------------------------------------

/// The operations that compute the first `n` operands.
pub open spec fn leads(args: Seq<Result<Operand, String>>, n: nat) -> Seq<usize>
    decreases n,
{
    if n == 0 {
        seq![]
    } else {
        leads(args, (n - 1) as nat) + (match args[n - 1] {
            Ok(operand) => operand.lead@,
            Err(_) => seq![],
        })
    }
}

/// The first `n` operands are translated.
pub open spec fn translated(args: Seq<Result<Operand, String>>, n: nat) -> bool {
    forall|i: int| 0 <= i < n ==> #[trigger] args[i] is Ok
}

/// The values of the operands.
pub open spec fn operand_values(args: Seq<Result<Operand, String>>) -> Seq<u64> {
    args.map_values(
        |arg: Result<Operand, String>|
            match arg {
                Ok(operand) => operand.value,
                Err(_) => 0,
            },
    )
}

/// Where the next operation is inserted: behind `prev`, or at the front.
pub open spec fn insertion_point(prev: Option<usize>) -> nat {
    match prev {
        Some(at) => (at + 1) as nat,
        None => 0,
    }
}

/// `block` with `inserted` at `at`.
pub open spec fn spliced(block: Seq<usize>, at: nat, inserted: Seq<usize>) -> Seq<usize> {
    block.take(at as int) + inserted + block.skip(at as int)
}

/// All operands can be translated.
pub open spec fn all_translated(args: Seq<Result<Operand, String>>) -> bool {
    translated(args, args.len())
}

/// `k` is the first operand that cannot be translated, for `reason`.
pub open spec fn fails_at(args: Seq<Result<Operand, String>>, k: nat, reason: Seq<char>) -> bool {
    &&& k < args.len()
    &&& translated(args, k)
    &&& args[k as int] matches Err(why)
    &&& why@ == reason
}

impl Importer {
    /// The insertion point lies in the block and the operations fit the address space.
    pub open spec fn takes(
        self,
        prev: Option<usize>,
        args: Seq<Result<Operand, String>>,
    ) -> bool {
        &&& insertion_point(prev) <= self.block@.len()
        &&& self.block@.len() + leads(args, args.len()).len() + 2 <= usize::MAX
    }

    /// Inserts the operations that compute the operands behind `prev` and returns the
    /// values and the insertion point behind them.
    fn translate_operands(
        &mut self,
        prev: Option<usize>,
        args: &Vec<Result<Operand, String>>,
    ) -> (r: Result<(Vec<u64>, usize), ImportError>)
        requires
            old(self).takes(prev, args@),
        ensures
            final(self).ops == old(self).ops,
            final(self).next_value == old(self).next_value,
            match r {
                Ok((values, at)) => {
                    &&& all_translated(args@)
                    &&& values@ == operand_values(args@)
                    &&& at == insertion_point(prev) + leads(args@, args@.len()).len()
                    &&& final(self).block@ == spliced(
                        old(self).block@,
                        insertion_point(prev),
                        leads(args@, args@.len()),
                    )
                },
                Err(error) => exists|k: nat|
                    {
                        &&& error@ is Untranslated
                        &&& #[trigger] fails_at(args@, k, error@->Untranslated_0)
                        &&& final(self).block@ == spliced(
                            old(self).block@,
                            insertion_point(prev),
                            leads(args@, k),
                        )
                    },
            },
    {
        let ghost start = self.block@;
        let ghost point = insertion_point(prev);
        let mut at: usize = match prev {
            Some(at) => at + 1,
            None => 0,
        };
        let mut values: Vec<u64> = Vec::new();
        assert(self.block@ =~= spliced(start, point, leads(args@, 0)));
        let mut i: usize = 0;
        while i < args.len()
            invariant
                i <= args.len(),
                start == old(self).block@,
                point == insertion_point(prev),
                old(self).takes(prev, args@),
                self.ops == old(self).ops,
                self.next_value == old(self).next_value,
                translated(args@, i as nat),
                values@ == operand_values(args@).take(i as int),
                at == point + leads(args@, i as nat).len(),
                self.block@ == spliced(start, point, leads(args@, i as nat)),
            decreases args.len() - i,
        {
            match &args[i] {
                Err(reason) => {
                    let error = ImportError::Untranslated(reason.as_str().to_owned());
                    assert(fails_at(args@, i as nat, error@->Untranslated_0));
                    return Err(error);
                },
                Ok(operand) => {
                    let ghost before = leads(args@, i as nat);
                    assert(leads(args@, (i + 1) as nat) == before + operand.lead@);
                    proof {
                        lemma_leads_grow(args@, (i + 1) as nat, args@.len());
                    }
                    let mut j: usize = 0;
                    assert(operand.lead@.take(0) =~= seq![]);
                    assert(self.block@ =~= spliced(start, point, before + operand.lead@.take(0)));
                    while j < operand.lead.len()
                        invariant
                            j <= operand.lead.len(),
                            start == old(self).block@,
                            point == insertion_point(prev),
                            point <= start.len(),
                            self.ops == old(self).ops,
                            self.next_value == old(self).next_value,
                            start.len() + before.len() + operand.lead@.len() + 2 <= usize::MAX,
                            at == point + before.len() + j,
                            self.block@ == spliced(
                                start,
                                point,
                                before + operand.lead@.take(j as int),
                            ),
                        decreases operand.lead.len() - j,
                    {
                        self.block.insert(at, operand.lead[j]);
                        at += 1;
                        j += 1;
                        assert(self.block@ =~= spliced(
                            start,
                            point,
                            before + operand.lead@.take(j as int),
                        ));
                    }
                    assert(operand.lead@.take(j as int) =~= operand.lead@);
                    values.push(operand.value);
                },
            }
            i += 1;
            assert(values@ =~= operand_values(args@).take(i as int));
        }
        assert(values@ =~= operand_values(args@));
        Ok((values, at))
    }

    /// Adds an operation and puts it into the block at `at`.
    fn insert_op(
        &mut self,
        at: usize,
        kind: ImportedKind,
        operands: Vec<u64>,
        results: Vec<ImportedValue>,
        loc: u64,
    )
        requires
            at <= old(self).block@.len(),
            old(self).block@.len() < usize::MAX,
        ensures
            final(self).block@ == old(self).block@.insert(at as int, old(self).ops@.len() as usize),
            final(self).ops@ == old(self).ops@.push(
                ImportedOp { kind, operands, results, loc },
            ),
            final(self).next_value == old(self).next_value,
    {
        let op: usize = self.ops.len();
        self.ops.push(ImportedOp { kind, operands, results, loc });
        self.block.insert(at, op);
    }
}

proof fn lemma_leads_grow(args: Seq<Result<Operand, String>>, m: nat, n: nat)
    requires
        m <= n <= args.len(),
    ensures
        leads(args, m).len() <= leads(args, n).len(),
    decreases n,
{
    if m < n {
        lemma_leads_grow(args, m, (n - 1) as nat);
    }
}

// ---------------------------------------------------------------------------
// Calls
// ---------------------------------------------------------------------------

/// One operation without results was added, behind the operations that compute its
/// operands.
pub open spec fn call_imported(
    before: Importer,
    after: Importer,
    kind: ImportedKind,
    args: Seq<Result<Operand, String>>,
    prev: Option<usize>,
    loc: u64,
) -> bool {
    &&& after.ops@.len() == before.ops@.len() + 1
    &&& after.ops@.take(before.ops@.len() as int) == before.ops@
    &&& after.ops@.last().kind == kind
    &&& after.ops@.last().operands@ == operand_values(args)
    &&& after.ops@.last().results@ == Seq::<ImportedValue>::empty()
    &&& after.ops@.last().loc == loc
    &&& after.block@ == spliced(
        before.block@,
        insertion_point(prev),
        leads(args, args.len()).push(before.ops@.len() as usize),
    )
    &&& after.next_value == before.next_value
}

/// Operands up to one that cannot be translated were put into the block.
pub open spec fn call_abandoned(
    before: Importer,
    after: Importer,
    args: Seq<Result<Operand, String>>,
    prev: Option<usize>,
    reason: Seq<char>,
) -> bool {
    &&& after.ops == before.ops
    &&& after.next_value == before.next_value
    &&& exists|k: nat|
        {
            &&& #[trigger] fails_at(args, k, reason)
            &&& after.block@ == spliced(before.block@, insertion_point(prev), leads(args, k))
        }
}

/// The message for a wrong number of arguments.
pub open spec fn arity_message(expects: Seq<char>, got: nat) -> Seq<char> {
    expects + decimal(got)
}

/// The outcome of importing a call without results. The operation is there even where
/// the call has no target, which is an error.
pub open spec fn emit_outcome(
    before: Importer,
    after: Importer,
    kind: ImportedKind,
    arity: nat,
    expects: Seq<char>,
    untargeted: Seq<char>,
    args: Seq<Result<Operand, String>>,
    target: Option<usize>,
    prev: Option<usize>,
    loc: u64,
    r: Result<Continuation, ImportError>,
) -> bool {
    if args.len() != arity {
        &&& after == before
        &&& r matches Err(error)
        &&& error@ == ImportErrorView::Unsupported(arity_message(expects, args.len()))
    } else if !all_translated(args) {
        &&& r matches Err(error)
        &&& error@ matches ImportErrorView::Untranslated(reason)
        &&& call_abandoned(before, after, args, prev, reason)
    } else {
        &&& call_imported(before, after, kind, args, prev, loc)
        &&& match target {
            Some(target) => r == Ok::<Continuation, ImportError>(
                Continuation::Goto {
                    target,
                    after: (insertion_point(prev) + leads(args, args.len()).len()) as usize,
                },
            ),
            None => r matches Err(error) && error@ == ImportErrorView::Unsupported(untargeted),
        }
    }
}

fn emit_call(
    importer: &mut Importer,
    kind: ImportedKind,
    arity: usize,
    expects: &str,
    untargeted: &str,
    args: &Vec<Result<Operand, String>>,
    target: Option<usize>,
    prev: Option<usize>,
    loc: u64,
) -> (r: Result<Continuation, ImportError>)
    requires
        old(importer).takes(prev, args@),
    ensures
        emit_outcome(
            *old(importer),
            *final(importer),
            kind,
            arity as nat,
            expects@,
            untargeted@,
            args@,
            target,
            prev,
            loc,
            r,
        ),
{
    if args.len() != arity {
        let mut message = expects.to_owned();
        push_decimal(&mut message, args.len() as u64);
        return Err(ImportError::Unsupported(message));
    }
    let (operands, at) = match importer.translate_operands(prev, args) {
        Ok(translated) => translated,
        Err(error) => {
            return Err(error);
        },
    };
    let results: Vec<ImportedValue> = Vec::new();
    assert(results@ =~= Seq::<ImportedValue>::empty());
    importer.insert_op(at, kind, operands, results, loc);
    proof {
        let before = *old(importer);
        assert(importer.ops@.take(before.ops@.len() as int) =~= before.ops@);
        assert(importer.block@ =~= spliced(
            before.block@,
            insertion_point(prev),
            leads(args@, args@.len()).push(before.ops@.len() as usize),
        ));
    }
    match target {
        Some(target) => Ok(Continuation::Goto { target, after: at }),
        None => Err(ImportError::Unsupported(untargeted.to_owned())),
    }
}

/// Imports the asynchronous copy of 16 bytes: the destination in shared memory, then
/// the source in global memory.
pub fn emit_cp_async_ca_shared_global_16(
    importer: &mut Importer,
    args: &Vec<Result<Operand, String>>,
    target: Option<usize>,
    prev: Option<usize>,
    loc: u64,
) -> (r: Result<Continuation, ImportError>)
    requires
        old(importer).takes(prev, args@),
    ensures
        emit_outcome(
            *old(importer),
            *final(importer),
            ImportedKind::CpAsyncCaShared16,
            2,
            "cp_async_ca_shared_global_16 expects 2 arguments, got "@,
            "cp_async_ca_shared_global_16 call without target block"@,
            args@,
            target,
            prev,
            loc,
            r,
        ),
{
    emit_call(
        importer,
        ImportedKind::CpAsyncCaShared16,
        2,
        "cp_async_ca_shared_global_16 expects 2 arguments, got ",
        "cp_async_ca_shared_global_16 call without target block",
        args,
        target,
        prev,
        loc,
    )
}

/// Imports the commit of the pending copies.
pub fn emit_cp_async_commit_group(
    importer: &mut Importer,
    args: &Vec<Result<Operand, String>>,
    target: Option<usize>,
    prev: Option<usize>,
    loc: u64,
) -> (r: Result<Continuation, ImportError>)
    requires
        old(importer).takes(prev, args@),
    ensures
        emit_outcome(
            *old(importer),
            *final(importer),
            ImportedKind::CpAsyncCommitGroup,
            0,
            "cp_async_commit_group expects 0 arguments, got "@,
            "cp_async_commit_group call without target block"@,
            args@,
            target,
            prev,
            loc,
            r,
        ),
{
    emit_call(
        importer,
        ImportedKind::CpAsyncCommitGroup,
        0,
        "cp_async_commit_group expects 0 arguments, got ",
        "cp_async_commit_group call without target block",
        args,
        target,
        prev,
        loc,
    )
}

/// Imports the wait until at most as many groups are pending as the argument says.
pub fn emit_cp_async_wait_group(
    importer: &mut Importer,
    args: &Vec<Result<Operand, String>>,
    target: Option<usize>,
    prev: Option<usize>,
    loc: u64,
) -> (r: Result<Continuation, ImportError>)
    requires
        old(importer).takes(prev, args@),
    ensures
        emit_outcome(
            *old(importer),
            *final(importer),
            ImportedKind::CpAsyncWaitGroup,
            1,
            "cp_async_wait_group expects 1 argument, got "@,
            "cp_async_wait_group call without target block"@,
            args@,
            target,
            prev,
            loc,
            r,
        ),
{
    emit_call(
        importer,
        ImportedKind::CpAsyncWaitGroup,
        1,
        "cp_async_wait_group expects 1 argument, got ",
        "cp_async_wait_group call without target block",
        args,
        target,
        prev,
        loc,
    )
}

/// Imports the store of four floats: the address, then the floats.
pub fn emit_st_global_v4_f32(
    importer: &mut Importer,
    args: &Vec<Result<Operand, String>>,
    target: Option<usize>,
    prev: Option<usize>,
    loc: u64,
) -> (r: Result<Continuation, ImportError>)
    requires
        old(importer).takes(prev, args@),
    ensures
        emit_outcome(
            *old(importer),
            *final(importer),
            ImportedKind::StGlobalV4F32,
            5,
            "st_global_v4_f32 expects 5 arguments (p, a, b, c, d), got "@,
            "st_global_v4_f32 call without target block"@,
            args@,
            target,
            prev,
            loc,
            r,
        ),
{
    emit_call(
        importer,
        ImportedKind::StGlobalV4F32,
        5,
        "st_global_v4_f32 expects 5 arguments (p, a, b, c, d), got ",
        "st_global_v4_f32 call without target block",
        args,
        target,
        prev,
        loc,
    )
}

/// Imports the atomic addition of four floats: the address, then the addends.
pub fn emit_atomic_add_global_v4_f32(
    importer: &mut Importer,
    args: &Vec<Result<Operand, String>>,
    target: Option<usize>,
    prev: Option<usize>,
    loc: u64,
) -> (r: Result<Continuation, ImportError>)
    requires
        old(importer).takes(prev, args@),
    ensures
        emit_outcome(
            *old(importer),
            *final(importer),
            ImportedKind::AtomicAddGlobalV4F32,
            5,
            "atomic_add_global_v4_f32 expects 5 arguments (p, a, b, c, d), got "@,
            "atomic_add_global_v4_f32 call without target block"@,
            args@,
            target,
            prev,
            loc,
            r,
        ),
{
    emit_call(
        importer,
        ImportedKind::AtomicAddGlobalV4F32,
        5,
        "atomic_add_global_v4_f32 expects 5 arguments (p, a, b, c, d), got ",
        "atomic_add_global_v4_f32 call without target block",
        args,
        target,
        prev,
        loc,
    )
}

/// The four floats that a load gives.
pub open spec fn loaded_floats(next: u64) -> Seq<ImportedValue> {
    Seq::new(4, |i: int| ImportedValue { id: (next + i) as u64, ty: ImportedType::Float32 })
}

/// The array that holds the loaded floats.
pub open spec fn loaded_array(next: u64) -> ImportedValue {
    ImportedValue { id: (next + 4) as u64, ty: ImportedType::Float32Array { len: 4 } }
}

/// A load and the construction of an array from what it gives were added.
pub open spec fn load_imported(
    before: Importer,
    after: Importer,
    args: Seq<Result<Operand, String>>,
    prev: Option<usize>,
    loc: u64,
) -> bool {
    let n = before.ops@.len();
    &&& after.ops@.len() == n + 2
    &&& after.ops@.take(n as int) == before.ops@
    &&& after.ops@[n as int].kind == ImportedKind::LdGlobalV4F32
    &&& after.ops@[n as int].operands@ == operand_values(args)
    &&& after.ops@[n as int].results@ == loaded_floats(before.next_value)
    &&& after.ops@[n as int].loc == loc
    &&& after.ops@[n as int + 1].kind == ImportedKind::ConstructArray
    &&& after.ops@[n as int + 1].operands@ == loaded_floats(before.next_value).map_values(
        |v: ImportedValue| v.id,
    )
    &&& after.ops@[n as int + 1].results@ == seq![loaded_array(before.next_value)]
    &&& after.ops@[n as int + 1].loc == loc
    &&& after.block@ == spliced(
        before.block@,
        insertion_point(prev),
        leads(args, args.len()).push(n as usize).push((n + 1) as usize),
    )
    &&& after.next_value == before.next_value + 5
}

/// The outcome of importing a load of four floats.
pub open spec fn load_outcome(
    before: Importer,
    after: Importer,
    args: Seq<Result<Operand, String>>,
    destination: u64,
    target: Option<usize>,
    prev: Option<usize>,
    loc: u64,
    r: Result<Continuation, ImportError>,
) -> bool {
    if args.len() != 1 {
        &&& after == before
        &&& r matches Err(error)
        &&& error@ == ImportErrorView::Unsupported(
            arity_message("ld_global_v4_f32 expects 1 argument (p), got "@, args.len()),
        )
    } else if !all_translated(args) {
        &&& r matches Err(error)
        &&& error@ matches ImportErrorView::Untranslated(reason)
        &&& call_abandoned(before, after, args, prev, reason)
    } else {
        &&& load_imported(before, after, args, prev, loc)
        &&& match target {
            Some(target) => r == Ok::<Continuation, ImportError>(
                Continuation::StoreAndGoto {
                    destination,
                    value: loaded_array(before.next_value),
                    target,
                    after: (insertion_point(prev) + leads(args, args.len()).len() + 1) as usize,
                },
            ),
            None => r matches Err(error) && error@ == ImportErrorView::Unsupported(
                "ld_global_v4_f32 call without target block"@,
            ),
        }
    }
}

/// Imports the load of four floats: the floats are bundled into an array, which is
/// stored to the destination of the call.
pub fn emit_ld_global_v4_f32(
    importer: &mut Importer,
    args: &Vec<Result<Operand, String>>,
    destination: u64,
    target: Option<usize>,
    prev: Option<usize>,
    loc: u64,
) -> (r: Result<Continuation, ImportError>)
    requires
        old(importer).takes(prev, args@),
        old(importer).ops@.len() + 2 <= usize::MAX,
        old(importer).next_value <= u64::MAX - 5,
    ensures
        load_outcome(*old(importer), *final(importer), args@, destination, target, prev, loc, r),
{
    if args.len() != 1 {
        let mut message = "ld_global_v4_f32 expects 1 argument (p), got ".to_owned();
        push_decimal(&mut message, args.len() as u64);
        return Err(ImportError::Unsupported(message));
    }
    let (operands, at) = match importer.translate_operands(prev, args) {
        Ok(translated) => translated,
        Err(error) => {
            return Err(error);
        },
    };
    let next: u64 = importer.next_value;
    let mut floats: Vec<ImportedValue> = Vec::new();
    let mut elements: Vec<u64> = Vec::new();
    let mut i: u64 = 0;
    while i < 4
        invariant
            i <= 4,
            next <= u64::MAX - 5,
            floats@ == loaded_floats(next).take(i as int),
            elements@ == loaded_floats(next).map_values(|v: ImportedValue| v.id).take(i as int),
        decreases 4 - i,
    {
        floats.push(ImportedValue { id: next + i, ty: ImportedType::Float32 });
        elements.push(next + i);
        i += 1;
        assert(floats@ =~= loaded_floats(next).take(i as int));
        assert(elements@ =~= loaded_floats(next).map_values(|v: ImportedValue| v.id).take(
            i as int,
        ));
    }
    assert(floats@ =~= loaded_floats(next));
    assert(elements@ =~= loaded_floats(next).map_values(|v: ImportedValue| v.id));
    let array = ImportedValue { id: next + 4, ty: ImportedType::Float32Array { len: 4 } };
    importer.next_value = next + 5;
    importer.insert_op(at, ImportedKind::LdGlobalV4F32, operands, floats, loc);
    let mut results: Vec<ImportedValue> = Vec::new();
    results.push(array);
    assert(results@ =~= seq![loaded_array(next)]);
    importer.insert_op(at + 1, ImportedKind::ConstructArray, elements, results, loc);
    proof {
        let before = *old(importer);
        let n = before.ops@.len();
        assert(importer.ops@.take(n as int) =~= before.ops@);
        assert(importer.block@ =~= spliced(
            before.block@,
            insertion_point(prev),
            leads(args@, args@.len()).push(n as usize).push((n + 1) as usize),
        ));
    }
    match target {
        Some(target) => Ok(
            Continuation::StoreAndGoto { destination, value: array, target, after: at + 1 },
        ),
        None => Err(
            ImportError::Unsupported("ld_global_v4_f32 call without target block".to_owned()),
        ),
    }
}

// ---------------------------------------------------------------------------
// Laws
// ---------------------------------------------------------------------------

/// The operations that were in the block stay in it, in their order: imports insert
/// at one place and change nothing else.
pub proof fn imports_keep_the_block(block: Seq<usize>, prev: Option<usize>, inserted: Seq<usize>)
    requires
        insertion_point(prev) <= block.len(),
    ensures
        ({
            let at = insertion_point(prev) as int;
            let after = spliced(block, insertion_point(prev), inserted);
            &&& after.take(at) == block.take(at)
            &&& after.skip(at + inserted.len()) == block.skip(at)
            &&& after.subrange(at, at + inserted.len()) == inserted
        }),
{
    let at = insertion_point(prev) as int;
    let after = spliced(block, insertion_point(prev), inserted);
    assert(after.take(at) =~= block.take(at));
    assert(after.skip(at + inserted.len()) =~= block.skip(at));
    assert(after.subrange(at, at + inserted.len()) =~= inserted);
}

/// What a failed import is told is decided by the first operand that cannot be
/// translated.
pub proof fn first_failure_is_reported(
    args: Seq<Result<Operand, String>>,
    k: nat,
    reason: Seq<char>,
    l: nat,
    other: Seq<char>,
)
    requires
        fails_at(args, k, reason),
        fails_at(args, l, other),
    ensures
        k == l,
        reason == other,
{
    if k < l {
        assert(args[k as int] is Ok);
    }
    if l < k {
        assert(args[l as int] is Ok);
    }
}

}
