//! What imported calls become, in terms of the calls.

use crate::importer::emit_atomic_add_global_v4_f32;
use crate::importer::emit_cp_async_ca_shared_global_16;
use crate::importer::emit_cp_async_commit_group;
use crate::importer::emit_cp_async_wait_group;
use crate::importer::emit_ld_global_v4_f32;
use crate::importer::emit_st_global_v4_f32;
use crate::importer::leads;
use crate::importer::Continuation;
use crate::importer::ImportError;
use crate::importer::ImportedKind;
use crate::importer::ImportedOp;
use crate::importer::ImportedType;
use crate::importer::ImportedValue;
use crate::importer::Importer;
use crate::importer::Operand;
use crate::text::decimal;
use vstd::prelude::*;

verus! {

broadcast use vstd::string::group_string_axioms;

/// The position behind `prev`, the front where there is none.
pub open spec fn behind(prev: Option<usize>) -> int {
    match prev {
        Some(at) => at + 1,
        None => 0,
    }
}

/// Every argument was translated.
pub open spec fn known(args: Seq<Result<Operand, String>>) -> bool {
    forall|i: int| 0 <= i < args.len() ==> !((#[trigger] args[i]) is Err)
}

/// The operations that compute an argument.
pub open spec fn lead_of(arg: Result<Operand, String>) -> Seq<usize> {
    arg->Ok_0.lead@
}

/// `op` takes the values of the arguments, in their order, at the source location.
pub open spec fn takes_arguments(
    op: ImportedOp,
    args: Seq<Result<Operand, String>>,
    loc: u64,
) -> bool {
    &&& op.operands@.len() == args.len()
    &&& forall|i: int|
        0 <= i < args.len() ==> op.operands@[i] == (#[trigger] args[i])->Ok_0.value
    &&& op.loc == loc
}

/// `after` is `before` with `count` operations more.
pub open spec fn added(before: Importer, after: Importer, count: nat) -> bool {
    &&& after.ops@.len() == before.ops@.len() + count
    &&& forall|i: int| 0 <= i < before.ops@.len() ==> #[trigger] after.ops@[i] == before.ops@[i]
}

/// `after` is `before` with `middle` put in behind `prev`.
pub open spec fn put_in(
    before: Seq<usize>,
    after: Seq<usize>,
    prev: Option<usize>,
    middle: Seq<usize>,
) -> bool {
    &&& after.len() == before.len() + middle.len()
    &&& forall|i: int| 0 <= i < behind(prev) ==> #[trigger] after[i] == before[i]
    &&& forall|i: int|
        0 <= i < middle.len() ==> after[behind(prev) + i] == #[trigger] middle[i]
    &&& forall|i: int|
        behind(prev) <= i < before.len() ==> after[i + middle.len()] == #[trigger] before[i]
}

proof fn lemma_put_in(
    before: Seq<usize>,
    after: Seq<usize>,
    prev: Option<usize>,
    middle: Seq<usize>,
)
    requires
        behind(prev) <= before.len(),
        after == crate::importer::spliced(
            before,
            crate::importer::insertion_point(prev),
            middle,
        ),
    ensures
        put_in(before, after, prev, middle),
{
    let at = behind(prev);
    assert(crate::importer::insertion_point(prev) == at);
    assert forall|i: int| at <= i < before.len() implies after[i + middle.len()]
        == #[trigger] before[i] by {
        assert(before.skip(at)[i - at] == before[i]);
    }
}

proof fn lemma_leads(args: Seq<Result<Operand, String>>)
    requires
        known(args),
    ensures
        args.len() == 0 ==> leads(args, 0) == Seq::<usize>::empty(),
        args.len() == 1 ==> leads(args, 1) == lead_of(args[0]),
        args.len() == 2 ==> leads(args, 2) == lead_of(args[0]) + lead_of(args[1]),
        args.len() == 5 ==> leads(args, 5) == lead_of(args[0]) + lead_of(args[1]) + lead_of(args[2])
            + lead_of(args[3]) + lead_of(args[4]),
{
    reveal_with_fuel(leads, 6);
    assert forall|i: int| 0 <= i < args.len() implies (#[trigger] args[i]) is Ok by {
        assert(!(args[i] is Err));
    }
    assert(leads(args, 0) =~= Seq::<usize>::empty());
    if args.len() == 1 {
        assert(leads(args, 1) =~= lead_of(args[0]));
    }
    if args.len() == 2 {
        assert(leads(args, 1) =~= lead_of(args[0]));
        assert(leads(args, 2) =~= lead_of(args[0]) + lead_of(args[1]));
    }
    if args.len() == 5 {
        assert(leads(args, 1) =~= lead_of(args[0]));
        assert(leads(args, 2) =~= lead_of(args[0]) + lead_of(args[1]));
        assert(leads(args, 3) =~= lead_of(args[0]) + lead_of(args[1]) + lead_of(args[2]));
        assert(leads(args, 4) =~= lead_of(args[0]) + lead_of(args[1]) + lead_of(args[2]) + lead_of(
            args[3],
        ));
        assert(leads(args, 5) =~= lead_of(args[0]) + lead_of(args[1]) + lead_of(args[2]) + lead_of(
            args[3],
        ) + lead_of(args[4]));
    }
}

proof fn lemma_known(args: Seq<Result<Operand, String>>)
    ensures
        known(args) <==> crate::importer::all_translated(args),
{
    if known(args) {
        assert forall|i: int| 0 <= i < args.len() implies #[trigger] args[i] is Ok by {
            assert(!(args[i] is Err));
        }
    }
    if crate::importer::all_translated(args) {
        assert forall|i: int| 0 <= i < args.len() implies !((#[trigger] args[i]) is Err) by {
            assert(args[i] is Ok);
        }
    }
}

/// The reason is that of the first argument that was not translated.
pub open spec fn first_reason(args: Seq<Result<Operand, String>>, reason: Seq<char>) -> bool {
    exists|k: int|
        0 <= k < args.len() && (forall|i: int| 0 <= i < k ==> !((#[trigger] args[i]) is Err)) && (
        #[trigger] args[k] matches Err(why) && why@ == reason)
}

proof fn lemma_first_reason(args: Seq<Result<Operand, String>>, k: nat, reason: Seq<char>)
    requires
        crate::importer::fails_at(args, k, reason),
    ensures
        first_reason(args, reason),
{
    assert forall|i: int| 0 <= i < k implies !((#[trigger] args[i]) is Err) by {
        assert(args[i] is Ok);
    }
    assert(args[k as int] is Err);
}

/// The asynchronous copy becomes one copy of the two operands in their order,
/// behind the operations that compute them, and the block goes on behind it. It takes
/// exactly 2 arguments.
pub proof fn copies_are_imported(
    importer: &mut Importer,
    args: Vec<Result<Operand, String>>,
    target: Option<usize>,
    prev: Option<usize>,
    loc: u64,
    r: Result<Continuation, ImportError>,
)
    requires
        old(importer).takes(prev, args@),
        old(importer).ops@.len() < usize::MAX,
        call_ensures(emit_cp_async_ca_shared_global_16, (importer, &args, target, prev, loc), r),
    ensures
        r is Ok <==> args@.len() == 2 && known(args@) && target is Some,
        args@.len() == 2 && known(args@) ==> {
            let n = old(importer).ops@.len();
            let lead = lead_of(args@[0]) + lead_of(args@[1]);
            let op = final(importer).ops@[n as int];
            &&& added(*old(importer), *final(importer), 1)
            &&& op.kind == ImportedKind::CpAsyncCaShared16
            &&& takes_arguments(op, args@, loc)
            &&& op.results@.len() == 0
            &&& final(importer).next_value == old(importer).next_value
            &&& put_in(
                old(importer).block@,
                final(importer).block@,
                prev,
                lead.push(n as usize),
            )
            &&& target matches Some(next) ==> (r matches Ok(Continuation::Goto { target: t, after })
                && t == next && after == behind(prev) + lead.len())
            &&& target is None ==> (r matches Err(ImportError::Unsupported(message)) && message@
                == "cp_async_ca_shared_global_16 call without target block"@)
        },
        args@.len() != 2 ==> *final(importer) == *old(importer) && (r matches Err(
            ImportError::Unsupported(message),
        ) && message@ == "cp_async_ca_shared_global_16 expects 2 arguments, got "@ + decimal(args@.len())),
        args@.len() == 2 && !known(args@) ==> final(importer).ops == old(importer).ops && (
        r matches Err(ImportError::Untranslated(message)) && first_reason(args@, message@)),
{
    let before = *old(importer);
    let after = *final(importer);
    lemma_known(args@);
    if args@.len() == 2 {
        if known(args@) {
            lemma_leads(args@);
            lemma_put_in(
                before.block@,
                after.block@,
                prev,
                leads(args@, 2).push(before.ops@.len() as usize),
            );
            assert forall|i: int| 0 <= i < before.ops@.len() implies #[trigger] after.ops@[i]
                == before.ops@[i] by {
                assert(after.ops@.take(before.ops@.len() as int)[i] == before.ops@[i]);
            }
            assert(after.ops@.last() == after.ops@[before.ops@.len() as int]);
        } else {
            let reason = r->Err_0@->Untranslated_0;
            let k = choose|k: nat| #[trigger] crate::importer::fails_at(args@, k, reason);
            lemma_first_reason(args@, k, reason);
        }
    }
}

/// The commit of copies becomes one commit without operands,
/// behind the operations that compute them, and the block goes on behind it. It takes
/// exactly 0 arguments.
pub proof fn commits_are_imported(
    importer: &mut Importer,
    args: Vec<Result<Operand, String>>,
    target: Option<usize>,
    prev: Option<usize>,
    loc: u64,
    r: Result<Continuation, ImportError>,
)
    requires
        old(importer).takes(prev, args@),
        old(importer).ops@.len() < usize::MAX,
        call_ensures(emit_cp_async_commit_group, (importer, &args, target, prev, loc), r),
    ensures
        r is Ok <==> args@.len() == 0 && known(args@) && target is Some,
        args@.len() == 0 && known(args@) ==> {
            let n = old(importer).ops@.len();
            let lead = Seq::<usize>::empty();
            let op = final(importer).ops@[n as int];
            &&& added(*old(importer), *final(importer), 1)
            &&& op.kind == ImportedKind::CpAsyncCommitGroup
            &&& takes_arguments(op, args@, loc)
            &&& op.results@.len() == 0
            &&& final(importer).next_value == old(importer).next_value
            &&& put_in(
                old(importer).block@,
                final(importer).block@,
                prev,
                lead.push(n as usize),
            )
            &&& target matches Some(next) ==> (r matches Ok(Continuation::Goto { target: t, after })
                && t == next && after == behind(prev) + lead.len())
            &&& target is None ==> (r matches Err(ImportError::Unsupported(message)) && message@
                == "cp_async_commit_group call without target block"@)
        },
        args@.len() != 0 ==> *final(importer) == *old(importer) && (r matches Err(
            ImportError::Unsupported(message),
        ) && message@ == "cp_async_commit_group expects 0 arguments, got "@ + decimal(args@.len())),
        args@.len() == 0 && !known(args@) ==> final(importer).ops == old(importer).ops && (
        r matches Err(ImportError::Untranslated(message)) && first_reason(args@, message@)),
{
    let before = *old(importer);
    let after = *final(importer);
    lemma_known(args@);
    if args@.len() == 0 {
        if known(args@) {
            lemma_leads(args@);
            lemma_put_in(
                before.block@,
                after.block@,
                prev,
                leads(args@, 0).push(before.ops@.len() as usize),
            );
            assert forall|i: int| 0 <= i < before.ops@.len() implies #[trigger] after.ops@[i]
                == before.ops@[i] by {
                assert(after.ops@.take(before.ops@.len() as int)[i] == before.ops@[i]);
            }
            assert(after.ops@.last() == after.ops@[before.ops@.len() as int]);
        } else {
            let reason = r->Err_0@->Untranslated_0;
            let k = choose|k: nat| #[trigger] crate::importer::fails_at(args@, k, reason);
            lemma_first_reason(args@, k, reason);
        }
    }
}

/// The wait for copies becomes one wait with its operand,
/// behind the operations that compute them, and the block goes on behind it. It takes
/// exactly 1 argument.
pub proof fn waits_are_imported(
    importer: &mut Importer,
    args: Vec<Result<Operand, String>>,
    target: Option<usize>,
    prev: Option<usize>,
    loc: u64,
    r: Result<Continuation, ImportError>,
)
    requires
        old(importer).takes(prev, args@),
        old(importer).ops@.len() < usize::MAX,
        call_ensures(emit_cp_async_wait_group, (importer, &args, target, prev, loc), r),
    ensures
        r is Ok <==> args@.len() == 1 && known(args@) && target is Some,
        args@.len() == 1 && known(args@) ==> {
            let n = old(importer).ops@.len();
            let lead = lead_of(args@[0]);
            let op = final(importer).ops@[n as int];
            &&& added(*old(importer), *final(importer), 1)
            &&& op.kind == ImportedKind::CpAsyncWaitGroup
            &&& takes_arguments(op, args@, loc)
            &&& op.results@.len() == 0
            &&& final(importer).next_value == old(importer).next_value
            &&& put_in(
                old(importer).block@,
                final(importer).block@,
                prev,
                lead.push(n as usize),
            )
            &&& target matches Some(next) ==> (r matches Ok(Continuation::Goto { target: t, after })
                && t == next && after == behind(prev) + lead.len())
            &&& target is None ==> (r matches Err(ImportError::Unsupported(message)) && message@
                == "cp_async_wait_group call without target block"@)
        },
        args@.len() != 1 ==> *final(importer) == *old(importer) && (r matches Err(
            ImportError::Unsupported(message),
        ) && message@ == "cp_async_wait_group expects 1 argument, got "@ + decimal(args@.len())),
        args@.len() == 1 && !known(args@) ==> final(importer).ops == old(importer).ops && (
        r matches Err(ImportError::Untranslated(message)) && first_reason(args@, message@)),
{
    let before = *old(importer);
    let after = *final(importer);
    lemma_known(args@);
    if args@.len() == 1 {
        if known(args@) {
            lemma_leads(args@);
            lemma_put_in(
                before.block@,
                after.block@,
                prev,
                leads(args@, 1).push(before.ops@.len() as usize),
            );
            assert forall|i: int| 0 <= i < before.ops@.len() implies #[trigger] after.ops@[i]
                == before.ops@[i] by {
                assert(after.ops@.take(before.ops@.len() as int)[i] == before.ops@[i]);
            }
            assert(after.ops@.last() == after.ops@[before.ops@.len() as int]);
        } else {
            let reason = r->Err_0@->Untranslated_0;
            let k = choose|k: nat| #[trigger] crate::importer::fails_at(args@, k, reason);
            lemma_first_reason(args@, k, reason);
        }
    }
}

/// The store of four floats becomes one store of the address and the floats in their order,
/// behind the operations that compute them, and the block goes on behind it. It takes
/// exactly 5 arguments.
pub proof fn vector_stores_are_imported(
    importer: &mut Importer,
    args: Vec<Result<Operand, String>>,
    target: Option<usize>,
    prev: Option<usize>,
    loc: u64,
    r: Result<Continuation, ImportError>,
)
    requires
        old(importer).takes(prev, args@),
        old(importer).ops@.len() < usize::MAX,
        call_ensures(emit_st_global_v4_f32, (importer, &args, target, prev, loc), r),
    ensures
        r is Ok <==> args@.len() == 5 && known(args@) && target is Some,
        args@.len() == 5 && known(args@) ==> {
            let n = old(importer).ops@.len();
            let lead = lead_of(args@[0]) + lead_of(args@[1]) + lead_of(args@[2]) + lead_of(
                    args@[3],
                ) + lead_of(args@[4]);
            let op = final(importer).ops@[n as int];
            &&& added(*old(importer), *final(importer), 1)
            &&& op.kind == ImportedKind::StGlobalV4F32
            &&& takes_arguments(op, args@, loc)
            &&& op.results@.len() == 0
            &&& final(importer).next_value == old(importer).next_value
            &&& put_in(
                old(importer).block@,
                final(importer).block@,
                prev,
                lead.push(n as usize),
            )
            &&& target matches Some(next) ==> (r matches Ok(Continuation::Goto { target: t, after })
                && t == next && after == behind(prev) + lead.len())
            &&& target is None ==> (r matches Err(ImportError::Unsupported(message)) && message@
                == "st_global_v4_f32 call without target block"@)
        },
        args@.len() != 5 ==> *final(importer) == *old(importer) && (r matches Err(
            ImportError::Unsupported(message),
        ) && message@ == "st_global_v4_f32 expects 5 arguments (p, a, b, c, d), got "@ + decimal(args@.len())),
        args@.len() == 5 && !known(args@) ==> final(importer).ops == old(importer).ops && (
        r matches Err(ImportError::Untranslated(message)) && first_reason(args@, message@)),
{
    let before = *old(importer);
    let after = *final(importer);
    lemma_known(args@);
    if args@.len() == 5 {
        if known(args@) {
            lemma_leads(args@);
            lemma_put_in(
                before.block@,
                after.block@,
                prev,
                leads(args@, 5).push(before.ops@.len() as usize),
            );
            assert forall|i: int| 0 <= i < before.ops@.len() implies #[trigger] after.ops@[i]
                == before.ops@[i] by {
                assert(after.ops@.take(before.ops@.len() as int)[i] == before.ops@[i]);
            }
            assert(after.ops@.last() == after.ops@[before.ops@.len() as int]);
        } else {
            let reason = r->Err_0@->Untranslated_0;
            let k = choose|k: nat| #[trigger] crate::importer::fails_at(args@, k, reason);
            lemma_first_reason(args@, k, reason);
        }
    }
}

/// The atomic addition of four floats becomes one addition of the address and the addends in
/// their order,
/// behind the operations that compute them, and the block goes on behind it. It takes
/// exactly 5 arguments.
pub proof fn vector_additions_are_imported(
    importer: &mut Importer,
    args: Vec<Result<Operand, String>>,
    target: Option<usize>,
    prev: Option<usize>,
    loc: u64,
    r: Result<Continuation, ImportError>,
)
    requires
        old(importer).takes(prev, args@),
        old(importer).ops@.len() < usize::MAX,
        call_ensures(emit_atomic_add_global_v4_f32, (importer, &args, target, prev, loc), r),
    ensures
        r is Ok <==> args@.len() == 5 && known(args@) && target is Some,
        args@.len() == 5 && known(args@) ==> {
            let n = old(importer).ops@.len();
            let lead = lead_of(args@[0]) + lead_of(args@[1]) + lead_of(args@[2]) + lead_of(
                    args@[3],
                ) + lead_of(args@[4]);
            let op = final(importer).ops@[n as int];
            &&& added(*old(importer), *final(importer), 1)
            &&& op.kind == ImportedKind::AtomicAddGlobalV4F32
            &&& takes_arguments(op, args@, loc)
            &&& op.results@.len() == 0
            &&& final(importer).next_value == old(importer).next_value
            &&& put_in(
                old(importer).block@,
                final(importer).block@,
                prev,
                lead.push(n as usize),
            )
            &&& target matches Some(next) ==> (r matches Ok(Continuation::Goto { target: t, after })
                && t == next && after == behind(prev) + lead.len())
            &&& target is None ==> (r matches Err(ImportError::Unsupported(message)) && message@
                == "atomic_add_global_v4_f32 call without target block"@)
        },
        args@.len() != 5 ==> *final(importer) == *old(importer) && (r matches Err(
            ImportError::Unsupported(message),
        ) && message@ == "atomic_add_global_v4_f32 expects 5 arguments (p, a, b, c, d), got "@ + decimal(args@.len())),
        args@.len() == 5 && !known(args@) ==> final(importer).ops == old(importer).ops && (
        r matches Err(ImportError::Untranslated(message)) && first_reason(args@, message@)),
{
    let before = *old(importer);
    let after = *final(importer);
    lemma_known(args@);
    if args@.len() == 5 {
        if known(args@) {
            lemma_leads(args@);
            lemma_put_in(
                before.block@,
                after.block@,
                prev,
                leads(args@, 5).push(before.ops@.len() as usize),
            );
            assert forall|i: int| 0 <= i < before.ops@.len() implies #[trigger] after.ops@[i]
                == before.ops@[i] by {
                assert(after.ops@.take(before.ops@.len() as int)[i] == before.ops@[i]);
            }
            assert(after.ops@.last() == after.ops@[before.ops@.len() as int]);
        } else {
            let reason = r->Err_0@->Untranslated_0;
            let k = choose|k: nat| #[trigger] crate::importer::fails_at(args@, k, reason);
            lemma_first_reason(args@, k, reason);
        }
    }
}

/// The load of four floats becomes one load from the operand that gives four floats, and one
/// array of them in their order, which is what the call assigns to its destination. Both
/// stand behind the operations that compute the operand.
pub proof fn vector_loads_are_imported(
    importer: &mut Importer,
    args: Vec<Result<Operand, String>>,
    destination: u64,
    target: Option<usize>,
    prev: Option<usize>,
    loc: u64,
    r: Result<Continuation, ImportError>,
)
    requires
        old(importer).takes(prev, args@),
        old(importer).ops@.len() + 2 <= usize::MAX,
        old(importer).next_value <= u64::MAX - 5,
        call_ensures(
            emit_ld_global_v4_f32,
            (importer, &args, destination, target, prev, loc),
            r,
        ),
    ensures
        r is Ok <==> args@.len() == 1 && known(args@) && target is Some,
        args@.len() == 1 && known(args@) ==> {
            let n = old(importer).ops@.len() as int;
            let lead = lead_of(args@[0]);
            let load = final(importer).ops@[n];
            let bundle = final(importer).ops@[n + 1];
            let next = old(importer).next_value;
            let array = ImportedValue {
                id: (next + 4) as u64,
                ty: ImportedType::Float32Array { len: 4 },
            };
            &&& added(*old(importer), *final(importer), 2)
            &&& load.kind == ImportedKind::LdGlobalV4F32
            &&& takes_arguments(load, args@, loc)
            &&& load.results@.len() == 4
            &&& forall|i: int|
                0 <= i < 4 ==> {
                    &&& (#[trigger] load.results@[i]).id == next + i
                    &&& load.results@[i].ty == ImportedType::Float32
                }
            &&& bundle.kind == ImportedKind::ConstructArray
            &&& bundle.operands@.len() == 4
            &&& forall|i: int|
                0 <= i < 4 ==> bundle.operands@[i] == (#[trigger] load.results@[i]).id
            &&& bundle.results@ == seq![array]
            &&& bundle.loc == loc
            &&& put_in(
                old(importer).block@,
                final(importer).block@,
                prev,
                lead.push(n as usize).push((n + 1) as usize),
            )
            &&& target matches Some(there) ==> (r matches Ok(
                Continuation::StoreAndGoto { destination: d, value, target: t, after },
            ) && d == destination && value == array && t == there && after == behind(prev)
                + lead.len() + 1)
            &&& target is None ==> (r matches Err(ImportError::Unsupported(message)) && message@
                == "ld_global_v4_f32 call without target block"@)
        },
        args@.len() != 1 ==> *final(importer) == *old(importer) && (r matches Err(
            ImportError::Unsupported(message),
        ) && message@ == "ld_global_v4_f32 expects 1 argument (p), got "@ + decimal(args@.len())),
        args@.len() == 1 && !known(args@) ==> final(importer).ops == old(importer).ops && (
        r matches Err(ImportError::Untranslated(message)) && first_reason(args@, message@)),
{
    let before = *old(importer);
    let after = *final(importer);
    lemma_known(args@);
    if args@.len() == 1 {
        if known(args@) {
            let n = before.ops@.len();
            lemma_leads(args@);
            lemma_put_in(
                before.block@,
                after.block@,
                prev,
                leads(args@, 1).push(n as usize).push((n + 1) as usize),
            );
            assert forall|i: int| 0 <= i < n implies #[trigger] after.ops@[i] == before.ops@[i] by {
                assert(after.ops@.take(n as int)[i] == before.ops@[i]);
            }
        } else {
            let reason = r->Err_0@->Untranslated_0;
            let k = choose|k: nat| #[trigger] crate::importer::fails_at(args@, k, reason);
            lemma_first_reason(args@, k, reason);
        }
    }
}

}
