//! How the values of an exported function are printed.

use crate::ir::BlockIr;
use crate::ir::ConstAttr;
use crate::ir::OpIr;
use crate::ir::OpKind;
use crate::ir::TypeKind;
use crate::ir::Value;
use crate::naming::define_all;
use crate::naming::exported_symbol;
use crate::naming::function_names;
use crate::naming::has_device_prefix;
use crate::naming::name_blocks;
use crate::naming::name_op;
use crate::naming::name_ops;
use crate::naming::no_names;
use crate::naming::strip_device_prefix;
use crate::naming::NameOf;
use crate::naming::Names;
use crate::naming::Naming;
use crate::naming::NamingEnv;
use crate::text::decimal;
use vstd::prelude::*;

verus! {

broadcast use vstd::string::group_string_axioms;

// ---------------------------------------------------------------------------
// Symbols
// ---------------------------------------------------------------------------

/// `s` is `head` followed by `tail`.
pub open spec fn splits(s: Seq<char>, head: Seq<char>, tail: Seq<char>) -> bool {
    s == head + tail
}

/// An intrinsic is exported with a dot for every underscore.
pub proof fn intrinsics_are_exported_with_dots(symbol: &str, rest: Seq<char>, r: String)
    requires
        splits(symbol@, "llvm_"@, rest),
        call_ensures(exported_symbol, (symbol,), r),
    ensures
        r@.len() == symbol@.len(),
        forall|i: int|
            0 <= i < symbol@.len() ==> #[trigger] r@[i] == (if symbol@[i] == '_' {
                '.'
            } else {
                symbol@[i]
            }),
{
    assert(symbol@.take("llvm_"@.len() as int) =~= "llvm_"@);
}

/// A device function is exported without the internal prefix.
pub proof fn device_functions_are_exported_without_prefix(
    symbol: &str,
    rest: Seq<char>,
    r: String,
)
    requires
        splits(symbol@, "cuda_oxide_device_"@, rest),
        call_ensures(exported_symbol, (symbol,), r) || call_ensures(
            strip_device_prefix,
            (symbol,),
            r,
        ),
    ensures
        r@ == rest,
{
    let prefix = "cuda_oxide_device_"@;
    assert(symbol@.take(prefix.len() as int) =~= prefix);
    assert(symbol@.skip(prefix.len() as int) =~= rest);
    reveal_strlit("cuda_oxide_device_");
    reveal_strlit("llvm_");
    if crate::text::has_prefix(symbol@, "llvm_"@) {
        assert(symbol@.take("llvm_"@.len() as int)[0] == 'l');
        assert(symbol@[0] == 'c');
    }
}

/// A symbol with neither prefix is exported as it is.
pub proof fn other_symbols_are_exported_unchanged(symbol: &str, r: String)
    requires
        forall|rest: Seq<char>| !#[trigger] splits(symbol@, "llvm_"@, rest),
        forall|rest: Seq<char>| !#[trigger] splits(symbol@, "cuda_oxide_device_"@, rest),
        call_ensures(exported_symbol, (symbol,), r),
    ensures
        r@ == symbol@,
{
    let a = "llvm_"@;
    let b = "cuda_oxide_device_"@;
    if crate::text::has_prefix(symbol@, a) {
        assert(symbol@ =~= a + symbol@.skip(a.len() as int));
        assert(splits(symbol@, a, symbol@.skip(a.len() as int)));
    }
    if crate::text::has_prefix(symbol@, b) {
        assert(symbol@ =~= b + symbol@.skip(b.len() as int));
        assert(splits(symbol@, b, symbol@.skip(b.len() as int)));
    }
}

/// A symbol has the device prefix exactly where it begins with it.
pub proof fn device_symbols_begin_with_the_prefix(symbol: &str, r: bool)
    requires
        call_ensures(has_device_prefix, (symbol,), r),
    ensures
        r <==> exists|rest: Seq<char>| #[trigger] splits(symbol@, "cuda_oxide_device_"@, rest),
{
    let prefix = "cuda_oxide_device_"@;
    if r {
        assert(symbol@ =~= prefix + symbol@.skip(prefix.len() as int));
        assert(splits(symbol@, prefix, symbol@.skip(prefix.len() as int)));
    }
    if exists|rest: Seq<char>| #[trigger] splits(symbol@, prefix, rest) {
        let rest = choose|rest: Seq<char>| #[trigger] splits(symbol@, prefix, rest);
        assert(symbol@.take(prefix.len() as int) =~= prefix);
    }
}

// ---------------------------------------------------------------------------
// Places of definition
// ---------------------------------------------------------------------------

/// `id` is not among `values` from the `i`-th on.
pub open spec fn absent(id: u64, values: Seq<Value>, i: int) -> bool {
    forall|k: int| i <= k < values.len() ==> (#[trigger] values[k]).id != id
}

/// No operation from the `i`-th on defines `id`.
pub open spec fn absent_from_ops(id: u64, ops: Seq<OpIr>, i: int) -> bool {
    forall|k: int| i <= k < ops.len() ==> absent(id, (#[trigger] ops[k]).results@, 0)
}

/// No block from the `b`-th on defines `id`.
pub open spec fn absent_from_blocks(id: u64, blocks: Seq<BlockIr>, b: int) -> bool {
    forall|k: int|
        b <= k < blocks.len() ==> absent(id, (#[trigger] blocks[k]).args@, 0) && absent_from_ops(
            id,
            blocks[k].ops@,
            0,
        )
}

/// Nothing that is named after the result at `j` of the operation at `k` of the block at
/// `b` has its identifier.
pub open spec fn defined_last(blocks: Seq<BlockIr>, b: int, k: int, j: int) -> bool {
    let block = blocks[b];
    let op = block.ops@[k];
    let id = op.results@[j].id;
    &&& 0 <= b < blocks.len()
    &&& 0 <= k < block.ops@.len()
    &&& 0 <= j < op.results@.len()
    &&& absent(id, op.results@, j + 1)
    &&& absent_from_ops(id, block.ops@, k + 1)
    &&& absent_from_blocks(id, blocks, b + 1)
}

proof fn lemma_define_all_keeps(names: Names, values: Seq<Value>, i: nat, id: u64)
    requires
        absent(id, values, i as int),
    ensures
        define_all(names, values, i).of.dom().contains(id) == names.of.dom().contains(id),
        names.of.dom().contains(id) ==> define_all(names, values, i).of[id] == names.of[id],
    decreases values.len() - i,
{
    if i < values.len() {
        assert(values[i as int].id != id);
        lemma_define_all_keeps(names.define(values[i as int].id), values, i + 1, id);
    }
}

proof fn lemma_define_all_at(names: Names, values: Seq<Value>, i: nat, j: nat)
    requires
        i <= j < values.len(),
        absent(values[j as int].id, values, j as int + 1),
    ensures
        define_all(names, values, i).of.dom().contains(values[j as int].id),
        define_all(names, values, i).of[values[j as int].id] == NameOf::Register(
            (names.next + (j - i)) as nat,
        ),
    decreases j - i,
{
    let next = names.define(values[i as int].id);
    if i == j {
        lemma_define_all_keeps(next, values, i + 1, values[j as int].id);
    } else {
        lemma_define_all_at(next, values, i + 1, j);
    }
}

proof fn lemma_op_keeps(names: Names, env: NamingEnv, op: OpIr, id: u64)
    requires
        absent(id, op.results@, 0),
        has_results(op),
    ensures
        name_op(names, env, op).names.of.dom().contains(id) == names.of.dom().contains(id),
        names.of.dom().contains(id) ==> name_op(names, env, op).names.of[id] == names.of[id],
{
    lemma_define_all_keeps(names, op.results@, 0, id);
    if op.results@.len() > 0 {
        assert(op.results@[0].id != id);
    }
}

/// Constants and addresses have a result.
pub open spec fn has_results(op: OpIr) -> bool {
    op.kind is Constant || op.kind is AddressOf ==> op.results@.len() > 0
}

/// Every constant and every address of the blocks has a result.
pub open spec fn all_have_results(blocks: Seq<BlockIr>) -> bool {
    forall|b: int, k: int|
        0 <= b < blocks.len() && 0 <= k < blocks[b].ops@.len() ==> has_results(
            #[trigger] blocks[b].ops@[k],
        )
}

proof fn lemma_ops_keep(naming: Naming, env: NamingEnv, ops: Seq<OpIr>, i: nat, id: u64)
    requires
        absent_from_ops(id, ops, i as int),
        forall|k: int| 0 <= k < ops.len() ==> has_results(#[trigger] ops[k]),
    ensures
        name_ops(naming, env, ops, i).names.of.dom().contains(id)
            == naming.names.of.dom().contains(id),
        naming.names.of.dom().contains(id) ==> name_ops(naming, env, ops, i).names.of[id]
            == naming.names.of[id],
    decreases ops.len() - i,
{
    if naming.failure is None && i < ops.len() {
        let op = ops[i as int];
        assert(has_results(op));
        assert(absent(id, op.results@, 0));
        lemma_op_keeps(naming.names, env, op, id);
        lemma_ops_keep(name_op(naming.names, env, op), env, ops, i + 1, id);
    }
}

proof fn lemma_blocks_keep(naming: Naming, env: NamingEnv, blocks: Seq<BlockIr>, b: nat, id: u64)
    requires
        absent_from_blocks(id, blocks, b as int),
        all_have_results(blocks),
    ensures
        name_blocks(naming, env, blocks, b).names.of.dom().contains(id)
            == naming.names.of.dom().contains(id),
        naming.names.of.dom().contains(id) ==> name_blocks(naming, env, blocks, b).names.of[id]
            == naming.names.of[id],
    decreases blocks.len() - b,
{
    if naming.failure is None && b < blocks.len() {
        let block = blocks[b as int];
        assert(absent(id, block.args@, 0) && absent_from_ops(id, block.ops@, 0));
        lemma_define_all_keeps(naming.names, block.args@, 0, id);
        let named = Naming {
            names: if b == 0 {
                naming.names
            } else {
                define_all(naming.names, block.args@, 0)
            },
            failure: None,
        };
        assert forall|k: int| 0 <= k < block.ops@.len() implies has_results(
            #[trigger] block.ops@[k],
        ) by {
            assert(has_results(blocks[b as int].ops@[k]));
        }
        lemma_ops_keep(named, env, block.ops@, 0, id);
        lemma_blocks_keep(name_ops(named, env, block.ops@, 0), env, blocks, b + 1, id);
    }
}

/// The first result of the operation is a pointer into this address space.
pub open spec fn points_into(env: NamingEnv, op: OpIr, space: u32) -> bool {
    env.ctx.types@[op.results@[0].ty as int].kind == (TypeKind::Pointer { address_space: space })
}

/// How the first result of an operation is written where it is used, where it is written
/// out there.
pub open spec fn literal(env: NamingEnv, op: OpIr, text: Seq<char>) -> bool {
    match op.kind {
        OpKind::Constant(ConstAttr::Integer(n)) => text == decimal(n.unsigned()),
        OpKind::Constant(ConstAttr::Float { literal }) => text == literal@,
        OpKind::Constant(ConstAttr::Other { shown }) => !env.legacy && text == "0"@,
        OpKind::AddressOf { symbol } => if env.globals.dom().contains(symbol@) {
            &&& text == "@"@ + symbol@
            &&& points_into(env, op, env.globals[symbol@])
        } else {
            &&& text == "@"@ + crate::naming::export_name(symbol@)
            &&& env.functions.dom().contains(crate::naming::export_name(symbol@))
            &&& points_into(env, op, 0)
        },
        _ => false,
    }
}

/// The operation writes its first result out where it is used.
pub open spec fn writes_out(env: NamingEnv, op: OpIr) -> bool {
    op.kind is Constant || (op.kind is AddressOf && !env.legacy)
}

/// The operation gives registers to its results.
pub open spec fn defines(env: NamingEnv, op: OpIr) -> bool {
    !(op.kind is Constant) && !(op.kind is Undef) && !(op.kind is AddressOf && !env.legacy)
}

/// What the result at `j` of an operation is named.
pub open spec fn rightly_named(env: NamingEnv, op: OpIr, j: int, name: NameOf) -> bool {
    &&& writes_out(env, op) && j == 0 ==> name is Written && literal(env, op, name->Written_0)
    &&& defines(env, op) ==> name is Register
}

proof fn lemma_op_names(names: Names, env: NamingEnv, op: OpIr, j: nat)
    requires
        j < op.results@.len(),
        absent(op.results@[j as int].id, op.results@, j as int + 1),
        name_op(names, env, op).failure is None,
        (writes_out(env, op) && j == 0) || defines(env, op),
    ensures
        name_op(names, env, op).names.of.dom().contains(op.results@[j as int].id),
        rightly_named(
            env,
            op,
            j as int,
            name_op(names, env, op).names.of[op.results@[j as int].id],
        ),
{
    lemma_define_all_at(names, op.results@, 0, j);
}

proof fn lemma_ops_name(
    naming: Naming,
    env: NamingEnv,
    ops: Seq<OpIr>,
    i: nat,
    k: nat,
    j: nat,
)
    requires
        i <= k < ops.len(),
        j < ops[k as int].results@.len(),
        absent(ops[k as int].results@[j as int].id, ops[k as int].results@, j as int + 1),
        absent_from_ops(ops[k as int].results@[j as int].id, ops, k as int + 1),
        (writes_out(env, ops[k as int]) && j == 0) || defines(env, ops[k as int]),
        forall|k: int| 0 <= k < ops.len() ==> has_results(#[trigger] ops[k]),
        name_ops(naming, env, ops, i).failure is None,
    ensures
        ({
            let id = ops[k as int].results@[j as int].id;
            let end = name_ops(naming, env, ops, i).names.of;
            end.dom().contains(id) && rightly_named(env, ops[k as int], j as int, end[id])
        }),
    decreases k - i,
{
    let one = name_op(naming.names, env, ops[i as int]);
    assert(naming.failure is None);
    assert(one.failure is None) by {
        if one.failure is Some {
            assert(name_ops(one, env, ops, i + 1) == one);
        }
    }
    if i == k {
        lemma_op_names(naming.names, env, ops[i as int], j);
        lemma_ops_keep(one, env, ops, i + 1, ops[k as int].results@[j as int].id);
    } else {
        lemma_ops_name(one, env, ops, i + 1, k, j);
    }
}

proof fn lemma_blocks_name(
    naming: Naming,
    env: NamingEnv,
    blocks: Seq<BlockIr>,
    from: nat,
    b: nat,
    k: nat,
    j: nat,
)
    requires
        from <= b,
        defined_last(blocks, b as int, k as int, j as int),
        all_have_results(blocks),
        (writes_out(env, blocks[b as int].ops@[k as int]) && j == 0) || defines(
            env,
            blocks[b as int].ops@[k as int],
        ),
        name_blocks(naming, env, blocks, from).failure is None,
    ensures
        ({
            let op = blocks[b as int].ops@[k as int];
            let id = op.results@[j as int].id;
            let end = name_blocks(naming, env, blocks, from).names.of;
            end.dom().contains(id) && rightly_named(env, op, j as int, end[id])
        }),
    decreases b - from,
{
    let block = blocks[from as int];
    assert(naming.failure is None);
    let named = Naming {
        names: if from == 0 {
            naming.names
        } else {
            define_all(naming.names, block.args@, 0)
        },
        failure: None,
    };
    let one = name_ops(named, env, block.ops@, 0);
    assert(one.failure is None) by {
        if one.failure is Some {
            assert(name_blocks(one, env, blocks, from + 1) == one);
        }
    }
    assert forall|k: int| 0 <= k < block.ops@.len() implies has_results(
        #[trigger] block.ops@[k],
    ) by {
        assert(has_results(blocks[from as int].ops@[k]));
    }
    if from == b {
        let id = block.ops@[k as int].results@[j as int].id;
        lemma_ops_name(named, env, block.ops@, 0, k, j);
        lemma_blocks_keep(one, env, blocks, from + 1, id);
    } else {
        lemma_blocks_name(one, env, blocks, from + 1, b, k, j);
    }
}

// ---------------------------------------------------------------------------
// Laws
// ---------------------------------------------------------------------------

/// The parameter at `i` is printed, wherever it is used, as the register with its number,
/// which is how the signature introduces it.
pub proof fn parameters_are_printed_by_their_number(
    env: NamingEnv,
    blocks: Seq<BlockIr>,
    i: nat,
)
    requires
        blocks.len() > 0,
        i < blocks[0].args@.len(),
        all_have_results(blocks),
        absent(blocks[0].args@[i as int].id, blocks[0].args@, i as int + 1),
        absent_from_ops(blocks[0].args@[i as int].id, blocks[0].ops@, 0),
        absent_from_blocks(blocks[0].args@[i as int].id, blocks, 1),
    ensures
        ({
            let id = blocks[0].args@[i as int].id;
            let names = function_names(env, blocks).names.texts();
            names.dom().contains(id) && names[id] == "%v"@ + decimal(i)
        }),
{
    let id = blocks[0].args@[i as int].id;
    let entry = define_all(no_names(), blocks[0].args@, 0);
    lemma_define_all_at(no_names(), blocks[0].args@, 0, i);
    let start = Naming { names: entry, failure: None };
    let one = name_ops(start, env, blocks[0].ops@, 0);
    assert forall|k: int| 0 <= k < blocks[0].ops@.len() implies has_results(
        #[trigger] blocks[0].ops@[k],
    ) by {
        assert(has_results(blocks[0].ops@[k]));
    }
    lemma_ops_keep(start, env, blocks[0].ops@, 0, id);
    lemma_blocks_keep(one, env, blocks, 1, id);
    assert(function_names(env, blocks) == name_blocks(one, env, blocks, 1));
}

/// A constant is printed, wherever it is used, as the number or the literal that it holds,
/// and the address of a global or a function as its symbol, which is a pointer into the
/// address space of the global or the one of functions; neither takes a register. With typed
/// pointers an address takes one.
pub proof fn constants_and_addresses_are_written_out(
    env: NamingEnv,
    blocks: Seq<BlockIr>,
    b: nat,
    k: nat,
)
    requires
        defined_last(blocks, b as int, k as int, 0),
        all_have_results(blocks),
        function_names(env, blocks).failure is None,
        writes_out(env, blocks[b as int].ops@[k as int]),
    ensures
        ({
            let op = blocks[b as int].ops@[k as int];
            let id = op.results@[0].id;
            let names = function_names(env, blocks).names.texts();
            names.dom().contains(id) && literal(env, op, names[id])
        }),
{
    lemma_blocks_name(
        Naming { names: define_all(no_names(), blocks[0].args@, 0), failure: None },
        env,
        blocks,
        0,
        b,
        k,
        0,
    );
}

/// Two results of operations that compute something are printed as two different
/// registers.
pub proof fn computed_values_are_printed_apart(
    env: NamingEnv,
    blocks: Seq<BlockIr>,
    b: nat,
    k: nat,
    j: nat,
    b2: nat,
    k2: nat,
    j2: nat,
)
    requires
        defined_last(blocks, b as int, k as int, j as int),
        defined_last(blocks, b2 as int, k2 as int, j2 as int),
        all_have_results(blocks),
        function_names(env, blocks).failure is None,
        defines(env, blocks[b as int].ops@[k as int]),
        defines(env, blocks[b2 as int].ops@[k2 as int]),
        blocks[b as int].ops@[k as int].results@[j as int].id
            != blocks[b2 as int].ops@[k2 as int].results@[j2 as int].id,
    ensures
        ({
            let x = blocks[b as int].ops@[k as int].results@[j as int].id;
            let y = blocks[b2 as int].ops@[k2 as int].results@[j2 as int].id;
            let names = function_names(env, blocks).names.texts();
            &&& exists|n: nat| names[x] == "%v"@ + #[trigger] decimal(n)
            &&& exists|n: nat| names[y] == "%v"@ + #[trigger] decimal(n)
            &&& names[x] != names[y]
        }),
{
    let start = Naming { names: define_all(no_names(), blocks[0].args@, 0), failure: None };
    lemma_blocks_name(start, env, blocks, 0, b, k, j);
    lemma_blocks_name(start, env, blocks, 0, b2, k2, j2);
    crate::naming::values_have_registers_of_their_own(env, blocks);
    let end = function_names(env, blocks).names;
    let x = blocks[b as int].ops@[k as int].results@[j as int].id;
    let y = blocks[b2 as int].ops@[k2 as int].results@[j2 as int].id;
    let m = end.of[x]->Register_0;
    let n = end.of[y]->Register_0;
    assert(end.of[x] == NameOf::Register(m) && end.of[y] == NameOf::Register(n));
    crate::naming::registers_print_differently(m, n);
    assert(end.texts()[x] == "%v"@ + decimal(m));
    assert(end.texts()[y] == "%v"@ + decimal(n));
}

/// Nothing that is named after the argument at `i` of the block at `b` has its identifier.
pub open spec fn argument_is_last(blocks: Seq<BlockIr>, b: int, i: int) -> bool {
    let block = blocks[b];
    let id = block.args@[i].id;
    &&& 0 < b < blocks.len()
    &&& 0 <= i < block.args@.len()
    &&& absent(id, block.args@, i + 1)
    &&& absent_from_ops(id, block.ops@, 0)
    &&& absent_from_blocks(id, blocks, b + 1)
}

proof fn lemma_argument(
    naming: Naming,
    env: NamingEnv,
    blocks: Seq<BlockIr>,
    from: nat,
    b: nat,
    i: nat,
)
    requires
        from <= b,
        argument_is_last(blocks, b as int, i as int),
        all_have_results(blocks),
        name_blocks(naming, env, blocks, from).failure is None,
    ensures
        ({
            let id = blocks[b as int].args@[i as int].id;
            let end = name_blocks(naming, env, blocks, from).names.of;
            end.dom().contains(id) && end[id] is Register
        }),
    decreases b - from,
{
    let block = blocks[from as int];
    assert(naming.failure is None);
    let named = Naming {
        names: if from == 0 {
            naming.names
        } else {
            define_all(naming.names, block.args@, 0)
        },
        failure: None,
    };
    let one = name_ops(named, env, block.ops@, 0);
    assert(one.failure is None) by {
        if one.failure is Some {
            assert(name_blocks(one, env, blocks, from + 1) == one);
        }
    }
    if from == b {
        let id = block.args@[i as int].id;
        assert forall|k: int| 0 <= k < block.ops@.len() implies has_results(
            #[trigger] block.ops@[k],
        ) by {
            assert(has_results(blocks[from as int].ops@[k]));
        }
        lemma_define_all_at(naming.names, block.args@, 0, i);
        lemma_ops_keep(named, env, block.ops@, 0, id);
        lemma_blocks_keep(one, env, blocks, from + 1, id);
    } else {
        lemma_argument(one, env, blocks, from + 1, b, i);
    }
}

/// The argument of a block is printed as a register, and no other value with a register is
/// printed like it.
pub proof fn arguments_are_printed_as_registers_of_their_own(
    env: NamingEnv,
    blocks: Seq<BlockIr>,
    b: nat,
    i: nat,
    other: u64,
    n: nat,
)
    requires
        argument_is_last(blocks, b as int, i as int),
        all_have_results(blocks),
        function_names(env, blocks).failure is None,
        other != blocks[b as int].args@[i as int].id,
        function_names(env, blocks).names.of.dom().contains(other),
        function_names(env, blocks).names.of[other] == NameOf::Register(n),
    ensures
        ({
            let id = blocks[b as int].args@[i as int].id;
            let names = function_names(env, blocks).names.texts();
            &&& exists|m: nat| names[id] == "%v"@ + #[trigger] decimal(m)
            &&& names[id] != names[other]
        }),
{
    let id = blocks[b as int].args@[i as int].id;
    let start = Naming { names: define_all(no_names(), blocks[0].args@, 0), failure: None };
    lemma_argument(start, env, blocks, 0, b, i);
    crate::naming::values_have_registers_of_their_own(env, blocks);
    let end = function_names(env, blocks).names;
    let m = end.of[id]->Register_0;
    assert(end.of[id] == NameOf::Register(m));
    assert(end.texts()[id] == "%v"@ + decimal(m));
    assert(end.texts()[other] == crate::naming::name_text(NameOf::Register(n)));
    crate::naming::registers_print_differently(m, n);
}

}
