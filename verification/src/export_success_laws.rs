//! Which functions can be exported.

use crate::edges::block_failure;
use crate::edges::edge_failure;
use crate::edges::edges_failure;
use crate::edges::edges_pass_what_their_destination_expects;
use crate::edges::predecessors;
use crate::edges::validate_edge;
use crate::emission::after;
use crate::emission::Emission;
use crate::export_state::ModuleExportState;
use crate::export_text_laws::passed;
use crate::function::all_printed;
use crate::function::put_blocks;
use crate::function::put_function;
use crate::function::put_incoming;
use crate::function::put_line;
use crate::function::put_ops;
use crate::function::put_params;
use crate::function::put_phi;
use crate::function::put_phis;
use crate::function::put_types;
use crate::function::BlockOut;
use crate::ir::BlockIr;
use crate::ir::ConstAttr;
use crate::ir::Context;
use crate::ir::FuncIr;
use crate::ir::OpIr;
use crate::ir::OpKind;
use crate::ir::Piece;
use crate::ir::TypeKind;
use crate::ir::Value;
use crate::naming::name_blocks;
use crate::naming::name_ops;
use crate::naming::Naming;
use crate::naming::NamingEnv;
use vstd::prelude::*;

verus! {

broadcast use vstd::string::group_string_axioms;

/// Every type has a spelling.
pub open spec fn all_spelled(ctx: Context) -> bool {
    forall|i: int| 0 <= i < ctx.types@.len() ==> (#[trigger] ctx.types@[i]).exported is Ok
}

/// The operation needs nothing but registers and literals for its results.
pub open spec fn names_itself(op: OpIr) -> bool {
    !(op.kind is AddressOf) && !(op.kind matches OpKind::Constant(ConstAttr::Other { shown }))
}

/// Every operation of the blocks names itself.
pub open spec fn all_name_themselves(blocks: Seq<BlockIr>) -> bool {
    forall|b: int, k: int|
        0 <= b < blocks.len() && 0 <= k < blocks[b].ops@.len() ==> names_itself(
            #[trigger] blocks[b].ops@[k],
        )
}

/// `values` are as many as `params` and of the same types.
pub open spec fn suits(values: Seq<Value>, params: Seq<Value>) -> bool {
    values.len() == params.len() && forall|i: int|
        0 <= i < values.len() ==> (#[trigger] values[i]).ty == params[i].ty
}

/// What the last operation of the block passes suits the blocks that it goes to, and where
/// both ways of a branch go to one block they pass the same values.
pub open spec fn branches_well(blocks: Seq<BlockIr>, b: int) -> bool {
    let ops = blocks[b].ops@;
    ops.len() > 0 ==> match ops[ops.len() - 1].kind {
        OpKind::Br { dest, args } => suits(args@, blocks[dest as int].args@),
        OpKind::CondBr { true_dest, true_args, false_dest, false_args } => {
            &&& suits(true_args@, blocks[true_dest as int].args@)
            &&& suits(false_args@, blocks[false_dest as int].args@)
            &&& true_dest == false_dest ==> true_args@ == false_args@
        },
        _ => true,
    }
}

/// Some block branches to the block at `dest`.
pub open spec fn is_reached(blocks: Seq<BlockIr>, dest: int) -> bool {
    exists|b: int| 0 <= b < blocks.len() && (#[trigger] passed(blocks, b, dest)) is Some
}

/// Every branch is well formed and every block with arguments, but the entry, is reached.
pub open spec fn flows_well(blocks: Seq<BlockIr>) -> bool {
    &&& forall|b: int| 0 <= b < blocks.len() ==> #[trigger] branches_well(blocks, b)
    &&& forall|b: int|
        0 < b < blocks.len() && (#[trigger] blocks[b]).args@.len() > 0 ==> is_reached(blocks, b)
}

proof fn lemma_name_ops(naming: Naming, env: NamingEnv, ops: Seq<OpIr>, i: nat)
    requires
        naming.failure is None,
        forall|k: int| 0 <= k < ops.len() ==> names_itself(#[trigger] ops[k]),
    ensures
        name_ops(naming, env, ops, i).failure is None,
    decreases ops.len() - i,
{
    if i < ops.len() {
        assert(names_itself(ops[i as int]));
        lemma_name_ops(
            crate::naming::name_op(naming.names, env, ops[i as int]),
            env,
            ops,
            i + 1,
        );
    }
}

proof fn lemma_name_blocks(naming: Naming, env: NamingEnv, blocks: Seq<BlockIr>, b: nat)
    requires
        naming.failure is None,
        all_name_themselves(blocks),
    ensures
        name_blocks(naming, env, blocks, b).failure is None,
    decreases blocks.len() - b,
{
    if b < blocks.len() {
        let block = blocks[b as int];
        let named = Naming {
            names: if b == 0 {
                naming.names
            } else {
                crate::naming::define_all(naming.names, block.args@, 0)
            },
            failure: None,
        };
        assert forall|k: int| 0 <= k < block.ops@.len() implies names_itself(
            #[trigger] block.ops@[k],
        ) by {
            assert(names_itself(blocks[b as int].ops@[k]));
        }
        lemma_name_ops(named, env, block.ops@, 0);
        lemma_name_blocks(name_ops(named, env, block.ops@, 0), env, blocks, b + 1);
    }
}

proof fn lemma_edge(
    ctx: Context,
    blocks: Seq<BlockIr>,
    source: nat,
    dest: nat,
    args: Seq<Value>,
)
    requires
        suits(args, blocks[dest as int].args@),
    ensures
        edge_failure(ctx, blocks, source, dest, args) is None,
{
    edges_pass_what_their_destination_expects(ctx, blocks, source, dest, args);
}

proof fn lemma_edges(ctx: Context, blocks: Seq<BlockIr>, b: nat)
    requires
        flows_well(blocks),
    ensures
        edges_failure(ctx, blocks, b) is None,
    decreases blocks.len() - b,
{
    if b < blocks.len() {
        assert(branches_well(blocks, b as int));
        let ops = blocks[b as int].ops@;
        if ops.len() > 0 {
            match ops[ops.len() - 1].kind {
                OpKind::Br { dest, args } => {
                    lemma_edge(ctx, blocks, b, dest as nat, args@);
                },
                OpKind::CondBr { true_dest, true_args, false_dest, false_args } => {
                    lemma_edge(ctx, blocks, b, true_dest as nat, true_args@);
                    lemma_edge(ctx, blocks, b, false_dest as nat, false_args@);
                },
                _ => {},
            }
        }
        assert(block_failure(ctx, blocks, b) is None);
        lemma_edges(ctx, blocks, b + 1);
    }
}

proof fn lemma_args_fit(blocks: Seq<BlockIr>, dest: nat, n: nat)
    requires
        n <= blocks.len(),
        dest < blocks.len(),
        flows_well(blocks),
    ensures
        forall|j: int|
            0 <= j < predecessors(blocks, dest, n).len() ==> (#[trigger] predecessors(
                blocks,
                dest,
                n,
            )[j]).args.len() == blocks[dest as int].args@.len(),
    decreases n,
{
    if n > 0 {
        lemma_args_fit(blocks, dest, (n - 1) as nat);
        assert(branches_well(blocks, n - 1));
        let before = predecessors(blocks, dest, (n - 1) as nat);
        let now = predecessors(blocks, dest, n);
        assert forall|j: int| 0 <= j < now.len() implies (#[trigger] now[j]).args.len()
            == blocks[dest as int].args@.len() by {
            if j < before.len() {
                assert(now[j] == before[j]);
            }
        }
    }
}

proof fn lemma_reached(blocks: Seq<BlockIr>, dest: nat, b: int, n: nat)
    requires
        0 <= b < n <= blocks.len(),
        passed(blocks, b, dest as int) is Some,
    ensures
        predecessors(blocks, dest, n).len() > 0,
    decreases n,
{
    if b < n - 1 {
        lemma_reached(blocks, dest, b, (n - 1) as nat);
    }
}

proof fn lemma_incoming(
    e: Emission,
    names: Map<u64, Seq<char>>,
    labels: Map<u64, Seq<char>>,
    label: Seq<char>,
    index: nat,
    preds: Seq<crate::edges::IncomingView>,
    j: nat,
)
    requires
        e.ok(),
        forall|k: int| 0 <= k < preds.len() ==> index < (#[trigger] preds[k]).args.len(),
    ensures
        put_incoming(e, names, labels, label, index, preds, j).ok(),
    decreases preds.len() - j,
{
    if j < preds.len() {
        let pred = preds[j as int];
        let begun = if j > 0 {
            e.put(", "@)
        } else {
            e
        };
        lemma_incoming(
            begun.put("[ "@).put(
                crate::naming::value_text(names, pred.args[index as int]),
            ).put(", %"@).put(labels[pred.source as u64]).put(" ]"@),
            names,
            labels,
            label,
            index,
            preds,
            j + 1,
        );
    }
}

proof fn lemma_phis(
    x: BlockOut,
    ctx: Context,
    labels: Map<u64, Seq<char>>,
    label: Seq<char>,
    args: Seq<Value>,
    preds: Seq<crate::edges::IncomingView>,
    i: nat,
)
    requires
        x.out.ok(),
        all_spelled(ctx),
        crate::ir::values_within(ctx, args),
        all_printed(x.names, args),
        forall|k: int| 0 <= k < preds.len() ==> (#[trigger] preds[k]).args.len() == args.len(),
    ensures
        put_phis(x, ctx, labels, label, args, preds, i).out.ok(),
        put_phis(x, ctx, labels, label, args, preds, i).names == x.names,
    decreases args.len() - i,
{
    if i < args.len() {
        let arg = args[i as int];
        assert(ctx.has(arg.ty));
        assert(ctx.types@[arg.ty as int].exported is Ok);
        assert(x.names.dom().contains(arg.id));
        let head = x.out.put("  "@).put(x.names[arg.id]).put(" = phi "@).put_rendered(
            ctx.exported(arg.ty),
        ).put(" "@);
        lemma_incoming(head, x.names, labels, label, i, preds, 0);
        lemma_phis(
            put_phi(x, ctx, labels, label, arg, i, preds),
            ctx,
            labels,
            label,
            args,
            preds,
            i + 1,
        );
    }
}

proof fn lemma_line(
    e: Emission,
    ctx: Context,
    names: Map<u64, Seq<char>>,
    labels: Map<u64, Seq<char>>,
    line: Seq<Piece>,
    blocks: nat,
    i: nat,
)
    requires
        e.ok(),
        all_spelled(ctx),
        forall|k: int| 0 <= k < line.len() ==> (#[trigger] line[k]).within(ctx, blocks),
    ensures
        put_line(e, ctx, names, labels, line, i).ok(),
    decreases line.len() - i,
{
    if i < line.len() {
        assert(line[i as int].within(ctx, blocks));
        if let Piece::Type(ty) = line[i as int] {
            assert(ctx.types@[ty as int].exported is Ok);
        }
        lemma_line(
            crate::function::put_piece(e, ctx, names, labels, line[i as int]),
            ctx,
            names,
            labels,
            line,
            blocks,
            i + 1,
        );
    }
}

proof fn lemma_ops(
    e: Emission,
    ctx: Context,
    names: Map<u64, Seq<char>>,
    labels: Map<u64, Seq<char>>,
    ops: Seq<OpIr>,
    blocks: nat,
    i: nat,
)
    requires
        e.ok(),
        all_spelled(ctx),
        forall|k: int| 0 <= k < ops.len() ==> (#[trigger] ops[k]).within(ctx, blocks),
    ensures
        put_ops(e, ctx, names, labels, ops, i).ok(),
    decreases ops.len() - i,
{
    if i < ops.len() {
        assert(ops[i as int].within(ctx, blocks));
        lemma_line(e, ctx, names, labels, ops[i as int].line@, blocks, 0);
        lemma_ops(
            put_line(e, ctx, names, labels, ops[i as int].line@, 0),
            ctx,
            names,
            labels,
            ops,
            blocks,
            i + 1,
        );
    }
}

proof fn lemma_blocks(x: BlockOut, ctx: Context, blocks: Seq<BlockIr>, b: nat)
    requires
        x.out.ok(),
        all_spelled(ctx),
        crate::ir::blocks_within(ctx, blocks),
        flows_well(blocks),
        forall|k: int| 0 <= k < blocks.len() ==> all_printed(x.names, (#[trigger] blocks[k]).args@),
    ensures
        put_blocks(x, ctx, blocks, b).out.ok(),
    decreases blocks.len() - b,
{
    if b < blocks.len() {
        let labels = crate::edges::labels(blocks.len());
        let block = blocks[b as int];
        let label = labels[b as u64];
        let preds = predecessors(blocks, b, blocks.len());
        let begun = BlockOut { out: x.out.put(label).put(":\n"@), ..x };
        assert(block.within(ctx, blocks.len()));
        assert(all_printed(x.names, block.args@));
        lemma_args_fit(blocks, b, blocks.len());
        if block.args@.len() > 0 && b != 0 {
            assert(is_reached(blocks, b as int));
            let from = choose|from: int|
                0 <= from < blocks.len() && (#[trigger] passed(blocks, from, b as int)) is Some;
            lemma_reached(blocks, b, from, blocks.len());
        }
        lemma_phis(begun, ctx, labels, label, block.args@, preds, 0);
        let headed = if block.args@.len() > 0 && b != 0 {
            put_phis(begun, ctx, labels, label, block.args@, preds, 0)
        } else {
            begun
        };
        lemma_ops(headed.out, ctx, headed.names, labels, block.ops@, blocks.len(), 0);
        let next = crate::function::put_block(
            x,
            ctx,
            labels,
            block,
            b,
            crate::function::predecessors_of(blocks, b),
            b == 0,
        );
        assert(next.out.ok() && next.names == x.names);
        lemma_blocks(next, ctx, blocks, b + 1);
    }
}

proof fn lemma_params(
    e: Emission,
    ctx: Context,
    params: Seq<Value>,
    attrs: Seq<crate::arg_attrs::LlvmParamAttrsAttr>,
    i: nat,
)
    requires
        e.ok(),
        all_spelled(ctx),
        crate::ir::values_within(ctx, params),
    ensures
        put_params(e, ctx, params, attrs, i).ok(),
    decreases params.len() - i,
{
    if i < params.len() {
        let ty = params[i as int].ty;
        assert(ctx.has(ty));
        assert(ctx.types@[ty as int].exported is Ok);
        let typed = (if i > 0 {
            e.put(", "@)
        } else {
            e
        }).put_rendered(ctx.exported(ty));
        let attributed = if i < attrs.len() {
            match attrs[i as int].arg_attrs().fragment(crate::function::param_class(ctx, ty)) {
                Some(fragment) => typed.put(" "@).put(fragment),
                None => typed,
            }
        } else {
            typed
        };
        lemma_params(
            attributed.put(" "@).put(
                crate::naming::name_text(crate::naming::NameOf::Register(i)),
            ),
            ctx,
            params,
            attrs,
            i + 1,
        );
    }
}

proof fn lemma_types(e: Emission, ctx: Context, types: Seq<usize>, i: nat)
    requires
        e.ok(),
        all_spelled(ctx),
        forall|k: int| 0 <= k < types.len() ==> ctx.has(#[trigger] types[k]),
    ensures
        put_types(e, ctx, types, i).ok(),
    decreases types.len() - i,
{
    if i < types.len() {
        assert(ctx.has(types[i as int]));
        assert(ctx.types@[types[i as int] as int].exported is Ok);
        let begun = if i > 0 {
            e.put(", "@)
        } else {
            e
        };
        lemma_types(begun.put_rendered(ctx.exported(types[i as int])), ctx, types, i + 1);
    }
}

proof fn lemma_function(e: Emission, state: ModuleExportState, func: FuncIr)
    requires
        e.ok(),
        state.ctx.wf(),
        func.within(*state.ctx),
        state.ctx.types@[func.ty as int].kind is Function,
        all_spelled(*state.ctx),
        func.body matches Some(blocks) ==> flows_well(blocks@) && all_name_themselves(blocks@),
    ensures
        put_function(e, state, func).out.ok(),
{
    let ctx = *state.ctx;
    let name = crate::naming::export_name(func.symbol_name@);
    assert(ctx.refers_within(ctx.types@[func.ty as int].kind));
    if let TypeKind::Function { result, args } = ctx.kind(func.ty) {
        assert(ctx.has(result));
        assert(ctx.types@[result as int].exported is Ok);
        let head = e.put("declare "@).put_rendered(ctx.exported(result)).put(" @"@).put(name).put(
            "("@,
        );
        lemma_types(head, ctx, args@, 0);
        if let Some(body) = func.body {
            let blocks = body@;
            if blocks.len() > 0 {
                assert(blocks[0].within(ctx, blocks.len()));
                let begun = e.put("define "@);
                let convention = if crate::function::is_kernel(func)
                    && state.emit_ptx_kernel_keyword {
                    begun.put("ptx_kernel "@)
                } else {
                    begun
                };
                let open = convention.put_rendered(ctx.exported(result)).put(" @"@).put(name).put(
                    "("@,
                );
                let attrs = crate::function::flat_param_attrs(func.attributes);
                lemma_params(open, ctx, blocks[0].args@, attrs, 0);
                let env = crate::export_text_laws::naming_env(state, func);
                let entry = Naming {
                    names: crate::naming::define_all(
                        crate::naming::no_names(),
                        blocks[0].args@,
                        0,
                    ),
                    failure: None,
                };
                lemma_name_blocks(entry, env, blocks, 0);
                lemma_edges(ctx, blocks, 0);
                let naming = crate::naming::function_names(env, blocks);
                let defined = crate::function::put_define(
                    e,
                    state,
                    func,
                    name,
                    result,
                    blocks[0].args@,
                );
                assert(defined.ok());
                assert forall|k: int| 0 <= k < blocks.len() implies all_printed(
                    naming.names.texts(),
                    (#[trigger] blocks[k]).args@,
                ) by {
                    crate::naming::every_value_has_a_name(env, blocks, k);
                }
                lemma_blocks(
                    BlockOut {
                        out: defined,
                        names: naming.names.texts(),
                        next: naming.names.next,
                    },
                    ctx,
                    blocks,
                    0,
                );
            }
        }
    }
}

/// A function of a function type is exported, whatever it computes, where every type has a
/// spelling, every branch passes what its destination expects, and every block with
/// arguments is reached.
pub proof fn well_formed_functions_are_exported(
    state: &mut ModuleExportState,
    func: FuncIr,
    output: &mut String,
    r: Result<(), String>,
)
    requires
        old(state).ctx.wf(),
        func.within(*old(state).ctx),
        old(state).ctx.types@[func.ty as int].kind is Function,
        all_spelled(*old(state).ctx),
        func.body matches Some(blocks) ==> flows_well(blocks@) && all_name_themselves(blocks@),
        call_ensures(ModuleExportState::export_function, (state, &func, output), r),
    ensures
        r is Ok,
{
    lemma_function(after(old(output)@), *old(state), func);
    assert(crate::function::function_out(final(output)@, r, *final(state)) == put_function(
        after(old(output)@),
        *old(state),
        func,
    ));
}

/// A branch that passes the wrong number of values, or a value of the wrong type, or two
/// different lists of values to one block is refused.
pub proof fn ill_formed_branches_are_refused(
    state: &mut ModuleExportState,
    func: FuncIr,
    output: &mut String,
    r: Result<(), String>,
    b: int,
)
    requires
        func.body matches Some(blocks) && 0 <= b < blocks@.len() && !branches_well(blocks@, b),
        call_ensures(ModuleExportState::export_function, (state, &func, output), r),
    ensures
        r is Err,
{
    let blocks = func.body->0@;
    let ctx = *old(state).ctx;
    let out = put_function(after(old(output)@), *old(state), func).out;
    assert(crate::function::function_out(final(output)@, r, *final(state)) == put_function(
        after(old(output)@),
        *old(state),
        func,
    ));
    if r is Ok {
        lemma_no_failure(ctx, blocks, 0, b as nat);
        let ops = blocks[b].ops@;
        match ops[ops.len() - 1].kind {
            OpKind::Br { dest, args } => {
                edges_pass_what_their_destination_expects(
                    ctx,
                    blocks,
                    b as nat,
                    dest as nat,
                    args@,
                );
            },
            OpKind::CondBr { true_dest, true_args, false_dest, false_args } => {
                edges_pass_what_their_destination_expects(
                    ctx,
                    blocks,
                    b as nat,
                    true_dest as nat,
                    true_args@,
                );
                edges_pass_what_their_destination_expects(
                    ctx,
                    blocks,
                    b as nat,
                    false_dest as nat,
                    false_args@,
                );
            },
            _ => {},
        }
    }
}

proof fn lemma_no_failure(ctx: Context, blocks: Seq<BlockIr>, from: nat, b: nat)
    requires
        from <= b < blocks.len(),
        edges_failure(ctx, blocks, from) is None,
    ensures
        block_failure(ctx, blocks, b) is None,
    decreases b - from,
{
    if from < b {
        lemma_no_failure(ctx, blocks, from + 1, b);
    }
}

/// An edge is accepted exactly where it passes as many values as its destination has
/// arguments, each of the type of its argument.
pub proof fn edges_are_accepted_where_they_suit(
    ctx: Context,
    blocks: Vec<BlockIr>,
    source: usize,
    dest: usize,
    args: Vec<Value>,
    r: Result<(), String>,
)
    requires
        call_ensures(validate_edge, (&ctx, &blocks, source, dest, &args), r),
    ensures
        r is Ok <==> suits(args@, blocks@[dest as int].args@),
{
    edges_pass_what_their_destination_expects(
        ctx,
        blocks@,
        source as nat,
        dest as nat,
        args@,
    );
}

}
