//! What holds of the exporter as a whole.

use crate::arg_attrs::LlvmParamAttrsAttr;
use crate::edges::block_failure;
use crate::edges::edge_between;
use crate::edges::edges_failure;
use crate::edges::edges_pass_what_their_destination_expects;
use crate::edges::passes;
use crate::edges::IncomingView;
use crate::emission::Emission;
use crate::export_state::ModuleExportState;
use crate::function::put_block;
use crate::function::put_blocks;
use crate::function::put_function;
use crate::function::put_incoming;
use crate::function::put_line;
use crate::function::put_ops;
use crate::function::put_params;
use crate::function::put_phi;
use crate::function::put_phis;
use crate::function::put_types;
use crate::function::BlockOut;
use crate::global::put_global;
use crate::ir::BlockIr;
use crate::ir::Context;
use crate::ir::FuncIr;
use crate::ir::GlobalIr;
use crate::ir::OpIr;
use crate::ir::OpKind;
use crate::ir::Piece;
use crate::ir::Value;
use crate::metadata::put_annotations;
use crate::metadata::put_nvvm_annotations;
use crate::metadata::Annotation;
use vstd::prelude::*;

verus! {

/// The text of `earlier` begins that of `later`, and what had failed stays failed.
pub open spec fn continues_in(earlier: Emission, later: Emission) -> bool {
    &&& earlier.text.len() <= later.text.len()
    &&& forall|i: int|
        0 <= i < earlier.text.len() ==> #[trigger] later.text[i] == earlier.text[i]
    &&& !earlier.ok() ==> later == earlier
}

proof fn lemma_incoming(
    e: Emission,
    names: Map<u64, Seq<char>>,
    labels: Map<u64, Seq<char>>,
    label: Seq<char>,
    index: nat,
    preds: Seq<IncomingView>,
    j: nat,
)
    ensures
        continues_in(e, put_incoming(e, names, labels, label, index, preds, j)),
    decreases preds.len() - j,
{
    if e.ok() && j < preds.len() {
        let pred = preds[j as int];
        let source = labels[pred.source as u64];
        let begun = if j > 0 {
            e.put(", "@)
        } else {
            e
        };
        let next = if index < pred.args.len() {
            begun.put("[ "@).put(
                crate::naming::value_text(names, pred.args[index as int]),
            ).put(", %"@).put(source).put(" ]"@)
        } else {
            begun.fail(
                "predecessor `%"@ + source + "` does not supply block argument "@
                    + crate::text::decimal(index) + " for `%"@ + label + "`"@,
            )
        };
        assert(continues_in(e, begun));
        assert(continues_in(begun, next));
        lemma_incoming(next, names, labels, label, index, preds, j + 1);
    }
}

proof fn lemma_phi(
    x: BlockOut,
    ctx: Context,
    labels: Map<u64, Seq<char>>,
    label: Seq<char>,
    arg: Value,
    index: nat,
    preds: Seq<IncomingView>,
)
    ensures
        continues_in(x.out, put_phi(x, ctx, labels, label, arg, index, preds).out),
{
    let done = put_phi(x, ctx, labels, label, arg, index, preds);
    let head = x.out.put("  "@).put(done.names[arg.id]).put(" = phi "@).put_rendered(
        ctx.exported(arg.ty),
    ).put(" "@);
    assert(continues_in(x.out, head));
    lemma_incoming(head, done.names, labels, label, index, preds, 0);
}

proof fn lemma_phis(
    x: BlockOut,
    ctx: Context,
    labels: Map<u64, Seq<char>>,
    label: Seq<char>,
    args: Seq<Value>,
    preds: Seq<IncomingView>,
    i: nat,
)
    ensures
        continues_in(x.out, put_phis(x, ctx, labels, label, args, preds, i).out),
    decreases args.len() - i,
{
    if x.out.ok() && i < args.len() {
        let next = put_phi(x, ctx, labels, label, args[i as int], i, preds);
        lemma_phi(x, ctx, labels, label, args[i as int], i, preds);
        lemma_phis(next, ctx, labels, label, args, preds, i + 1);
    }
}

proof fn lemma_line(
    e: Emission,
    ctx: Context,
    names: Map<u64, Seq<char>>,
    labels: Map<u64, Seq<char>>,
    line: Seq<Piece>,
    i: nat,
)
    ensures
        continues_in(e, put_line(e, ctx, names, labels, line, i)),
    decreases line.len() - i,
{
    if e.ok() && i < line.len() {
        let next = crate::function::put_piece(e, ctx, names, labels, line[i as int]);
        assert(continues_in(e, next));
        lemma_line(next, ctx, names, labels, line, i + 1);
    }
}

proof fn lemma_ops(
    e: Emission,
    ctx: Context,
    names: Map<u64, Seq<char>>,
    labels: Map<u64, Seq<char>>,
    ops: Seq<OpIr>,
    i: nat,
)
    ensures
        continues_in(e, put_ops(e, ctx, names, labels, ops, i)),
    decreases ops.len() - i,
{
    if e.ok() && i < ops.len() {
        let next = put_line(e, ctx, names, labels, ops[i as int].line@, 0);
        lemma_line(e, ctx, names, labels, ops[i as int].line@, 0);
        lemma_ops(next, ctx, names, labels, ops, i + 1);
    }
}

proof fn lemma_block(
    x: BlockOut,
    ctx: Context,
    labels: Map<u64, Seq<char>>,
    block: BlockIr,
    b: nat,
    preds: Option<Seq<IncomingView>>,
    is_entry: bool,
)
    ensures
        continues_in(x.out, put_block(x, ctx, labels, block, b, preds, is_entry).out),
{
    let label = labels[b as u64];
    let begun = BlockOut { out: x.out.put(label).put(":\n"@), ..x };
    assert(continues_in(x.out, begun.out));
    let headed = if block.args@.len() > 0 && !is_entry {
        match preds {
            Some(preds) => put_phis(begun, ctx, labels, label, block.args@, preds, 0),
            None => BlockOut {
                out: begun.out.fail("Block with args has no predecessors"@),
                ..begun
            },
        }
    } else {
        begun
    };
    if let Some(preds) = preds {
        lemma_phis(begun, ctx, labels, label, block.args@, preds, 0);
    }
    assert(continues_in(begun.out, headed.out));
    lemma_ops(headed.out, ctx, headed.names, labels, block.ops@, 0);
}

proof fn lemma_blocks(x: BlockOut, ctx: Context, blocks: Seq<BlockIr>, b: nat)
    ensures
        continues_in(x.out, put_blocks(x, ctx, blocks, b).out),
    decreases blocks.len() - b,
{
    if x.out.ok() && b < blocks.len() {
        let labels = crate::edges::labels(blocks.len());
        let preds = crate::function::predecessors_of(blocks, b);
        let next = put_block(x, ctx, labels, blocks[b as int], b, preds, b == 0);
        lemma_block(x, ctx, labels, blocks[b as int], b, preds, b == 0);
        lemma_blocks(next, ctx, blocks, b + 1);
    }
}

proof fn lemma_types(e: Emission, ctx: Context, types: Seq<usize>, i: nat)
    ensures
        continues_in(e, put_types(e, ctx, types, i)),
    decreases types.len() - i,
{
    if e.ok() && i < types.len() {
        let begun = if i > 0 {
            e.put(", "@)
        } else {
            e
        };
        let next = begun.put_rendered(ctx.exported(types[i as int]));
        assert(continues_in(e, next));
        lemma_types(next, ctx, types, i + 1);
    }
}

proof fn lemma_params(
    e: Emission,
    ctx: Context,
    params: Seq<Value>,
    attrs: Seq<LlvmParamAttrsAttr>,
    i: nat,
)
    ensures
        continues_in(e, put_params(e, ctx, params, attrs, i)),
    decreases params.len() - i,
{
    if e.ok() && i < params.len() {
        let ty = params[i as int].ty;
        let typed = (if i > 0 {
            e.put(", "@)
        } else {
            e
        }).put_rendered(ctx.exported(ty));
        assert(continues_in(e, typed));
        let attributed = if i < attrs.len() {
            match attrs[i as int].arg_attrs().fragment(crate::function::param_class(ctx, ty)) {
                Some(fragment) => typed.put(" "@).put(fragment),
                None => typed,
            }
        } else {
            typed
        };
        assert(continues_in(typed, attributed));
        let next = attributed.put(" "@).put(
            crate::naming::name_text(crate::naming::NameOf::Register(i)),
        );
        assert(continues_in(attributed, next));
        lemma_params(next, ctx, params, attrs, i + 1);
    }
}

proof fn lemma_declaration(
    e: Emission,
    ctx: Context,
    name: Seq<char>,
    result: usize,
    args: Seq<usize>,
)
    ensures
        continues_in(e, crate::function::put_declaration(e, ctx, name, result, args)),
{
    let head = e.put("declare "@).put_rendered(ctx.exported(result)).put(" @"@).put(name).put("("@);
    assert(continues_in(e, head));
    lemma_types(head, ctx, args, 0);
}

proof fn lemma_define(
    e: Emission,
    state: ModuleExportState,
    func: FuncIr,
    name: Seq<char>,
    result: usize,
    params: Seq<Value>,
)
    ensures
        continues_in(e, crate::function::put_define(e, state, func, name, result, params)),
{
    let ctx = *state.ctx;
    let begun = e.put("define "@);
    let convention = if crate::function::is_kernel(func) && state.emit_ptx_kernel_keyword {
        begun.put("ptx_kernel "@)
    } else {
        begun
    };
    let head = convention.put_rendered(ctx.exported(result)).put(" @"@).put(name).put("("@);
    assert(continues_in(e, convention));
    assert(continues_in(convention, head));
    let attrs = crate::function::flat_param_attrs(func.attributes);
    lemma_params(head, ctx, params, attrs, 0);
    let listed = put_params(head, ctx, params, attrs, 0);
    let closed = listed.put(") "@);
    let inlined = if func.attributes.has_text("alwaysinline"@) {
        closed.put("alwaysinline "@)
    } else {
        closed
    };
    assert(continues_in(listed, inlined));
    if let Some(scope) = func.debug_scope {
        assert(continues_in(
            inlined,
            inlined.put("#0 !dbg !"@).put(crate::text::decimal(scope as nat)).put(" {\n"@),
        ));
    }
}

/// Exporting a function adds text and changes none, and it stops where something had
/// failed before.
pub proof fn functions_are_appended(e: Emission, state: ModuleExportState, func: FuncIr)
    ensures
        continues_in(e, put_function(e, state, func).out),
{
    let name = crate::naming::export_name(func.symbol_name@);
    let ctx = *state.ctx;
    if let crate::ir::TypeKind::Function { result, args } = ctx.kind(func.ty) {
        lemma_declaration(e, ctx, name, result, args@);
        if let Some(blocks) = func.body {
            if blocks@.len() > 0 {
                lemma_define(e, state, func, name, result, blocks@[0].args@);
                let defined = crate::function::put_define(
                    e,
                    state,
                    func,
                    name,
                    result,
                    blocks@[0].args@,
                );
                let env = crate::naming::NamingEnv {
                    ctx,
                    legacy: state.legacy(),
                    globals: state.global_symbols@,
                    functions: crate::function::with_function(state, func, name).function_types,
                };
                let naming = crate::naming::function_names(env, blocks@);
                lemma_blocks(
                    BlockOut { out: defined, names: naming.names.texts(), next: naming.names.next },
                    ctx,
                    blocks@,
                    0,
                );
                assert(continues_in(
                    defined,
                    crate::function::put_body(defined, env, blocks@),
                ));
            }
        }
    }
}

/// Exporting a global adds text and changes none.
pub proof fn globals_are_appended(e: Emission, state: ModuleExportState, global: GlobalIr)
    ensures
        continues_in(e, put_global(e, state, global)),
{
    let space = global.address_space;
    let head = e.put("@"@).put(global.symbol_name@).put(
        if global.external_linkage {
            " = external addrspace("@
        } else {
            " = addrspace("@
        },
    ).put(crate::text::decimal(space as nat)).put(") global "@).put_rendered(
        state.ctx.exported(global.ty),
    );
    assert(continues_in(e, head));
}

proof fn lemma_annotations(
    e: Emission,
    state: ModuleExportState,
    nodes: Seq<Annotation>,
    first_id: nat,
    i: nat,
)
    ensures
        continues_in(e, put_annotations(e, state, nodes, first_id, i)),
    decreases nodes.len() - i,
{
    if e.ok() && i < nodes.len() {
        let next = crate::metadata::put_annotation(e, state, nodes[i as int], first_id + i);
        assert(continues_in(e, next));
        lemma_annotations(next, state, nodes, first_id, i + 1);
    }
}

/// Emitting the annotations adds text and changes none.
pub proof fn annotations_are_appended(e: Emission, state: ModuleExportState, emit_all: bool)
    ensures
        continues_in(e, put_nvvm_annotations(e, state, emit_all)),
{
    let nodes = crate::metadata::annotations(state@, emit_all);
    lemma_annotations(e, state, nodes, state@.next_metadata_id, 0);
}

proof fn lemma_no_block_fails(ctx: Context, blocks: Seq<BlockIr>, b: nat)
    requires
        edges_failure(ctx, blocks, b) is None,
    ensures
        forall|c: nat|
            b <= c < blocks.len() ==> (#[trigger] block_failure(ctx, blocks, c)) is None,
    decreases blocks.len() - b,
{
    if b < blocks.len() {
        lemma_no_block_fails(ctx, blocks, b + 1);
    }
}

/// A function that was exported passes along every edge as many values as the
/// destination has arguments, each of the type of its argument.
pub proof fn exported_edges_fit(
    e: Emission,
    state: ModuleExportState,
    func: FuncIr,
    source: nat,
    dest: nat,
)
    requires
        put_function(e, state, func).out.ok(),
        func.body matches Some(blocks) && source < blocks@.len(),
    ensures
        ({
            let blocks = func.body->0@;
            let edge = edge_between(blocks, source, dest);
            edge.len() <= 1 && (edge.len() == 1 ==> passes(
                edge[0].args,
                blocks[dest as int].args@,
            ))
        }),
{
    let blocks = func.body->0@;
    let ctx = *state.ctx;
    lemma_no_block_fails(ctx, blocks, 0);
    assert(block_failure(ctx, blocks, source) is None);
    if blocks[source as int].ops@.len() > 0 {
        match blocks[source as int].ops@.last().kind {
            OpKind::Br { dest: to, args } => {
                edges_pass_what_their_destination_expects(ctx, blocks, source, to as nat, args@);
            },
            OpKind::CondBr { true_dest, true_args, false_dest, false_args } => {
                edges_pass_what_their_destination_expects(
                    ctx,
                    blocks,
                    source,
                    true_dest as nat,
                    true_args@,
                );
                edges_pass_what_their_destination_expects(
                    ctx,
                    blocks,
                    source,
                    false_dest as nat,
                    false_args@,
                );
            },
            _ => {},
        }
    }
}

}
