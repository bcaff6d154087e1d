//! The text of an exported function, written out from the function itself.

use crate::arg_attrs::LlvmParamAttrsAttr;
use crate::arg_attrs::LlvmParamClass;
use crate::edges::block_label;
use crate::edges::edge_between;
use crate::edges::predecessors;
use crate::edges::IncomingView;
use crate::emission::after;
use crate::emission::Emission;
use crate::export_state::ModuleExportState;
use crate::function::all_printed;
use crate::function::put_block;
use crate::function::put_blocks;
use crate::function::put_body;
use crate::function::put_function;
use crate::function::put_incoming;
use crate::function::put_line;
use crate::function::put_ops;
use crate::function::put_params;
use crate::function::put_phi;
use crate::function::put_phis;
use crate::function::put_types;
use crate::function::BlockOut;
use crate::ir::AttrObj;
use crate::ir::BlockIr;
use crate::ir::Context;
use crate::ir::FuncIr;
use crate::ir::OpIr;
use crate::ir::OpKind;
use crate::ir::Piece;
use crate::ir::TypeKind;
use crate::ir::Value;
use crate::naming::NamingEnv;
use crate::text::decimal;
use vstd::prelude::*;

verus! {

broadcast use vstd::string::group_string_axioms;

// ---------------------------------------------------------------------------
// Pieces
// ---------------------------------------------------------------------------

/// `part(0)`, `part(1)` and so on, `n` of them, one behind the other.
pub open spec fn in_turn(part: spec_fn(int) -> Seq<char>, n: nat) -> Seq<char>
    decreases n,
{
    if n == 0 {
        seq![]
    } else {
        in_turn(part, (n - 1) as nat) + part(n - 1)
    }
}

/// `parts` with a comma and a space between every two neighbours.
pub open spec fn with_commas(parts: Seq<Seq<char>>) -> Seq<char>
    decreases parts.len(),
{
    if parts.len() == 0 {
        seq![]
    } else if parts.len() == 1 {
        parts[0]
    } else {
        with_commas(parts.drop_last()) + ", "@ + parts.last()
    }
}

/// The name of the block at position `b`: the entry, or its number from zero on.
pub open spec fn block_name(b: int) -> Seq<char> {
    if b == 0 {
        "entry"@
    } else {
        "bb"@ + decimal((b - 1) as nat)
    }
}

/// How a value is written: as it is named, and as undefined where it has no name.
pub open spec fn written(names: Map<u64, Seq<char>>, value: Value) -> Seq<char> {
    if names.dom().contains(value.id) {
        names[value.id]
    } else {
        "undef"@
    }
}

/// The spelling of a type that has one.
pub open spec fn spelled(ctx: Context, ty: usize) -> Seq<char> {
    ctx.types@[ty as int].exported->Ok_0@
}

// ---------------------------------------------------------------------------
// PHIs
// ---------------------------------------------------------------------------

/// The values that the block at `b` passes to the block at `dest` where its last operation
/// branches there.
pub open spec fn passed(blocks: Seq<BlockIr>, b: int, dest: int) -> Option<Seq<Value>> {
    let ops = blocks[b].ops@;
    if ops.len() == 0 {
        None
    } else {
        match ops[ops.len() - 1].kind {
            OpKind::Br { dest: to, args } => if to == dest {
                Some(args@)
            } else {
                None
            },
            OpKind::CondBr { true_dest, true_args, false_dest, false_args } => if true_dest
                == dest {
                Some(true_args@)
            } else if false_dest == dest {
                Some(false_args@)
            } else {
                None
            },
            _ => None,
        }
    }
}

/// What a predecessor contributes to a PHI: the value that it passes, and its own label.
pub open spec fn pair(names: Map<u64, Seq<char>>, value: Value, b: int) -> Seq<char> {
    "[ "@ + written(names, value) + ", %"@ + block_name(b) + " ]"@
}

/// The pairs of the PHI of the argument at `i` of the block at `dest`: one for each of the
/// first `n` blocks that branches there, in their order, with the value that this very
/// block passes for the argument.
pub open spec fn pairs(
    names: Map<u64, Seq<char>>,
    blocks: Seq<BlockIr>,
    dest: int,
    i: int,
    n: nat,
) -> Seq<Seq<char>>
    decreases n,
{
    if n == 0 {
        seq![]
    } else {
        match passed(blocks, n - 1, dest) {
            Some(args) => pairs(names, blocks, dest, i, (n - 1) as nat).push(
                pair(names, args[i], n - 1),
            ),
            None => pairs(names, blocks, dest, i, (n - 1) as nat),
        }
    }
}

/// The PHI of the argument at `i` of the block at `dest`.
pub open spec fn phi_line(
    ctx: Context,
    names: Map<u64, Seq<char>>,
    blocks: Seq<BlockIr>,
    dest: int,
    i: int,
) -> Seq<char> {
    let arg = blocks[dest].args@[i];
    "  "@ + names[arg.id] + " = phi "@ + spelled(ctx, arg.ty) + " "@ + with_commas(
        pairs(names, blocks, dest, i, blocks.len()),
    ) + "\n"@
}

// ---------------------------------------------------------------------------
// Operations and blocks
// ---------------------------------------------------------------------------

/// A piece of a line.
pub open spec fn piece_text(ctx: Context, names: Map<u64, Seq<char>>, piece: Piece) -> Seq<char> {
    match piece {
        Piece::Text(s) => s@,
        Piece::Value(v) => written(names, v),
        Piece::Label(b) => block_name(b as int),
        Piece::Type(ty) => spelled(ctx, ty),
    }
}

/// The line of an operation: its pieces, one behind the other.
pub open spec fn op_line(ctx: Context, names: Map<u64, Seq<char>>, op: OpIr) -> Seq<char> {
    in_turn(|i: int| piece_text(ctx, names, op.line@[i]), op.line@.len())
}

/// A block: its label, the PHI of every argument unless it is the entry, and the line of
/// every operation, in order.
pub open spec fn block_text(
    ctx: Context,
    names: Map<u64, Seq<char>>,
    blocks: Seq<BlockIr>,
    b: int,
) -> Seq<char> {
    let block = blocks[b];
    block_name(b) + ":\n"@ + in_turn(
        |i: int| phi_line(ctx, names, blocks, b, i),
        if b == 0 {
            0
        } else {
            block.args@.len()
        },
    ) + in_turn(|i: int| op_line(ctx, names, block.ops@[i]), block.ops@.len())
}

// ---------------------------------------------------------------------------
// Signatures
// ---------------------------------------------------------------------------

/// A space and `token` where `present`.
pub open spec fn word(present: bool, token: Seq<char>) -> Seq<char> {
    if present {
        " "@ + token
    } else {
        seq![]
    }
}

/// The attributes of a parameter of this kind of type, each behind a space: on a pointer
/// all but the extension, on an integer the extension and `noundef`, and on anything else
/// `noundef` only.
pub open spec fn attribute_words(a: LlvmParamAttrsAttr, kind: TypeKind) -> Seq<char> {
    match kind {
        TypeKind::Pointer { address_space } => {
            word(a.noalias, "noalias"@) + word(a.readonly, "readonly"@) + word(
                a.nonnull,
                "nonnull"@,
            ) + word(a.noundef, "noundef"@) + word(
                a.dereferenceable != 0,
                "dereferenceable("@ + decimal(a.dereferenceable as nat) + ")"@,
            ) + word(a.align != 0, "align "@ + decimal(a.align as nat))
        },
        TypeKind::Integer { width } => {
            word(a.signext, "signext"@) + word(!a.signext && a.zeroext, "zeroext"@) + word(
                a.noundef,
                "noundef"@,
            )
        },
        _ => word(a.noundef, "noundef"@),
    }
}

/// The parameter at `i`: its type, its attributes and the register of its number.
pub open spec fn param_text(
    ctx: Context,
    params: Seq<Value>,
    attrs: Seq<LlvmParamAttrsAttr>,
    i: int,
) -> Seq<char> {
    let ty = params[i].ty;
    spelled(ctx, ty) + (if i < attrs.len() {
        attribute_words(attrs[i], ctx.types@[ty as int].kind)
    } else {
        seq![]
    }) + " "@ + "%v"@ + decimal(i as nat)
}

/// The first line of the definition of a function.
pub open spec fn signature_line(
    ctx: Context,
    func: FuncIr,
    name: Seq<char>,
    result: usize,
    params: Seq<Value>,
    kernel_keyword: bool,
) -> Seq<char> {
    let attrs = crate::function::flat_param_attrs(func.attributes);
    "define "@ + (if func.attributes.lookup("gpu_kernel"@) matches Some(AttrObj::Text(_))
        && kernel_keyword {
        "ptx_kernel "@
    } else {
        seq![]
    }) + spelled(ctx, result) + " @"@ + name + "("@ + with_commas(
        Seq::new(params.len(), |i: int| param_text(ctx, params, attrs, i)),
    ) + ") "@ + (if func.attributes.lookup("alwaysinline"@) matches Some(AttrObj::Text(_)) {
        "alwaysinline "@
    } else {
        seq![]
    }) + (match func.debug_scope {
        Some(scope) => "#0 !dbg !"@ + decimal(scope as nat) + " {\n"@,
        None => "#0 {\n"@,
    })
}

/// The line that declares a function without a body, up to the closing bracket.
pub open spec fn declaration_line(
    ctx: Context,
    name: Seq<char>,
    result: usize,
    args: Seq<usize>,
) -> Seq<char> {
    "declare "@ + spelled(ctx, result) + " @"@ + name + "("@ + with_commas(
        Seq::new(args.len(), |i: int| spelled(ctx, args[i])),
    ) + ")"@
}

// ---------------------------------------------------------------------------
// Proofs
// ---------------------------------------------------------------------------

proof fn lemma_commas(parts: Seq<Seq<char>>, j: int)
    requires
        0 <= j < parts.len(),
    ensures
        with_commas(parts.take(j + 1)) == (if j == 0 {
            parts[0]
        } else {
            with_commas(parts.take(j)) + ", "@ + parts[j]
        }),
{
    assert(parts.take(j + 1).drop_last() =~= parts.take(j));
    assert(parts.take(j + 1).last() == parts[j]);
}

/// The texts of the pairs of `preds`.
spec fn pair_texts(
    names: Map<u64, Seq<char>>,
    preds: Seq<IncomingView>,
    index: int,
) -> Seq<Seq<char>> {
    Seq::new(preds.len(), |j: int| pair(names, preds[j].args[index], preds[j].source as int))
}

proof fn lemma_incoming(
    e: Emission,
    base: Seq<char>,
    names: Map<u64, Seq<char>>,
    labels: Map<u64, Seq<char>>,
    label: Seq<char>,
    index: nat,
    preds: Seq<IncomingView>,
    j: nat,
)
    requires
        j <= preds.len(),
        forall|k: int|
            0 <= k < preds.len() ==> labels[(#[trigger] preds[k]).source as u64] == block_name(
                preds[k].source as int,
            ),
        e.text == base + with_commas(pair_texts(names, preds, index as int).take(j as int)),
        put_incoming(e, names, labels, label, index, preds, j).ok(),
    ensures
        put_incoming(e, names, labels, label, index, preds, j).text == base + with_commas(
            pair_texts(names, preds, index as int),
        ),
    decreases preds.len() - j,
{
    let all = pair_texts(names, preds, index as int);
    if j < preds.len() {
        assert(e.ok());
        let pred = preds[j as int];
        let source = labels[pred.source as u64];
        let begun = if j > 0 {
            e.put(", "@)
        } else {
            e
        };
        assert(index < pred.args.len()) by {
            let failed = begun.fail(
                "predecessor `%"@ + source + "` does not supply block argument "@ + decimal(index)
                    + " for `%"@ + label + "`"@,
            );
            assert(put_incoming(failed, names, labels, label, index, preds, j + 1) == failed);
        }
        let next = begun.put("[ "@).put(
            crate::naming::value_text(names, pred.args[index as int]),
        ).put(", %"@).put(source).put(" ]"@);
        lemma_commas(all, j as int);
        assert(all.take(0) =~= seq![]);
        assert(next.text =~= base + with_commas(all.take(j as int + 1)));
        lemma_incoming(next, base, names, labels, label, index, preds, j + 1);
    } else {
        assert(all.take(j as int) =~= all);
    }
}

proof fn lemma_passed(blocks: Seq<BlockIr>, b: nat, dest: nat)
    ensures
        edge_between(blocks, b, dest) == (match passed(blocks, b as int, dest as int) {
            Some(args) => seq![IncomingView { source: b, args }],
            None => seq![],
        }),
{
}

proof fn lemma_pairs(
    names: Map<u64, Seq<char>>,
    blocks: Seq<BlockIr>,
    dest: nat,
    index: int,
    n: nat,
)
    ensures
        pair_texts(names, predecessors(blocks, dest, n), index) == pairs(
            names,
            blocks,
            dest as int,
            index,
            n,
        ),
    decreases n,
{
    if n > 0 {
        lemma_pairs(names, blocks, dest, index, (n - 1) as nat);
        lemma_passed(blocks, (n - 1) as nat, dest);
    }
    assert(pair_texts(names, predecessors(blocks, dest, n), index) =~= pairs(
        names,
        blocks,
        dest as int,
        index,
        n,
    ));
}

/// The labels are the names of the blocks.
spec fn labelled(labels: Map<u64, Seq<char>>, n: nat) -> bool {
    forall|b: u64| (b as nat) < n ==> #[trigger] labels[b] == block_name(b as int)
}

proof fn lemma_phis(
    x: BlockOut,
    base: Seq<char>,
    ctx: Context,
    labels: Map<u64, Seq<char>>,
    label: Seq<char>,
    blocks: Seq<BlockIr>,
    b: nat,
    i: nat,
)
    requires
        blocks.len() <= u64::MAX,
        b < blocks.len(),
        i <= blocks[b as int].args@.len(),
        labelled(labels, blocks.len()),
        all_printed(x.names, blocks[b as int].args@),
        x.out.text == base + in_turn(|k: int| phi_line(ctx, x.names, blocks, b as int, k), i),
        put_phis(
            x,
            ctx,
            labels,
            label,
            blocks[b as int].args@,
            predecessors(blocks, b, blocks.len()),
            i,
        ).out.ok(),
    ensures
        ({
            let done = put_phis(
                x,
                ctx,
                labels,
                label,
                blocks[b as int].args@,
                predecessors(blocks, b, blocks.len()),
                i,
            );
            &&& done.names == x.names
            &&& done.out.text == base + in_turn(
                |k: int| phi_line(ctx, x.names, blocks, b as int, k),
                blocks[b as int].args@.len(),
            )
        }),
    decreases blocks[b as int].args@.len() - i,
{
    let args = blocks[b as int].args@;
    let preds = predecessors(blocks, b, blocks.len());
    let line = |k: int| phi_line(ctx, x.names, blocks, b as int, k);
    if i < args.len() {
        let arg = args[i as int];
        let next = put_phi(x, ctx, labels, label, arg, i, preds);
        if !next.out.ok() {
            assert(put_phis(next, ctx, labels, label, args, preds, i + 1) == next);
        }
        assert(x.names.dom().contains(arg.id));
        let head = x.out.put("  "@).put(x.names[arg.id]).put(" = phi "@).put_rendered(
            ctx.exported(arg.ty),
        ).put(" "@);
        let body = put_incoming(head, x.names, labels, label, i, preds, 0);
        assert(next.out == body.put("\n"@));
        assert(body.ok());
        assert(head.ok()) by {
            if !head.ok() {
                assert(body == head);
            }
        }
        crate::edges::predecessor_sources(blocks, b, blocks.len());
        assert(pair_texts(x.names, preds, i as int).take(0) =~= seq![]);
        assert(head.text =~= head.text + with_commas(
            pair_texts(x.names, preds, i as int).take(0),
        ));
        lemma_incoming(head, head.text, x.names, labels, label, i, preds, 0);
        lemma_pairs(x.names, blocks, b, i as int, blocks.len());
        assert(next.out.text =~= x.out.text + phi_line(ctx, x.names, blocks, b as int, i as int));
        assert(next.out.text =~= base + in_turn(line, i + 1)) by {
            assert(in_turn(line, i + 1) == in_turn(line, i) + line(i as int));
        }
        lemma_phis(next, base, ctx, labels, label, blocks, b, i + 1);
    }
}

proof fn lemma_line(
    e: Emission,
    base: Seq<char>,
    ctx: Context,
    names: Map<u64, Seq<char>>,
    labels: Map<u64, Seq<char>>,
    op: OpIr,
    blocks: nat,
    i: nat,
)
    requires
        blocks <= u64::MAX,
        i <= op.line@.len(),
        labelled(labels, blocks),
        op.within(ctx, blocks),
        e.text == base + in_turn(|k: int| piece_text(ctx, names, op.line@[k]), i),
        put_line(e, ctx, names, labels, op.line@, i).ok(),
    ensures
        put_line(e, ctx, names, labels, op.line@, i).text == base + op_line(ctx, names, op),
    decreases op.line@.len() - i,
{
    let part = |k: int| piece_text(ctx, names, op.line@[k]);
    if i < op.line@.len() {
        let piece = op.line@[i as int];
        assert(piece.within(ctx, blocks));
        let next = crate::function::put_piece(e, ctx, names, labels, piece);
        if !next.ok() {
            assert(put_line(next, ctx, names, labels, op.line@, i + 1) == next);
        }
        if let Piece::Label(b) = piece {
            assert(labels[b as u64] == block_name(b as int));
        }
        assert(next.text =~= e.text + piece_text(ctx, names, piece));
        assert(next.text =~= base + in_turn(part, i + 1)) by {
            assert(in_turn(part, i + 1) == in_turn(part, i) + part(i as int));
        }
        lemma_line(next, base, ctx, names, labels, op, blocks, i + 1);
    }
}

proof fn lemma_ops(
    e: Emission,
    base: Seq<char>,
    ctx: Context,
    names: Map<u64, Seq<char>>,
    labels: Map<u64, Seq<char>>,
    ops: Seq<OpIr>,
    blocks: nat,
    i: nat,
)
    requires
        blocks <= u64::MAX,
        i <= ops.len(),
        labelled(labels, blocks),
        forall|k: int| 0 <= k < ops.len() ==> (#[trigger] ops[k]).within(ctx, blocks),
        e.text == base + in_turn(|k: int| op_line(ctx, names, ops[k]), i),
        put_ops(e, ctx, names, labels, ops, i).ok(),
    ensures
        put_ops(e, ctx, names, labels, ops, i).text == base + in_turn(
            |k: int| op_line(ctx, names, ops[k]),
            ops.len(),
        ),
    decreases ops.len() - i,
{
    let part = |k: int| op_line(ctx, names, ops[k]);
    if i < ops.len() {
        let op = ops[i as int];
        let next = put_line(e, ctx, names, labels, op.line@, 0);
        if !next.ok() {
            assert(put_ops(next, ctx, names, labels, ops, i + 1) == next);
        }
        assert(op.within(ctx, blocks));
        assert(e.text =~= e.text + in_turn(|k: int| piece_text(ctx, names, op.line@[k]), 0));
        lemma_line(e, e.text, ctx, names, labels, op, blocks, 0);
        assert(next.text =~= base + in_turn(part, i + 1)) by {
            assert(in_turn(part, i + 1) == in_turn(part, i) + part(i as int));
        }
        lemma_ops(next, base, ctx, names, labels, ops, blocks, i + 1);
    }
}

proof fn lemma_block(x: BlockOut, ctx: Context, blocks: Seq<BlockIr>, b: nat)
    requires
        blocks.len() <= u64::MAX,
        b < blocks.len(),
        crate::ir::blocks_within(ctx, blocks),
        all_printed(x.names, blocks[b as int].args@),
        put_block(
            x,
            ctx,
            crate::edges::labels(blocks.len()),
            blocks[b as int],
            b,
            crate::function::predecessors_of(blocks, b),
            b == 0,
        ).out.ok(),
    ensures
        ({
            let done = put_block(
                x,
                ctx,
                crate::edges::labels(blocks.len()),
                blocks[b as int],
                b,
                crate::function::predecessors_of(blocks, b),
                b == 0,
            );
            &&& done.names == x.names
            &&& done.out.text == x.out.text + block_text(ctx, x.names, blocks, b as int)
        }),
{
    let labels = crate::edges::labels(blocks.len());
    let block = blocks[b as int];
    assert(block.within(ctx, blocks.len()));
    assert forall|k: u64| (k as nat) < blocks.len() implies #[trigger] labels[k] == block_name(
        k as int,
    ) by {
        assert(labels.dom().contains(k));
    }
    let label = labels[b as u64];
    assert(labels[b as u64] == block_name(b as int));
    let begun = BlockOut { out: x.out.put(label).put(":\n"@), ..x };
    let preds = predecessors(blocks, b, blocks.len());
    let headed = if block.args@.len() > 0 && b != 0 {
        match crate::function::predecessors_of(blocks, b) {
            Some(preds) => put_phis(begun, ctx, labels, label, block.args@, preds, 0),
            None => BlockOut {
                out: begun.out.fail("Block with args has no predecessors"@),
                ..begun
            },
        }
    } else {
        begun
    };
    let done = put_ops(headed.out, ctx, headed.names, labels, block.ops@, 0);
    assert(done.ok());
    assert(headed.out.ok()) by {
        if !headed.out.ok() {
            assert(done == headed.out);
        }
    }
    assert(x.out.ok());
    let phis = |i: int| phi_line(ctx, x.names, blocks, b as int, i);
    let count: nat = if b == 0 {
        0
    } else {
        block.args@.len()
    };
    if block.args@.len() > 0 && b != 0 {
        assert(preds.len() > 0);
        assert(begun.out.text =~= begun.out.text + in_turn(phis, 0));
        lemma_phis(begun, begun.out.text, ctx, labels, label, blocks, b, 0);
    } else {
        assert(headed.out.text =~= begun.out.text + in_turn(phis, 0));
    }
    assert(headed.out.text =~= begun.out.text + in_turn(phis, count));
    let ops = |i: int| op_line(ctx, x.names, block.ops@[i]);
    assert(headed.out.text =~= headed.out.text + in_turn(ops, 0));
    lemma_ops(
        headed.out,
        headed.out.text,
        ctx,
        x.names,
        labels,
        block.ops@,
        blocks.len(),
        0,
    );
    assert(done.text =~= x.out.text + block_text(ctx, x.names, blocks, b as int));
}

proof fn lemma_blocks(
    x: BlockOut,
    base: Seq<char>,
    ctx: Context,
    blocks: Seq<BlockIr>,
    b: nat,
)
    requires
        blocks.len() <= u64::MAX,
        b <= blocks.len(),
        crate::ir::blocks_within(ctx, blocks),
        forall|k: int| 0 <= k < blocks.len() ==> all_printed(x.names, (#[trigger] blocks[k]).args@),
        x.out.text == base + in_turn(|k: int| block_text(ctx, x.names, blocks, k), b),
        put_blocks(x, ctx, blocks, b).out.ok(),
    ensures
        put_blocks(x, ctx, blocks, b).out.text == base + in_turn(
            |k: int| block_text(ctx, x.names, blocks, k),
            blocks.len(),
        ),
    decreases blocks.len() - b,
{
    let part = |k: int| block_text(ctx, x.names, blocks, k);
    if b < blocks.len() {
        let next = put_block(
            x,
            ctx,
            crate::edges::labels(blocks.len()),
            blocks[b as int],
            b,
            crate::function::predecessors_of(blocks, b),
            b == 0,
        );
        if !next.out.ok() {
            assert(put_blocks(next, ctx, blocks, b + 1) == next);
        }
        assert(all_printed(x.names, blocks[b as int].args@));
        lemma_block(x, ctx, blocks, b);
        assert(next.out.text =~= base + in_turn(part, b + 1)) by {
            assert(in_turn(part, b + 1) == in_turn(part, b) + part(b as int));
        }
        lemma_blocks(next, base, ctx, blocks, b + 1);
    }
}


proof fn lemma_types(e: Emission, base: Seq<char>, ctx: Context, types: Seq<usize>, i: nat)
    requires
        i <= types.len(),
        e.text == base + with_commas(
            Seq::new(types.len(), |k: int| spelled(ctx, types[k])).take(i as int),
        ),
        put_types(e, ctx, types, i).ok(),
    ensures
        put_types(e, ctx, types, i).text == base + with_commas(
            Seq::new(types.len(), |k: int| spelled(ctx, types[k])),
        ),
    decreases types.len() - i,
{
    let all = Seq::new(types.len(), |k: int| spelled(ctx, types[k]));
    if i < types.len() {
        let begun = if i > 0 {
            e.put(", "@)
        } else {
            e
        };
        let next = begun.put_rendered(ctx.exported(types[i as int]));
        if !next.ok() {
            assert(put_types(next, ctx, types, i + 1) == next);
        }
        lemma_commas(all, i as int);
        assert(all.take(0) =~= seq![]);
        assert(next.text =~= base + with_commas(all.take(i as int + 1)));
        lemma_types(next, base, ctx, types, i + 1);
    } else {
        assert(all.take(i as int) =~= all);
    }
}

/// Every token behind a space.
spec fn spaced(tokens: Seq<Seq<char>>) -> Seq<char>
    decreases tokens.len(),
{
    if tokens.len() == 0 {
        seq![]
    } else {
        spaced(tokens.drop_last()) + " "@ + tokens.last()
    }
}

proof fn lemma_spaced_joined(tokens: Seq<Seq<char>>)
    requires
        tokens.len() > 0,
    ensures
        " "@ + crate::text::joined(tokens, " "@) == spaced(tokens),
    decreases tokens.len(),
{
    if tokens.len() > 1 {
        lemma_spaced_joined(tokens.drop_last());
        assert(" "@ + crate::text::joined(tokens, " "@) =~= spaced(tokens));
    } else {
        assert(tokens.drop_last() =~= seq![]);
        assert(spaced(tokens.drop_last()) =~= seq![]);
        assert(" "@ + crate::text::joined(tokens, " "@) =~= spaced(tokens));
    }
}

proof fn lemma_spaced_sum(a: Seq<Seq<char>>, b: Seq<Seq<char>>)
    ensures
        spaced(a + b) == spaced(a) + spaced(b),
    decreases b.len(),
{
    if b.len() == 0 {
        assert(a + b =~= a);
        assert(spaced(a + b) =~= spaced(a) + spaced(b));
    } else {
        assert((a + b).drop_last() =~= a + b.drop_last());
        lemma_spaced_sum(a, b.drop_last());
        assert(spaced(a + b) =~= spaced(a) + spaced(b));
    }
}

proof fn lemma_word(present: bool, token: Seq<char>)
    ensures
        spaced(crate::arg_attrs::token_when(present, token)) == word(present, token),
{
    let one = crate::arg_attrs::token_when(present, token);
    if present {
        assert(one.drop_last() =~= seq![]);
        assert(spaced(one.drop_last()) =~= seq![]);
        assert(spaced(one) =~= word(present, token));
    }
}

proof fn lemma_attributes(a: LlvmParamAttrsAttr, ctx: Context, ty: usize)
    ensures
        ({
            let class = crate::function::param_class(ctx, ty);
            let words = attribute_words(a, ctx.types@[ty as int].kind);
            match a.arg_attrs().fragment(class) {
                Some(fragment) => words == " "@ + fragment,
                None => words == Seq::<char>::empty(),
            }
        }),
{
    let class = crate::function::param_class(ctx, ty);
    let kind = ctx.types@[ty as int].kind;
    let attrs = a.arg_attrs();
    let integer = class == LlvmParamClass::Integer;
    let pointer = class == LlvmParamClass::Pointer;
    let deref_token = "dereferenceable("@ + decimal(attrs.dereferenceable->0 as nat) + ")"@;
    let align_token = "align "@ + decimal(attrs.align->0 as nat);
    let t0 = crate::arg_attrs::token_when(
        integer && attrs.ext == crate::arg_attrs::ArgExt::Sign,
        "signext"@,
    );
    let t1 = crate::arg_attrs::token_when(
        integer && attrs.ext == crate::arg_attrs::ArgExt::Zero,
        "zeroext"@,
    );
    let t2 = crate::arg_attrs::token_when(pointer && attrs.noalias, "noalias"@);
    let t3 = crate::arg_attrs::token_when(pointer && attrs.readonly, "readonly"@);
    let t4 = crate::arg_attrs::token_when(pointer && attrs.nonnull, "nonnull"@);
    let t5 = crate::arg_attrs::token_when(attrs.noundef, "noundef"@);
    let t6 = crate::arg_attrs::token_when(pointer && attrs.dereferenceable is Some, deref_token);
    let t7 = crate::arg_attrs::token_when(pointer && attrs.align is Some, align_token);
    let tokens = attrs.tokens(class);
    assert(tokens == t0 + t1 + t2 + t3 + t4 + t5 + t6 + t7);
    lemma_spaced_sum(t0, t1);
    lemma_spaced_sum(t0 + t1, t2);
    lemma_spaced_sum(t0 + t1 + t2, t3);
    lemma_spaced_sum(t0 + t1 + t2 + t3, t4);
    lemma_spaced_sum(t0 + t1 + t2 + t3 + t4, t5);
    lemma_spaced_sum(t0 + t1 + t2 + t3 + t4 + t5, t6);
    lemma_spaced_sum(t0 + t1 + t2 + t3 + t4 + t5 + t6, t7);
    lemma_word(integer && attrs.ext == crate::arg_attrs::ArgExt::Sign, "signext"@);
    lemma_word(integer && attrs.ext == crate::arg_attrs::ArgExt::Zero, "zeroext"@);
    lemma_word(pointer && attrs.noalias, "noalias"@);
    lemma_word(pointer && attrs.readonly, "readonly"@);
    lemma_word(pointer && attrs.nonnull, "nonnull"@);
    lemma_word(attrs.noundef, "noundef"@);
    lemma_word(pointer && attrs.dereferenceable is Some, deref_token);
    lemma_word(pointer && attrs.align is Some, align_token);
    assert(spaced(tokens) =~= attribute_words(a, kind));
    if tokens.len() > 0 {
        lemma_spaced_joined(tokens);
    } else {
        assert(spaced(tokens) =~= seq![]);
    }
}

spec fn one_param(
    begun: Emission,
    ctx: Context,
    params: Seq<Value>,
    attrs: Seq<LlvmParamAttrsAttr>,
    i: nat,
) -> Emission {
    let ty = params[i as int].ty;
    let typed = begun.put_rendered(ctx.exported(ty));
    let attributed = if i < attrs.len() {
        match attrs[i as int].arg_attrs().fragment(crate::function::param_class(ctx, ty)) {
            Some(fragment) => typed.put(" "@).put(fragment),
            None => typed,
        }
    } else {
        typed
    };
    attributed.put(" "@).put(crate::naming::name_text(crate::naming::NameOf::Register(i)))
}

proof fn lemma_param(
    begun: Emission,
    ctx: Context,
    params: Seq<Value>,
    attrs: Seq<LlvmParamAttrsAttr>,
    i: nat,
)
    requires
        i < params.len(),
        one_param(begun, ctx, params, attrs, i).ok(),
    ensures
        one_param(begun, ctx, params, attrs, i).text == begun.text + param_text(
            ctx,
            params,
            attrs,
            i as int,
        ),
{
    let ty = params[i as int].ty;
    let typed = begun.put_rendered(ctx.exported(ty));
    let words = if i < attrs.len() {
        attribute_words(attrs[i as int], ctx.types@[ty as int].kind)
    } else {
        seq![]
    };
    if i < attrs.len() {
        lemma_attributes(attrs[i as int], ctx, ty);
    }
    let number = decimal(i);
    let done = one_param(begun, ctx, params, attrs, i).text;
    assert(typed.text == begun.text + spelled(ctx, ty));
    assert(done =~= typed.text + words + " "@ + ("%v"@ + number));
    assert(done =~= begun.text + (spelled(ctx, ty) + words + " "@ + "%v"@ + number));
}

proof fn lemma_params(
    e: Emission,
    base: Seq<char>,
    ctx: Context,
    params: Seq<Value>,
    attrs: Seq<LlvmParamAttrsAttr>,
    i: nat,
)
    requires
        i <= params.len(),
        e.text == base + with_commas(
            Seq::new(params.len(), |k: int| param_text(ctx, params, attrs, k)).take(i as int),
        ),
        put_params(e, ctx, params, attrs, i).ok(),
    ensures
        put_params(e, ctx, params, attrs, i).text == base + with_commas(
            Seq::new(params.len(), |k: int| param_text(ctx, params, attrs, k)),
        ),
    decreases params.len() - i,
{
    let all = Seq::new(params.len(), |k: int| param_text(ctx, params, attrs, k));
    if i < params.len() {
        let begun = if i > 0 {
            e.put(", "@)
        } else {
            e
        };
        let next = one_param(begun, ctx, params, attrs, i);
        if !next.ok() {
            assert(put_params(next, ctx, params, attrs, i + 1) == next);
        }
        lemma_param(begun, ctx, params, attrs, i);
        lemma_commas(all, i as int);
        assert(all.take(0) =~= seq![]);
        let shown = param_text(ctx, params, attrs, i as int);
        assert(all[i as int] == shown);
        if i > 0 {
            assert(next.text =~= base + (with_commas(all.take(i as int)) + ", "@ + shown));
        } else {
            assert(next.text =~= base + shown);
        }
        lemma_params(next, base, ctx, params, attrs, i + 1);
    } else {
        assert(all.take(i as int) =~= all);
    }
}

proof fn lemma_define(
    e: Emission,
    state: ModuleExportState,
    func: FuncIr,
    name: Seq<char>,
    result: usize,
    params: Seq<Value>,
)
    requires
        crate::function::put_define(e, state, func, name, result, params).ok(),
    ensures
        crate::function::put_define(e, state, func, name, result, params).text == e.text
            + signature_line(
            *state.ctx,
            func,
            name,
            result,
            params,
            state.emit_ptx_kernel_keyword,
        ),
{
    let ctx = *state.ctx;
    let begun = e.put("define "@);
    let convention = if crate::function::is_kernel(func) && state.emit_ptx_kernel_keyword {
        begun.put("ptx_kernel "@)
    } else {
        begun
    };
    let head = convention.put_rendered(ctx.exported(result)).put(" @"@).put(name).put("("@);
    let attrs = crate::function::flat_param_attrs(func.attributes);
    let listed = put_params(head, ctx, params, attrs, 0);
    assert(listed.ok());
    if !head.ok() {
        assert(listed == head);
    }
    let all = Seq::new(params.len(), |k: int| param_text(ctx, params, attrs, k));
    assert(all.take(0) =~= seq![]);
    assert(head.text =~= head.text + with_commas(all.take(0)));
    lemma_params(head, head.text, ctx, params, attrs, 0);
    let keyword = if crate::function::is_kernel(func) && state.emit_ptx_kernel_keyword {
        "ptx_kernel "@
    } else {
        seq![]
    };
    let inlining = if func.attributes.has_text("alwaysinline"@) {
        "alwaysinline "@
    } else {
        seq![]
    };
    let ending = match func.debug_scope {
        Some(scope) => "#0 !dbg !"@ + decimal(scope as nat) + " {\n"@,
        None => "#0 {\n"@,
    };
    let shown = spelled(ctx, result);
    let s1 = "define "@;
    let s2 = s1 + keyword;
    let s3 = s2 + shown;
    let s4 = s3 + " @"@;
    let s5 = s4 + name;
    let s6 = s5 + "("@;
    let s7 = s6 + with_commas(all);
    let s8 = s7 + ") "@;
    let s9 = s8 + inlining;
    let base = e.text;
    assert(convention.text == base + s1 + keyword) by {
        assert(base + s1 + Seq::<char>::empty() =~= base + s1);
    }
    lemma_assoc(base, s1, keyword);
    lemma_assoc(base, s2, shown);
    lemma_assoc(base, s3, " @"@);
    lemma_assoc(base, s4, name);
    lemma_assoc(base, s5, "("@);
    assert(head.text == base + s6);
    lemma_assoc(base, s6, with_commas(all));
    lemma_assoc(base, s7, ") "@);
    lemma_assoc(base, s8, inlining);
    lemma_assoc(base, s9, ending);
    let closed = listed.put(") "@);
    assert(closed.text == base + s8);
    let inlined = if func.attributes.has_text("alwaysinline"@) {
        closed.put("alwaysinline "@)
    } else {
        closed
    };
    assert(inlined.text == base + s9) by {
        assert(s8 + Seq::<char>::empty() =~= s8);
    }
    if let Some(scope) = func.debug_scope {
        lemma_assoc(inlined.text, "#0 !dbg !"@, decimal(scope as nat));
        lemma_assoc(inlined.text, "#0 !dbg !"@ + decimal(scope as nat), " {\n"@);
    }
}

/// Texts may be put together in any grouping.
pub proof fn lemma_assoc(a: Seq<char>, b: Seq<char>, c: Seq<char>)
    ensures
        a + b + c == a + (b + c),
{
    assert(a + b + c =~= a + (b + c));
}

proof fn lemma_declaration(
    e: Emission,
    ctx: Context,
    name: Seq<char>,
    result: usize,
    args: Seq<usize>,
)
    requires
        crate::function::put_declaration(e, ctx, name, result, args).ok(),
    ensures
        crate::function::put_declaration(e, ctx, name, result, args).text == e.text
            + declaration_line(ctx, name, result, args),
{
    let head = e.put("declare "@).put_rendered(ctx.exported(result)).put(" @"@).put(name).put("("@);
    let listed = put_types(head, ctx, args, 0);
    if !head.ok() {
        assert(listed == head);
    }
    let all = Seq::new(args.len(), |k: int| spelled(ctx, args[k]));
    assert(all.take(0) =~= seq![]);
    assert(head.text =~= head.text + with_commas(all.take(0)));
    lemma_types(head, head.text, ctx, args, 0);
    assert(crate::function::put_declaration(e, ctx, name, result, args).text =~= e.text
        + declaration_line(ctx, name, result, args));
}

// ---------------------------------------------------------------------------
// Laws
// ---------------------------------------------------------------------------

/// What the naming of the values of a function looks at.
pub open spec fn naming_env(state: ModuleExportState, func: FuncIr) -> NamingEnv {
    NamingEnv {
        ctx: *state.ctx,
        legacy: state.legacy(),
        globals: state.global_symbols@,
        functions: state@.function_types.insert(
            crate::naming::export_name(func.symbol_name@),
            func.ty,
        ),
    }
}

/// The names of the values of a function.
pub open spec fn names_in(state: ModuleExportState, func: FuncIr) -> Map<u64, Seq<char>> {
    crate::naming::function_names(naming_env(state, func), func.body->0@).names.texts()
}

/// A function with blocks is written as its signature, its blocks in their order and a
/// closing bracket. In each block but the entry, the PHI of an argument lists, in the order
/// of the blocks, every block that branches there, each with the value that this very block
/// passes for the argument and with its own label.
pub proof fn definitions_are_written_out(
    state: &mut ModuleExportState,
    func: FuncIr,
    output: &mut String,
    r: Result<(), String>,
)
    requires
        func.within(*old(state).ctx),
        func.body matches Some(blocks) && blocks.len() > 0,
        call_ensures(ModuleExportState::export_function, (state, &func, output), r),
        r is Ok,
    ensures
        ({
            let ctx = *old(state).ctx;
            let blocks = func.body->0@;
            let names = names_in(*old(state), func);
            &&& ctx.types@[func.ty as int].kind matches TypeKind::Function { result, args }
                && final(output)@ == old(output)@ + signature_line(
                ctx,
                func,
                crate::naming::export_name(func.symbol_name@),
                result,
                blocks[0].args@,
                old(state).emit_ptx_kernel_keyword,
            ) + in_turn(|b: int| block_text(ctx, names, blocks, b), blocks.len()) + "}\n\n"@
        }),
{
    let begun = *old(state);
    let done = *final(state);
    let body = func.body->0;
    assert(crate::function::function_out(final(output)@, r, done) == put_function(
        after(old(output)@),
        begun,
        func,
    ));
    assert(body@.len() == body.len());
    lemma_function(after(old(output)@), begun, func);
}

proof fn lemma_function(e: Emission, state: ModuleExportState, func: FuncIr)
    requires
        func.within(*state.ctx),
        func.body matches Some(blocks) && 0 < blocks@.len() <= u64::MAX,
        put_function(e, state, func).out.ok(),
    ensures
        ({
            let ctx = *state.ctx;
            let blocks = func.body->0@;
            let names = names_in(state, func);
            &&& ctx.types@[func.ty as int].kind matches TypeKind::Function { result, args }
                && put_function(e, state, func).out.text == e.text + signature_line(
                ctx,
                func,
                crate::naming::export_name(func.symbol_name@),
                result,
                blocks[0].args@,
                state.emit_ptx_kernel_keyword,
            ) + in_turn(|b: int| block_text(ctx, names, blocks, b), blocks.len()) + "}\n\n"@
        }),
{
    let ctx = *state.ctx;
    let blocks = func.body->0@;
    let name = crate::naming::export_name(func.symbol_name@);
    assert(ctx.kind(func.ty) is Function);
    if let TypeKind::Function { result, args } = ctx.kind(func.ty) {
        let env = naming_env(state, func);
        let defined = crate::function::put_define(e, state, func, name, result, blocks[0].args@);
        let naming = crate::naming::function_names(env, blocks);
        let written = put_body(defined, env, blocks);
        assert(put_function(e, state, func).out == written.put("\n"@));
        assert(defined.ok());
        lemma_define(e, state, func, name, result, blocks[0].args@);
        let names = naming.names.texts();
        let start = BlockOut { out: defined, names, next: naming.names.next };
        let part = |b: int| block_text(ctx, names, blocks, b);
        assert(defined.text =~= defined.text + in_turn(part, 0));
        assert forall|k: int| 0 <= k < blocks.len() implies all_printed(
            names,
            (#[trigger] blocks[k]).args@,
        ) by {
            crate::naming::every_value_has_a_name(env, blocks, k);
        }
        lemma_blocks(start, defined.text, ctx, blocks, 0);
        reveal_strlit("}\n");
        reveal_strlit("\n");
        reveal_strlit("}\n\n");
        assert("}\n"@ + "\n"@ =~= "}\n\n"@);
        assert(put_function(e, state, func).out.text =~= e.text + signature_line(
            ctx,
            func,
            name,
            result,
            blocks[0].args@,
            state.emit_ptx_kernel_keyword,
        ) + in_turn(part, blocks.len()) + "}\n\n"@);
    }
}

/// A function without a body is declared with the types of its parameters, and is marked
/// exactly where it is a convergent intrinsic.
pub proof fn declarations_are_written_out(
    state: &mut ModuleExportState,
    func: FuncIr,
    output: &mut String,
    r: Result<(), String>,
)
    requires
        func.body is None,
        call_ensures(ModuleExportState::export_function, (state, &func, output), r),
        r is Ok,
    ensures
        ({
            let ctx = *old(state).ctx;
            &&& ctx.types@[func.ty as int].kind matches TypeKind::Function { result, args }
                && final(output)@ == old(output)@ + declaration_line(
                ctx,
                crate::naming::export_name(func.symbol_name@),
                result,
                args@,
            ) + (if func.convergent_intrinsic {
                " #0\n"@
            } else {
                "\n"@
            })
        }),
{
    let begun = *old(state);
    let ctx = *begun.ctx;
    let e = after(old(output)@);
    let name = crate::naming::export_name(func.symbol_name@);
    assert(crate::function::function_out(final(output)@, r, *final(state)) == put_function(
        e,
        begun,
        func,
    ));
    if let TypeKind::Function { result, args } = ctx.kind(func.ty) {
        lemma_declaration(e, ctx, name, result, args@);
    }
}

/// A block is labelled by its name.
pub proof fn blocks_are_labelled_by_their_name(b: usize, r: String)
    requires
        call_ensures(block_label, (b,), r),
    ensures
        r@ == block_name(b as int),
{
}

/// A function whose body has no block is declared, followed by an empty line.
pub proof fn empty_bodies_are_declared(
    state: &mut ModuleExportState,
    func: FuncIr,
    output: &mut String,
    r: Result<(), String>,
)
    requires
        func.body matches Some(blocks) && blocks@.len() == 0,
        call_ensures(ModuleExportState::export_function, (state, &func, output), r),
        r is Ok,
    ensures
        ({
            let ctx = *old(state).ctx;
            &&& ctx.types@[func.ty as int].kind matches TypeKind::Function { result, args }
                && final(output)@ == old(output)@ + declaration_line(
                ctx,
                crate::naming::export_name(func.symbol_name@),
                result,
                args@,
            ) + "\n"@ + "\n"@
        }),
{
    let begun = *old(state);
    let ctx = *begun.ctx;
    let e = after(old(output)@);
    let name = crate::naming::export_name(func.symbol_name@);
    assert(crate::function::function_out(final(output)@, r, *final(state)) == put_function(
        e,
        begun,
        func,
    ));
    if let TypeKind::Function { result, args } = ctx.kind(func.ty) {
        lemma_declaration(e, ctx, name, result, args@);
    }
}

/// What has no function type is not exported, and nothing is written for it.
pub proof fn only_functions_are_exported(
    state: &mut ModuleExportState,
    func: FuncIr,
    output: &mut String,
    r: Result<(), String>,
)
    requires
        !(old(state).ctx.types@[func.ty as int].kind is Function),
        call_ensures(ModuleExportState::export_function, (state, &func, output), r),
    ensures
        r is Err,
        final(output)@ == old(output)@,
{
    assert(crate::function::function_out(final(output)@, r, *final(state)) == put_function(
        after(old(output)@),
        *old(state),
        func,
    ));
}

}
