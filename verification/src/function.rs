//! Function and basic-block emission.
//!
//! A function is printed after all its values are named and all its edges are
//! checked, so the text is the same from run to run and every PHI can refer to
//! values of later blocks.

use crate::arg_attrs::no_param_attrs;
use crate::arg_attrs::LlvmParamAttrsAttr;
use crate::arg_attrs::LlvmParamClass;
use crate::edges::build_predecessors;
use crate::edges::edges_failure;
use crate::edges::holds_predecessors;
use crate::edges::incoming_views;
use crate::edges::label_blocks;
use crate::edges::labels;
use crate::edges::predecessors;
use crate::edges::Incoming;
use crate::edges::IncomingView;
use crate::edges::PredecessorMap;
use crate::emission::after;
use crate::emission::outcome;
use crate::emission::Emission;
use crate::export_state::same_setup;
use crate::export_state::BoundsView;
use crate::export_state::ClusterView;
use crate::export_state::ExportView;
use crate::export_state::KernelClusterConfig;
use crate::export_state::KernelLaunchBounds;
use crate::export_state::ModuleExportState;
use crate::fx_map::fx_get;
use crate::ir::blocks_within;
use crate::ir::value_count;
use crate::ir::AttrObj;
use crate::ir::AttributeDict;
use crate::ir::BlockIr;
use crate::ir::Context;
use crate::ir::FuncIr;
use crate::ir::OpIr;
use crate::ir::Piece;
use crate::ir::TypeKind;
use crate::ir::Value;
use crate::naming::define_all;
use crate::naming::define_value;
use crate::naming::every_value_has_a_name;
use crate::naming::export_name;
use crate::naming::export_value;
use crate::naming::exported_symbol;
use crate::naming::function_names;
use crate::naming::has_device_prefix;
use crate::naming::name_text;
use crate::naming::name_values;
use crate::naming::no_names;
use crate::naming::prints;
use crate::naming::strings_of;
use crate::naming::value_text;
use crate::naming::NameOf;
use crate::naming::NamingEnv;
use crate::text::decimal;
use crate::text::has_prefix;
use crate::text::push_decimal;
use rustc_hash::FxHashMap;
use vstd::prelude::*;

verus! {

broadcast use vstd::string::group_string_axioms;

// ---------------------------------------------------------------------------
// Blocks
// ---------------------------------------------------------------------------

/// What the emission of a block carries along.
pub struct BlockOut {
    /// The text written so far.
    pub out: Emission,
    /// The printed names.
    pub names: Map<u64, Seq<char>>,
    /// The next free register.
    pub next: nat,
}

/// Writes the values that the predecessors from the `j`-th on pass for the
/// argument at `index`.
pub open spec fn put_incoming(
    e: Emission,
    names: Map<u64, Seq<char>>,
    labels: Map<u64, Seq<char>>,
    label: Seq<char>,
    index: nat,
    preds: Seq<IncomingView>,
    j: nat,
) -> Emission
    decreases preds.len() - j,
{
    if !e.ok() || j >= preds.len() {
        e
    } else {
        let pred = preds[j as int];
        let source = labels[pred.source as u64];
        let e = if j > 0 {
            e.put(", "@)
        } else {
            e
        };
        put_incoming(
            if index < pred.args.len() {
                e.put("[ "@).put(value_text(names, pred.args[index as int])).put(", %"@).put(
                    source,
                ).put(" ]"@)
            } else {
                e.fail(
                    "predecessor `%"@ + source + "` does not supply block argument "@ + decimal(
                        index,
                    ) + " for `%"@ + label + "`"@,
                )
            },
            names,
            labels,
            label,
            index,
            preds,
            j + 1,
        )
    }
}

/// Writes the PHI of the argument at `index`. An argument without a name takes the
/// next register.
pub open spec fn put_phi(
    x: BlockOut,
    ctx: Context,
    labels: Map<u64, Seq<char>>,
    label: Seq<char>,
    arg: Value,
    index: nat,
    preds: Seq<IncomingView>,
) -> BlockOut {
    let fresh = name_text(NameOf::Register(x.next));
    let names = if x.names.dom().contains(arg.id) {
        x.names
    } else {
        x.names.insert(arg.id, fresh)
    };
    let next = if x.names.dom().contains(arg.id) {
        x.next
    } else {
        x.next + 1
    };
    let head = x.out.put("  "@).put(names[arg.id]).put(" = phi "@).put_rendered(
        ctx.exported(arg.ty),
    ).put(" "@);
    BlockOut {
        out: put_incoming(head, names, labels, label, index, preds, 0).put("\n"@),
        names,
        next,
    }
}

/// Writes the PHIs of the arguments from the `i`-th on.
pub open spec fn put_phis(
    x: BlockOut,
    ctx: Context,
    labels: Map<u64, Seq<char>>,
    label: Seq<char>,
    args: Seq<Value>,
    preds: Seq<IncomingView>,
    i: nat,
) -> BlockOut
    decreases args.len() - i,
{
    if !x.out.ok() || i >= args.len() {
        x
    } else {
        put_phis(
            put_phi(x, ctx, labels, label, args[i as int], i, preds),
            ctx,
            labels,
            label,
            args,
            preds,
            i + 1,
        )
    }
}

/// Writes one piece of a line.
pub open spec fn put_piece(
    e: Emission,
    ctx: Context,
    names: Map<u64, Seq<char>>,
    labels: Map<u64, Seq<char>>,
    piece: Piece,
) -> Emission {
    match piece {
        Piece::Text(s) => e.put(s@),
        Piece::Value(v) => e.put(value_text(names, v)),
        Piece::Label(b) => e.put(labels[b as u64]),
        Piece::Type(ty) => e.put_rendered(ctx.exported(ty)),
    }
}

/// Writes the pieces of a line from the `i`-th on.
pub open spec fn put_line(
    e: Emission,
    ctx: Context,
    names: Map<u64, Seq<char>>,
    labels: Map<u64, Seq<char>>,
    line: Seq<Piece>,
    i: nat,
) -> Emission
    decreases line.len() - i,
{
    if !e.ok() || i >= line.len() {
        e
    } else {
        put_line(
            put_piece(e, ctx, names, labels, line[i as int]),
            ctx,
            names,
            labels,
            line,
            i + 1,
        )
    }
}

/// Writes the operations from the `i`-th on.
pub open spec fn put_ops(
    e: Emission,
    ctx: Context,
    names: Map<u64, Seq<char>>,
    labels: Map<u64, Seq<char>>,
    ops: Seq<OpIr>,
    i: nat,
) -> Emission
    decreases ops.len() - i,
{
    if !e.ok() || i >= ops.len() {
        e
    } else {
        put_ops(
            put_line(e, ctx, names, labels, ops[i as int].line@, 0),
            ctx,
            names,
            labels,
            ops,
            i + 1,
        )
    }
}

/// Writes a block: its label, the PHIs of its arguments unless it is the entry,
/// and its operations.
pub open spec fn put_block(
    x: BlockOut,
    ctx: Context,
    labels: Map<u64, Seq<char>>,
    block: BlockIr,
    b: nat,
    preds: Option<Seq<IncomingView>>,
    is_entry: bool,
) -> BlockOut {
    let label = labels[b as u64];
    let begun = BlockOut { out: x.out.put(label).put(":\n"@), ..x };
    let headed = if block.args@.len() > 0 && !is_entry {
        match preds {
            Some(preds) => put_phis(begun, ctx, labels, label, block.args@, preds, 0),
            None => BlockOut {
                out: begun.out.fail("Block with args has no predecessors"@),
                ..begun
            },
        }
    } else {
        begun
    };
    BlockOut {
        out: put_ops(headed.out, ctx, headed.names, labels, block.ops@, 0),
        ..headed
    }
}

/// The predecessors that a map gives to a block, where it gives any.
pub open spec fn listed_predecessors(
    m: Map<u64, Vec<Incoming>>,
    b: u64,
) -> Option<Seq<IncomingView>> {
    if m.dom().contains(b) {
        Some(incoming_views(m[b]@))
    } else {
        None
    }
}

/// Every predecessor in `m` is one of `n` blocks.
pub open spec fn sources_within(m: Map<u64, Vec<Incoming>>, n: nat) -> bool {
    forall|b: u64, j: int|
        m.dom().contains(b) && 0 <= j < m[b]@.len() ==> (#[trigger] m[b]@[j]).source < n
}

/// What the emission of a block has left behind.
pub open spec fn block_out(
    text: Seq<char>,
    result: Result<(), String>,
    names: Map<u64, String>,
    next: u64,
) -> BlockOut {
    BlockOut { out: outcome(text, result), names: strings_of(names), next: next as nat }
}

/// Every value of `values` has a printed name.
pub open spec fn all_printed(names: Map<u64, Seq<char>>, values: Seq<Value>) -> bool {
    forall|i: int| 0 <= i < values.len() ==> names.dom().contains((#[trigger] values[i]).id)
}

impl<'a> ModuleExportState<'a> {
    fn export_line(
        &self,
        line: &Vec<Piece>,
        value_names: &FxHashMap<u64, String>,
        block_labels: &FxHashMap<u64, String>,
        output: &mut String,
        Ghost(blocks): Ghost<nat>,
    ) -> (r: Result<(), String>)
        requires
            forall|i: int|
                0 <= i < line@.len() ==> (#[trigger] line@[i]).within(*self.ctx, blocks),
            forall|b: u64| (b as nat) < blocks ==> #[trigger] block_labels@.dom().contains(b),
        ensures
            outcome(final(output)@, r) == put_line(
                after(old(output)@),
                *self.ctx,
                strings_of(value_names@),
                strings_of(block_labels@),
                line@,
                0,
            ),
    {
        let ghost names = strings_of(value_names@);
        let ghost texts = strings_of(block_labels@);
        let ghost begun = after(output@);
        let mut i: usize = 0;
        while i < line.len()
            invariant
                i <= line.len(),
                begun == after(old(output)@),
                names == strings_of(value_names@),
                texts == strings_of(block_labels@),
                forall|i: int|
                    0 <= i < line@.len() ==> (#[trigger] line@[i]).within(*self.ctx, blocks),
                forall|b: u64| (b as nat) < blocks ==> #[trigger] block_labels@.dom().contains(b),
                put_line(begun, *self.ctx, names, texts, line@, 0) == put_line(
                    after(output@),
                    *self.ctx,
                    names,
                    texts,
                    line@,
                    i as nat,
                ),
            decreases line.len() - i,
        {
            assert(line@[i as int].within(*self.ctx, blocks));
            match &line[i] {
                Piece::Text(s) => output.append(s.as_str()),
                Piece::Value(v) => export_value(*v, value_names, output),
                Piece::Label(b) => {
                    let label = fx_get(block_labels, *b as u64).unwrap();
                    output.append(label.as_str());
                },
                Piece::Type(ty) => {
                    if let Err(message) = self.export_type(*ty, output) {
                        let failed: Result<(), String> = Err(message);
                        assert(put_line(
                            outcome(output@, failed),
                            *self.ctx,
                            names,
                            texts,
                            line@,
                            (i + 1) as nat,
                        ) == outcome(output@, failed));
                        return failed;
                    }
                },
            }
            i += 1;
        }
        Ok(())
    }

    fn export_incoming(
        &self,
        index: usize,
        label: &str,
        preds: &Vec<Incoming>,
        value_names: &FxHashMap<u64, String>,
        block_labels: &FxHashMap<u64, String>,
        output: &mut String,
        Ghost(blocks): Ghost<nat>,
    ) -> (r: Result<(), String>)
        requires
            forall|j: int| 0 <= j < preds@.len() ==> (#[trigger] preds@[j]).source < blocks,
            forall|b: u64| (b as nat) < blocks ==> #[trigger] block_labels@.dom().contains(b),
        ensures
            outcome(final(output)@, r) == put_incoming(
                after(old(output)@),
                strings_of(value_names@),
                strings_of(block_labels@),
                label@,
                index as nat,
                incoming_views(preds@),
                0,
            ),
    {
        let ghost names = strings_of(value_names@);
        let ghost texts = strings_of(block_labels@);
        let ghost views = incoming_views(preds@);
        let ghost begun = after(output@);
        let mut j: usize = 0;
        while j < preds.len()
            invariant
                j <= preds.len(),
                begun == after(old(output)@),
                names == strings_of(value_names@),
                texts == strings_of(block_labels@),
                views == incoming_views(preds@),
                forall|j: int| 0 <= j < preds@.len() ==> (#[trigger] preds@[j]).source < blocks,
                forall|b: u64| (b as nat) < blocks ==> #[trigger] block_labels@.dom().contains(b),
                put_incoming(begun, names, texts, label@, index as nat, views, 0) == put_incoming(
                    after(output@),
                    names,
                    texts,
                    label@,
                    index as nat,
                    views,
                    j as nat,
                ),
            decreases preds.len() - j,
        {
            let pred = &preds[j];
            assert(views[j as int] == pred@);
            if j > 0 {
                output.append(", ");
            }
            let source = fx_get(block_labels, pred.source as u64).unwrap();
            if index < pred.args.len() {
                output.append("[ ");
                export_value(pred.args[index], value_names, output);
                output.append(", %");
                output.append(source.as_str());
                output.append(" ]");
            } else {
                let mut message = "predecessor `%".to_owned();
                message.append(source.as_str());
                message.append("` does not supply block argument ");
                push_decimal(&mut message, index as u64);
                message.append(" for `%");
                message.append(label);
                message.append("`");
                let failed: Result<(), String> = Err(message);
                assert(put_incoming(
                    outcome(output@, failed),
                    names,
                    texts,
                    label@,
                    index as nat,
                    views,
                    (j + 1) as nat,
                ) == outcome(output@, failed));
                return failed;
            }
            j += 1;
        }
        Ok(())
    }

    /// Writes a block. Its arguments become PHIs unless it is the entry block,
    /// whose arguments are the parameters of the function.
    pub fn export_block(
        &self,
        blocks: &Vec<BlockIr>,
        block: usize,
        value_names: &mut FxHashMap<u64, String>,
        next_value_id: &mut u64,
        block_labels: &FxHashMap<u64, String>,
        pred_map: &PredecessorMap,
        is_entry: bool,
        output: &mut String,
    ) -> (r: Result<(), String>)
        requires
            blocks_within(*self.ctx, blocks@),
            block < blocks@.len(),
            forall|b: u64|
                (b as nat) < blocks@.len() ==> #[trigger] block_labels@.dom().contains(b),
            sources_within(pred_map@, blocks@.len()),
            all_printed(strings_of(old(value_names)@), blocks@[block as int].args@)
                || *old(next_value_id) + blocks@[block as int].args@.len() <= u64::MAX,
        ensures
            block_out(final(output)@, r, final(value_names)@, *final(next_value_id)) == put_block(
                BlockOut {
                    out: after(old(output)@),
                    names: strings_of(old(value_names)@),
                    next: *old(next_value_id) as nat,
                },
                *self.ctx,
                strings_of(block_labels@),
                blocks@[block as int],
                block as nat,
                listed_predecessors(pred_map@, block as u64),
                is_entry,
            ),
    {
        let ghost ctx = *self.ctx;
        let ghost texts = strings_of(block_labels@);
        let ghost this = blocks@[block as int];
        assert(this.within(ctx, blocks@.len()));
        let label = fx_get(block_labels, block as u64).unwrap();
        let ghost start = BlockOut {
            out: after(output@),
            names: strings_of(value_names@),
            next: *next_value_id as nat,
        };
        output.append(label.as_str());
        output.append(":\n");
        let args = &blocks[block].args;
        if args.len() > 0 && !is_entry {
            let preds = match fx_get(pred_map, block as u64) {
                Some(preds) => preds,
                None => {
                    let failed: Result<(), String> = Err(
                        "Block with args has no predecessors".to_owned(),
                    );
                    return failed;
                },
            };
            let ghost views = incoming_views(preds@);
            assert forall|j: int| 0 <= j < preds@.len() implies (#[trigger] preds@[j]).source
                < blocks@.len() by {
                assert(pred_map@[block as u64]@[j] == preds@[j]);
            }
            let ghost begun = BlockOut {
                out: after(output@),
                names: strings_of(value_names@),
                next: *next_value_id as nat,
            };
            let mut i: usize = 0;
            while i < args.len()
                invariant
                    i <= args.len(),
                    *self.ctx == ctx,
                    block < blocks@.len(),
                    this == blocks@[block as int],
                    args@ == this.args@,
                    this.within(ctx, blocks@.len()),
                    texts == strings_of(block_labels@),
                    label@ == texts[block as u64],
                    views == incoming_views(preds@),
                    args.len() > 0 && !is_entry,
                    listed_predecessors(pred_map@, block as u64) == Some(views),
                    start == (BlockOut {
                        out: after(old(output)@),
                        names: strings_of(old(value_names)@),
                        next: *old(next_value_id) as nat,
                    }),
                    begun == (BlockOut { out: start.out.put(label@).put(":\n"@), ..start }),
                    forall|j: int|
                        0 <= j < preds@.len() ==> (#[trigger] preds@[j]).source < blocks@.len(),
                    forall|b: u64|
                        (b as nat) < blocks@.len() ==> #[trigger] block_labels@.dom().contains(b),
                    all_printed(strings_of(value_names@), args@) || (*next_value_id <= *old(
                        next_value_id,
                    ) + i && *old(next_value_id) + args@.len() <= u64::MAX),
                    put_phis(begun, ctx, texts, label@, args@, views, 0) == put_phis(
                        BlockOut {
                            out: after(output@),
                            names: strings_of(value_names@),
                            next: *next_value_id as nat,
                        },
                        ctx,
                        texts,
                        label@,
                        args@,
                        views,
                        i as nat,
                    ),
                decreases args.len() - i,
            {
                let ghost before = BlockOut {
                    out: after(output@),
                    names: strings_of(value_names@),
                    next: *next_value_id as nat,
                };
                let arg: Value = args[i];
                let known: Option<String> = match fx_get(value_names, arg.id) {
                    Some(name) => Some(name.clone()),
                    None => None,
                };
                let arg_name: String = match known {
                    Some(name) => name,
                    None => define_value(value_names, next_value_id, arg.id),
                };
                let ghost named = strings_of(value_names@);
                assert(named[arg.id] == arg_name@);
                output.append("  ");
                output.append(arg_name.as_str());
                output.append(" = phi ");
                let ghost expected = put_phi(before, ctx, texts, label@, arg, i as nat, views);
                if let Err(message) = self.export_type(arg.ty, output) {
                    let failed: Result<(), String> = Err(message);
                    assert(block_out(output@, failed, value_names@, *next_value_id) == expected);
                    assert(put_phis(expected, ctx, texts, label@, args@, views, (i + 1) as nat)
                        == expected);
                    return failed;
                }
                output.append(" ");
                if let Err(message) = self.export_incoming(
                    i,
                    label.as_str(),
                    preds,
                    value_names,
                    block_labels,
                    output,
                    Ghost(blocks@.len()),
                ) {
                    let failed: Result<(), String> = Err(message);
                    assert(block_out(output@, failed, value_names@, *next_value_id) == expected);
                    assert(put_phis(expected, ctx, texts, label@, args@, views, (i + 1) as nat)
                        == expected);
                    return failed;
                }
                output.append("\n");
                assert(BlockOut {
                    out: after(output@),
                    names: strings_of(value_names@),
                    next: *next_value_id as nat,
                } == expected);
                i += 1;
            }
        }
        let ghost headed = after(output@);
        let ghost names = strings_of(value_names@);
        let ops = &blocks[block].ops;
        let mut i: usize = 0;
        while i < ops.len()
            invariant
                i <= ops.len(),
                *self.ctx == ctx,
                block < blocks@.len(),
                this == blocks@[block as int],
                ops@ == this.ops@,
                this.within(ctx, blocks@.len()),
                texts == strings_of(block_labels@),
                names == strings_of(value_names@),
                forall|b: u64|
                    (b as nat) < blocks@.len() ==> #[trigger] block_labels@.dom().contains(b),
                put_block(
                    BlockOut {
                        out: after(old(output)@),
                        names: strings_of(old(value_names)@),
                        next: *old(next_value_id) as nat,
                    },
                    ctx,
                    texts,
                    this,
                    block as nat,
                    listed_predecessors(pred_map@, block as u64),
                    is_entry,
                ) == (BlockOut {
                    out: put_ops(headed, ctx, names, texts, ops@, 0),
                    names,
                    next: *next_value_id as nat,
                }),
                put_ops(headed, ctx, names, texts, ops@, 0) == put_ops(
                    after(output@),
                    ctx,
                    names,
                    texts,
                    ops@,
                    i as nat,
                ),
            decreases ops.len() - i,
        {
            assert(ops@[i as int].within(ctx, blocks@.len()));
            if let Err(message) = self.export_line(
                &ops[i].line,
                value_names,
                block_labels,
                output,
                Ghost(blocks@.len()),
            ) {
                let failed: Result<(), String> = Err(message);
                assert(put_ops(
                    outcome(output@, failed),
                    ctx,
                    names,
                    texts,
                    ops@,
                    (i + 1) as nat,
                ) == outcome(output@, failed));
                return failed;
            }
            i += 1;
        }
        Ok(())
    }
}

// ---------------------------------------------------------------------------
// Signatures
// ---------------------------------------------------------------------------

/// The attributes of the parameters that a function carries. An element that is
/// no carrier counts as one without attributes.
pub open spec fn flat_param_attrs(attributes: AttributeDict) -> Seq<LlvmParamAttrsAttr> {
    match attributes.lookup("llvm_arg_attrs"@) {
        Some(AttrObj::Params(list)) => list@.map_values(
            |c: Option<LlvmParamAttrsAttr>|
                match c {
                    Some(carrier) => carrier,
                    None => no_param_attrs(),
                },
        ),
        _ => seq![],
    }
}

/// The attributes of the parameters that a function carries.
pub fn read_flat_param_attrs(attributes: &AttributeDict) -> (r: Vec<LlvmParamAttrsAttr>)
    ensures
        r@ == flat_param_attrs(*attributes),
{
    let mut r: Vec<LlvmParamAttrsAttr> = Vec::new();
    match attributes.get(crate::arg_attrs::ARG_ATTRS_KEY) {
        Some(AttrObj::Params(list)) => {
            let mut i: usize = 0;
            while i < list.len()
                invariant
                    i <= list.len(),
                    attributes.lookup("llvm_arg_attrs"@) == Some(AttrObj::Params(*list)),
                    r@ == flat_param_attrs(*attributes).take(i as int),
                decreases list.len() - i,
            {
                match &list[i] {
                    Some(carrier) => r.push(*carrier),
                    None => r.push(LlvmParamAttrsAttr::default()),
                }
                i += 1;
                assert(r@ =~= flat_param_attrs(*attributes).take(i as int));
            }
            assert(r@ =~= flat_param_attrs(*attributes));
        },
        _ => {
            assert(r@ =~= flat_param_attrs(*attributes));
        },
    }
    r
}

/// The class of parameter that a type makes.
pub open spec fn param_class(ctx: Context, ty: usize) -> LlvmParamClass {
    match ctx.kind(ty) {
        TypeKind::Pointer { address_space } => LlvmParamClass::Pointer,
        TypeKind::Integer { width } => LlvmParamClass::Integer,
        _ => LlvmParamClass::Other,
    }
}

/// The class of parameter that a type makes.
pub fn llvm_param_class(ctx: &Context, ty: usize) -> (r: LlvmParamClass)
    requires
        ctx.has(ty),
    ensures
        r == param_class(*ctx, ty),
{
    match &ctx.types[ty].kind {
        TypeKind::Pointer { .. } => LlvmParamClass::Pointer,
        TypeKind::Integer { .. } => LlvmParamClass::Integer,
        _ => LlvmParamClass::Other,
    }
}

/// Writes the parameter types from the `i`-th on.
pub open spec fn put_types(e: Emission, ctx: Context, types: Seq<usize>, i: nat) -> Emission
    decreases types.len() - i,
{
    if !e.ok() || i >= types.len() {
        e
    } else {
        let e = if i > 0 {
            e.put(", "@)
        } else {
            e
        };
        put_types(e.put_rendered(ctx.exported(types[i as int])), ctx, types, i + 1)
    }
}

/// Writes the parameters from the `i`-th on: type, attributes and register.
pub open spec fn put_params(
    e: Emission,
    ctx: Context,
    params: Seq<Value>,
    attrs: Seq<LlvmParamAttrsAttr>,
    i: nat,
) -> Emission
    decreases params.len() - i,
{
    if !e.ok() || i >= params.len() {
        e
    } else {
        let ty = params[i as int].ty;
        let typed = (if i > 0 {
            e.put(", "@)
        } else {
            e
        }).put_rendered(ctx.exported(ty));
        let attributed = if i < attrs.len() {
            match attrs[i as int].arg_attrs().fragment(param_class(ctx, ty)) {
                Some(fragment) => typed.put(" "@).put(fragment),
                None => typed,
            }
        } else {
            typed
        };
        put_params(
            attributed.put(" "@).put(name_text(NameOf::Register(i))),
            ctx,
            params,
            attrs,
            i + 1,
        )
    }
}

/// Writes the part of a declaration up to the closing bracket.
pub open spec fn put_declaration(
    e: Emission,
    ctx: Context,
    name: Seq<char>,
    result: usize,
    args: Seq<usize>,
) -> Emission {
    put_types(
        e.put("declare "@).put_rendered(ctx.exported(result)).put(" @"@).put(name).put("("@),
        ctx,
        args,
        0,
    ).put(")"@)
}

/// Writes the first line of a definition.
pub open spec fn put_define(
    e: Emission,
    state: ModuleExportState,
    func: FuncIr,
    name: Seq<char>,
    result: usize,
    params: Seq<Value>,
) -> Emission {
    let ctx = *state.ctx;
    let begun = e.put("define "@);
    let convention = if is_kernel(func) && state.emit_ptx_kernel_keyword {
        begun.put("ptx_kernel "@)
    } else {
        begun
    };
    let closed = put_params(
        convention.put_rendered(ctx.exported(result)).put(" @"@).put(name).put("("@),
        ctx,
        params,
        flat_param_attrs(func.attributes),
        0,
    ).put(") "@);
    let inlined = if func.attributes.has_text("alwaysinline"@) {
        closed.put("alwaysinline "@)
    } else {
        closed
    };
    match func.debug_scope {
        Some(scope) => inlined.put("#0 !dbg !"@).put(decimal(scope as nat)).put(" {\n"@),
        None => inlined.put("#0 {\n"@),
    }
}

// ---------------------------------------------------------------------------
// Functions
// ---------------------------------------------------------------------------

/// The function is a kernel.
pub open spec fn is_kernel(func: FuncIr) -> bool {
    func.attributes.has_text("gpu_kernel"@)
}

/// The number that a kernel attribute holds.
pub open spec fn attr_number(func: FuncIr, key: Seq<char>) -> Option<u32> {
    match func.attributes.integer(key) {
        Some(n) => Some(crate::apint::low_bits(n.unsigned() as int, 32) as u32),
        None => None,
    }
}

/// The cluster dimensions of a kernel that states all three.
pub open spec fn cluster_of(func: FuncIr, name: Seq<char>) -> Seq<ClusterView> {
    match (
        attr_number(func, "cluster_dim_x"@),
        attr_number(func, "cluster_dim_y"@),
        attr_number(func, "cluster_dim_z"@),
    ) {
        (Some(dim_x), Some(dim_y), Some(dim_z)) => if is_kernel(func) {
            seq![ClusterView { name, dim_x, dim_y, dim_z }]
        } else {
            seq![]
        },
        _ => seq![],
    }
}

/// The launch bounds of a kernel that states them. A lower bound of zero blocks is
/// none.
pub open spec fn bounds_of(func: FuncIr, name: Seq<char>) -> Seq<BoundsView> {
    match attr_number(func, "maxntid"@) {
        Some(max_threads) => if is_kernel(func) {
            let min = attr_number(func, "minctasm"@);
            seq![
                BoundsView {
                    name,
                    max_threads,
                    min_blocks: if min == Some(0u32) {
                        None
                    } else {
                        min
                    },
                },
            ]
        } else {
            seq![]
        },
        None => seq![],
    }
}

/// The state once the kernel attributes of a function are recorded.
pub open spec fn with_kernel_attributes(
    view: ExportView,
    func: FuncIr,
    name: Seq<char>,
) -> ExportView {
    ExportView {
        cluster_kernels: view.cluster_kernels + cluster_of(func, name),
        launch_bounds_kernels: view.launch_bounds_kernels + bounds_of(func, name),
        ..view
    }
}

/// The function is a standalone device function with a body.
pub open spec fn is_device_definition(func: FuncIr) -> bool {
    func.body is Some && !is_kernel(func) && has_prefix(
        func.symbol_name@,
        "cuda_oxide_device_"@,
    )
}

/// The state once a function is recorded.
pub open spec fn with_function(
    state: ModuleExportState,
    func: FuncIr,
    name: Seq<char>,
) -> ExportView {
    let view = with_kernel_attributes(state@, func, name);
    ExportView {
        function_types: view.function_types.insert(name, func.ty),
        all_kernels: if is_kernel(func) && state.track_all_kernels {
            view.all_kernels.push(name)
        } else {
            view.all_kernels
        },
        device_functions: if is_device_definition(func) {
            view.device_functions.push(name)
        } else {
            view.device_functions
        },
        ..view
    }
}

/// Writes the blocks from the `b`-th on.
pub open spec fn put_blocks(x: BlockOut, ctx: Context, blocks: Seq<BlockIr>, b: nat) -> BlockOut
    decreases blocks.len() - b,
{
    if !x.out.ok() || b >= blocks.len() {
        x
    } else {
        put_blocks(
            put_block(
                x,
                ctx,
                labels(blocks.len()),
                blocks[b as int],
                b,
                predecessors_of(blocks, b),
                b == 0,
            ),
            ctx,
            blocks,
            b + 1,
        )
    }
}

/// The predecessors of a block, where it has any.
pub open spec fn predecessors_of(blocks: Seq<BlockIr>, b: nat) -> Option<Seq<IncomingView>> {
    let preds = predecessors(blocks, b, blocks.len());
    if preds.len() == 0 {
        None
    } else {
        Some(preds)
    }
}

/// Writes the body of a function after its first line.
pub open spec fn put_body(e: Emission, env: NamingEnv, blocks: Seq<BlockIr>) -> Emission {
    let naming = function_names(env, blocks);
    if !e.ok() {
        e
    } else if naming.failure is Some {
        e.fail(naming.failure->0)
    } else if edges_failure(env.ctx, blocks, 0) is Some {
        e.fail(edges_failure(env.ctx, blocks, 0)->0)
    } else {
        put_blocks(
            BlockOut { out: e, names: naming.names.texts(), next: naming.names.next },
            env.ctx,
            blocks,
            0,
        ).out.put("}\n"@)
    }
}

/// What exporting a function leaves behind.
pub struct FunctionOut {
    /// The state of the module.
    pub view: ExportView,
    /// The text.
    pub out: Emission,
}

/// Everything that [`ModuleExportState::export_function`] does.
pub open spec fn put_function(e: Emission, state: ModuleExportState, func: FuncIr) -> FunctionOut {
    let name = export_name(func.symbol_name@);
    let ctx = *state.ctx;
    match ctx.kind(func.ty) {
        TypeKind::Function { result, args } => {
            let view = with_function(state, func, name);
            match func.body {
                None => {
                    let declared = put_declaration(e, ctx, name, result, args@);
                    FunctionOut {
                        view: ExportView {
                            convergent_used: view.convergent_used || (declared.ok()
                                && func.convergent_intrinsic),
                            ..view
                        },
                        out: declared.put(
                            if func.convergent_intrinsic {
                                " #0\n"@
                            } else {
                                "\n"@
                            },
                        ),
                    }
                },
                Some(blocks) => if blocks@.len() == 0 {
                    FunctionOut {
                        view,
                        out: put_declaration(e, ctx, name, result, args@).put("\n"@).put("\n"@),
                    }
                } else {
                    let defined = put_define(e, state, func, name, result, blocks@[0].args@);
                    let env = NamingEnv {
                        ctx,
                        legacy: state.legacy(),
                        globals: state.global_symbols@,
                        functions: view.function_types,
                    };
                    FunctionOut {
                        view: ExportView {
                            convergent_used: view.convergent_used || defined.ok(),
                            ..view
                        },
                        out: put_body(defined, env, blocks@).put("\n"@),
                    }
                },
            }
        },
        _ => FunctionOut {
            view: with_kernel_attributes(state@, func, name),
            out: e.fail("Not a function type"@),
        },
    }
}

/// What an export of a function has left behind.
pub open spec fn function_out(
    text: Seq<char>,
    result: Result<(), String>,
    state: ModuleExportState,
) -> FunctionOut {
    FunctionOut { view: state@, out: outcome(text, result) }
}

fn attribute_number(func: &FuncIr, key: &str) -> (r: Option<u32>)
    requires
        func.attributes.wf(),
    ensures
        r == attr_number(*func, key@),
{
    match func.attributes.get_integer(key) {
        Some(n) => Some(n.to_u32()),
        None => None,
    }
}

impl<'a> ModuleExportState<'a> {
    fn export_types(&self, types: &Vec<usize>, output: &mut String) -> (r: Result<(), String>)
        requires
            forall|i: int| 0 <= i < types@.len() ==> self.ctx.has(#[trigger] types@[i]),
        ensures
            outcome(final(output)@, r) == put_types(after(old(output)@), *self.ctx, types@, 0),
    {
        let ghost begun = after(output@);
        let mut i: usize = 0;
        while i < types.len()
            invariant
                i <= types.len(),
                begun == after(old(output)@),
                forall|i: int| 0 <= i < types@.len() ==> self.ctx.has(#[trigger] types@[i]),
                put_types(begun, *self.ctx, types@, 0) == put_types(
                    after(output@),
                    *self.ctx,
                    types@,
                    i as nat,
                ),
            decreases types.len() - i,
        {
            if i > 0 {
                output.append(", ");
            }
            if let Err(message) = self.export_type(types[i], output) {
                let failed: Result<(), String> = Err(message);
                assert(put_types(
                    outcome(output@, failed),
                    *self.ctx,
                    types@,
                    (i + 1) as nat,
                ) == outcome(output@, failed));
                return failed;
            }
            i += 1;
        }
        Ok(())
    }

    fn export_declaration(
        &self,
        name: &str,
        result: usize,
        args: &Vec<usize>,
        output: &mut String,
    ) -> (r: Result<(), String>)
        requires
            self.ctx.has(result),
            forall|i: int| 0 <= i < args@.len() ==> self.ctx.has(#[trigger] args@[i]),
        ensures
            outcome(final(output)@, r) == put_declaration(
                after(old(output)@),
                *self.ctx,
                name@,
                result,
                args@,
            ),
    {
        output.append("declare ");
        if let Err(message) = self.export_type(result, output) {
            return Err(message);
        }
        output.append(" @");
        output.append(name);
        output.append("(");
        if let Err(message) = self.export_types(args, output) {
            return Err(message);
        }
        output.append(")");
        Ok(())
    }

    fn export_params(
        &self,
        params: &Vec<Value>,
        attrs: &Vec<LlvmParamAttrsAttr>,
        value_names: &mut FxHashMap<u64, String>,
        next_value_id: &mut u64,
        output: &mut String,
    ) -> (r: Result<(), String>)
        requires
            crate::ir::values_within(*self.ctx, params@),
            old(value_names)@ == Map::<u64, String>::empty(),
            *old(next_value_id) == 0,
        ensures
            outcome(final(output)@, r) == put_params(
                after(old(output)@),
                *self.ctx,
                params@,
                attrs@,
                0,
            ),
            r is Ok ==> prints(
                final(value_names)@,
                *final(next_value_id),
                define_all(no_names(), params@, 0),
            ),
            r is Ok ==> *final(next_value_id) == params@.len(),
    {
        let ghost begun = after(output@);
        let ghost mut now = no_names();
        let mut i: usize = 0;
        assert(strings_of(value_names@) =~= no_names().texts());
        while i < params.len()
            invariant
                i <= params.len(),
                begun == after(old(output)@),
                crate::ir::values_within(*self.ctx, params@),
                *next_value_id == i,
                prints(value_names@, *next_value_id, now),
                define_all(no_names(), params@, 0) == define_all(now, params@, i as nat),
                put_params(begun, *self.ctx, params@, attrs@, 0) == put_params(
                    after(output@),
                    *self.ctx,
                    params@,
                    attrs@,
                    i as nat,
                ),
            decreases params.len() - i,
        {
            let ghost before = after(output@);
            let ghost earlier = now;
            let arg: Value = params[i];
            if i > 0 {
                output.append(", ");
            }
            if let Err(message) = self.export_type(arg.ty, output) {
                let failed: Result<(), String> = Err(message);
                assert(put_params(
                    outcome(output@, failed),
                    *self.ctx,
                    params@,
                    attrs@,
                    (i + 1) as nat,
                ) == outcome(output@, failed));
                return failed;
            }
            if i < attrs.len() {
                if let Some(fragment) = attrs[i].to_fragment(llvm_param_class(self.ctx, arg.ty)) {
                    output.append(" ");
                    output.append(fragment.as_str());
                }
            }
            let name = define_value(value_names, next_value_id, arg.id);
            output.append(" ");
            output.append(name.as_str());
            proof {
                now = now.define(arg.id);
                assert(now.texts() =~= earlier.texts().insert(arg.id, name@));
            }
            i += 1;
        }
        Ok(())
    }

    fn export_define(
        &self,
        func: &FuncIr,
        name: &str,
        result: usize,
        params: &Vec<Value>,
        value_names: &mut FxHashMap<u64, String>,
        next_value_id: &mut u64,
        output: &mut String,
    ) -> (r: Result<(), String>)
        requires
            self.ctx.has(result),
            crate::ir::values_within(*self.ctx, params@),
            old(value_names)@ == Map::<u64, String>::empty(),
            *old(next_value_id) == 0,
        ensures
            outcome(final(output)@, r) == put_define(
                after(old(output)@),
                *self,
                *func,
                name@,
                result,
                params@,
            ),
            r is Ok ==> prints(
                final(value_names)@,
                *final(next_value_id),
                define_all(no_names(), params@, 0),
            ),
            r is Ok ==> *final(next_value_id) == params@.len(),
    {
        output.append("define ");
        if func.attributes.get_text("gpu_kernel") && self.emit_ptx_kernel_keyword {
            output.append("ptx_kernel ");
        }
        if let Err(message) = self.export_type(result, output) {
            return Err(message);
        }
        output.append(" @");
        output.append(name);
        output.append("(");
        let attrs = read_flat_param_attrs(&func.attributes);
        if let Err(message) = self.export_params(
            params,
            &attrs,
            value_names,
            next_value_id,
            output,
        ) {
            return Err(message);
        }
        output.append(") ");
        if func.attributes.get_text("alwaysinline") {
            output.append("alwaysinline ");
        }
        match func.debug_scope {
            Some(scope) => {
                output.append("#0 !dbg !");
                push_decimal(output, scope);
                output.append(" {\n");
            },
            None => {
                output.append("#0 {\n");
            },
        }
        Ok(())
    }

    fn export_body(
        &self,
        blocks: &Vec<BlockIr>,
        value_names: &mut FxHashMap<u64, String>,
        next_value_id: &mut u64,
        output: &mut String,
    ) -> (r: Result<(), String>)
        requires
            blocks@.len() > 0,
            blocks_within(*self.ctx, blocks@),
            value_count(blocks@) <= u64::MAX,
            prints(
                old(value_names)@,
                *old(next_value_id),
                define_all(no_names(), blocks@[0].args@, 0),
            ),
            *old(next_value_id) == blocks@[0].args@.len(),
        ensures
            outcome(final(output)@, r) == put_body(after(old(output)@), self.env(), blocks@),
    {
        if let Err(message) = name_values(self, blocks, value_names, next_value_id) {
            return Err(message);
        }
        let block_labels = label_blocks(blocks.len());
        let pred_map = match build_predecessors(self.ctx, blocks) {
            Ok(pred_map) => pred_map,
            Err(message) => {
                return Err(message);
            },
        };
        let ghost names = function_names(self.env(), blocks@).names;
        let ghost start = BlockOut {
            out: after(output@),
            names: names.texts(),
            next: names.next,
        };
        let ghost texts = labels(blocks@.len());
        proof {
            lemma_sources_within(pred_map@, blocks@);
        }
        let mut b: usize = 0;
        while b < blocks.len()
            invariant
                b <= blocks.len(),
                blocks_within(*self.ctx, blocks@),
                texts == labels(blocks@.len()),
                strings_of(block_labels@) == texts,
                sources_within(pred_map@, blocks@.len()),
                holds_predecessors(pred_map@, blocks@, blocks@.len()),
                function_names(self.env(), blocks@).failure is None,
                names == function_names(self.env(), blocks@).names,
                strings_of(value_names@) == names.texts(),
                *next_value_id == names.next,
                start == (BlockOut {
                    out: after(old(output)@),
                    names: names.texts(),
                    next: names.next,
                }),
                edges_failure(*self.ctx, blocks@, 0) is None,
                put_blocks(start, *self.ctx, blocks@, 0) == put_blocks(
                    BlockOut { out: after(output@), names: names.texts(), next: names.next },
                    *self.ctx,
                    blocks@,
                    b as nat,
                ),
            decreases blocks.len() - b,
        {
            let ghost before = BlockOut {
                out: after(output@),
                names: names.texts(),
                next: names.next,
            };
            let ghost expected = put_block(
                before,
                *self.ctx,
                texts,
                blocks@[b as int],
                b as nat,
                predecessors_of(blocks@, b as nat),
                b == 0,
            );
            proof {
                every_value_has_a_name(self.env(), blocks@, b as int);
                assert(all_printed(names.texts(), blocks@[b as int].args@));
                lemma_named_block_keeps_names(
                    before,
                    *self.ctx,
                    texts,
                    blocks@[b as int],
                    b as nat,
                    predecessors_of(blocks@, b as nat),
                    b == 0,
                );
                lemma_listed_predecessors(pred_map@, blocks@, b as u64);
                assert forall|k: u64|
                    (k as nat) < blocks@.len() implies #[trigger] block_labels@.dom().contains(
                    k,
                ) by {
                    assert(strings_of(block_labels@).dom().contains(k));
                }
            }
            if let Err(message) = self.export_block(
                blocks,
                b,
                value_names,
                next_value_id,
                &block_labels,
                &pred_map,
                b == 0,
                output,
            ) {
                let failed: Result<(), String> = Err(message);
                assert(put_blocks(expected, *self.ctx, blocks@, (b + 1) as nat) == expected);
                return failed;
            }
            b += 1;
        }
        output.append("}\n");
        Ok(())
    }
}

impl<'a> ModuleExportState<'a> {
    fn record_kernel_attributes(&mut self, func: &FuncIr, name: &str)
        requires
            func.attributes.wf(),
        ensures
            final(self)@ == with_kernel_attributes(old(self)@, *func, name@),
            same_setup(*old(self), *final(self)),
    {
        if func.attributes.get_text("gpu_kernel") {
            let dims = (
                attribute_number(func, "cluster_dim_x"),
                attribute_number(func, "cluster_dim_y"),
                attribute_number(func, "cluster_dim_z"),
            );
            if let (Some(dim_x), Some(dim_y), Some(dim_z)) = dims {
                self.push_cluster_kernel(
                    KernelClusterConfig { name: name.to_owned(), dim_x, dim_y, dim_z },
                );
            }
            if let Some(max_threads) = attribute_number(func, "maxntid") {
                let min_blocks = match attribute_number(func, "minctasm") {
                    Some(min) => if min == 0 {
                        None
                    } else {
                        Some(min)
                    },
                    None => None,
                };
                self.push_launch_bounds_kernel(
                    KernelLaunchBounds { name: name.to_owned(), max_threads, min_blocks },
                );
            }
        }
        assert(self@.cluster_kernels =~= old(self)@.cluster_kernels + cluster_of(*func, name@));
        assert(self@.launch_bounds_kernels =~= old(self)@.launch_bounds_kernels + bounds_of(
            *func,
            name@,
        ));
    }

    /// Writes a function and records it in the state of the module.
    ///
    /// A function without a body is declared. A function with a body is defined:
    /// its parameters carry the attributes that the operation holds, its values
    /// are named and its edges checked before any block is written, and it is
    /// marked convergent.
    pub fn export_function(&mut self, func: &FuncIr, output: &mut String) -> (r: Result<
        (),
        String,
    >)
        requires
            old(self).ctx.wf(),
            func.within(*old(self).ctx),
            func.body matches Some(blocks) ==> value_count(blocks@) <= u64::MAX,
        ensures
            function_out(final(output)@, r, *final(self)) == put_function(
                after(old(output)@),
                *old(self),
                *func,
            ),
            same_setup(*old(self), *final(self)),
            old(self).wf() ==> final(self).wf(),
    {
        let ghost begun = *self;
        let fixed_func_name = exported_symbol(func.symbol_name.as_str());
        let name: &str = fixed_func_name.as_str();
        let is_kernel = func.attributes.get_text("gpu_kernel");
        self.record_kernel_attributes(func, name);
        assert(self.ctx.refers_within(self.ctx.types@[func.ty as int].kind));
        let ctx: &'a Context = self.ctx;
        let (ret_ty, arg_types) = match &ctx.types[func.ty].kind {
            TypeKind::Function { result, args } => (*result, args),
            _ => {
                return Err("Not a function type".to_owned());
            },
        };
        self.set_function_type(name, func.ty);
        if is_kernel && self.track_all_kernels {
            self.push_kernel(name);
        }
        if func.body.is_some() && !is_kernel && has_device_prefix(func.symbol_name.as_str()) {
            self.push_device_function(name);
        }
        assert(self@ == with_function(begun, *func, name@));
        match &func.body {
            None => {
                if let Err(message) = self.export_declaration(name, ret_ty, arg_types, output) {
                    return Err(message);
                }
                if func.convergent_intrinsic {
                    output.append(" #0\n");
                    self.use_convergent();
                } else {
                    output.append("\n");
                }
            },
            Some(blocks) => {
                if blocks.len() > 0 {
                    let mut value_names: FxHashMap<u64, String> = FxHashMap::default();
                    let mut next_value_id: u64 = 0;
                    assert(blocks@[0].within(*self.ctx, blocks@.len()));
                    if let Err(message) = self.export_define(
                        func,
                        name,
                        ret_ty,
                        &blocks[0].args,
                        &mut value_names,
                        &mut next_value_id,
                        output,
                    ) {
                        return Err(message);
                    }
                    self.use_convergent();
                    if let Err(message) = self.export_body(
                        blocks,
                        &mut value_names,
                        &mut next_value_id,
                        output,
                    ) {
                        return Err(message);
                    }
                } else {
                    if let Err(message) = self.export_declaration(
                        name,
                        ret_ty,
                        arg_types,
                        output,
                    ) {
                        return Err(message);
                    }
                    output.append("\n");
                }
                output.append("\n");
            },
        }
        Ok(())
    }
}

proof fn lemma_listed_predecessors(m: Map<u64, Vec<Incoming>>, blocks: Seq<BlockIr>, b: u64)
    requires
        holds_predecessors(m, blocks, blocks.len()),
    ensures
        listed_predecessors(m, b) == predecessors_of(blocks, b as nat),
{
    assert(crate::edges::incoming_at(m, b) == predecessors(blocks, b as nat, blocks.len()));
    if m.dom().contains(b) {
        assert(m[b]@.len() > 0);
        assert(incoming_views(m[b]@).len() > 0);
    }
}

proof fn lemma_named_phis_keep_names(
    x: BlockOut,
    ctx: Context,
    labels: Map<u64, Seq<char>>,
    label: Seq<char>,
    args: Seq<Value>,
    preds: Seq<IncomingView>,
    i: nat,
)
    requires
        all_printed(x.names, args),
    ensures
        put_phis(x, ctx, labels, label, args, preds, i).names == x.names,
        put_phis(x, ctx, labels, label, args, preds, i).next == x.next,
    decreases args.len() - i,
{
    if x.out.ok() && i < args.len() {
        lemma_named_phis_keep_names(
            put_phi(x, ctx, labels, label, args[i as int], i, preds),
            ctx,
            labels,
            label,
            args,
            preds,
            i + 1,
        );
    }
}

/// Printing a block whose arguments are named gives no new name.
proof fn lemma_named_block_keeps_names(
    x: BlockOut,
    ctx: Context,
    labels: Map<u64, Seq<char>>,
    block: BlockIr,
    b: nat,
    preds: Option<Seq<IncomingView>>,
    is_entry: bool,
)
    requires
        all_printed(x.names, block.args@),
    ensures
        put_block(x, ctx, labels, block, b, preds, is_entry).names == x.names,
        put_block(x, ctx, labels, block, b, preds, is_entry).next == x.next,
{
    let label = labels[b as u64];
    let begun = BlockOut { out: x.out.put(label).put(":\n"@), ..x };
    if let Some(list) = preds {
        lemma_named_phis_keep_names(begun, ctx, labels, label, block.args@, list, 0);
    }
}

proof fn lemma_sources_within(m: Map<u64, Vec<Incoming>>, blocks: Seq<BlockIr>)
    requires
        holds_predecessors(m, blocks, blocks.len()),
    ensures
        sources_within(m, blocks.len()),
{
    assert forall|b: u64, j: int|
        m.dom().contains(b) && 0 <= j < m[b]@.len() implies (#[trigger] m[b]@[j]).source
            < blocks.len() by {
        let preds = predecessors(blocks, b as nat, blocks.len());
        assert(crate::edges::incoming_at(m, b) == preds);
        assert(preds[j] == m[b]@[j]@);
        crate::edges::predecessor_sources(blocks, b as nat, blocks.len());
    }
}

}
