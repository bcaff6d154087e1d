//! Labels, control-flow edges and predecessors of an exported function.
//!
//! A block passes values to the arguments of its successors. The exporter turns
//! block arguments into PHIs, so it needs, for every block, its predecessors with
//! the values that each passes, and it refuses edges that no PHI can express.

use crate::fx_map::fx_insert;
use crate::fx_map::fx_remove;
use crate::ir::blocks_within;
use crate::ir::BlockIr;
use crate::ir::Context;
use crate::ir::OpKind;
use crate::ir::Value;
use crate::naming::strings_of;
use crate::text::decimal;
use crate::text::push_decimal;
use rustc_hash::FxHashMap;
use vstd::prelude::*;

verus! {

broadcast use vstd::string::group_string_axioms;

// ---------------------------------------------------------------------------
// Labels
// ---------------------------------------------------------------------------

/// The label of the block at position `b`.
pub open spec fn label_text(b: nat) -> Seq<char> {
    if b == 0 {
        "entry"@
    } else {
        "bb"@ + decimal((b - 1) as nat)
    }
}

/// The labels of `n` blocks.
pub open spec fn labels(n: nat) -> Map<u64, Seq<char>> {
    Map::new(|b: u64| (b as nat) < n, |b: u64| label_text(b as nat))
}

/// Different blocks have different labels.
pub proof fn labels_are_distinct(a: nat, b: nat)
    requires
        a != b,
    ensures
        label_text(a) != label_text(b),
{
    reveal_strlit("entry");
    reveal_strlit("bb");
    let prefix = "bb"@;
    if a == 0 {
        assert(label_text(a)[0] == 'e');
        assert(label_text(b)[0] == 'b');
    } else if b == 0 {
        assert(label_text(a)[0] == 'b');
        assert(label_text(b)[0] == 'e');
    } else if label_text(a) == label_text(b) {
        assert(label_text(a).skip(2) == decimal((a - 1) as nat));
        assert(label_text(b).skip(2) == decimal((b - 1) as nat));
        crate::text::lemma_decimal_injective((a - 1) as nat, (b - 1) as nat);
    }
}

/// The label of the block at position `b`.
pub fn block_label(b: usize) -> (r: String)
    ensures
        r@ == label_text(b as nat),
{
    if b == 0 {
        "entry".to_owned()
    } else {
        let mut label = "bb".to_owned();
        push_decimal(&mut label, (b - 1) as u64);
        label
    }
}

/// Labels `n` blocks.
pub(crate) fn label_blocks(n: usize) -> (r: FxHashMap<u64, String>)
    ensures
        strings_of(r@) == labels(n as nat),
{
    let mut r: FxHashMap<u64, String> = FxHashMap::default();
    let mut b: usize = 0;
    assert(strings_of(r@) =~= labels(0));
    while b < n
        invariant
            b <= n,
            strings_of(r@) == labels(b as nat),
        decreases n - b,
    {
        let ghost before = r@;
        let label = block_label(b);
        fx_insert(&mut r, b as u64, label);
        assert(strings_of(r@) =~= strings_of(before).insert(b as u64, label@));
        assert(labels((b + 1) as nat) =~= labels(b as nat).insert(b as u64, label@));
        b += 1;
    }
    r
}

// ---------------------------------------------------------------------------
// Edges that a PHI can express
// ---------------------------------------------------------------------------

/// The message for an edge that passes the wrong number of values.
pub open spec fn arity_message(source: nat, passed: nat, dest: nat, expected: nat) -> Seq<char> {
    "predecessor `%"@ + label_text(source) + "` supplies "@ + decimal(passed) + " values to `%"@
        + label_text(dest) + "`, which expects "@ + decimal(expected) + " block arguments"@
}

/// The message for an edge that passes a value of the wrong type.
pub open spec fn type_message(
    source: nat,
    index: nat,
    passed: Seq<char>,
    dest: nat,
    expected: Seq<char>,
) -> Seq<char> {
    "predecessor `%"@ + label_text(source) + "` value "@ + decimal(index) + " has type `"@ + passed
        + "`, but `%"@ + label_text(dest) + "` block argument has type `"@ + expected + "`"@
}

/// The message for a conditional branch that reaches one block on both edges with
/// different values.
pub open spec fn ambiguous_message(source: nat, dest: nat) -> Seq<char> {
    "conditional branch `%"@ + label_text(source) + "` reaches `%"@ + label_text(dest)
        + "` on both edges with different forwarded values; LLVM PHIs cannot distinguish duplicate edges from one predecessor"@
}

/// The first mismatch of types from the `i`-th value on.
pub open spec fn type_failure(
    ctx: Context,
    source: nat,
    dest: nat,
    args: Seq<Value>,
    expected: Seq<Value>,
    i: nat,
) -> Option<Seq<char>>
    decreases args.len() - i,
{
    if i >= args.len() {
        None
    } else if args[i as int].ty != expected[i as int].ty {
        Some(
            type_message(
                source,
                i,
                ctx.shown(args[i as int].ty),
                dest,
                ctx.shown(expected[i as int].ty),
            ),
        )
    } else {
        type_failure(ctx, source, dest, args, expected, i + 1)
    }
}

/// Why the edge from `source` to `dest` that passes `args` is refused.
pub open spec fn edge_failure(
    ctx: Context,
    blocks: Seq<BlockIr>,
    source: nat,
    dest: nat,
    args: Seq<Value>,
) -> Option<Seq<char>> {
    let expected = blocks[dest as int].args@;
    if args.len() != expected.len() {
        Some(arity_message(source, args.len(), dest, expected.len()))
    } else {
        type_failure(ctx, source, dest, args, expected, 0)
    }
}

/// Why the edges that leave the block at `b` are refused.
pub open spec fn block_failure(ctx: Context, blocks: Seq<BlockIr>, b: nat) -> Option<Seq<char>> {
    let ops = blocks[b as int].ops@;
    if ops.len() == 0 {
        None
    } else {
        match ops.last().kind {
            OpKind::Br { dest, args } => edge_failure(ctx, blocks, b, dest as nat, args@),
            OpKind::CondBr { true_dest, true_args, false_dest, false_args } => {
                match edge_failure(ctx, blocks, b, true_dest as nat, true_args@) {
                    Some(message) => Some(message),
                    None => match edge_failure(ctx, blocks, b, false_dest as nat, false_args@) {
                        Some(message) => Some(message),
                        None => if true_dest == false_dest && true_args@ != false_args@ {
                            Some(ambiguous_message(b, true_dest as nat))
                        } else {
                            None
                        },
                    },
                }
            },
            _ => None,
        }
    }
}

/// Why the first refused edge of the blocks from the `b`-th on is refused.
pub open spec fn edges_failure(ctx: Context, blocks: Seq<BlockIr>, b: nat) -> Option<Seq<char>>
    decreases blocks.len() - b,
{
    if b >= blocks.len() {
        None
    } else {
        match block_failure(ctx, blocks, b) {
            Some(message) => Some(message),
            None => edges_failure(ctx, blocks, b + 1),
        }
    }
}

/// `args` are as many as `expected` and of the same types.
pub open spec fn passes(args: Seq<Value>, expected: Seq<Value>) -> bool {
    args.len() == expected.len() && forall|i: int|
        0 <= i < args.len() ==> (#[trigger] args[i]).ty == expected[i].ty
}

proof fn lemma_type_failure(
    ctx: Context,
    source: nat,
    dest: nat,
    args: Seq<Value>,
    expected: Seq<Value>,
    i: nat,
)
    requires
        args.len() == expected.len(),
    ensures
        type_failure(ctx, source, dest, args, expected, i) is None <==> (forall|j: int|
            i <= j < args.len() ==> (#[trigger] args[j]).ty == expected[j].ty),
    decreases args.len() - i,
{
    if i < args.len() {
        lemma_type_failure(ctx, source, dest, args, expected, i + 1);
    }
}

/// An edge is accepted exactly when it passes as many values as its destination
/// has arguments, each of the type of its argument.
pub proof fn edges_pass_what_their_destination_expects(
    ctx: Context,
    blocks: Seq<BlockIr>,
    source: nat,
    dest: nat,
    args: Seq<Value>,
)
    ensures
        edge_failure(ctx, blocks, source, dest, args) is None <==> passes(
            args,
            blocks[dest as int].args@,
        ),
{
    let expected = blocks[dest as int].args@;
    if args.len() == expected.len() {
        lemma_type_failure(ctx, source, dest, args, expected, 0);
    }
}

// ---------------------------------------------------------------------------
// Predecessors
// ---------------------------------------------------------------------------

/// A predecessor with the values that it passes.
#[derive(Debug)]
pub struct Incoming {
    /// Position of the predecessor.
    pub source: usize,
    /// The values that it passes.
    pub args: Vec<Value>,
}

/// What [`Incoming`] holds.
pub struct IncomingView {
    /// Position of the predecessor.
    pub source: nat,
    /// The values that it passes.
    pub args: Seq<Value>,
}

impl View for Incoming {
    type V = IncomingView;

    open spec fn view(&self) -> IncomingView {
        IncomingView { source: self.source as nat, args: self.args@ }
    }
}

/// The predecessors of each block, by position.
pub type PredecessorMap = FxHashMap<u64, Vec<Incoming>>;

/// A list of predecessors, viewed.
pub open spec fn incoming_views(list: Seq<Incoming>) -> Seq<IncomingView> {
    list.map_values(|i: Incoming| i@)
}

/// The edge from the block at `b` to the block at `dest`, where there is one. Two
/// edges of one conditional branch to the same block count as one.
pub open spec fn edge_between(blocks: Seq<BlockIr>, b: nat, dest: nat) -> Seq<IncomingView> {
    let ops = blocks[b as int].ops@;
    if ops.len() == 0 {
        seq![]
    } else {
        match ops.last().kind {
            OpKind::Br { dest: to, args } => if to == dest {
                seq![IncomingView { source: b, args: args@ }]
            } else {
                seq![]
            },
            OpKind::CondBr { true_dest, true_args, false_dest, false_args } => if true_dest
                == dest {
                seq![IncomingView { source: b, args: true_args@ }]
            } else if false_dest == dest {
                seq![IncomingView { source: b, args: false_args@ }]
            } else {
                seq![]
            },
            _ => seq![],
        }
    }
}

/// The predecessors of the block at `dest` among the first `n` blocks, in order.
pub open spec fn predecessors(blocks: Seq<BlockIr>, dest: nat, n: nat) -> Seq<IncomingView>
    decreases n,
{
    if n == 0 {
        seq![]
    } else {
        predecessors(blocks, dest, (n - 1) as nat) + edge_between(blocks, (n - 1) as nat, dest)
    }
}

/// The predecessors that a map gives to a block.
pub open spec fn incoming_at(m: Map<u64, Vec<Incoming>>, dest: u64) -> Seq<IncomingView> {
    if m.dom().contains(dest) {
        incoming_views(m[dest]@)
    } else {
        seq![]
    }
}

/// `m` holds the predecessors among the first `n` blocks, and no empty list.
pub open spec fn holds_predecessors(
    m: Map<u64, Vec<Incoming>>,
    blocks: Seq<BlockIr>,
    n: nat,
) -> bool {
    &&& forall|dest: u64|
        #[trigger] incoming_at(m, dest) == predecessors(blocks, dest as nat, n)
    &&& forall|dest: u64| m.dom().contains(dest) ==> (#[trigger] m[dest])@.len() > 0
}

/// Predecessors are listed in the order of their blocks, each among the blocks
/// looked at, and no block is listed twice.
pub proof fn predecessor_sources(blocks: Seq<BlockIr>, dest: nat, n: nat)
    ensures
        forall|j: int|
            0 <= j < predecessors(blocks, dest, n).len() ==> (#[trigger] predecessors(
                blocks,
                dest,
                n,
            )[j]).source < n,
        forall|j: int, k: int|
            0 <= j < k < predecessors(blocks, dest, n).len() ==> (#[trigger] predecessors(
                blocks,
                dest,
                n,
            )[j]).source < (#[trigger] predecessors(blocks, dest, n)[k]).source,
    decreases n,
{
    if n > 0 {
        predecessor_sources(blocks, dest, (n - 1) as nat);
        let head = predecessors(blocks, dest, (n - 1) as nat);
        let now = predecessors(blocks, dest, n);
        assert forall|j: int| 0 <= j < now.len() implies (#[trigger] now[j]).source < n by {
            if j < head.len() {
                assert(now[j] == head[j]);
            }
        }
        assert forall|j: int, k: int| 0 <= j < k < now.len() implies (#[trigger] now[j]).source < (
        #[trigger] now[k]).source by {
            assert(now[j] == head[j]);
            if k < head.len() {
                assert(now[k] == head[k]);
            }
        }
    }
}

/// A block lists each of its predecessors once, in the order of the blocks.
pub proof fn predecessors_are_listed_once(blocks: Seq<BlockIr>, dest: nat, j: int, k: int)
    requires
        0 <= j < k < predecessors(blocks, dest, blocks.len()).len(),
    ensures
        predecessors(blocks, dest, blocks.len())[j].source < predecessors(
            blocks,
            dest,
            blocks.len(),
        )[k].source,
        predecessors(blocks, dest, blocks.len())[k].source < blocks.len(),
{
    predecessor_sources(blocks, dest, blocks.len());
}

fn same_values(a: &Vec<Value>, b: &Vec<Value>) -> (r: bool)
    ensures
        r == (a@ == b@),
{
    if a.len() != b.len() {
        return false;
    }
    let mut i: usize = 0;
    while i < a.len()
        invariant
            i <= a.len(),
            a.len() == b.len(),
            forall|j: int| 0 <= j < i ==> a@[j] == b@[j],
        decreases a.len() - i,
    {
        if a[i] != b[i] {
            return false;
        }
        i += 1;
    }
    assert(a@ =~= b@);
    true
}

fn copy_values(values: &Vec<Value>) -> (r: Vec<Value>)
    ensures
        r@ == values@,
{
    let mut r: Vec<Value> = Vec::new();
    let mut i: usize = 0;
    while i < values.len()
        invariant
            i <= values.len(),
            r@ == values@.take(i as int),
        decreases values.len() - i,
    {
        r.push(values[i]);
        i += 1;
        assert(r@ =~= values@.take(i as int));
    }
    assert(r@ =~= values@);
    r
}

/// Fails where the edge from `source` to `dest` that passes `args` is refused.
pub fn validate_edge(
    ctx: &Context,
    blocks: &Vec<BlockIr>,
    source: usize,
    dest: usize,
    args: &Vec<Value>,
) -> (r: Result<(), String>)
    requires
        blocks_within(*ctx, blocks@),
        source < blocks@.len(),
        dest < blocks@.len(),
        crate::ir::values_within(*ctx, args@),
    ensures
        match r {
            Ok(_) => edge_failure(*ctx, blocks@, source as nat, dest as nat, args@) is None,
            Err(message) => edge_failure(*ctx, blocks@, source as nat, dest as nat, args@) == Some(
                message@,
            ),
        },
{
    let expected = &blocks[dest].args;
    assert(blocks@[dest as int].within(*ctx, blocks@.len()));
    if args.len() != expected.len() {
        let mut message = "predecessor `%".to_owned();
        message.append(block_label(source).as_str());
        message.append("` supplies ");
        push_decimal(&mut message, args.len() as u64);
        message.append(" values to `%");
        message.append(block_label(dest).as_str());
        message.append("`, which expects ");
        push_decimal(&mut message, expected.len() as u64);
        message.append(" block arguments");
        return Err(message);
    }
    let mut index: usize = 0;
    while index < args.len()
        invariant
            index <= args.len(),
            args.len() == expected.len(),
            dest < blocks@.len(),
            expected@ == blocks@[dest as int].args@,
            crate::ir::values_within(*ctx, args@),
            crate::ir::values_within(*ctx, expected@),
            edge_failure(*ctx, blocks@, source as nat, dest as nat, args@) == type_failure(
                *ctx,
                source as nat,
                dest as nat,
                args@,
                expected@,
                index as nat,
            ),
        decreases args.len() - index,
    {
        if args[index].ty != expected[index].ty {
            let mut message = "predecessor `%".to_owned();
            message.append(block_label(source).as_str());
            message.append("` value ");
            push_decimal(&mut message, index as u64);
            message.append(" has type `");
            message.append(ctx.types[args[index].ty].shown.as_str());
            message.append("`, but `%");
            message.append(block_label(dest).as_str());
            message.append("` block argument has type `");
            message.append(ctx.types[expected[index].ty].shown.as_str());
            message.append("`");
            return Err(message);
        }
        index += 1;
    }
    Ok(())
}

fn push_predecessor(
    pred_map: &mut PredecessorMap,
    dest: usize,
    source: usize,
    args: &Vec<Value>,
)
    requires
        forall|d: u64|
            old(pred_map)@.dom().contains(d) ==> (#[trigger] old(pred_map)@[d])@.len() > 0,
    ensures
        incoming_at(final(pred_map)@, dest as u64) == incoming_at(old(pred_map)@, dest as u64).push(
            IncomingView { source: source as nat, args: args@ },
        ),
        forall|d: u64|
            d != dest as u64 ==> #[trigger] incoming_at(final(pred_map)@, d) == incoming_at(
                old(pred_map)@,
                d,
            ),
        forall|d: u64|
            final(pred_map)@.dom().contains(d) ==> (#[trigger] final(pred_map)@[d])@.len() > 0,
{
    let mut list: Vec<Incoming> = match fx_remove(pred_map, dest as u64) {
        Some(list) => list,
        None => Vec::new(),
    };
    let ghost before = incoming_views(list@);
    assert(before =~= incoming_at(old(pred_map)@, dest as u64));
    let incoming = Incoming { source, args: copy_values(args) };
    list.push(incoming);
    assert(incoming_views(list@) =~= before.push(incoming@));
    fx_insert(pred_map, dest as u64, list);
}

/// The predecessors of every block, or why an edge is refused.
pub(crate) fn build_predecessors(ctx: &Context, blocks: &Vec<BlockIr>) -> (r: Result<
    PredecessorMap,
    String,
>)
    requires
        blocks_within(*ctx, blocks@),
    ensures
        match r {
            Ok(m) => edges_failure(*ctx, blocks@, 0) is None && holds_predecessors(
                m@,
                blocks@,
                blocks@.len(),
            ),
            Err(message) => edges_failure(*ctx, blocks@, 0) == Some(message@),
        },
{
    let mut pred_map: PredecessorMap = FxHashMap::default();
    let mut b: usize = 0;
    while b < blocks.len()
        invariant
            b <= blocks.len(),
            blocks_within(*ctx, blocks@),
            holds_predecessors(pred_map@, blocks@, b as nat),
            edges_failure(*ctx, blocks@, 0) == edges_failure(*ctx, blocks@, b as nat),
        decreases blocks.len() - b,
    {
        let block = &blocks[b];
        assert(block.within(*ctx, blocks@.len()));
        let ghost before = pred_map@;
        if block.ops.len() > 0 {
            let last = &block.ops[block.ops.len() - 1];
            assert(last.within(*ctx, blocks@.len()));
            match &last.kind {
                OpKind::Br { dest, args } => {
                    if let Err(message) = validate_edge(ctx, blocks, b, *dest, args) {
                        return Err(message);
                    }
                    push_predecessor(&mut pred_map, *dest, b, args);
                },
                OpKind::CondBr { true_dest, true_args, false_dest, false_args } => {
                    if let Err(message) = validate_edge(ctx, blocks, b, *true_dest, true_args) {
                        return Err(message);
                    }
                    if let Err(message) = validate_edge(ctx, blocks, b, *false_dest, false_args) {
                        return Err(message);
                    }
                    if *true_dest == *false_dest {
                        if !same_values(true_args, false_args) {
                            let mut message = "conditional branch `%".to_owned();
                            message.append(block_label(b).as_str());
                            message.append("` reaches `%");
                            message.append(block_label(*true_dest).as_str());
                            message.append(
                                "` on both edges with different forwarded values; LLVM PHIs cannot distinguish duplicate edges from one predecessor",
                            );
                            return Err(message);
                        }
                        push_predecessor(&mut pred_map, *true_dest, b, true_args);
                    } else {
                        push_predecessor(&mut pred_map, *true_dest, b, true_args);
                        push_predecessor(&mut pred_map, *false_dest, b, false_args);
                    }
                },
                _ => {},
            }
        }
        proof {
            assert forall|dest: u64| #[trigger] incoming_at(pred_map@, dest) == predecessors(
                blocks@,
                dest as nat,
                (b + 1) as nat,
            ) by {
                assert(incoming_at(before, dest) == predecessors(blocks@, dest as nat, b as nat));
                assert(incoming_at(pred_map@, dest) =~= incoming_at(before, dest) + edge_between(
                    blocks@,
                    b as nat,
                    dest as nat,
                ));
            }
        }
        b += 1;
    }
    Ok(pred_map)
}

}
