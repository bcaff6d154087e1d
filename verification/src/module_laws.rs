//! What an exported module records, and how its globals and its annotations are written.

use crate::emission::after;
use crate::export_state::BoundsView;
use crate::export_state::ClusterView;
use crate::export_state::ExportView;
use crate::export_state::ModuleExportState;
use crate::export_text_laws::in_turn;
use crate::export_text_laws::lemma_assoc;
use crate::export_text_laws::spelled;
use crate::export_text_laws::with_commas;
use crate::global::decode_hex_initializer;
use crate::global::put_global;
use crate::ir::AttrObj;
use crate::ir::Context;
use crate::ir::FuncIr;
use crate::ir::GlobalIr;
use crate::ir::TypeKind;
use crate::metadata::emit_function_reference;
use crate::metadata::emit_nvvm_annotations;
use crate::metadata::emit_nvvmir_version;
use crate::metadata::needs_nvvm_annotations;
use crate::metadata::Annotation;
use crate::symbols::SymbolTable;
use crate::text::decimal;
use crate::text::push_hex_byte;
use vstd::prelude::*;

verus! {

broadcast use vstd::string::group_string_axioms;

// ---------------------------------------------------------------------------
// Records
// ---------------------------------------------------------------------------

/// The number under `key`, where there is one.
pub open spec fn number_under(func: FuncIr, key: Seq<char>) -> Option<nat> {
    match func.attributes.lookup(key) {
        Some(AttrObj::Integer(n)) => Some(n.unsigned()),
        _ => None,
    }
}

/// A text stands under `key`.
pub open spec fn marked(func: FuncIr, key: Seq<char>) -> bool {
    func.attributes.lookup(key) matches Some(AttrObj::Text(_))
}

/// Every number of a kernel fits 32 bits.
pub open spec fn numbers_fit(func: FuncIr) -> bool {
    forall|key: Seq<char>|
        (#[trigger] number_under(func, key)) matches Some(n) ==> n <= u32::MAX
}

/// The list is `before`, with `one` behind it where there is one.
pub open spec fn grown<T>(before: Seq<T>, after: Seq<T>, one: Option<T>) -> bool {
    match one {
        Some(item) => after == before.push(item),
        None => after == before,
    }
}

/// The cluster of a kernel that states all three dimensions.
pub open spec fn stated_cluster(func: FuncIr, name: Seq<char>) -> Option<ClusterView> {
    match (
        number_under(func, "cluster_dim_x"@),
        number_under(func, "cluster_dim_y"@),
        number_under(func, "cluster_dim_z"@),
    ) {
        (Some(x), Some(y), Some(z)) => if marked(func, "gpu_kernel"@) {
            Some(ClusterView { name, dim_x: x as u32, dim_y: y as u32, dim_z: z as u32 })
        } else {
            None
        },
        _ => None,
    }
}

/// The launch bounds of a kernel that states a largest number of threads. A smallest number
/// of zero blocks says nothing.
pub open spec fn stated_bounds(func: FuncIr, name: Seq<char>) -> Option<BoundsView> {
    match number_under(func, "maxntid"@) {
        Some(threads) => if marked(func, "gpu_kernel"@) {
            Some(
                BoundsView {
                    name,
                    max_threads: threads as u32,
                    min_blocks: match number_under(func, "minctasm"@) {
                        Some(blocks) => if blocks == 0 {
                            None
                        } else {
                            Some(blocks as u32)
                        },
                        None => None,
                    },
                },
            )
        } else {
            None
        },
        None => None,
    }
}

proof fn lemma_numbers(func: FuncIr, key: Seq<char>)
    requires
        numbers_fit(func),
    ensures
        crate::function::attr_number(func, key) == (match number_under(func, key) {
            Some(n) => Some(n as u32),
            None => None,
        }),
{
    vstd::arithmetic::power2::lemma2_to64();
    if let Some(n) = number_under(func, key) {
        assert(n % 0x1_0000_0000 == n);
    }
}

/// Exporting a function records, under its exported name, its type, that it is a kernel
/// where kernels are tracked and it is one, that it is a device function where it is one
/// with a body, and the cluster and the launch bounds that a kernel states.
pub proof fn exported_functions_are_recorded(
    state: &mut ModuleExportState,
    func: FuncIr,
    output: &mut String,
    r: Result<(), String>,
)
    requires
        old(state).ctx.types@[func.ty as int].kind is Function,
        numbers_fit(func),
        call_ensures(ModuleExportState::export_function, (state, &func, output), r),
    ensures
        ({
            let name = crate::naming::export_name(func.symbol_name@);
            let before = old(state)@;
            let after = final(state)@;
            let kernel = marked(func, "gpu_kernel"@);
            &&& after.function_types == before.function_types.insert(name, func.ty)
            &&& grown(
                before.all_kernels,
                after.all_kernels,
                if kernel && old(state).track_all_kernels {
                    Some(name)
                } else {
                    None
                },
            )
            &&& grown(
                before.device_functions,
                after.device_functions,
                if !kernel && func.body is Some && crate::text::has_prefix(
                    func.symbol_name@,
                    "cuda_oxide_device_"@,
                ) {
                    Some(name)
                } else {
                    None
                },
            )
            &&& grown(
                before.cluster_kernels,
                after.cluster_kernels,
                stated_cluster(func, name),
            )
            &&& grown(
                before.launch_bounds_kernels,
                after.launch_bounds_kernels,
                stated_bounds(func, name),
            )
            &&& after.next_metadata_id == before.next_metadata_id
            &&& before.convergent_used ==> after.convergent_used
            &&& r is Ok && (func.body matches Some(blocks) && blocks@.len() > 0)
                ==> after.convergent_used
        }),
{
    lemma_numbers(func, "cluster_dim_x"@);
    lemma_numbers(func, "cluster_dim_y"@);
    lemma_numbers(func, "cluster_dim_z"@);
    lemma_numbers(func, "maxntid"@);
    lemma_numbers(func, "minctasm"@);
    let name = crate::naming::export_name(func.symbol_name@);
    let before = old(state)@;
    assert(before.cluster_kernels + Seq::<ClusterView>::empty() =~= before.cluster_kernels);
    assert(before.launch_bounds_kernels + Seq::<BoundsView>::empty()
        =~= before.launch_bounds_kernels);
    if let Some(c) = stated_cluster(func, name) {
        assert(before.cluster_kernels + seq![c] =~= before.cluster_kernels.push(c));
    }
    if let Some(b) = stated_bounds(func, name) {
        assert(before.launch_bounds_kernels + seq![b] =~= before.launch_bounds_kernels.push(b));
    }
    assert(crate::function::function_out(final(output)@, r, *final(state))
        == crate::function::put_function(after(old(output)@), *old(state), func));
    if let Some(blocks) = func.body {
        if blocks@.len() > 0 && r is Ok {
            lemma_defined(*old(state), func, old(output)@);
        }
    }
}

proof fn lemma_defined(state: ModuleExportState, func: FuncIr, text: Seq<char>)
    requires
        crate::function::put_function(after(text), state, func).out.ok(),
        state.ctx.kind(func.ty) is Function,
        func.body matches Some(blocks) && blocks@.len() > 0,
    ensures
        crate::function::put_function(after(text), state, func).view.convergent_used,
{
}

// ---------------------------------------------------------------------------
// Globals
// ---------------------------------------------------------------------------

/// The digit of a number below sixteen, in upper case.
pub open spec fn digit_of(n: int) -> char {
    "0123456789ABCDEF"@[n]
}

/// A byte is written as its two digits, the higher one first.
pub proof fn bytes_are_written_in_two_digits(out: &mut String, b: u8)
    requires
        call_ensures(push_hex_byte, (out, b), ()),
    ensures
        final(out)@ == old(out)@.push(digit_of(b as int / 16)).push(digit_of(b as int % 16)),
{
    lemma_digit(b as nat / 16);
    lemma_digit(b as nat % 16);
    assert(old(out)@ + crate::text::hex_byte(b) =~= old(out)@.push(digit_of(b as int / 16)).push(
        digit_of(b as int % 16),
    ));
}

proof fn lemma_digit(n: nat)
    requires
        n < 16,
    ensures
        crate::text::hex_char(n) == digit_of(n as int),
{
    reveal_strlit("0123456789ABCDEF");
}

/// The initializer of a byte array: every byte behind a backslash.
pub open spec fn byte_literal(bytes: Seq<u8>) -> Seq<char> {
    "c\""@ + in_turn(
        |i: int| "\\"@.push(digit_of(bytes[i] as int / 16)).push(digit_of(bytes[i] as int % 16)),
        bytes.len(),
    ) + "\""@
}

proof fn lemma_escaped(bytes: Seq<u8>, n: nat)
    requires
        n <= bytes.len(),
    ensures
        crate::global::escaped(bytes, n) == in_turn(
            |i: int|
                "\\"@.push(digit_of(bytes[i] as int / 16)).push(digit_of(bytes[i] as int % 16)),
            n,
        ),
    decreases n,
{
    let part = |i: int|
        "\\"@.push(digit_of(bytes[i] as int / 16)).push(digit_of(bytes[i] as int % 16));
    if n > 0 {
        lemma_escaped(bytes, (n - 1) as nat);
        let b = bytes[n - 1];
        lemma_digit(b as nat / 16);
        lemma_digit(b as nat % 16);
        assert(in_turn(part, n) == in_turn(part, (n - 1) as nat) + part(n - 1));
        assert(crate::global::escaped(bytes, n) =~= in_turn(part, n));
    }
}

/// The alignment of a global: the one that it states, and otherwise that of the elements of
/// an array of integers or single-precision numbers, and eight bytes for anything else.
pub open spec fn alignment_for(ctx: Context, global: GlobalIr) -> nat {
    match global.alignment {
        Some(bytes) => bytes as nat,
        None => match ctx.types@[global.ty as int].kind {
            TypeKind::Array { elem, size } => match ctx.types@[elem as int].kind {
                TypeKind::Integer { width } => width as nat / 8,
                TypeKind::Single => 4,
                _ => 8,
            },
            _ => 8,
        },
    }
}

/// The line of a global without initial bytes: declared where it is external, undefined
/// where it is shared memory of an NVVM module, and zero otherwise.
pub open spec fn plain_global_line(state: ModuleExportState, global: GlobalIr) -> Seq<char> {
    "@"@ + global.symbol_name@ + (if global.external_linkage {
        " = external addrspace("@
    } else {
        " = addrspace("@
    }) + decimal(global.address_space as nat) + ") global "@ + spelled(*state.ctx, global.ty) + (
    if global.external_linkage {
        ""@
    } else if state.nvvm_ir_dialect is Some && global.address_space == 3 {
        " undef"@
    } else {
        " zeroinitializer"@
    }) + ", align "@ + decimal(alignment_for(*state.ctx, global)) + "\n"@
}

proof fn lemma_plain_global(state: ModuleExportState, global: GlobalIr, text: Seq<char>)
    requires
        global.initializer_hex is None || global.external_linkage,
        put_global(after(text), state, global).ok(),
    ensures
        put_global(after(text), state, global).text == text + plain_global_line(state, global),
{
    reveal_strlit("");
    let linkage = if global.external_linkage {
        " = external addrspace("@
    } else {
        " = addrspace("@
    };
    let space = decimal(global.address_space as nat);
    let shown = spelled(*state.ctx, global.ty);
    let storage = if global.external_linkage {
        ""@
    } else if state.nvvm_ir_dialect is Some && global.address_space == 3 {
        " undef"@
    } else {
        " zeroinitializer"@
    };
    let align = decimal(alignment_for(*state.ctx, global));
    let s1 = "@"@ + global.symbol_name@;
    let s2 = s1 + linkage;
    let s3 = s2 + space;
    let s4 = s3 + ") global "@;
    let s5 = s4 + shown;
    let s6 = s5 + storage;
    let s7 = s6 + ", align "@;
    let s8 = s7 + align;
    lemma_assoc(text, "@"@, global.symbol_name@);
    lemma_assoc(text, s1, linkage);
    lemma_assoc(text, s2, space);
    lemma_assoc(text, s3, ") global "@);
    lemma_assoc(text, s4, shown);
    lemma_assoc(text, s5, storage);
    lemma_assoc(text, s6, ", align "@);
    lemma_assoc(text, s7, align);
    lemma_assoc(text, s8, "\n"@);
    assert(s5 + ""@ =~= s5);
}

/// A global without initial bytes is one line with its symbol, its linkage, its address
/// space, its type, its storage and its alignment. An NVVM module takes globals of generic,
/// global, shared and constant memory only.
pub proof fn globals_are_written_out(
    state: ModuleExportState,
    global: GlobalIr,
    output: &mut String,
    r: Result<(), String>,
)
    requires
        call_ensures(ModuleExportState::export_global, (&state, &global, output), r),
        global.initializer_hex is None || global.external_linkage,
    ensures
        r is Ok ==> final(output)@ == old(output)@ + plain_global_line(state, global),
        r is Ok <==> state.ctx.types@[global.ty as int].exported is Ok && (
        state.nvvm_ir_dialect is Some ==> global.address_space == 0 || global.address_space == 1
            || global.address_space == 3 || global.address_space == 4),
{
    if r is Ok {
        lemma_plain_global(state, global, old(output)@);
    }
}

/// A global with initial bytes ends with exactly these bytes, each escaped, and its
/// alignment; its storage is an array of as many bytes.
pub proof fn initial_bytes_are_written_out(
    state: ModuleExportState,
    global: GlobalIr,
    hex: &str,
    bytes: Vec<u8>,
    output: &mut String,
    r: Result<(), String>,
)
    requires
        call_ensures(ModuleExportState::export_global, (&state, &global, output), r),
        !global.external_linkage,
        global.initializer_hex matches Some(given) && given@ == hex@,
        call_ensures(decode_hex_initializer, (hex,), Ok::<Vec<u8>, String>(bytes)),
        r is Ok,
    ensures
        final(output)@ == old(output)@ + ("@"@ + global.symbol_name@ + " = addrspace("@ + decimal(
            global.address_space as nat,
        ) + ") global "@ + spelled(*state.ctx, global.ty) + " "@ + byte_literal(bytes@)
            + ", align "@ + decimal(alignment_for(*state.ctx, global)) + "\n"@),
        state.ctx.types@[global.ty as int].kind matches TypeKind::Array { elem, size } && size
            == bytes@.len() && state.ctx.types@[elem as int].kind == (TypeKind::Integer {
            width: 8,
        }),
{
    lemma_escaped(bytes@, bytes@.len());
    let text = old(output)@;
    let space = decimal(global.address_space as nat);
    let shown = spelled(*state.ctx, global.ty);
    let align = decimal(alignment_for(*state.ctx, global));
    let s1 = "@"@ + global.symbol_name@;
    let s2 = s1 + " = addrspace("@;
    let s3 = s2 + space;
    let s4 = s3 + ") global "@;
    let s5 = s4 + shown;
    let s6 = s5 + " "@;
    let s7 = s6 + byte_literal(bytes@);
    let s8 = s7 + ", align "@;
    let s9 = s8 + align;
    lemma_assoc(text, "@"@, global.symbol_name@);
    lemma_assoc(text, s1, " = addrspace("@);
    lemma_assoc(text, s2, space);
    lemma_assoc(text, s3, ") global "@);
    lemma_assoc(text, s4, shown);
    lemma_assoc(text, s5, " "@);
    lemma_assoc(text, s6, byte_literal(bytes@));
    lemma_assoc(text, s7, ", align "@);
    lemma_assoc(text, s8, align);
    lemma_assoc(text, s9, "\n"@);
}

// ---------------------------------------------------------------------------
// Annotations
// ---------------------------------------------------------------------------

/// `name` has a cluster or launch bounds.
pub open spec fn has_more(state: ExportView, name: Seq<char>) -> bool {
    ||| exists|i: int|
        0 <= i < state.cluster_kernels.len() && (#[trigger] state.cluster_kernels[i]).name == name
    ||| exists|i: int|
        0 <= i < state.launch_bounds_kernels.len() && (
        #[trigger] state.launch_bounds_kernels[i]).name == name
}

/// A node that says of a function that it is an entry point.
pub open spec fn entry_node(name: Seq<char>) -> Annotation {
    Annotation { name, body: ", !\"kernel\", i32 1}\n"@ }
}

/// A node that gives a number to a function under a key.
pub open spec fn number_node(name: Seq<char>, key: Seq<char>, n: u32) -> Annotation {
    Annotation { name, body: ", !\""@ + key + "\", i32 "@ + decimal(n as nat) + "}\n"@ }
}

/// A node that says of a function that it is an entry point and gives its cluster.
pub open spec fn cluster_node(c: ClusterView) -> Annotation {
    Annotation {
        name: c.name,
        body: ", !\"kernel\", i32 1, !\"cluster_dim_x\", i32 "@ + decimal(c.dim_x as nat)
            + ", !\"cluster_dim_y\", i32 "@ + decimal(c.dim_y as nat)
            + ", !\"cluster_dim_z\", i32 "@ + decimal(c.dim_z as nat) + "}\n"@,
    }
}

/// The nodes of a kernel with launch bounds: the entry point, the most threads in one
/// dimension and one in the others, and the fewest blocks where they are given.
pub open spec fn bound_nodes(b: BoundsView) -> Seq<Annotation> {
    let four = seq![
        entry_node(b.name),
        number_node(b.name, "maxntidx"@, b.max_threads),
        number_node(b.name, "maxntidy"@, 1),
        number_node(b.name, "maxntidz"@, 1),
    ];
    match b.min_blocks {
        Some(blocks) => four.push(number_node(b.name, "minctasm"@, blocks)),
        None => four,
    }
}

/// The nodes of the first `n` tracked kernels that have nothing more to say.
pub open spec fn entry_nodes(state: ExportView, n: nat) -> Seq<Annotation>
    decreases n,
{
    if n == 0 {
        seq![]
    } else if has_more(state, state.all_kernels[n - 1]) {
        entry_nodes(state, (n - 1) as nat)
    } else {
        entry_nodes(state, (n - 1) as nat).push(entry_node(state.all_kernels[n - 1]))
    }
}

/// The nodes of the first `n` kernels with launch bounds.
pub open spec fn all_bound_nodes(state: ExportView, n: nat) -> Seq<Annotation>
    decreases n,
{
    if n == 0 {
        seq![]
    } else {
        all_bound_nodes(state, (n - 1) as nat) + bound_nodes(state.launch_bounds_kernels[n - 1])
    }
}

/// All nodes of a module: the bare entry points where they are asked for, the clusters and
/// the launch bounds.
pub open spec fn all_nodes(state: ExportView, emit_all: bool) -> Seq<Annotation> {
    (if emit_all {
        entry_nodes(state, state.all_kernels.len())
    } else {
        seq![]
    }) + Seq::new(
        state.cluster_kernels.len(),
        |i: int| cluster_node(state.cluster_kernels[i]),
    ) + all_bound_nodes(state, state.launch_bounds_kernels.len())
}

proof fn lemma_entry_nodes(state: ExportView, n: nat)
    ensures
        crate::metadata::basic_annotations(state, n) == entry_nodes(state, n),
    decreases n,
{
    if n > 0 {
        lemma_entry_nodes(state, (n - 1) as nat);
    }
}

proof fn lemma_bound_nodes(state: ExportView, n: nat)
    ensures
        crate::metadata::all_bounds_annotations(state, n) == all_bound_nodes(state, n),
    decreases n,
{
    if n > 0 {
        lemma_bound_nodes(state, (n - 1) as nat);
        let b = state.launch_bounds_kernels[n - 1];
        assert(crate::metadata::bounds_annotations(b) =~= bound_nodes(b));
    }
}

proof fn lemma_all_nodes(state: ExportView, emit_all: bool)
    ensures
        crate::metadata::annotations(state, emit_all) == all_nodes(state, emit_all),
{
    lemma_entry_nodes(state, state.all_kernels.len());
    lemma_bound_nodes(state, state.launch_bounds_kernels.len());
    assert(crate::metadata::cluster_annotations(state) =~= Seq::new(
        state.cluster_kernels.len(),
        |i: int| cluster_node(state.cluster_kernels[i]),
    ));
}

/// How a function is referred to: as a pointer, typed where the module has typed pointers.
pub open spec fn pointer_to(state: ModuleExportState, name: Seq<char>) -> Seq<char> {
    if state.legacy() {
        state.ctx.types@[state@.function_types[name] as int].pointer_exported->Ok_0@
    } else {
        "ptr"@
    }
}

/// The line of a node with an identifier.
pub open spec fn node_line(state: ModuleExportState, node: Annotation, id: nat) -> Seq<char> {
    "!"@ + decimal(id) + " = !{"@ + pointer_to(state, node.name) + " @"@ + node.name + node.body
}

/// The annotations of a module: a line for each node, numbered on from the next free
/// identifier, and one that lists the numbers; nothing where there are no nodes.
pub open spec fn annotation_lines(state: ModuleExportState, emit_all: bool) -> Seq<char> {
    let nodes = all_nodes(state@, emit_all);
    let first = state@.next_metadata_id;
    in_turn(|i: int| node_line(state, nodes[i], (first + i) as nat), nodes.len()) + (
    if nodes.len() == 0 {
        seq![]
    } else {
        "!nvvm.annotations = !{"@ + with_commas(
            Seq::new(nodes.len(), |i: int| "!"@ + decimal((first + i) as nat)),
        ) + "}\n"@
    })
}

proof fn lemma_node_lines(state: ModuleExportState, nodes: Seq<Annotation>, first: nat, n: nat)
    requires
        n <= nodes.len(),
        forall|i: int|
            0 <= i < nodes.len() ==> state.function_reference((#[trigger] nodes[i]).name) is Ok,
    ensures
        crate::metadata_laws::node_lines(state, nodes, first, n) == in_turn(
            |i: int| node_line(state, nodes[i], (first + i) as nat),
            n,
        ),
    decreases n,
{
    let part = |i: int| node_line(state, nodes[i], (first + i) as nat);
    if n > 0 {
        lemma_node_lines(state, nodes, first, (n - 1) as nat);
        assert(state.function_reference(nodes[n - 1].name) is Ok);
        assert(in_turn(part, n) == in_turn(part, (n - 1) as nat) + part(n - 1));
    }
}

proof fn lemma_put_ok(
    e: crate::emission::Emission,
    state: ModuleExportState,
    nodes: Seq<Annotation>,
    first: nat,
    i: nat,
)
    requires
        crate::metadata::put_annotations(e, state, nodes, first, i).ok(),
    ensures
        forall|k: int|
            i <= k < nodes.len() ==> state.function_reference((#[trigger] nodes[k]).name) is Ok,
    decreases nodes.len() - i,
{
    if i < nodes.len() {
        let next = crate::metadata::put_annotation(e, state, nodes[i as int], first + i);
        if !next.ok() {
            assert(crate::metadata::put_annotations(next, state, nodes, first, i + 1) == next);
        }
        lemma_put_ok(next, state, nodes, first, i + 1);
    }
}

proof fn lemma_listed(first: nat, n: nat)
    ensures
        crate::text::joined(crate::metadata::node_references(first, n), ", "@) == with_commas(
            Seq::new(n, |i: int| "!"@ + decimal((first + i) as nat)),
        ),
{
    let a = crate::metadata::node_references(first, n);
    let b = Seq::new(n, |i: int| "!"@ + decimal((first + i) as nat));
    assert(a =~= b);
    lemma_joined(b);
}

proof fn lemma_joined(parts: Seq<Seq<char>>)
    ensures
        crate::text::joined(parts, ", "@) == with_commas(parts),
    decreases parts.len(),
{
    if parts.len() > 1 {
        lemma_joined(parts.drop_last());
    }
}

/// The emitted annotations are those of the recorded kernels, numbered on from the next free
/// identifier, and every node takes one identifier.
pub proof fn annotations_are_written_out(
    output: &mut String,
    state: &mut ModuleExportState,
    emit_all: bool,
    r: Result<(), String>,
)
    requires
        call_ensures(emit_nvvm_annotations, (output, state, emit_all), r),
        r is Ok,
    ensures
        final(output)@ == old(output)@ + annotation_lines(*old(state), emit_all),
        final(state)@.next_metadata_id == old(state)@.next_metadata_id + all_nodes(
            old(state)@,
            emit_all,
        ).len(),
        final(state)@.cluster_kernels == old(state)@.cluster_kernels,
        final(state)@.launch_bounds_kernels == old(state)@.launch_bounds_kernels,
        final(state)@.all_kernels == old(state)@.all_kernels,
{
    let begun = *old(state);
    let e = after(old(output)@);
    let nodes = all_nodes(begun@, emit_all);
    let first = begun@.next_metadata_id;
    lemma_all_nodes(begun@, emit_all);
    crate::metadata_laws::annotations_are_numbered_and_listed(e, begun, emit_all);
    let lines = crate::metadata::put_annotations(e, begun, nodes, first, 0);
    assert(lines.ok());
    lemma_put_ok(e, begun, nodes, first, 0);
    lemma_node_lines(begun, nodes, first, nodes.len());
    lemma_listed(first, nodes.len());
    lemma_assoc(
        old(output)@,
        crate::metadata_laws::node_lines(begun, nodes, first, nodes.len()),
        crate::metadata_laws::listing(first, nodes.len()),
    );
}

/// A module needs annotations exactly where some kernel has a cluster or launch bounds, or
/// where all kernels are annotated and there is one.
pub proof fn annotations_are_needed_for_kernels(
    state: ModuleExportState,
    emit_all: bool,
    r: bool,
)
    requires
        call_ensures(needs_nvvm_annotations, (&state, emit_all), r),
    ensures
        r <==> state.cluster_kernels@.len() > 0 || state.launch_bounds_kernels@.len() > 0 || (
        emit_all && state.all_kernels@.len() > 0),
{
    assert(state@.cluster_kernels.len() == state.cluster_kernels@.len());
    assert(state@.launch_bounds_kernels.len() == state.launch_bounds_kernels@.len());
    assert(state@.all_kernels.len() == state.all_kernels@.len());
}

/// The version metadata lists one node with the four numbers in their order, under the next
/// free identifier.
pub proof fn versions_are_written_out(
    output: &mut String,
    state: &mut ModuleExportState,
    version: [i32; 4],
)
    requires
        call_ensures(emit_nvvmir_version, (output, state, version), ()),
    ensures
        ({
            let id = decimal(old(state)@.next_metadata_id);
            final(output)@ == old(output)@ + "!nvvmir.version = !{!"@ + id + "}\n!"@ + id
                + " = !{i32 "@ + crate::text::signed_decimal(version@[0] as int) + ", i32 "@
                + crate::text::signed_decimal(version@[1] as int) + ", i32 "@
                + crate::text::signed_decimal(version@[2] as int) + ", i32 "@
                + crate::text::signed_decimal(version@[3] as int) + "}\n"@
        }),
        final(state)@.next_metadata_id == old(state)@.next_metadata_id + 1,
{
}

proof fn lemma_emitted(
    e: crate::emission::Emission,
    state: ModuleExportState,
    nodes: Seq<Annotation>,
    first: nat,
    i: nat,
)
    requires
        e.ok(),
        !state.legacy(),
    ensures
        crate::metadata::put_annotations(e, state, nodes, first, i).ok(),
    decreases nodes.len() - i,
{
    if i < nodes.len() {
        let next = crate::metadata::put_annotation(e, state, nodes[i as int], first + i);
        lemma_emitted(next, state, nodes, first, i + 1);
    }
}

/// The annotations of a module without typed pointers can always be emitted.
pub proof fn annotations_are_emitted(
    output: &mut String,
    state: &mut ModuleExportState,
    emit_all: bool,
    r: Result<(), String>,
)
    requires
        !old(state).legacy(),
        call_ensures(emit_nvvm_annotations, (output, state, emit_all), r),
    ensures
        r is Ok,
{
    let nodes = crate::metadata::annotations(old(state)@, emit_all);
    lemma_emitted(after(old(output)@), *old(state), nodes, old(state)@.next_metadata_id, 0);
}

/// A function is referred to by a pointer and its name.
pub proof fn functions_are_referred_to_by_name(
    output: &mut String,
    state: ModuleExportState,
    name: &str,
    r: Result<(), String>,
)
    requires
        call_ensures(emit_function_reference, (output, &state, name), r),
    ensures
        r is Ok ==> final(output)@ == old(output)@ + pointer_to(state, name@) + " @"@ + name@,
        !state.legacy() ==> r is Ok,
{
}

/// A symbol table gives back what was last put in under a name, and leaves other names as
/// they were.
pub proof fn symbols_give_back_what_was_put_in(
    table: &mut SymbolTable<u32>,
    name: &str,
    value: u32,
    other: &str,
    before: Option<u32>,
    r: Option<u32>,
)
    requires
        call_ensures(SymbolTable::<u32>::get, (&*old(table), other), before),
        call_ensures(SymbolTable::<u32>::insert, (table, name, value), ()),
        call_ensures(SymbolTable::<u32>::get, (final(table), other), r),
    ensures
        other@ == name@ ==> r == Some(value),
        other@ != name@ ==> r == before,
{
}

}
