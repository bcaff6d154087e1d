//! NVVM annotations and version metadata.

use crate::emission::after;
use crate::emission::outcome;
use crate::emission::Emission;
use crate::export_state::same_setup;
use crate::export_state::BoundsView;
use crate::export_state::ClusterView;
use crate::export_state::ExportView;
use crate::export_state::ModuleExportState;
use crate::text::decimal;
use crate::text::join;
use crate::text::push_decimal;
use crate::text::push_signed_decimal;
use crate::text::signed_decimal;
use crate::text::str_eq;
use vstd::prelude::*;

verus! {

broadcast use vstd::string::group_string_axioms;

/// An annotation of one function: the function and what follows the reference
/// to it.
pub struct Annotation {
    /// Exported name of the function.
    pub name: Seq<char>,
    /// What follows the reference.
    pub body: Seq<char>,
}

/// An annotation of one function.
#[derive(Debug)]
struct AnnotationNode {
    name: String,
    body: String,
}

impl View for AnnotationNode {
    type V = Annotation;

    closed spec fn view(&self) -> Annotation {
        Annotation { name: self.name@, body: self.body@ }
    }
}

/// Marks an entry point.
pub open spec fn kernel_body() -> Seq<char> {
    ", !\"kernel\", i32 1}\n"@
}

/// Marks an entry point and gives its cluster dimensions.
pub open spec fn cluster_body(c: ClusterView) -> Seq<char> {
    ", !\"kernel\", i32 1, !\"cluster_dim_x\", i32 "@ + decimal(c.dim_x as nat)
        + ", !\"cluster_dim_y\", i32 "@ + decimal(c.dim_y as nat)
        + ", !\"cluster_dim_z\", i32 "@ + decimal(c.dim_z as nat) + "}\n"@
}

/// Gives a number to a key.
pub open spec fn keyed_body(key: Seq<char>, value: u32) -> Seq<char> {
    ", !\""@ + key + "\", i32 "@ + decimal(value as nat) + "}\n"@
}

/// `name` is the name of a kernel with cluster dimensions or launch bounds.
pub open spec fn is_special(state: ExportView, name: Seq<char>) -> bool {
    ||| exists|i: int|
        0 <= i < state.cluster_kernels.len() && (#[trigger] state.cluster_kernels[i]).name == name
    ||| exists|i: int|
        0 <= i < state.launch_bounds_kernels.len() && (
        #[trigger] state.launch_bounds_kernels[i]).name == name
}

/// The annotations of the first `n` kernels that are not special.
pub open spec fn basic_annotations(state: ExportView, n: nat) -> Seq<Annotation>
    decreases n,
{
    if n == 0 {
        seq![]
    } else {
        let rest = basic_annotations(state, (n - 1) as nat);
        let name = state.all_kernels[n - 1];
        if is_special(state, name) {
            rest
        } else {
            rest.push(Annotation { name, body: kernel_body() })
        }
    }
}

/// The annotations of the kernels with cluster dimensions.
pub open spec fn cluster_annotations(state: ExportView) -> Seq<Annotation> {
    state.cluster_kernels.map_values(
        |c: ClusterView| Annotation { name: c.name, body: cluster_body(c) },
    )
}

/// The annotations of one kernel with launch bounds.
pub open spec fn bounds_annotations(b: BoundsView) -> Seq<Annotation> {
    let head = seq![
        Annotation { name: b.name, body: kernel_body() },
        Annotation { name: b.name, body: keyed_body("maxntidx"@, b.max_threads) },
        Annotation { name: b.name, body: keyed_body("maxntidy"@, 1) },
        Annotation { name: b.name, body: keyed_body("maxntidz"@, 1) },
    ];
    match b.min_blocks {
        Some(min) => head.push(Annotation { name: b.name, body: keyed_body("minctasm"@, min) }),
        None => head,
    }
}

/// The annotations of the first `n` kernels with launch bounds.
pub open spec fn all_bounds_annotations(state: ExportView, n: nat) -> Seq<Annotation>
    decreases n,
{
    if n == 0 {
        seq![]
    } else {
        all_bounds_annotations(state, (n - 1) as nat) + bounds_annotations(
            state.launch_bounds_kernels[n - 1],
        )
    }
}

/// All annotations in the order in which they are emitted.
pub open spec fn annotations(state: ExportView, emit_all_annotations: bool) -> Seq<Annotation> {
    (if emit_all_annotations {
        basic_annotations(state, state.all_kernels.len())
    } else {
        seq![]
    }) + cluster_annotations(state) + all_bounds_annotations(
        state,
        state.launch_bounds_kernels.len(),
    )
}

/// Writes the annotation nodes from the `i`-th on, with consecutive identifiers.
pub open spec fn put_annotations(
    e: Emission,
    state: ModuleExportState,
    nodes: Seq<Annotation>,
    first_id: nat,
    i: nat,
) -> Emission
    decreases nodes.len() - i,
{
    if !e.ok() || i >= nodes.len() {
        e
    } else {
        put_annotations(
            put_annotation(e, state, nodes[i as int], first_id + i),
            state,
            nodes,
            first_id,
            i + 1,
        )
    }
}

/// Writes one annotation node.
pub open spec fn put_annotation(
    e: Emission,
    state: ModuleExportState,
    node: Annotation,
    id: nat,
) -> Emission {
    e.put("!"@).put(decimal(id)).put(" = !{"@).put_rendered(
        state.function_reference(node.name),
    ).put(" @"@).put(node.name).put(node.body)
}

/// How many of the nodes are reached: all of them, or those up to the first one
/// whose function cannot be referred to.
pub open spec fn nodes_reached(state: ModuleExportState, nodes: Seq<Annotation>, i: nat) -> nat
    decreases nodes.len() - i,
{
    if i >= nodes.len() {
        nodes.len()
    } else if state.function_reference(nodes[i as int].name) is Err {
        i + 1
    } else {
        nodes_reached(state, nodes, i + 1)
    }
}

/// The references to `n` nodes with consecutive identifiers.
pub open spec fn node_references(first_id: nat, n: nat) -> Seq<Seq<char>> {
    Seq::new(n, |i: int| "!"@ + decimal((first_id + i) as nat))
}

/// Everything that [`emit_nvvm_annotations`] writes.
pub open spec fn put_nvvm_annotations(
    e: Emission,
    state: ModuleExportState,
    emit_all_annotations: bool,
) -> Emission {
    let nodes = annotations(state@, emit_all_annotations);
    let first_id = state@.next_metadata_id;
    let e = put_annotations(e, state, nodes, first_id, 0);
    if nodes.len() == 0 {
        e
    } else {
        e.put("!nvvm.annotations = !{"@).put(
            crate::text::joined(node_references(first_id, nodes.len()), ", "@),
        ).put("}\n"@)
    }
}

/// Whether the module needs `!nvvm.annotations` at all.
pub fn needs_nvvm_annotations(state: &ModuleExportState, emit_all_annotations: bool) -> (r: bool)
    ensures
        r == (state@.cluster_kernels.len() > 0 || state@.launch_bounds_kernels.len() > 0 || (
        emit_all_annotations && state@.all_kernels.len() > 0)),
{
    let has_special_kernels = !state.cluster_kernels.is_empty()
        || !state.launch_bounds_kernels.is_empty();
    has_special_kernels || (emit_all_annotations && !state.all_kernels.is_empty())
}

fn special_kernel(state: &ModuleExportState, name: &str) -> (r: bool)
    ensures
        r == is_special(state@, name@),
{
    let mut i: usize = 0;
    while i < state.cluster_kernels.len()
        invariant
            i <= state.cluster_kernels.len(),
            forall|j: int| 0 <= j < i ==> (#[trigger] state@.cluster_kernels[j]).name != name@,
        decreases state.cluster_kernels.len() - i,
    {
        if str_eq(state.cluster_kernels[i].name.as_str(), name) {
            assert(state@.cluster_kernels[i as int].name == name@);
            return true;
        }
        i += 1;
    }
    let mut i: usize = 0;
    while i < state.launch_bounds_kernels.len()
        invariant
            i <= state.launch_bounds_kernels.len(),
            forall|j: int|
                0 <= j < i ==> (#[trigger] state@.launch_bounds_kernels[j]).name != name@,
        decreases state.launch_bounds_kernels.len() - i,
    {
        if str_eq(state.launch_bounds_kernels[i].name.as_str(), name) {
            assert(state@.launch_bounds_kernels[i as int].name == name@);
            return true;
        }
        i += 1;
    }
    false
}

spec fn node_views(nodes: Seq<AnnotationNode>) -> Seq<Annotation> {
    nodes.map_values(|n: AnnotationNode| n@)
}

fn push_node(nodes: &mut Vec<AnnotationNode>, name: &str, body: String)
    ensures
        node_views(final(nodes)@) == node_views(old(nodes)@).push(
            Annotation { name: name@, body: body@ },
        ),
{
    nodes.push(AnnotationNode { name: name.to_owned(), body });
    assert(node_views(nodes@) =~= node_views(old(nodes)@).push(
        Annotation { name: name@, body: body@ },
    ));
}

fn push_keyed_node(nodes: &mut Vec<AnnotationNode>, name: &str, key: &str, value: u32)
    ensures
        node_views(final(nodes)@) == node_views(old(nodes)@).push(
            Annotation { name: name@, body: keyed_body(key@, value) },
        ),
{
    let mut body = ", !\"".to_owned();
    body.append(key);
    body.append("\", i32 ");
    push_decimal(&mut body, value as u64);
    body.append("}\n");
    push_node(nodes, name, body);
}

fn collect_annotations(state: &ModuleExportState, emit_all_annotations: bool) -> (nodes: Vec<
    AnnotationNode,
>)
    ensures
        node_views(nodes@) == annotations(state@, emit_all_annotations),
{
    let mut nodes: Vec<AnnotationNode> = Vec::new();
    assert(node_views(nodes@) =~= seq![]);
    if emit_all_annotations {
        let mut i: usize = 0;
        while i < state.all_kernels.len()
            invariant
                i <= state.all_kernels.len(),
                node_views(nodes@) == basic_annotations(state@, i as nat),
            decreases state.all_kernels.len() - i,
        {
            let name: &str = state.all_kernels[i].name.as_str();
            assert(state@.all_kernels[i as int] == name@);
            if !special_kernel(state, name) {
                push_node(&mut nodes, name, ", !\"kernel\", i32 1}\n".to_owned());
            }
            i += 1;
        }
    }
    let ghost basic = node_views(nodes@);
    let mut i: usize = 0;
    assert(basic + cluster_annotations(state@).take(0) =~= basic);
    while i < state.cluster_kernels.len()
        invariant
            i <= state.cluster_kernels.len(),
            node_views(nodes@) == basic + cluster_annotations(state@).take(i as int),
        decreases state.cluster_kernels.len() - i,
    {
        let config = &state.cluster_kernels[i];
        let ghost c = config@;
        let mut body = ", !\"kernel\", i32 1, !\"cluster_dim_x\", i32 ".to_owned();
        push_decimal(&mut body, config.dim_x as u64);
        body.append(", !\"cluster_dim_y\", i32 ");
        push_decimal(&mut body, config.dim_y as u64);
        body.append(", !\"cluster_dim_z\", i32 ");
        push_decimal(&mut body, config.dim_z as u64);
        body.append("}\n");
        assert(body@ == cluster_body(c));
        push_node(&mut nodes, config.name.as_str(), body);
        assert(cluster_annotations(state@)[i as int] == (Annotation {
            name: c.name,
            body: cluster_body(c),
        }));
        assert((basic + cluster_annotations(state@).take(i as int)).push(
            cluster_annotations(state@)[i as int],
        ) =~= basic + cluster_annotations(state@).take(i + 1));
        i += 1;
    }
    assert(cluster_annotations(state@).take(i as int) =~= cluster_annotations(state@));
    let ghost front = node_views(nodes@);
    let mut i: usize = 0;
    assert(front + all_bounds_annotations(state@, 0) =~= front);
    while i < state.launch_bounds_kernels.len()
        invariant
            i <= state.launch_bounds_kernels.len(),
            node_views(nodes@) == front + all_bounds_annotations(state@, i as nat),
        decreases state.launch_bounds_kernels.len() - i,
    {
        let bounds = &state.launch_bounds_kernels[i];
        let ghost b = bounds@;
        let name: &str = bounds.name.as_str();
        let ghost before = node_views(nodes@);
        push_node(&mut nodes, name, ", !\"kernel\", i32 1}\n".to_owned());
        push_keyed_node(&mut nodes, name, "maxntidx", bounds.max_threads);
        push_keyed_node(&mut nodes, name, "maxntidy", 1);
        push_keyed_node(&mut nodes, name, "maxntidz", 1);
        if let Some(min_blocks) = bounds.min_blocks {
            push_keyed_node(&mut nodes, name, "minctasm", min_blocks);
        }
        assert(node_views(nodes@) =~= before + bounds_annotations(b));
        assert(state@.launch_bounds_kernels[i as int] == b);
        i += 1;
        assert(node_views(nodes@) =~= front + all_bounds_annotations(state@, i as nat));
    }
    nodes
}

/// Writes the `!nvvm.annotations` metadata of the kernels. Each node takes the
/// next identifier of the module.
///
/// Kernels with cluster dimensions or launch bounds get their own nodes, each
/// with the entry-point marker; the other kernels get the bare marker where
/// `emit_all_annotations` asks for it.
pub fn emit_nvvm_annotations(
    output: &mut String,
    state: &mut ModuleExportState,
    emit_all_annotations: bool,
) -> (r: Result<(), String>)
    requires
        old(state).wf(),
        old(state)@.next_metadata_id + annotations(old(state)@, emit_all_annotations).len()
            <= u64::MAX,
    ensures
        outcome(final(output)@, r) == put_nvvm_annotations(
            after(old(output)@),
            *old(state),
            emit_all_annotations,
        ),
        final(state)@ == (ExportView {
            next_metadata_id: old(state)@.next_metadata_id + nodes_reached(
                *old(state),
                annotations(old(state)@, emit_all_annotations),
                0,
            ),
            ..old(state)@
        }),
        same_setup(*old(state), *final(state)),
{
    let nodes = collect_annotations(state, emit_all_annotations);
    let ghost all = annotations(state@, emit_all_annotations);
    let ghost start = *state;
    let ghost first_id = state@.next_metadata_id;
    let ghost begun = after(output@);
    let mut metadata_refs: Vec<String> = Vec::new();
    assert(crate::text::texts(metadata_refs@) =~= node_references(first_id, 0));
    let mut i: usize = 0;
    while i < nodes.len()
        invariant
            i <= nodes.len(),
            start == *old(state),
            begun == after(old(output)@),
            first_id == start@.next_metadata_id,
            node_views(nodes@) == all,
            all == annotations(start@, emit_all_annotations),
            first_id + all.len() <= u64::MAX,
            start.wf(),
            same_setup(start, *state),
            state@ == (ExportView { next_metadata_id: first_id + i as nat, ..start@ }),
            put_annotations(begun, start, all, first_id, 0) == put_annotations(
                after(output@),
                start,
                all,
                first_id,
                i as nat,
            ),
            nodes_reached(start, all, 0) == nodes_reached(start, all, i as nat),
            crate::text::texts(metadata_refs@) == node_references(first_id, i as nat),
        decreases nodes.len() - i,
    {
        let ghost before = output@;
        let ghost refs_before = metadata_refs@;
        let node = &nodes[i];
        assert(all[i as int] == node@);
        let md_id: u64 = state.alloc_metadata_id();
        output.append("!");
        push_decimal(output, md_id);
        output.append(" = !{");
        assert(state.function_reference(node.name@) == start.function_reference(node.name@));
        if let Err(message) = emit_function_reference(output, state, node.name.as_str()) {
            let failed: Result<(), String> = Err(message);
            assert(outcome(output@, failed) == put_annotation(
                after(before),
                start,
                all[i as int],
                first_id + i as nat,
            ));
            assert(put_annotations(
                outcome(output@, failed),
                start,
                all,
                first_id,
                (i + 1) as nat,
            ) == outcome(output@, failed));
            return failed;
        }
        output.append(node.body.as_str());
        assert(after(output@) == put_annotation(
            after(before),
            start,
            all[i as int],
            first_id + i as nat,
        ));
        let mut reference = "!".to_owned();
        push_decimal(&mut reference, md_id);
        metadata_refs.push(reference);
        i += 1;
        proof {
            let now = crate::text::texts(metadata_refs@);
            assert(now =~= crate::text::texts(refs_before).push(reference@));
            assert(now =~= node_references(first_id, i as nat));
        }
    }
    if !metadata_refs.is_empty() {
        output.append("!nvvm.annotations = !{");
        let list = join(&metadata_refs, ", ");
        output.append(list.as_str());
        output.append("}\n");
    }
    assert(crate::text::texts(metadata_refs@).len() == all.len());
    Ok(())
}

/// Writes a reference to the function `name`.
pub fn emit_function_reference(
    output: &mut String,
    state: &ModuleExportState,
    name: &str,
) -> (r: Result<(), String>)
    requires
        state.wf(),
    ensures
        outcome(final(output)@, r) == after(old(output)@).put_rendered(
            state.function_reference(name@),
        ).put(" @"@).put(name@),
{
    if let Err(message) = state.export_function_pointer(name, output) {
        return Err(message);
    }
    output.append(" @");
    output.append(name);
    Ok(())
}

/// Writes the `!nvvmir.version` metadata.
pub fn emit_nvvmir_version(output: &mut String, state: &mut ModuleExportState, version: [i32; 4])
    requires
        old(state)@.next_metadata_id < u64::MAX,
    ensures
        final(output)@ == nvvmir_version_text(
            old(output)@,
            old(state)@.next_metadata_id,
            version@,
        ),
        final(state)@ == (ExportView {
            next_metadata_id: old(state)@.next_metadata_id + 1,
            ..old(state)@
        }),
        same_setup(*old(state), *final(state)),
{
    let md_id: u64 = state.alloc_metadata_id();
    output.append("!nvvmir.version = !{!");
    push_decimal(output, md_id);
    output.append("}\n!");
    push_decimal(output, md_id);
    output.append(" = !{i32 ");
    push_signed_decimal(output, version[0]);
    output.append(", i32 ");
    push_signed_decimal(output, version[1]);
    output.append(", i32 ");
    push_signed_decimal(output, version[2]);
    output.append(", i32 ");
    push_signed_decimal(output, version[3]);
    output.append("}\n");
}

/// `before`, followed by the version metadata under the identifier `id`.
pub open spec fn nvvmir_version_text(
    before: Seq<char>,
    id: nat,
    version: Seq<i32>,
) -> Seq<char> {
    before + "!nvvmir.version = !{!"@ + decimal(id) + "}\n!"@ + decimal(id) + " = !{i32 "@
        + signed_decimal(version[0] as int) + ", i32 "@ + signed_decimal(version[1] as int)
        + ", i32 "@ + signed_decimal(version[2] as int) + ", i32 "@ + signed_decimal(
        version[3] as int,
    ) + "}\n"@
}

/// The node at `i` marks the function `name` as an entry point, by the bare marker or
/// by the marker with the cluster dimensions of that function.
pub open spec fn marks_kernel(
    state: ExportView,
    nodes: Seq<Annotation>,
    i: int,
    name: Seq<char>,
) -> bool {
    &&& 0 <= i < nodes.len()
    &&& nodes[i].name == name
    &&& (nodes[i].body == kernel_body() || exists|k: int|
        0 <= k < state.cluster_kernels.len() && (#[trigger] state.cluster_kernels[k]).name == name
            && nodes[i].body == cluster_body(state.cluster_kernels[k]))
}

/// Some node of the module marks the function `name` as an entry point.
pub open spec fn is_marked(state: ExportView, emit_all: bool, name: Seq<char>) -> bool {
    exists|i: int| #[trigger] marks_kernel(state, annotations(state, emit_all), i, name)
}

/// Every kernel with launch bounds is marked as an entry point, whether or not
/// all kernels are annotated.
pub proof fn launch_bounds_kernels_are_marked(state: ExportView, emit_all: bool, k: int)
    requires
        0 <= k < state.launch_bounds_kernels.len(),
    ensures
        is_marked(state, emit_all, state.launch_bounds_kernels[k].name),
{
    let n = state.launch_bounds_kernels.len();
    lemma_bounds_marker(state, n, k);
    let tail = all_bounds_annotations(state, n);
    let nodes = annotations(state, emit_all);
    let name = state.launch_bounds_kernels[k].name;
    let j = choose|j: int| 0 <= j < tail.len() && #[trigger] tail[j] == (Annotation {
        name,
        body: kernel_body(),
    });
    let at = nodes.len() - tail.len() + j;
    assert(nodes[at] == tail[j]);
    assert(marks_kernel(state, nodes, at, name));
}

proof fn lemma_bounds_marker(state: ExportView, n: nat, k: int)
    requires
        0 <= k < n <= state.launch_bounds_kernels.len(),
    ensures
        exists|j: int|
            0 <= j < all_bounds_annotations(state, n).len() && #[trigger] all_bounds_annotations(
                state,
                n,
            )[j] == (Annotation { name: state.launch_bounds_kernels[k].name, body: kernel_body() }),
    decreases n,
{
    let head = all_bounds_annotations(state, (n - 1) as nat);
    let now = all_bounds_annotations(state, n);
    let marker = Annotation { name: state.launch_bounds_kernels[k].name, body: kernel_body() };
    if k == n - 1 {
        assert(now[head.len() as int] == marker);
    } else {
        lemma_bounds_marker(state, (n - 1) as nat, k);
        let j = choose|j: int| 0 <= j < head.len() && #[trigger] head[j] == marker;
        assert(now[j] == marker);
    }
}

/// Every kernel with cluster dimensions is marked as an entry point, whether or
/// not all kernels are annotated.
pub proof fn cluster_kernels_are_marked(state: ExportView, emit_all: bool, k: int)
    requires
        0 <= k < state.cluster_kernels.len(),
    ensures
        is_marked(state, emit_all, state.cluster_kernels[k].name),
{
    let nodes = annotations(state, emit_all);
    let basic = if emit_all {
        basic_annotations(state, state.all_kernels.len())
    } else {
        seq![]
    };
    let c = state.cluster_kernels[k];
    let at = basic.len() + k;
    assert(nodes[at] == cluster_annotations(state)[k]);
    assert(nodes[at].body == cluster_body(c));
    assert(marks_kernel(state, nodes, at, c.name));
}

/// Where all kernels are annotated, every tracked kernel is marked as an entry
/// point.
pub proof fn tracked_kernels_are_marked(state: ExportView, k: int)
    requires
        0 <= k < state.all_kernels.len(),
    ensures
        is_marked(state, true, state.all_kernels[k]),
{
    let name = state.all_kernels[k];
    let nodes = annotations(state, true);
    if is_special(state, name) {
        if exists|i: int|
            0 <= i < state.cluster_kernels.len() && (#[trigger] state.cluster_kernels[i]).name
                == name {
            let i = choose|i: int|
                0 <= i < state.cluster_kernels.len() && (#[trigger] state.cluster_kernels[i]).name
                    == name;
            cluster_kernels_are_marked(state, true, i);
        } else {
            let i = choose|i: int|
                0 <= i < state.launch_bounds_kernels.len() && (
                #[trigger] state.launch_bounds_kernels[i]).name == name;
            launch_bounds_kernels_are_marked(state, true, i);
        }
    } else {
        lemma_basic_marker(state, state.all_kernels.len(), k);
        let basic = basic_annotations(state, state.all_kernels.len());
        let j = choose|j: int| 0 <= j < basic.len() && #[trigger] basic[j] == (Annotation {
            name,
            body: kernel_body(),
        });
        assert(nodes[j] == basic[j]);
        assert(marks_kernel(state, nodes, j, name));
    }
}

proof fn lemma_basic_marker(state: ExportView, n: nat, k: int)
    requires
        0 <= k < n <= state.all_kernels.len(),
        !is_special(state, state.all_kernels[k]),
    ensures
        exists|j: int|
            0 <= j < basic_annotations(state, n).len() && #[trigger] basic_annotations(
                state,
                n,
            )[j] == (Annotation { name: state.all_kernels[k], body: kernel_body() }),
    decreases n,
{
    let head = basic_annotations(state, (n - 1) as nat);
    let now = basic_annotations(state, n);
    let marker = Annotation { name: state.all_kernels[k], body: kernel_body() };
    if k == n - 1 {
        assert(now[head.len() as int] == marker);
    } else {
        lemma_basic_marker(state, (n - 1) as nat, k);
        let j = choose|j: int| 0 <= j < head.len() && #[trigger] head[j] == marker;
        assert(now[j] == marker);
    }
}

/// A module needs `!nvvm.annotations` exactly when there is a node to write.
pub proof fn annotations_are_needed_when_there_are_any(state: ExportView, emit_all: bool)
    ensures
        annotations(state, emit_all).len() > 0 <==> (state.cluster_kernels.len() > 0
            || state.launch_bounds_kernels.len() > 0 || (emit_all && state.all_kernels.len() > 0)),
{
    if state.cluster_kernels.len() > 0 {
        cluster_kernels_are_marked(state, emit_all, 0);
    } else if state.launch_bounds_kernels.len() > 0 {
        launch_bounds_kernels_are_marked(state, emit_all, 0);
    } else if emit_all && state.all_kernels.len() > 0 {
        tracked_kernels_are_marked(state, 0);
    }
}

/// Without the request to annotate all kernels, which kernels are tracked
/// changes nothing.
pub proof fn plain_kernels_are_skipped_unless_asked_for(
    state: ExportView,
    all_kernels: Seq<Seq<char>>,
)
    ensures
        annotations(state, false) == annotations((ExportView { all_kernels, ..state }), false),
{
    let other = ExportView { all_kernels, ..state };
    lemma_bounds_ignore_tracked(state, all_kernels, state.launch_bounds_kernels.len());
    assert(cluster_annotations(state) == cluster_annotations(other));
}

proof fn lemma_bounds_ignore_tracked(state: ExportView, all_kernels: Seq<Seq<char>>, n: nat)
    ensures
        all_bounds_annotations(state, n) == all_bounds_annotations(
            (ExportView { all_kernels, ..state }),
            n,
        ),
    decreases n,
{
    if n > 0 {
        lemma_bounds_ignore_tracked(state, all_kernels, (n - 1) as nat);
    }
}

}
