//! What holds of the annotations of a module.

use crate::emission::Emission;
use crate::export_state::BoundsView;
use crate::export_state::ClusterView;
use crate::export_state::ExportView;
use crate::export_state::ModuleExportState;
use crate::metadata::all_bounds_annotations;
use crate::metadata::annotations;
use crate::metadata::basic_annotations;
use crate::metadata::bounds_annotations;
use crate::metadata::cluster_annotations;
use crate::metadata::cluster_body;
use crate::metadata::is_marked;
use crate::metadata::is_special;
use crate::metadata::kernel_body;
use crate::metadata::keyed_body;
use crate::metadata::marks_kernel;
use crate::metadata::node_references;
use crate::metadata::nodes_reached;
use crate::metadata::put_annotation;
use crate::metadata::put_annotations;
use crate::metadata::put_nvvm_annotations;
use crate::metadata::tracked_kernels_are_marked;
use crate::metadata::Annotation;
use crate::text::decimal;
use crate::text::joined;
use crate::text::lemma_decimal_injective;
use vstd::prelude::*;

verus! {

broadcast use vstd::string::group_string_axioms;

// ---------------------------------------------------------------------------
// Which nodes there are
// ---------------------------------------------------------------------------

/// A node with this name and body is among the annotations.
pub open spec fn has_node(
    state: ExportView,
    emit_all: bool,
    name: Seq<char>,
    body: Seq<char>,
) -> bool {
    annotations(state, emit_all).contains(Annotation { name, body })
}

/// `a` is the bare marker of a tracked kernel without cluster dimensions or launch
/// bounds.
pub open spec fn marks_plain(state: ExportView, a: Annotation) -> bool {
    &&& state.all_kernels.contains(a.name)
    &&& !is_special(state, a.name)
    &&& a.body == kernel_body()
}

/// `a` is the node of the cluster kernel at `k`.
pub open spec fn gives_cluster(state: ExportView, k: int, a: Annotation) -> bool {
    &&& 0 <= k < state.cluster_kernels.len()
    &&& a.name == state.cluster_kernels[k].name
    &&& a.body == cluster_body(state.cluster_kernels[k])
}

/// `a` is one of the nodes of the bounded kernel at `k`.
pub open spec fn gives_bounds(state: ExportView, k: int, a: Annotation) -> bool {
    &&& 0 <= k < state.launch_bounds_kernels.len()
    &&& bounds_annotations(state.launch_bounds_kernels[k]).contains(a)
}

proof fn lemma_basic_members(state: ExportView, n: nat, a: Annotation)
    requires
        n <= state.all_kernels.len(),
    ensures
        basic_annotations(state, n).contains(a) <==> state.all_kernels.take(n as int).contains(
            a.name,
        ) && !is_special(state, a.name) && a.body == kernel_body(),
    decreases n,
{
    if n > 0 {
        let m = (n - 1) as nat;
        lemma_basic_members(state, m, a);
        let head = basic_annotations(state, m);
        let now = basic_annotations(state, n);
        let (some, more) = (state.all_kernels.take(m as int), state.all_kernels.take(n as int));
        assert(more =~= some.push(state.all_kernels[m as int]));
        if head.contains(a) {
            let i = choose|i: int| 0 <= i < head.len() && head[i] == a;
            assert(now[i] == a);
        }
        if some.contains(a.name) {
            let i = choose|i: int| 0 <= i < some.len() && some[i] == a.name;
            assert(more[i] == a.name);
        }
        if state.all_kernels[m as int] == a.name {
            assert(more[m as int] == a.name);
            if !is_special(state, a.name) && a.body == kernel_body() {
                assert(now[head.len() as int] == a);
            }
        }
        if now.contains(a) && !head.contains(a) {
            let i = choose|i: int| 0 <= i < now.len() && now[i] == a;
            assert(i == head.len());
        }
        if more.contains(a.name) && !some.contains(a.name) {
            let i = choose|i: int| 0 <= i < more.len() && more[i] == a.name;
            if i < m {
                assert(some[i] == a.name);
            }
        }
    }
}

proof fn lemma_bounds_members(state: ExportView, n: nat, a: Annotation)
    requires
        n <= state.launch_bounds_kernels.len(),
    ensures
        all_bounds_annotations(state, n).contains(a) <==> exists|k: int|
            k < n && #[trigger] gives_bounds(state, k, a),
    decreases n,
{
    if n > 0 {
        let m = (n - 1) as nat;
        lemma_bounds_members(state, m, a);
        let head = all_bounds_annotations(state, m);
        let last = bounds_annotations(state.launch_bounds_kernels[m as int]);
        let now = all_bounds_annotations(state, n);
        if head.contains(a) {
            let i = choose|i: int| 0 <= i < head.len() && head[i] == a;
            assert(now[i] == a);
            let k = choose|k: int| k < m && #[trigger] gives_bounds(state, k, a);
            assert(gives_bounds(state, k, a));
        }
        if last.contains(a) {
            let i = choose|i: int| 0 <= i < last.len() && last[i] == a;
            assert(now[head.len() + i] == a);
            assert(gives_bounds(state, m as int, a));
        }
        if now.contains(a) {
            let i = choose|i: int| 0 <= i < now.len() && now[i] == a;
            if i < head.len() {
                assert(head[i] == a);
            } else {
                assert(last[i - head.len()] == a);
            }
        }
        if exists|k: int| k < n && #[trigger] gives_bounds(state, k, a) {
            let k = choose|k: int| k < n && #[trigger] gives_bounds(state, k, a);
            assert(k < m || k == m);
        }
    }
}

/// The annotations are exactly the bare markers of the plain kernels, where all
/// kernels are annotated, the node of each cluster kernel and the nodes of each
/// bounded kernel.
pub proof fn annotations_belong_to_their_kernels(state: ExportView, emit_all: bool, a: Annotation)
    ensures
        annotations(state, emit_all).contains(a) <==> {
            ||| emit_all && marks_plain(state, a)
            ||| exists|k: int| #[trigger] gives_cluster(state, k, a)
            ||| exists|k: int| #[trigger] gives_bounds(state, k, a)
        },
{
    let basic = if emit_all {
        basic_annotations(state, state.all_kernels.len())
    } else {
        seq![]
    };
    let cluster = cluster_annotations(state);
    let bounds = all_bounds_annotations(state, state.launch_bounds_kernels.len());
    let nodes = annotations(state, emit_all);
    assert(nodes == basic + cluster + bounds);
    lemma_basic_members(state, state.all_kernels.len(), a);
    lemma_bounds_members(state, state.launch_bounds_kernels.len(), a);
    assert(state.all_kernels.take(state.all_kernels.len() as int) =~= state.all_kernels);
    if basic.contains(a) {
        let i = choose|i: int| 0 <= i < basic.len() && basic[i] == a;
        assert(nodes[i] == a);
    }
    if exists|k: int| #[trigger] gives_cluster(state, k, a) {
        let k = choose|k: int| #[trigger] gives_cluster(state, k, a);
        assert(cluster[k] == a);
        assert(nodes[basic.len() + k] == a);
    }
    if exists|k: int| #[trigger] gives_bounds(state, k, a) {
        let k = choose|k: int| #[trigger] gives_bounds(state, k, a);
        assert(gives_bounds(state, k, a));
        assert(k < state.launch_bounds_kernels.len());
        assert(bounds.contains(a));
        let i = choose|i: int| 0 <= i < bounds.len() && bounds[i] == a;
        assert(nodes[basic.len() + cluster.len() + i] == a);
    }
    if nodes.contains(a) {
        let i = choose|i: int| 0 <= i < nodes.len() && nodes[i] == a;
        if i < basic.len() {
            assert(basic[i] == a);
        } else if i < basic.len() + cluster.len() {
            assert(cluster[i - basic.len()] == a);
            assert(gives_cluster(state, i - basic.len(), a));
        } else {
            assert(bounds[i - basic.len() - cluster.len()] == a);
        }
    }
}

// ---------------------------------------------------------------------------
// What the nodes say
// ---------------------------------------------------------------------------

proof fn lemma_marker_heads(c: ClusterView)
    ensures
        kernel_body().len() > 4,
        kernel_body()[4] == 'k',
        cluster_body(c).len() > 4,
        cluster_body(c)[4] == 'k',
{
    reveal_strlit(", !\"kernel\", i32 1}\n");
    reveal_strlit(", !\"kernel\", i32 1, !\"cluster_dim_x\", i32 ");
    assert(cluster_body(c)[4] == ", !\"kernel\", i32 1, !\"cluster_dim_x\", i32 "@[4]);
}

proof fn lemma_keyed_head(key: Seq<char>, value: u32, i: int)
    requires
        0 <= i < key.len(),
    ensures
        keyed_body(key, value).len() > 4 + i,
        keyed_body(key, value)[4 + i] == key[i],
{
    reveal_strlit(", !\"");
    assert((", !\""@ + key)[4 + i] == key[i]);
}

proof fn lemma_keyed_value(key: Seq<char>, a: u32, b: u32)
    requires
        keyed_body(key, a) == keyed_body(key, b),
    ensures
        a == b,
{
    let head = ", !\""@ + key + "\", i32 "@;
    let tail = "}\n"@;
    let (da, db) = (decimal(a as nat), decimal(b as nat));
    let n = head.len() as int;
    assert(keyed_body(key, a) == head + da + tail);
    assert(keyed_body(key, b) == head + db + tail);
    assert(da.len() == db.len());
    assert(da =~= (head + da + tail).subrange(n, n + da.len()));
    assert(db =~= (head + db + tail).subrange(n, n + db.len()));
    lemma_decimal_injective(a as nat, b as nat);
}

proof fn lemma_keys_differ(value: u32, other: u32)
    ensures
        keyed_body("maxntidx"@, value) != keyed_body("maxntidy"@, other),
        keyed_body("maxntidx"@, value) != keyed_body("maxntidz"@, other),
        keyed_body("maxntidy"@, value) != keyed_body("maxntidz"@, other),
        keyed_body("minctasm"@, value) != keyed_body("maxntidx"@, other),
        keyed_body("minctasm"@, value) != keyed_body("maxntidy"@, other),
        keyed_body("minctasm"@, value) != keyed_body("maxntidz"@, other),
{
    reveal_strlit("maxntidx");
    reveal_strlit("maxntidy");
    reveal_strlit("maxntidz");
    reveal_strlit("minctasm");
    lemma_keyed_head("maxntidx"@, value, 7);
    lemma_keyed_head("maxntidy"@, value, 7);
    lemma_keyed_head("maxntidy"@, other, 7);
    lemma_keyed_head("maxntidz"@, other, 7);
    lemma_keyed_head("minctasm"@, value, 1);
    lemma_keyed_head("maxntidx"@, other, 1);
    lemma_keyed_head("maxntidy"@, other, 1);
    lemma_keyed_head("maxntidz"@, other, 1);
    assert("maxntidx"@[7] == 'x' && "maxntidy"@[7] == 'y' && "maxntidz"@[7] == 'z');
    assert("minctasm"@[1] == 'i' && "maxntidx"@[1] == 'a' && "maxntidy"@[1] == 'a'
        && "maxntidz"@[1] == 'a');
}

/// `key` is one of the keys that launch bounds are given under.
pub open spec fn is_bounds_key(key: Seq<char>) -> bool {
    key == "maxntidx"@ || key == "maxntidy"@ || key == "maxntidz"@ || key == "minctasm"@
}

/// The number that launch bounds give to a key.
pub open spec fn bound_of(b: BoundsView, key: Seq<char>) -> Option<u32> {
    if key == "maxntidx"@ {
        Some(b.max_threads)
    } else if key == "minctasm"@ {
        b.min_blocks
    } else {
        Some(1u32)
    }
}

/// The bounded kernel at `k` is called `name` and gives `value` to `key`.
pub open spec fn bounds_give(
    state: ExportView,
    k: int,
    name: Seq<char>,
    key: Seq<char>,
    value: u32,
) -> bool {
    &&& 0 <= k < state.launch_bounds_kernels.len()
    &&& state.launch_bounds_kernels[k].name == name
    &&& bound_of(state.launch_bounds_kernels[k], key) == Some(value)
}

proof fn lemma_key_texts_differ()
    ensures
        "maxntidx"@ != "maxntidy"@,
        "maxntidx"@ != "maxntidz"@,
        "maxntidx"@ != "minctasm"@,
        "maxntidy"@ != "maxntidz"@,
        "maxntidy"@ != "minctasm"@,
        "maxntidz"@ != "minctasm"@,
{
    reveal_strlit("maxntidx");
    reveal_strlit("maxntidy");
    reveal_strlit("maxntidz");
    reveal_strlit("minctasm");
    assert("maxntidx"@[7] == 'x' && "maxntidy"@[7] == 'y' && "maxntidz"@[7] == 'z');
    assert("minctasm"@[7] == 'm');
}

proof fn lemma_keyed_nodes_of(b: BoundsView, name: Seq<char>, key: Seq<char>, value: u32)
    requires
        is_bounds_key(key),
    ensures
        bounds_annotations(b).contains(Annotation { name, body: keyed_body(key, value) }) <==> b.name
            == name && bound_of(b, key) == Some(value),
{
    let nodes = bounds_annotations(b);
    let a = Annotation { name, body: keyed_body(key, value) };
    lemma_key_texts_differ();
    lemma_marker_heads(ClusterView { name, dim_x: 0, dim_y: 0, dim_z: 0 });
    reveal_strlit("maxntidx");
    reveal_strlit("maxntidy");
    reveal_strlit("maxntidz");
    reveal_strlit("minctasm");
    assert("maxntidx"@[0] == 'm' && "maxntidy"@[0] == 'm' && "maxntidz"@[0] == 'm'
        && "minctasm"@[0] == 'm');
    lemma_keyed_head(key, value, 0);
    assert(nodes[0].body == kernel_body());
    assert(nodes[1].body == keyed_body("maxntidx"@, b.max_threads));
    assert(nodes[2].body == keyed_body("maxntidy"@, 1));
    assert(nodes[3].body == keyed_body("maxntidz"@, 1));
    lemma_keys_differ(value, b.max_threads);
    lemma_keys_differ(b.max_threads, value);
    lemma_keys_differ(value, 1);
    lemma_keys_differ(1, value);
    if let Some(min) = b.min_blocks {
        assert(nodes[4] == (Annotation { name: b.name, body: keyed_body("minctasm"@, min) }));
        lemma_keys_differ(min, value);
    }
    if nodes.contains(a) {
        let i = choose|i: int| 0 <= i < nodes.len() && nodes[i] == a;
        if i == 1 {
            assert(key == "maxntidx"@);
            lemma_keyed_value(key, value, b.max_threads);
        } else if i == 2 {
            assert(key == "maxntidy"@);
            lemma_keyed_value(key, value, 1);
        } else if i == 3 {
            assert(key == "maxntidz"@);
            lemma_keyed_value(key, value, 1);
        } else if i == 4 {
            assert(key == "minctasm"@);
            lemma_keyed_value(key, value, b.min_blocks->0);
        }
    }
    if b.name == name && bound_of(b, key) == Some(value) {
        if key == "maxntidx"@ {
            assert(nodes[1] == a);
        } else if key == "maxntidy"@ {
            assert(nodes[2] == a);
        } else if key == "maxntidz"@ {
            assert(nodes[3] == a);
        } else {
            assert(nodes[4] == a);
        }
    }
}

/// The launch bounds that a module states are those of its bounded kernels: for each
/// of the four keys there is a node for a function and a number exactly where launch
/// bounds of that function give the key that number.
pub proof fn launch_bounds_are_stated(
    state: ExportView,
    emit_all: bool,
    name: Seq<char>,
    key: Seq<char>,
    value: u32,
)
    requires
        is_bounds_key(key),
    ensures
        has_node(state, emit_all, name, keyed_body(key, value)) <==> exists|k: int| #[trigger]
            bounds_give(state, k, name, key, value),
{
    let a = Annotation { name, body: keyed_body(key, value) };
    annotations_belong_to_their_kernels(state, emit_all, a);
    reveal_strlit("maxntidx");
    reveal_strlit("maxntidy");
    reveal_strlit("maxntidz");
    reveal_strlit("minctasm");
    assert("maxntidx"@[0] == 'm' && "maxntidy"@[0] == 'm' && "maxntidz"@[0] == 'm'
        && "minctasm"@[0] == 'm');
    lemma_keyed_head(key, value, 0);
    lemma_marker_heads(ClusterView { name, dim_x: 0, dim_y: 0, dim_z: 0 });
    assert forall|k: int| !#[trigger] gives_cluster(state, k, a) by {
        if 0 <= k < state.cluster_kernels.len() {
            lemma_marker_heads(state.cluster_kernels[k]);
        }
    }
    assert forall|k: int| #[trigger]
        gives_bounds(state, k, a) <==> bounds_give(state, k, name, key, value) by {
        if 0 <= k < state.launch_bounds_kernels.len() {
            lemma_keyed_nodes_of(state.launch_bounds_kernels[k], name, key, value);
        }
    }
    if exists|k: int| #[trigger] gives_bounds(state, k, a) {
        let k = choose|k: int| #[trigger] gives_bounds(state, k, a);
        assert(bounds_give(state, k, name, key, value));
    }
    if exists|k: int| #[trigger] bounds_give(state, k, name, key, value) {
        let k = choose|k: int| #[trigger] bounds_give(state, k, name, key, value);
        assert(gives_bounds(state, k, a));
    }
}

/// No other launch bounds are given to the bounded kernel at `k`.
pub open spec fn is_bounded_once(state: ExportView, k: int) -> bool {
    forall|j: int|
        0 <= j < state.launch_bounds_kernels.len() && j != k ==> (
        #[trigger] state.launch_bounds_kernels[j]).name != state.launch_bounds_kernels[k].name
}

/// A bounded kernel has its `maxntidx`, `maxntidy` and `maxntidz`, and its `minctasm`
/// where its bounds state one; where launch bounds are given to it once, it has
/// `minctasm` only then.
pub proof fn bounded_kernels_have_their_bounds(state: ExportView, emit_all: bool, k: int)
    requires
        0 <= k < state.launch_bounds_kernels.len(),
    ensures
        ({
            let b = state.launch_bounds_kernels[k];
            &&& has_node(state, emit_all, b.name, keyed_body("maxntidx"@, b.max_threads))
            &&& has_node(state, emit_all, b.name, keyed_body("maxntidy"@, 1))
            &&& has_node(state, emit_all, b.name, keyed_body("maxntidz"@, 1))
            &&& b.min_blocks matches Some(min) ==> has_node(
                state,
                emit_all,
                b.name,
                keyed_body("minctasm"@, min),
            )
            &&& is_bounded_once(state, k) ==> forall|min: u32| #[trigger]
                has_node(state, emit_all, b.name, keyed_body("minctasm"@, min)) ==> b.min_blocks
                    == Some(min)
        }),
{
    let b = state.launch_bounds_kernels[k];
    lemma_key_texts_differ();
    launch_bounds_are_stated(state, emit_all, b.name, "maxntidx"@, b.max_threads);
    launch_bounds_are_stated(state, emit_all, b.name, "maxntidy"@, 1);
    launch_bounds_are_stated(state, emit_all, b.name, "maxntidz"@, 1);
    assert(bounds_give(state, k, b.name, "maxntidx"@, b.max_threads));
    assert(bounds_give(state, k, b.name, "maxntidy"@, 1));
    assert(bounds_give(state, k, b.name, "maxntidz"@, 1));
    if let Some(min) = b.min_blocks {
        launch_bounds_are_stated(state, emit_all, b.name, "minctasm"@, min);
        assert(bounds_give(state, k, b.name, "minctasm"@, min));
    }
    if is_bounded_once(state, k) {
        assert forall|min: u32| #[trigger]
            has_node(state, emit_all, b.name, keyed_body("minctasm"@, min)) implies b.min_blocks
            == Some(min) by {
            launch_bounds_are_stated(state, emit_all, b.name, "minctasm"@, min);
        }
    }
}

/// The node of a cluster kernel carries its own dimensions.
pub proof fn cluster_kernels_have_their_dimensions(state: ExportView, emit_all: bool, k: int)
    requires
        0 <= k < state.cluster_kernels.len(),
    ensures
        has_node(
            state,
            emit_all,
            state.cluster_kernels[k].name,
            cluster_body(state.cluster_kernels[k]),
        ),
{
    let c = state.cluster_kernels[k];
    let a = Annotation { name: c.name, body: cluster_body(c) };
    annotations_belong_to_their_kernels(state, emit_all, a);
    assert(gives_cluster(state, k, a));
}

/// A tracked kernel without cluster dimensions or launch bounds is marked as an entry
/// point exactly where all kernels are annotated.
pub proof fn plain_kernels_are_marked_on_request(state: ExportView, emit_all: bool, k: int)
    requires
        0 <= k < state.all_kernels.len(),
        !is_special(state, state.all_kernels[k]),
    ensures
        is_marked(state, emit_all, state.all_kernels[k]) <==> emit_all,
{
    if emit_all {
        tracked_kernels_are_marked(state, k);
    } else {
        unlisted_functions_have_no_node(state, state.all_kernels[k]);
        let nodes = annotations(state, false);
        assert forall|i: int| !#[trigger]
            marks_kernel(state, nodes, i, state.all_kernels[k]) by {
            if 0 <= i < nodes.len() {
                assert(nodes[i].name != state.all_kernels[k]);
            }
        }
    }
}

/// Without the request to annotate all kernels, a function with neither cluster
/// dimensions nor launch bounds has no node at all.
pub proof fn unlisted_functions_have_no_node(state: ExportView, name: Seq<char>)
    requires
        !is_special(state, name),
    ensures
        forall|i: int|
            0 <= i < annotations(state, false).len() ==> (#[trigger] annotations(
                state,
                false,
            )[i]).name != name,
{
    let nodes = annotations(state, false);
    assert forall|i: int| 0 <= i < nodes.len() implies (#[trigger] nodes[i]).name != name by {
        let a = nodes[i];
        assert(nodes.contains(a));
        annotations_belong_to_their_kernels(state, false, a);
        if exists|k: int| #[trigger] gives_cluster(state, k, a) {
            let k = choose|k: int| #[trigger] gives_cluster(state, k, a);
            assert(state.cluster_kernels[k].name == a.name);
        } else {
            let k = choose|k: int| #[trigger] gives_bounds(state, k, a);
            let own = bounds_annotations(state.launch_bounds_kernels[k]);
            let j = choose|j: int| 0 <= j < own.len() && own[j] == a;
            assert(own[j].name == state.launch_bounds_kernels[k].name);
        }
    }
}

// ---------------------------------------------------------------------------
// How many nodes there are, and how they are numbered and listed
// ---------------------------------------------------------------------------

/// How many of the first `n` tracked kernels have neither cluster dimensions nor launch
/// bounds.
pub open spec fn plain_kernels(state: ExportView, n: nat) -> nat
    decreases n,
{
    if n == 0 {
        0
    } else {
        plain_kernels(state, (n - 1) as nat) + (if is_special(state, state.all_kernels[n - 1]) {
            0nat
        } else {
            1nat
        })
    }
}

/// How many nodes the first `n` bounded kernels have: four each, and one more where a
/// lower bound of blocks is given.
pub open spec fn bounds_nodes(state: ExportView, n: nat) -> nat
    decreases n,
{
    if n == 0 {
        0
    } else {
        bounds_nodes(state, (n - 1) as nat) + (if state.launch_bounds_kernels[n
            - 1].min_blocks is Some {
            5nat
        } else {
            4nat
        })
    }
}

proof fn lemma_plain_count(state: ExportView, n: nat)
    ensures
        basic_annotations(state, n).len() == plain_kernels(state, n),
    decreases n,
{
    if n > 0 {
        lemma_plain_count(state, (n - 1) as nat);
    }
}

proof fn lemma_bounds_count(state: ExportView, n: nat)
    ensures
        all_bounds_annotations(state, n).len() == bounds_nodes(state, n),
    decreases n,
{
    if n > 0 {
        lemma_bounds_count(state, (n - 1) as nat);
    }
}

/// There is one node for each plain kernel, where all kernels are annotated, one for
/// each cluster kernel, and four or five for each bounded kernel.
pub proof fn annotations_are_counted(state: ExportView, emit_all: bool)
    ensures
        annotations(state, emit_all).len() == (if emit_all {
            plain_kernels(state, state.all_kernels.len())
        } else {
            0
        }) + state.cluster_kernels.len() + bounds_nodes(state, state.launch_bounds_kernels.len()),
{
    lemma_plain_count(state, state.all_kernels.len());
    lemma_bounds_count(state, state.launch_bounds_kernels.len());
}

/// The lines that define the first `n` nodes, with consecutive identifiers.
pub open spec fn node_lines(
    state: ModuleExportState,
    nodes: Seq<Annotation>,
    first_id: nat,
    n: nat,
) -> Seq<char>
    decreases n,
{
    if n == 0 {
        seq![]
    } else {
        let node = nodes[n - 1];
        node_lines(state, nodes, first_id, (n - 1) as nat) + ("!"@ + decimal(
            (first_id + n - 1) as nat,
        ) + " = !{"@ + state.function_reference(node.name)->Ok_0 + " @"@ + node.name + node.body)
    }
}

/// The line that lists the nodes, where there are any.
pub open spec fn listing(first_id: nat, n: nat) -> Seq<char> {
    if n == 0 {
        seq![]
    } else {
        "!nvvm.annotations = !{"@ + joined(node_references(first_id, n), ", "@) + "}\n"@
    }
}

proof fn lemma_lines(
    e: Emission,
    begun: Seq<char>,
    state: ModuleExportState,
    nodes: Seq<Annotation>,
    first_id: nat,
    i: nat,
)
    requires
        i <= nodes.len(),
        e.ok(),
        e.text == begun + node_lines(state, nodes, first_id, i),
        put_annotations(e, state, nodes, first_id, i).ok(),
    ensures
        put_annotations(e, state, nodes, first_id, i).text == begun + node_lines(
            state,
            nodes,
            first_id,
            nodes.len(),
        ),
        nodes_reached(state, nodes, i) == nodes.len(),
    decreases nodes.len() - i,
{
    if i < nodes.len() {
        let next = put_annotation(e, state, nodes[i as int], first_id + i);
        if !next.ok() {
            assert(put_annotations(next, state, nodes, first_id, i + 1) == next);
        }
        assert(next.text =~= begun + node_lines(state, nodes, first_id, i + 1));
        lemma_lines(next, begun, state, nodes, first_id, i + 1);
    }
}

/// Annotations that were emitted stand behind the text that was there: one line for
/// each node in order, with consecutive identifiers, then one line that lists every
/// identifier once and in order. Every node has taken an identifier. Without nodes the
/// text is unchanged.
pub proof fn annotations_are_numbered_and_listed(
    e: Emission,
    state: ModuleExportState,
    emit_all: bool,
)
    requires
        e.ok(),
        put_nvvm_annotations(e, state, emit_all).ok(),
    ensures
        ({
            let nodes = annotations(state@, emit_all);
            let first_id = state@.next_metadata_id;
            let done = put_nvvm_annotations(e, state, emit_all).text;
            &&& done == e.text + node_lines(state, nodes, first_id, nodes.len()) + listing(
                first_id,
                nodes.len(),
            )
            &&& nodes_reached(state, nodes, 0) == nodes.len()
            &&& nodes.len() == 0 ==> done == e.text
        }),
{
    let nodes = annotations(state@, emit_all);
    let first_id = state@.next_metadata_id;
    assert(e.text =~= e.text + node_lines(state, nodes, first_id, 0));
    lemma_lines(e, e.text, state, nodes, first_id, 0);
    assert(put_nvvm_annotations(e, state, emit_all).text =~= e.text + node_lines(
        state,
        nodes,
        first_id,
        nodes.len(),
    ) + listing(first_id, nodes.len()));
}

}
