//! Source scopes and locations for device debug information.

use vstd::prelude::*;
use vstd::utf8::encode_utf8;

verus! {

broadcast use {
    vstd::string::group_string_axioms,
    vstd::utf8::encode_utf8_decode_utf8,
    vstd::utf8::encode_utf8_valid_utf8,
};

/// Where a span begins, as the compiler's source map gives it.
#[derive(Debug)]
pub struct SpanInfo {
    /// The file, where the span lies in one.
    pub file: Option<String>,
    /// Line, from one; zero where unknown.
    pub line: usize,
    /// Column, from one; zero where unknown.
    pub column: usize,
}

/// A known source position.
#[derive(Debug)]
pub struct DebugSourcePosition {
    /// The file.
    pub file: String,
    /// Line, from one.
    pub line: i32,
    /// Column, from one.
    pub column: i32,
}

/// The span and the scope of a statement or a terminator.
#[derive(Debug)]
pub struct SourceInfo {
    /// The span.
    pub span: SpanInfo,
    /// The source scope.
    pub scope: u32,
}

/// A call that was inlined into a scope.
#[derive(Debug)]
pub struct InlinedCall {
    /// The callee.
    pub callee_name: String,
    /// Where it was called.
    pub callsite: SpanInfo,
}

/// A source scope of a function body.
#[derive(Debug)]
pub struct ScopeInfo {
    /// The enclosing scope.
    pub parent: Option<u32>,
    /// Where the scope begins.
    pub span: SpanInfo,
    /// The call that was inlined into it.
    pub inlined: Option<InlinedCall>,
}

/// A basic block of a function body.
#[derive(Debug)]
pub struct BlockInfo {
    /// The statements.
    pub statements: Vec<SourceInfo>,
    /// The terminator.
    pub terminator: SourceInfo,
}

/// What the debug information of a function is built from.
#[derive(Debug)]
pub struct BodyInfo {
    /// The source scopes; a scope is identified by its position.
    pub scopes: Vec<ScopeInfo>,
    /// The basic blocks.
    pub blocks: Vec<BlockInfo>,
}

/// A call that was inlined into a scope.
#[derive(Debug)]
pub struct DebugInlinedScope {
    /// The callee.
    pub callee_name: String,
    /// Where it was called.
    pub callsite: Option<DebugSourcePosition>,
}

/// A source scope.
#[derive(Debug)]
pub struct DebugSourceScope {
    /// The scope.
    pub id: u32,
    /// The enclosing scope.
    pub parent: Option<u32>,
    /// Where the scope begins.
    pub span: Option<DebugSourcePosition>,
    /// The call that was inlined into it.
    pub inlined: Option<DebugInlinedScope>,
}

/// A position and the scope that it lies in.
#[derive(Debug)]
pub struct DebugSourceScopeLocation {
    /// The position.
    pub pos: DebugSourcePosition,
    /// The scope.
    pub scope: u32,
}

/// The source scopes of a function and its locations, in order and each once.
#[derive(Debug)]
pub struct DebugSourceScopeMap {
    /// The scopes.
    pub scopes: Vec<DebugSourceScope>,
    /// The locations.
    pub locations: Vec<DebugSourceScopeLocation>,
}

// ---------------------------------------------------------------------------
// Positions
// ---------------------------------------------------------------------------

/// What [`DebugSourcePosition`] holds.
pub struct PositionView {
    /// The file.
    pub file: Seq<char>,
    /// Line, from one.
    pub line: i32,
    /// Column, from one.
    pub column: i32,
}

impl View for DebugSourcePosition {
    type V = PositionView;

    open spec fn view(&self) -> PositionView {
        PositionView { file: self.file@, line: self.line, column: self.column }
    }
}

/// What [`DebugSourceScopeLocation`] holds.
pub struct LocationView {
    /// The position.
    pub pos: PositionView,
    /// The scope.
    pub scope: u32,
}

impl View for DebugSourceScopeLocation {
    type V = LocationView;

    open spec fn view(&self) -> LocationView {
        LocationView { pos: self.pos@, scope: self.scope }
    }
}

/// A position, viewed, where there is one.
pub open spec fn position_view(p: Option<DebugSourcePosition>) -> Option<PositionView> {
    match p {
        Some(p) => Some(p@),
        None => None,
    }
}

/// The position at which a span begins: known only where the span lies in a file
/// and its line and column are known.
pub open spec fn span_position(span: SpanInfo) -> Option<PositionView> {
    match span.file {
        Some(file) => if span.line == 0 || span.column == 0 {
            None
        } else {
            Some(
                PositionView { file: file@, line: span.line as i32, column: span.column as i32 },
            )
        },
        None => None,
    }
}

/// The position at which a span begins.
pub fn debug_position_from_span(span: &SpanInfo) -> (r: Option<DebugSourcePosition>)
    ensures
        position_view(r) == span_position(*span),
{
    match &span.file {
        Some(file) => {
            if span.line == 0 || span.column == 0 {
                return None;
            }
            Some(
                DebugSourcePosition {
                    file: file.clone(),
                    line: #[verifier::truncate] (span.line as i32),
                    column: #[verifier::truncate] (span.column as i32),
                },
            )
        },
        None => None,
    }
}

// ---------------------------------------------------------------------------
// Order
// ---------------------------------------------------------------------------

/// `a` comes before `b` in the order of bytes, both read from `i` on.
pub open spec fn bytes_less(a: Seq<u8>, b: Seq<u8>, i: nat) -> bool
    decreases a.len() - i,
{
    if i >= b.len() {
        false
    } else if i >= a.len() {
        true
    } else if a[i as int] != b[i as int] {
        a[i as int] < b[i as int]
    } else {
        bytes_less(a, b, i + 1)
    }
}

/// `a` comes before `b`: by file, then line, column and scope.
pub open spec fn location_less(a: LocationView, b: LocationView) -> bool {
    if a.pos.file != b.pos.file {
        bytes_less(encode_utf8(a.pos.file), encode_utf8(b.pos.file), 0)
    } else if a.pos.line != b.pos.line {
        a.pos.line < b.pos.line
    } else if a.pos.column != b.pos.column {
        a.pos.column < b.pos.column
    } else {
        a.scope < b.scope
    }
}

/// The locations come in order, each once.
pub open spec fn in_order(s: Seq<LocationView>) -> bool {
    forall|i: int, j: int| 0 <= i < j < s.len() ==> location_less(#[trigger] s[i], #[trigger] s[j])
}

proof fn lemma_bytes_transitive(a: Seq<u8>, b: Seq<u8>, c: Seq<u8>, i: nat)
    requires
        bytes_less(a, b, i),
        bytes_less(b, c, i),
    ensures
        bytes_less(a, c, i),
    decreases a.len() - i,
{
    if i < a.len() && a[i as int] == b[i as int] && b[i as int] == c[i as int] {
        lemma_bytes_transitive(a, b, c, i + 1);
    }
}

proof fn lemma_bytes_asymmetric(a: Seq<u8>, b: Seq<u8>, i: nat)
    requires
        bytes_less(a, b, i),
    ensures
        !bytes_less(b, a, i),
    decreases a.len() - i,
{
    if i < a.len() && a[i as int] == b[i as int] {
        lemma_bytes_asymmetric(a, b, i + 1);
    }
}

proof fn lemma_file_asymmetric(a: Seq<char>, b: Seq<char>)
    ensures
        bytes_less(encode_utf8(a), encode_utf8(b), 0) ==> !bytes_less(
            encode_utf8(b),
            encode_utf8(a),
            0,
        ),
{
    if bytes_less(encode_utf8(a), encode_utf8(b), 0) {
        lemma_bytes_asymmetric(encode_utf8(a), encode_utf8(b), 0);
    }
}

/// The order of locations is transitive.
pub proof fn location_order_is_transitive(a: LocationView, b: LocationView, c: LocationView)
    requires
        location_less(a, b),
        location_less(b, c),
    ensures
        location_less(a, c),
{
    let fa = encode_utf8(a.pos.file);
    let fb = encode_utf8(b.pos.file);
    let fc = encode_utf8(c.pos.file);
    if a.pos.file != b.pos.file && b.pos.file != c.pos.file {
        lemma_bytes_transitive(fa, fb, fc, 0);
        if a.pos.file == c.pos.file {
            lemma_bytes_asymmetric(fa, fb, 0);
        }
    }
}

/// No location comes before itself, and no two come before each other.
pub proof fn location_order_is_asymmetric(a: LocationView, b: LocationView)
    requires
        location_less(a, b),
    ensures
        !location_less(b, a),
        a != b,
{
    lemma_file_asymmetric(a.pos.file, b.pos.file);
}

proof fn lemma_first_smallest(a: Seq<LocationView>, b: Seq<LocationView>)
    requires
        in_order(a),
        in_order(b),
        a.len() > 0,
        forall|l: LocationView| a.contains(l) <==> b.contains(l),
    ensures
        b.len() > 0,
        a[0] == b[0],
{
    assert(a.contains(a[0]));
    let j = choose|j: int| 0 <= j < b.len() && b[j] == a[0];
    assert(b.contains(b[0]));
    let i = choose|i: int| 0 <= i < a.len() && a[i] == b[0];
    if i > 0 && j > 0 {
        assert(location_less(a[0], a[i]));
        assert(location_less(b[0], b[j]));
        location_order_is_asymmetric(a[0], a[i]);
    } else if i > 0 {
        assert(b[0] == a[0]);
    } else {
        assert(a[0] == b[0]);
    }
}

/// Locations in order are determined by which locations they are.
pub proof fn ordered_locations_are_unique(a: Seq<LocationView>, b: Seq<LocationView>)
    requires
        in_order(a),
        in_order(b),
        forall|l: LocationView| a.contains(l) <==> b.contains(l),
    ensures
        a == b,
    decreases a.len(),
{
    if a.len() == 0 {
        if b.len() > 0 {
            assert(b.contains(b[0]));
        }
        assert(a =~= b);
    } else {
        lemma_first_smallest(a, b);
        let ta = a.skip(1);
        let tb = b.skip(1);
        assert forall|l: LocationView| ta.contains(l) <==> tb.contains(l) by {
            if ta.contains(l) {
                let i = choose|i: int| 0 <= i < ta.len() && ta[i] == l;
                assert(a[i + 1] == l);
                assert(a.contains(l));
                location_order_is_asymmetric(a[0], a[i + 1]);
                let j = choose|j: int| 0 <= j < b.len() && b[j] == l;
                assert(j > 0);
                assert(tb[j - 1] == l);
            }
            if tb.contains(l) {
                let j = choose|j: int| 0 <= j < tb.len() && tb[j] == l;
                assert(b[j + 1] == l);
                assert(b.contains(l));
                location_order_is_asymmetric(b[0], b[j + 1]);
                let i = choose|i: int| 0 <= i < a.len() && a[i] == l;
                assert(i > 0);
                assert(ta[i - 1] == l);
            }
        }
        ordered_locations_are_unique(ta, tb);
        assert(a =~= seq![a[0]] + ta);
        assert(b =~= seq![b[0]] + tb);
    }
}

/// How two values compare.
#[derive(Debug, Clone, Copy, PartialEq, Eq, Structural)]
enum Order {
    Before,
    Same,
    After,
}

fn order_bytes(a: &[u8], b: &[u8]) -> (r: Order)
    ensures
        (r == Order::Before) == bytes_less(a@, b@, 0),
        (r == Order::Same) == (a@ == b@),
        (r == Order::After) == bytes_less(b@, a@, 0),
{
    let mut i: usize = 0;
    while i < a.len() && i < b.len()
        invariant
            i <= a.len(),
            i <= b.len(),
            bytes_less(a@, b@, 0) == bytes_less(a@, b@, i as nat),
            bytes_less(b@, a@, 0) == bytes_less(b@, a@, i as nat),
            forall|j: int| 0 <= j < i ==> a@[j] == b@[j],
        decreases a.len() - i,
    {
        if a[i] < b[i] {
            return Order::Before;
        }
        if a[i] > b[i] {
            return Order::After;
        }
        i += 1;
    }
    if a.len() < b.len() {
        Order::Before
    } else if a.len() > b.len() {
        Order::After
    } else {
        assert(a@ =~= b@);
        Order::Same
    }
}

fn order_locations(a: &DebugSourceScopeLocation, b: &DebugSourceScopeLocation) -> (r: Order)
    ensures
        (r == Order::Before) == location_less(a@, b@),
        (r == Order::Same) == (a@ == b@),
        (r == Order::After) == location_less(b@, a@),
{
    let files = order_bytes(a.pos.file.as_str().as_bytes(), b.pos.file.as_str().as_bytes());
    proof {
        let (fa, fb) = (a.pos.file@, b.pos.file@);
        assert(vstd::utf8::decode_utf8(encode_utf8(fa)) == fa);
        assert(vstd::utf8::decode_utf8(encode_utf8(fb)) == fb);
        assert((encode_utf8(fa) == encode_utf8(fb)) == (fa == fb));
    }
    if files != Order::Same {
        return files;
    }
    if a.pos.line < b.pos.line {
        Order::Before
    } else if a.pos.line > b.pos.line {
        Order::After
    } else if a.pos.column < b.pos.column {
        Order::Before
    } else if a.pos.column > b.pos.column {
        Order::After
    } else if a.scope < b.scope {
        Order::Before
    } else if a.scope > b.scope {
        Order::After
    } else {
        Order::Same
    }
}

// ---------------------------------------------------------------------------
// Collecting
// ---------------------------------------------------------------------------

/// The location of a statement or a terminator, where its position is known.
pub open spec fn location_of(info: SourceInfo) -> Seq<LocationView> {
    match span_position(info.span) {
        Some(pos) => seq![LocationView { pos, scope: info.scope }],
        None => seq![],
    }
}

/// The locations of the first `n` statements.
pub open spec fn statement_locations(statements: Seq<SourceInfo>, n: nat) -> Seq<LocationView>
    decreases n,
{
    if n == 0 {
        seq![]
    } else {
        statement_locations(statements, (n - 1) as nat) + location_of(statements[n - 1])
    }
}

/// The locations of the first `n` blocks: of their statements and terminators.
pub open spec fn block_locations(blocks: Seq<BlockInfo>, n: nat) -> Seq<LocationView>
    decreases n,
{
    if n == 0 {
        seq![]
    } else {
        let block = blocks[n - 1];
        block_locations(blocks, (n - 1) as nat) + statement_locations(
            block.statements@,
            block.statements@.len(),
        ) + location_of(block.terminator)
    }
}

/// The locations, viewed.
pub open spec fn location_views(s: Seq<DebugSourceScopeLocation>) -> Seq<LocationView> {
    s.map_values(|l: DebugSourceScopeLocation| l@)
}

/// `s` comes in order and holds exactly the locations of `all`.
pub open spec fn orders(s: Seq<LocationView>, all: Seq<LocationView>) -> bool {
    in_order(s) && forall|l: LocationView| #[trigger] s.contains(l) <==> all.contains(l)
}

proof fn lemma_contains_push(s: Seq<LocationView>, x: LocationView, l: LocationView)
    ensures
        (s + seq![x]).contains(l) <==> s.contains(l) || l == x,
{
    let t = s + seq![x];
    if s.contains(l) {
        let i = choose|i: int| 0 <= i < s.len() && s[i] == l;
        assert(t[i] == l);
    }
    if l == x {
        assert(t[s.len() as int] == l);
    }
    if t.contains(l) && l != x {
        let i = choose|i: int| 0 <= i < t.len() && t[i] == l;
        assert(s[i] == l);
    }
}

proof fn lemma_insert_in_order(s: Seq<LocationView>, at: int, x: LocationView)
    requires
        in_order(s),
        0 <= at <= s.len(),
        forall|i: int| 0 <= i < at ==> location_less(#[trigger] s[i], x),
        forall|i: int| at <= i < s.len() ==> location_less(x, #[trigger] s[i]),
    ensures
        in_order(s.insert(at, x)),
        forall|l: LocationView| s.insert(at, x).contains(l) <==> s.contains(l) || l == x,
{
    let t = s.insert(at, x);
    assert forall|i: int, j: int| 0 <= i < j < t.len() implies location_less(
        #[trigger] t[i],
        #[trigger] t[j],
    ) by {
        let si = if i < at {
            i
        } else {
            i - 1
        };
        let sj = if j < at {
            j
        } else {
            j - 1
        };
        if i != at {
            assert(t[i] == s[si]);
        }
        if j != at {
            assert(t[j] == s[sj]);
        }
    }
    assert forall|l: LocationView| t.contains(l) <==> s.contains(l) || l == x by {
        if s.contains(l) {
            let i = choose|i: int| 0 <= i < s.len() && s[i] == l;
            if i < at {
                assert(t[i] == l);
            } else {
                assert(t[i + 1] == l);
            }
        }
        if l == x {
            assert(t[at] == l);
        }
        if t.contains(l) && l != x {
            let i = choose|i: int| 0 <= i < t.len() && t[i] == l;
            if i < at {
                assert(s[i] == l);
            } else {
                assert(s[i - 1] == l);
            }
        }
    }
}

fn insert_location(
    locations: &mut Vec<DebugSourceScopeLocation>,
    location: DebugSourceScopeLocation,
    Ghost(all): Ghost<Seq<LocationView>>,
)
    requires
        orders(location_views(old(locations)@), all),
    ensures
        orders(location_views(final(locations)@), all + seq![location@]),
{
    let ghost before = location_views(locations@);
    let ghost x = location@;
    let mut lo: usize = 0;
    let mut hi: usize = locations.len();
    while lo < hi
        invariant
            lo <= hi <= locations.len(),
            locations@ == old(locations)@,
            before == location_views(locations@),
            orders(before, all),
            x == location@,
            forall|i: int| 0 <= i < lo ==> location_less(#[trigger] before[i], x),
            forall|i: int| hi <= i < before.len() ==> location_less(x, #[trigger] before[i]),
        decreases hi - lo,
    {
        let mid: usize = lo + (hi - lo) / 2;
        assert(before[mid as int] == locations@[mid as int]@);
        match order_locations(&locations[mid], &location) {
            Order::Same => {
                proof {
                    assert(before.contains(x));
                    assert forall|l: LocationView| #[trigger] before.contains(l) <==> (all + seq![
                        x,
                    ]).contains(l) by {
                        lemma_contains_push(all, x, l);
                    }
                }
                return;
            },
            Order::Before => {
                proof {
                    assert forall|i: int| 0 <= i < mid + 1 implies location_less(
                        #[trigger] before[i],
                        x,
                    ) by {
                        if i < mid {
                            location_order_is_transitive(before[i], before[mid as int], x);
                        }
                    }
                }
                lo = mid + 1;
            },
            Order::After => {
                proof {
                    assert forall|i: int| mid <= i < before.len() implies location_less(
                        x,
                        #[trigger] before[i],
                    ) by {
                        if i > mid {
                            location_order_is_transitive(x, before[mid as int], before[i]);
                        }
                    }
                }
                hi = mid;
            },
        }
    }
    locations.insert(lo, location);
    proof {
        assert(location_views(locations@) =~= before.insert(lo as int, x));
        lemma_insert_in_order(before, lo as int, x);
        assert forall|l: LocationView| #[trigger] location_views(locations@).contains(l) <==> (all
            + seq![x]).contains(l) by {
            lemma_contains_push(all, x, l);
            assert(before.contains(l) <==> all.contains(l));
        }
    }
}

fn collect_location(
    locations: &mut Vec<DebugSourceScopeLocation>,
    info: &SourceInfo,
    Ghost(all): Ghost<Seq<LocationView>>,
)
    requires
        orders(location_views(old(locations)@), all),
    ensures
        orders(location_views(final(locations)@), all + location_of(*info)),
{
    match debug_position_from_span(&info.span) {
        Some(pos) => {
            insert_location(
                locations,
                DebugSourceScopeLocation { pos, scope: info.scope },
                Ghost(all),
            );
        },
        None => {
            assert(all + location_of(*info) =~= all);
        },
    }
}

/// The scopes of a function body.
pub open spec fn describes_scope(r: DebugSourceScope, scope: ScopeInfo, id: int) -> bool {
    &&& r.id == id
    &&& r.parent == scope.parent
    &&& position_view(r.span) == span_position(scope.span)
    &&& match (r.inlined, scope.inlined) {
        (Some(to), Some(from)) => to.callee_name@ == from.callee_name@ && position_view(to.callsite)
            == span_position(from.callsite),
        (None, None) => true,
        _ => false,
    }
}

/// `r` describes the scopes of `body`, and lists its known locations in order and
/// each once.
pub open spec fn describes_body(r: DebugSourceScopeMap, body: BodyInfo) -> bool {
    &&& r.scopes@.len() == body.scopes@.len()
    &&& forall|i: int|
        0 <= i < r.scopes@.len() ==> describes_scope(#[trigger] r.scopes@[i], body.scopes@[i], i)
    &&& orders(
        location_views(r.locations@),
        block_locations(body.blocks@, body.blocks@.len()),
    )
}

/// Builds the scope map of a function: every scope with what is known of it, and
/// every known location of a statement or terminator, in order and each once.
pub fn build_debug_source_scope_map(body: &BodyInfo) -> (r: DebugSourceScopeMap)
    requires
        body.scopes@.len() <= u32::MAX,
    ensures
        describes_body(r, *body),
{
    let mut scopes: Vec<DebugSourceScope> = Vec::new();
    let mut i: usize = 0;
    while i < body.scopes.len()
        invariant
            i <= body.scopes.len(),
            body.scopes@.len() <= u32::MAX,
            scopes@.len() == i,
            forall|k: int|
                0 <= k < i ==> describes_scope(#[trigger] scopes@[k], body.scopes@[k], k),
        decreases body.scopes.len() - i,
    {
        let data = &body.scopes[i];
        let inlined = match &data.inlined {
            Some(call) => Some(
                DebugInlinedScope {
                    callee_name: call.callee_name.clone(),
                    callsite: debug_position_from_span(&call.callsite),
                },
            ),
            None => None,
        };
        let scope = DebugSourceScope {
            id: i as u32,
            parent: data.parent,
            span: debug_position_from_span(&data.span),
            inlined,
        };
        assert(describes_scope(scope, body.scopes@[i as int], i as int));
        scopes.push(scope);
        i += 1;
    }
    let mut locations: Vec<DebugSourceScopeLocation> = Vec::new();
    let mut b: usize = 0;
    assert(location_views(locations@) =~= seq![]);
    while b < body.blocks.len()
        invariant
            b <= body.blocks.len(),
            orders(location_views(locations@), block_locations(body.blocks@, b as nat)),
        decreases body.blocks.len() - b,
    {
        let block = &body.blocks[b];
        let ghost front = block_locations(body.blocks@, b as nat);
        let mut s: usize = 0;
        assert(front + statement_locations(block.statements@, 0) =~= front);
        while s < block.statements.len()
            invariant
                s <= block.statements.len(),
                orders(
                    location_views(locations@),
                    front + statement_locations(block.statements@, s as nat),
                ),
            decreases block.statements.len() - s,
        {
            collect_location(
                &mut locations,
                &block.statements[s],
                Ghost(front + statement_locations(block.statements@, s as nat)),
            );
            assert(front + statement_locations(block.statements@, (s + 1) as nat) =~= front
                + statement_locations(block.statements@, s as nat) + location_of(
                block.statements@[s as int],
            ));
            s += 1;
        }
        collect_location(
            &mut locations,
            &block.terminator,
            Ghost(front + statement_locations(block.statements@, s as nat)),
        );
        b += 1;
    }
    DebugSourceScopeMap { scopes, locations }
}

}
