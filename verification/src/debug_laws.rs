//! What the scope map of a function says of its body.

use crate::debug_scopes::block_locations;
use crate::debug_scopes::build_debug_source_scope_map;
use crate::debug_scopes::debug_position_from_span;
use crate::debug_scopes::location_of;
use crate::debug_scopes::location_views;
use crate::debug_scopes::statement_locations;
use crate::debug_scopes::BlockInfo;
use crate::debug_scopes::BodyInfo;
use crate::debug_scopes::DebugSourcePosition;
use crate::debug_scopes::DebugSourceScopeLocation;
use crate::debug_scopes::DebugSourceScopeMap;
use crate::debug_scopes::LocationView;
use crate::debug_scopes::SourceInfo;
use crate::debug_scopes::SpanInfo;
use vstd::prelude::*;

verus! {

broadcast use vstd::string::group_string_axioms;

/// The position of the span is known.
pub open spec fn is_known(span: SpanInfo) -> bool {
    span.file is Some && span.line > 0 && span.column > 0
}

/// The line and the column of the span fit 32 bits.
pub open spec fn fits(span: SpanInfo) -> bool {
    span.line <= i32::MAX && span.column <= i32::MAX
}

/// `pos` is the position at which the span begins.
pub open spec fn begins_at(pos: DebugSourcePosition, span: SpanInfo) -> bool {
    span.file matches Some(file) && pos.file@ == file@ && pos.line == span.line && pos.column
        == span.column
}

/// `pos` is the position of the span where that is known, and nothing otherwise.
pub open spec fn tells_where(pos: Option<DebugSourcePosition>, span: SpanInfo) -> bool {
    &&& pos is Some <==> is_known(span)
    &&& pos matches Some(there) ==> fits(span) ==> begins_at(there, span)
}

/// The position of a span is known exactly where its file, its line and its column are, and
/// is these three.
pub proof fn positions_are_those_of_their_span(span: SpanInfo, r: Option<DebugSourcePosition>)
    requires
        call_ensures(debug_position_from_span, (&span,), r),
    ensures
        tells_where(r, span),
{
}

/// Every scope is described under its position, with its parent, where it begins, and the
/// call that was inlined into it.
pub proof fn scopes_are_described_one_by_one(body: BodyInfo, r: DebugSourceScopeMap, i: int)
    requires
        call_ensures(build_debug_source_scope_map, (&body,), r),
        0 <= i < body.scopes@.len(),
    ensures
        r.scopes@.len() == body.scopes@.len(),
        r.scopes@[i].id == i,
        r.scopes@[i].parent == body.scopes@[i].parent,
        tells_where(r.scopes@[i].span, body.scopes@[i].span),
        r.scopes@[i].inlined is Some <==> body.scopes@[i].inlined is Some,
        r.scopes@[i].inlined matches Some(to) ==> (body.scopes@[i].inlined matches Some(from)
            && to.callee_name@ == from.callee_name@ && tells_where(to.callsite, from.callsite)),
{
    assert(crate::debug_scopes::describes_body(r, body));
    assert(crate::debug_scopes::describes_scope(r.scopes@[i], body.scopes@[i], i));
}

/// The location is that of the statement or terminator.
pub open spec fn is_location(l: DebugSourceScopeLocation, info: SourceInfo) -> bool {
    is_known(info.span) && l.scope == info.scope && (fits(info.span) ==> begins_at(
        l.pos,
        info.span,
    ))
}

proof fn lemma_statement(statements: Seq<SourceInfo>, k: int, n: nat)
    requires
        0 <= k < n <= statements.len(),
        is_known(statements[k].span),
    ensures
        statement_locations(statements, n).contains(location_of(statements[k])[0]),
    decreases n,
{
    let now = statement_locations(statements, n);
    let before = statement_locations(statements, (n - 1) as nat);
    if k == n - 1 {
        assert(now[before.len() as int] == location_of(statements[k])[0]);
    } else {
        lemma_statement(statements, k, (n - 1) as nat);
        let i = choose|i: int|
            0 <= i < before.len() && before[i] == location_of(statements[k])[0];
        assert(now[i] == before[i]);
    }
}

proof fn lemma_block(blocks: Seq<BlockInfo>, b: int, n: nat, l: LocationView)
    requires
        0 <= b < n <= blocks.len(),
        statement_locations(blocks[b].statements@, blocks[b].statements@.len()).contains(l)
            || location_of(blocks[b].terminator).contains(l),
    ensures
        block_locations(blocks, n).contains(l),
    decreases n,
{
    let block = blocks[n - 1];
    let before = block_locations(blocks, (n - 1) as nat);
    let own = statement_locations(block.statements@, block.statements@.len());
    let last = location_of(block.terminator);
    let now = block_locations(blocks, n);
    if b == n - 1 {
        if own.contains(l) {
            let i = choose|i: int| 0 <= i < own.len() && own[i] == l;
            assert(now[before.len() + i] == l);
        } else {
            let i = choose|i: int| 0 <= i < last.len() && last[i] == l;
            assert(now[before.len() + own.len() + i] == l);
        }
    } else {
        lemma_block(blocks, b, (n - 1) as nat, l);
        let i = choose|i: int| 0 <= i < before.len() && before[i] == l;
        assert(now[i] == l);
    }
}

/// Some location of the map is that of the statement or terminator.
pub open spec fn is_listed(r: DebugSourceScopeMap, info: SourceInfo) -> bool {
    exists|i: int| 0 <= i < r.locations@.len() && is_location(#[trigger] r.locations@[i], info)
}

proof fn lemma_listed(r: DebugSourceScopeMap, info: SourceInfo)
    requires
        is_known(info.span),
        location_views(r.locations@).contains(location_of(info)[0]),
    ensures
        is_listed(r, info),
{
    let views = location_views(r.locations@);
    let i = choose|i: int| 0 <= i < views.len() && views[i] == location_of(info)[0];
    assert(views[i] == r.locations@[i]@);
    assert(is_location(r.locations@[i], info));
}

/// Every statement and every terminator whose position is known has its location in the
/// map, with its scope.
pub proof fn known_locations_are_listed(body: BodyInfo, r: DebugSourceScopeMap, b: int, s: int)
    requires
        call_ensures(build_debug_source_scope_map, (&body,), r),
        0 <= b < body.blocks@.len(),
        0 <= s < body.blocks@[b].statements@.len(),
    ensures
        is_known(body.blocks@[b].statements@[s].span) ==> is_listed(
            r,
            body.blocks@[b].statements@[s],
        ),
        is_known(body.blocks@[b].terminator.span) ==> is_listed(r, body.blocks@[b].terminator),
{
    assert(crate::debug_scopes::describes_body(r, body));
    let block = body.blocks@[b];
    let views = location_views(r.locations@);
    let all = block_locations(body.blocks@, body.blocks@.len());
    if is_known(block.statements@[s].span) {
        let l = location_of(block.statements@[s])[0];
        lemma_statement(block.statements@, s, block.statements@.len());
        lemma_block(body.blocks@, b, body.blocks@.len(), l);
        assert(views.contains(l) <==> all.contains(l));
        lemma_listed(r, block.statements@[s]);
    }
    if is_known(block.terminator.span) {
        let l = location_of(block.terminator)[0];
        assert(location_of(block.terminator)[0] == l);
        lemma_block(body.blocks@, b, body.blocks@.len(), l);
        assert(views.contains(l) <==> all.contains(l));
        lemma_listed(r, block.terminator);
    }
}

/// The location is that of some statement or of the terminator of the block.
pub open spec fn comes_from(l: DebugSourceScopeLocation, block: BlockInfo) -> bool {
    ||| is_location(l, block.terminator)
    ||| exists|s: int|
        0 <= s < block.statements@.len() && is_location(l, #[trigger] block.statements@[s])
}

proof fn lemma_from_statements(statements: Seq<SourceInfo>, n: nat, l: LocationView) -> (k: int)
    requires
        n <= statements.len(),
        statement_locations(statements, n).contains(l),
    ensures
        0 <= k < n,
        location_of(statements[k]).contains(l),
    decreases n,
{
    let now = statement_locations(statements, n);
    let i = choose|i: int| 0 <= i < now.len() && now[i] == l;
    let before = statement_locations(statements, (n - 1) as nat);
    if i < before.len() {
        assert(before[i] == l);
        lemma_from_statements(statements, (n - 1) as nat, l)
    } else {
        assert(location_of(statements[n - 1])[i - before.len()] == l);
        n - 1
    }
}

proof fn lemma_from_blocks(blocks: Seq<BlockInfo>, n: nat, l: LocationView) -> (b: int)
    requires
        n <= blocks.len(),
        block_locations(blocks, n).contains(l),
    ensures
        0 <= b < n,
        statement_locations(blocks[b].statements@, blocks[b].statements@.len()).contains(l)
            || location_of(blocks[b].terminator).contains(l),
    decreases n,
{
    let now = block_locations(blocks, n);
    let i = choose|i: int| 0 <= i < now.len() && now[i] == l;
    let block = blocks[n - 1];
    let before = block_locations(blocks, (n - 1) as nat);
    let own = statement_locations(block.statements@, block.statements@.len());
    let last = location_of(block.terminator);
    if i < before.len() {
        assert(before[i] == l);
        lemma_from_blocks(blocks, (n - 1) as nat, l)
    } else if i < before.len() + own.len() {
        assert(own[i - before.len()] == l);
        n - 1
    } else {
        assert(last[i - before.len() - own.len()] == l);
        n - 1
    }
}

/// The map lists no location besides those of statements and terminators.
pub proof fn listed_locations_come_from_the_body(body: BodyInfo, r: DebugSourceScopeMap, i: int)
    requires
        call_ensures(build_debug_source_scope_map, (&body,), r),
        0 <= i < r.locations@.len(),
    ensures
        exists|b: int|
            0 <= b < body.blocks@.len() && comes_from(
                r.locations@[i],
                #[trigger] body.blocks@[b],
            ),
{
    assert(crate::debug_scopes::describes_body(r, body));
    let views = location_views(r.locations@);
    let all = block_locations(body.blocks@, body.blocks@.len());
    let l = views[i];
    assert(l == r.locations@[i]@);
    assert(views.contains(l));
    assert(all.contains(l));
    let b = lemma_from_blocks(body.blocks@, body.blocks@.len(), l);
    let block = body.blocks@[b];
    if location_of(block.terminator).contains(l) {
        assert(is_location(r.locations@[i], block.terminator));
    } else {
        let s = lemma_from_statements(block.statements@, block.statements@.len(), l);
        assert(is_location(r.locations@[i], block.statements@[s]));
    }
    assert(comes_from(r.locations@[i], body.blocks@[b]));
}

/// Of two locations in one file the earlier one is listed first: by line, then by column,
/// then by scope. No location is listed twice.
pub proof fn locations_of_a_file_come_in_order(
    body: BodyInfo,
    r: DebugSourceScopeMap,
    i: int,
    j: int,
)
    requires
        call_ensures(build_debug_source_scope_map, (&body,), r),
        0 <= i < j < r.locations@.len(),
        r.locations@[i].pos.file@ == r.locations@[j].pos.file@,
    ensures
        ({
            let a = r.locations@[i];
            let b = r.locations@[j];
            ||| a.pos.line < b.pos.line
            ||| a.pos.line == b.pos.line && a.pos.column < b.pos.column
            ||| a.pos.line == b.pos.line && a.pos.column == b.pos.column && a.scope < b.scope
        }),
{
    assert(crate::debug_scopes::describes_body(r, body));
    let views = location_views(r.locations@);
    assert(views[i] == r.locations@[i]@ && views[j] == r.locations@[j]@);
    assert(crate::debug_scopes::location_less(views[i], views[j]));
}

}
