//! The two pagination strategies over a related-records base query. Direct
//! pagination appends the resolved ordering and uses native LIMIT/OFFSET;
//! windowed pagination wraps the query in a row-number computation and keeps a
//! half-open range of row numbers. Both must select the same logical rows in
//! the same order, differing only in physical query shape.

use vstd::prelude::*;
use crate::ast::{Order, Select, TableRef, Window};
use crate::ordering::{internal_ordering, resolved_ordering};
use crate::related_nodes::{
    opposite_column_spec, window_limits_spec, QueryArguments, RelatedNodesBaseQuery,
};

verus! {

/// Well-formed window bounds: 1-based, non-empty direction, and small enough
/// that a native OFFSET/LIMIT (31-bit-plus counts) can express them. An upper
/// bound of `u64::MAX` means no take bound was requested.
pub open spec fn wf_window(w: (u64, u64)) -> bool {
    &&& 1 <= w.0
    &&& w.0 <= w.1
    &&& w.0 - 1 <= u32::MAX
    &&& (w.1 == u64::MAX || w.1 - w.0 <= u32::MAX)
}

/// Law: the window bounds the builder computes from any query arguments are
/// well formed, so every base query can be handed to a pagination strategy.
pub proof fn lemma_built_window_is_wf(args: QueryArguments)
    ensures
        wf_window(window_limits_spec(args)),
{
}

/// The 1-based half-open row-number range a paginated query keeps, whatever
/// its physical shape: the row-number window itself, or the range native
/// OFFSET/LIMIT keeps.
pub open spec fn logical_window(s: Select) -> (u64, u64) {
    match s.window {
        Some(w) => (w.start, w.end),
        None => {
            let off = (match s.offset {
                Some(o) => o,
                None => 0u32,
            }) as u64;
            match s.limit {
                Some(l) => ((off + 1) as u64, (off + l + 1) as u64),
                None => ((off + 1) as u64, u64::MAX),
            }
        },
    }
}

/// The ordering a paginated query applies to the logical row set: the wrapped
/// row-number ordering, or the query's own ORDER BY.
pub open spec fn logical_ordering(s: Select) -> Seq<Order> {
    match s.window {
        Some(w) => w.ordering@,
        None => s.ordering@,
    }
}

/// The rows with 1-based numbers in `[start, end)` out of an ordered row
/// sequence.
pub open spec fn window_rows<A>(rows: Seq<A>, start: int, end: int) -> Seq<A>
    recommends
        1 <= start <= end,
{
    let n = rows.len() as int;
    let lo = if start - 1 <= n {
        start - 1
    } else {
        n
    };
    let hi = if end - 1 <= n {
        end - 1
    } else {
        n
    };
    if lo <= hi {
        rows.subrange(lo, hi)
    } else {
        Seq::empty()
    }
}

/// The logical rows a paginated query selects from the ordered, unpaginated
/// row sequence of its base query.
pub open spec fn selected_rows<A>(s: Select, rows: Seq<A>) -> Seq<A> {
    window_rows(rows, logical_window(s).0 as int, logical_window(s).1 as int)
}

/// A pagination strategy: turns the assembled base query into the final query
/// for its dialect. Both methods leave the join, filter, requested columns and
/// table untouched; `with_pagination` additionally constrains the result to
/// the base query's requested window over the resolved ordering.
pub trait RelatedNodesQueryBuilder {
    /// The final paginated query: same logical row set and order for every
    /// strategy, physical shape per dialect.
    fn with_pagination(base: RelatedNodesBaseQuery) -> (r: Select)
        requires
            wf_window(base.window_limits),
            base.query.limit is None,
            base.query.offset is None,
            base.query.window is None,
        ensures
            r.table == base.query.table,
            r.columns@ == base.query.columns@,
            r.conditions == base.query.conditions,
            r.joins@ == base.query.joins@,
            logical_window(r) == base.window_limits,
            logical_ordering(r) == resolved_ordering(
                opposite_column_spec(base.from_field),
                base.order_by,
                base.is_reverse_order,
            ),
        ;

    /// The unpaginated query: the base query with the resolved ordering
    /// appended.
    fn without_pagination(base: RelatedNodesBaseQuery) -> (r: Select)
        ensures
            r.table == base.query.table,
            r.columns@ == base.query.columns@,
            r.conditions == base.query.conditions,
            r.joins@ == base.query.joins@,
            r.limit == base.query.limit,
            r.offset == base.query.offset,
            r.window == base.query.window,
            r.ordering@ == resolved_ordering(
                opposite_column_spec(base.from_field),
                base.order_by,
                base.is_reverse_order,
            ),
    {
        let default_column = base.from_field.opposite_column().table(TableRef::RelationAlias);
        let ordering = internal_ordering(default_column, &base.order_by, base.is_reverse_order);
        Select { ordering, ..base.query }
    }
}

/// Direct pagination, for dialects whose native LIMIT/OFFSET is correct for
/// joined result sets: the resolved ordering is appended to the query itself
/// and the window becomes OFFSET and LIMIT.
pub struct DirectPagination;

/// Windowed pagination, for dialects that cannot apply OFFSET reliably to a
/// joined or distinct selection: the query is wrapped, rows are numbered along
/// the resolved ordering, and the half-open row-number range is kept.
pub struct WindowedPagination;

impl RelatedNodesQueryBuilder for DirectPagination {
    fn with_pagination(base: RelatedNodesBaseQuery) -> (r: Select)
        ensures
            r.window is None,
            r.offset == Some((base.window_limits.0 - 1) as u32),
            base.window_limits.1 == u64::MAX ==> r.limit is None,
            base.window_limits.1 != u64::MAX ==> r.limit == Some(
                (base.window_limits.1 - base.window_limits.0) as u32,
            ),
            r.ordering@ == resolved_ordering(
                opposite_column_spec(base.from_field),
                base.order_by,
                base.is_reverse_order,
            ),
    {
        let (start, end) = base.window_limits;
        let offset: u32 = (start - 1) as u32;
        let limit: Option<u32> = if end == u64::MAX {
            Option::None
        } else {
            Option::Some((end - start) as u32)
        };
        let ordered = Self::without_pagination(base);
        Select { limit, offset: Option::Some(offset), ..ordered }
    }
}

impl RelatedNodesQueryBuilder for WindowedPagination {
    fn with_pagination(base: RelatedNodesBaseQuery) -> (r: Select)
        ensures
            r.limit is None,
            r.offset is None,
            r.ordering@ == base.query.ordering@,
            r.window matches Some(w) && {
                &&& w.start == base.window_limits.0
                &&& w.end == base.window_limits.1
                &&& w.ordering@ == resolved_ordering(
                    opposite_column_spec(base.from_field),
                    base.order_by,
                    base.is_reverse_order,
                )
            },
    {
        let (start, end) = base.window_limits;
        let default_column = base.from_field.opposite_column().table(TableRef::RelationAlias);
        let ordering = internal_ordering(default_column, &base.order_by, base.is_reverse_order);
        Select { window: Option::Some(Window { ordering, start, end }), ..base.query }
    }
}

/// The window rows a paginated query keeps, computed on real data: the
/// reference semantics tests hold both strategies against.
pub fn apply_window<T: Copy>(rows: Vec<T>, start: u64, end: u64) -> (r: Vec<T>)
    requires
        1 <= start <= end,
    ensures
        r@ == window_rows(rows@, start as int, end as int),
{
    let mut out: Vec<T> = Vec::new();
    let mut i: usize = 0;
    while i < rows.len()
        invariant
            i <= rows@.len(),
            1 <= start <= end,
            out@ =~= window_rows(rows@.take(i as int), start as int, end as int),
        decreases rows@.len() - i,
    {
        let number = (i as u64) + 1;
        if number >= start && number < end {
            out.push(rows[i]);
        }
        proof {
            assert(rows@.take(i + 1).drop_last() =~= rows@.take(i as int));
            assert(out@ =~= window_rows(rows@.take(i + 1), start as int, end as int));
        }
        i += 1;
    }
    proof {
        assert(rows@.take(rows@.len() as int) =~= rows@);
    }
    out
}

/// Law: for skip rows skipped and take rows requested, the window keeps at
/// most `take` rows, and exactly the (skip+1)-th through (skip+take)-th rows
/// of the logical ordering.
pub proof fn lemma_window_selects_requested_rows<A>(rows: Seq<A>, skip: u32, take: u32)
    ensures
        ({
            let w = window_rows(rows, skip + 1, skip + take + 1);
            &&& w.len() <= take
            &&& forall|i: int| 0 <= i < w.len() ==> w[i] == rows[skip + i]
            &&& (skip + take <= rows.len() ==> w.len() == take)
        }),
{
}

/// Law: a paginated query whose logical window asks to skip `skip` rows and
/// take `take` returns at most `take` rows, and exactly the (skip+1)-th
/// through (skip+take)-th rows of the logical ordering — whichever strategy
/// built it.
pub proof fn lemma_paginated_query_row_count<A>(s: Select, skip: u32, take: u32, rows: Seq<A>)
    requires
        logical_window(s) == (((skip + 1) as u64, (skip + take + 1) as u64)),
    ensures
        selected_rows(s, rows).len() <= take,
        forall|i: int|
            0 <= i < selected_rows(s, rows).len() ==> selected_rows(s, rows)[i] == rows[skip + i],
        skip + take <= rows.len() ==> selected_rows(s, rows).len() == take,
{
    lemma_window_selects_requested_rows(rows, skip, take);
}

/// Law: two paginated queries that keep the same logical window select the
/// same rows in the same order from any ordered row sequence, whatever their
/// physical shape; in particular the direct and the windowed strategy agree
/// on equivalent inputs.
pub proof fn lemma_strategies_agree<A>(a: Select, b: Select, rows: Seq<A>)
    requires
        logical_window(a) == logical_window(b),
    ensures
        selected_rows(a, rows) == selected_rows(b, rows),
{
}

} // verus!
