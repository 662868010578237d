//! Cursor conditions: a pagination cursor scopes the result strictly to one
//! side of the cursor row according to the current sort order, and reversing
//! the sort order flips the strict comparison's direction.

use vstd::prelude::*;
use crate::ast::{Column, Compare, ConditionTree};
use crate::values::{GraphqlId, PrismaValue};

verus! {

/// The strict comparison a cursor induces on the ordering column: rows after
/// the cursor under an ascending order lie above it, under a descending order
/// below it; rows before the cursor the other way round.
pub open spec fn cursor_compare(
    column: Column,
    id: GraphqlId,
    after: bool,
    descending: bool,
) -> Compare {
    if after != descending {
        Compare::GreaterThan(column, PrismaValue::GraphqlId(id))
    } else {
        Compare::LessThan(column, PrismaValue::GraphqlId(id))
    }
}

/// The condition tree both cursors of a query induce together: nothing without
/// a cursor, one strict comparison per cursor, conjoined when both are given.
pub open spec fn cursor_condition_spec(
    after: Option<GraphqlId>,
    before: Option<GraphqlId>,
    column: Column,
    descending: bool,
) -> ConditionTree {
    match (after, before) {
        (None, None) => ConditionTree::NoCondition,
        (Some(a), None) => ConditionTree::Single(cursor_compare(column, a, true, descending)),
        (None, Some(b)) => ConditionTree::Single(cursor_compare(column, b, false, descending)),
        (Some(a), Some(b)) => ConditionTree::And(
            Box::new(ConditionTree::Single(cursor_compare(column, a, true, descending))),
            Box::new(ConditionTree::Single(cursor_compare(column, b, false, descending))),
        ),
    }
}

fn build_compare(column: Column, id: GraphqlId, after: bool, descending: bool) -> (r: Compare)
    ensures
        r == cursor_compare(column, id, after, descending),
{
    if after != descending {
        Compare::GreaterThan(column, PrismaValue::GraphqlId(id))
    } else {
        Compare::LessThan(column, PrismaValue::GraphqlId(id))
    }
}

/// Build the cursor condition for the effective ordering direction of the
/// query: `descending` already accounts for a reversed paging order.
pub fn cursor_condition(
    after: Option<GraphqlId>,
    before: Option<GraphqlId>,
    column: Column,
    descending: bool,
) -> (r: ConditionTree)
    ensures
        r == cursor_condition_spec(after, before, column, descending),
{
    match (after, before) {
        (Option::None, Option::None) => ConditionTree::NoCondition,
        (Option::Some(a), Option::None) => ConditionTree::Single(
            build_compare(column, a, true, descending),
        ),
        (Option::None, Option::Some(b)) => ConditionTree::Single(
            build_compare(column, b, false, descending),
        ),
        (Option::Some(a), Option::Some(b)) => {
            let c1 = ConditionTree::Single(build_compare(column.clone(), a, true, descending));
            let c2 = ConditionTree::Single(build_compare(column, b, false, descending));
            ConditionTree::And(Box::new(c1), Box::new(c2))
        },
    }
}

/// The same comparison with its strictness direction flipped; equalities and
/// membership tests carry no direction and stay as they are.
pub open spec fn flip_compare(c: Compare) -> Compare {
    match c {
        Compare::GreaterThan(col, v) => Compare::LessThan(col, v),
        Compare::LessThan(col, v) => Compare::GreaterThan(col, v),
        Compare::Equals(col, v) => Compare::Equals(col, v),
        Compare::In(col, ids) => Compare::In(col, ids),
    }
}

/// A condition tree with every comparison's direction flipped.
pub open spec fn flip_tree(t: ConditionTree) -> ConditionTree
    decreases t,
{
    match t {
        ConditionTree::NoCondition => ConditionTree::NoCondition,
        ConditionTree::Single(c) => ConditionTree::Single(flip_compare(c)),
        ConditionTree::And(l, r) => ConditionTree::And(
            Box::new(flip_tree(*l)),
            Box::new(flip_tree(*r)),
        ),
    }
}

/// Law: for otherwise identical inputs, reversing the sort order flips the
/// comparison direction of every cursor condition.
pub proof fn lemma_cursor_flips_on_reverse(
    after: Option<GraphqlId>,
    before: Option<GraphqlId>,
    column: Column,
    descending: bool,
)
    ensures
        cursor_condition_spec(after, before, column, !descending) == flip_tree(
            cursor_condition_spec(after, before, column, descending),
        ),
{
    reveal_with_fuel(flip_tree, 3);
}

} // verus!
