//! The related-records base query: for a relation field and a batch of parent
//! identifiers, the join, the WHERE conjunction (caller filter, batch
//! membership, cursor condition) and the resolved paging inputs, assembled
//! once and consumed by a pagination strategy.

use vstd::prelude::*;
use crate::ast::{
    Column, Compare, ConditionTree, Join, Order, OrderBy, Select, SortOrder, TableRef, Window,
};
use crate::cursor_condition::{cursor_condition, cursor_condition_spec};
use crate::values::GraphqlId;

verus! {

/// The slice of the domain schema the builder reads about one relation field:
/// the related model's table and primary key, and the relation's join table
/// with its two foreign-key columns.
#[derive(PartialEq, Eq, Debug)]
pub struct RelationField {
    /// The related model's table.
    pub related_model_table: String,
    /// The related model's primary-key column.
    pub related_model_id_column: String,
    /// The relation's join table.
    pub relation_table: String,
    /// Join-table column holding the parent-side identifier.
    pub relation_column_name: String,
    /// Join-table column holding the related-side identifier.
    pub opposite_column_name: String,
}

/// The join-table column holding the parent-side identifier, under the fixed
/// relation-table alias.
pub open spec fn relation_column_spec(f: RelationField) -> Column {
    Column { table: Some(TableRef::RelationAlias), name: f.relation_column_name }
}

/// The join-table column holding the related-side identifier, under the fixed
/// relation-table alias.
pub open spec fn opposite_column_spec(f: RelationField) -> Column {
    Column { table: Some(TableRef::RelationAlias), name: f.opposite_column_name }
}

/// The related model's primary-key column, qualified by its table.
pub open spec fn id_column_spec(f: RelationField) -> Column {
    Column { table: Some(TableRef::Model(f.related_model_table)), name: f.related_model_id_column }
}

/// The join the builder emits: the relation's join table, under the fixed
/// alias, on the related model's primary key equalling the join table's
/// related-side column.
pub open spec fn join_spec(f: RelationField) -> Join {
    Join {
        table: f.relation_table,
        alias: TableRef::RelationAlias,
        left: id_column_spec(f),
        right: opposite_column_spec(f),
    }
}

impl RelationField {
    /// The join-table column holding the parent-side identifier, unqualified.
    pub fn relation_column(&self) -> (r: Column)
        ensures
            r == (Column { table: None::<TableRef>, name: self.relation_column_name }),
    {
        Column { table: None, name: self.relation_column_name.clone() }
    }

    /// The join-table column holding the related-side identifier, unqualified.
    pub fn opposite_column(&self) -> (r: Column)
        ensures
            r == (Column { table: None::<TableRef>, name: self.opposite_column_name }),
    {
        Column { table: None, name: self.opposite_column_name.clone() }
    }

    /// The related model's primary-key column, qualified by its table.
    pub fn id_column(&self) -> (r: Column)
        ensures
            r == id_column_spec(*self),
    {
        Column {
            table: Some(TableRef::Model(self.related_model_table.clone())),
            name: self.related_model_id_column.clone(),
        }
    }
}

/// The output columns the caller asked for.
#[derive(PartialEq, Eq, Debug)]
pub struct SelectedFields {
    pub columns: Vec<Column>,
}

impl SelectedFields {
    /// The requested output columns, in request order.
    pub fn columns(&self) -> (r: Vec<Column>)
        ensures
            r@ == self.columns@,
    {
        let mut out: Vec<Column> = Vec::new();
        let mut i: usize = 0;
        while i < self.columns.len()
            invariant
                i <= self.columns@.len(),
                out@ =~= self.columns@.take(i as int),
            decreases self.columns@.len() - i,
        {
            out.push(self.columns[i].clone());
            i += 1;
        }
        proof {
            assert(out@ =~= self.columns@);
        }
        out
    }
}

/// The caller's query arguments: pagination request (skip, first/last, the two
/// cursors), an arbitrary filter already translated to a condition tree, and
/// an optional explicit ordering.
#[derive(PartialEq, Debug)]
pub struct QueryArguments {
    pub skip: Option<u32>,
    pub after: Option<GraphqlId>,
    pub first: Option<u32>,
    pub before: Option<GraphqlId>,
    pub last: Option<u32>,
    pub filter: Option<ConditionTree>,
    pub order_by: Option<OrderBy>,
}

/// The window bounds the arguments ask for: inclusive-exclusive `[start, end)`
/// over 1-based row numbers. Skipping `s` rows and taking `t` keeps numbers
/// `[s + 1, s + t + 1)`; without a take bound the window is open-ended above.
pub open spec fn window_limits_spec(args: QueryArguments) -> (u64, u64) {
    let skip = (match args.skip {
        Some(s) => s,
        None => 0u32,
    }) as u64;
    match (if args.last is Some {
        args.last
    } else {
        args.first
    }) {
        Some(t) => ((skip + 1) as u64, (skip + t + 1) as u64),
        None => ((skip + 1) as u64, u64::MAX),
    }
}

/// Whether the effective ordering of the query runs descending: the explicit
/// sort order (default ascending), flipped when paging backward.
pub open spec fn effective_descending(order_by: Option<OrderBy>, reverse: bool) -> bool {
    (match order_by {
        Some(o) => o.sort_order is Descending,
        None => false,
    }) != reverse
}

impl QueryArguments {
    /// The row-number window `[start, end)` these arguments ask for.
    pub fn window_limits(&self) -> (r: (u64, u64))
        ensures
            r == window_limits_spec(*self),
    {
        let skip: u64 = match self.skip {
            Option::Some(s) => s as u64,
            Option::None => 0,
        };
        let take = if self.last.is_some() {
            self.last
        } else {
            self.first
        };
        match take {
            Option::Some(t) => (skip + 1, skip + (t as u64) + 1),
            Option::None => (skip + 1, u64::MAX),
        }
    }
}

/// The fully assembled intermediate representation of one related-records
/// fetch: built once from the batch and the arguments, consumed by a
/// pagination strategy, never mutated.
#[derive(PartialEq, Debug)]
pub struct RelatedNodesBaseQuery {
    pub from_field: RelationField,
    pub selected_fields: SelectedFields,
    pub query: Select,
    pub order_by: Option<OrderBy>,
    pub is_reverse_order: bool,
    pub window_limits: (u64, u64),
}

fn clone_ids(ids: &[GraphqlId]) -> (r: Vec<GraphqlId>)
    ensures
        r@ == ids@,
{
    let mut out: Vec<GraphqlId> = Vec::new();
    let mut i: usize = 0;
    while i < ids.len()
        invariant
            i <= ids@.len(),
            out@ =~= ids@.take(i as int),
        decreases ids@.len() - i,
    {
        out.push(ids[i].clone());
        i += 1;
    }
    proof {
        assert(out@ =~= ids@);
    }
    out
}

impl RelatedNodesBaseQuery {
    /// Assemble the base query for fetching the related records of `from_field`
    /// for every parent in `from_node_ids` in one round trip.
    ///
    /// The WHERE clause is the conjunction, in this order, of the caller's
    /// filter (no condition when absent), the batch membership test — the
    /// join table's parent-side column `IN` exactly the given identifiers —
    /// and the cursor condition for the effective ordering direction.
    pub fn new(
        from_field: RelationField,
        from_node_ids: &[GraphqlId],
        query_arguments: QueryArguments,
        selected_fields: SelectedFields,
    ) -> (result: RelatedNodesBaseQuery)
        ensures
            result.from_field == from_field,
            result.selected_fields == selected_fields,
            result.order_by == query_arguments.order_by,
            result.is_reverse_order == (query_arguments.last is Some),
            result.window_limits == window_limits_spec(query_arguments),
            result.query.table == from_field.related_model_table,
            result.query.columns@ == selected_fields.columns@,
            result.query.joins@ =~= seq![join_spec(from_field)],
            result.query.ordering@ == Seq::<Order>::empty(),
            result.query.limit is None,
            result.query.offset is None,
            result.query.window is None,
            result.query.conditions matches ConditionTree::And(fm, cur) && {
                &&& *cur == cursor_condition_spec(
                    query_arguments.after,
                    query_arguments.before,
                    id_column_spec(from_field),
                    effective_descending(
                        query_arguments.order_by,
                        query_arguments.last is Some,
                    ),
                )
                &&& *fm matches ConditionTree::And(f, memb) && {
                    &&& *f == (match query_arguments.filter {
                        Some(t) => t,
                        None => ConditionTree::NoCondition,
                    })
                    &&& *memb matches ConditionTree::Single(cmp) && cmp matches Compare::In(
                        col,
                        ids,
                    ) && col == relation_column_spec(from_field) && ids@ == from_node_ids@
                }
            },
    {
        let window_limits = query_arguments.window_limits();
        let is_reverse_order = query_arguments.last.is_some();
        let descending = (match &query_arguments.order_by {
            Option::Some(o) => matches!(o.sort_order, SortOrder::Descending),
            Option::None => false,
        }) != is_reverse_order;
        let QueryArguments { skip: _, after, first: _, before, last: _, filter, order_by } =
            query_arguments;

        let cursor = cursor_condition(after, before, from_field.id_column(), descending);
        let base_condition = match filter {
            Option::Some(f) => f,
            Option::None => ConditionTree::NoCondition,
        };
        let relation_column = from_field.relation_column().table(TableRef::RelationAlias);
        let opposite_column = from_field.opposite_column().table(TableRef::RelationAlias);
        let membership = ConditionTree::Single(Compare::In(relation_column, clone_ids(from_node_ids)));
        let conditions = base_condition.and(membership).and(cursor);

        let join = Join {
            table: from_field.relation_table.clone(),
            alias: TableRef::RelationAlias,
            left: from_field.id_column(),
            right: opposite_column,
        };

        let query = Select {
            table: from_field.related_model_table.clone(),
            columns: selected_fields.columns(),
            conditions,
            joins: vec![join],
            ordering: Vec::new(),
            limit: Option::None,
            offset: Option::None,
            window: Option::None,
        };

        RelatedNodesBaseQuery {
            from_field,
            selected_fields,
            query,
            order_by,
            is_reverse_order,
            window_limits,
        }
    }
}

} // verus!
