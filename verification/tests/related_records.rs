//! The related-records builder and the two pagination strategies: batch
//! membership, cursor direction, window bounds, and the agreement of the
//! direct and the windowed strategy on the logical row set.

use sql_connector::ast::{
    Column, Compare, ConditionTree, Order, OrderBy, SortOrder, TableRef,
};
use sql_connector::cursor_condition::cursor_condition;
use sql_connector::pagination::{
    apply_window, DirectPagination, RelatedNodesQueryBuilder, WindowedPagination,
};
use sql_connector::related_nodes::{
    QueryArguments, RelatedNodesBaseQuery, RelationField, SelectedFields,
};
use sql_connector::values::{GraphqlId, PrismaValue};

fn posts_field() -> RelationField {
    RelationField {
        related_model_table: "Post".to_string(),
        related_model_id_column: "id".to_string(),
        relation_table: "_AuthorToPost".to_string(),
        relation_column_name: "A".to_string(),
        opposite_column_name: "B".to_string(),
    }
}

fn no_arguments() -> QueryArguments {
    QueryArguments {
        skip: None,
        after: None,
        first: None,
        before: None,
        last: None,
        filter: None,
        order_by: None,
    }
}

fn selected() -> SelectedFields {
    SelectedFields {
        columns: vec![
            Column { table: None, name: "id".to_string() },
            Column { table: None, name: "title".to_string() },
        ],
    }
}

fn ids(ns: &[u64]) -> Vec<GraphqlId> {
    ns.iter().map(|n| GraphqlId::Int(*n)).collect()
}

fn parent_column() -> Column {
    Column { table: Some(TableRef::RelationAlias), name: "A".to_string() }
}

fn post_id_column() -> Column {
    Column { table: Some(TableRef::Model("Post".to_string())), name: "id".to_string() }
}

#[test]
fn membership_test_holds_exactly_the_batch() {
    let batch = ids(&[1, 2, 3]);
    let base = RelatedNodesBaseQuery::new(posts_field(), &batch, no_arguments(), selected());
    match &base.query.conditions {
        ConditionTree::And(fm, cur) => {
            assert_eq!(**cur, ConditionTree::NoCondition);
            match &**fm {
                ConditionTree::And(f, memb) => {
                    assert_eq!(**f, ConditionTree::NoCondition);
                    match &**memb {
                        ConditionTree::Single(Compare::In(col, in_ids)) => {
                            assert_eq!(*col, parent_column());
                            assert_eq!(*in_ids, ids(&[1, 2, 3]));
                        },
                        other => panic!("expected the batch membership test, got {:?}", other),
                    }
                },
                other => panic!("expected filter AND membership, got {:?}", other),
            }
        },
        other => panic!("expected a conjunction, got {:?}", other),
    }
}

#[test]
fn base_query_keeps_join_columns_and_flags() {
    let batch = ids(&[4]);
    let mut args = no_arguments();
    args.last = Some(3);
    let base = RelatedNodesBaseQuery::new(posts_field(), &batch, args, selected());
    assert!(base.is_reverse_order);
    assert_eq!(base.query.table, "Post");
    assert_eq!(base.query.columns, selected().columns);
    assert_eq!(base.query.joins.len(), 1);
    let join = &base.query.joins[0];
    assert_eq!(join.table, "_AuthorToPost");
    assert_eq!(join.alias, TableRef::RelationAlias);
    assert_eq!(join.left, post_id_column());
    assert_eq!(
        join.right,
        Column { table: Some(TableRef::RelationAlias), name: "B".to_string() }
    );
    assert!(base.query.ordering.is_empty());
    assert_eq!(base.query.limit, None);
    assert_eq!(base.query.offset, None);
    assert_eq!(base.query.window, None);
}

#[test]
fn cursor_comparison_flips_with_the_reverse_flag() {
    let forward = cursor_condition(Some(GraphqlId::Int(10)), None, post_id_column(), false);
    assert_eq!(
        forward,
        ConditionTree::Single(Compare::GreaterThan(
            post_id_column(),
            PrismaValue::GraphqlId(GraphqlId::Int(10)),
        ))
    );
    let reversed = cursor_condition(Some(GraphqlId::Int(10)), None, post_id_column(), true);
    assert_eq!(
        reversed,
        ConditionTree::Single(Compare::LessThan(
            post_id_column(),
            PrismaValue::GraphqlId(GraphqlId::Int(10)),
        ))
    );
}

#[test]
fn before_cursor_points_the_other_way() {
    let backward = cursor_condition(None, Some(GraphqlId::Int(7)), post_id_column(), false);
    assert_eq!(
        backward,
        ConditionTree::Single(Compare::LessThan(
            post_id_column(),
            PrismaValue::GraphqlId(GraphqlId::Int(7)),
        ))
    );
}

#[test]
fn filter_membership_and_cursor_conjoin_in_order() {
    let batch = ids(&[1, 2]);
    let status_filter = || {
        ConditionTree::Single(Compare::Equals(
            Column { table: None, name: "status".to_string() },
            PrismaValue::String("published".to_string()),
        ))
    };
    let mut args = no_arguments();
    args.filter = Some(status_filter());
    args.after = Some(GraphqlId::Int(10));
    let base = RelatedNodesBaseQuery::new(posts_field(), &batch, args, selected());
    let expected = ConditionTree::And(
        Box::new(ConditionTree::And(
            Box::new(status_filter()),
            Box::new(ConditionTree::Single(Compare::In(parent_column(), ids(&[1, 2])))),
        )),
        Box::new(ConditionTree::Single(Compare::GreaterThan(
            post_id_column(),
            PrismaValue::GraphqlId(GraphqlId::Int(10)),
        ))),
    );
    assert_eq!(base.query.conditions, expected);
}

#[test]
fn window_bounds_are_one_based_and_half_open() {
    let mut args = no_arguments();
    args.skip = Some(1);
    args.first = Some(2);
    assert_eq!(args.window_limits(), (2, 4));
    let mut unbounded = no_arguments();
    unbounded.skip = Some(3);
    assert_eq!(unbounded.window_limits(), (4, u64::MAX));
    let mut last_page = no_arguments();
    last_page.last = Some(2);
    assert_eq!(last_page.window_limits(), (1, 3));
}

#[test]
fn an_unbounded_window_has_no_limit() {
    let mut args = no_arguments();
    args.skip = Some(2);
    let base = RelatedNodesBaseQuery::new(posts_field(), &ids(&[1]), args, selected());
    let direct = DirectPagination::with_pagination(base);
    assert_eq!(direct.offset, Some(2));
    assert_eq!(direct.limit, None);

    let mut args_again = no_arguments();
    args_again.skip = Some(2);
    let base = RelatedNodesBaseQuery::new(posts_field(), &ids(&[1]), args_again, selected());
    let windowed = WindowedPagination::with_pagination(base);
    let window = windowed.window.unwrap();
    assert_eq!((window.start, window.end), (3, u64::MAX));
}

#[test]
fn both_strategies_page_the_same_example() {
    let batch = ids(&[1, 2]);
    let mut args = no_arguments();
    args.order_by = Some(OrderBy {
        column: Column { table: None, name: "createdAt".to_string() },
        sort_order: SortOrder::Ascending,
    });
    args.skip = Some(1);
    args.first = Some(2);

    let windowed = WindowedPagination::with_pagination(RelatedNodesBaseQuery::new(
        posts_field(),
        &batch,
        args,
        selected(),
    ));
    assert!(windowed.ordering.is_empty());
    let window = windowed.window.unwrap();
    assert_eq!((window.start, window.end), (2, 4));
    assert_eq!(
        window.ordering,
        vec![Order {
            column: Column { table: None, name: "createdAt".to_string() },
            direction: SortOrder::Ascending,
        }]
    );

    let mut args_again = no_arguments();
    args_again.order_by = Some(OrderBy {
        column: Column { table: None, name: "createdAt".to_string() },
        sort_order: SortOrder::Ascending,
    });
    args_again.skip = Some(1);
    args_again.first = Some(2);
    let direct = DirectPagination::with_pagination(RelatedNodesBaseQuery::new(
        posts_field(),
        &batch,
        args_again,
        selected(),
    ));
    assert_eq!(direct.offset, Some(1));
    assert_eq!(direct.limit, Some(2));
    assert_eq!(direct.window, None);
    assert_eq!(direct.ordering, window.ordering);

    // The same logical rows either way: rows 2 and 3 of the ordering.
    let rows = vec![11u64, 22, 33, 44];
    let by_window = apply_window(rows.clone(), window.start, window.end);
    let by_offset: Vec<u64> = rows
        .iter()
        .skip(direct.offset.unwrap() as usize)
        .take(direct.limit.unwrap() as usize)
        .copied()
        .collect();
    assert_eq!(by_window, vec![22, 33]);
    assert_eq!(by_window, by_offset);
}

#[test]
fn window_keeps_at_most_take_rows() {
    let rows = vec![1u64, 2, 3];
    assert_eq!(apply_window(rows.clone(), 3, 8), vec![3]);
    assert_eq!(apply_window(rows.clone(), 4, 8), Vec::<u64>::new());
    assert_eq!(apply_window(rows, 1, 3), vec![1, 2]);
}

#[test]
fn default_ordering_is_the_key_column_ascending_and_reversal_flips_it() {
    let batch = ids(&[1]);
    let base = RelatedNodesBaseQuery::new(posts_field(), &batch, no_arguments(), selected());
    let plain = DirectPagination::without_pagination(base);
    assert_eq!(
        plain.ordering,
        vec![Order {
            column: Column { table: Some(TableRef::RelationAlias), name: "B".to_string() },
            direction: SortOrder::Ascending,
        }]
    );

    let mut args = no_arguments();
    args.last = Some(2);
    let reversed_base = RelatedNodesBaseQuery::new(posts_field(), &batch, args, selected());
    let reversed = WindowedPagination::without_pagination(reversed_base);
    assert_eq!(
        reversed.ordering,
        vec![Order {
            column: Column { table: Some(TableRef::RelationAlias), name: "B".to_string() },
            direction: SortOrder::Descending,
        }]
    );
}

#[test]
fn explicit_descending_order_with_reverse_paging_turns_ascending() {
    let batch = ids(&[1]);
    let mut args = no_arguments();
    args.order_by = Some(OrderBy {
        column: Column { table: None, name: "createdAt".to_string() },
        sort_order: SortOrder::Descending,
    });
    args.last = Some(1);
    let base = RelatedNodesBaseQuery::new(posts_field(), &batch, args, selected());
    let q = DirectPagination::without_pagination(base);
    assert_eq!(q.ordering[0].direction, SortOrder::Ascending);
}
