//! Ordering resolution for the related-records query: an explicit ordering
//! overrides the default, and paging backward reverses the SQL direction.
//! The layer above restores the caller-visible order; this core only emits
//! the reversed SQL order and flags that a reversal occurred.

use vstd::prelude::*;
use crate::ast::{Column, Order, OrderBy, SortOrder};

verus! {

/// The opposite sort direction.
pub open spec fn flip_direction(d: SortOrder) -> SortOrder {
    match d {
        SortOrder::Ascending => SortOrder::Descending,
        SortOrder::Descending => SortOrder::Ascending,
    }
}

/// The resolved ORDER BY list: the explicit ordering if one was requested,
/// else the given default column ascending; reversed when paging backward.
pub open spec fn resolved_ordering(
    default_column: Column,
    order_by: Option<OrderBy>,
    reverse: bool,
) -> Seq<Order> {
    match order_by {
        Some(o) => seq![
            Order {
                column: o.column,
                direction: if reverse {
                    flip_direction(o.sort_order)
                } else {
                    o.sort_order
                },
            },
        ],
        None => seq![
            Order {
                column: default_column,
                direction: if reverse {
                    SortOrder::Descending
                } else {
                    SortOrder::Ascending
                },
            },
        ],
    }
}

/// Resolve the effective ORDER BY columns for the related-records query.
pub fn internal_ordering(default_column: Column, order_by: &Option<OrderBy>, reverse: bool) -> (r:
    Vec<Order>)
    ensures
        r@ == resolved_ordering(default_column, *order_by, reverse),
{
    let mut out: Vec<Order> = Vec::new();
    match order_by {
        Option::Some(o) => {
            let direction = if reverse {
                match o.sort_order {
                    SortOrder::Ascending => SortOrder::Descending,
                    SortOrder::Descending => SortOrder::Ascending,
                }
            } else {
                o.sort_order
            };
            out.push(Order { column: o.column.clone(), direction });
        },
        Option::None => {
            let direction = if reverse {
                SortOrder::Descending
            } else {
                SortOrder::Ascending
            };
            out.push(Order { column: default_column, direction });
        },
    }
    proof {
        assert(out@ =~= resolved_ordering(default_column, *order_by, reverse));
    }
    out
}

} // verus!
