//! The dialect-independent query model this core builds and reasons about.
//! Compiling it to SQL text and a parameter list is the per-dialect visitor's
//! job, outside this crate; here the query is plain data with plain structure,
//! so contracts can pin down exactly what was built.

use vstd::prelude::*;
use crate::values::{GraphqlId, PrismaValue};

verus! {

/// What a column is qualified by: a concrete table of the model, or the fixed
/// alias the related-records builder gives the relation's join table. The
/// alias's name is a rendering concern of the SQL visitor.
#[derive(PartialEq, Eq, Debug)]
pub enum TableRef {
    Model(String),
    RelationAlias,
}

impl Clone for TableRef {
    fn clone(&self) -> (r: Self)
        ensures
            r == *self,
    {
        match self {
            TableRef::Model(s) => TableRef::Model(s.clone()),
            TableRef::RelationAlias => TableRef::RelationAlias,
        }
    }
}

/// A column, optionally qualified by a table or alias.
#[derive(PartialEq, Eq, Debug)]
pub struct Column {
    pub table: Option<TableRef>,
    pub name: String,
}

impl Clone for Column {
    fn clone(&self) -> (r: Self)
        ensures
            r == *self,
    {
        Column {
            table: match &self.table {
                Option::Some(t) => Option::Some(t.clone()),
                Option::None => Option::None,
            },
            name: self.name.clone(),
        }
    }
}

impl Column {
    /// Qualify this column by a table or alias.
    pub fn table(self, t: TableRef) -> (r: Column)
        ensures
            r == (Column { table: Some(t), name: self.name }),
    {
        Column { table: Some(t), name: self.name }
    }
}

/// One comparison, the leaves of a condition tree.
#[derive(PartialEq, Debug)]
pub enum Compare {
    Equals(Column, PrismaValue),
    In(Column, Vec<GraphqlId>),
    GreaterThan(Column, PrismaValue),
    LessThan(Column, PrismaValue),
}

/// A composable boolean expression over comparisons: what a WHERE clause is
/// built from. This core only ever composes conjunctions.
#[derive(PartialEq, Debug)]
pub enum ConditionTree {
    NoCondition,
    Single(Compare),
    And(Box<ConditionTree>, Box<ConditionTree>),
}

impl ConditionTree {
    /// Conjoin two condition trees.
    pub fn and(self, other: ConditionTree) -> (r: ConditionTree)
        ensures
            r == ConditionTree::And(Box::new(self), Box::new(other)),
    {
        ConditionTree::And(Box::new(self), Box::new(other))
    }
}

/// Sort direction of one ordering column.
#[derive(Clone, Copy, PartialEq, Eq, Structural, Debug)]
pub enum SortOrder {
    Ascending,
    Descending,
}

/// An explicit ordering requested by the caller.
#[derive(PartialEq, Eq, Debug)]
pub struct OrderBy {
    pub column: Column,
    pub sort_order: SortOrder,
}

/// One resolved ORDER BY entry.
#[derive(PartialEq, Eq, Debug)]
pub struct Order {
    pub column: Column,
    pub direction: SortOrder,
}

/// An inner join of one table (under an alias) on an equality of two columns.
#[derive(PartialEq, Eq, Debug)]
pub struct Join {
    pub table: String,
    pub alias: TableRef,
    pub left: Column,
    pub right: Column,
}

/// The row-number wrapper of windowed pagination: the wrapped query's rows are
/// numbered from one along `ordering`, and rows with numbers in the half-open
/// range `[start, end)` are kept.
#[derive(PartialEq, Eq, Debug)]
pub struct Window {
    pub ordering: Vec<Order>,
    pub start: u64,
    pub end: u64,
}

/// A SELECT: requested columns from a table, joins, a WHERE condition tree,
/// an ORDER BY list, native LIMIT/OFFSET bounds, and an optional row-number
/// window wrapper. At most one of the two pagination mechanisms is ever set.
#[derive(PartialEq, Debug)]
pub struct Select {
    pub table: String,
    pub columns: Vec<Column>,
    pub conditions: ConditionTree,
    pub joins: Vec<Join>,
    pub ordering: Vec<Order>,
    pub limit: Option<u32>,
    pub offset: Option<u32>,
    pub window: Option<Window>,
}

} // verus!
