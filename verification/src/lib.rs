//! Core of a relational-database connector: typed row decoding, configuration
//! resolution, transaction-lifecycle decisions, and the related-records query
//! builder with pluggable pagination strategies.
//!
//! Everything that executes SQL or touches the network lives outside this
//! crate; this library computes the queries, the decisions, and the decoded
//! values, and states what it computes in contracts.

pub mod ast;
pub mod config;
pub mod cursor_condition;
pub mod error;
pub mod json;
pub mod ordering;
pub mod pagination;
pub mod related_nodes;
pub mod row;
pub mod transaction;
pub mod values;
