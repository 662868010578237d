//! The domain value model: the tagged union of values the query engine
//! understands, the raw column values a database driver hands back, and the
//! typed row container.

use vstd::prelude::*;

verus! {

/// Tag describing which domain type a column's raw value decodes to.
///
/// The decoder never infers the type from the raw value itself; the caller
/// supplies one of these per requested column.
#[derive(Clone, Copy, PartialEq, Eq, Structural, Debug)]
pub enum TypeIdentifier {
    String,
    GraphQLID,
    Relation,
    Float,
    Int,
    Boolean,
    Enum,
    Json,
    UUID,
    DateTime,
}

/// An opaque record identifier: auto-increment counter, text key, or UUID.
#[derive(PartialEq, Eq, Debug)]
pub enum GraphqlId {
    Int(u64),
    Text(String),
    Uuid(u128),
}

impl Clone for GraphqlId {
    fn clone(&self) -> (r: Self)
        ensures
            r == *self,
    {
        match self {
            GraphqlId::Int(i) => GraphqlId::Int(*i),
            GraphqlId::Text(s) => GraphqlId::Text(s.clone()),
            GraphqlId::Uuid(u) => GraphqlId::Uuid(*u),
        }
    }
}

/// A single field's value, independent of SQL dialect. `Null` is a first-class
/// variant, never conflated with absence.
///
/// `Float` carries the IEEE 754 bit pattern of the 64-bit value: the connector
/// moves floats around without ever computing on them. `DateTime` is a UTC
/// instant in milliseconds since the epoch; `Uuid` is the 128-bit value.
#[derive(PartialEq, Debug)]
pub enum PrismaValue {
    Null,
    String(String),
    GraphqlId(GraphqlId),
    Int(i64),
    Float(u64),
    Boolean(bool),
    Enum(String),
    Json(serde_json::Value),
    Uuid(u128),
    DateTime(i64),
}

/// A raw column value as a database driver reports it, before any
/// type-directed decoding. `Null` stands for SQL NULL / driver-level absence.
///
/// `Float` carries the IEEE 754 bit pattern; `Timestamp` is milliseconds since
/// the epoch of the dialect's native timestamp read as UTC.
#[derive(PartialEq, Eq, Debug)]
pub enum RawValue {
    Null,
    Text(String),
    Integer(i64),
    Float(u64),
    Boolean(bool),
    Uuid(u128),
    Timestamp(i64),
}

impl Clone for RawValue {
    fn clone(&self) -> (r: Self)
        ensures
            r == *self,
    {
        match self {
            RawValue::Null => RawValue::Null,
            RawValue::Text(s) => RawValue::Text(s.clone()),
            RawValue::Integer(i) => RawValue::Integer(*i),
            RawValue::Float(b) => RawValue::Float(*b),
            RawValue::Boolean(b) => RawValue::Boolean(*b),
            RawValue::Uuid(u) => RawValue::Uuid(*u),
            RawValue::Timestamp(t) => RawValue::Timestamp(*t),
        }
    }
}

/// One raw database row: the driver's column values in result order.
#[derive(PartialEq, Eq, Debug)]
pub struct RawRow {
    pub values: Vec<RawValue>,
}

/// One decoded row: domain values positionally aligned with the type
/// identifiers used to decode them.
#[derive(PartialEq, Debug)]
pub struct SqlRow {
    pub values: Vec<PrismaValue>,
}

} // verus!
