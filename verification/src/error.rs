//! The connector's error taxonomy. Every fallible step returns one of these;
//! no step swallows an error silently.

use vstd::prelude::*;
use crate::values::RawValue;

verus! {

/// What can go wrong in the connector core.
#[derive(PartialEq, Eq, Debug)]
pub enum SqlError {
    /// Malformed configuration, unreachable host, or a pool that cannot be
    /// sized. Fatal to the connect call; never retried internally.
    ConnectionError(String),
    /// Statement compilation or execution failed; the enclosing transaction is
    /// not committed.
    QueryError(String),
    /// A raw column value cannot be converted to its declared domain type.
    /// Carries the offending raw value for diagnostics.
    DecodeError(RawValue),
    /// Raw/arbitrary SQL passthrough, which this core deliberately refuses.
    UnsupportedOperation,
}

} // verus!
