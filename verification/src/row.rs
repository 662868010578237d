//! Type-directed row decoding: from a raw database row plus an ordered list of
//! expected column types to a domain row, and the reverse direction for values
//! that can be written back as parameters.

use vstd::prelude::*;
use crate::error::SqlError;
use crate::json::{json_parses, parse_json};
use crate::values::{GraphqlId, PrismaValue, RawRow, RawValue, SqlRow, TypeIdentifier};

verus! {

/// What a raw value decodes to when read as an identifier: the dialect's
/// native representation (text key, non-negative counter, or UUID), wrapped as
/// an opaque identifier.
pub open spec fn id_decodes_to(raw: RawValue, v: PrismaValue) -> bool {
    ||| raw matches RawValue::Text(s) && v == PrismaValue::GraphqlId(GraphqlId::Text(s))
    ||| raw matches RawValue::Integer(i) && i >= 0 && v == PrismaValue::GraphqlId(
        GraphqlId::Int(i as u64),
    )
    ||| raw matches RawValue::Uuid(u) && v == PrismaValue::GraphqlId(GraphqlId::Uuid(u))
}

/// Whether `raw`, declared as `typid`, has a decoding at all. NULL always
/// does; otherwise the raw value must have the shape the declared type asks
/// for, and a JSON text must parse.
pub open spec fn decodable(raw: RawValue, typid: TypeIdentifier) -> bool {
    raw is Null || (match typid {
        TypeIdentifier::String => raw is Text,
        TypeIdentifier::GraphQLID | TypeIdentifier::Relation => {
            ||| raw is Text
            ||| raw matches RawValue::Integer(i) && i >= 0
            ||| raw is Uuid
        },
        TypeIdentifier::Float => raw is Float,
        TypeIdentifier::Int => raw is Integer,
        TypeIdentifier::Boolean => raw is Boolean,
        TypeIdentifier::Enum => raw is Text,
        TypeIdentifier::Json => raw matches RawValue::Text(s) && json_parses(s@),
        TypeIdentifier::UUID => raw is Uuid,
        TypeIdentifier::DateTime => raw is Timestamp,
    })
}

/// The decoding relation: `v` is the domain value for `raw` declared as
/// `typid`. A NULL raw value decodes to `Null` whatever the declared type.
/// Every case but JSON pins the value exactly; a JSON document is opaque
/// here, so that case pins only the variant.
pub open spec fn decodes_to(raw: RawValue, typid: TypeIdentifier, v: PrismaValue) -> bool {
    if raw is Null {
        v == PrismaValue::Null
    } else {
        match typid {
            TypeIdentifier::String => raw matches RawValue::Text(s) && v == PrismaValue::String(s),
            TypeIdentifier::GraphQLID | TypeIdentifier::Relation => id_decodes_to(raw, v),
            TypeIdentifier::Float => raw matches RawValue::Float(b) && v == PrismaValue::Float(b),
            TypeIdentifier::Int => raw matches RawValue::Integer(i) && v == PrismaValue::Int(i),
            TypeIdentifier::Boolean => raw matches RawValue::Boolean(b) && v
                == PrismaValue::Boolean(b),
            TypeIdentifier::Enum => raw matches RawValue::Text(s) && v == PrismaValue::Enum(s),
            TypeIdentifier::Json => raw matches RawValue::Text(s) && json_parses(s@) && v matches
                PrismaValue::Json(_),
            TypeIdentifier::UUID => raw matches RawValue::Uuid(u) && v == PrismaValue::Uuid(u),
            TypeIdentifier::DateTime => raw matches RawValue::Timestamp(t) && v
                == PrismaValue::DateTime(t),
        }
    }
}

/// Decode one raw column value as the declared type. Exactly the decodable
/// values succeed; a failure carries the offending raw value.
pub fn decode_value(raw: RawValue, typid: TypeIdentifier) -> (r: Result<PrismaValue, SqlError>)
    ensures
        r is Ok <==> decodable(raw, typid),
        r matches Ok(v) ==> decodes_to(raw, typid, v),
        r matches Err(e) ==> e == SqlError::DecodeError(raw),
{
    if let RawValue::Null = raw {
        return Ok(PrismaValue::Null);
    }
    match typid {
        TypeIdentifier::String => match raw {
            RawValue::Text(s) => Ok(PrismaValue::String(s)),
            other => Err(SqlError::DecodeError(other)),
        },
        TypeIdentifier::GraphQLID | TypeIdentifier::Relation => match raw {
            RawValue::Text(s) => Ok(PrismaValue::GraphqlId(GraphqlId::Text(s))),
            RawValue::Integer(i) => if i >= 0 {
                Ok(PrismaValue::GraphqlId(GraphqlId::Int(i as u64)))
            } else {
                Err(SqlError::DecodeError(RawValue::Integer(i)))
            },
            RawValue::Uuid(u) => Ok(PrismaValue::GraphqlId(GraphqlId::Uuid(u))),
            other => Err(SqlError::DecodeError(other)),
        },
        TypeIdentifier::Float => match raw {
            RawValue::Float(b) => Ok(PrismaValue::Float(b)),
            other => Err(SqlError::DecodeError(other)),
        },
        TypeIdentifier::Int => match raw {
            RawValue::Integer(i) => Ok(PrismaValue::Int(i)),
            other => Err(SqlError::DecodeError(other)),
        },
        TypeIdentifier::Boolean => match raw {
            RawValue::Boolean(b) => Ok(PrismaValue::Boolean(b)),
            other => Err(SqlError::DecodeError(other)),
        },
        TypeIdentifier::Enum => match raw {
            RawValue::Text(s) => Ok(PrismaValue::Enum(s)),
            other => Err(SqlError::DecodeError(other)),
        },
        TypeIdentifier::Json => match raw {
            RawValue::Text(s) => match parse_json(s.as_str()) {
                Some(doc) => Ok(PrismaValue::Json(doc)),
                None => Err(SqlError::DecodeError(RawValue::Text(s))),
            },
            other => Err(SqlError::DecodeError(other)),
        },
        TypeIdentifier::UUID => match raw {
            RawValue::Uuid(u) => Ok(PrismaValue::Uuid(u)),
            other => Err(SqlError::DecodeError(other)),
        },
        TypeIdentifier::DateTime => match raw {
            RawValue::Timestamp(t) => Ok(PrismaValue::DateTime(t)),
            other => Err(SqlError::DecodeError(other)),
        },
    }
}

impl RawRow {
    /// Decode this row positionally: one domain value per requested type
    /// identifier, in column order. Decoding is total over the requested
    /// columns; a length mismatch between raw values and identifiers is a
    /// programming error, ruled out by the precondition. The first column that
    /// cannot be decoded aborts the row and is carried in the error.
    pub fn to_prisma_row(&self, idents: &Vec<TypeIdentifier>) -> (r: Result<SqlRow, SqlError>)
        requires
            self.values@.len() == idents@.len(),
        ensures
            r is Ok <==> (forall|k: int|
                0 <= k < idents@.len() ==> decodable(self.values@[k], #[trigger] idents@[k])),
            r matches Ok(row) ==> {
                &&& row.values@.len() == idents@.len()
                &&& forall|k: int|
                    0 <= k < idents@.len() ==> decodes_to(
                        self.values@[k],
                        idents@[k],
                        #[trigger] row.values@[k],
                    )
            },
            r matches Err(e) ==> exists|j: int|
                {
                    &&& 0 <= j < idents@.len()
                    &&& !decodable(self.values@[j], #[trigger] idents@[j])
                    &&& forall|k: int| 0 <= k < j ==> decodable(self.values@[k], #[trigger] idents@[k])
                    &&& e == SqlError::DecodeError(self.values@[j])
                },
    {
        let mut out: Vec<PrismaValue> = Vec::new();
        let mut i: usize = 0;
        let n = idents.len();
        while i < n
            invariant
                i <= n,
                n == idents@.len(),
                self.values@.len() == n,
                out@.len() == i,
                forall|k: int| 0 <= k < i ==> decodable(self.values@[k], #[trigger] idents@[k]),
                forall|k: int|
                    0 <= k < i ==> decodes_to(self.values@[k], idents@[k], #[trigger] out@[k]),
            decreases n - i,
        {
            let rv = self.values[i].clone();
            match decode_value(rv, idents[i]) {
                Ok(v) => out.push(v),
                Err(e) => {
                    proof {
                        assert(!decodable(self.values@[i as int], idents@[i as int]));
                    }
                    return Err(e);
                },
            }
            i += 1;
        }
        Ok(SqlRow { values: out })
    }
}

/// Whether a domain value's variant is the one its declared type decodes to.
pub open spec fn value_matches_type(v: PrismaValue, typid: TypeIdentifier) -> bool {
    match typid {
        TypeIdentifier::String => v is String,
        TypeIdentifier::GraphQLID | TypeIdentifier::Relation => v is GraphqlId,
        TypeIdentifier::Float => v is Float,
        TypeIdentifier::Int => v is Int,
        TypeIdentifier::Boolean => v is Boolean,
        TypeIdentifier::Enum => v is Enum,
        TypeIdentifier::Json => v is Json,
        TypeIdentifier::UUID => v is Uuid,
        TypeIdentifier::DateTime => v is DateTime,
    }
}

/// The raw parameter value a domain value is written back as, when one
/// exists. A JSON document is opaque here and has no encoding in this core;
/// an integer identifier above the signed range has none either.
pub open spec fn encode_spec(v: PrismaValue) -> Option<RawValue> {
    match v {
        PrismaValue::Null => Some(RawValue::Null),
        PrismaValue::String(s) => Some(RawValue::Text(s)),
        PrismaValue::GraphqlId(id) => match id {
            GraphqlId::Int(i) => if i <= i64::MAX as u64 {
                Some(RawValue::Integer(i as i64))
            } else {
                None
            },
            GraphqlId::Text(s) => Some(RawValue::Text(s)),
            GraphqlId::Uuid(u) => Some(RawValue::Uuid(u)),
        },
        PrismaValue::Int(i) => Some(RawValue::Integer(i)),
        PrismaValue::Float(b) => Some(RawValue::Float(b)),
        PrismaValue::Boolean(b) => Some(RawValue::Boolean(b)),
        PrismaValue::Enum(s) => Some(RawValue::Text(s)),
        PrismaValue::Json(_) => None,
        PrismaValue::Uuid(u) => Some(RawValue::Uuid(u)),
        PrismaValue::DateTime(t) => Some(RawValue::Timestamp(t)),
    }
}

/// Write a domain value back as a raw parameter value, when it has one.
pub fn encode_value(v: PrismaValue) -> (r: Option<RawValue>)
    ensures
        r == encode_spec(v),
{
    match v {
        PrismaValue::Null => Some(RawValue::Null),
        PrismaValue::String(s) => Some(RawValue::Text(s)),
        PrismaValue::GraphqlId(id) => match id {
            GraphqlId::Int(i) => if i <= i64::MAX as u64 {
                Some(RawValue::Integer(i as i64))
            } else {
                None
            },
            GraphqlId::Text(s) => Some(RawValue::Text(s)),
            GraphqlId::Uuid(u) => Some(RawValue::Uuid(u)),
        },
        PrismaValue::Int(i) => Some(RawValue::Integer(i)),
        PrismaValue::Float(b) => Some(RawValue::Float(b)),
        PrismaValue::Boolean(b) => Some(RawValue::Boolean(b)),
        PrismaValue::Enum(s) => Some(RawValue::Text(s)),
        PrismaValue::Json(_) => None,
        PrismaValue::Uuid(u) => Some(RawValue::Uuid(u)),
        PrismaValue::DateTime(t) => Some(RawValue::Timestamp(t)),
    }
}

/// Law: a NULL raw value decodes, and decodes only to `Null`, for every
/// declared type — never to a type-specific zero value.
pub proof fn lemma_null_decodes_to_null(typid: TypeIdentifier, v: PrismaValue)
    ensures
        decodable(RawValue::Null, typid),
        decodes_to(RawValue::Null, typid, v) <==> v == PrismaValue::Null,
{
}

/// Law: a non-null domain value that matches its declared type and has an
/// encoding decodes back from that encoding, and to nothing else. The JSON
/// variant is left out: its document is opaque in this core, so the law for
/// it is checked by tests instead of stated here.
pub proof fn lemma_encode_decode_lossless(v: PrismaValue, typid: TypeIdentifier, w: PrismaValue)
    requires
        value_matches_type(v, typid),
        !(v is Null),
        !(v is Json),
        encode_spec(v) is Some,
    ensures
        decodable(encode_spec(v)->Some_0, typid),
        decodes_to(encode_spec(v)->Some_0, typid, v),
        decodes_to(encode_spec(v)->Some_0, typid, w) ==> w == v,
{
}

} // verus!
