//! Row-decoding behaviour: NULL handling, per-type decoding, round trips, and
//! decode errors carrying the offending raw value.

use sql_connector::error::SqlError;
use sql_connector::row::{decode_value, encode_value};
use sql_connector::values::{GraphqlId, PrismaValue, RawRow, RawValue, TypeIdentifier};

fn all_type_identifiers() -> Vec<TypeIdentifier> {
    vec![
        TypeIdentifier::String,
        TypeIdentifier::GraphQLID,
        TypeIdentifier::Relation,
        TypeIdentifier::Float,
        TypeIdentifier::Int,
        TypeIdentifier::Boolean,
        TypeIdentifier::Enum,
        TypeIdentifier::Json,
        TypeIdentifier::UUID,
        TypeIdentifier::DateTime,
    ]
}

#[test]
fn null_decodes_to_null_for_every_type() {
    for tid in all_type_identifiers() {
        let decoded = decode_value(RawValue::Null, tid).unwrap();
        assert_eq!(decoded, PrismaValue::Null);
    }
}

#[test]
fn typed_values_decode() {
    assert_eq!(
        decode_value(RawValue::Text("hi".to_string()), TypeIdentifier::String).unwrap(),
        PrismaValue::String("hi".to_string())
    );
    assert_eq!(
        decode_value(RawValue::Text("red".to_string()), TypeIdentifier::Enum).unwrap(),
        PrismaValue::Enum("red".to_string())
    );
    assert_eq!(
        decode_value(RawValue::Integer(7), TypeIdentifier::Int).unwrap(),
        PrismaValue::Int(7)
    );
    assert_eq!(
        decode_value(RawValue::Boolean(true), TypeIdentifier::Boolean).unwrap(),
        PrismaValue::Boolean(true)
    );
    let bits = (2.5f64).to_bits();
    assert_eq!(
        decode_value(RawValue::Float(bits), TypeIdentifier::Float).unwrap(),
        PrismaValue::Float(bits)
    );
    assert_eq!(
        decode_value(RawValue::Uuid(42), TypeIdentifier::UUID).unwrap(),
        PrismaValue::Uuid(42)
    );
    assert_eq!(
        decode_value(RawValue::Timestamp(1_555_000_000_000), TypeIdentifier::DateTime).unwrap(),
        PrismaValue::DateTime(1_555_000_000_000)
    );
}

#[test]
fn identifiers_decode_from_every_native_representation() {
    assert_eq!(
        decode_value(RawValue::Integer(5), TypeIdentifier::GraphQLID).unwrap(),
        PrismaValue::GraphqlId(GraphqlId::Int(5))
    );
    assert_eq!(
        decode_value(RawValue::Text("abc".to_string()), TypeIdentifier::Relation).unwrap(),
        PrismaValue::GraphqlId(GraphqlId::Text("abc".to_string()))
    );
    assert_eq!(
        decode_value(RawValue::Uuid(9), TypeIdentifier::GraphQLID).unwrap(),
        PrismaValue::GraphqlId(GraphqlId::Uuid(9))
    );
}

#[test]
fn negative_identifier_is_a_decode_error() {
    let err = decode_value(RawValue::Integer(-1), TypeIdentifier::GraphQLID).unwrap_err();
    assert_eq!(err, SqlError::DecodeError(RawValue::Integer(-1)));
}

#[test]
fn mismatched_shape_is_a_decode_error_carrying_the_value() {
    let err = decode_value(RawValue::Text("x".to_string()), TypeIdentifier::Int).unwrap_err();
    assert_eq!(err, SqlError::DecodeError(RawValue::Text("x".to_string())));
    let err = decode_value(RawValue::Boolean(false), TypeIdentifier::Float).unwrap_err();
    assert_eq!(err, SqlError::DecodeError(RawValue::Boolean(false)));
}

#[test]
fn json_decodes_by_parsing_the_text() {
    let decoded = decode_value(
        RawValue::Text("{\"a\": [1, 2]}".to_string()),
        TypeIdentifier::Json,
    )
    .unwrap();
    let expected: serde_json::Value = serde_json::from_str("{\"a\": [1, 2]}").unwrap();
    assert_eq!(decoded, PrismaValue::Json(expected));
}

#[test]
fn malformed_json_is_a_decode_error_not_a_silent_null() {
    let err = decode_value(RawValue::Text("{oops".to_string()), TypeIdentifier::Json).unwrap_err();
    assert_eq!(err, SqlError::DecodeError(RawValue::Text("{oops".to_string())));
}

#[test]
fn decode_then_reencode_is_lossless() {
    let cases = vec![
        (RawValue::Text("hi".to_string()), TypeIdentifier::String),
        (RawValue::Text("red".to_string()), TypeIdentifier::Enum),
        (RawValue::Integer(-3), TypeIdentifier::Int),
        (RawValue::Integer(12), TypeIdentifier::GraphQLID),
        (RawValue::Text("k1".to_string()), TypeIdentifier::Relation),
        (RawValue::Uuid(77), TypeIdentifier::GraphQLID),
        (RawValue::Float((0.5f64).to_bits()), TypeIdentifier::Float),
        (RawValue::Boolean(true), TypeIdentifier::Boolean),
        (RawValue::Uuid(8), TypeIdentifier::UUID),
        (RawValue::Timestamp(99), TypeIdentifier::DateTime),
    ];
    for (raw, tid) in cases {
        let decoded = decode_value(raw.clone(), tid).unwrap();
        let reencoded = encode_value(decoded).unwrap();
        assert_eq!(reencoded, raw);
    }
}

#[test]
fn json_round_trip_is_lossless() {
    let text = "{\"name\":\"a\",\"ids\":[1,2,3],\"nested\":{\"b\":null}}";
    let decoded = decode_value(RawValue::Text(text.to_string()), TypeIdentifier::Json).unwrap();
    let doc = match decoded {
        PrismaValue::Json(d) => d,
        other => panic!("expected a JSON value, got {:?}", other),
    };
    let reencoded = serde_json::to_string(&doc).unwrap();
    let redecoded =
        decode_value(RawValue::Text(reencoded), TypeIdentifier::Json).unwrap();
    assert_eq!(redecoded, PrismaValue::Json(doc));
}

#[test]
fn rows_decode_positionally() {
    let row = RawRow {
        values: vec![
            RawValue::Integer(1),
            RawValue::Text("t".to_string()),
            RawValue::Null,
        ],
    };
    let idents = vec![
        TypeIdentifier::GraphQLID,
        TypeIdentifier::String,
        TypeIdentifier::Boolean,
    ];
    let decoded = row.to_prisma_row(&idents).unwrap();
    assert_eq!(
        decoded.values,
        vec![
            PrismaValue::GraphqlId(GraphqlId::Int(1)),
            PrismaValue::String("t".to_string()),
            PrismaValue::Null,
        ]
    );
}

#[test]
fn row_decoding_stops_at_the_first_bad_column() {
    let row = RawRow {
        values: vec![
            RawValue::Integer(1),
            RawValue::Boolean(true),
            RawValue::Text("{nope".to_string()),
        ],
    };
    let idents = vec![
        TypeIdentifier::Int,
        TypeIdentifier::String,
        TypeIdentifier::Json,
    ];
    let err = row.to_prisma_row(&idents).unwrap_err();
    assert_eq!(err, SqlError::DecodeError(RawValue::Boolean(true)));
}
