use lbug::logical_type::push_member_text;
use lbug::schema::{nul_refusal, plan_schema, to_c_string, SchemaPlan};
use lbug::{logical_type_id, Error, LogicalType};

fn refusal(text: &str) -> Error {
    Error::FailedQuery(text.to_string())
}

fn supported() -> Vec<(LogicalType, u8)> {
    vec![
        (LogicalType::Any, 0),
        (LogicalType::Bool, 22),
        (LogicalType::Serial, 13),
        (LogicalType::Int64, 23),
        (LogicalType::Int32, 24),
        (LogicalType::Int16, 25),
        (LogicalType::Int8, 26),
        (LogicalType::UInt64, 27),
        (LogicalType::UInt32, 28),
        (LogicalType::UInt16, 29),
        (LogicalType::UInt8, 30),
        (LogicalType::Int128, 31),
        (LogicalType::Double, 32),
        (LogicalType::Float, 33),
        (LogicalType::Date, 34),
        (LogicalType::Timestamp, 35),
        (LogicalType::TimestampTz, 39),
        (LogicalType::TimestampNs, 38),
        (LogicalType::TimestampMs, 37),
        (LogicalType::TimestampSec, 36),
        (LogicalType::String, 50),
        (LogicalType::UUID, 59),
        (LogicalType::Json, 60),
    ]
}

fn list_of(child: LogicalType) -> LogicalType {
    LogicalType::List { child_type: Box::new(child) }
}

fn unsupported() -> Vec<LogicalType> {
    vec![
        LogicalType::Interval,
        LogicalType::InternalID,
        LogicalType::Blob,
        LogicalType::Decimal { precision: 18, scale: 0 },
        LogicalType::Array { child_type: Box::new(LogicalType::Float), num_elements: 1536 },
        LogicalType::Struct { fields: Vec::new() },
        LogicalType::Struct {
            fields: vec![
                ("a".to_string(), LogicalType::Int64),
                ("say \"b\"\n".to_string(), list_of(LogicalType::String)),
                ("\u{e9}\0".to_string(), LogicalType::Date),
            ],
        },
        LogicalType::Union { types: vec![("x".to_string(), LogicalType::Bool)] },
        LogicalType::Node,
        LogicalType::Rel,
        LogicalType::RecursiveRel,
        list_of(LogicalType::Timestamp),
        list_of(LogicalType::TimestampTz),
        list_of(LogicalType::TimestampNs),
        list_of(LogicalType::TimestampMs),
        list_of(LogicalType::TimestampSec),
        list_of(LogicalType::Any),
        list_of(LogicalType::Serial),
        list_of(LogicalType::Int32),
        list_of(LogicalType::Int16),
        list_of(LogicalType::Int8),
        list_of(LogicalType::UInt64),
        list_of(LogicalType::UInt32),
        list_of(LogicalType::UInt16),
        list_of(LogicalType::UInt8),
        list_of(LogicalType::Int128),
        list_of(LogicalType::Double),
        list_of(LogicalType::UUID),
        list_of(LogicalType::Json),
    ]
}

#[test]
fn supported_types_have_the_engine_ids() {
    for (logical_type, id) in supported() {
        assert_eq!(logical_type_id(&logical_type), Ok(id));
    }
}

#[test]
fn type_ids_are_distinct() {
    let mut ids: Vec<u8> = supported().into_iter().map(|(_, id)| id).collect();
    ids.sort();
    ids.dedup();
    assert_eq!(ids.len(), supported().len());
}

#[test]
fn other_types_are_refused_by_name() {
    for logical_type in unsupported() {
        assert_eq!(
            logical_type_id(&logical_type),
            Err(refusal(&format!(
                "partition routing schemas support scalar types only, got {logical_type:?}"
            )))
        );
    }
}

#[test]
fn refused_types_read_as_written() {
    let cases = [
        (list_of(LogicalType::Int64), "List { child_type: Int64 }"),
        (
            LogicalType::Decimal { precision: 10, scale: 2 },
            "Decimal { precision: 10, scale: 2 }",
        ),
        (
            LogicalType::Array { child_type: Box::new(LogicalType::Double), num_elements: 3 },
            "Array { child_type: Double, num_elements: 3 }",
        ),
        (
            LogicalType::MapOf {
                key_type: Box::new(LogicalType::String),
                value_type: Box::new(LogicalType::Int8),
            },
            "Map { key_type: String, value_type: Int8 }",
        ),
        (
            LogicalType::Struct {
                fields: vec![
                    ("a".to_string(), LogicalType::Bool),
                    ("b\"".to_string(), LogicalType::Date),
                ],
            },
            "Struct { fields: [(\"a\", Bool), (\"b\\\"\", Date)] }",
        ),
    ];
    for (logical_type, text) in cases {
        assert_eq!(
            logical_type_id(&logical_type),
            Err(refusal(&format!(
                "partition routing schemas support scalar types only, got {text}"
            )))
        );
    }
}

#[test]
fn names_become_c_strings() {
    assert_eq!(to_c_string(""), Some(vec![0]));
    assert_eq!(to_c_string("id"), Some(vec![105, 100, 0]));
    assert_eq!(to_c_string("\u{e9}\u{20ac}\u{1f41e}"), {
        let mut bytes = "\u{e9}\u{20ac}\u{1f41e}".as_bytes().to_vec();
        bytes.push(0);
        Some(bytes)
    });
    assert_eq!(to_c_string("a\0b"), None);
    assert_eq!(to_c_string("\0"), None);
}

#[test]
fn plan_keeps_column_order() {
    let columns = vec![
        ("id".to_string(), LogicalType::Int64),
        ("name".to_string(), LogicalType::String),
        ("born".to_string(), LogicalType::Date),
    ];
    assert_eq!(
        plan_schema(&columns),
        Ok(SchemaPlan {
            names: vec![b"id\0".to_vec(), b"name\0".to_vec(), b"born\0".to_vec()],
            type_ids: vec![23, 50, 34],
        })
    );
}

#[test]
fn empty_schema_is_refused() {
    assert_eq!(
        plan_schema(&Vec::new()),
        Err(refusal("partition routing schema needs at least one column"))
    );
}

#[test]
fn first_name_with_nul_is_refused() {
    let columns = vec![
        ("ok".to_string(), LogicalType::Blob),
        ("a\0b".to_string(), LogicalType::Int64),
        ("\0".to_string(), LogicalType::Int64),
    ];
    assert_eq!(
        plan_schema(&columns),
        Err(refusal("property name \"a\\0b\" contains a NUL byte"))
    );
}

#[test]
fn first_unsupported_type_is_refused() {
    let columns = vec![
        ("id".to_string(), LogicalType::Int64),
        ("data".to_string(), LogicalType::Blob),
        ("span".to_string(), LogicalType::Interval),
    ];
    assert_eq!(
        plan_schema(&columns),
        Err(refusal("partition routing schemas support scalar types only, got Blob"))
    );
}

#[test]
fn texts_around_a_quoted_name() {
    assert_eq!(
        nul_refusal("\"n\\0\""),
        refusal("property name \"n\\0\" contains a NUL byte")
    );
    let mut out = "[".to_string();
    push_member_text(&mut out, "\"a\"", "Int64");
    assert_eq!(out, "[(\"a\", Int64)");
}
