//! The engine's column types, and the type ids by which a scan schema names them.

use crate::error::Error;
use crate::text::{decimal, push_decimal, quote, quoted};
use vstd::prelude::*;
use vstd::string::StringExecFns;

verus! {

/// The type of a column. In text `MapOf` is called `Map`, the other variants go by their names.
#[derive(Debug, PartialEq, Eq)]
pub enum LogicalType {
    Any,
    Bool,
    Serial,
    Int64,
    Int32,
    Int16,
    Int8,
    UInt64,
    UInt32,
    UInt16,
    UInt8,
    Int128,
    Double,
    Float,
    Date,
    Interval,
    Timestamp,
    TimestampTz,
    TimestampNs,
    TimestampMs,
    TimestampSec,
    InternalID,
    String,
    Json,
    Blob,
    UUID,
    Decimal { precision: u32, scale: u32 },
    List { child_type: Box<LogicalType> },
    Array { child_type: Box<LogicalType>, num_elements: u64 },
    Struct { fields: Vec<(String, LogicalType)> },
    MapOf { key_type: Box<LogicalType>, value_type: Box<LogicalType> },
    Union { types: Vec<(String, LogicalType)> },
    Node,
    Rel,
    RecursiveRel,
}

/// The engine's type id of `t`, for the types that a scan schema may hold.
pub open spec fn type_id(t: LogicalType) -> Option<u8> {
    match t {
        LogicalType::Any => Some(0),
        LogicalType::Serial => Some(13),
        LogicalType::Bool => Some(22),
        LogicalType::Int64 => Some(23),
        LogicalType::Int32 => Some(24),
        LogicalType::Int16 => Some(25),
        LogicalType::Int8 => Some(26),
        LogicalType::UInt64 => Some(27),
        LogicalType::UInt32 => Some(28),
        LogicalType::UInt16 => Some(29),
        LogicalType::UInt8 => Some(30),
        LogicalType::Int128 => Some(31),
        LogicalType::Double => Some(32),
        LogicalType::Float => Some(33),
        LogicalType::Date => Some(34),
        LogicalType::Timestamp => Some(35),
        LogicalType::TimestampSec => Some(36),
        LogicalType::TimestampMs => Some(37),
        LogicalType::TimestampNs => Some(38),
        LogicalType::TimestampTz => Some(39),
        LogicalType::String => Some(50),
        LogicalType::UUID => Some(59),
        LogicalType::Json => Some(60),
        _ => None,
    }
}

/// How `t` is written in a refusal: the variant's name, with its fields in braces.
pub open spec fn type_text(t: LogicalType) -> Seq<char>
    decreases t, 0nat,
{
    match t {
        LogicalType::Any => "Any"@,
        LogicalType::Bool => "Bool"@,
        LogicalType::Serial => "Serial"@,
        LogicalType::Int64 => "Int64"@,
        LogicalType::Int32 => "Int32"@,
        LogicalType::Int16 => "Int16"@,
        LogicalType::Int8 => "Int8"@,
        LogicalType::UInt64 => "UInt64"@,
        LogicalType::UInt32 => "UInt32"@,
        LogicalType::UInt16 => "UInt16"@,
        LogicalType::UInt8 => "UInt8"@,
        LogicalType::Int128 => "Int128"@,
        LogicalType::Double => "Double"@,
        LogicalType::Float => "Float"@,
        LogicalType::Date => "Date"@,
        LogicalType::Interval => "Interval"@,
        LogicalType::Timestamp => "Timestamp"@,
        LogicalType::TimestampTz => "TimestampTz"@,
        LogicalType::TimestampNs => "TimestampNs"@,
        LogicalType::TimestampMs => "TimestampMs"@,
        LogicalType::TimestampSec => "TimestampSec"@,
        LogicalType::InternalID => "InternalID"@,
        LogicalType::String => "String"@,
        LogicalType::Json => "Json"@,
        LogicalType::Blob => "Blob"@,
        LogicalType::UUID => "UUID"@,
        LogicalType::Decimal { precision, scale } => "Decimal { precision: "@ + decimal(
            precision as nat,
        ) + ", scale: "@ + decimal(scale as nat) + " }"@,
        LogicalType::List { child_type } => "List { child_type: "@ + type_text(*child_type)
            + " }"@,
        LogicalType::Array { child_type, num_elements } => "Array { child_type: "@ + type_text(
            *child_type,
        ) + ", num_elements: "@ + decimal(num_elements as nat) + " }"@,
        LogicalType::Struct { fields } => "Struct { fields: ["@ + members_text(
            fields@,
            fields@.len(),
        ) + "] }"@,
        LogicalType::MapOf { key_type, value_type } => "Map { key_type: "@ + type_text(*key_type)
            + ", value_type: "@ + type_text(*value_type) + " }"@,
        LogicalType::Union { types } => "Union { types: ["@ + members_text(
            types@,
            types@.len(),
        ) + "] }"@,
        LogicalType::Node => "Node"@,
        LogicalType::Rel => "Rel"@,
        LogicalType::RecursiveRel => "RecursiveRel"@,
    }
}

/// A member of a struct or union type, from its quoted name and the text of its type.
pub open spec fn member_text(quoted_name: Seq<char>, type_text: Seq<char>) -> Seq<char> {
    "("@ + quoted_name + ", "@ + type_text + ")"@
}

/// The first `n` members of a struct or union type, each a pair of quoted name and type,
/// with a comma and a space between two of them.
pub open spec fn members_text(members: Seq<(String, LogicalType)>, n: nat) -> Seq<char>
    decreases members, n,
{
    if n == 0 || n > members.len() {
        Seq::empty()
    } else {
        let pair = member_text(quoted(members[n - 1].0@), type_text(members[n - 1].1));
        if n == 1 {
            pair
        } else {
            members_text(members, (n - 1) as nat) + ", "@ + pair
        }
    }
}

/// Writes the text of `t` behind `out`.
fn push_type_text(out: &mut String, t: &LogicalType)
    ensures
        final(out)@ == old(out)@ + type_text(*t),
    decreases *t, 0nat,
{
    match t {
        LogicalType::Any => out.append("Any"),
        LogicalType::Bool => out.append("Bool"),
        LogicalType::Serial => out.append("Serial"),
        LogicalType::Int64 => out.append("Int64"),
        LogicalType::Int32 => out.append("Int32"),
        LogicalType::Int16 => out.append("Int16"),
        LogicalType::Int8 => out.append("Int8"),
        LogicalType::UInt64 => out.append("UInt64"),
        LogicalType::UInt32 => out.append("UInt32"),
        LogicalType::UInt16 => out.append("UInt16"),
        LogicalType::UInt8 => out.append("UInt8"),
        LogicalType::Int128 => out.append("Int128"),
        LogicalType::Double => out.append("Double"),
        LogicalType::Float => out.append("Float"),
        LogicalType::Date => out.append("Date"),
        LogicalType::Interval => out.append("Interval"),
        LogicalType::Timestamp => out.append("Timestamp"),
        LogicalType::TimestampTz => out.append("TimestampTz"),
        LogicalType::TimestampNs => out.append("TimestampNs"),
        LogicalType::TimestampMs => out.append("TimestampMs"),
        LogicalType::TimestampSec => out.append("TimestampSec"),
        LogicalType::InternalID => out.append("InternalID"),
        LogicalType::String => out.append("String"),
        LogicalType::Json => out.append("Json"),
        LogicalType::Blob => out.append("Blob"),
        LogicalType::UUID => out.append("UUID"),
        LogicalType::Decimal { precision, scale } => {
            out.append("Decimal { precision: ");
            push_decimal(out, *precision as u64);
            out.append(", scale: ");
            push_decimal(out, *scale as u64);
            out.append(" }");
        },
        LogicalType::List { child_type } => {
            out.append("List { child_type: ");
            push_type_text(out, child_type);
            out.append(" }");
        },
        LogicalType::Array { child_type, num_elements } => {
            out.append("Array { child_type: ");
            push_type_text(out, child_type);
            out.append(", num_elements: ");
            push_decimal(out, *num_elements);
            out.append(" }");
        },
        LogicalType::Struct { fields } => {
            out.append("Struct { fields: [");
            push_members_text(out, fields);
            out.append("] }");
        },
        LogicalType::MapOf { key_type, value_type } => {
            out.append("Map { key_type: ");
            push_type_text(out, key_type);
            out.append(", value_type: ");
            push_type_text(out, value_type);
            out.append(" }");
        },
        LogicalType::Union { types } => {
            out.append("Union { types: [");
            push_members_text(out, types);
            out.append("] }");
        },
        LogicalType::Node => out.append("Node"),
        LogicalType::Rel => out.append("Rel"),
        LogicalType::RecursiveRel => out.append("RecursiveRel"),
    }
    assert(out@ == old(out)@ + type_text(*t));
}

/// Writes a member of a struct or union type behind `out`: its quoted name and its type.
pub fn push_member_text(out: &mut String, quoted_name: &str, type_part: &str)
    ensures
        final(out)@ == old(out)@ + member_text(quoted_name@, type_part@),
{
    out.append("(");
    out.append(quoted_name);
    out.append(", ");
    out.append(type_part);
    out.append(")");
    assert(out@ == old(out)@ + member_text(quoted_name@, type_part@));
}

/// Writes the members of a struct or union type behind `out`.
fn push_members_text(out: &mut String, members: &Vec<(String, LogicalType)>)
    ensures
        final(out)@ == old(out)@ + members_text(members@, members@.len()),
    decreases members@, members@.len(),
{
    let mut i: usize = 0;
    while i < members.len()
        invariant
            i <= members@.len(),
            out@ == old(out)@ + members_text(members@, i as nat),
        decreases members@.len() - i,
    {
        if i > 0 {
            out.append(", ");
        }
        let mut type_part = String::new();
        push_type_text(&mut type_part, &members[i].1);
        push_member_text(out, quote(&members[i].0).as_str(), type_part.as_str());
        i = i + 1;
        assert(out@ == old(out)@ + members_text(members@, i as nat));
    }
}

/// The engine's type id of a column type. A type that a scan schema cannot hold is refused by
/// name.
pub fn logical_type_id(logical_type: &LogicalType) -> (res: Result<u8, Error>)
    ensures
        match res {
            Ok(id) => type_id_answer(*logical_type) == Ok::<u8, Seq<char>>(id),
            Err(e) => type_id_answer(*logical_type) == Err::<u8, Seq<char>>(e@),
        },
        match type_id(*logical_type) {
            Some(id) => res == Ok::<u8, Error>(id),
            None => res matches Err(e) && e@
                == "partition routing schemas support scalar types only, got "@ + type_text(
                *logical_type,
            ),
        },
{
    match logical_type {
        LogicalType::Any => Ok(0),
        LogicalType::Bool => Ok(22),
        LogicalType::Serial => Ok(13),
        LogicalType::Int64 => Ok(23),
        LogicalType::Int32 => Ok(24),
        LogicalType::Int16 => Ok(25),
        LogicalType::Int8 => Ok(26),
        LogicalType::UInt64 => Ok(27),
        LogicalType::UInt32 => Ok(28),
        LogicalType::UInt16 => Ok(29),
        LogicalType::UInt8 => Ok(30),
        LogicalType::Int128 => Ok(31),
        LogicalType::Double => Ok(32),
        LogicalType::Float => Ok(33),
        LogicalType::Date => Ok(34),
        LogicalType::Timestamp => Ok(35),
        LogicalType::TimestampTz => Ok(39),
        LogicalType::TimestampNs => Ok(38),
        LogicalType::TimestampMs => Ok(37),
        LogicalType::TimestampSec => Ok(36),
        LogicalType::String => Ok(50),
        LogicalType::UUID => Ok(59),
        LogicalType::Json => Ok(60),
        other => {
            let mut text = "partition routing schemas support scalar types only, got ".to_owned();
            push_type_text(&mut text, other);
            Err(Error::FailedQuery(text))
        },
    }
}

/// No two types share a type id.
pub proof fn law_type_ids_distinct(a: LogicalType, b: LogicalType)
    requires
        type_id(a) is Some,
        type_id(a) == type_id(b),
    ensures
        a == b,
{
}

/// The types with a type id are exactly the scalar ones that the engine's scan reads, and each has
/// the engine's number.
pub proof fn law_type_ids_are_the_engines(t: LogicalType)
    ensures
        type_id(t) is Some <==> (t is Any || t is Bool || t is Serial || t is Int64 || t is Int32
            || t is Int16 || t is Int8 || t is UInt64 || t is UInt32 || t is UInt16 || t is UInt8
            || t is Int128 || t is Double || t is Float || t is Date || t is Timestamp
            || t is TimestampTz || t is TimestampNs || t is TimestampMs || t is TimestampSec
            || t is String || t is UUID || t is Json),
        t is Any ==> type_id(t) == Some(0u8),
        t is Serial ==> type_id(t) == Some(13u8),
        t is Bool ==> type_id(t) == Some(22u8),
        t is Int64 ==> type_id(t) == Some(23u8),
        t is Int32 ==> type_id(t) == Some(24u8),
        t is Int16 ==> type_id(t) == Some(25u8),
        t is Int8 ==> type_id(t) == Some(26u8),
        t is UInt64 ==> type_id(t) == Some(27u8),
        t is UInt32 ==> type_id(t) == Some(28u8),
        t is UInt16 ==> type_id(t) == Some(29u8),
        t is UInt8 ==> type_id(t) == Some(30u8),
        t is Int128 ==> type_id(t) == Some(31u8),
        t is Double ==> type_id(t) == Some(32u8),
        t is Float ==> type_id(t) == Some(33u8),
        t is Date ==> type_id(t) == Some(34u8),
        t is Timestamp ==> type_id(t) == Some(35u8),
        t is TimestampSec ==> type_id(t) == Some(36u8),
        t is TimestampMs ==> type_id(t) == Some(37u8),
        t is TimestampNs ==> type_id(t) == Some(38u8),
        t is TimestampTz ==> type_id(t) == Some(39u8),
        t is String ==> type_id(t) == Some(50u8),
        t is UUID ==> type_id(t) == Some(59u8),
        t is Json ==> type_id(t) == Some(60u8),
{
}

/// No nested type has a type id, whatever it is made of, and neither has any other type outside
/// the scan's scalars.
pub proof fn law_other_types_have_no_id(
    child_type: Box<LogicalType>,
    value_type: Box<LogicalType>,
    num_elements: u64,
    members: Vec<(String, LogicalType)>,
    precision: u32,
    scale: u32,
)
    ensures
        type_id(LogicalType::List { child_type }) is None,
        type_id(LogicalType::Array { child_type, num_elements }) is None,
        type_id(LogicalType::Struct { fields: members }) is None,
        type_id(LogicalType::MapOf { key_type: child_type, value_type }) is None,
        type_id(LogicalType::Union { types: members }) is None,
        type_id(LogicalType::Decimal { precision, scale }) is None,
        type_id(LogicalType::Interval) is None,
        type_id(LogicalType::InternalID) is None,
        type_id(LogicalType::Blob) is None,
        type_id(LogicalType::Node) is None,
        type_id(LogicalType::Rel) is None,
        type_id(LogicalType::RecursiveRel) is None,
{
}

/// The text of a nested type holds the whole text of what it is made of, between the names of its
/// fields.
pub proof fn law_nested_text_holds_its_parts(
    child_type: Box<LogicalType>,
    value_type: Box<LogicalType>,
    num_elements: u64,
    members: Vec<(String, LogicalType)>,
    precision: u32,
    scale: u32,
)
    ensures
        type_text(LogicalType::List { child_type }) == "List { child_type: "@ + type_text(
            *child_type,
        ) + " }"@,
        type_text(LogicalType::Array { child_type, num_elements }) == "Array { child_type: "@
            + type_text(*child_type) + ", num_elements: "@ + decimal(num_elements as nat) + " }"@,
        type_text(LogicalType::MapOf { key_type: child_type, value_type }) == "Map { key_type: "@
            + type_text(*child_type) + ", value_type: "@ + type_text(*value_type) + " }"@,
        type_text(LogicalType::Decimal { precision, scale }) == "Decimal { precision: "@ + decimal(
            precision as nat,
        ) + ", scale: "@ + decimal(scale as nat) + " }"@,
        type_text(LogicalType::Struct { fields: members }) == "Struct { fields: ["@ + members_text(
            members@,
            members@.len(),
        ) + "] }"@,
        type_text(LogicalType::Union { types: members }) == "Union { types: ["@ + members_text(
            members@,
            members@.len(),
        ) + "] }"@,
{
}

/// Every member is in the text, in order and set apart by a comma: the text of one member more is
/// the text so far and the new pair of quoted name and type.
pub proof fn law_members_text_grows(members: Seq<(String, LogicalType)>, n: nat)
    requires
        n < members.len(),
    ensures
        members_text(members, 0) == Seq::<char>::empty(),
        members_text(members, n + 1) == (if n == 0 {
            Seq::<char>::empty()
        } else {
            members_text(members, n) + ", "@
        }) + ("("@ + quoted(members[n as int].0@) + ", "@ + type_text(members[n as int].1) + ")"@),
{
    assert(members_text(members, n + 1) == (if n == 0 {
        Seq::<char>::empty()
    } else {
        members_text(members, n) + ", "@
    }) + ("("@ + quoted(members[n as int].0@) + ", "@ + type_text(members[n as int].1) + ")"@));
}

/// A type without fields is written as its name.
pub proof fn law_plain_text_is_the_name()
    ensures
        type_text(LogicalType::Any) == "Any"@,
        type_text(LogicalType::Bool) == "Bool"@,
        type_text(LogicalType::Serial) == "Serial"@,
        type_text(LogicalType::Int64) == "Int64"@,
        type_text(LogicalType::Int32) == "Int32"@,
        type_text(LogicalType::Int16) == "Int16"@,
        type_text(LogicalType::Int8) == "Int8"@,
        type_text(LogicalType::UInt64) == "UInt64"@,
        type_text(LogicalType::UInt32) == "UInt32"@,
        type_text(LogicalType::UInt16) == "UInt16"@,
        type_text(LogicalType::UInt8) == "UInt8"@,
        type_text(LogicalType::Int128) == "Int128"@,
        type_text(LogicalType::Double) == "Double"@,
        type_text(LogicalType::Float) == "Float"@,
        type_text(LogicalType::Date) == "Date"@,
        type_text(LogicalType::Interval) == "Interval"@,
        type_text(LogicalType::Timestamp) == "Timestamp"@,
        type_text(LogicalType::TimestampTz) == "TimestampTz"@,
        type_text(LogicalType::TimestampNs) == "TimestampNs"@,
        type_text(LogicalType::TimestampMs) == "TimestampMs"@,
        type_text(LogicalType::TimestampSec) == "TimestampSec"@,
        type_text(LogicalType::InternalID) == "InternalID"@,
        type_text(LogicalType::String) == "String"@,
        type_text(LogicalType::Json) == "Json"@,
        type_text(LogicalType::Blob) == "Blob"@,
        type_text(LogicalType::UUID) == "UUID"@,
        type_text(LogicalType::Node) == "Node"@,
        type_text(LogicalType::Rel) == "Rel"@,
        type_text(LogicalType::RecursiveRel) == "RecursiveRel"@,
{
}

/// What asking for a type's id gives: the id, or the text of the refusal.
pub open spec fn type_id_answer(t: LogicalType) -> Result<u8, Seq<char>> {
    match type_id(t) {
        Some(id) => Ok(id),
        None => Err("partition routing schemas support scalar types only, got "@ + type_text(t)),
    }
}

/// A type without an id is refused, and the refusal ends with the type's text.
pub proof fn law_refusal_names_the_type(t: LogicalType)
    ensures
        type_id_answer(t) is Ok <==> type_id(t) is Some,
        type_id_answer(t) matches Ok(id) ==> Some(id) == type_id(t),
        type_id_answer(t) matches Err(text) ==> text
            == "partition routing schemas support scalar types only, got "@ + type_text(t),
{
}

} // verus!
