//! Scan schemas: how a parent table's columns are checked and handed to the engine.

use crate::error::Error;
use crate::logical_type::{
    law_type_ids_distinct, logical_type_id, type_id, type_text, LogicalType,
};
use crate::text::{quote, quoted};
use vstd::prelude::*;
use vstd::string::*;
use vstd::utf8::*;

verus! {

/// A name that holds a NUL character has no C string.
pub open spec fn has_nul(name: Seq<char>) -> bool {
    name.contains('\0')
}

/// The C string of a name: its UTF-8 bytes and the terminating zero byte.
pub open spec fn c_string(name: Seq<char>) -> Seq<u8> {
    encode_utf8(name).push(0u8)
}

/// What a reader of C strings takes from `bytes`: everything before the first zero byte.
pub open spec fn c_read(bytes: Seq<u8>) -> Seq<u8>
    decreases bytes.len(),
{
    if bytes.len() == 0 || bytes[0] == 0u8 {
        Seq::empty()
    } else {
        seq![bytes[0]] + c_read(bytes.drop_first())
    }
}

/// Column `i` is the first whose name holds a NUL character.
pub open spec fn first_nul(columns: Seq<(String, LogicalType)>, i: int) -> bool {
    &&& 0 <= i < columns.len()
    &&& has_nul(columns[i].0@)
    &&& forall|j: int| 0 <= j < i ==> !has_nul(#[trigger] columns[j].0@)
}

/// Column `i` is the first whose type a scan schema cannot hold.
pub open spec fn first_unsupported(columns: Seq<(String, LogicalType)>, i: int) -> bool {
    &&& 0 <= i < columns.len()
    &&& type_id(columns[i].1) is None
    &&& forall|j: int| 0 <= j < i ==> type_id(#[trigger] columns[j].1) is Some
}

/// No column name holds a NUL character.
pub open spec fn names_clean(columns: Seq<(String, LogicalType)>) -> bool {
    forall|j: int| 0 <= j < columns.len() ==> !has_nul(#[trigger] columns[j].0@)
}

/// The columns form a scan schema: there is at least one, every name has a C string, and every
/// type has a type id.
pub open spec fn acceptable(columns: Seq<(String, LogicalType)>) -> bool {
    &&& columns.len() > 0
    &&& names_clean(columns)
    &&& forall|j: int| 0 <= j < columns.len() ==> type_id(#[trigger] columns[j].1) is Some
}

/// The columns are refused for the reason that `text` gives. Names are looked at before types,
/// and of several columns at fault the first is named.
pub open spec fn refused(columns: Seq<(String, LogicalType)>, text: Seq<char>) -> bool {
    ||| columns.len() == 0 && text == "partition routing schema needs at least one column"@
    ||| exists|i: int|
        #![trigger columns[i]]
        first_nul(columns, i) && text == "property name "@ + quoted(columns[i].0@)
            + " contains a NUL byte"@
    ||| names_clean(columns) && exists|i: int|
        #![trigger columns[i]]
        first_unsupported(columns, i) && text
            == "partition routing schemas support scalar types only, got "@ + type_text(
            columns[i].1,
        )
}

/// A scan schema in the form that the engine takes: the columns' names as C strings and their
/// type ids, both in column order.
#[derive(Debug, PartialEq, Eq)]
pub struct SchemaPlan {
    pub names: Vec<Vec<u8>>,
    pub type_ids: Vec<u8>,
}

impl SchemaPlan {
    /// The plan hands over exactly `columns`, in their order.
    pub open spec fn describes(self, columns: Seq<(String, LogicalType)>) -> bool {
        &&& self.names@.len() == columns.len()
        &&& self.type_ids@.len() == columns.len()
        &&& forall|i: int|
            0 <= i < columns.len() ==> (#[trigger] self.names@[i])@ == c_string(columns[i].0@)
        &&& forall|i: int|
            0 <= i < columns.len() ==> Some(#[trigger] self.type_ids@[i]) == type_id(columns[i].1)
    }
}

/// The encoding of one character holds a zero byte only if the character is NUL.
proof fn lemma_scalar_zero(c: char)
    ensures
        encode_scalar(c as u32).contains(0u8) <==> c == '\0',
{
    let v = c as u32;
    char_is_scalar(c);
    let e = encode_scalar(v);
    if has_width_1_encoding(v) {
        assert((v & 0x7F) as u8 == 0 <==> v == 0) by (bit_vector)
            requires
                v <= 0x7F,
        ;
        assert(e[0] == leading_byte_width_1(v));
    } else {
        assert((0xC0u8 | ((v >> 6) & 0x1F) as u8) != 0) by (bit_vector);
        assert((0xE0u8 | ((v >> 12) & 0x0F) as u8) != 0) by (bit_vector);
        assert((0xF0u8 | ((v >> 18) & 0x7) as u8) != 0) by (bit_vector);
        assert((0x80u8 | (v & 0x3F) as u8) != 0) by (bit_vector);
        assert((0x80u8 | ((v >> 6) & 0x3F) as u8) != 0) by (bit_vector);
        assert((0x80u8 | ((v >> 12) & 0x3F) as u8) != 0) by (bit_vector);
    }
}

/// A name's UTF-8 bytes hold a zero byte exactly if the name holds a NUL character.
proof fn lemma_encoding_zero(name: Seq<char>)
    ensures
        encode_utf8(name).contains(0u8) <==> has_nul(name),
    decreases name.len(),
{
    if name.len() > 0 {
        let first = encode_scalar(name[0] as u32);
        let rest = name.drop_first();
        lemma_scalar_zero(name[0]);
        lemma_encoding_zero(rest);
        let all = first + encode_utf8(rest);
        assert(encode_utf8(name) == all);
        if first.contains(0u8) {
            let k = choose|k: int| 0 <= k < first.len() && first[k] == 0u8;
            assert(all[k] == 0u8);
        }
        if encode_utf8(rest).contains(0u8) {
            let k = choose|k: int|
                0 <= k < encode_utf8(rest).len() && encode_utf8(rest)[k] == 0u8;
            assert(all[first.len() + k] == 0u8);
        }
        if has_nul(name) {
            let k = choose|k: int| 0 <= k < name.len() && name[k] == '\0';
            if k > 0 {
                assert(rest[k - 1] == '\0');
            }
        }
        if has_nul(rest) {
            let k = choose|k: int| 0 <= k < rest.len() && rest[k] == '\0';
            assert(name[k + 1] == '\0');
        }
    }
}

/// Reading stops at the terminator when no zero byte stands before it.
proof fn lemma_c_read_terminated(bytes: Seq<u8>)
    requires
        !bytes.contains(0u8),
    ensures
        c_read(bytes.push(0u8)) == bytes,
    decreases bytes.len(),
{
    let full = bytes.push(0u8);
    if bytes.len() > 0 {
        let rest = bytes.drop_first();
        assert(bytes[0] != 0u8);
        assert forall|k: int| 0 <= k < rest.len() implies rest[k] != 0u8 by {
            assert(rest[k] == bytes[k + 1]);
        }
        lemma_c_read_terminated(rest);
        assert(full.drop_first() == rest.push(0u8));
        assert(seq![bytes[0]] + rest == bytes);
    }
}

/// A column name reaches the engine whole: reading the C string of a name without NUL characters
/// gives the name back.
pub proof fn law_name_survives(name: Seq<char>)
    requires
        !has_nul(name),
    ensures
        decode_utf8(c_read(c_string(name))) == name,
{
    lemma_encoding_zero(name);
    lemma_c_read_terminated(encode_utf8(name));
    encode_utf8_decode_utf8(name);
}

/// A plan loses nothing: the engine can read back every column's name and type, so columns that
/// share a plan agree in both.
pub proof fn law_plan_determines_columns(
    plan: SchemaPlan,
    a: Seq<(String, LogicalType)>,
    b: Seq<(String, LogicalType)>,
)
    requires
        acceptable(a),
        acceptable(b),
        plan.describes(a),
        plan.describes(b),
    ensures
        a.len() == b.len(),
        forall|i: int|
            #![trigger a[i]]
            #![trigger b[i]]
            0 <= i < a.len() ==> {
                &&& decode_utf8(c_read(plan.names@[i]@)) == a[i].0@
                &&& a[i].0@ == b[i].0@
                &&& a[i].1 == b[i].1
            },
{
    assert forall|i: int| #![trigger a[i]] #![trigger b[i]] 0 <= i < a.len() implies {
        &&& decode_utf8(c_read(plan.names@[i]@)) == a[i].0@
        &&& a[i].0@ == b[i].0@
        &&& a[i].1 == b[i].1
    } by {
        assert(plan.names@[i]@ == c_string(a[i].0@) && plan.names@[i]@ == c_string(b[i].0@));
        assert(Some(plan.type_ids@[i]) == type_id(a[i].1));
        assert(Some(plan.type_ids@[i]) == type_id(b[i].1));
        law_name_survives(a[i].0@);
        law_name_survives(b[i].0@);
        law_type_ids_distinct(a[i].1, b[i].1);
    }
}

/// Columns are either acceptable or refused, never both, and a refusal has one text.
pub proof fn law_refusal_decided(columns: Seq<(String, LogicalType)>, a: Seq<char>, b: Seq<char>)
    ensures
        acceptable(columns) <==> !exists|text: Seq<char>| refused(columns, text),
        refused(columns, a) && refused(columns, b) ==> a == b,
{
    if columns.len() > 0 && !names_clean(columns) {
        let i = lemma_first_nul(columns, columns.len() as int);
        let text = "property name "@ + quoted(columns[i].0@) + " contains a NUL byte"@;
        assert(refused(columns, text));
    } else if columns.len() > 0 && !acceptable(columns) {
        let i = lemma_first_unsupported(columns, columns.len() as int);
        let text = "partition routing schemas support scalar types only, got "@ + type_text(
            columns[i].1,
        );
        assert(refused(columns, text));
    } else if columns.len() == 0 {
        assert(refused(columns, "partition routing schema needs at least one column"@));
    }
    assert forall|i: int, j: int| first_nul(columns, i) && first_nul(columns, j) implies i == j by {
        assert(columns[i] == columns[i] && columns[j] == columns[j]);
        if i < j {
            assert(!has_nul(columns[i].0@));
        }
        if j < i {
            assert(!has_nul(columns[j].0@));
        }
    }
}

/// Among the first `n` columns, the first whose name holds a NUL character.
proof fn lemma_first_nul(columns: Seq<(String, LogicalType)>, n: int) -> (i: int)
    requires
        0 <= n <= columns.len(),
        exists|j: int| 0 <= j < n && has_nul(#[trigger] columns[j].0@),
    ensures
        first_nul(columns, i),
    decreases n,
{
    if exists|j: int| 0 <= j < n - 1 && has_nul(#[trigger] columns[j].0@) {
        lemma_first_nul(columns, n - 1)
    } else {
        n - 1
    }
}

/// Among the first `n` columns, the first whose type has no type id.
proof fn lemma_first_unsupported(columns: Seq<(String, LogicalType)>, n: int) -> (i: int)
    requires
        0 <= n <= columns.len(),
        exists|j: int| 0 <= j < n && type_id(#[trigger] columns[j].1) is None,
    ensures
        first_unsupported(columns, i),
    decreases n,
{
    if exists|j: int| 0 <= j < n - 1 && type_id(#[trigger] columns[j].1) is None {
        lemma_first_unsupported(columns, n - 1)
    } else {
        n - 1
    }
}

/// The C string of a name, or `None` if the name holds a NUL character.
pub fn to_c_string(name: &str) -> (res: Option<Vec<u8>>)
    ensures
        match res {
            Some(bytes) => !has_nul(name@) && bytes@ == c_string(name@),
            None => has_nul(name@),
        },
{
    let bytes = name.as_bytes();
    let mut out: Vec<u8> = Vec::new();
    let mut i: usize = 0;
    proof {
        lemma_encoding_zero(name@);
    }
    while i < bytes.len()
        invariant
            i <= bytes@.len(),
            bytes@ == encode_utf8(name@),
            out@ == bytes@.take(i as int),
            forall|k: int| 0 <= k < i ==> bytes@[k] != 0u8,
            encode_utf8(name@).contains(0u8) <==> has_nul(name@),
        decreases bytes@.len() - i,
    {
        if bytes[i] == 0 {
            assert(bytes@[i as int] == 0u8);
            return None;
        }
        out.push(bytes[i]);
        i = i + 1;
        assert(out@ == bytes@.take(i as int));
    }
    assert(out@ == bytes@);
    out.push(0);
    Some(out)
}

/// The refusal of a column name that holds a NUL character; the name comes quoted.
pub fn nul_refusal(quoted_name: &str) -> (res: Error)
    ensures
        res@ == "property name "@ + quoted_name@ + " contains a NUL byte"@,
{
    let mut text = "property name ".to_owned();
    text.append(quoted_name);
    text.append(" contains a NUL byte");
    Error::FailedQuery(text)
}

/// Checks a parent table's columns and puts them into the engine's form.
pub fn plan_schema(columns: &Vec<(String, LogicalType)>) -> (res: Result<SchemaPlan, Error>)
    ensures
        match res {
            Ok(plan) => acceptable(columns@) && plan.describes(columns@),
            Err(e) => refused(columns@, e@),
        },
{
    if columns.len() == 0 {
        return Err(
            Error::FailedQuery("partition routing schema needs at least one column".to_owned()),
        );
    }
    let mut names: Vec<Vec<u8>> = Vec::new();
    let mut i: usize = 0;
    while i < columns.len()
        invariant
            i <= columns@.len(),
            names@.len() == i,
            forall|j: int| 0 <= j < i ==> !has_nul(#[trigger] columns@[j].0@),
            forall|j: int| 0 <= j < i ==> (#[trigger] names@[j])@ == c_string(columns@[j].0@),
        decreases columns@.len() - i,
    {
        match to_c_string(columns[i].0.as_str()) {
            Some(bytes) => names.push(bytes),
            None => {
                assert(first_nul(columns@, i as int));
                return Err(nul_refusal(quote(columns[i].0.as_str()).as_str()));
            },
        }
        i = i + 1;
    }
    let mut type_ids: Vec<u8> = Vec::new();
    let mut k: usize = 0;
    while k < columns.len()
        invariant
            k <= columns@.len(),
            names_clean(columns@),
            type_ids@.len() == k,
            forall|j: int| 0 <= j < k ==> type_id(#[trigger] columns@[j].1) is Some,
            forall|j: int| 0 <= j < k ==> Some(#[trigger] type_ids@[j]) == type_id(columns@[j].1),
        decreases columns@.len() - k,
    {
        match logical_type_id(&columns[k].1) {
            Ok(id) => type_ids.push(id),
            Err(e) => {
                assert(first_unsupported(columns@, k as int));
                return Err(e);
            },
        }
        k = k + 1;
    }
    Ok(SchemaPlan { names, type_ids })
}

/// Columns form a scan schema exactly if there is at least one, no name holds a NUL character, and
/// every type has a type id.
pub proof fn law_acceptable_columns(columns: Seq<(String, LogicalType)>)
    ensures
        acceptable(columns) <==> {
            &&& columns.len() > 0
            &&& forall|i: int|
                0 <= i < columns.len() ==> !(#[trigger] columns[i]).0@.contains('\0') && type_id(
                    columns[i].1,
                ) is Some
        },
{
    if acceptable(columns) {
        assert forall|i: int| 0 <= i < columns.len() implies !(
        #[trigger] columns[i]).0@.contains('\0') && type_id(columns[i].1) is Some by {
            assert(!has_nul(columns[i].0@));
        }
    } else if columns.len() > 0 {
        if !names_clean(columns) {
            let i = lemma_first_nul(columns, columns.len() as int);
            assert(columns[i].0@.contains('\0'));
        } else {
            let i = lemma_first_unsupported(columns, columns.len() as int);
            assert(type_id(columns[i].1) is None);
        }
    }
}

/// A single column of a nested type makes any schema unacceptable.
pub proof fn law_nested_column_refused(columns: Seq<(String, LogicalType)>, i: int)
    requires
        0 <= i < columns.len(),
        columns[i].1 is List || columns[i].1 is Array || columns[i].1 is Struct
            || columns[i].1 is MapOf || columns[i].1 is Union || columns[i].1 is Decimal
            || columns[i].1 is Interval || columns[i].1 is InternalID || columns[i].1 is Blob
            || columns[i].1 is Node || columns[i].1 is Rel || columns[i].1 is RecursiveRel,
    ensures
        !acceptable(columns),
{
    assert(type_id(columns[i].1) is None);
}

/// Without columns the schema is refused for that.
pub proof fn law_no_columns_refused(columns: Seq<(String, LogicalType)>, text: Seq<char>)
    requires
        columns.len() == 0,
    ensures
        refused(columns, text) <==> text == "partition routing schema needs at least one column"@,
{
}

/// The first name with a NUL character is the one that the refusal names, whatever stands behind
/// it and whatever the types are.
pub proof fn law_first_nul_named(
    columns: Seq<(String, LogicalType)>,
    i: int,
    text: Seq<char>,
)
    requires
        0 <= i < columns.len(),
        columns[i].0@.contains('\0'),
        forall|j: int| 0 <= j < i ==> !(#[trigger] columns[j]).0@.contains('\0'),
    ensures
        refused(columns, text) <==> text == "property name "@ + quoted(columns[i].0@)
            + " contains a NUL byte"@,
{
    assert(first_nul(columns, i)) by {
        assert forall|j: int| 0 <= j < i implies !has_nul(#[trigger] columns[j].0@) by {
            assert(!columns[j].0@.contains('\0'));
        }
    }
    assert(has_nul(columns[i].0@));
    assert(!names_clean(columns));
    assert forall|k: int| first_nul(columns, k) implies k == i by {
        if k < i {
            assert(!has_nul(columns[k].0@));
        }
        if i < k {
            assert(!has_nul(columns[i].0@));
        }
    }
    assert(columns[i] == columns[i]);
}

/// Where no name holds a NUL character, the first type without an id is the one that the refusal
/// names.
pub proof fn law_first_unsupported_named(
    columns: Seq<(String, LogicalType)>,
    i: int,
    text: Seq<char>,
)
    requires
        0 <= i < columns.len(),
        forall|j: int| 0 <= j < columns.len() ==> !(#[trigger] columns[j]).0@.contains('\0'),
        type_id(columns[i].1) is None,
        forall|j: int| 0 <= j < i ==> type_id((#[trigger] columns[j]).1) is Some,
    ensures
        refused(columns, text) <==> text
            == "partition routing schemas support scalar types only, got "@ + type_text(
            columns[i].1,
        ),
{
    assert(names_clean(columns)) by {
        assert forall|j: int| 0 <= j < columns.len() implies !has_nul(
            #[trigger] columns[j].0@,
        ) by {
            assert(!columns[j].0@.contains('\0'));
        }
    }
    assert(first_unsupported(columns, i));
    assert forall|k: int| first_unsupported(columns, k) implies k == i by {
        if k < i {
            assert(type_id(columns[k].1) is Some);
        }
        if i < k {
            assert(type_id(columns[i].1) is Some);
        }
    }
    assert forall|k: int| !first_nul(columns, k) by {
        if first_nul(columns, k) {
            assert(!has_nul(columns[k].0@));
        }
    }
    assert(columns[i] == columns[i]);
}

/// A plan hands over one C string and one type id for every column: the name's UTF-8 bytes with a
/// single zero byte behind them, and the id of the column's own type.
pub proof fn law_plan_is_the_columns(plan: SchemaPlan, columns: Seq<(String, LogicalType)>)
    ensures
        plan.describes(columns) <==> {
            &&& plan.names@.len() == columns.len()
            &&& plan.type_ids@.len() == columns.len()
            &&& forall|i: int|
                #![trigger columns[i]]
                0 <= i < columns.len() ==> {
                    &&& plan.names@[i]@ == encode_utf8(columns[i].0@) + seq![0u8]
                    &&& Some(plan.type_ids@[i]) == type_id(columns[i].1)
                }
        },
{
    assert(forall|name: Seq<char>| #[trigger]
        c_string(name) =~= encode_utf8(name) + seq![0u8]);
    if plan.describes(columns) {
        assert forall|i: int| #![trigger columns[i]] 0 <= i < columns.len() implies {
            &&& plan.names@[i]@ == encode_utf8(columns[i].0@) + seq![0u8]
            &&& Some(plan.type_ids@[i]) == type_id(columns[i].1)
        } by {
            assert(plan.names@[i]@ == c_string(columns[i].0@));
            assert(Some(plan.type_ids@[i]) == type_id(columns[i].1));
        }
    } else if plan.names@.len() == columns.len() && plan.type_ids@.len() == columns.len() {
        if forall|i: int|
            #![trigger columns[i]]
            0 <= i < columns.len() ==> {
                &&& plan.names@[i]@ == encode_utf8(columns[i].0@) + seq![0u8]
                &&& Some(plan.type_ids@[i]) == type_id(columns[i].1)
            } {
            assert forall|i: int| 0 <= i < columns.len() implies (
            #[trigger] plan.names@[i])@ == c_string(columns[i].0@) by {
                assert(columns[i] == columns[i]);
            }
            assert forall|i: int| 0 <= i < columns.len() implies Some(
                #[trigger] plan.type_ids@[i],
            ) == type_id(columns[i].1) by {
                assert(columns[i] == columns[i]);
            }
        }
    }
}

/// A name has a C string exactly if no character of it is NUL, and then it is the name's UTF-8
/// bytes, none of them zero, with one zero byte behind them.
pub proof fn law_c_string_of_a_name(name: Seq<char>)
    ensures
        has_nul(name) <==> exists|i: int| 0 <= i < name.len() && name[i] == '\0',
        c_string(name) == encode_utf8(name) + seq![0u8],
        !has_nul(name) ==> forall|i: int|
            0 <= i < c_string(name).len() ==> (#[trigger] c_string(name)[i] == 0u8 <==> i
                == c_string(name).len() - 1),
{
    lemma_encoding_zero(name);
    assert(c_string(name) =~= encode_utf8(name) + seq![0u8]);
    if !has_nul(name) {
        assert forall|i: int| 0 <= i < c_string(name).len() implies (#[trigger] c_string(name)[i]
            == 0u8 <==> i == c_string(name).len() - 1) by {
            if i < encode_utf8(name).len() {
                assert(c_string(name)[i] == encode_utf8(name)[i]);
            }
        }
    }
}

} // verus!
