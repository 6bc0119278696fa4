//! Reading typed records out of JSON documents, one field at a time, the
//! way the wire types declare their fields:
//!
//! * a required field must be present and of its type;
//! * an optional field reads as none when it is absent or `null`;
//! * a defaulted field reads as the empty value when it is absent.
//!
//! A field of the wrong type makes the whole record unreadable. A record may
//! also come as an array of its field values in declaration order
//! ([`record_of`]), and a field-less enum as its variant's name or as an
//! object of that one name with `null` ([`enum_tag`]). Each reader
//! returns `None` for "unreadable" and the field's value otherwise.

use vstd::prelude::*;
use crate::json::{
    json_as_str, json_get, json_view, members_view, number_view, opt_json_view, strings_view, Json, JsonNumber,
    JsonValue, Members, NumberValue,
};

verus! {

// ---------------------------------------------------------------------------
// What a field reads as
// ---------------------------------------------------------------------------

/// A required `bool` field.
pub open spec fn field_bool(v: JsonValue, key: Seq<char>) -> Option<bool> {
    match json_get(v, key) {
        Some(JsonValue::Bool(b)) => Some(b),
        _ => None,
    }
}

/// A required string field that is also accepted under a second name;
/// present under both names, it is unreadable.
pub open spec fn field_str_aliased(v: JsonValue, key: Seq<char>, alias: Seq<char>) -> Option<Seq<char>> {
    match (json_get(v, key), json_get(v, alias)) {
        (Some(x), None) => json_as_str(x),
        (None, Some(x)) => json_as_str(x),
        _ => None,
    }
}

/// An optional string field.
pub open spec fn field_opt_str(v: JsonValue, key: Seq<char>) -> Option<Option<Seq<char>>> {
    match json_get(v, key) {
        None => Some(None),
        Some(JsonValue::Null) => Some(None),
        Some(JsonValue::Str(s)) => Some(Some(s)),
        Some(_) => None,
    }
}

/// A string field that reads as `""` when absent.
pub open spec fn field_str_or_empty(v: JsonValue, key: Seq<char>) -> Option<Seq<char>> {
    match json_get(v, key) {
        None => Some(Seq::empty()),
        Some(JsonValue::Str(s)) => Some(s),
        Some(_) => None,
    }
}

/// A list of strings: an array whose items are all strings.
pub open spec fn str_list_of(x: JsonValue) -> Option<Seq<Seq<char>>> {
    match x {
        JsonValue::Array(items) => if forall|i: int| 0 <= i < items.len() ==> (#[trigger] items[i]) is Str {
            Some(Seq::new(items.len(), |i: int| items[i]->Str_0))
        } else {
            None
        },
        _ => None,
    }
}

/// A list-of-strings field that reads as the empty list when absent.
pub open spec fn field_str_list_or_empty(v: JsonValue, key: Seq<char>) -> Option<Seq<Seq<char>>> {
    match json_get(v, key) {
        None => Some(Seq::empty()),
        Some(x) => str_list_of(x),
    }
}

/// A required list-of-strings field.
pub open spec fn field_str_list(v: JsonValue, key: Seq<char>) -> Option<Seq<Seq<char>>> {
    match json_get(v, key) {
        None => None,
        Some(x) => str_list_of(x),
    }
}

/// A list of strings written as JSON reads back as the same list.
pub proof fn lemma_str_list_reads_back(items: Seq<Seq<char>>)
    ensures
        str_list_of(crate::json::str_list_value(items)) == Some(items),
{
    let v = crate::json::str_list_value(items);
    assert(Seq::new(items.len(), |i: int| v->Array_0[i]->Str_0) =~= items);
}

/// A list-of-documents field that reads as the empty list when absent.
pub open spec fn field_doc_list_or_empty(v: JsonValue, key: Seq<char>) -> Option<Seq<JsonValue>> {
    match json_get(v, key) {
        None => Some(Seq::empty()),
        Some(JsonValue::Array(items)) => Some(items),
        Some(_) => None,
    }
}

/// An optional `bool` field.
pub open spec fn field_opt_bool(v: JsonValue, key: Seq<char>) -> Option<Option<bool>> {
    match json_get(v, key) {
        None => Some(None),
        Some(JsonValue::Null) => Some(None),
        Some(JsonValue::Bool(b)) => Some(Some(b)),
        Some(_) => None,
    }
}

/// A `bool` field that reads as `false` when absent.
pub open spec fn field_bool_or_false(v: JsonValue, key: Seq<char>) -> Option<bool> {
    match json_get(v, key) {
        None => Some(false),
        Some(JsonValue::Bool(b)) => Some(b),
        Some(_) => None,
    }
}

/// A `bool` field that reads as `true` when absent.
pub open spec fn field_bool_or_true(v: JsonValue, key: Seq<char>) -> Option<bool> {
    match json_get(v, key) {
        None => Some(true),
        Some(JsonValue::Bool(b)) => Some(b),
        Some(_) => None,
    }
}

/// A required field of any document (`null` included).
pub open spec fn field_doc(v: JsonValue, key: Seq<char>) -> Option<JsonValue> {
    json_get(v, key)
}

/// A required number field, kept as the number the document holds.
pub open spec fn field_number(v: JsonValue, key: Seq<char>) -> Option<NumberValue> {
    match json_get(v, key) {
        Some(JsonValue::Number(n)) => Some(n),
        _ => None,
    }
}

/// An optional number field, kept as the number the document holds.
pub open spec fn field_opt_number(v: JsonValue, key: Seq<char>) -> Option<Option<NumberValue>> {
    match json_get(v, key) {
        None => Some(None),
        Some(JsonValue::Null) => Some(None),
        Some(JsonValue::Number(n)) => Some(Some(n)),
        Some(_) => None,
    }
}

/// A JSON number read as a `u32`: a non-negative integer in range.
pub open spec fn json_as_u32(x: JsonValue) -> Option<u32> {
    match x {
        JsonValue::Number(NumberValue::PosInt(u)) => if u <= 0xffff_ffffu64 {
            Some(u as u32)
        } else {
            None
        },
        _ => None,
    }
}

/// A JSON number read as an `i32`: an integer in range.
pub open spec fn json_as_i32(x: JsonValue) -> Option<i32> {
    match x {
        JsonValue::Number(NumberValue::PosInt(u)) => if u <= 0x7fff_ffffu64 {
            Some(u as i32)
        } else {
            None
        },
        JsonValue::Number(NumberValue::NegInt(i)) => if i >= -0x8000_0000i64 {
            Some(i as i32)
        } else {
            None
        },
        _ => None,
    }
}

/// A `u64` field that reads as `0` when absent.
pub open spec fn field_u64_or_zero(v: JsonValue, key: Seq<char>) -> Option<u64> {
    match json_get(v, key) {
        None => Some(0),
        Some(x) => crate::json::json_as_u64(x),
    }
}

/// A `u32` field that reads as `0` when absent.
pub open spec fn field_u32_or_zero(v: JsonValue, key: Seq<char>) -> Option<u32> {
    match json_get(v, key) {
        None => Some(0),
        Some(x) => json_as_u32(x),
    }
}

/// A required `i64` field.
pub open spec fn field_i64(v: JsonValue, key: Seq<char>) -> Option<i64> {
    match json_get(v, key) {
        Some(x) => json_as_i64(x),
        None => None,
    }
}

/// An optional `i32` field.
pub open spec fn field_opt_i32(v: JsonValue, key: Seq<char>) -> Option<Option<i32>> {
    match json_get(v, key) {
        None => Some(None),
        Some(JsonValue::Null) => Some(None),
        Some(x) => match json_as_i32(x) {
            Some(n) => Some(Some(n)),
            None => None,
        },
    }
}

pub open spec fn opt_number_view(o: Option<JsonNumber>) -> Option<NumberValue> {
    match o {
        Some(n) => Some(number_view(n)),
        None => None,
    }
}

pub open spec fn opt_members_view(o: Option<Members>) -> Option<Seq<(Seq<char>, JsonValue)>> {
    match o {
        Some(m) => Some(m@),
        None => None,
    }
}

/// A field of any document, reading as `null` when absent.
pub open spec fn field_doc_or_null(v: JsonValue, key: Seq<char>) -> JsonValue {
    match json_get(v, key) {
        None => JsonValue::Null,
        Some(x) => x,
    }
}

/// A JSON number read as an `i64`: an integer in range.
pub open spec fn json_as_i64(x: JsonValue) -> Option<i64> {
    match x {
        JsonValue::Number(NumberValue::PosInt(u)) => if u <= 0x7fff_ffff_ffff_ffffu64 {
            Some(u as i64)
        } else {
            None
        },
        JsonValue::Number(NumberValue::NegInt(i)) => Some(i),
        _ => None,
    }
}

/// An integer written as JSON reads back as itself.
pub proof fn lemma_int_value_reads_back(n: i64)
    ensures
        json_as_i64(crate::json::int_value(n)) == Some(n),
{
}

/// An optional `i64` field.
pub open spec fn field_opt_i64(v: JsonValue, key: Seq<char>) -> Option<Option<i64>> {
    match json_get(v, key) {
        None => Some(None),
        Some(JsonValue::Null) => Some(None),
        Some(x) => match json_as_i64(x) {
            Some(n) => Some(Some(n)),
            None => None,
        },
    }
}

/// An object field (its members) that reads as no members when absent.
pub open spec fn field_members_or_empty(v: JsonValue, key: Seq<char>) -> Option<Seq<(Seq<char>, JsonValue)>> {
    match json_get(v, key) {
        None => Some(Seq::empty()),
        Some(JsonValue::Object(ms)) => Some(ms),
        Some(_) => None,
    }
}

/// An optional object field (its members).
pub open spec fn field_opt_members(v: JsonValue, key: Seq<char>) -> Option<Option<Seq<(Seq<char>, JsonValue)>>> {
    match json_get(v, key) {
        None => Some(None),
        Some(JsonValue::Null) => Some(None),
        Some(JsonValue::Object(ms)) => Some(Some(ms)),
        Some(_) => None,
    }
}

/// The sub-document under an optional field: `None` when the field is
/// absent or `null`.
pub open spec fn field_opt_doc(v: JsonValue, key: Seq<char>) -> Option<JsonValue> {
    match json_get(v, key) {
        None => None,
        Some(JsonValue::Null) => None,
        Some(x) => Some(x),
    }
}

pub open spec fn opt_opt_string(o: Option<Option<String>>) -> Option<Option<Seq<char>>> {
    match o {
        Some(Some(s)) => Some(Some(s@)),
        Some(None) => Some(None),
        None => None,
    }
}

pub open spec fn opt_strings(o: Option<Vec<String>>) -> Option<Seq<Seq<char>>> {
    match o {
        Some(v) => Some(strings_view(v@)),
        None => None,
    }
}

pub open spec fn opt_members(o: Option<Vec<(String, Json)>>) -> Option<Seq<(Seq<char>, JsonValue)>> {
    match o {
        Some(es) => Some(members_view(es@)),
        None => None,
    }
}

pub open spec fn opt_opt_members(o: Option<Option<Vec<(String, Json)>>>) -> Option<
    Option<Seq<(Seq<char>, JsonValue)>>,
> {
    match o {
        Some(m) => Some(opt_members(m)),
        None => None,
    }
}

// ---------------------------------------------------------------------------
// Readers
// ---------------------------------------------------------------------------

/// Reads a required string field.
pub fn read_str(v: &Json, key: &str) -> (r: Option<String>)
    ensures
        crate::json::opt_string(r) == crate::json::json_str_member(v@, key@),
{
    v.str_member(key)
}

/// The variant that a document of a field-less enum names: its name as a
/// string, or an object of that one name with `null` as its value.
pub open spec fn enum_tag(x: JsonValue) -> Option<Seq<char>> {
    match x {
        JsonValue::Str(s) => Some(s),
        JsonValue::Object(ms) => if ms.len() == 1 && ms[0].1 == JsonValue::Null {
            Some(ms[0].0)
        } else {
            None
        },
        _ => None,
    }
}

/// The variant name under `key`, where there is one.
pub open spec fn field_enum_tag(v: JsonValue, key: Seq<char>) -> Option<Seq<char>> {
    match json_get(v, key) {
        Some(x) => enum_tag(x),
        None => None,
    }
}

/// Reads the variant name of a required field-less enum field.
pub fn read_enum_tag(v: &Json, key: &str) -> (r: Option<String>)
    ensures
        crate::json::opt_string(r) == field_enum_tag(v@, key@),
{
    match v.get(key) {
        Some(x) => match x {
            Json::Str(s) => Some(s.clone()),
            Json::Object(ms) => {
                let ghost xv = x@;
                assert(xv->Object_0.len() == ms@.len());
                if ms.len() == 1 {
                    assert(xv->Object_0[0] == (ms@[0].0@, json_view(ms@[0].1)));
                    match &ms[0].1 {
                        Json::Null => Some(ms[0].0.clone()),
                        _ => None,
                    }
                } else {
                    None
                }
            },
            _ => None,
        },
        None => None,
    }
}

/// Reads a required string field that may come under a second name.
pub fn read_str_aliased(v: &Json, key: &str, alias: &str) -> (r: Option<String>)
    ensures
        crate::json::opt_string(r) == field_str_aliased(v@, key@, alias@),
{
    match (v.get(key), v.get(alias)) {
        (Some(x), None) => match x.as_str() {
            Some(s) => Some(s.to_owned()),
            None => None,
        },
        (None, Some(x)) => match x.as_str() {
            Some(s) => Some(s.to_owned()),
            None => None,
        },
        _ => None,
    }
}

/// Reads a required `bool` field.
pub fn read_bool(v: &Json, key: &str) -> (r: Option<bool>)
    ensures
        r == field_bool(v@, key@),
{
    match v.get(key) {
        Some(Json::Bool(b)) => Some(*b),
        _ => None,
    }
}

/// Reads an optional string field.
pub fn read_opt_str(v: &Json, key: &str) -> (r: Option<Option<String>>)
    ensures
        opt_opt_string(r) == field_opt_str(v@, key@),
{
    match v.get(key) {
        None => Some(None),
        Some(Json::Null) => Some(None),
        Some(Json::Str(s)) => Some(Some(s.clone())),
        Some(_) => None,
    }
}

/// Reads a string field that defaults to `""`.
pub fn read_str_or_empty(v: &Json, key: &str) -> (r: Option<String>)
    ensures
        crate::json::opt_string(r) == field_str_or_empty(v@, key@),
{
    match v.get(key) {
        None => Some(String::new()),
        Some(Json::Str(s)) => Some(s.clone()),
        Some(_) => None,
    }
}

/// Reads a list of strings.
pub fn read_str_list(x: &Json) -> (r: Option<Vec<String>>)
    ensures
        opt_strings(r) == str_list_of(x@),
{
    match x {
        Json::Array(items) => {
            let ghost whole = x@;
            assert(whole == json_view(Json::Array(*items)));
            let mut out: Vec<String> = Vec::new();
            let mut i: usize = 0;
            while i < items.len()
                invariant
                    i <= items.len(),
                    whole == x@,
                    whole == json_view(Json::Array(*items)),
                    out@.len() == i,
                    forall|k: int| 0 <= k < i ==> json_view(items@[k]) == JsonValue::Str(#[trigger] out@[k]@),
                decreases items.len() - i,
            {
                match &items[i] {
                    Json::Str(s) => {
                        out.push(s.clone());
                    },
                    _ => {
                        assert(whole->Array_0[i as int] == json_view(items@[i as int]));
                        assert(!(whole->Array_0[i as int] is Str));
                        return None;
                    },
                }
                i = i + 1;
            }
            assert forall|k: int| 0 <= k < whole->Array_0.len() implies (#[trigger] whole->Array_0[k]) is Str by {
                assert(whole->Array_0[k] == json_view(items@[k]));
                assert(json_view(items@[k]) == JsonValue::Str(out@[k]@));
            }
            assert forall|k: int| 0 <= k < out@.len() implies #[trigger] strings_view(out@)[k] == whole->Array_0[k]->Str_0 by {
                assert(whole->Array_0[k] == json_view(items@[k]));
                assert(json_view(items@[k]) == JsonValue::Str(out@[k]@));
            }
            assert(strings_view(out@) =~= Seq::new(
                whole->Array_0.len(),
                |k: int| whole->Array_0[k]->Str_0,
            ));
            Some(out)
        },
        _ => None,
    }
}

/// Reads a list-of-strings field that defaults to the empty list.
pub fn read_str_list_or_empty(v: &Json, key: &str) -> (r: Option<Vec<String>>)
    ensures
        opt_strings(r) == field_str_list_or_empty(v@, key@),
{
    match v.get(key) {
        None => {
            let out: Vec<String> = Vec::new();
            assert(strings_view(out@) =~= Seq::<Seq<char>>::empty());
            Some(out)
        },
        Some(x) => read_str_list(x),
    }
}

/// Reads a required list-of-strings field.
pub fn read_str_list_field(v: &Json, key: &str) -> (r: Option<Vec<String>>)
    ensures
        opt_strings(r) == field_str_list(v@, key@),
{
    match v.get(key) {
        None => None,
        Some(x) => read_str_list(x),
    }
}

/// Reads a list-of-documents field that defaults to the empty list.
pub fn read_doc_list_or_empty(v: &Json, key: &str) -> (r: Option<Vec<Json>>)
    ensures
        match r {
            Some(l) => field_doc_list_or_empty(v@, key@) == Some(crate::json::jsons_view(l@)),
            None => field_doc_list_or_empty(v@, key@) is None,
        },
{
    match v.get(key) {
        None => {
            let out: Vec<Json> = Vec::new();
            assert(crate::json::jsons_view(out@) =~= Seq::<JsonValue>::empty());
            Some(out)
        },
        Some(Json::Array(items)) => {
            let ghost whole = json_view(Json::Array(*items));
            let mut out: Vec<Json> = Vec::new();
            let mut i: usize = 0;
            while i < items.len()
                invariant
                    i <= items.len(),
                    whole == json_view(Json::Array(*items)),
                    out@.len() == i,
                    forall|k: int| 0 <= k < i ==> json_view(#[trigger] out@[k]) == json_view(items@[k]),
                decreases items.len() - i,
            {
                out.push(items[i].duplicate());
                i = i + 1;
            }
            assert(crate::json::jsons_view(out@) =~= whole->Array_0);
            Some(out)
        },
        Some(_) => None,
    }
}

/// Reads an optional `bool` field.
pub fn read_opt_bool(v: &Json, key: &str) -> (r: Option<Option<bool>>)
    ensures
        r == field_opt_bool(v@, key@),
{
    match v.get(key) {
        None => Some(None),
        Some(Json::Null) => Some(None),
        Some(Json::Bool(b)) => Some(Some(*b)),
        Some(_) => None,
    }
}

/// Reads a `bool` field that defaults to `false`.
pub fn read_bool_or_false(v: &Json, key: &str) -> (r: Option<bool>)
    ensures
        r == field_bool_or_false(v@, key@),
{
    match v.get(key) {
        None => Some(false),
        Some(Json::Bool(b)) => Some(*b),
        Some(_) => None,
    }
}

/// Reads a `bool` field that defaults to `true`.
pub fn read_bool_or_true(v: &Json, key: &str) -> (r: Option<bool>)
    ensures
        r == field_bool_or_true(v@, key@),
{
    match v.get(key) {
        None => Some(true),
        Some(Json::Bool(b)) => Some(*b),
        Some(_) => None,
    }
}

/// Reads a required field of any document.
pub fn read_doc(v: &Json, key: &str) -> (r: Option<Json>)
    ensures
        opt_json_view(r) == field_doc(v@, key@),
{
    match v.get(key) {
        Some(x) => Some(x.duplicate()),
        None => None,
    }
}

/// Reads an optional field of any document: none when absent or `null`.
pub fn read_opt_doc_owned(v: &Json, key: &str) -> (r: Option<Json>)
    ensures
        opt_json_view(r) == field_opt_doc(v@, key@),
{
    match read_opt_doc(v, key) {
        Some(x) => Some(x.duplicate()),
        None => None,
    }
}

/// A copy of a number.
pub fn copy_number(n: &JsonNumber) -> (r: JsonNumber)
    ensures
        number_view(r) == number_view(*n),
{
    match n {
        JsonNumber::PosInt(u) => JsonNumber::PosInt(*u),
        JsonNumber::NegInt(i) => JsonNumber::NegInt(*i),
        JsonNumber::Float(t) => JsonNumber::Float(t.clone()),
    }
}

/// Reads a required number field.
pub fn read_number(v: &Json, key: &str) -> (r: Option<JsonNumber>)
    ensures
        opt_number_view(r) == field_number(v@, key@),
{
    match v.get(key) {
        Some(Json::Number(n)) => Some(copy_number(n)),
        _ => None,
    }
}

/// Reads an optional number field.
pub fn read_opt_number(v: &Json, key: &str) -> (r: Option<Option<JsonNumber>>)
    ensures
        match r {
            Some(o) => field_opt_number(v@, key@) == Some(opt_number_view(o)),
            None => field_opt_number(v@, key@) is None,
        },
{
    match v.get(key) {
        None => Some(None),
        Some(Json::Null) => Some(None),
        Some(Json::Number(n)) => Some(Some(copy_number(n))),
        Some(_) => None,
    }
}

/// Reads a `u64` field that defaults to `0`.
pub fn read_u64_or_zero(v: &Json, key: &str) -> (r: Option<u64>)
    ensures
        r == field_u64_or_zero(v@, key@),
{
    match v.get(key) {
        None => Some(0),
        Some(x) => x.as_u64(),
    }
}

/// Reads a required `u64` field.
pub fn read_u64(v: &Json, key: &str) -> (r: Option<u64>)
    ensures
        r == crate::json::json_u64_member(v@, key@),
{
    v.u64_member(key)
}

/// Reads a `u32` field that defaults to `0`.
pub fn read_u32_or_zero(v: &Json, key: &str) -> (r: Option<u32>)
    ensures
        r == field_u32_or_zero(v@, key@),
{
    match v.get(key) {
        None => Some(0),
        Some(Json::Number(JsonNumber::PosInt(u))) => {
            if *u <= 0xffff_ffffu64 {
                Some(*u as u32)
            } else {
                None
            }
        },
        Some(_) => None,
    }
}

/// Reads a required `i64` field.
pub fn read_i64(v: &Json, key: &str) -> (r: Option<i64>)
    ensures
        r == field_i64(v@, key@),
{
    match v.get(key) {
        Some(Json::Number(JsonNumber::PosInt(u))) => {
            if *u <= 0x7fff_ffff_ffff_ffffu64 {
                Some(*u as i64)
            } else {
                None
            }
        },
        Some(Json::Number(JsonNumber::NegInt(i))) => Some(*i),
        _ => None,
    }
}

/// Reads an optional `i32` field.
pub fn read_opt_i32(v: &Json, key: &str) -> (r: Option<Option<i32>>)
    ensures
        r == field_opt_i32(v@, key@),
{
    match v.get(key) {
        None => Some(None),
        Some(Json::Null) => Some(None),
        Some(Json::Number(JsonNumber::PosInt(u))) => {
            if *u <= 0x7fff_ffffu64 {
                Some(Some(*u as i32))
            } else {
                None
            }
        },
        Some(Json::Number(JsonNumber::NegInt(i))) => {
            if *i >= -0x8000_0000i64 {
                Some(Some(*i as i32))
            } else {
                None
            }
        },
        Some(_) => None,
    }
}

/// Reads an optional object field as members.
pub fn read_opt_members_of(v: &Json, key: &str) -> (r: Option<Option<Members>>)
    ensures
        match r {
            Some(o) => field_opt_members(v@, key@) == Some(opt_members_view(o)),
            None => field_opt_members(v@, key@) is None,
        },
{
    match read_opt_members(v, key) {
        Some(Some(items)) => Some(Some(Members { items })),
        Some(None) => Some(None),
        None => None,
    }
}

/// Reads a field of any document, `null` when absent.
pub fn read_doc_or_null(v: &Json, key: &str) -> (r: Json)
    ensures
        r@ == field_doc_or_null(v@, key@),
{
    match v.get(key) {
        None => Json::Null,
        Some(x) => x.duplicate(),
    }
}

/// Reads an optional `i64` field.
pub fn read_opt_i64(v: &Json, key: &str) -> (r: Option<Option<i64>>)
    ensures
        r == field_opt_i64(v@, key@),
{
    match v.get(key) {
        None => Some(None),
        Some(Json::Null) => Some(None),
        Some(Json::Number(JsonNumber::PosInt(u))) => {
            if *u <= 0x7fff_ffff_ffff_ffffu64 {
                Some(Some(*u as i64))
            } else {
                None
            }
        },
        Some(Json::Number(JsonNumber::NegInt(i))) => Some(Some(*i)),
        Some(_) => None,
    }
}

/// Copies the members of an object.
pub fn duplicate_members(es: &Vec<(String, Json)>) -> (r: Vec<(String, Json)>)
    ensures
        members_view(r@) == members_view(es@),
{
    let mut out: Vec<(String, Json)> = Vec::new();
    let mut i: usize = 0;
    while i < es.len()
        invariant
            i <= es.len(),
            out@.len() == i,
            forall|k: int|
                0 <= k < i ==> (#[trigger] out@[k]).0@ == es@[k].0@ && json_view(out@[k].1) == json_view(es@[k].1),
        decreases es.len() - i,
    {
        let d = es[i].1.duplicate();
        out.push((es[i].0.clone(), d));
        i = i + 1;
    }
    assert(members_view(out@) =~= members_view(es@));
    out
}

/// The members of an object document; `None` for any other document.
pub fn read_members(x: &Json) -> (r: Option<Vec<(String, Json)>>)
    ensures
        match x@ {
            JsonValue::Object(ms) => r matches Some(es) && members_view(es@) == ms,
            _ => r is None,
        },
{
    match x {
        Json::Object(es) => {
            let out = duplicate_members(es);
            assert(members_view(es@) =~= x@->Object_0);
            Some(out)
        },
        _ => None,
    }
}

/// Reads an object field that defaults to no members.
pub fn read_members_or_empty(v: &Json, key: &str) -> (r: Option<Vec<(String, Json)>>)
    ensures
        opt_members(r) == field_members_or_empty(v@, key@),
{
    match v.get(key) {
        None => {
            let out: Vec<(String, Json)> = Vec::new();
            assert(members_view(out@) =~= Seq::<(Seq<char>, JsonValue)>::empty());
            Some(out)
        },
        Some(x) => read_members(x),
    }
}

/// Reads an optional object field.
pub fn read_opt_members(v: &Json, key: &str) -> (r: Option<Option<Vec<(String, Json)>>>)
    ensures
        opt_opt_members(r) == field_opt_members(v@, key@),
{
    match v.get(key) {
        None => Some(None),
        Some(Json::Null) => Some(None),
        Some(x) => match read_members(x) {
            Some(es) => Some(Some(es)),
            None => None,
        },
    }
}

/// The sub-document under an optional field, when it is present and not
/// `null`.
pub fn read_opt_doc<'a>(v: &'a Json, key: &str) -> (r: Option<&'a Json>)
    ensures
        match r {
            Some(x) => field_opt_doc(v@, key@) == Some(x@),
            None => field_opt_doc(v@, key@) is None,
        },
{
    match v.get(key) {
        None => None,
        Some(Json::Null) => None,
        Some(x) => Some(x),
    }
}


// ---------------------------------------------------------------------------
// Records given as objects or as arrays
// ---------------------------------------------------------------------------

/// The model of a list of field names.
pub open spec fn keys_view(keys: Seq<&str>) -> Seq<Seq<char>> {
    Seq::new(keys.len(), |i: int| keys[i]@)
}

/// The object a record document stands for. A record comes either as an
/// object, or as an array of its field values in declaration order. An array
/// may not be longer than the field list, and may leave out trailing fields
/// only where `defaults` marks them as defaulted; it then stands for the
/// object of the fields it gives. Anything else is no record.
pub open spec fn record_of(v: JsonValue, keys: Seq<Seq<char>>, defaults: Seq<bool>) -> Option<JsonValue> {
    match v {
        JsonValue::Object(_) => Some(v),
        JsonValue::Array(items) => if items.len() <= keys.len() && (forall|i: int|
            items.len() <= i < keys.len() ==> #[trigger] defaults[i]) {
            Some(JsonValue::Object(Seq::new(items.len(), |i: int| (keys[i], items[i]))))
        } else {
            None
        },
        _ => None,
    }
}

/// The object that `v` stands for as a record with the fields `keys`, in
/// declaration order, of which those marked in `defaults` may be left out.
pub fn read_record(v: &Json, keys: &Vec<&str>, defaults: &Vec<bool>) -> (r: Option<Json>)
    requires
        keys@.len() == defaults@.len(),
    ensures
        opt_json_view(r) == record_of(v@, keys_view(keys@), defaults@),
{
    match v {
        Json::Object(_) => Some(v.duplicate()),
        Json::Array(items) => {
            if items.len() > keys.len() {
                assert(v@->Array_0.len() == items@.len());
                return None;
            }
            assert(v@->Array_0.len() == items@.len());
            let mut i: usize = items.len();
            while i < keys.len()
                invariant
                    v@ is Array && v@->Array_0.len() == items@.len(),
                    items@.len() <= i <= keys@.len(),
                    keys@.len() == defaults@.len(),
                    forall|k: int| items@.len() <= k < i ==> #[trigger] defaults@[k],
                decreases keys@.len() - i,
            {
                if !defaults[i] {
                    assert(!defaults@[i as int]);
                    return None;
                }
                i = i + 1;
            }
            let mut members: Vec<(String, Json)> = Vec::new();
            let mut j: usize = 0;
            while j < items.len()
                invariant
                    j <= items@.len() <= keys@.len(),
                    members@.len() == j,
                    forall|k: int| 0 <= k < j ==> (#[trigger] members@[k]).0@ == keys@[k]@ && json_view(
                        members@[k].1,
                    ) == json_view(items@[k]),
                decreases items@.len() - j,
            {
                members.push((keys[j].to_owned(), items[j].duplicate()));
                j = j + 1;
            }
            let r = Json::Object(members);
            proof {
                let ghost iv = v@->Array_0;
                assert(iv.len() == items@.len());
                assert(json_view(r)->Object_0 =~= Seq::new(
                    iv.len(),
                    |k: int| (keys_view(keys@)[k], iv[k]),
                ));
            }
            Some(r)
        },
        _ => None,
    }
}

} // verus!
