//! JSON values as the SDK reads and writes them on the wire.
//!
//! [`Json`] is the executable value; its view [`JsonValue`] is the
//! mathematical model the contracts speak of. Parsing goes through
//! `serde_json`; everything the SDK then reads out of a parsed document is
//! verified here.

use vstd::prelude::*;

verus! {

/// A JSON number. Integers are held exactly; any other number is held as
/// the decimal text `serde_json` renders it with.
#[derive(Clone, Debug)]
pub enum JsonNumber {
    PosInt(u64),
    NegInt(i64),
    Float(String),
}

/// A JSON document.
#[derive(Debug)]
pub enum Json {
    Null,
    Bool(bool),
    Number(JsonNumber),
    Str(String),
    Array(Vec<Json>),
    Object(Vec<(String, Json)>),
}

pub ghost enum NumberValue {
    PosInt(u64),
    NegInt(i64),
    Float(Seq<char>),
}

/// Mathematical model of a JSON document. Objects keep their members in
/// order; a lookup finds the first member with the key.
pub ghost enum JsonValue {
    Null,
    Bool(bool),
    Number(NumberValue),
    Str(Seq<char>),
    Array(Seq<JsonValue>),
    Object(Seq<(Seq<char>, JsonValue)>),
}

pub open spec fn number_view(n: JsonNumber) -> NumberValue {
    match n {
        JsonNumber::PosInt(u) => NumberValue::PosInt(u),
        JsonNumber::NegInt(i) => NumberValue::NegInt(i),
        JsonNumber::Float(s) => NumberValue::Float(s@),
    }
}

pub open spec fn json_view(j: Json) -> JsonValue
    decreases j,
{
    match j {
        Json::Null => JsonValue::Null,
        Json::Bool(b) => JsonValue::Bool(b),
        Json::Number(n) => JsonValue::Number(number_view(n)),
        Json::Str(s) => JsonValue::Str(s@),
        Json::Array(items) => JsonValue::Array(
            Seq::new(
                items@.len(),
                |i: int|
                    if 0 <= i < items@.len() {
                        json_view(items@[i])
                    } else {
                        JsonValue::Null
                    },
            ),
        ),
        Json::Object(entries) => JsonValue::Object(
            Seq::new(
                entries@.len(),
                |i: int|
                    if 0 <= i < entries@.len() {
                        (entries@[i].0@, json_view(entries@[i].1))
                    } else {
                        (Seq::empty(), JsonValue::Null)
                    },
            ),
        ),
    }
}

impl View for Json {
    type V = JsonValue;

    open spec fn view(&self) -> JsonValue {
        json_view(*self)
    }
}

/// The model of a list of object members.
pub open spec fn members_view(es: Seq<(String, Json)>) -> Seq<(Seq<char>, JsonValue)> {
    Seq::new(es.len(), |i: int| (es[i].0@, json_view(es[i].1)))
}

pub open spec fn opt_json_view(o: Option<Json>) -> Option<JsonValue> {
    match o {
        Some(j) => Some(json_view(j)),
        None => None,
    }
}

/// First member of `members` named `key`.
pub open spec fn member_lookup(members: Seq<(Seq<char>, JsonValue)>, key: Seq<char>) -> Option<
    JsonValue,
>
    decreases members.len(),
{
    if members.len() == 0 {
        None
    } else if members[0].0 == key {
        Some(members[0].1)
    } else {
        member_lookup(members.drop_first(), key)
    }
}

/// `serde_json::Value::get` with a string key: the member of an object,
/// `None` for a missing member or a non-object.
pub open spec fn json_get(v: JsonValue, key: Seq<char>) -> Option<JsonValue> {
    match v {
        JsonValue::Object(members) => member_lookup(members, key),
        _ => None,
    }
}

/// The items of the array under `key`; none when the member is missing
/// or is not an array (`get(key).and_then(as_array).cloned().unwrap_or_default()`).
pub open spec fn array_rows(v: JsonValue, key: Seq<char>) -> Seq<JsonValue> {
    match json_get(v, key) {
        Some(JsonValue::Array(items)) => items,
        _ => Seq::empty(),
    }
}

/// A lookup in `a + b` finds the key in `a` first, and in `b` only when
/// `a` lacks it.
pub broadcast proof fn lemma_member_lookup_append(
    a: Seq<(Seq<char>, JsonValue)>,
    b: Seq<(Seq<char>, JsonValue)>,
    key: Seq<char>,
)
    ensures
        #[trigger] member_lookup(a + b, key) == match member_lookup(a, key) {
            Some(x) => Some(x),
            None => member_lookup(b, key),
        },
    decreases a.len(),
{
    if a.len() == 0 {
        assert(a + b =~= b);
    } else {
        assert((a + b).drop_first() =~= a.drop_first() + b);
        lemma_member_lookup_append(a.drop_first(), b, key);
    }
}

/// A lookup in an optional member finds its value under its own key and
/// nothing under any other.
pub broadcast proof fn lemma_member_lookup_opt(key: Seq<char>, value: Option<JsonValue>, k: Seq<char>)
    ensures
        #[trigger] member_lookup(opt_member(key, value), k) == if key == k {
            value
        } else {
            None
        },
{
    match value {
        Some(v) => {
            assert(seq![(key, v)].drop_first() =~= Seq::<(Seq<char>, JsonValue)>::empty());
            reveal_with_fuel(member_lookup, 2);
        },
        None => {},
    }
}

/// Position of the first member named `key`.
pub open spec fn key_index(members: Seq<(Seq<char>, JsonValue)>, key: Seq<char>) -> Option<int>
    decreases members.len(),
{
    if members.len() == 0 {
        None
    } else if members[0].0 == key {
        Some(0)
    } else {
        match key_index(members.drop_first(), key) {
            Some(i) => Some(i + 1),
            None => None,
        }
    }
}

/// `value[key] = v` on an object (the member replaced in place, or
/// appended) or on `null` (which becomes a one-member object).
pub open spec fn with_member(v: JsonValue, key: Seq<char>, value: JsonValue) -> JsonValue {
    match v {
        JsonValue::Object(ms) => JsonValue::Object(
            match key_index(ms, key) {
                Some(i) => ms.update(i, (key, value)),
                None => ms.push((key, value)),
            },
        ),
        _ => JsonValue::Object(seq![(key, value)]),
    }
}

proof fn lemma_key_index_at(members: Seq<(Seq<char>, JsonValue)>, key: Seq<char>, i: int)
    requires
        0 <= i < members.len(),
        members[i].0 == key,
        forall|j: int| 0 <= j < i ==> members[j].0 != key,
    ensures
        key_index(members, key) == Some(i),
    decreases i,
{
    if i > 0 {
        lemma_key_index_at(members.drop_first(), key, i - 1);
    }
}

proof fn lemma_key_index_none(members: Seq<(Seq<char>, JsonValue)>, key: Seq<char>)
    requires
        forall|j: int| 0 <= j < members.len() ==> members[j].0 != key,
    ensures
        key_index(members, key) is None,
    decreases members.len(),
{
    if members.len() > 0 {
        lemma_key_index_none(members.drop_first(), key);
    }
}

/// The model of a list of documents.
pub open spec fn jsons_view(v: Seq<Json>) -> Seq<JsonValue> {
    Seq::new(v.len(), |i: int| json_view(v[i]))
}

/// `serde_json::Value::as_str`.
pub open spec fn json_as_str(v: JsonValue) -> Option<Seq<char>> {
    match v {
        JsonValue::Str(s) => Some(s),
        _ => None,
    }
}

/// `serde_json::Value::as_u64`: only non-negative integers.
pub open spec fn json_as_u64(v: JsonValue) -> Option<u64> {
    match v {
        JsonValue::Number(NumberValue::PosInt(u)) => Some(u),
        _ => None,
    }
}

/// The string member `key` of `v`, if `v` is an object holding one.
pub open spec fn json_str_member(v: JsonValue, key: Seq<char>) -> Option<Seq<char>> {
    match json_get(v, key) {
        Some(m) => json_as_str(m),
        None => None,
    }
}

/// The non-negative integer member `key` of `v`, if present.
pub open spec fn json_u64_member(v: JsonValue, key: Seq<char>) -> Option<u64> {
    match json_get(v, key) {
        Some(m) => json_as_u64(m),
        None => None,
    }
}

pub open spec fn is_object(v: JsonValue) -> bool {
    v is Object
}

/// An object with members in the given order.
pub open spec fn object_of(members: Seq<(Seq<char>, JsonValue)>) -> JsonValue {
    JsonValue::Object(members)
}

/// A one-member list when `value` is present, empty otherwise: how optional
/// fields that serialize only when set appear in a body.
pub open spec fn opt_member(key: Seq<char>, value: Option<JsonValue>) -> Seq<(Seq<char>, JsonValue)> {
    match value {
        Some(v) => seq![(key, v)],
        None => Seq::empty(),
    }
}

/// The member `key: "value"`.
pub open spec fn text_member(key: Seq<char>, value: Seq<char>) -> (Seq<char>, JsonValue) {
    (key, JsonValue::Str(value))
}

/// `key: "value"` when the string is given, nothing otherwise.
pub open spec fn opt_text_member(key: Seq<char>, value: Option<&str>) -> Seq<(Seq<char>, JsonValue)> {
    opt_member(key, opt_str_value(opt_str(value)))
}

/// `key: "value"` when the owned string is given, nothing otherwise.
pub open spec fn opt_string_member(key: Seq<char>, value: Option<String>) -> Seq<(Seq<char>, JsonValue)> {
    opt_member(key, opt_str_value(opt_string(value)))
}

/// `key: value` when the document is given, nothing otherwise.
pub open spec fn opt_json_member(key: Seq<char>, value: Option<Json>) -> Seq<(Seq<char>, JsonValue)> {
    opt_member(key, opt_json_view(value))
}

/// `key: true|false` when the flag is given, nothing otherwise.
pub open spec fn opt_bool_member(key: Seq<char>, value: Option<bool>) -> Seq<(Seq<char>, JsonValue)> {
    opt_member(
        key,
        match value {
            Some(b) => Some(JsonValue::Bool(b)),
            None => None,
        },
    )
}

/// `key: <n>` when the number is given, nothing otherwise.
pub open spec fn opt_uint_member(key: Seq<char>, value: Option<u64>) -> Seq<(Seq<char>, JsonValue)> {
    opt_member(
        key,
        match value {
            Some(n) => Some(uint_value(n)),
            None => None,
        },
    )
}

/// A JSON integer, as `serde_json` holds an `i64`.
pub open spec fn int_value(n: i64) -> JsonValue {
    if n >= 0 {
        JsonValue::Number(NumberValue::PosInt(n as u64))
    } else {
        JsonValue::Number(NumberValue::NegInt(n))
    }
}

/// A non-negative JSON integer.
pub open spec fn uint_value(n: u64) -> JsonValue {
    JsonValue::Number(NumberValue::PosInt(n))
}

pub open spec fn opt_str_value(o: Option<Seq<char>>) -> Option<JsonValue> {
    match o {
        Some(s) => Some(JsonValue::Str(s)),
        None => None,
    }
}

/// A string, or `null` when absent: what `json!` makes of an `Option<&str>`.
pub open spec fn str_or_null(o: Option<Seq<char>>) -> JsonValue {
    match o {
        Some(s) => JsonValue::Str(s),
        None => JsonValue::Null,
    }
}

pub open spec fn str_list_value(items: Seq<Seq<char>>) -> JsonValue {
    JsonValue::Array(Seq::new(items.len(), |i: int| JsonValue::Str(items[i])))
}

pub open spec fn opt_str(o: Option<&str>) -> Option<Seq<char>> {
    match o {
        Some(s) => Some(s@),
        None => None,
    }
}

pub open spec fn opt_string(o: Option<String>) -> Option<Seq<char>> {
    match o {
        Some(s) => Some(s@),
        None => None,
    }
}

pub open spec fn strings_view(v: Seq<String>) -> Seq<Seq<char>> {
    Seq::new(v.len(), |i: int| v[i]@)
}

// ---------------------------------------------------------------------------
// Parsing through serde_json
// ---------------------------------------------------------------------------

/// What `serde_json::from_str::<serde_json::Value>` makes of a text:
/// the document, or `None` when the text is not JSON.
pub uninterp spec fn json_text_parse(text: Seq<char>) -> Option<JsonValue>;

/// What `serde_json::from_slice::<serde_json::Value>` makes of bytes: the
/// document, or the rendered error when the bytes are not JSON.
pub uninterp spec fn json_bytes_parse(bytes: Seq<u8>) -> Result<JsonValue, Seq<char>>;

pub open spec fn parsed_view(r: Result<Json, String>) -> Result<JsonValue, Seq<char>> {
    match r {
        Ok(j) => Ok(json_view(j)),
        Err(e) => Err(e@),
    }
}

/// `serde_json::Value`, carried opaquely from a parse into [`Json`].
#[verifier::external_type_specification]
#[verifier::external_body]
pub struct ExSerdeValue(serde_json::Value);

/// Moves a parsed `serde_json::Value` into a [`Json`], member for member.
#[verifier::external_body]
fn json_of_serde(v: serde_json::Value) -> Json {
    match v {
        serde_json::Value::Null => Json::Null,
        serde_json::Value::Bool(b) => Json::Bool(b),
        serde_json::Value::Number(n) => Json::Number(match (n.as_u64(), n.as_i64()) {
            (Some(u), _) => JsonNumber::PosInt(u),
            (None, Some(i)) => JsonNumber::NegInt(i),
            (None, None) => JsonNumber::Float(n.to_string()),
        }),
        serde_json::Value::String(s) => Json::Str(s),
        serde_json::Value::Array(a) => Json::Array(a.into_iter().map(json_of_serde).collect()),
        serde_json::Value::Object(o) => Json::Object(
            o.into_iter().map(|(k, x)| (k, json_of_serde(x))).collect(),
        ),
    }
}

/// `serde_json::from_str::<serde_json::Value>`. The contract states that
/// the result is the parse of the text, whatever it is; which texts parse
/// to which documents is left to the named result.
#[verifier::external_body]
pub(crate) fn parse_json_text(text: &str) -> (r: Option<Json>)
    ensures
        opt_json_view(r) == json_text_parse(text@),
{
    serde_json::from_str::<serde_json::Value>(text).ok().map(json_of_serde)
}

/// `serde_json::from_slice::<serde_json::Value>`, with the error rendered
/// by its `Display`. The contract states that the result is the parse of
/// the bytes; which bytes parse to which documents is left to the named
/// result.
#[verifier::external_body]
pub(crate) fn parse_json_bytes(bytes: &[u8]) -> (r: Result<Json, String>)
    ensures
        parsed_view(r) == json_bytes_parse(bytes@),
{
    match serde_json::from_slice::<serde_json::Value>(bytes) {
        Ok(v) => Ok(json_of_serde(v)),
        Err(e) => Err(e.to_string()),
    }
}

// ---------------------------------------------------------------------------
// Reading documents
// ---------------------------------------------------------------------------

proof fn lemma_member_lookup_index(members: Seq<(Seq<char>, JsonValue)>, key: Seq<char>, i: int)
    requires
        0 <= i < members.len(),
        members[i].0 == key,
        forall|j: int| 0 <= j < i ==> members[j].0 != key,
    ensures
        member_lookup(members, key) == Some(members[i].1),
    decreases i,
{
    if i > 0 {
        lemma_member_lookup_index(members.drop_first(), key, i - 1);
    }
}

proof fn lemma_member_lookup_none(members: Seq<(Seq<char>, JsonValue)>, key: Seq<char>)
    requires
        forall|j: int| 0 <= j < members.len() ==> members[j].0 != key,
    ensures
        member_lookup(members, key) is None,
    decreases members.len(),
{
    if members.len() > 0 {
        lemma_member_lookup_none(members.drop_first(), key);
    }
}

/// Position of the first member named `key`.
fn key_position(entries: &Vec<(String, Json)>, key: &str) -> (r: Option<usize>)
    ensures
        match r {
            Some(i) => i < entries@.len() && key_index(members_view(entries@), key@) == Some(i as int),
            None => key_index(members_view(entries@), key@) is None,
        },
{
    let ghost ms = members_view(entries@);
    let mut i: usize = 0;
    while i < entries.len()
        invariant
            i <= entries.len(),
            ms == members_view(entries@),
            forall|j: int| 0 <= j < i ==> entries@[j].0@ != key@,
        decreases entries.len() - i,
    {
        if crate::text::str_eq(entries[i].0.as_str(), key) {
            proof {
                lemma_key_index_at(ms, key@, i as int);
            }
            return Some(i);
        }
        i = i + 1;
    }
    proof {
        lemma_key_index_none(ms, key@);
    }
    None
}

impl Json {
    /// The document a JSON text holds, or `None` when the text is not JSON.
    pub fn parse(text: &str) -> (r: Option<Json>)
        ensures
            opt_json_view(r) == json_text_parse(text@),
    {
        parse_json_text(text)
    }

    /// A copy of the document.
    pub fn duplicate(&self) -> (r: Json)
        ensures
            r@ == self@,
        decreases self,
    {
        match self {
            Json::Null => Json::Null,
            Json::Bool(b) => Json::Bool(*b),
            Json::Number(JsonNumber::PosInt(u)) => Json::Number(JsonNumber::PosInt(*u)),
            Json::Number(JsonNumber::NegInt(i)) => Json::Number(JsonNumber::NegInt(*i)),
            Json::Number(JsonNumber::Float(s)) => Json::Number(JsonNumber::Float(s.clone())),
            Json::Str(s) => Json::Str(s.clone()),
            Json::Array(items) => {
                let mut out: Vec<Json> = Vec::new();
                let mut i: usize = 0;
                proof {
                    assert forall|k: int| 0 <= k < items@.len() implies decreases_to!(*self => #[trigger] items@[k]) by {
                        assert(decreases_to!(*self => *items));
                        assert(decreases_to!(*items => items@));
                        assert(decreases_to!(items@ => items@[k]));
                    }
                }
                while i < items.len()
                    invariant
                        i <= items.len(),
                        forall|k: int| 0 <= k < items@.len() ==> decreases_to!(*self => #[trigger] items@[k]),
                        out@.len() == i,
                        forall|k: int| 0 <= k < i ==> json_view(#[trigger] out@[k]) == json_view(items@[k]),
                    decreases items.len() - i,
                {
                    let c = items[i].duplicate();
                    out.push(c);
                    i = i + 1;
                }
                let r = Json::Array(out);
                assert(json_view(r)->Array_0 =~= json_view(*self)->Array_0);
                r
            },
            Json::Object(entries) => {
                let mut out: Vec<(String, Json)> = Vec::new();
                let mut i: usize = 0;
                proof {
                    assert forall|k: int| 0 <= k < entries@.len() implies decreases_to!(*self => #[trigger] entries@[k].1) by {
                        assert(decreases_to!(*self => *entries));
                        assert(decreases_to!(*entries => entries@));
                        assert(decreases_to!(entries@ => entries@[k]));
                        assert(decreases_to!(entries@[k] => entries@[k].1));
                    }
                }
                while i < entries.len()
                    invariant
                        i <= entries.len(),
                        forall|k: int| 0 <= k < entries@.len() ==> decreases_to!(*self => #[trigger] entries@[k].1),
                        out@.len() == i,
                        forall|k: int|
                            0 <= k < i ==> (#[trigger] out@[k]).0@ == entries@[k].0@ && json_view(
                                out@[k].1,
                            ) == json_view(entries@[k].1),
                    decreases entries.len() - i,
                {
                    let c = entries[i].1.duplicate();
                    out.push((entries[i].0.clone(), c));
                    i = i + 1;
                }
                let r = Json::Object(out);
                assert(json_view(r)->Object_0 =~= json_view(*self)->Object_0);
                r
            },
        }
    }

    /// `serde_json::Value::get` with a string key.
    pub fn get(&self, key: &str) -> (r: Option<&Json>)
        ensures
            r matches Some(x) ==> json_get(self@, key@) == Some(x@),
            r is None ==> json_get(self@, key@) is None,
    {
        match self {
            Json::Object(entries) => {
                let mut i: usize = 0;
                assert(json_view(*self)->Object_0 =~= members_view(entries@));
                while i < entries.len()
                    invariant
                        i <= entries.len(),
                        self@ == JsonValue::Object(members_view(entries@)),
                        forall|j: int| 0 <= j < i ==> entries@[j].0@ != key@,
                    decreases entries.len() - i,
                {
                    if crate::text::str_eq(entries[i].0.as_str(), key) {
                        proof {
                            let ms = members_view(entries@);
                            lemma_member_lookup_index(ms, key@, i as int);
                        }
                        return Some(&entries[i].1);
                    }
                    i = i + 1;
                }
                proof {
                    let ms = members_view(entries@);
                    lemma_member_lookup_none(ms, key@);
                }
                None
            },
            _ => None,
        }
    }

    /// `self[key] = value`: on an object the member is replaced in place
    /// or appended; `null` becomes a one-member object. (Other documents
    /// cannot be indexed by a key.)
    pub fn with_member(self, key: &str, value: Json) -> (r: Json)
        requires
            self@ is Object || self@ is Null,
        ensures
            r@ == with_member(self@, key@, value@),
    {
        let ghost old_view = self@;
        let ghost value_view = value@;
        match self {
            Json::Object(mut entries) => {
                let ghost ms = members_view(entries@);
                assert(old_view->Object_0 =~= ms);
                match key_position(&entries, key) {
                    Some(i) => {
                        entries.set(i, (key.to_owned(), value));
                        let r = Json::Object(entries);
                        assert(json_view(r)->Object_0 =~= ms.update(i as int, (key@, value_view)));
                        r
                    },
                    None => {
                        entries.push((key.to_owned(), value));
                        let r = Json::Object(entries);
                        assert(json_view(r)->Object_0 =~= ms.push((key@, value_view)));
                        r
                    },
                }
            },
            _ => {
                let mut entries: Vec<(String, Json)> = Vec::new();
                entries.push((key.to_owned(), value));
                let r = Json::Object(entries);
                assert(json_view(r)->Object_0 =~= seq![(key@, value_view)]);
                r
            },
        }
    }

    /// Copies of the items of the array under `key` (none when the member
    /// is missing or not an array).
    pub fn array_rows(&self, key: &str) -> (r: Vec<Json>)
        ensures
            jsons_view(r@) == array_rows(self@, key@),
    {
        let mut out: Vec<Json> = Vec::new();
        match self.get(key) {
            Some(Json::Array(items)) => {
                let ghost whole = json_view(Json::Array(*items));
                let mut i: usize = 0;
                while i < items.len()
                    invariant
                        i <= items.len(),
                        whole == json_view(Json::Array(*items)),
                        out@.len() == i,
                        forall|k: int| 0 <= k < i ==> json_view(#[trigger] out@[k]) == json_view(items@[k]),
                    decreases items.len() - i,
                {
                    out.push(items[i].duplicate());
                    i = i + 1;
                }
                assert(jsons_view(out@) =~= whole->Array_0);
            },
            _ => {
                assert(jsons_view(out@) =~= array_rows(self@, key@));
            },
        }
        out
    }

    /// `serde_json::Value::as_str`.
    pub fn as_str(&self) -> (r: Option<&str>)
        ensures
            opt_str(r) == json_as_str(self@),
    {
        match self {
            Json::Str(s) => Some(s.as_str()),
            _ => None,
        }
    }

    /// `serde_json::Value::as_u64`.
    pub fn as_u64(&self) -> (r: Option<u64>)
        ensures
            r == json_as_u64(self@),
    {
        match self {
            Json::Number(JsonNumber::PosInt(u)) => Some(*u),
            _ => None,
        }
    }

    /// Whether the document is an object.
    pub fn is_object(&self) -> (r: bool)
        ensures
            r == is_object(self@),
    {
        match self {
            Json::Object(_) => true,
            _ => false,
        }
    }

    /// The string member `key`, if this is an object holding one.
    pub fn str_member(&self, key: &str) -> (r: Option<String>)
        ensures
            opt_string(r) == json_str_member(self@, key@),
    {
        match self.get(key) {
            Some(m) => match m.as_str() {
                Some(s) => Some(s.to_owned()),
                None => None,
            },
            None => None,
        }
    }

    /// The non-negative integer member `key`, if present.
    pub fn u64_member(&self, key: &str) -> (r: Option<u64>)
        ensures
            r == json_u64_member(self@, key@),
    {
        match self.get(key) {
            Some(m) => m.as_u64(),
            None => None,
        }
    }

    /// A JSON string.
    pub fn string(s: &str) -> (r: Json)
        ensures
            r@ == JsonValue::Str(s@),
    {
        Json::Str(s.to_owned())
    }

    /// A JSON string, or `null` when absent.
    pub fn string_or_null(s: Option<&str>) -> (r: Json)
        ensures
            r@ == str_or_null(opt_str(s)),
    {
        match s {
            Some(s) => Json::Str(s.to_owned()),
            None => Json::Null,
        }
    }

    /// A JSON array of strings.
    pub fn string_list(items: &Vec<String>) -> (r: Json)
        ensures
            r@ == str_list_value(strings_view(items@)),
    {
        let mut out: Vec<Json> = Vec::new();
        let mut i: usize = 0;
        while i < items.len()
            invariant
                i <= items.len(),
                out@.len() == i,
                forall|k: int| 0 <= k < i ==> json_view(#[trigger] out@[k]) == JsonValue::Str(items@[k]@),
            decreases items.len() - i,
        {
            out.push(Json::Str(items[i].clone()));
            i = i + 1;
        }
        let r = Json::Array(out);
        assert(json_view(r)->Array_0 =~= str_list_value(strings_view(items@))->Array_0);
        r
    }

    /// A non-negative JSON integer.
    pub fn uint(n: u64) -> (r: Json)
        ensures
            r@ == JsonValue::Number(NumberValue::PosInt(n)),
    {
        Json::Number(JsonNumber::PosInt(n))
    }

    /// A JSON integer.
    pub fn integer(n: i64) -> (r: Json)
        ensures
            r@ == int_value(n),
    {
        if n >= 0 {
            Json::Number(JsonNumber::PosInt(n as u64))
        } else {
            Json::Number(JsonNumber::NegInt(n))
        }
    }
}

/// Members of a JSON object under construction, in insertion order.
#[derive(Debug)]
pub struct Members {
    pub items: Vec<(String, Json)>,
}

impl View for Members {
    type V = Seq<(Seq<char>, JsonValue)>;

    open spec fn view(&self) -> Seq<(Seq<char>, JsonValue)> {
        members_view(self.items@)
    }
}

impl Members {
    pub fn new() -> (m: Members)
        ensures
            m@ == Seq::<(Seq<char>, JsonValue)>::empty(),
    {
        let m = Members { items: Vec::new() };
        assert(m@ =~= Seq::<(Seq<char>, JsonValue)>::empty());
        m
    }

    /// Append the member `key: value`.
    pub fn put(&mut self, key: &str, value: Json)
        ensures
            final(self)@ == old(self)@.push((key@, value@)),
    {
        self.items.push((key.to_owned(), value));
        assert(self@ =~= old(self)@.push((key@, value@)));
    }

    /// Append `key: "value"`.
    pub fn put_str(&mut self, key: &str, value: &str)
        ensures
            final(self)@ == old(self)@.push((key@, JsonValue::Str(value@))),
    {
        self.put(key, Json::string(value));
    }

    /// Append `key: value` when `value` is present.
    pub fn put_opt(&mut self, key: &str, value: Option<Json>)
        ensures
            final(self)@ == old(self)@ + opt_member(key@, opt_json_view(value)),
    {
        match value {
            Some(v) => {
                self.put(key, v);
                assert(final(self)@ =~= old(self)@ + opt_member(key@, opt_json_view(value)));
            },
            None => {
                assert(self@ =~= old(self)@ + opt_member(key@, opt_json_view(value)));
            },
        }
    }

    /// Append `key: "value"` when `value` is present.
    pub fn put_opt_str(&mut self, key: &str, value: Option<&str>)
        ensures
            final(self)@ == old(self)@ + opt_member(key@, opt_str_value(opt_str(value))),
    {
        match value {
            Some(v) => {
                self.put_str(key, v);
                assert(final(self)@ =~= old(self)@ + opt_member(key@, opt_str_value(opt_str(value))));
            },
            None => {
                assert(self@ =~= old(self)@ + opt_member(key@, opt_str_value(opt_str(value))));
            },
        }
    }

    /// Append `key: "value"` when the owned string is present.
    pub fn put_opt_string(&mut self, key: &str, value: Option<String>)
        ensures
            final(self)@ == old(self)@ + opt_string_member(key@, value),
    {
        match value {
            Some(v) => {
                self.put(key, Json::Str(v));
                assert(final(self)@ =~= old(self)@ + opt_string_member(key@, value));
            },
            None => {
                assert(self@ =~= old(self)@ + opt_string_member(key@, value));
            },
        }
    }

    /// Append `key: true|false`.
    pub fn put_bool(&mut self, key: &str, value: bool)
        ensures
            final(self)@ == old(self)@.push((key@, JsonValue::Bool(value))),
    {
        self.put(key, Json::Bool(value));
    }

    /// Append `key: <n>`.
    pub fn put_uint(&mut self, key: &str, value: u64)
        ensures
            final(self)@ == old(self)@.push((key@, uint_value(value))),
    {
        self.put(key, Json::uint(value));
    }

    /// Append `key: true|false` when the flag is present.
    pub fn put_opt_bool(&mut self, key: &str, value: Option<bool>)
        ensures
            final(self)@ == old(self)@ + opt_bool_member(key@, value),
    {
        match value {
            Some(v) => {
                self.put_bool(key, v);
                assert(final(self)@ =~= old(self)@ + opt_bool_member(key@, value));
            },
            None => {
                assert(self@ =~= old(self)@ + opt_bool_member(key@, value));
            },
        }
    }

    /// Append `key: <n>` when the number is present.
    pub fn put_opt_uint(&mut self, key: &str, value: Option<u64>)
        ensures
            final(self)@ == old(self)@ + opt_uint_member(key@, value),
    {
        match value {
            Some(v) => {
                self.put_uint(key, v);
                assert(final(self)@ =~= old(self)@ + opt_uint_member(key@, value));
            },
            None => {
                assert(self@ =~= old(self)@ + opt_uint_member(key@, value));
            },
        }
    }

    /// The finished object.
    pub fn into_json(self) -> (r: Json)
        ensures
            r@ == JsonValue::Object(self@),
    {
        let r = Json::Object(self.items);
        assert(json_view(r)->Object_0 =~= self@);
        r
    }
}

} // verus!
