//! Localized error manifest: the canonical error-code → per-locale message
//! table served by `GET /v1/i18n/errors`, the locale fallback chain
//! (`es-MX` → `es` → `en`), the process-wide manifest cache and its
//! `Cache-Control: max-age` lifetime.

use vstd::prelude::*;
use crate::decode::{keys_view, read_record, record_of};
use crate::text::{
    chars_of, find_char, find_from, lemma_find_char, lemma_find_in_range, parse_u64_chars,
    parse_u64_spec, split_on, string_of_range, trim, trim_bounds,
};
use crate::decode::field_str_list;
use crate::decode::read_str_list_field;
use crate::json::{is_object, json_get, json_str_member, json_view, members_view, strings_view, Json, JsonValue};
use crate::time::{Duration, NANOS_PER_SEC};

verus! {

// ---------------------------------------------------------------------------
// Locale → message map
// ---------------------------------------------------------------------------

/// Locale → message table. Each locale appears at most once; inserting a
/// locale that is already present replaces its message.
pub struct MessageMap {
    entries: Vec<(String, String)>,
}

pub open spec fn pairs_keys_unique(es: Seq<(String, String)>) -> bool {
    forall|i: int, j: int| 0 <= i < j < es.len() ==> es[i].0@ != es[j].0@
}

pub open spec fn pairs_map(es: Seq<(String, String)>) -> Map<Seq<char>, Seq<char>>
    decreases es.len(),
{
    if es.len() == 0 {
        Map::empty()
    } else {
        pairs_map(es.drop_last()).insert(es.last().0@, es.last().1@)
    }
}

proof fn lemma_pairs_map_contains(es: Seq<(String, String)>, k: Seq<char>)
    ensures
        pairs_map(es).dom().contains(k) <==> exists|i: int| 0 <= i < es.len() && es[i].0@ == k,
    decreases es.len(),
{
    if es.len() > 0 {
        lemma_pairs_map_contains(es.drop_last(), k);
        if exists|i: int| 0 <= i < es.len() && es[i].0@ == k {
            let i = choose|i: int| 0 <= i < es.len() && es[i].0@ == k;
            if i < es.len() - 1 {
                assert(es.drop_last()[i] == es[i]);
            }
        }
        if exists|i: int| 0 <= i < es.drop_last().len() && es.drop_last()[i].0@ == k {
            let i = choose|i: int| 0 <= i < es.drop_last().len() && es.drop_last()[i].0@ == k;
            assert(es[i] == es.drop_last()[i]);
        }
    }
}

proof fn lemma_pairs_map_at(es: Seq<(String, String)>, i: int)
    requires
        pairs_keys_unique(es),
        0 <= i < es.len(),
    ensures
        pairs_map(es).dom().contains(es[i].0@),
        pairs_map(es)[es[i].0@] == es[i].1@,
    decreases es.len(),
{
    if i < es.len() - 1 {
        let d = es.drop_last();
        assert(d[i] == es[i]);
        assert forall|a: int, b: int| 0 <= a < b < d.len() implies d[a].0@ != d[b].0@ by {
            assert(d[a] == es[a] && d[b] == es[b]);
        }
        lemma_pairs_map_at(d, i);
        assert(es.last().0@ != es[i].0@);
    }
}

impl View for MessageMap {
    type V = Map<Seq<char>, Seq<char>>;

    closed spec fn view(&self) -> Map<Seq<char>, Seq<char>> {
        pairs_map(self.entries@)
    }
}

impl MessageMap {
    #[verifier::type_invariant]
    closed spec fn keys_unique(self) -> bool {
        pairs_keys_unique(self.entries@)
    }

    /// An empty table.
    pub fn new() -> (m: MessageMap)
        ensures
            m@ == Map::<Seq<char>, Seq<char>>::empty(),
    {
        MessageMap { entries: Vec::new() }
    }

    fn position(&self, locale: &str) -> (r: Option<usize>)
        ensures
            r matches Some(i) ==> i < self.entries@.len() && self.entries@[i as int].0@ == locale@,
            r is None ==> forall|i: int| 0 <= i < self.entries@.len() ==> self.entries@[i].0@ != locale@,
    {
        let mut i: usize = 0;
        while i < self.entries.len()
            invariant
                i <= self.entries@.len(),
                forall|j: int| 0 <= j < i ==> self.entries@[j].0@ != locale@,
            decreases self.entries.len() - i,
        {
            if crate::text::str_eq(self.entries[i].0.as_str(), locale) {
                return Some(i);
            }
            i = i + 1;
        }
        None
    }

    /// The message for `locale`, if the table holds one.
    pub fn get(&self, locale: &str) -> (r: Option<&String>)
        ensures
            r matches Some(m) ==> self@.dom().contains(locale@) && self@[locale@] == m@,
            r is None ==> !self@.dom().contains(locale@),
    {
        proof {
            use_type_invariant(self);
        }
        match self.position(locale) {
            Some(i) => {
                proof {
                    lemma_pairs_map_at(self.entries@, i as int);
                }
                Some(&self.entries[i].1)
            },
            None => {
                proof {
                    lemma_pairs_map_contains(self.entries@, locale@);
                }
                None
            },
        }
    }

    /// Set the message for `locale`, replacing any earlier one.
    pub fn insert(&mut self, locale: String, message: String)
        ensures
            final(self)@ == old(self)@.insert(locale@, message@),
    {
        proof {
            use_type_invariant(&*self);
        }
        let ghost old_es = self.entries@;
        match self.position(locale.as_str()) {
            Some(i) => {
                let mut es = Vec::new();
                std::mem::swap(&mut es, &mut self.entries);
                let ghost before = es@;
                es.set(i, (locale, message));
                proof {
                    lemma_replace_unique(before, i as int, es@[i as int]);
                    lemma_pairs_map_replace(before, i as int, es@[i as int]);
                }
                self.entries = es;
            },
            None => {
                let mut es = Vec::new();
                std::mem::swap(&mut es, &mut self.entries);
                let ghost before = es@;
                es.push((locale, message));
                proof {
                    assert(es@.drop_last() =~= before);
                    assert forall|a: int, b: int| 0 <= a < b < es@.len() implies es@[a].0@ != es@[b].0@ by {
                        if b < es@.len() - 1 {
                            assert(es@[a] == before[a] && es@[b] == before[b]);
                        } else {
                            assert(es@[a] == before[a]);
                        }
                    }
                }
                self.entries = es;
            },
        }
    }

    /// A table built by inserting `pairs` in order, so a later pair for the
    /// same locale wins (what collecting pairs into a map does).
    pub fn from_pairs(pairs: Vec<(String, String)>) -> (m: MessageMap)
        ensures
            m@ == pairs_map(pairs@),
    {
        let mut m = MessageMap::new();
        let mut i: usize = 0;
        while i < pairs.len()
            invariant
                i <= pairs.len(),
                m@ == pairs_map(pairs@.subrange(0, i as int)),
            decreases pairs.len() - i,
        {
            let k = pairs[i].0.clone();
            let v = pairs[i].1.clone();
            m.insert(k, v);
            assert(pairs@.subrange(0, i + 1).drop_last() =~= pairs@.subrange(0, i as int));
            i = i + 1;
        }
        assert(pairs@.subrange(0, i as int) =~= pairs@);
        m
    }

    /// A copy of the table.
    pub fn duplicate(&self) -> (m: MessageMap)
        ensures
            m@ == self@,
    {
        proof {
            use_type_invariant(self);
        }
        let mut es: Vec<(String, String)> = Vec::new();
        let mut i: usize = 0;
        while i < self.entries.len()
            invariant
                i <= self.entries@.len(),
                es@.len() == i,
                forall|k: int|
                    0 <= k < i ==> (#[trigger] es@[k]).0@ == self.entries@[k].0@ && es@[k].1@
                        == self.entries@[k].1@,
            decreases self.entries.len() - i,
        {
            es.push((self.entries[i].0.clone(), self.entries[i].1.clone()));
            i = i + 1;
        }
        proof {
            lemma_pairs_map_same(es@, self.entries@);
        }
        MessageMap { entries: es }
    }

    /// Number of locales in the table.
    pub fn len(&self) -> (r: usize)
        ensures
            r == self@.dom().len(),
    {
        proof {
            use_type_invariant(self);
            lemma_pairs_map_finite(self.entries@);
        }
        self.entries.len()
    }
}

proof fn lemma_pairs_map_finite(es: Seq<(String, String)>)
    requires
        pairs_keys_unique(es),
    ensures
        pairs_map(es).dom().finite(),
        pairs_map(es).dom().len() == es.len(),
    decreases es.len(),
{
    if es.len() > 0 {
        let d = es.drop_last();
        assert forall|a: int, b: int| 0 <= a < b < d.len() implies d[a].0@ != d[b].0@ by {
            assert(d[a] == es[a] && d[b] == es[b]);
        }
        lemma_pairs_map_finite(d);
        lemma_pairs_map_contains(d, es.last().0@);
        if exists|i: int| 0 <= i < d.len() && d[i].0@ == es.last().0@ {
            let i = choose|i: int| 0 <= i < d.len() && d[i].0@ == es.last().0@;
            assert(d[i] == es[i]);
        }
    }
}

proof fn lemma_pairs_map_same(a: Seq<(String, String)>, b: Seq<(String, String)>)
    requires
        a.len() == b.len(),
        forall|k: int| 0 <= k < a.len() ==> (#[trigger] a[k]).0@ == b[k].0@ && a[k].1@ == b[k].1@,
    ensures
        pairs_map(a) == pairs_map(b),
        pairs_keys_unique(a) == pairs_keys_unique(b),
    decreases a.len(),
{
    if a.len() > 0 {
        lemma_pairs_map_same(a.drop_last(), b.drop_last());
    }
    if pairs_keys_unique(a) {
        assert forall|i: int, j: int| 0 <= i < j < b.len() implies b[i].0@ != b[j].0@ by {
            assert(a[i].0@ == b[i].0@ && a[j].0@ == b[j].0@);
        }
    }
    if pairs_keys_unique(b) {
        assert forall|i: int, j: int| 0 <= i < j < a.len() implies a[i].0@ != a[j].0@ by {
            assert(a[i].0@ == b[i].0@ && a[j].0@ == b[j].0@);
        }
    }
}

proof fn lemma_replace_unique(es: Seq<(String, String)>, i: int, p: (String, String))
    requires
        pairs_keys_unique(es),
        0 <= i < es.len(),
        p.0@ == es[i].0@,
    ensures
        pairs_keys_unique(es.update(i, p)),
{
}

proof fn lemma_pairs_map_replace(es: Seq<(String, String)>, i: int, p: (String, String))
    requires
        pairs_keys_unique(es),
        0 <= i < es.len(),
        p.0@ == es[i].0@,
    ensures
        pairs_map(es.update(i, p)) == pairs_map(es).insert(p.0@, p.1@),
    decreases es.len(),
{
    let u = es.update(i, p);
    if i == es.len() - 1 {
        assert(u.drop_last() =~= es.drop_last());
        lemma_pairs_map_contains(es.drop_last(), p.0@);
        assert(pairs_map(u) =~= pairs_map(es).insert(p.0@, p.1@));
    } else {
        let d = es.drop_last();
        assert forall|a: int, b: int| 0 <= a < b < d.len() implies d[a].0@ != d[b].0@ by {
            assert(d[a] == es[a] && d[b] == es[b]);
        }
        assert(u.drop_last() =~= d.update(i, p));
        assert(d[i] == es[i]);
        lemma_pairs_map_replace(d, i, p);
        assert(es.last().0@ != p.0@);
        assert(pairs_map(u) =~= pairs_map(es).insert(p.0@, p.1@));
    }
}

// ---------------------------------------------------------------------------
// Manifest
// ---------------------------------------------------------------------------

// ---------------------------------------------------------------------------
// Reading manifests
// ---------------------------------------------------------------------------

/// The locale → message table an object's members denote: a later member
/// for the same locale replaces an earlier one.
pub open spec fn members_message_map(ms: Seq<(Seq<char>, JsonValue)>) -> Map<Seq<char>, Seq<char>>
    decreases ms.len(),
{
    if ms.len() == 0 {
        Map::empty()
    } else {
        members_message_map(ms.drop_last()).insert(ms.last().0, ms.last().1->Str_0)
    }
}

/// The message table a document denotes: an object whose values are all
/// strings.
pub open spec fn message_map_of(x: JsonValue) -> Option<Map<Seq<char>, Seq<char>>> {
    match x {
        JsonValue::Object(ms) => if forall|i: int| 0 <= i < ms.len() ==> (#[trigger] ms[i]).1 is Str {
            Some(members_message_map(ms))
        } else {
            None
        },
        _ => None,
    }
}

impl MessageMap {
    /// Reads a message table out of a document.
    pub fn from_json(x: &Json) -> (r: Option<MessageMap>)
        ensures
            match r {
                Some(m) => message_map_of(x@) == Some(m@),
                None => message_map_of(x@) is None,
            },
    {
        match x {
            Json::Object(es) => {
                let ghost ms = x@->Object_0;
                assert(ms =~= members_view(es@));
                let mut m = MessageMap::new();
                let mut i: usize = 0;
                assert(ms.take(0) =~= Seq::<(Seq<char>, JsonValue)>::empty());
                while i < es.len()
                    invariant
                        i <= es.len(),
                        ms == x@->Object_0,
                        ms == members_view(es@),
                        forall|k: int| 0 <= k < i ==> (#[trigger] ms[k]).1 is Str,
                        m@ == members_message_map(ms.take(i as int)),
                    decreases es.len() - i,
                {
                    assert(ms[i as int] == (es@[i as int].0@, json_view(es@[i as int].1)));
                    match &es[i].1 {
                        Json::Str(text) => {
                            assert(ms.take(i as int + 1).drop_last() =~= ms.take(i as int));
                            m.insert(es[i].0.clone(), text.clone());
                        },
                        _ => {
                            assert(!(ms[i as int].1 is Str));
                            return None;
                        },
                    }
                    i = i + 1;
                }
                assert(ms.take(es@.len() as int) =~= ms);
                Some(m)
            },
            _ => None,
        }
    }
}

/// One row in the error manifest: the canonical UPPER_SNAKE error code
/// paired with per-locale messages.
pub struct ErrorManifestEntry {
    pub code: String,
    pub messages: MessageMap,
}

/// Top-level shape served by `GET /v1/i18n/errors`.
pub struct ErrorManifest {
    pub version: String,
    pub locales: Vec<String>,
    pub errors: Vec<ErrorManifestEntry>,
}

pub ghost struct EntryView {
    pub code: Seq<char>,
    pub messages: Map<Seq<char>, Seq<char>>,
}

impl View for ErrorManifestEntry {
    type V = EntryView;

    open spec fn view(&self) -> EntryView {
        EntryView { code: self.code@, messages: self.messages@ }
    }
}

pub open spec fn entries_view(es: Seq<ErrorManifestEntry>) -> Seq<EntryView> {
    Seq::new(es.len(), |i: int| es[i]@)
}

impl ErrorManifestEntry {
    /// A copy of the entry.
    pub fn duplicate(&self) -> (r: ErrorManifestEntry)
        ensures
            r@ == self@,
    {
        ErrorManifestEntry { code: self.code.clone(), messages: self.messages.duplicate() }
    }
}

/// Code → entry index; for a code listed more than once the last entry
/// wins, as when the rows are collected into a map in order.
pub open spec fn index_of(errors: Seq<EntryView>) -> Map<Seq<char>, EntryView>
    decreases errors.len(),
{
    if errors.len() == 0 {
        Map::empty()
    } else {
        index_of(errors.drop_last()).insert(errors.last().code, errors.last())
    }
}

/// Code-indexed view of a manifest, for lookups by code.
pub struct CodeIndex {
    entries: Vec<ErrorManifestEntry>,
}

impl View for CodeIndex {
    type V = Map<Seq<char>, EntryView>;

    closed spec fn view(&self) -> Map<Seq<char>, EntryView> {
        index_of(entries_view(self.entries@))
    }
}

proof fn lemma_index_of_unique_contains(es: Seq<EntryView>, code: Seq<char>)
    ensures
        index_of(es).dom().contains(code) <==> exists|i: int| 0 <= i < es.len() && es[i].code == code,
    decreases es.len(),
{
    if es.len() > 0 {
        lemma_index_of_unique_contains(es.drop_last(), code);
        if exists|i: int| 0 <= i < es.len() && es[i].code == code {
            let i = choose|i: int| 0 <= i < es.len() && es[i].code == code;
            if i < es.len() - 1 {
                assert(es.drop_last()[i] == es[i]);
            }
        }
        if exists|i: int| 0 <= i < es.drop_last().len() && es.drop_last()[i].code == code {
            let i = choose|i: int| 0 <= i < es.drop_last().len() && es.drop_last()[i].code == code;
            assert(es[i] == es.drop_last()[i]);
        }
    }
}

/// The index maps a code to its last entry.
proof fn lemma_index_of_last(es: Seq<EntryView>, code: Seq<char>, i: int)
    requires
        0 <= i < es.len(),
        es[i].code == code,
        forall|j: int| i < j < es.len() ==> es[j].code != code,
    ensures
        index_of(es).dom().contains(code),
        index_of(es)[code] == es[i],
    decreases es.len(),
{
    if i < es.len() - 1 {
        let d = es.drop_last();
        assert(d[i] == es[i]);
        assert forall|j: int| i < j < d.len() implies d[j].code != code by {
            assert(d[j] == es[j]);
        }
        lemma_index_of_last(d, code, i);
    }
}

impl CodeIndex {
    /// The entry filed under `code`.
    pub fn get(&self, code: &str) -> (r: Option<&ErrorManifestEntry>)
        ensures
            r matches Some(e) ==> self@.dom().contains(code@) && self@[code@] == e@,
            r is None ==> !self@.dom().contains(code@),
    {
        let ghost es = entries_view(self.entries@);
        let mut i: usize = self.entries.len();
        while i > 0
            invariant
                i <= self.entries@.len(),
                es == entries_view(self.entries@),
                forall|j: int| i <= j < self.entries@.len() ==> self.entries@[j].code@ != code@,
            decreases i,
        {
            let k = i - 1;
            if crate::text::str_eq(self.entries[k].code.as_str(), code) {
                proof {
                    assert forall|j: int| k < j < es.len() implies es[j].code != code@ by {
                        assert(es[j] == self.entries@[j]@);
                    }
                    lemma_index_of_last(es, code@, k as int);
                }
                return Some(&self.entries[k]);
            }
            i = k;
        }
        proof {
            lemma_index_of_unique_contains(es, code@);
            if exists|j: int| 0 <= j < es.len() && es[j].code == code@ {
                let j = choose|j: int| 0 <= j < es.len() && es[j].code == code@;
                assert(es[j] == self.entries@[j]@);
            }
        }
        None
    }
}

/// Whether `e` is what the object `v` reads as: the code and the
/// message table required.
pub open spec fn is_manifest_entry_fields_of(v: JsonValue, e: ErrorManifestEntry) -> bool {
    &&& is_object(v)
    &&& json_str_member(v, "code"@) == Some(e.code@)
    &&& json_get(v, "messages"@) matches Some(x) && message_map_of(x) == Some(e.messages@)
}

/// Whether the object `v` reads as a manifest entry.
pub open spec fn reads_as_manifest_entry_fields(v: JsonValue) -> bool {
    &&& is_object(v)
    &&& json_str_member(v, "code"@) is Some
    &&& json_get(v, "messages"@) matches Some(x) && message_map_of(x) is Some
}

/// The field names of an `ErrorManifestEntry`, in declaration order.
pub open spec fn manifest_entry_keys() -> Seq<Seq<char>> {
    seq!["code"@, "messages"@]
}

/// Which fields of an `ErrorManifestEntry` may be left out.
pub open spec fn manifest_entry_defaults() -> Seq<bool> {
    seq![false, false]
}

/// Whether `x` is what the record document `v` (an object, or an array of
/// the fields in order) reads as.
pub open spec fn is_manifest_entry_of(v: JsonValue, x: ErrorManifestEntry) -> bool {
    record_of(v, manifest_entry_keys(), manifest_entry_defaults()) matches Some(o) && is_manifest_entry_fields_of(o, x)
}

/// Whether the record document `v` reads as an `ErrorManifestEntry`.
pub open spec fn reads_as_manifest_entry(v: JsonValue) -> bool {
    record_of(v, manifest_entry_keys(), manifest_entry_defaults()) matches Some(o) && reads_as_manifest_entry_fields(o)
}

/// Whether `l` is what the list document `x` reads as, entry by entry.
pub open spec fn is_manifest_entry_items_of(x: JsonValue, l: Seq<ErrorManifestEntry>) -> bool {
    &&& x is Array
    &&& l.len() == x->Array_0.len()
    &&& forall|i: int| 0 <= i < l.len() ==> is_manifest_entry_of(x->Array_0[i], #[trigger] l[i])
}

/// Whether `x` is a list whose every item reads as an entry.
pub open spec fn reads_as_manifest_entry_items(x: JsonValue) -> bool {
    &&& x is Array
    &&& forall|i: int| 0 <= i < x->Array_0.len() ==> reads_as_manifest_entry(#[trigger] x->Array_0[i])
}

/// Whether `m` is what the object `v` reads as: version, locales and
/// entries all required.
pub open spec fn is_manifest_fields_of(v: JsonValue, m: ErrorManifest) -> bool {
    &&& is_object(v)
    &&& json_str_member(v, "version"@) == Some(m.version@)
    &&& field_str_list(v, "locales"@) == Some(strings_view(m.locales@))
    &&& json_get(v, "errors"@) matches Some(x) && is_manifest_entry_items_of(x, m.errors@)
}

/// Whether the object `v` reads as a manifest.
pub open spec fn reads_as_manifest_fields(v: JsonValue) -> bool {
    &&& is_object(v)
    &&& json_str_member(v, "version"@) is Some
    &&& field_str_list(v, "locales"@) is Some
    &&& json_get(v, "errors"@) matches Some(x) && reads_as_manifest_entry_items(x)
}

/// The field names of an `ErrorManifest`, in declaration order.
pub open spec fn manifest_keys() -> Seq<Seq<char>> {
    seq!["version"@, "locales"@, "errors"@]
}

/// Which fields of an `ErrorManifest` may be left out.
pub open spec fn manifest_defaults() -> Seq<bool> {
    seq![false, false, false]
}

/// Whether `x` is what the record document `v` (an object, or an array of
/// the fields in order) reads as.
pub open spec fn is_manifest_of(v: JsonValue, x: ErrorManifest) -> bool {
    record_of(v, manifest_keys(), manifest_defaults()) matches Some(o) && is_manifest_fields_of(o, x)
}

/// Whether the record document `v` reads as an `ErrorManifest`.
pub open spec fn reads_as_manifest(v: JsonValue) -> bool {
    record_of(v, manifest_keys(), manifest_defaults()) matches Some(o) && reads_as_manifest_fields(o)
}

impl ErrorManifestEntry {
    /// Reads an `ErrorManifestEntry` out of a document: an object, or an array of the
    /// fields in declaration order.
    pub fn from_json(v: &Json) -> (r: Option<ErrorManifestEntry>)
        ensures
            r is Some <==> reads_as_manifest_entry(v@),
            r matches Some(x) ==> is_manifest_entry_of(v@, x),
    {
        let mut keys: Vec<&str> = Vec::new();
        let mut defaults: Vec<bool> = Vec::new();
        keys.push("code");
        defaults.push(false);
        keys.push("messages");
        defaults.push(false);
        proof {
            assert(keys_view(keys@) =~= manifest_entry_keys());
            assert(defaults@ =~= manifest_entry_defaults());
        }
        match read_record(v, &keys, &defaults) {
            Some(doc) => Self::from_fields(&doc),
            None => None,
        }
    }

    /// Reads the record out of the object it stands for.
    fn from_fields(v: &Json) -> (r: Option<ErrorManifestEntry>)
        ensures
            r is Some <==> reads_as_manifest_entry_fields(v@),
            r matches Some(e) ==> is_manifest_entry_fields_of(v@, e),
    {
        if !v.is_object() {
            return None;
        }
        let code = match v.str_member("code") {
            Some(c) => c,
            None => return None,
        };
        let messages = match v.get("messages") {
            Some(x) => match MessageMap::from_json(x) {
                Some(m) => m,
                None => return None,
            },
            None => return None,
        };
        Some(ErrorManifestEntry { code, messages })
    }

    /// Reads a list of manifest entries: an array whose every item reads as
    /// one.
    pub fn list_from_json(v: &Json) -> (r: Option<Vec<ErrorManifestEntry>>)
        ensures
            r is Some <==> reads_as_manifest_entry_items(v@),
            r matches Some(l) ==> is_manifest_entry_items_of(v@, l@),
    {
        match v {
            Json::Array(items) => {
                let ghost whole = v@;
                let mut out: Vec<ErrorManifestEntry> = Vec::new();
                let mut i: usize = 0;
                while i < items.len()
                    invariant
                        i <= items.len(),
                        whole == v@,
                        whole == json_view(Json::Array(*items)),
                        out@.len() == i,
                        forall|k: int| 0 <= k < i ==> is_manifest_entry_of(whole->Array_0[k], #[trigger] out@[k]),
                    decreases items.len() - i,
                {
                    assert(whole->Array_0[i as int] == items@[i as int]@);
                    match ErrorManifestEntry::from_json(&items[i]) {
                        Some(e) => out.push(e),
                        None => return None,
                    }
                    i = i + 1;
                }
                assert forall|k: int| 0 <= k < whole->Array_0.len() implies reads_as_manifest_entry(
                    #[trigger] whole->Array_0[k],
                ) by {
                    assert(is_manifest_entry_of(whole->Array_0[k], out@[k]));
                }
                Some(out)
            },
            _ => None,
        }
    }
}

impl ErrorManifest {
    /// Reads an `ErrorManifest` out of a document: an object, or an array of the
    /// fields in declaration order.
    pub fn from_json(v: &Json) -> (r: Option<ErrorManifest>)
        ensures
            r is Some <==> reads_as_manifest(v@),
            r matches Some(x) ==> is_manifest_of(v@, x),
    {
        let mut keys: Vec<&str> = Vec::new();
        let mut defaults: Vec<bool> = Vec::new();
        keys.push("version");
        defaults.push(false);
        keys.push("locales");
        defaults.push(false);
        keys.push("errors");
        defaults.push(false);
        proof {
            assert(keys_view(keys@) =~= manifest_keys());
            assert(defaults@ =~= manifest_defaults());
        }
        match read_record(v, &keys, &defaults) {
            Some(doc) => Self::from_fields(&doc),
            None => None,
        }
    }

    /// Reads the record out of the object it stands for.
    fn from_fields(v: &Json) -> (r: Option<ErrorManifest>)
        ensures
            r is Some <==> reads_as_manifest_fields(v@),
            r matches Some(m) ==> is_manifest_fields_of(v@, m),
    {
        if !v.is_object() {
            return None;
        }
        let version = match v.str_member("version") {
            Some(s) => s,
            None => return None,
        };
        let locales = match read_str_list_field(v, "locales") {
            Some(l) => l,
            None => return None,
        };
        let errors = match v.get("errors") {
            Some(x) => match ErrorManifestEntry::list_from_json(x) {
                Some(l) => l,
                None => return None,
            },
            None => return None,
        };
        Some(ErrorManifest { version, locales, errors })
    }
}

impl ErrorManifest {
    /// Build a code-indexed map for fast lookup. A code listed twice maps to
    /// its last entry.
    pub fn by_code(&self) -> (r: CodeIndex)
        ensures
            r@ == index_of(entries_view(self.errors@)),
    {
        let mut copies: Vec<ErrorManifestEntry> = Vec::new();
        let mut i: usize = 0;
        while i < self.errors.len()
            invariant
                i <= self.errors.len(),
                copies@.len() == i,
                forall|k: int| 0 <= k < i ==> (#[trigger] copies@[k])@ == self.errors@[k]@,
            decreases self.errors.len() - i,
        {
            copies.push(self.errors[i].duplicate());
            i = i + 1;
        }
        let r = CodeIndex { entries: copies };
        assert(entries_view(r.entries@) =~= entries_view(self.errors@));
        r
    }

    /// A copy of the manifest.
    pub fn duplicate(&self) -> (r: ErrorManifest)
        ensures
            r@ == self@,
    {
        let mut copies: Vec<ErrorManifestEntry> = Vec::new();
        let mut i: usize = 0;
        while i < self.errors.len()
            invariant
                i <= self.errors.len(),
                copies@.len() == i,
                forall|k: int| 0 <= k < i ==> (#[trigger] copies@[k])@ == self.errors@[k]@,
            decreases self.errors.len() - i,
        {
            copies.push(self.errors[i].duplicate());
            i = i + 1;
        }
        let r = ErrorManifest {
            version: self.version.clone(),
            locales: self.locales.clone(),
            errors: copies,
        };
        assert(entries_view(r.errors@) =~= entries_view(self.errors@));
        assert(crate::json::strings_view(r.locales@) =~= crate::json::strings_view(self.locales@));
        r
    }
}

pub ghost struct ManifestView {
    pub version: Seq<char>,
    pub locales: Seq<Seq<char>>,
    pub errors: Seq<EntryView>,
}

impl View for ErrorManifest {
    type V = ManifestView;

    open spec fn view(&self) -> ManifestView {
        ManifestView {
            version: self.version@,
            locales: crate::json::strings_view(self.locales@),
            errors: entries_view(self.errors@),
        }
    }
}

// ---------------------------------------------------------------------------
// Locale fallback chain
// ---------------------------------------------------------------------------

/// The language part of a tagged locale: the text before the first `-`,
/// when there is such a dash and it is not the first character.
pub open spec fn base_locale(locale: Seq<char>) -> Option<Seq<char>> {
    match find_char(locale, '-') {
        Some(d) => if d > 0 {
            Some(locale.subrange(0, d))
        } else {
            None
        },
        None => None,
    }
}

/// The locale fallback chain: the locale itself (when not empty), then its
/// language part (when it has one and it is new), then `en` (when not
/// already listed).
pub open spec fn candidates(locale: Seq<char>) -> Seq<Seq<char>> {
    let first: Seq<Seq<char>> = if locale.len() > 0 {
        seq![locale]
    } else {
        Seq::empty()
    };
    let second = match base_locale(locale) {
        Some(b) => if first.contains(b) {
            first
        } else {
            first.push(b)
        },
        None => first,
    };
    if second.contains("en"@) {
        second
    } else {
        second.push("en"@)
    }
}

fn contains_string(v: &Vec<String>, s: &str) -> (r: bool)
    ensures
        r == crate::json::strings_view(v@).contains(s@),
{
    let mut i: usize = 0;
    while i < v.len()
        invariant
            i <= v.len(),
            forall|j: int| 0 <= j < i ==> v@[j]@ != s@,
        decreases v.len() - i,
    {
        if crate::text::str_eq(v[i].as_str(), s) {
            assert(crate::json::strings_view(v@)[i as int] == s@);
            return true;
        }
        i = i + 1;
    }
    false
}

/// Build the locale fallback chain.
///
/// * `"es-MX"`     → `["es-MX", "es", "en"]`
/// * `"en"`        → `["en"]`
/// * `"zh-Hant-TW"`→ `["zh-Hant-TW", "zh", "en"]` (strip on first dash)
/// * `""`          → `["en"]`
pub fn candidate_locales(locale: &str) -> (r: Vec<String>)
    ensures
        crate::json::strings_view(r@) == candidates(locale@),
{
    let mut out: Vec<String> = Vec::new();
    let cs = chars_of(locale);
    if cs.len() > 0 {
        out.push(locale.to_owned());
    }
    let ghost first = crate::json::strings_view(out@);
    assert(first =~= (if locale@.len() > 0 { seq![locale@] } else { Seq::<Seq<char>>::empty() }));
    let dash = find_from(&cs, '-', 0, cs.len());
    proof {
        lemma_find_in_range(cs@, '-', 0, cs@.len() as int, dash as int);
        assert(cs@.subrange(0, cs@.len() as int) =~= cs@);
    }
    if dash < cs.len() && dash > 0 {
        let base = string_of_range(&cs, 0, dash);
        if !contains_string(&out, base.as_str()) {
            out.push(base);
            assert(crate::json::strings_view(out@) =~= first.push(locale@.subrange(0, dash as int)));
        }
    }
    let ghost second = crate::json::strings_view(out@);
    if !contains_string(&out, "en") {
        out.push("en".to_owned());
        assert(crate::json::strings_view(out@) =~= second.push("en"@));
    }
    out
}

// ---------------------------------------------------------------------------
// Resolution
// ---------------------------------------------------------------------------

/// `fallback` when it is present and not empty, the bare `code` otherwise.
pub open spec fn fallback_or_code_spec(code: Seq<char>, fallback: Option<Seq<char>>) -> Seq<char> {
    match fallback {
        Some(f) => if f.len() > 0 {
            f
        } else {
            code
        },
        None => code,
    }
}

/// First non-empty message among `locales`, in order.
pub open spec fn first_message(messages: Map<Seq<char>, Seq<char>>, locales: Seq<Seq<char>>) -> Option<
    Seq<char>,
>
    decreases locales.len(),
{
    if locales.len() == 0 {
        None
    } else if messages.dom().contains(locales[0]) && messages[locales[0]].len() > 0 {
        Some(messages[locales[0]])
    } else {
        first_message(messages, locales.drop_first())
    }
}

/// The message an entry gives for `locale` along the fallback chain, or
/// the fallback when the chain finds nothing.
pub open spec fn resolve_entry(
    entry: Option<EntryView>,
    code: Seq<char>,
    locale: Seq<char>,
    fallback: Option<Seq<char>>,
) -> Seq<char> {
    match entry {
        Some(e) => match first_message(e.messages, candidates(locale)) {
            Some(m) => m,
            None => fallback_or_code_spec(code, fallback),
        },
        None => fallback_or_code_spec(code, fallback),
    }
}

/// First entry listed under `code`.
pub open spec fn first_entry(errors: Seq<EntryView>, code: Seq<char>) -> Option<EntryView>
    decreases errors.len(),
{
    if errors.len() == 0 {
        None
    } else if errors[0].code == code {
        Some(errors[0])
    } else {
        first_entry(errors.drop_first(), code)
    }
}

/// What [`resolve_manifest`] returns.
pub open spec fn resolve_manifest_spec(
    manifest: ManifestView,
    code: Seq<char>,
    locale: Seq<char>,
    fallback: Option<Seq<char>>,
) -> Seq<char> {
    resolve_entry(first_entry(manifest.errors, code), code, locale, fallback)
}

/// `fallback` when present and not empty, the bare `code` otherwise.
pub fn fallback_or_code(code: &str, fallback: Option<&str>) -> (r: String)
    ensures
        r@ == fallback_or_code_spec(code@, crate::json::opt_str(fallback)),
{
    match fallback {
        Some(f) => if !f.is_empty() {
            f.to_owned()
        } else {
            code.to_owned()
        },
        None => code.to_owned(),
    }
}

/// The first non-empty message among the candidate locales.
fn message_along(messages: &MessageMap, locale: &str) -> (r: Option<String>)
    ensures
        crate::json::opt_string(r) == first_message(messages@, candidates(locale@)),
{
    let cands = candidate_locales(locale);
    let ghost cv = crate::json::strings_view(cands@);
    let mut i: usize = 0;
    assert(cv.subrange(0, cv.len() as int) =~= cv);
    while i < cands.len()
        invariant
            i <= cands.len(),
            cv == crate::json::strings_view(cands@),
            cv == candidates(locale@),
            first_message(messages@, cv) == first_message(messages@, cv.subrange(i as int, cv.len() as int)),
        decreases cands.len() - i,
    {
        let ghost rest = cv.subrange(i as int, cv.len() as int);
        assert(rest[0] == cands@[i as int]@);
        assert(rest.drop_first() =~= cv.subrange(i + 1, cv.len() as int));
        match messages.get(cands[i].as_str()) {
            Some(m) => {
                if !m.as_str().is_empty() {
                    return Some(m.clone());
                }
            },
            None => {},
        }
        i = i + 1;
    }
    assert(cv.subrange(i as int, cv.len() as int) =~= Seq::<Seq<char>>::empty());
    None
}

/// Resolve `code` to a localized message against `manifest`: the first
/// entry with that code, then the first non-empty message along the
/// locale fallback chain, else the fallback (or the bare code).
pub fn resolve_manifest(manifest: &ErrorManifest, code: &str, locale: &str, fallback: Option<&str>) -> (r:
    String)
    ensures
        r@ == resolve_manifest_spec(manifest@, code@, locale@, crate::json::opt_str(fallback)),
{
    let ghost es = entries_view(manifest.errors@);
    let mut i: usize = 0;
    assert(es.subrange(0, es.len() as int) =~= es);
    while i < manifest.errors.len()
        invariant
            i <= manifest.errors.len(),
            es == entries_view(manifest.errors@),
            first_entry(es, code@) == first_entry(es.subrange(i as int, es.len() as int), code@),
        decreases manifest.errors.len() - i,
    {
        let ghost rest = es.subrange(i as int, es.len() as int);
        assert(rest[0] == manifest.errors@[i as int]@);
        assert(rest.drop_first() =~= es.subrange(i + 1, es.len() as int));
        let entry = &manifest.errors[i];
        if crate::text::str_eq(entry.code.as_str(), code) {
            return match message_along(&entry.messages, locale) {
                Some(m) => m,
                None => fallback_or_code(code, fallback),
            };
        }
        i = i + 1;
    }
    assert(es.subrange(i as int, es.len() as int) =~= Seq::<EntryView>::empty());
    fallback_or_code(code, fallback)
}

// ---------------------------------------------------------------------------
// Process-wide manifest cache
// ---------------------------------------------------------------------------

/// A cached manifest with its code index, fetch time and lifetime.
pub struct CachedManifest {
    pub manifest: ErrorManifest,
    pub by_code: CodeIndex,
    pub fetched_at: Duration,
    pub ttl: Duration,
}

/// The manifest cache that [`crate::OlympusError::localized_message`] reads.
/// Times are readings of a monotonic clock, as spans since its origin.
pub struct ManifestCache {
    pub cached: Option<CachedManifest>,
}

pub open spec fn cache_valid(c: Option<CachedManifest>) -> bool {
    match c {
        Some(e) => e.by_code@ == index_of(e.manifest@.errors),
        None => true,
    }
}

/// Whether an entry fetched at `fetched_at` with lifetime `ttl` is still
/// fresh at `now`.
pub open spec fn is_fresh(fetched_at: nat, ttl: nat, now: nat) -> bool {
    (if now >= fetched_at {
        now - fetched_at
    } else {
        0
    }) < ttl
}

impl ManifestCache {
    pub open spec fn wf(&self) -> bool {
        cache_valid(self.cached)
    }

    /// An empty cache.
    pub fn new() -> (c: ManifestCache)
        ensures
            c.wf(),
            c.cached is None,
    {
        ManifestCache { cached: None }
    }

    /// Replace the cache with `manifest`, fetched at `now`, living `ttl`.
    pub fn store(&mut self, manifest: ErrorManifest, ttl: Duration, now: Duration)
        ensures
            final(self).wf(),
            final(self).cached matches Some(e) && e.manifest@ == manifest@ && e.ttl == ttl
                && e.fetched_at == now,
    {
        let by_code = manifest.by_code();
        self.cached = Some(CachedManifest { manifest, by_code, fetched_at: now, ttl });
    }

    /// Drop the cached manifest.
    pub fn reset(&mut self)
        ensures
            final(self).wf(),
            final(self).cached is None,
    {
        self.cached = None;
    }
}

/// The cached manifest when it is still fresh at `now`.
pub fn cache_get_if_fresh(cache: &ManifestCache, now: Duration) -> (r: Option<&ErrorManifest>)
    ensures
        match cache.cached {
            Some(e) => if is_fresh(e.fetched_at@, e.ttl@, now@) {
                r == Some(&e.manifest)
            } else {
                r is None
            },
            None => r is None,
        },
{
    match &cache.cached {
        Some(entry) => {
            let elapsed = now.saturating_sub(entry.fetched_at);
            if elapsed.is_shorter_than(&entry.ttl) {
                Some(&entry.manifest)
            } else {
                None
            }
        },
        None => None,
    }
}

/// The cached manifest, fresh or not.
pub fn cache_get_unchecked(cache: &ManifestCache) -> (r: Option<&ErrorManifest>)
    ensures
        match cache.cached {
            Some(e) => r == Some(&e.manifest),
            None => r is None,
        },
{
    match &cache.cached {
        Some(entry) => Some(&entry.manifest),
        None => None,
    }
}

/// The code index of the cached manifest, fresh or not.
pub fn cache_get_by_code(cache: &ManifestCache) -> (r: Option<&CodeIndex>)
    ensures
        match cache.cached {
            Some(e) => r == Some(&e.by_code),
            None => r is None,
        },
{
    match &cache.cached {
        Some(entry) => Some(&entry.by_code),
        None => None,
    }
}

/// Fill `cache` with `manifest` as of `now` (the store the manifest fetch
/// performs).
pub fn cache_store(cache: &mut ManifestCache, manifest: ErrorManifest, ttl: Duration, now: Duration)
    ensures
        final(cache).wf(),
        final(cache).cached matches Some(e) && e.manifest@ == manifest@ && e.ttl == ttl && e.fetched_at
            == now,
{
    cache.store(manifest, ttl, now);
}

/// Empty the cache.
pub fn _reset_cache_for_tests(cache: &mut ManifestCache)
    ensures
        final(cache).wf(),
        final(cache).cached is None,
{
    cache.reset();
}

/// Seed the cache with `manifest`, fetched at the clock's origin.
pub fn _seed_cache_for_tests(cache: &mut ManifestCache, manifest: ErrorManifest, ttl: Duration)
    ensures
        final(cache).wf(),
        final(cache).cached matches Some(e) && e.manifest@ == manifest@ && e.ttl == ttl && e.fetched_at@
            == 0,
{
    cache_store(cache, manifest, ttl, Duration::zero());
}

/// The manifest a fetch can be answered with from the cache: the cached
/// one while fresh at `now`, none when a refetch is forced (the fetch then
/// goes to the network).
pub fn cached_for_fetch(cache: &ManifestCache, force: bool, now: Duration) -> (r: Option<&ErrorManifest>)
    ensures
        force ==> r is None,
        !force ==> match cache.cached {
            Some(e) => if is_fresh(e.fetched_at@, e.ttl@, now@) {
                r == Some(&e.manifest)
            } else {
                r is None
            },
            None => r is None,
        },
{
    if force {
        None
    } else {
        cache_get_if_fresh(cache, now)
    }
}

/// Keep a fetched manifest, for as long as its `Cache-Control` header
/// grants (one hour when it names no valid `max-age`).
pub fn store_fetched(cache: &mut ManifestCache, manifest: ErrorManifest, cache_control: Option<&str>, now: Duration)
    ensures
        final(cache).wf(),
        final(cache).cached matches Some(e) && e.manifest@ == manifest@ && e.ttl@ == max_age_spec(
            crate::json::opt_str(cache_control),
        ) && e.fetched_at == now,
{
    let ttl = parse_max_age(cache_control);
    cache_store(cache, manifest, ttl, now);
}

/// What localizing a code gives once the manifest fetch has ended: the
/// manifest's answer when the fetch succeeded, the fallback (or the code)
/// when it failed.
pub fn localize_fetched(fetched: Option<&ErrorManifest>, code: &str, locale: &str, fallback: Option<&str>) -> (r:
    String)
    ensures
        r@ == match fetched {
            Some(m) => resolve_manifest_spec(m@, code@, locale@, crate::json::opt_str(fallback)),
            None => fallback_or_code_spec(code@, crate::json::opt_str(fallback)),
        },
{
    match fetched {
        Some(m) => resolve_manifest(m, code, locale, fallback),
        None => fallback_or_code(code, fallback),
    }
}

/// What [`resolve_from_cache`] returns: the code's entry in the cached
/// index (fresh or not) along the fallback chain, else the fallback.
pub open spec fn resolve_cached_spec(
    cached: Option<CachedManifest>,
    code: Seq<char>,
    locale: Seq<char>,
    fallback: Option<Seq<char>>,
) -> Seq<char> {
    match cached {
        Some(e) => {
            let index = e.by_code@;
            let entry = if index.dom().contains(code) {
                Some(index[code])
            } else {
                None
            };
            resolve_entry(entry, code, locale, fallback)
        },
        None => fallback_or_code_spec(code, fallback),
    }
}

/// Synchronous lookup against the manifest cache. Used by
/// [`crate::OlympusError::localized_message`].
pub fn resolve_from_cache(cache: &ManifestCache, code: &str, locale: &str, fallback: Option<&str>) -> (r:
    String)
    ensures
        r@ == resolve_cached_spec(cache.cached, code@, locale@, crate::json::opt_str(fallback)),
{
    let by_code = match cache_get_by_code(cache) {
        Some(b) => b,
        None => return fallback_or_code(code, fallback),
    };
    let entry = match by_code.get(code) {
        Some(e) => e,
        None => return fallback_or_code(code, fallback),
    };
    match message_along(&entry.messages, locale) {
        Some(m) => m,
        None => fallback_or_code(code, fallback),
    }
}

// ---------------------------------------------------------------------------
// Cache-Control: max-age
// ---------------------------------------------------------------------------

/// Lifetime used when the response names none: one hour.
pub open spec fn default_ttl_secs() -> nat {
    3600
}

/// The lifetime used when the response names none: one hour.
pub fn default_ttl() -> (d: Duration)
    ensures
        d@ == default_ttl_secs() * NANOS_PER_SEC,
{
    Duration::from_secs(3600)
}

/// The text after `prefix`, when `s` starts with it.
pub open spec fn strip_prefix(s: Seq<char>, prefix: Seq<char>) -> Option<Seq<char>> {
    if prefix.len() <= s.len() && s.subrange(0, prefix.len() as int) == prefix {
        Some(s.subrange(prefix.len() as int, s.len() as int))
    } else {
        None
    }
}

/// Seconds named by the first directive `max-age=<u64>` among the
/// comma-separated directives, if any.
pub open spec fn max_age_in(parts: Seq<Seq<char>>) -> Option<u64>
    decreases parts.len(),
{
    if parts.len() == 0 {
        None
    } else {
        match directive_max_age(parts[0]) {
            Some(secs) => Some(secs),
            None => max_age_in(parts.drop_first()),
        }
    }
}

/// What [`parse_max_age`] returns, in nanoseconds.
pub open spec fn max_age_spec(header: Option<Seq<char>>) -> nat {
    match header {
        Some(h) => match max_age_in(split_on(h, ',')) {
            Some(secs) => (secs * NANOS_PER_SEC) as nat,
            None => (default_ttl_secs() * NANOS_PER_SEC) as nat,
        },
        None => (default_ttl_secs() * NANOS_PER_SEC) as nat,
    }
}

/// Seconds named by one directive, when it reads `max-age=<u64>` once
/// trimmed.
pub open spec fn directive_max_age(part: Seq<char>) -> Option<u64> {
    match strip_prefix(trim(part), "max-age="@) {
        Some(rest) => parse_u64_spec(rest),
        None => None,
    }
}

fn directive_seconds(pc: &Vec<char>) -> (r: Option<u64>)
    ensures
        r == directive_max_age(pc@),
{
    let (s, e) = trim_bounds(pc);
    let ghost t = pc@.subrange(s as int, e as int);
    proof {
        reveal_strlit("max-age=");
    }
    if e - s >= 8 && pc[s] == 'm' && pc[s + 1] == 'a' && pc[s + 2] == 'x' && pc[s + 3] == '-'
        && pc[s + 4] == 'a' && pc[s + 5] == 'g' && pc[s + 6] == 'e' && pc[s + 7] == '=' {
        assert(t.subrange(0, 8) =~= "max-age="@);
        let rest = string_of_range(pc, s + 8, e);
        let rc = chars_of(rest.as_str());
        assert(rc@ =~= t.subrange(8, t.len() as int));
        parse_u64_chars(&rc)
    } else {
        proof {
            if 8 <= t.len() && t.subrange(0, 8) == "max-age="@ {
                assert(t.subrange(0, 8)[0] == pc@[s as int]);
                assert(t.subrange(0, 8)[1] == pc@[s + 1]);
                assert(t.subrange(0, 8)[2] == pc@[s + 2]);
                assert(t.subrange(0, 8)[3] == pc@[s + 3]);
                assert(t.subrange(0, 8)[4] == pc@[s + 4]);
                assert(t.subrange(0, 8)[5] == pc@[s + 5]);
                assert(t.subrange(0, 8)[6] == pc@[s + 6]);
                assert(t.subrange(0, 8)[7] == pc@[s + 7]);
            }
        }
        None
    }
}

/// The lifetime a `Cache-Control` header grants: the first `max-age=N`
/// directive with a valid `N`, else one hour.
pub fn parse_max_age(header: Option<&str>) -> (r: Duration)
    ensures
        r@ == max_age_spec(crate::json::opt_str(header)),
{
    let h = match header {
        Some(h) => h,
        None => return Duration::from_secs(3600),
    };
    let cs = chars_of(h);
    let n = cs.len();
    let mut a: usize = 0;
    assert(cs@.subrange(0, n as int) =~= cs@);
    loop
        invariant
            a <= n == cs.len(),
            cs@ == h@,
            crate::json::opt_str(header) == Some(h@),
            max_age_in(split_on(h@, ',')) == max_age_in(split_on(cs@.subrange(a as int, n as int), ',')),
        decreases n - a,
    {
        let b = find_from(&cs, ',', a, n);
        let ghost region = cs@.subrange(a as int, n as int);
        let ghost piece = cs@.subrange(a as int, b as int);
        proof {
            lemma_find_in_range(cs@, ',', a as int, n as int, b as int);
            assert(region.subrange(0, b - a) =~= piece);
            if b < n {
                assert(region.subrange(b - a + 1, region.len() as int) =~= cs@.subrange(b + 1, n as int));
            }
        }
        assert(split_on(region, ',')[0] == piece);
        let part = string_of_range(&cs, a, b);
        let pc = chars_of(part.as_str());
        assert(pc@ == piece);
        match directive_seconds(&pc) {
            Some(secs) => {
                return Duration::from_secs(secs);
            },
            None => {},
        }
        if b == n {
            assert(split_on(region, ',') == seq![piece]);
            assert(split_on(region, ',').drop_first() =~= Seq::<Seq<char>>::empty());
            assert(max_age_in(Seq::<Seq<char>>::empty()) is None);
            assert(max_age_in(split_on(region, ',')) is None);
            return Duration::from_secs(3600);
        }
        assert(split_on(region, ',').drop_first() == split_on(cs@.subrange(b + 1, n as int), ','));
        a = b + 1;
    }
}

// ---------------------------------------------------------------------------
// Laws
// ---------------------------------------------------------------------------

/// The locale fallback chain is never empty, always ends in `en`, names no
/// locale twice, and starts with the requested locale when one is given.
pub proof fn lemma_candidates_shape(locale: Seq<char>)
    ensures
        candidates(locale).len() > 0,
        candidates(locale).last() == "en"@,
        forall|i: int, j: int|
            0 <= i < j < candidates(locale).len() ==> candidates(locale)[i] != candidates(locale)[j],
        locale.len() > 0 ==> candidates(locale)[0] == locale,
        candidates(locale).len() <= 3,
{
    reveal_strlit("en");
    let first: Seq<Seq<char>> = if locale.len() > 0 {
        seq![locale]
    } else {
        Seq::empty()
    };
    let second = match base_locale(locale) {
        Some(b) => if first.contains(b) {
            first
        } else {
            first.push(b)
        },
        None => first,
    };
    assert forall|i: int, j: int| 0 <= i < j < second.len() implies second[i] != second[j] by {
        if let Some(b) = base_locale(locale) {
            if !first.contains(b) {
                assert(j == second.len() - 1);
                assert(second[j] == b);
                assert(second[i] == first[i]);
            }
        }
    }
    if second.contains("en"@) {
        let k = choose|k: int| 0 <= k < second.len() && second[k] == "en"@;
        match base_locale(locale) {
            Some(b) => {
                if !first.contains(b) && b == "en"@ {
                    assert(second.last() == "en"@);
                } else if first.contains(b) {
                    assert(first.len() == 1 && first[0] == locale);
                    assert(second == first);
                    assert(locale == "en"@);
                    lemma_find_char(locale, '-');
                    assert(locale[0] == 'e' && locale[1] == 'n');
                    assert(find_char(locale, '-') is None);
                } else {
                    assert(second[k] == first[k]);
                    assert(locale == "en"@);
                    lemma_find_char(locale, '-');
                    assert(locale[0] == 'e' && locale[1] == 'n');
                    assert(find_char(locale, '-') is None);
                }
            },
            None => {
                assert(second == first);
                assert(first.len() == 1);
            },
        }
    } else {
        let c = second.push("en"@);
        assert forall|i: int, j: int| 0 <= i < j < c.len() implies c[i] != c[j] by {
            if j == c.len() - 1 {
                assert(c[i] == second[i]);
            } else {
                assert(c[i] == second[i] && c[j] == second[j]);
            }
        }
    }
}

proof fn lemma_first_message_nonempty(messages: Map<Seq<char>, Seq<char>>, locales: Seq<Seq<char>>)
    ensures
        first_message(messages, locales) matches Some(m) ==> m.len() > 0,
    decreases locales.len(),
{
    if locales.len() > 0 {
        lemma_first_message_nonempty(messages, locales.drop_first());
    }
}

/// Resolving a non-empty code never yields the empty string: a message is
/// taken only when it is not empty, and the last resort is the code.
pub proof fn lemma_resolve_nonempty(
    manifest: ManifestView,
    code: Seq<char>,
    locale: Seq<char>,
    fallback: Option<Seq<char>>,
)
    requires
        code.len() > 0,
    ensures
        resolve_manifest_spec(manifest, code, locale, fallback).len() > 0,
{
    match first_entry(manifest.errors, code) {
        Some(e) => lemma_first_message_nonempty(e.messages, candidates(locale)),
        None => {},
    }
}

/// An empty cache resolves every code to the caller's fallback (when it is
/// not empty) or to the code itself.
pub proof fn lemma_empty_cache_gives_fallback(
    cache: ManifestCache,
    code: Seq<char>,
    locale: Seq<char>,
    fallback: Option<Seq<char>>,
)
    requires
        cache.cached is None,
    ensures
        resolve_cached_spec(cache.cached, code, locale, fallback) == fallback_or_code_spec(code, fallback),
{
}

/// Whether no code is listed twice.
pub open spec fn codes_unique(errors: Seq<EntryView>) -> bool {
    forall|i: int, j: int| 0 <= i < j < errors.len() ==> errors[i].code != errors[j].code
}

proof fn lemma_first_entry_at(es: Seq<EntryView>, code: Seq<char>, i: int)
    requires
        0 <= i < es.len(),
        es[i].code == code,
        forall|j: int| 0 <= j < i ==> es[j].code != code,
    ensures
        first_entry(es, code) == Some(es[i]),
    decreases i,
{
    if i > 0 {
        lemma_first_entry_at(es.drop_first(), code, i - 1);
    }
}

proof fn lemma_first_entry_none(es: Seq<EntryView>, code: Seq<char>)
    requires
        forall|j: int| 0 <= j < es.len() ==> es[j].code != code,
    ensures
        first_entry(es, code) is None,
    decreases es.len(),
{
    if es.len() > 0 {
        lemma_first_entry_none(es.drop_first(), code);
    }
}

/// Once a manifest that lists each code once is in the cache, resolving
/// through the cache gives what resolving against the manifest gives.
pub proof fn lemma_cached_resolve_matches_manifest(
    cache: ManifestCache,
    code: Seq<char>,
    locale: Seq<char>,
    fallback: Option<Seq<char>>,
)
    requires
        cache.wf(),
        cache.cached matches Some(e) && codes_unique(e.manifest@.errors),
    ensures
        resolve_cached_spec(cache.cached, code, locale, fallback) == resolve_manifest_spec(
            cache.cached->0.manifest@,
            code,
            locale,
            fallback,
        ),
{
    let e = cache.cached->0;
    let es = e.manifest@.errors;
    lemma_index_of_unique_contains(es, code);
    if exists|i: int| 0 <= i < es.len() && es[i].code == code {
        let i = choose|i: int| 0 <= i < es.len() && es[i].code == code;
        assert forall|j: int| i < j < es.len() implies es[j].code != code by {}
        assert forall|j: int| 0 <= j < i implies es[j].code != code by {}
        lemma_index_of_last(es, code, i);
        lemma_first_entry_at(es, code, i);
    } else {
        lemma_first_entry_none(es, code);
    }
}

/// A `Cache-Control` header that reads exactly `max-age=<n>` grants `n`
/// seconds.
pub proof fn lemma_max_age_of_decimal(n: u64)
    ensures
        max_age_spec(Some("max-age="@ + crate::text::decimal(n as nat))) == n * NANOS_PER_SEC,
{
    reveal_strlit("max-age=");
    let d = crate::text::decimal(n as nat);
    crate::text::lemma_decimal_digits(n as nat);
    crate::text::lemma_parse_decimal(n);
    let h = "max-age="@ + d;
    assert(h.len() == 8 + d.len());
    assert forall|j: int| 0 <= j < h.len() implies h[j] != ',' by {
        if j >= 8 {
            assert(h[j] == d[j - 8]);
            assert(crate::text::is_digit_char(d[j - 8]));
        }
    }
    lemma_find_char(h, ',');
    assert(split_on(h, ',') == seq![h]);
    assert(!crate::text::is_whitespace(h[0]));
    assert(h.last() == d.last());
    assert(crate::text::is_digit_char(d[d.len() - 1]));
    assert(!crate::text::is_whitespace(h.last()));
    assert(crate::text::trim_start(h) == h);
    assert(crate::text::trim_end(h) == h);
    assert(h.subrange(0, 8) =~= "max-age="@);
    assert(h.subrange(8, h.len() as int) =~= d);
    assert(directive_max_age(h) == Some(n));
    assert(seq![h].drop_first() =~= Seq::<Seq<char>>::empty());
    assert(max_age_in(seq![h]) == Some(n));
}

} // verus!
