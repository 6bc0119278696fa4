//! The error-code manifest service: the manifest's shape as this service
//! reads it, its one-hour in-memory cache, and localization of error codes
//! against it.

use vstd::prelude::*;
use crate::decode::{keys_view, read_record, record_of};
use crate::http::{get_request, ApiRequest};
use crate::decode::{field_str_list_or_empty, read_str_list_or_empty};
use crate::i18n::{first_entry, message_map_of, EntryView, ManifestView, MessageMap};
use crate::json::{is_object, json_as_str, json_get, json_str_member, json_view, strings_view, Json, JsonValue};
use crate::text::trimmed;
use crate::time::{Duration, NANOS_PER_SEC};
use crate::text::trim;

verus! {

/// One row of the manifest: a canonical UPPER_SNAKE code and its
/// locale → message table.
pub struct ErrorManifestEntry {
    pub code: String,
    pub messages: MessageMap,
}

/// The manifest served by `GET /v1/i18n/errors`.
pub struct ErrorManifest {
    /// Schema version (`1.0` when the document leaves it out).
    pub version: String,
    /// Locales with human-authored translations.
    pub locales: Vec<String>,
    /// One entry per canonical error code.
    pub errors: Vec<ErrorManifestEntry>,
}

impl View for ErrorManifestEntry {
    type V = EntryView;

    open spec fn view(&self) -> EntryView {
        EntryView { code: self.code@, messages: self.messages@ }
    }
}

pub open spec fn service_entries_view(es: Seq<ErrorManifestEntry>) -> Seq<EntryView> {
    Seq::new(es.len(), |i: int| es[i]@)
}

impl View for ErrorManifest {
    type V = ManifestView;

    open spec fn view(&self) -> ManifestView {
        ManifestView {
            version: self.version@,
            locales: crate::json::strings_view(self.locales@),
            errors: service_entries_view(self.errors@),
        }
    }
}

/// The message an entry gives for `locale`: its own message when present
/// and not empty, else the `en` message as it stands (empty or not), else
/// none.
pub open spec fn message_for_spec(messages: Map<Seq<char>, Seq<char>>, locale: Seq<char>) -> Option<Seq<char>> {
    if messages.dom().contains(locale) && messages[locale].len() > 0 {
        Some(messages[locale])
    } else if messages.dom().contains("en"@) {
        Some(messages["en"@])
    } else {
        None
    }
}

/// The version a manifest without one has.
pub fn default_version() -> (r: String)
    ensures
        r@ == "1.0"@,
{
    "1.0".to_owned()
}

impl ErrorManifestEntry {
    /// The message for `locale`, falling back to `en`; `None` when neither
    /// is present (callers then fall back to the raw code).
    pub fn message_for(&self, locale: &str) -> (r: Option<&str>)
        ensures
            crate::json::opt_str(r) == message_for_spec(self.messages@, locale@),
    {
        match self.messages.get(locale) {
            Some(m) => {
                if !m.as_str().is_empty() {
                    return Some(m.as_str());
                }
            },
            None => {},
        }
        match self.messages.get("en") {
            Some(m) => Some(m.as_str()),
            None => None,
        }
    }

    /// A copy of the entry.
    pub fn duplicate(&self) -> (r: ErrorManifestEntry)
        ensures
            r@ == self@,
    {
        ErrorManifestEntry { code: self.code.clone(), messages: self.messages.duplicate() }
    }
}

// ---------------------------------------------------------------------------
// Reading manifests
// ---------------------------------------------------------------------------

/// Whether `e` is what the object `v` reads as: the code required, the
/// message table empty when absent.
pub open spec fn is_manifest_entry_fields_of(v: JsonValue, e: ErrorManifestEntry) -> bool {
    &&& is_object(v)
    &&& json_str_member(v, "code"@) == Some(e.code@)
    &&& match json_get(v, "messages"@) {
        Some(x) => message_map_of(x) == Some(e.messages@),
        None => e.messages@ == Map::<Seq<char>, Seq<char>>::empty(),
    }
}

/// Whether the object `v` reads as a manifest entry.
pub open spec fn reads_as_manifest_entry_fields(v: JsonValue) -> bool {
    &&& is_object(v)
    &&& json_str_member(v, "code"@) is Some
    &&& match json_get(v, "messages"@) {
        Some(x) => message_map_of(x) is Some,
        None => true,
    }
}

/// The field names of an `ErrorManifestEntry`, in declaration order.
pub open spec fn manifest_entry_keys() -> Seq<Seq<char>> {
    seq!["code"@, "messages"@]
}

/// Which fields of an `ErrorManifestEntry` may be left out.
pub open spec fn manifest_entry_defaults() -> Seq<bool> {
    seq![false, true]
}

/// Whether `x` is what the record document `v` (an object, or an array of
/// the fields in order) reads as.
pub open spec fn is_manifest_entry_of(v: JsonValue, x: ErrorManifestEntry) -> bool {
    record_of(v, manifest_entry_keys(), manifest_entry_defaults()) matches Some(o) && is_manifest_entry_fields_of(o, x)
}

/// Whether the record document `v` reads as an `ErrorManifestEntry`.
pub open spec fn reads_as_manifest_entry(v: JsonValue) -> bool {
    record_of(v, manifest_entry_keys(), manifest_entry_defaults()) matches Some(o) && reads_as_manifest_entry_fields(o)
}

/// Whether `l` is what the list document `x` reads as, entry by entry.
pub open spec fn is_manifest_entry_items_of(x: JsonValue, l: Seq<ErrorManifestEntry>) -> bool {
    &&& x is Array
    &&& l.len() == x->Array_0.len()
    &&& forall|i: int| 0 <= i < l.len() ==> is_manifest_entry_of(x->Array_0[i], #[trigger] l[i])
}

/// Whether `x` is a list whose every item reads as an entry.
pub open spec fn reads_as_manifest_entry_items(x: JsonValue) -> bool {
    &&& x is Array
    &&& forall|i: int| 0 <= i < x->Array_0.len() ==> reads_as_manifest_entry(#[trigger] x->Array_0[i])
}

/// Whether `m` is what the object `v` reads as: the version `1.0`, no
/// locales and no entries when absent.
pub open spec fn is_manifest_fields_of(v: JsonValue, m: ErrorManifest) -> bool {
    &&& is_object(v)
    &&& match json_get(v, "version"@) {
        Some(x) => json_as_str(x) == Some(m.version@),
        None => m.version@ == "1.0"@,
    }
    &&& field_str_list_or_empty(v, "locales"@) == Some(strings_view(m.locales@))
    &&& match json_get(v, "errors"@) {
        Some(x) => is_manifest_entry_items_of(x, m.errors@),
        None => m.errors@.len() == 0,
    }
}

/// Whether the object `v` reads as a manifest.
pub open spec fn reads_as_manifest_fields(v: JsonValue) -> bool {
    &&& is_object(v)
    &&& match json_get(v, "version"@) {
        Some(x) => json_as_str(x) is Some,
        None => true,
    }
    &&& field_str_list_or_empty(v, "locales"@) is Some
    &&& match json_get(v, "errors"@) {
        Some(x) => reads_as_manifest_entry_items(x),
        None => true,
    }
}

/// The field names of an `ErrorManifest`, in declaration order.
pub open spec fn manifest_keys() -> Seq<Seq<char>> {
    seq!["version"@, "locales"@, "errors"@]
}

/// Which fields of an `ErrorManifest` may be left out.
pub open spec fn manifest_defaults() -> Seq<bool> {
    seq![true, true, true]
}

/// Whether `x` is what the record document `v` (an object, or an array of
/// the fields in order) reads as.
pub open spec fn is_manifest_of(v: JsonValue, x: ErrorManifest) -> bool {
    record_of(v, manifest_keys(), manifest_defaults()) matches Some(o) && is_manifest_fields_of(o, x)
}

/// Whether the record document `v` reads as an `ErrorManifest`.
pub open spec fn reads_as_manifest(v: JsonValue) -> bool {
    record_of(v, manifest_keys(), manifest_defaults()) matches Some(o) && reads_as_manifest_fields(o)
}

impl ErrorManifestEntry {
    /// Reads an `ErrorManifestEntry` out of a document: an object, or an array of the
    /// fields in declaration order.
    pub fn from_json(v: &Json) -> (r: Option<ErrorManifestEntry>)
        ensures
            r is Some <==> reads_as_manifest_entry(v@),
            r matches Some(x) ==> is_manifest_entry_of(v@, x),
    {
        let mut keys: Vec<&str> = Vec::new();
        let mut defaults: Vec<bool> = Vec::new();
        keys.push("code");
        defaults.push(false);
        keys.push("messages");
        defaults.push(true);
        proof {
            assert(keys_view(keys@) =~= manifest_entry_keys());
            assert(defaults@ =~= manifest_entry_defaults());
        }
        match read_record(v, &keys, &defaults) {
            Some(doc) => Self::from_fields(&doc),
            None => None,
        }
    }

    /// Reads the record out of the object it stands for.
    fn from_fields(v: &Json) -> (r: Option<ErrorManifestEntry>)
        ensures
            r is Some <==> reads_as_manifest_entry_fields(v@),
            r matches Some(e) ==> is_manifest_entry_fields_of(v@, e),
    {
        if !v.is_object() {
            return None;
        }
        let code = match v.str_member("code") {
            Some(c) => c,
            None => return None,
        };
        let messages = match v.get("messages") {
            Some(x) => match MessageMap::from_json(x) {
                Some(m) => m,
                None => return None,
            },
            None => MessageMap::new(),
        };
        Some(ErrorManifestEntry { code, messages })
    }

    /// Reads a list of manifest entries: an array whose every item reads as
    /// one.
    pub fn list_from_json(v: &Json) -> (r: Option<Vec<ErrorManifestEntry>>)
        ensures
            r is Some <==> reads_as_manifest_entry_items(v@),
            r matches Some(l) ==> is_manifest_entry_items_of(v@, l@),
    {
        match v {
            Json::Array(items) => {
                let ghost whole = v@;
                let mut out: Vec<ErrorManifestEntry> = Vec::new();
                let mut i: usize = 0;
                while i < items.len()
                    invariant
                        i <= items.len(),
                        whole == v@,
                        whole == json_view(Json::Array(*items)),
                        out@.len() == i,
                        forall|k: int| 0 <= k < i ==> is_manifest_entry_of(whole->Array_0[k], #[trigger] out@[k]),
                    decreases items.len() - i,
                {
                    assert(whole->Array_0[i as int] == items@[i as int]@);
                    match ErrorManifestEntry::from_json(&items[i]) {
                        Some(e) => out.push(e),
                        None => return None,
                    }
                    i = i + 1;
                }
                assert forall|k: int| 0 <= k < whole->Array_0.len() implies reads_as_manifest_entry(
                    #[trigger] whole->Array_0[k],
                ) by {
                    assert(is_manifest_entry_of(whole->Array_0[k], out@[k]));
                }
                Some(out)
            },
            _ => None,
        }
    }
}

impl ErrorManifest {
    /// Reads an `ErrorManifest` out of a document: an object, or an array of the
    /// fields in declaration order.
    pub fn from_json(v: &Json) -> (r: Option<ErrorManifest>)
        ensures
            r is Some <==> reads_as_manifest(v@),
            r matches Some(x) ==> is_manifest_of(v@, x),
    {
        let mut keys: Vec<&str> = Vec::new();
        let mut defaults: Vec<bool> = Vec::new();
        keys.push("version");
        defaults.push(true);
        keys.push("locales");
        defaults.push(true);
        keys.push("errors");
        defaults.push(true);
        proof {
            assert(keys_view(keys@) =~= manifest_keys());
            assert(defaults@ =~= manifest_defaults());
        }
        match read_record(v, &keys, &defaults) {
            Some(doc) => Self::from_fields(&doc),
            None => None,
        }
    }

    /// Reads the record out of the object it stands for.
    fn from_fields(v: &Json) -> (r: Option<ErrorManifest>)
        ensures
            r is Some <==> reads_as_manifest_fields(v@),
            r matches Some(m) ==> is_manifest_fields_of(v@, m),
    {
        if !v.is_object() {
            return None;
        }
        let version = match v.get("version") {
            Some(x) => match x.as_str() {
                Some(t) => t.to_owned(),
                None => return None,
            },
            None => default_version(),
        };
        let locales = match read_str_list_or_empty(v, "locales") {
            Some(l) => l,
            None => return None,
        };
        let errors = match v.get("errors") {
            Some(x) => match ErrorManifestEntry::list_from_json(x) {
                Some(l) => l,
                None => return None,
            },
            None => Vec::new(),
        };
        Some(ErrorManifest { version, locales, errors })
    }
}

impl ErrorManifest {
    /// The first entry listed under `code`.
    pub fn entry_for(&self, code: &str) -> (r: Option<&ErrorManifestEntry>)
        ensures
            match r {
                Some(e) => first_entry(self@.errors, code@) == Some(e@),
                None => first_entry(self@.errors, code@) is None,
            },
    {
        let ghost es = self@.errors;
        let mut i: usize = 0;
        assert(es.subrange(0, es.len() as int) =~= es);
        while i < self.errors.len()
            invariant
                i <= self.errors.len(),
                es == self@.errors,
                es.len() == self.errors.len(),
                first_entry(es, code@) == first_entry(es.subrange(i as int, es.len() as int), code@),
            decreases self.errors.len() - i,
        {
            let ghost rest = es.subrange(i as int, es.len() as int);
            assert(rest[0] == self.errors@[i as int]@);
            if crate::text::str_eq(self.errors[i].code.as_str(), code) {
                return Some(&self.errors[i]);
            }
            assert(rest.drop_first() =~= es.subrange(i + 1, es.len() as int));
            i = i + 1;
        }
        None
    }

    /// A copy of the manifest.
    pub fn duplicate(&self) -> (r: ErrorManifest)
        ensures
            r@ == self@,
    {
        let mut copies: Vec<ErrorManifestEntry> = Vec::new();
        let mut i: usize = 0;
        while i < self.errors.len()
            invariant
                i <= self.errors.len(),
                copies@.len() == i,
                forall|k: int| 0 <= k < i ==> (#[trigger] copies@[k])@ == self.errors@[k]@,
            decreases self.errors.len() - i,
        {
            copies.push(self.errors[i].duplicate());
            i = i + 1;
        }
        let r = ErrorManifest { version: self.version.clone(), locales: self.locales.clone(), errors: copies };
        assert(service_entries_view(r.errors@) =~= service_entries_view(self.errors@));
        assert(crate::json::strings_view(r.locales@) =~= crate::json::strings_view(self.locales@));
        r
    }
}

/// How long a fetched manifest is served from memory: one hour, as the
/// backend's `Cache-Control: max-age=3600`.
pub open spec fn i18n_cache_ttl_nanos() -> nat {
    (3600 * NANOS_PER_SEC) as nat
}

/// The one-hour cache lifetime.
pub fn i18n_cache_ttl() -> (d: Duration)
    ensures
        d@ == i18n_cache_ttl_nanos(),
{
    Duration::from_secs(3600)
}

/// The manifest cache shared by the handles of one client. Times are
/// readings of a monotonic clock, as spans since its origin.
pub struct I18nState {
    pub cached: Option<ErrorManifest>,
    pub expires_at: Option<Duration>,
}

/// The manifest the cache serves at `now`: the cached one while `now` is
/// before its expiry.
pub open spec fn served_at(state: I18nState, now: nat) -> Option<ManifestView> {
    match (state.cached, state.expires_at) {
        (Some(m), Some(e)) => if now < e@ {
            Some(m@)
        } else {
            None
        },
        _ => None,
    }
}

impl I18nState {
    /// An empty cache.
    pub fn new() -> (s: I18nState)
        ensures
            s.cached is None,
            s.expires_at is None,
    {
        I18nState { cached: None, expires_at: None }
    }

    /// A copy of the cached manifest while it is fresh at `now`; `None`
    /// when the cache is empty or expired (a fetch is due).
    pub fn fresh_manifest(&self, now: Duration) -> (r: Option<ErrorManifest>)
        ensures
            match r {
                Some(m) => served_at(*self, now@) == Some(m@),
                None => served_at(*self, now@) is None,
            },
    {
        match (&self.cached, &self.expires_at) {
            (Some(m), Some(e)) => {
                if now.is_shorter_than(e) {
                    Some(m.duplicate())
                } else {
                    None
                }
            },
            _ => None,
        }
    }

    /// Keep a manifest fetched at `now`, serving it for the next hour.
    pub fn store(&mut self, manifest: ErrorManifest, now: Duration)
        requires
            now@ + i18n_cache_ttl_nanos() < (u64::MAX as nat + 1) * NANOS_PER_SEC,
        ensures
            final(self).cached matches Some(m) && m@ == manifest@,
            final(self).expires_at matches Some(e) && e@ == now@ + i18n_cache_ttl_nanos(),
    {
        let expires = now.checked_add(i18n_cache_ttl());
        self.cached = Some(manifest);
        self.expires_at = expires;
    }

    /// Drop the cached manifest.
    pub fn clear(&mut self)
        ensures
            final(self).cached is None,
            final(self).expires_at is None,
    {
        self.cached = None;
        self.expires_at = None;
    }

}

/// A manifest stored at `now` is served, unchanged, exactly while the
/// clock reads less than an hour later.
pub proof fn lemma_served_for_an_hour(state: I18nState, manifest: ManifestView, now: nat, t: nat)
    requires
        state.cached matches Some(m) && m@ == manifest,
        state.expires_at matches Some(e) && e@ == now + i18n_cache_ttl_nanos(),
    ensures
        t < now + i18n_cache_ttl_nanos() ==> served_at(state, t) == Some(manifest),
        t >= now + i18n_cache_ttl_nanos() ==> served_at(state, t) is None,
{
}

/// A cleared cache serves nothing, so the next call fetches.
pub proof fn lemma_cleared_serves_nothing(state: I18nState, t: nat)
    requires
        state.cached is None,
    ensures
        served_at(state, t) is None,
{
}

/// What localizing `code` in `locale` against a manifest gives: nothing
/// for a blank code, else the entry's message along the `en` fallback,
/// else the code itself.
pub open spec fn localize_spec(manifest: ManifestView, code: Seq<char>, locale: Seq<char>) -> Seq<char> {
    if trim(code).len() == 0 {
        Seq::empty()
    } else {
        match first_entry(manifest.errors, code) {
            Some(e) => match message_for_spec(e.messages, locale) {
                Some(m) => m,
                None => code,
            },
            None => code,
        }
    }
}

/// The server's message when it is not empty, else the code.
pub open spec fn server_or_code(code: Seq<char>, server_message: Seq<char>) -> Seq<char> {
    if server_message.len() > 0 {
        server_message
    } else {
        code
    }
}

/// What localizing an API error's code gives: the server message for an
/// empty code, else the entry's message along the `en` fallback, else the
/// server message when it is not empty, else the code.
pub open spec fn localize_code_spec(manifest: ManifestView, code: Seq<char>, server_message: Seq<char>, locale: Seq<char>) -> Seq<char> {
    if code.len() == 0 {
        server_message
    } else {
        match first_entry(manifest.errors, code) {
            Some(e) => match message_for_spec(e.messages, locale) {
                Some(m) => m,
                None => server_or_code(code, server_message),
            },
            None => server_or_code(code, server_message),
        }
    }
}

fn server_or_code_of(code: &str, server_message: &str) -> (r: String)
    ensures
        r@ == server_or_code(code@, server_message@),
{
    if !server_message.is_empty() {
        server_message.to_owned()
    } else {
        code.to_owned()
    }
}

/// Plans the manifest fetch and localizes against a manifest.
pub struct I18nService;

impl I18nService {
    /// The manifest fetch (the backend ships every locale at once).
    pub fn errors_request(&self) -> (r: ApiRequest)
        ensures
            r@ == get_request("/v1/i18n/errors"@, seq![]),
    {
        ApiRequest::get_plain("/v1/i18n/errors".to_owned())
    }

    /// Whether localizing `code` needs the manifest: a blank code does
    /// not.
    pub fn localize_needs_manifest(&self, code: &str) -> (r: bool)
        ensures
            r == (trim(code@).len() > 0),
    {
        !trimmed(code).as_str().is_empty()
    }

    /// Resolve `code` to a message in `locale`, falling back to `en` and
    /// finally to the code itself; a blank code gives the empty string.
    pub fn localize(&self, manifest: &ErrorManifest, code: &str, locale: &str) -> (r: String)
        ensures
            r@ == localize_spec(manifest@, code@, locale@),
    {
        if trimmed(code).as_str().is_empty() {
            return String::new();
        }
        match manifest.entry_for(code) {
            Some(entry) => match entry.message_for(locale) {
                Some(m) => m.to_owned(),
                None => code.to_owned(),
            },
            None => code.to_owned(),
        }
    }

    /// Whether localizing an error's code needs the manifest: an empty
    /// code does not.
    pub fn localize_code_needs_manifest(&self, code: &str) -> (r: bool)
        ensures
            r == (code@.len() > 0),
    {
        !code.is_empty()
    }

    /// Localize an API error by its code, with the server's message as the
    /// fallback before the bare code.
    pub fn localize_code(&self, manifest: &ErrorManifest, code: &str, server_message: &str, locale: &str) -> (r: String)
        ensures
            r@ == localize_code_spec(manifest@, code@, server_message@, locale@),
    {
        if code.is_empty() {
            return server_message.to_owned();
        }
        match manifest.entry_for(code) {
            Some(entry) => match entry.message_for(locale) {
                Some(m) => m.to_owned(),
                None => server_or_code_of(code, server_message),
            },
            None => server_or_code_of(code, server_message),
        }
    }
}

} // verus!
