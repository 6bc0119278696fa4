//! The HTTP surface the SDK speaks: requests as plain data (method, path,
//! query, body), the standard headers, URL assembly, and how a response
//! status and body become a value or an [`OlympusError`].

use vstd::prelude::*;
use crate::config::OlympusConfig;
use crate::error::{ErrorView, OlympusError};
use crate::json::{
    is_object, json_get, json_str_member, json_text_parse, opt_string, parse_json_bytes,
    parse_json_text, parsed_view, json_bytes_parse, Json, JsonValue,
};
use crate::text::{concat2, concat3, decimal, decimal_string, trim};
use crate::url::{url_encode, url_encoded};

verus! {

// ---------------------------------------------------------------------------
// Requests
// ---------------------------------------------------------------------------

#[derive(Clone, Copy, Debug, PartialEq, Eq, Structural)]
pub enum HttpMethod {
    Get,
    Post,
    Put,
    Patch,
    Delete,
}

/// The body of a request: none, a JSON document, or url-encoded form
/// fields.
pub enum RequestBody {
    Empty,
    Json(Json),
    Form(Vec<(String, String)>),
}

/// One HTTP call, as data. An empty query means no query string.
pub struct ApiRequest {
    pub method: HttpMethod,
    pub path: String,
    pub query: Vec<(String, String)>,
    pub body: RequestBody,
}

pub ghost enum BodyView {
    Empty,
    Json(JsonValue),
    Form(Seq<(Seq<char>, Seq<char>)>),
}

pub ghost struct RequestView {
    pub method: HttpMethod,
    pub path: Seq<char>,
    pub query: Seq<(Seq<char>, Seq<char>)>,
    pub body: BodyView,
}

pub open spec fn pairs_view(v: Seq<(String, String)>) -> Seq<(Seq<char>, Seq<char>)> {
    Seq::new(v.len(), |i: int| (v[i].0@, v[i].1@))
}

impl View for RequestBody {
    type V = BodyView;

    open spec fn view(&self) -> BodyView {
        match self {
            RequestBody::Empty => BodyView::Empty,
            RequestBody::Json(j) => BodyView::Json(j@),
            RequestBody::Form(f) => BodyView::Form(pairs_view(f@)),
        }
    }
}

impl View for ApiRequest {
    type V = RequestView;

    open spec fn view(&self) -> RequestView {
        RequestView {
            method: self.method,
            path: self.path@,
            query: pairs_view(self.query@),
            body: self.body@,
        }
    }
}

/// A `GET` of `path` with `query`.
pub open spec fn get_request(path: Seq<char>, query: Seq<(Seq<char>, Seq<char>)>) -> RequestView {
    RequestView { method: HttpMethod::Get, path, query, body: BodyView::Empty }
}

/// A `DELETE` of `path`.
pub open spec fn delete_request(path: Seq<char>) -> RequestView {
    RequestView { method: HttpMethod::Delete, path, query: Seq::empty(), body: BodyView::Empty }
}

/// A call of `method` on `path` carrying the JSON `body`.
pub open spec fn json_request(method: HttpMethod, path: Seq<char>, body: JsonValue) -> RequestView {
    RequestView { method, path, query: Seq::empty(), body: BodyView::Json(body) }
}

/// A `POST` of url-encoded `fields` to `path`.
pub open spec fn form_request(path: Seq<char>, fields: Seq<(Seq<char>, Seq<char>)>) -> RequestView {
    RequestView { method: HttpMethod::Post, path, query: Seq::empty(), body: BodyView::Form(fields) }
}

/// The empty JSON object `{}`.
pub open spec fn empty_object() -> JsonValue {
    JsonValue::Object(Seq::empty())
}

/// The model of a planned call that may be refused before it is sent.
pub open spec fn plan_view(r: Result<ApiRequest, OlympusError>) -> Result<RequestView, ErrorView> {
    match r {
        Ok(q) => Ok(q@),
        Err(e) => Err(e@),
    }
}

impl ApiRequest {
    /// `GET path?query`.
    pub fn get(path: String, query: Query) -> (r: ApiRequest)
        ensures
            r@ == get_request(path@, query@),
    {
        ApiRequest { method: HttpMethod::Get, path, query: query.pairs, body: RequestBody::Empty }
    }

    /// `GET path` without a query.
    pub fn get_plain(path: String) -> (r: ApiRequest)
        ensures
            r@ == get_request(path@, Seq::empty()),
    {
        let r = ApiRequest { method: HttpMethod::Get, path, query: Vec::new(), body: RequestBody::Empty };
        assert(pairs_view(r.query@) =~= Seq::<(Seq<char>, Seq<char>)>::empty());
        r
    }

    /// `DELETE path`.
    pub fn delete(path: String) -> (r: ApiRequest)
        ensures
            r@ == delete_request(path@),
    {
        let r = ApiRequest {
            method: HttpMethod::Delete,
            path,
            query: Vec::new(),
            body: RequestBody::Empty,
        };
        assert(pairs_view(r.query@) =~= Seq::<(Seq<char>, Seq<char>)>::empty());
        r
    }

    /// `method path` with a JSON body.
    pub fn with_json(method: HttpMethod, path: String, body: Json) -> (r: ApiRequest)
        ensures
            r@ == json_request(method, path@, body@),
    {
        let r = ApiRequest { method, path, query: Vec::new(), body: RequestBody::Json(body) };
        assert(pairs_view(r.query@) =~= Seq::<(Seq<char>, Seq<char>)>::empty());
        r
    }

    /// `POST path` with a JSON body.
    pub fn post(path: String, body: Json) -> (r: ApiRequest)
        ensures
            r@ == json_request(HttpMethod::Post, path@, body@),
    {
        ApiRequest::with_json(HttpMethod::Post, path, body)
    }

    /// `POST path` with the body `{}`.
    pub fn post_empty(path: String) -> (r: ApiRequest)
        ensures
            r@ == json_request(HttpMethod::Post, path@, empty_object()),
    {
        let body = Json::Object(Vec::new());
        assert(body@->Object_0 =~= Seq::<(Seq<char>, JsonValue)>::empty());
        ApiRequest::post(path, body)
    }

    /// `PUT path` with a JSON body.
    pub fn put(path: String, body: Json) -> (r: ApiRequest)
        ensures
            r@ == json_request(HttpMethod::Put, path@, body@),
    {
        ApiRequest::with_json(HttpMethod::Put, path, body)
    }

    /// `PATCH path` with a JSON body.
    pub fn patch(path: String, body: Json) -> (r: ApiRequest)
        ensures
            r@ == json_request(HttpMethod::Patch, path@, body@),
    {
        ApiRequest::with_json(HttpMethod::Patch, path, body)
    }

    /// `GET path?key=value`.
    pub fn get_with(path: String, key: &str, value: &str) -> (r: ApiRequest)
        ensures
            r@ == get_request(path@, seq![(key@, value@)]),
    {
        let mut q = Query::new();
        q.push(key, value.to_owned());
        ApiRequest::get(path, q)
    }

    /// `POST path` with url-encoded form fields.
    pub fn post_form(path: String, fields: Query) -> (r: ApiRequest)
        ensures
            r@ == form_request(path@, fields@),
    {
        let r = ApiRequest {
            method: HttpMethod::Post,
            path,
            query: Vec::new(),
            body: RequestBody::Form(fields.pairs),
        };
        assert(pairs_view(r.query@) =~= Seq::<(Seq<char>, Seq<char>)>::empty());
        r
    }
}

// ---------------------------------------------------------------------------
// Query strings and form fields
// ---------------------------------------------------------------------------

/// Ordered `key=value` pairs of a query string or a form.
pub struct Query {
    pub pairs: Vec<(String, String)>,
}

impl View for Query {
    type V = Seq<(Seq<char>, Seq<char>)>;

    open spec fn view(&self) -> Seq<(Seq<char>, Seq<char>)> {
        pairs_view(self.pairs@)
    }
}

/// A one-pair list when the value is present, empty otherwise.
pub open spec fn opt_pair(key: Seq<char>, value: Option<Seq<char>>) -> Seq<(Seq<char>, Seq<char>)> {
    match value {
        Some(v) => seq![(key, v)],
        None => Seq::empty(),
    }
}

/// The value of the first pair named `key`, as a form or a query reads it.
pub open spec fn pair_value(pairs: Seq<(Seq<char>, Seq<char>)>, key: Seq<char>) -> Option<Seq<char>>
    decreases pairs.len(),
{
    if pairs.len() == 0 {
        None
    } else if pairs[0].0 == key {
        Some(pairs[0].1)
    } else {
        pair_value(pairs.drop_first(), key)
    }
}

/// A lookup in `a + b` finds the key in `a` first, and in `b` only when
/// `a` lacks it.
pub broadcast proof fn lemma_pair_value_append(
    a: Seq<(Seq<char>, Seq<char>)>,
    b: Seq<(Seq<char>, Seq<char>)>,
    key: Seq<char>,
)
    ensures
        #[trigger] pair_value(a + b, key) == match pair_value(a, key) {
            Some(x) => Some(x),
            None => pair_value(b, key),
        },
    decreases a.len(),
{
    if a.len() == 0 {
        assert(a + b =~= b);
    } else {
        assert((a + b).drop_first() =~= a.drop_first() + b);
        lemma_pair_value_append(a.drop_first(), b, key);
    }
}

/// An optional pair gives its value under its own key and nothing under
/// any other.
pub broadcast proof fn lemma_pair_value_opt(key: Seq<char>, value: Option<Seq<char>>, k: Seq<char>)
    ensures
        #[trigger] pair_value(opt_pair(key, value), k) == if key == k {
            value
        } else {
            None
        },
{
    match value {
        Some(v) => {
            assert(seq![(key, v)].drop_first() =~= Seq::<(Seq<char>, Seq<char>)>::empty());
            reveal_with_fuel(pair_value, 2);
        },
        None => {},
    }
}

/// How `bool::to_string` renders.
pub open spec fn bool_text(b: bool) -> Seq<char> {
    if b {
        "true"@
    } else {
        "false"@
    }
}

pub open spec fn opt_decimal(n: Option<u64>) -> Option<Seq<char>> {
    match n {
        Some(v) => Some(decimal(v as nat)),
        None => None,
    }
}

pub open spec fn opt_decimal32(n: Option<u32>) -> Option<Seq<char>> {
    match n {
        Some(v) => Some(decimal(v as nat)),
        None => None,
    }
}

pub open spec fn opt_bool_text(b: Option<bool>) -> Option<Seq<char>> {
    match b {
        Some(v) => Some(bool_text(v)),
        None => None,
    }
}

/// `bool::to_string`.
pub fn bool_string(b: bool) -> (r: String)
    ensures
        r@ == bool_text(b),
{
    if b {
        "true".to_owned()
    } else {
        "false".to_owned()
    }
}

impl Query {
    pub fn new() -> (q: Query)
        ensures
            q@ == Seq::<(Seq<char>, Seq<char>)>::empty(),
    {
        let q = Query { pairs: Vec::new() };
        assert(q@ =~= Seq::<(Seq<char>, Seq<char>)>::empty());
        q
    }

    /// Append `key=value`.
    pub fn push(&mut self, key: &str, value: String)
        ensures
            final(self)@ == old(self)@.push((key@, value@)),
    {
        self.pairs.push((key.to_owned(), value));
        assert(self@ =~= old(self)@.push((key@, value@)));
    }

    /// Append `key=value` when `value` is present.
    pub fn push_opt(&mut self, key: &str, value: Option<&str>)
        ensures
            final(self)@ == old(self)@ + opt_pair(key@, crate::json::opt_str(value)),
    {
        match value {
            Some(v) => {
                self.push(key, v.to_owned());
                assert(final(self)@ =~= old(self)@ + opt_pair(key@, crate::json::opt_str(value)));
            },
            None => {
                assert(self@ =~= old(self)@ + opt_pair(key@, crate::json::opt_str(value)));
            },
        }
    }

    /// Append `key=value` when `value` is present.
    pub fn push_opt_string(&mut self, key: &str, value: &Option<String>)
        ensures
            final(self)@ == old(self)@ + opt_pair(key@, opt_string(*value)),
    {
        match value {
            Some(v) => {
                self.push(key, v.clone());
                assert(final(self)@ =~= old(self)@ + opt_pair(key@, opt_string(*value)));
            },
            None => {
                assert(self@ =~= old(self)@ + opt_pair(key@, opt_string(*value)));
            },
        }
    }

    /// Append `key=<decimal>` when the number is present.
    pub fn push_opt_u64(&mut self, key: &str, value: Option<u64>)
        ensures
            final(self)@ == old(self)@ + opt_pair(key@, opt_decimal(value)),
    {
        match value {
            Some(v) => {
                self.push(key, decimal_string(v));
                assert(final(self)@ =~= old(self)@ + opt_pair(key@, opt_decimal(value)));
            },
            None => {
                assert(self@ =~= old(self)@ + opt_pair(key@, opt_decimal(value)));
            },
        }
    }

    /// Append `key=<decimal>` when the number is present.
    pub fn push_opt_u32(&mut self, key: &str, value: Option<u32>)
        ensures
            final(self)@ == old(self)@ + opt_pair(key@, opt_decimal32(value)),
    {
        match value {
            Some(v) => {
                self.push(key, decimal_string(v as u64));
                assert(final(self)@ =~= old(self)@ + opt_pair(key@, opt_decimal32(value)));
            },
            None => {
                assert(self@ =~= old(self)@ + opt_pair(key@, opt_decimal32(value)));
            },
        }
    }

    /// Append `key=true|false` when the flag is present.
    pub fn push_opt_bool(&mut self, key: &str, value: Option<bool>)
        ensures
            final(self)@ == old(self)@ + opt_pair(key@, opt_bool_text(value)),
    {
        match value {
            Some(v) => {
                self.push(key, bool_string(v));
                assert(final(self)@ =~= old(self)@ + opt_pair(key@, opt_bool_text(value)));
            },
            None => {
                assert(self@ =~= old(self)@ + opt_pair(key@, opt_bool_text(value)));
            },
        }
    }
}

// ---------------------------------------------------------------------------
// Paths
// ---------------------------------------------------------------------------

/// `prefix` + the percent-encoded `segment` + `suffix`.
pub fn path_with(prefix: &str, segment: &str, suffix: &str) -> (r: String)
    ensures
        r@ == prefix@ + url_encoded(segment@) + suffix@,
{
    let enc = url_encode(segment);
    concat3(prefix, enc.as_str(), suffix)
}

/// `prefix` followed by the percent-encoded `segment`.
pub fn path_end(prefix: &str, segment: &str) -> (r: String)
    ensures
        r@ == prefix@ + url_encoded(segment@),
{
    let enc = url_encode(segment);
    concat2(prefix, enc.as_str())
}

/// `prefix` + encoded `first` + `middle` + encoded `second`.
pub fn path_end2(prefix: &str, first: &str, middle: &str, second: &str) -> (r: String)
    ensures
        r@ == prefix@ + url_encoded(first@) + middle@ + url_encoded(second@),
{
    let a = path_with(prefix, first, middle);
    let b = url_encode(second);
    let r = concat2(a.as_str(), b.as_str());
    assert(r@ =~= prefix@ + url_encoded(first@) + middle@ + url_encoded(second@));
    r
}

/// The query `page=<n>&limit=<n>`, each pair only when given.
pub open spec fn page_limit_query(page: Option<u32>, limit: Option<u32>) -> Seq<(Seq<char>, Seq<char>)> {
    opt_pair("page"@, opt_decimal32(page)) + opt_pair("limit"@, opt_decimal32(limit))
}

/// What `page_limit_query` builds reads back pair by pair: each value the arguments
/// give is found under its own name, an optional one only when it is set.
pub proof fn lemma_page_limit_query_reads_back(page: Option<u32>, limit: Option<u32>)
    ensures
        crate::http::pair_value(page_limit_query(page, limit), "page"@) == opt_decimal32(page),
        crate::http::pair_value(page_limit_query(page, limit), "limit"@) == opt_decimal32(limit),
{
    assert(crate::http::pair_value(page_limit_query(page, limit), "page"@) == opt_decimal32(page)) by {
        broadcast use crate::http::lemma_pair_value_append, crate::http::lemma_pair_value_opt;

        lemma_page_limit_query_keys();
        reveal_with_fuel(crate::http::pair_value, 2);
    }
    assert(crate::http::pair_value(page_limit_query(page, limit), "limit"@) == opt_decimal32(limit)) by {
        broadcast use crate::http::lemma_pair_value_append, crate::http::lemma_pair_value_opt;

        lemma_page_limit_query_keys();
        reveal_with_fuel(crate::http::pair_value, 2);
    }
}

/// The names that `page_limit_query` uses, told apart.
proof fn lemma_page_limit_query_keys()
    ensures
        "limit"@.len() == 5,
        "page"@.len() == 4,
{
    reveal_strlit("limit");
    reveal_strlit("page");
}

/// Builds [`page_limit_query`].
pub fn page_limit(page: Option<u32>, limit: Option<u32>) -> (q: Query)
    ensures
        q@ == page_limit_query(page, limit),
{
    let mut q = Query::new();
    q.push_opt_u32("page", page);
    q.push_opt_u32("limit", limit);
    assert(q@ =~= page_limit_query(page, limit));
    q
}

/// `prefix` + encoded `first` + `middle` + encoded `second` + `suffix`.
pub fn path_with2(prefix: &str, first: &str, middle: &str, second: &str, suffix: &str) -> (r: String)
    ensures
        r@ == prefix@ + url_encoded(first@) + middle@ + url_encoded(second@) + suffix@,
{
    let a = path_with(prefix, first, middle);
    let b = url_encode(second);
    let r = concat3(a.as_str(), b.as_str(), suffix);
    assert(r@ =~= prefix@ + url_encoded(first@) + middle@ + url_encoded(second@) + suffix@);
    r
}

/// `prefix` + `segment` verbatim + `suffix` (for routes that interpolate an
/// identifier without encoding it).
pub fn path_raw(prefix: &str, segment: &str, suffix: &str) -> (r: String)
    ensures
        r@ == prefix@ + segment@ + suffix@,
{
    concat3(prefix, segment, suffix)
}

/// `prefix` + `first` + `middle` + `second`, all verbatim.
pub fn path_raw2(prefix: &str, first: &str, middle: &str, second: &str) -> (r: String)
    ensures
        r@ == prefix@ + first@ + middle@ + second@,
{
    let a = concat3(prefix, first, middle);
    concat2(a.as_str(), second)
}

/// `prefix` + `segment`, verbatim.
pub fn path_tail(prefix: &str, segment: &str) -> (r: String)
    ensures
        r@ == prefix@ + segment@,
{
    concat2(prefix, segment)
}

// ---------------------------------------------------------------------------
// URL and headers
// ---------------------------------------------------------------------------

/// `str::trim_end_matches('/')`.
pub open spec fn trim_trailing_slashes(s: Seq<char>) -> Seq<char>
    decreases s.len(),
{
    if s.len() > 0 && s.last() == '/' {
        trim_trailing_slashes(s.drop_last())
    } else {
        s
    }
}

/// The full URL of `path`: the base URL without trailing slashes, then the
/// path.
pub fn build_url(config: &OlympusConfig, path: &str) -> (r: String)
    ensures
        r@ == trim_trailing_slashes(config.base_url@) + path@,
{
    let cs = crate::text::chars_of(config.base_url.as_str());
    let mut end = cs.len();
    assert(cs@.subrange(0, cs@.len() as int) =~= cs@);
    while end > 0 && cs[end - 1] == '/'
        invariant
            end <= cs.len(),
            trim_trailing_slashes(cs@) == trim_trailing_slashes(cs@.subrange(0, end as int)),
        decreases end,
    {
        assert(cs@.subrange(0, end as int).drop_last() =~= cs@.subrange(0, end - 1));
        end = end - 1;
    }
    let base = crate::text::string_of_range(&cs, 0, end);
    concat2(base.as_str(), path)
}

/// Headers of a JSON call: bearer API key, app id, SDK version, and JSON
/// content negotiation.
pub open spec fn json_headers_spec(config: OlympusConfig) -> Seq<(Seq<char>, Seq<char>)> {
    seq![
        ("Authorization"@, "Bearer "@ + config.api_key@),
        ("X-App-Id"@, config.app_id@),
        ("X-SDK-Version"@, "rust/0.3.0"@),
        ("Content-Type"@, "application/json"@),
        ("Accept"@, "application/json"@),
    ]
}

/// What `json_headers_spec` builds reads back pair by pair: each value the arguments
/// give is found under its own name, an optional one only when it is set.
pub proof fn lemma_json_headers_spec_reads_back(config: OlympusConfig)
    ensures
        crate::http::pair_value(json_headers_spec(config), "Authorization"@) == Some("Bearer "@ + config.api_key@),
        crate::http::pair_value(json_headers_spec(config), "X-App-Id"@) == Some(config.app_id@),
        crate::http::pair_value(json_headers_spec(config), "X-SDK-Version"@) == Some("rust/0.3.0"@),
        crate::http::pair_value(json_headers_spec(config), "Content-Type"@) == Some("application/json"@),
        crate::http::pair_value(json_headers_spec(config), "Accept"@) == Some("application/json"@),
{
    assert(crate::http::pair_value(json_headers_spec(config), "Authorization"@) == Some("Bearer "@ + config.api_key@)) by {
        broadcast use crate::http::lemma_pair_value_append, crate::http::lemma_pair_value_opt;

        lemma_json_headers_spec_keys();
        reveal_with_fuel(crate::http::pair_value, 6);
    }
    assert(crate::http::pair_value(json_headers_spec(config), "X-App-Id"@) == Some(config.app_id@)) by {
        broadcast use crate::http::lemma_pair_value_append, crate::http::lemma_pair_value_opt;

        lemma_json_headers_spec_keys();
        reveal_with_fuel(crate::http::pair_value, 6);
    }
    assert(crate::http::pair_value(json_headers_spec(config), "X-SDK-Version"@) == Some("rust/0.3.0"@)) by {
        broadcast use crate::http::lemma_pair_value_append, crate::http::lemma_pair_value_opt;

        lemma_json_headers_spec_keys();
        reveal_with_fuel(crate::http::pair_value, 6);
    }
    assert(crate::http::pair_value(json_headers_spec(config), "Content-Type"@) == Some("application/json"@)) by {
        broadcast use crate::http::lemma_pair_value_append, crate::http::lemma_pair_value_opt;

        lemma_json_headers_spec_keys();
        reveal_with_fuel(crate::http::pair_value, 6);
    }
    assert(crate::http::pair_value(json_headers_spec(config), "Accept"@) == Some("application/json"@)) by {
        broadcast use crate::http::lemma_pair_value_append, crate::http::lemma_pair_value_opt;

        lemma_json_headers_spec_keys();
        reveal_with_fuel(crate::http::pair_value, 6);
    }
}

/// The names that `json_headers_spec` uses, told apart.
proof fn lemma_json_headers_spec_keys()
    ensures
        "Accept"@.len() == 6,
        "Authorization"@.len() == 13,
        "Authorization"@[0] == 'A',
        "Content-Type"@.len() == 12,
        "X-App-Id"@.len() == 8,
        "X-SDK-Version"@.len() == 13,
        "X-SDK-Version"@[0] == 'X',
{
    reveal_strlit("Accept");
    reveal_strlit("Authorization");
    reveal_strlit("Content-Type");
    reveal_strlit("X-App-Id");
    reveal_strlit("X-SDK-Version");
}

/// Headers of a form submit: bearer API key, app id, SDK version, and an
/// `Accept` that admits HTML error pages.
pub open spec fn form_headers_spec(config: OlympusConfig) -> Seq<(Seq<char>, Seq<char>)> {
    seq![
        ("Authorization"@, "Bearer "@ + config.api_key@),
        ("X-App-Id"@, config.app_id@),
        ("X-SDK-Version"@, "rust/0.3.0"@),
        ("Accept"@, "application/json, text/html"@),
    ]
}

/// What `form_headers_spec` builds reads back pair by pair: each value the arguments
/// give is found under its own name, an optional one only when it is set.
pub proof fn lemma_form_headers_spec_reads_back(config: OlympusConfig)
    ensures
        crate::http::pair_value(form_headers_spec(config), "Authorization"@) == Some("Bearer "@ + config.api_key@),
        crate::http::pair_value(form_headers_spec(config), "X-App-Id"@) == Some(config.app_id@),
        crate::http::pair_value(form_headers_spec(config), "X-SDK-Version"@) == Some("rust/0.3.0"@),
        crate::http::pair_value(form_headers_spec(config), "Accept"@) == Some("application/json, text/html"@),
{
    assert(crate::http::pair_value(form_headers_spec(config), "Authorization"@) == Some("Bearer "@ + config.api_key@)) by {
        broadcast use crate::http::lemma_pair_value_append, crate::http::lemma_pair_value_opt;

        lemma_form_headers_spec_keys();
        reveal_with_fuel(crate::http::pair_value, 5);
    }
    assert(crate::http::pair_value(form_headers_spec(config), "X-App-Id"@) == Some(config.app_id@)) by {
        broadcast use crate::http::lemma_pair_value_append, crate::http::lemma_pair_value_opt;

        lemma_form_headers_spec_keys();
        reveal_with_fuel(crate::http::pair_value, 5);
    }
    assert(crate::http::pair_value(form_headers_spec(config), "X-SDK-Version"@) == Some("rust/0.3.0"@)) by {
        broadcast use crate::http::lemma_pair_value_append, crate::http::lemma_pair_value_opt;

        lemma_form_headers_spec_keys();
        reveal_with_fuel(crate::http::pair_value, 5);
    }
    assert(crate::http::pair_value(form_headers_spec(config), "Accept"@) == Some("application/json, text/html"@)) by {
        broadcast use crate::http::lemma_pair_value_append, crate::http::lemma_pair_value_opt;

        lemma_form_headers_spec_keys();
        reveal_with_fuel(crate::http::pair_value, 5);
    }
}

/// The names that `form_headers_spec` uses, told apart.
proof fn lemma_form_headers_spec_keys()
    ensures
        "Accept"@.len() == 6,
        "Authorization"@.len() == 13,
        "Authorization"@[0] == 'A',
        "X-App-Id"@.len() == 8,
        "X-SDK-Version"@.len() == 13,
        "X-SDK-Version"@[0] == 'X',
{
    reveal_strlit("Accept");
    reveal_strlit("Authorization");
    reveal_strlit("X-App-Id");
    reveal_strlit("X-SDK-Version");
}

/// The standard headers of a JSON call.
pub fn json_headers(config: &OlympusConfig) -> (r: Query)
    ensures
        r@ == json_headers_spec(*config),
{
    let mut h = Query::new();
    h.push("Authorization", concat2("Bearer ", config.api_key.as_str()));
    h.push("X-App-Id", config.app_id.clone());
    h.push("X-SDK-Version", "rust/0.3.0".to_owned());
    h.push("Content-Type", "application/json".to_owned());
    h.push("Accept", "application/json".to_owned());
    assert(h@ =~= json_headers_spec(*config));
    h
}

/// The headers of a form submit.
pub fn form_headers(config: &OlympusConfig) -> (r: Query)
    ensures
        r@ == form_headers_spec(*config),
{
    let mut h = Query::new();
    h.push("Authorization", concat2("Bearer ", config.api_key.as_str()));
    h.push("X-App-Id", config.app_id.clone());
    h.push("X-SDK-Version", "rust/0.3.0".to_owned());
    h.push("Accept", "application/json, text/html".to_owned());
    assert(h@ =~= form_headers_spec(*config));
    h
}

// ---------------------------------------------------------------------------
// Responses
// ---------------------------------------------------------------------------

/// Response from a form submit that may redirect: the status, the
/// `Location` header, and the body the server included.
#[derive(Debug, Clone)]
pub struct FormResponse {
    /// HTTP status code as returned by the server (no redirect follow).
    pub status: u16,
    /// Value of the `Location` response header, if present.
    pub location: Option<String>,
    /// Raw response body (empty in the common 303 path).
    pub body: String,
}

pub open spec fn is_success_status(status: u16) -> bool {
    200 <= status < 300
}

pub open spec fn is_redirection_status(status: u16) -> bool {
    300 <= status < 400
}

/// `StatusCode::is_success`.
pub fn is_success(status: u16) -> (r: bool)
    ensures
        r == is_success_status(status),
{
    200 <= status && status < 300
}

/// `StatusCode::is_redirection`.
pub fn is_redirection(status: u16) -> (r: bool)
    ensures
        r == is_redirection_status(status),
{
    300 <= status && status < 400
}

/// The error a parsed error body describes: an `error` object's
/// `code`/`message`/`request_id`, else code `UNKNOWN` with the trimmed body
/// as the message.
pub open spec fn api_error_of_document(status: u16, trimmed: Seq<char>, doc: JsonValue) -> ErrorView {
    match json_get(doc, "error"@) {
        Some(e) => if is_object(e) {
            ErrorView::Api {
                status,
                code: unwrap_or(json_str_member(e, "code"@), "UNKNOWN"@),
                message: unwrap_or(json_str_member(e, "message"@), "Unknown error"@),
                request_id: json_str_member(e, "request_id"@),
            }
        } else {
            ErrorView::Api { status, code: "UNKNOWN"@, message: trimmed, request_id: None }
        },
        None => ErrorView::Api { status, code: "UNKNOWN"@, message: trimmed, request_id: None },
    }
}

/// The error of a body that says nothing usable: code `UNKNOWN` and the
/// status as text.
pub open spec fn status_error(status: u16) -> ErrorView {
    ErrorView::Api { status, code: "UNKNOWN"@, message: "HTTP "@ + decimal(status as nat), request_id: None }
}

pub open spec fn unwrap_or(o: Option<Seq<char>>, d: Seq<char>) -> Seq<char> {
    match o {
        Some(s) => s,
        None => d,
    }
}

/// What [`parse_api_error`] returns for a status and a body.
pub open spec fn api_error_spec(status: u16, body: Seq<char>) -> ErrorView {
    let t = trim(body);
    if t.len() == 0 {
        status_error(status)
    } else {
        match json_text_parse(t) {
            Some(doc) => api_error_of_document(status, t, doc),
            None => status_error(status),
        }
    }
}

fn string_or(o: Option<String>, d: &str) -> (r: String)
    ensures
        r@ == unwrap_or(opt_string(o), d@),
{
    match o {
        Some(s) => s,
        None => d.to_owned(),
    }
}

/// The error a parsed error body describes. `trimmed` is the body with
/// surrounding whitespace removed; `doc` its parse.
pub fn api_error_from_document(status: u16, trimmed: &str, doc: &Json) -> (r: OlympusError)
    ensures
        r@ == api_error_of_document(status, trimmed@, doc@),
{
    if let Some(err) = doc.get("error") {
        if err.is_object() {
            return OlympusError::Api {
                status,
                code: string_or(err.str_member("code"), "UNKNOWN"),
                message: string_or(err.str_member("message"), "Unknown error"),
                request_id: err.str_member("request_id"),
            };
        }
    }
    OlympusError::Api { status, code: "UNKNOWN".to_owned(), message: trimmed.to_owned(), request_id: None }
}

fn status_error_of(status: u16) -> (r: OlympusError)
    ensures
        r@ == status_error(status),
{
    OlympusError::Api {
        status,
        code: "UNKNOWN".to_owned(),
        message: concat2("HTTP ", decimal_string(status as u64).as_str()),
        request_id: None,
    }
}

/// Parse the canonical `{error: {code, message, request_id}}` envelope.
///
/// Falls back gracefully:
/// 1. Empty body or invalid JSON → `code="UNKNOWN"`, `message="HTTP <status>"`.
/// 2. JSON without an `error` object → `code="UNKNOWN"`, `message=<trimmed body>`.
pub fn parse_api_error(status_code: u16, body: &str) -> (r: OlympusError)
    ensures
        r@ == api_error_spec(status_code, body@),
{
    let trimmed = crate::text::trimmed(body);
    if trimmed.as_str().is_empty() {
        return status_error_of(status_code);
    }
    match parse_json_text(trimmed.as_str()) {
        Some(doc) => api_error_from_document(status_code, trimmed.as_str(), &doc),
        None => status_error_of(status_code),
    }
}

/// Whatever the body, an error response becomes an `Api` error that
/// carries the response's status.
pub proof fn lemma_api_error_keeps_status(status: u16, body: Seq<char>)
    ensures
        api_error_spec(status, body) matches ErrorView::Api { status: s, .. } && s == status,
{
}

/// What a successful response body becomes: `{}` for an empty body,
/// otherwise its JSON parse, or a JSON error carrying the parser's message.
pub open spec fn success_body_spec(bytes: Seq<u8>) -> Result<JsonValue, ErrorView> {
    if bytes.len() == 0 {
        Ok(empty_object())
    } else {
        match json_bytes_parse(bytes) {
            Ok(v) => Ok(v),
            Err(m) => Err(ErrorView::Json(m)),
        }
    }
}

pub open spec fn outcome_view(r: Result<Json, OlympusError>) -> Result<JsonValue, ErrorView> {
    match r {
        Ok(j) => Ok(j@),
        Err(e) => Err(e@),
    }
}

/// The value of a successful response body.
pub fn success_body(bytes: &[u8]) -> (r: Result<Json, OlympusError>)
    ensures
        outcome_view(r) == success_body_spec(bytes@),
{
    if bytes.len() == 0 {
        let j = Json::Object(Vec::new());
        assert(j@->Object_0 =~= Seq::<(Seq<char>, JsonValue)>::empty());
        return Ok(j);
    }
    match parse_json_bytes(bytes) {
        Ok(j) => Ok(j),
        Err(m) => Err(OlympusError::Json(m)),
    }
}

/// What a JSON call's response becomes: the body's value on a 2xx status,
/// the described API error otherwise.
pub open spec fn response_spec(status: u16, bytes: Seq<u8>, text: Seq<char>) -> Result<JsonValue, ErrorView> {
    if is_success_status(status) {
        success_body_spec(bytes)
    } else {
        Err(api_error_spec(status, text))
    }
}

/// The outcome of a JSON call, given the status, the raw body and the body
/// as text.
pub fn response_outcome(status: u16, bytes: &[u8], text: &str) -> (r: Result<Json, OlympusError>)
    ensures
        outcome_view(r) == response_spec(status, bytes@, text@),
{
    if is_success(status) {
        success_body(bytes)
    } else {
        Err(parse_api_error(status, text))
    }
}

/// What a form submit's response becomes: the captured response on a 2xx
/// or 3xx status, the described API error otherwise.
pub fn form_outcome(status: u16, location: Option<String>, body: String) -> (r: Result<
    FormResponse,
    OlympusError,
>)
    ensures
        is_success_status(status) || is_redirection_status(status) ==> (r matches Ok(f) && f.status
            == status && f.location == location && f.body == body),
        !(is_success_status(status) || is_redirection_status(status)) ==> (r matches Err(e) && e@
            == api_error_spec(status, body@)),
{
    if is_success(status) || is_redirection(status) {
        Ok(FormResponse { status, location, body })
    } else {
        Err(parse_api_error(status, body.as_str()))
    }
}

/// The outcome of a call whose raw response the caller reads itself: an
/// error for a non-2xx status, nothing otherwise.
pub fn raw_response_check(status: u16, text: &str) -> (r: Option<OlympusError>)
    ensures
        is_success_status(status) ==> r is None,
        !is_success_status(status) ==> (r matches Some(e) && e@ == api_error_spec(status, text@)),
{
    if is_success(status) {
        None
    } else {
        Some(parse_api_error(status, text))
    }
}

} // verus!
