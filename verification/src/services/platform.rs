//! Tenant lifecycle (signup, cleanup), app onboarding, and the consent /
//! PKCE flows of app-scoped permissions.

use vstd::prelude::*;
use crate::decode::{field_enum_tag, keys_view, read_enum_tag, read_record, record_of};
use crate::http::{
    form_request, get_request, json_request, lemma_pair_value_append, lemma_pair_value_opt, opt_decimal, opt_pair,
    pair_value, ApiRequest, FormResponse, HttpMethod, Query,
};
use crate::decode::{
    field_bool, field_doc_list_or_empty, field_i64, field_number, field_opt_str, field_str_list,
    field_str_list_or_empty, read_bool, read_doc_list_or_empty, read_i64, read_number, read_opt_str, read_str,
    read_str_list_field, read_str_list_or_empty, read_u64,
};
use crate::json::{
    is_object, json_get, json_str_member, json_u64_member, jsons_view, number_view, JsonNumber, object_of, opt_string, opt_string_member, str_list_value, strings_view, text_member, uint_value, Json,
    JsonValue, Members,
};
use crate::stamps::{field_utc_time, field_uuid, read_utc_time, read_uuid, UtcTime};
use crate::url::{extract_query_param, query_param};

verus! {

/// Plans the calls of the platform service.
pub struct PlatformService;

/// Request body of [`PlatformService::onboard_app`].
#[derive(Debug)]
pub struct OnboardRequest {
    /// Full manifest JSON, validated server-side as it stands.
    pub manifest: Json,
    /// Initial CORS origins; sent only when there are some.
    pub cors_origins: Vec<String>,
    /// Label of the issued initial API key.
    pub api_key_label: Option<String>,
}

impl OnboardRequest {
    /// An onboard request for a manifest, with no origins and no label.
    pub fn new(manifest: Json) -> (r: Self)
        ensures
            r.manifest@ == manifest@,
            r.cors_origins@.len() == 0,
            r.api_key_label is None,
    {
        OnboardRequest { manifest, cors_origins: Vec::new(), api_key_label: None }
    }

    /// The same request with the given CORS origins.
    pub fn with_cors_origins(self, origins: Vec<String>) -> (r: Self)
        ensures
            r.manifest@ == self.manifest@,
            r.cors_origins@ == origins@,
            r.api_key_label == self.api_key_label,
    {
        OnboardRequest { manifest: self.manifest, cors_origins: origins, api_key_label: self.api_key_label }
    }

    /// The same request with the given API-key label.
    pub fn with_api_key_label(self, label: &str) -> (r: Self)
        ensures
            r.manifest@ == self.manifest@,
            r.cors_origins@ == self.cors_origins@,
            r.api_key_label matches Some(l) && l@ == label@,
    {
        OnboardRequest { manifest: self.manifest, cors_origins: self.cors_origins, api_key_label: Some(label.to_owned()) }
    }
}

/// Onboarding terminal status.
#[derive(Debug, Clone, Copy, PartialEq, Eq, Structural)]
pub enum OnboardStatus {
    /// First-time onboarding: manifest written, key issued, event
    /// published.
    Onboarded,
    /// Idempotent re-onboard: the manifest row kept, a fresh key issued.
    AlreadyOnboarded,
}

/// Form body of [`PlatformService::submit_consent`].
#[derive(Debug, Clone)]
pub struct ConsentForm {
    pub app_id: String,
    /// Comma-separated scopes the user consents to.
    pub scopes: String,
    pub return_to: String,
    /// CSRF state, echoed back in the redirect.
    pub state: String,
    /// UUID pinned to the CSRF cookie.
    pub request_id: String,
    pub code_challenge: Option<String>,
    pub code_challenge_method: Option<String>,
    /// `"authorize"` or `"cancel"`.
    pub action: String,
    /// Acknowledgement of destructive scopes.
    pub destructive_ack: Option<String>,
}

/// The outcome of a consent submit: the redirect and what its query
/// carries.
#[derive(Debug, Clone)]
pub struct ConsentResult {
    pub status: u16,
    /// Full `Location` header value.
    pub location: Option<String>,
    /// `grant_id` of the `Location` query.
    pub grant_id: Option<String>,
    /// `state` of the `Location` query.
    pub state: Option<String>,
    /// `error` of the `Location` query (e.g. `user_cancelled`).
    pub error: Option<String>,
}

/// A parameter of an optional redirect target.
pub open spec fn location_param(location: Option<String>, key: Seq<char>) -> Option<Seq<char>> {
    match location {
        Some(l) => query_param(l@, key),
        None => None,
    }
}

fn location_param_of(location: &Option<String>, key: &str) -> (r: Option<String>)
    ensures
        opt_string(r) == location_param(*location, key@),
{
    match location {
        Some(l) => extract_query_param(l.as_str(), key),
        None => None,
    }
}

impl ConsentResult {
    /// Read a consent submit's redirect: `grant_id`, `state` and `error`
    /// from the `Location` query, each `None` when absent.
    pub fn from_form_response(resp: FormResponse) -> (r: Self)
        ensures
            r.status == resp.status,
            r.location == resp.location,
            opt_string(r.grant_id) == location_param(resp.location, "grant_id"@),
            opt_string(r.state) == location_param(resp.location, "state"@),
            opt_string(r.error) == location_param(resp.location, "error"@),
    {
        let grant_id = location_param_of(&resp.location, "grant_id");
        let state = location_param_of(&resp.location, "state");
        let error = location_param_of(&resp.location, "error");
        ConsentResult { status: resp.status, location: resp.location, grant_id, state, error }
    }
}

/// Form body of [`PlatformService::submit_grant`]; PKCE is required.
#[derive(Debug, Clone)]
pub struct GrantForm {
    pub app_id: String,
    /// Comma-separated scopes.
    pub scopes: String,
    pub return_to: String,
    pub state: String,
    pub request_id: String,
    pub code_challenge: String,
    /// `"S256"`; the server refuses anything else.
    pub code_challenge_method: String,
    /// `"authorize"` or `"cancel"`.
    pub action: String,
    pub destructive_ack: Option<String>,
}

/// The outcome of a grant submit: the redirect and what its query carries.
#[derive(Debug, Clone)]
pub struct GrantResult {
    pub status: u16,
    pub location: Option<String>,
    /// PKCE auth code, to exchange for a mint ticket.
    pub code: Option<String>,
    pub state: Option<String>,
    pub error: Option<String>,
}

impl GrantResult {
    /// Read a grant submit's redirect: `code`, `state` and `error` from the
    /// `Location` query, each `None` when absent.
    pub fn from_form_response(resp: FormResponse) -> (r: Self)
        ensures
            r.status == resp.status,
            r.location == resp.location,
            opt_string(r.code) == location_param(resp.location, "code"@),
            opt_string(r.state) == location_param(resp.location, "state"@),
            opt_string(r.error) == location_param(resp.location, "error"@),
    {
        let code = location_param_of(&resp.location, "code");
        let state = location_param_of(&resp.location, "state");
        let error = location_param_of(&resp.location, "error");
        GrantResult { status: resp.status, location: resp.location, code, state, error }
    }
}

/// Request body of [`PlatformService::exchange_authorization_code`].
#[derive(Debug, Clone)]
pub struct ExchangeRequest {
    /// Auth code of the grant redirect.
    pub code: String,
    /// PKCE verifier: the pre-image of the challenge sent with the consent.
    pub code_verifier: String,
    /// Must equal the app recorded with the code.
    pub app_id: String,
}

impl ExchangeRequest {
    /// An exchange request.
    pub fn new(code: &str, code_verifier: &str, app_id: &str) -> (r: Self)
        ensures
            r.code@ == code@,
            r.code_verifier@ == code_verifier@,
            r.app_id@ == app_id@,
    {
        ExchangeRequest { code: code.to_owned(), code_verifier: code_verifier.to_owned(), app_id: app_id.to_owned() }
    }
}

/// Filters of [`PlatformService::get_grants_graph`].
#[derive(Debug, Clone, Default)]
pub struct GrantsGraphQuery {
    pub tenant_id: Option<String>,
    pub app_id: Option<String>,
    /// Cap on edge counts; 5000 server-side when absent.
    pub limit: Option<usize>,
}

impl GrantsGraphQuery {
    /// No filter: the whole projection.
    pub fn all() -> (r: Self)
        ensures
            r.tenant_id is None,
            r.app_id is None,
            r.limit is None,
    {
        GrantsGraphQuery { tenant_id: None, app_id: None, limit: None }
    }

    /// The same query restricted to one tenant.
    pub fn with_tenant_id(self, tenant_id: &str) -> (r: Self)
        ensures
            r.tenant_id matches Some(t) && t@ == tenant_id@,
            r.app_id == self.app_id,
            r.limit == self.limit,
    {
        GrantsGraphQuery { tenant_id: Some(tenant_id.to_owned()), app_id: self.app_id, limit: self.limit }
    }

    /// The same query restricted to one app.
    pub fn with_app_id(self, app_id: &str) -> (r: Self)
        ensures
            r.app_id matches Some(a) && a@ == app_id@,
            r.tenant_id == self.tenant_id,
            r.limit == self.limit,
    {
        GrantsGraphQuery { tenant_id: self.tenant_id, app_id: Some(app_id.to_owned()), limit: self.limit }
    }

    /// The same query with another edge cap.
    pub fn with_limit(self, limit: usize) -> (r: Self)
        ensures
            r.limit == Some(limit),
            r.tenant_id == self.tenant_id,
            r.app_id == self.app_id,
    {
        GrantsGraphQuery { tenant_id: self.tenant_id, app_id: self.app_id, limit: Some(limit) }
    }
}

/// A tenant node of the grant graph.
#[derive(Debug, Clone)]
pub struct TenantNode {
    pub tenant_id: String,
}

/// An app node of the grant graph.
#[derive(Debug, Clone)]
pub struct AppNode {
    pub app_id: String,
}

/// An `(App)-[REQUIRES]->(Scope)` edge of the grant graph.
#[derive(Debug, Clone)]
pub struct RequiresEdge {
    pub app_id: String,
    pub scope: String,
    pub is_destructive: bool,
    pub granted_by_tenants: u64,
}

/// A form field `key=value` when the value is set.
pub open spec fn opt_field(key: Seq<char>, value: Option<String>) -> Seq<(Seq<char>, Seq<char>)> {
    opt_pair(key, opt_string(value))
}

/// The fields of a consent form, in declaration order, the unset optional
/// ones left out.
pub open spec fn consent_fields(f: ConsentForm) -> Seq<(Seq<char>, Seq<char>)> {
    seq![
        ("app_id"@, f.app_id@),
        ("scopes"@, f.scopes@),
        ("return_to"@, f.return_to@),
        ("state"@, f.state@),
        ("request_id"@, f.request_id@),
    ] + opt_field("code_challenge"@, f.code_challenge)
        + opt_field("code_challenge_method"@, f.code_challenge_method)
        + seq![("action"@, f.action@)]
        + opt_field("destructive_ack"@, f.destructive_ack)
}

/// The fields of a grant form, in declaration order.
pub open spec fn grant_fields(f: GrantForm) -> Seq<(Seq<char>, Seq<char>)> {
    seq![
        ("app_id"@, f.app_id@),
        ("scopes"@, f.scopes@),
        ("return_to"@, f.return_to@),
        ("state"@, f.state@),
        ("request_id"@, f.request_id@),
        ("code_challenge"@, f.code_challenge@),
        ("code_challenge_method"@, f.code_challenge_method@),
        ("action"@, f.action@),
    ] + opt_field("destructive_ack"@, f.destructive_ack)
}

/// Each field of a consent form is sent under its own name with its own
/// value: the CSRF `state` under `state`, the cookie-pinned `request_id`
/// under `request_id`, and so on; an unset optional field is not sent.
pub proof fn lemma_consent_form_fields(f: ConsentForm)
    ensures
        pair_value(consent_fields(f), "app_id"@) == Some(f.app_id@),
        pair_value(consent_fields(f), "scopes"@) == Some(f.scopes@),
        pair_value(consent_fields(f), "return_to"@) == Some(f.return_to@),
        pair_value(consent_fields(f), "state"@) == Some(f.state@),
        pair_value(consent_fields(f), "request_id"@) == Some(f.request_id@),
        pair_value(consent_fields(f), "code_challenge"@) == opt_string(f.code_challenge),
        pair_value(consent_fields(f), "code_challenge_method"@) == opt_string(f.code_challenge_method),
        pair_value(consent_fields(f), "action"@) == Some(f.action@),
        pair_value(consent_fields(f), "destructive_ack"@) == opt_string(f.destructive_ack),
{
    broadcast use lemma_pair_value_append, lemma_pair_value_opt;

    lemma_form_keys_distinct();
    reveal_with_fuel(pair_value, 6);
}

/// Each field of a grant form is sent under its own name with its own
/// value; the acknowledgement only when set.
pub proof fn lemma_grant_form_fields(f: GrantForm)
    ensures
        pair_value(grant_fields(f), "app_id"@) == Some(f.app_id@),
        pair_value(grant_fields(f), "scopes"@) == Some(f.scopes@),
        pair_value(grant_fields(f), "return_to"@) == Some(f.return_to@),
        pair_value(grant_fields(f), "state"@) == Some(f.state@),
        pair_value(grant_fields(f), "request_id"@) == Some(f.request_id@),
        pair_value(grant_fields(f), "code_challenge"@) == Some(f.code_challenge@),
        pair_value(grant_fields(f), "code_challenge_method"@) == Some(f.code_challenge_method@),
        pair_value(grant_fields(f), "action"@) == Some(f.action@),
        pair_value(grant_fields(f), "destructive_ack"@) == opt_string(f.destructive_ack),
{
    broadcast use lemma_pair_value_append, lemma_pair_value_opt;

    lemma_form_keys_distinct();
    reveal_with_fuel(pair_value, 9);
}

proof fn lemma_form_keys_distinct()
    ensures
        "app_id"@.len() == 6 && "app_id"@[0] == 'a' && "app_id"@[1] == 'p',
        "scopes"@.len() == 6 && "scopes"@[0] == 's',
        "return_to"@.len() == 9,
        "state"@.len() == 5,
        "request_id"@.len() == 10 && "request_id"@[0] == 'r',
        "code_challenge"@.len() == 14,
        "code_challenge_method"@.len() == 21,
        "action"@.len() == 6 && "action"@[0] == 'a' && "action"@[1] == 'c',
        "destructive_ack"@.len() == 15,
{
    reveal_strlit("app_id");
    reveal_strlit("scopes");
    reveal_strlit("return_to");
    reveal_strlit("state");
    reveal_strlit("request_id");
    reveal_strlit("code_challenge");
    reveal_strlit("code_challenge_method");
    reveal_strlit("action");
    reveal_strlit("destructive_ack");
}

pub open spec fn onboard_body(req: OnboardRequest) -> JsonValue {
    object_of(
        seq![("manifest"@, req.manifest@)]
            + (if req.cors_origins@.len() == 0 {
                Seq::empty()
            } else {
                seq![("cors_origins"@, str_list_value(strings_view(req.cors_origins@)))]
            })
            + opt_string_member("api_key_label"@, req.api_key_label),
    )
}

/// What `onboard_body` builds reads back field by field: each value the
/// arguments give is found under its own name, an optional one only when
/// it is set, and a list as the same items in the same order.
pub proof fn lemma_onboard_body_reads_back(req: OnboardRequest)
    ensures
        crate::decode::field_str_list_or_empty(onboard_body(req), "cors_origins"@) == Some(strings_view(req.cors_origins@)),
        crate::decode::field_opt_str(onboard_body(req), "api_key_label"@) == Some(crate::json::opt_string(req.api_key_label)),
        crate::json::json_get(onboard_body(req), "manifest"@) == Some(req.manifest@),
{
    assert(crate::decode::field_str_list_or_empty(onboard_body(req), "cors_origins"@) == Some(strings_view(req.cors_origins@))) by {
        broadcast use crate::json::lemma_member_lookup_append, crate::json::lemma_member_lookup_opt;

        lemma_onboard_body_keys();
        reveal_with_fuel(crate::json::member_lookup, 2);
        crate::decode::lemma_str_list_reads_back(strings_view(req.cors_origins@));
    }
    assert(crate::decode::field_opt_str(onboard_body(req), "api_key_label"@) == Some(crate::json::opt_string(req.api_key_label))) by {
        broadcast use crate::json::lemma_member_lookup_append, crate::json::lemma_member_lookup_opt;

        lemma_onboard_body_keys();
        reveal_with_fuel(crate::json::member_lookup, 2);
    }
    assert(crate::json::json_get(onboard_body(req), "manifest"@) == Some(req.manifest@)) by {
        broadcast use crate::json::lemma_member_lookup_append, crate::json::lemma_member_lookup_opt;

        lemma_onboard_body_keys();
        reveal_with_fuel(crate::json::member_lookup, 2);
    }
}

/// The field names that `onboard_body` uses, told apart.
proof fn lemma_onboard_body_keys()
    ensures
        "api_key_label"@.len() == 13,
        "cors_origins"@.len() == 12,
        "manifest"@.len() == 8,
{
    reveal_strlit("api_key_label");
    reveal_strlit("cors_origins");
    reveal_strlit("manifest");
}

pub open spec fn graph_query(q: GrantsGraphQuery) -> Seq<(Seq<char>, Seq<char>)> {
    opt_field("tenant_id"@, q.tenant_id)
        + opt_field("app_id"@, q.app_id)
        + opt_pair(
            "limit"@,
            opt_decimal(
                match q.limit {
                    Some(l) => Some(l as u64),
                    None => None,
                },
            ),
        )
}

/// What `graph_query` builds reads back pair by pair: each value the arguments
/// give is found under its own name, an optional one only when it is set.
pub proof fn lemma_graph_query_reads_back(q: GrantsGraphQuery)
    ensures
        crate::http::pair_value(graph_query(q), "tenant_id"@) == crate::json::opt_string(q.tenant_id),
        crate::http::pair_value(graph_query(q), "app_id"@) == crate::json::opt_string(q.app_id),
        crate::http::pair_value(graph_query(q), "limit"@) == opt_decimal(match q.limit { Some(l) => Some(l as u64), None => None }),
{
    assert(crate::http::pair_value(graph_query(q), "tenant_id"@) == crate::json::opt_string(q.tenant_id)) by {
        broadcast use crate::http::lemma_pair_value_append, crate::http::lemma_pair_value_opt;

        lemma_graph_query_keys();
        reveal_with_fuel(crate::http::pair_value, 2);
    }
    assert(crate::http::pair_value(graph_query(q), "app_id"@) == crate::json::opt_string(q.app_id)) by {
        broadcast use crate::http::lemma_pair_value_append, crate::http::lemma_pair_value_opt;

        lemma_graph_query_keys();
        reveal_with_fuel(crate::http::pair_value, 2);
    }
    assert(crate::http::pair_value(graph_query(q), "limit"@) == opt_decimal(match q.limit { Some(l) => Some(l as u64), None => None })) by {
        broadcast use crate::http::lemma_pair_value_append, crate::http::lemma_pair_value_opt;

        lemma_graph_query_keys();
        reveal_with_fuel(crate::http::pair_value, 2);
    }
}

/// The names that `graph_query` uses, told apart.
proof fn lemma_graph_query_keys()
    ensures
        "app_id"@.len() == 6,
        "limit"@.len() == 5,
        "tenant_id"@.len() == 9,
{
    reveal_strlit("app_id");
    reveal_strlit("limit");
    reveal_strlit("tenant_id");
}

// ---------------------------------------------------------------------------
// Reading responses
// ---------------------------------------------------------------------------

/// The wire name of an onboarding status.
pub open spec fn onboard_status_name(s: OnboardStatus) -> Seq<char> {
    match s {
        OnboardStatus::Onboarded => "onboarded"@,
        OnboardStatus::AlreadyOnboarded => "already_onboarded"@,
    }
}

/// Each onboarding status has a wire name of its own, so a status read
/// by [`OnboardStatus::from_name`] from its name is that status.
pub proof fn lemma_onboard_status_names_distinct(a: OnboardStatus, b: OnboardStatus)
    ensures
        onboard_status_name(a) == onboard_status_name(b) ==> a == b,
{
    reveal_strlit("onboarded");
    reveal_strlit("already_onboarded");
    assert("onboarded"@.len() == 9);
    assert("already_onboarded"@.len() == 17);
}

/// Whether `n` names an onboarding status.
pub open spec fn is_onboard_status_name(n: Seq<char>) -> bool {
    exists|s: OnboardStatus| #[trigger] onboard_status_name(s) == n
}

impl OnboardStatus {
    /// The status a wire name denotes.
    pub fn from_name(name: &str) -> (r: Option<OnboardStatus>)
        ensures
            match r {
                Some(s) => onboard_status_name(s) == name@,
                None => !is_onboard_status_name(name@),
            },
    {
        if crate::text::str_eq(name, "onboarded") {
            Some(OnboardStatus::Onboarded)
        } else if crate::text::str_eq(name, "already_onboarded") {
            Some(OnboardStatus::AlreadyOnboarded)
        } else {
            proof {
                assert forall|s: OnboardStatus| onboard_status_name(s) != name@ by {
                    match s {
                        OnboardStatus::Onboarded => {},
                        OnboardStatus::AlreadyOnboarded => {},
                    }
                }
            }
            None
        }
    }
}

/// The result of onboarding an app. The plaintext API key is returned
/// once; origins not yet persisted to the CORS table are listed as
/// pending; validator warnings are documents.
#[derive(Debug)]
pub struct OnboardResponse {
    pub app_id: String,
    pub status: OnboardStatus,
    pub api_key: String,
    pub api_key_prefix: String,
    pub api_key_id: String,
    pub cors_origins_pending: Vec<String>,
    pub cors_followup_issue_url: Option<String>,
    pub signing_key_seed_event_published: bool,
    pub validator_warnings: Vec<Json>,
}

/// Whether `x` is what the object `v` reads as: the app, its status
/// (one of its wire names), the key and the publication flag required;
/// pending origins and warnings none when absent; the follow-up optional.
pub open spec fn is_onboard_response_fields_of(v: JsonValue, x: OnboardResponse) -> bool {
    &&& is_object(v)
    &&& json_str_member(v, "app_id"@) == Some(x.app_id@)
    &&& field_enum_tag(v, "status"@) == Some(onboard_status_name(x.status))
    &&& json_str_member(v, "api_key"@) == Some(x.api_key@)
    &&& json_str_member(v, "api_key_prefix"@) == Some(x.api_key_prefix@)
    &&& json_str_member(v, "api_key_id"@) == Some(x.api_key_id@)
    &&& field_str_list_or_empty(v, "cors_origins_pending"@) == Some(strings_view(x.cors_origins_pending@))
    &&& field_opt_str(v, "cors_followup_issue_url"@) == Some(opt_string(x.cors_followup_issue_url))
    &&& field_bool(v, "signing_key_seed_event_published"@) == Some(x.signing_key_seed_event_published)
    &&& field_doc_list_or_empty(v, "validator_warnings"@) == Some(jsons_view(x.validator_warnings@))
}

/// Whether the object `v` reads as an onboarding result.
pub open spec fn reads_as_onboard_response_fields(v: JsonValue) -> bool {
    &&& is_object(v)
    &&& json_str_member(v, "app_id"@) is Some
    &&& field_enum_tag(v, "status"@) matches Some(n) && is_onboard_status_name(n)
    &&& json_str_member(v, "api_key"@) is Some
    &&& json_str_member(v, "api_key_prefix"@) is Some
    &&& json_str_member(v, "api_key_id"@) is Some
    &&& field_str_list_or_empty(v, "cors_origins_pending"@) is Some
    &&& field_opt_str(v, "cors_followup_issue_url"@) is Some
    &&& field_bool(v, "signing_key_seed_event_published"@) is Some
    &&& field_doc_list_or_empty(v, "validator_warnings"@) is Some
}

/// The field names of an `OnboardResponse`, in declaration order.
pub open spec fn onboard_response_keys() -> Seq<Seq<char>> {
    seq!["app_id"@, "status"@, "api_key"@, "api_key_prefix"@, "api_key_id"@, "cors_origins_pending"@, "cors_followup_issue_url"@, "signing_key_seed_event_published"@, "validator_warnings"@]
}

/// Which fields of an `OnboardResponse` may be left out.
pub open spec fn onboard_response_defaults() -> Seq<bool> {
    seq![false, false, false, false, false, true, true, false, true]
}

/// Whether `x` is what the record document `v` (an object, or an array of
/// the fields in order) reads as.
pub open spec fn is_onboard_response_of(v: JsonValue, x: OnboardResponse) -> bool {
    record_of(v, onboard_response_keys(), onboard_response_defaults()) matches Some(o) && is_onboard_response_fields_of(o, x)
}

/// Whether the record document `v` reads as an `OnboardResponse`.
pub open spec fn reads_as_onboard_response(v: JsonValue) -> bool {
    record_of(v, onboard_response_keys(), onboard_response_defaults()) matches Some(o) && reads_as_onboard_response_fields(o)
}

/// The object that writes each field of an `OnboardResponse` under its own name.
pub open spec fn onboard_response_object(x: OnboardResponse) -> JsonValue {
    JsonValue::Object(seq![
        ("app_id"@, JsonValue::Str(x.app_id@)),
        ("status"@, JsonValue::Str(onboard_status_name(x.status))),
        ("api_key"@, JsonValue::Str(x.api_key@)),
        ("api_key_prefix"@, JsonValue::Str(x.api_key_prefix@)),
        ("api_key_id"@, JsonValue::Str(x.api_key_id@)),
        ("cors_origins_pending"@, crate::json::str_list_value(crate::json::strings_view(x.cors_origins_pending@))),
        ("cors_followup_issue_url"@, crate::json::str_or_null(crate::json::opt_string(x.cors_followup_issue_url))),
        ("signing_key_seed_event_published"@, JsonValue::Bool(x.signing_key_seed_event_published)),
        ("validator_warnings"@, JsonValue::Array(crate::json::jsons_view(x.validator_warnings@))),
    ])
}

/// An `OnboardResponse` whose fields are written under their own names reads back as
/// the same `OnboardResponse`.
pub proof fn lemma_onboard_response_reads_back(x: OnboardResponse)
    ensures
        is_onboard_response_of(onboard_response_object(x), x),
{
    let v = onboard_response_object(x);
    assert(json_str_member(v, "app_id"@) == Some(x.app_id@)) by {
        lemma_onboard_response_names();
        reveal_with_fuel(crate::json::member_lookup, 10);
    }
    assert(field_enum_tag(v, "status"@) == Some(onboard_status_name(x.status))) by {
        lemma_onboard_response_names();
        reveal_with_fuel(crate::json::member_lookup, 10);
    }
    assert(json_str_member(v, "api_key"@) == Some(x.api_key@)) by {
        lemma_onboard_response_names();
        reveal_with_fuel(crate::json::member_lookup, 10);
    }
    assert(json_str_member(v, "api_key_prefix"@) == Some(x.api_key_prefix@)) by {
        lemma_onboard_response_names();
        reveal_with_fuel(crate::json::member_lookup, 10);
    }
    assert(json_str_member(v, "api_key_id"@) == Some(x.api_key_id@)) by {
        lemma_onboard_response_names();
        reveal_with_fuel(crate::json::member_lookup, 10);
    }
    assert(field_str_list_or_empty(v, "cors_origins_pending"@) == Some(strings_view(x.cors_origins_pending@))) by {
        lemma_onboard_response_names();
        reveal_with_fuel(crate::json::member_lookup, 10);
        crate::decode::lemma_str_list_reads_back(crate::json::strings_view(x.cors_origins_pending@));
    }
    assert(field_opt_str(v, "cors_followup_issue_url"@) == Some(opt_string(x.cors_followup_issue_url))) by {
        lemma_onboard_response_names();
        reveal_with_fuel(crate::json::member_lookup, 10);
    }
    assert(field_bool(v, "signing_key_seed_event_published"@) == Some(x.signing_key_seed_event_published)) by {
        lemma_onboard_response_names();
        reveal_with_fuel(crate::json::member_lookup, 10);
    }
    assert(field_doc_list_or_empty(v, "validator_warnings"@) == Some(jsons_view(x.validator_warnings@))) by {
        lemma_onboard_response_names();
        reveal_with_fuel(crate::json::member_lookup, 10);
    }
    assert(is_onboard_response_fields_of(v, x));
}

/// The field names of an `OnboardResponse`, told apart.
proof fn lemma_onboard_response_names()
    ensures
        "api_key"@.len() == 7,
        "api_key_id"@.len() == 10,
        "api_key_prefix"@.len() == 14,
        "app_id"@.len() == 6,
        "app_id"@[0] == 'a',
        "cors_followup_issue_url"@.len() == 23,
        "cors_origins_pending"@.len() == 20,
        "signing_key_seed_event_published"@.len() == 32,
        "status"@.len() == 6,
        "status"@[0] == 's',
        "validator_warnings"@.len() == 18,
{
    reveal_strlit("api_key");
    reveal_strlit("api_key_id");
    reveal_strlit("api_key_prefix");
    reveal_strlit("app_id");
    reveal_strlit("cors_followup_issue_url");
    reveal_strlit("cors_origins_pending");
    reveal_strlit("signing_key_seed_event_published");
    reveal_strlit("status");
    reveal_strlit("validator_warnings");
}

impl OnboardResponse {
    /// Reads an `OnboardResponse` out of a document: an object, or an array of the
    /// fields in declaration order.
    pub fn from_json(v: &Json) -> (r: Option<OnboardResponse>)
        ensures
            r is Some <==> reads_as_onboard_response(v@),
            r matches Some(x) ==> is_onboard_response_of(v@, x),
    {
        let mut keys: Vec<&str> = Vec::new();
        let mut defaults: Vec<bool> = Vec::new();
        keys.push("app_id");
        defaults.push(false);
        keys.push("status");
        defaults.push(false);
        keys.push("api_key");
        defaults.push(false);
        keys.push("api_key_prefix");
        defaults.push(false);
        keys.push("api_key_id");
        defaults.push(false);
        keys.push("cors_origins_pending");
        defaults.push(true);
        keys.push("cors_followup_issue_url");
        defaults.push(true);
        keys.push("signing_key_seed_event_published");
        defaults.push(false);
        keys.push("validator_warnings");
        defaults.push(true);
        proof {
            assert(keys_view(keys@) =~= onboard_response_keys());
            assert(defaults@ =~= onboard_response_defaults());
        }
        match read_record(v, &keys, &defaults) {
            Some(doc) => Self::from_fields(&doc),
            None => None,
        }
    }

    /// Reads the record out of the object it stands for.
    fn from_fields(v: &Json) -> (r: Option<OnboardResponse>)
        ensures
            r is Some <==> reads_as_onboard_response_fields(v@),
            r matches Some(x) ==> is_onboard_response_fields_of(v@, x),
    {
        if !v.is_object() {
            return None;
        }
        let app_id = match read_str(v, "app_id") {
            Some(y) => y,
            None => return None,
        };
        let status = match read_enum_tag(v, "status") {
            Some(n) => match OnboardStatus::from_name(n.as_str()) {
                Some(e) => e,
                None => return None,
            },
            None => return None,
        };
        let api_key = match read_str(v, "api_key") {
            Some(y) => y,
            None => return None,
        };
        let api_key_prefix = match read_str(v, "api_key_prefix") {
            Some(y) => y,
            None => return None,
        };
        let api_key_id = match read_str(v, "api_key_id") {
            Some(y) => y,
            None => return None,
        };
        let cors_origins_pending = match read_str_list_or_empty(v, "cors_origins_pending") {
            Some(y) => y,
            None => return None,
        };
        let cors_followup_issue_url = match read_opt_str(v, "cors_followup_issue_url") {
            Some(y) => y,
            None => return None,
        };
        let signing_key_seed_event_published = match read_bool(v, "signing_key_seed_event_published") {
            Some(y) => y,
            None => return None,
        };
        let validator_warnings = match read_doc_list_or_empty(v, "validator_warnings") {
            Some(y) => y,
            None => return None,
        };
        Some(OnboardResponse { app_id, status, api_key, api_key_prefix, api_key_id, cors_origins_pending, cors_followup_issue_url, signing_key_seed_event_published, validator_warnings })
    }
}
/// The ticket an authorization code is exchanged for. The tenant and user
/// are UUIDs held as their 128-bit values; the times are Unix seconds.
#[derive(Debug, Clone)]
pub struct MintTicket {
    pub app_id: String,
    pub tenant_id: u128,
    pub user_id: u128,
    pub granted_scopes: Vec<String>,
    pub issued_at: i64,
    pub exp: i64,
    pub nonce: String,
}

/// Whether `x` is what the object `v` reads as: every field required,
/// the tenant and user as UUID texts.
pub open spec fn is_mint_ticket_fields_of(v: JsonValue, x: MintTicket) -> bool {
    &&& is_object(v)
    &&& json_str_member(v, "app_id"@) == Some(x.app_id@)
    &&& field_uuid(v, "tenant_id"@) == Some(x.tenant_id)
    &&& field_uuid(v, "user_id"@) == Some(x.user_id)
    &&& field_str_list(v, "granted_scopes"@) == Some(strings_view(x.granted_scopes@))
    &&& field_i64(v, "issued_at"@) == Some(x.issued_at)
    &&& field_i64(v, "exp"@) == Some(x.exp)
    &&& json_str_member(v, "nonce"@) == Some(x.nonce@)
}

/// Whether the object `v` reads as a mint ticket.
pub open spec fn reads_as_mint_ticket_fields(v: JsonValue) -> bool {
    &&& is_object(v)
    &&& json_str_member(v, "app_id"@) is Some
    &&& field_uuid(v, "tenant_id"@) is Some
    &&& field_uuid(v, "user_id"@) is Some
    &&& field_str_list(v, "granted_scopes"@) is Some
    &&& field_i64(v, "issued_at"@) is Some
    &&& field_i64(v, "exp"@) is Some
    &&& json_str_member(v, "nonce"@) is Some
}

/// The field names of a `MintTicket`, in declaration order.
pub open spec fn mint_ticket_keys() -> Seq<Seq<char>> {
    seq!["app_id"@, "tenant_id"@, "user_id"@, "granted_scopes"@, "issued_at"@, "exp"@, "nonce"@]
}

/// Which fields of a `MintTicket` may be left out.
pub open spec fn mint_ticket_defaults() -> Seq<bool> {
    seq![false, false, false, false, false, false, false]
}

/// Whether `x` is what the record document `v` (an object, or an array of
/// the fields in order) reads as.
pub open spec fn is_mint_ticket_of(v: JsonValue, x: MintTicket) -> bool {
    record_of(v, mint_ticket_keys(), mint_ticket_defaults()) matches Some(o) && is_mint_ticket_fields_of(o, x)
}

/// Whether the record document `v` reads as a `MintTicket`.
pub open spec fn reads_as_mint_ticket(v: JsonValue) -> bool {
    record_of(v, mint_ticket_keys(), mint_ticket_defaults()) matches Some(o) && reads_as_mint_ticket_fields(o)
}

impl MintTicket {
    /// Reads a `MintTicket` out of a document: an object, or an array of the
    /// fields in declaration order.
    pub fn from_json(v: &Json) -> (r: Option<MintTicket>)
        ensures
            r is Some <==> reads_as_mint_ticket(v@),
            r matches Some(x) ==> is_mint_ticket_of(v@, x),
    {
        let mut keys: Vec<&str> = Vec::new();
        let mut defaults: Vec<bool> = Vec::new();
        keys.push("app_id");
        defaults.push(false);
        keys.push("tenant_id");
        defaults.push(false);
        keys.push("user_id");
        defaults.push(false);
        keys.push("granted_scopes");
        defaults.push(false);
        keys.push("issued_at");
        defaults.push(false);
        keys.push("exp");
        defaults.push(false);
        keys.push("nonce");
        defaults.push(false);
        proof {
            assert(keys_view(keys@) =~= mint_ticket_keys());
            assert(defaults@ =~= mint_ticket_defaults());
        }
        match read_record(v, &keys, &defaults) {
            Some(doc) => Self::from_fields(&doc),
            None => None,
        }
    }

    /// Reads the record out of the object it stands for.
    fn from_fields(v: &Json) -> (r: Option<MintTicket>)
        ensures
            r is Some <==> reads_as_mint_ticket_fields(v@),
            r matches Some(x) ==> is_mint_ticket_fields_of(v@, x),
    {
        if !v.is_object() {
            return None;
        }
        let app_id = match read_str(v, "app_id") {
            Some(y) => y,
            None => return None,
        };
        let tenant_id = match read_uuid(v, "tenant_id") {
            Some(y) => y,
            None => return None,
        };
        let user_id = match read_uuid(v, "user_id") {
            Some(y) => y,
            None => return None,
        };
        let granted_scopes = match read_str_list_field(v, "granted_scopes") {
            Some(y) => y,
            None => return None,
        };
        let issued_at = match read_i64(v, "issued_at") {
            Some(y) => y,
            None => return None,
        };
        let exp = match read_i64(v, "exp") {
            Some(y) => y,
            None => return None,
        };
        let nonce = match read_str(v, "nonce") {
            Some(y) => y,
            None => return None,
        };
        Some(MintTicket { app_id, tenant_id, user_id, granted_scopes, issued_at, exp, nonce })
    }
}
/// The answer to a code exchange: the ticket and the seconds until it
/// expires.
#[derive(Debug, Clone)]
pub struct ExchangeResponse {
    pub mint_ticket: MintTicket,
    pub expires_in: i64,
}

/// Whether `x` is what the object `v` reads as.
pub open spec fn is_exchange_response_fields_of(v: JsonValue, x: ExchangeResponse) -> bool {
    &&& is_object(v)
    &&& json_get(v, "mint_ticket"@) matches Some(y) && is_mint_ticket_of(y, x.mint_ticket)
    &&& field_i64(v, "expires_in"@) == Some(x.expires_in)
}

/// Whether the object `v` reads as the answer to a code exchange.
pub open spec fn reads_as_exchange_response_fields(v: JsonValue) -> bool {
    &&& is_object(v)
    &&& json_get(v, "mint_ticket"@) matches Some(y) && reads_as_mint_ticket(y)
    &&& field_i64(v, "expires_in"@) is Some
}

/// The field names of an `ExchangeResponse`, in declaration order.
pub open spec fn exchange_response_keys() -> Seq<Seq<char>> {
    seq!["mint_ticket"@, "expires_in"@]
}

/// Which fields of an `ExchangeResponse` may be left out.
pub open spec fn exchange_response_defaults() -> Seq<bool> {
    seq![false, false]
}

/// Whether `x` is what the record document `v` (an object, or an array of
/// the fields in order) reads as.
pub open spec fn is_exchange_response_of(v: JsonValue, x: ExchangeResponse) -> bool {
    record_of(v, exchange_response_keys(), exchange_response_defaults()) matches Some(o) && is_exchange_response_fields_of(o, x)
}

/// Whether the record document `v` reads as an `ExchangeResponse`.
pub open spec fn reads_as_exchange_response(v: JsonValue) -> bool {
    record_of(v, exchange_response_keys(), exchange_response_defaults()) matches Some(o) && reads_as_exchange_response_fields(o)
}

impl ExchangeResponse {
    /// Reads an `ExchangeResponse` out of a document: an object, or an array of the
    /// fields in declaration order.
    pub fn from_json(v: &Json) -> (r: Option<ExchangeResponse>)
        ensures
            r is Some <==> reads_as_exchange_response(v@),
            r matches Some(x) ==> is_exchange_response_of(v@, x),
    {
        let mut keys: Vec<&str> = Vec::new();
        let mut defaults: Vec<bool> = Vec::new();
        keys.push("mint_ticket");
        defaults.push(false);
        keys.push("expires_in");
        defaults.push(false);
        proof {
            assert(keys_view(keys@) =~= exchange_response_keys());
            assert(defaults@ =~= exchange_response_defaults());
        }
        match read_record(v, &keys, &defaults) {
            Some(doc) => Self::from_fields(&doc),
            None => None,
        }
    }

    /// Reads the record out of the object it stands for.
    fn from_fields(v: &Json) -> (r: Option<ExchangeResponse>)
        ensures
            r is Some <==> reads_as_exchange_response_fields(v@),
            r matches Some(x) ==> is_exchange_response_fields_of(v@, x),
    {
        if !v.is_object() {
            return None;
        }
        let mint_ticket = match v.get("mint_ticket") {
            Some(y) => match MintTicket::from_json(y) {
                Some(t) => t,
                None => return None,
            },
            None => return None,
        };
        let expires_in = match read_i64(v, "expires_in") {
            Some(y) => y,
            None => return None,
        };
        Some(ExchangeResponse { mint_ticket, expires_in })
    }
}
/// Whether `x` is what the object `v` reads as.
pub open spec fn is_tenant_node_fields_of(v: JsonValue, x: TenantNode) -> bool {
    &&& is_object(v)
    &&& json_str_member(v, "tenant_id"@) == Some(x.tenant_id@)
}

/// Whether the object `v` reads as a tenant node.
pub open spec fn reads_as_tenant_node_fields(v: JsonValue) -> bool {
    &&& is_object(v)
    &&& json_str_member(v, "tenant_id"@) is Some
}

/// The field names of a `TenantNode`, in declaration order.
pub open spec fn tenant_node_keys() -> Seq<Seq<char>> {
    seq!["tenant_id"@]
}

/// Which fields of a `TenantNode` may be left out.
pub open spec fn tenant_node_defaults() -> Seq<bool> {
    seq![false]
}

/// Whether `x` is what the record document `v` (an object, or an array of
/// the fields in order) reads as.
pub open spec fn is_tenant_node_of(v: JsonValue, x: TenantNode) -> bool {
    record_of(v, tenant_node_keys(), tenant_node_defaults()) matches Some(o) && is_tenant_node_fields_of(o, x)
}

/// Whether the record document `v` reads as a `TenantNode`.
pub open spec fn reads_as_tenant_node(v: JsonValue) -> bool {
    record_of(v, tenant_node_keys(), tenant_node_defaults()) matches Some(o) && reads_as_tenant_node_fields(o)
}

/// The object that writes each field of a `TenantNode` under its own name.
pub open spec fn tenant_node_object(x: TenantNode) -> JsonValue {
    JsonValue::Object(seq![
        ("tenant_id"@, JsonValue::Str(x.tenant_id@)),
    ])
}

/// A `TenantNode` whose fields are written under their own names reads back as
/// the same `TenantNode`.
pub proof fn lemma_tenant_node_reads_back(x: TenantNode)
    ensures
        is_tenant_node_of(tenant_node_object(x), x),
{
    let v = tenant_node_object(x);
    assert(json_str_member(v, "tenant_id"@) == Some(x.tenant_id@)) by {
        lemma_tenant_node_names();
        reveal_with_fuel(crate::json::member_lookup, 2);
    }
    assert(is_tenant_node_fields_of(v, x));
}

/// The field names of a `TenantNode`, told apart.
proof fn lemma_tenant_node_names()
    ensures
        "tenant_id"@.len() == 9,
{
    reveal_strlit("tenant_id");
}

/// Whether `l` is what the list document `x` reads as, item by item.
pub open spec fn is_tenant_node_items_of(x: JsonValue, l: Seq<TenantNode>) -> bool {
    &&& x is Array
    &&& l.len() == x->Array_0.len()
    &&& forall|i: int| 0 <= i < l.len() ==> is_tenant_node_of(x->Array_0[i], #[trigger] l[i])
}

/// Whether `x` is a list whose every item reads as one.
pub open spec fn reads_as_tenant_node_items(x: JsonValue) -> bool {
    &&& x is Array
    &&& forall|i: int| 0 <= i < x->Array_0.len() ==> reads_as_tenant_node(#[trigger] x->Array_0[i])
}

impl TenantNode {
    /// Reads a `TenantNode` out of a document: an object, or an array of the
    /// fields in declaration order.
    pub fn from_json(v: &Json) -> (r: Option<TenantNode>)
        ensures
            r is Some <==> reads_as_tenant_node(v@),
            r matches Some(x) ==> is_tenant_node_of(v@, x),
    {
        let mut keys: Vec<&str> = Vec::new();
        let mut defaults: Vec<bool> = Vec::new();
        keys.push("tenant_id");
        defaults.push(false);
        proof {
            assert(keys_view(keys@) =~= tenant_node_keys());
            assert(defaults@ =~= tenant_node_defaults());
        }
        match read_record(v, &keys, &defaults) {
            Some(doc) => Self::from_fields(&doc),
            None => None,
        }
    }

    /// Reads the record out of the object it stands for.
    fn from_fields(v: &Json) -> (r: Option<TenantNode>)
        ensures
            r is Some <==> reads_as_tenant_node_fields(v@),
            r matches Some(x) ==> is_tenant_node_fields_of(v@, x),
    {
        if !v.is_object() {
            return None;
        }
        let tenant_id = match read_str(v, "tenant_id") {
            Some(y) => y,
            None => return None,
        };
        Some(TenantNode { tenant_id })
    }

    /// Reads a list of tenant nodes: an array whose every item reads as one.
    pub fn list_from_json(v: &Json) -> (r: Option<Vec<TenantNode>>)
        ensures
            r is Some <==> reads_as_tenant_node_items(v@),
            r matches Some(l) ==> is_tenant_node_items_of(v@, l@),
    {
        match v {
            Json::Array(items) => {
                let ghost whole = v@;
                let mut out: Vec<TenantNode> = Vec::new();
                let mut i: usize = 0;
                while i < items.len()
                    invariant
                        i <= items.len(),
                        whole == v@,
                        whole == crate::json::json_view(Json::Array(*items)),
                        out@.len() == i,
                        forall|k: int| 0 <= k < i ==> is_tenant_node_of(whole->Array_0[k], #[trigger] out@[k]),
                    decreases items.len() - i,
                {
                    assert(whole->Array_0[i as int] == items@[i as int]@);
                    match TenantNode::from_json(&items[i]) {
                        Some(a) => out.push(a),
                        None => return None,
                    }
                    i = i + 1;
                }
                assert forall|k: int| 0 <= k < whole->Array_0.len() implies reads_as_tenant_node(
                    #[trigger] whole->Array_0[k],
                ) by {
                    assert(is_tenant_node_of(whole->Array_0[k], out@[k]));
                }
                Some(out)
            },
            _ => None,
        }
    }
}
/// Whether `x` is what the object `v` reads as.
pub open spec fn is_app_node_fields_of(v: JsonValue, x: AppNode) -> bool {
    &&& is_object(v)
    &&& json_str_member(v, "app_id"@) == Some(x.app_id@)
}

/// Whether the object `v` reads as an app node.
pub open spec fn reads_as_app_node_fields(v: JsonValue) -> bool {
    &&& is_object(v)
    &&& json_str_member(v, "app_id"@) is Some
}

/// The field names of an `AppNode`, in declaration order.
pub open spec fn app_node_keys() -> Seq<Seq<char>> {
    seq!["app_id"@]
}

/// Which fields of an `AppNode` may be left out.
pub open spec fn app_node_defaults() -> Seq<bool> {
    seq![false]
}

/// Whether `x` is what the record document `v` (an object, or an array of
/// the fields in order) reads as.
pub open spec fn is_app_node_of(v: JsonValue, x: AppNode) -> bool {
    record_of(v, app_node_keys(), app_node_defaults()) matches Some(o) && is_app_node_fields_of(o, x)
}

/// Whether the record document `v` reads as an `AppNode`.
pub open spec fn reads_as_app_node(v: JsonValue) -> bool {
    record_of(v, app_node_keys(), app_node_defaults()) matches Some(o) && reads_as_app_node_fields(o)
}

/// The object that writes each field of an `AppNode` under its own name.
pub open spec fn app_node_object(x: AppNode) -> JsonValue {
    JsonValue::Object(seq![
        ("app_id"@, JsonValue::Str(x.app_id@)),
    ])
}

/// An `AppNode` whose fields are written under their own names reads back as
/// the same `AppNode`.
pub proof fn lemma_app_node_reads_back(x: AppNode)
    ensures
        is_app_node_of(app_node_object(x), x),
{
    let v = app_node_object(x);
    assert(json_str_member(v, "app_id"@) == Some(x.app_id@)) by {
        lemma_app_node_names();
        reveal_with_fuel(crate::json::member_lookup, 2);
    }
    assert(is_app_node_fields_of(v, x));
}

/// The field names of an `AppNode`, told apart.
proof fn lemma_app_node_names()
    ensures
        "app_id"@.len() == 6,
{
    reveal_strlit("app_id");
}

/// Whether `l` is what the list document `x` reads as, item by item.
pub open spec fn is_app_node_items_of(x: JsonValue, l: Seq<AppNode>) -> bool {
    &&& x is Array
    &&& l.len() == x->Array_0.len()
    &&& forall|i: int| 0 <= i < l.len() ==> is_app_node_of(x->Array_0[i], #[trigger] l[i])
}

/// Whether `x` is a list whose every item reads as one.
pub open spec fn reads_as_app_node_items(x: JsonValue) -> bool {
    &&& x is Array
    &&& forall|i: int| 0 <= i < x->Array_0.len() ==> reads_as_app_node(#[trigger] x->Array_0[i])
}

impl AppNode {
    /// Reads an `AppNode` out of a document: an object, or an array of the
    /// fields in declaration order.
    pub fn from_json(v: &Json) -> (r: Option<AppNode>)
        ensures
            r is Some <==> reads_as_app_node(v@),
            r matches Some(x) ==> is_app_node_of(v@, x),
    {
        let mut keys: Vec<&str> = Vec::new();
        let mut defaults: Vec<bool> = Vec::new();
        keys.push("app_id");
        defaults.push(false);
        proof {
            assert(keys_view(keys@) =~= app_node_keys());
            assert(defaults@ =~= app_node_defaults());
        }
        match read_record(v, &keys, &defaults) {
            Some(doc) => Self::from_fields(&doc),
            None => None,
        }
    }

    /// Reads the record out of the object it stands for.
    fn from_fields(v: &Json) -> (r: Option<AppNode>)
        ensures
            r is Some <==> reads_as_app_node_fields(v@),
            r matches Some(x) ==> is_app_node_fields_of(v@, x),
    {
        if !v.is_object() {
            return None;
        }
        let app_id = match read_str(v, "app_id") {
            Some(y) => y,
            None => return None,
        };
        Some(AppNode { app_id })
    }

    /// Reads a list of app nodes: an array whose every item reads as one.
    pub fn list_from_json(v: &Json) -> (r: Option<Vec<AppNode>>)
        ensures
            r is Some <==> reads_as_app_node_items(v@),
            r matches Some(l) ==> is_app_node_items_of(v@, l@),
    {
        match v {
            Json::Array(items) => {
                let ghost whole = v@;
                let mut out: Vec<AppNode> = Vec::new();
                let mut i: usize = 0;
                while i < items.len()
                    invariant
                        i <= items.len(),
                        whole == v@,
                        whole == crate::json::json_view(Json::Array(*items)),
                        out@.len() == i,
                        forall|k: int| 0 <= k < i ==> is_app_node_of(whole->Array_0[k], #[trigger] out@[k]),
                    decreases items.len() - i,
                {
                    assert(whole->Array_0[i as int] == items@[i as int]@);
                    match AppNode::from_json(&items[i]) {
                        Some(a) => out.push(a),
                        None => return None,
                    }
                    i = i + 1;
                }
                assert forall|k: int| 0 <= k < whole->Array_0.len() implies reads_as_app_node(
                    #[trigger] whole->Array_0[k],
                ) by {
                    assert(is_app_node_of(whole->Array_0[k], out@[k]));
                }
                Some(out)
            },
            _ => None,
        }
    }
}
/// A `(Tenant)-[GRANTED]->(App)` edge of the grant graph. The source app
/// is empty for direct grants; the weight is kept as the JSON number the
/// server computed.
#[derive(Debug, Clone)]
pub struct GrantedEdge {
    pub tenant_id: String,
    pub app_id: String,
    pub source_app_id: String,
    pub active_scope_count: u64,
    pub last_granted_at: UtcTime,
    pub first_granted_at: UtcTime,
    pub weight: JsonNumber,
}

/// Whether `x` is what the object `v` reads as: every field required,
/// the times as RFC 3339 texts.
pub open spec fn is_granted_edge_fields_of(v: JsonValue, x: GrantedEdge) -> bool {
    &&& is_object(v)
    &&& json_str_member(v, "tenant_id"@) == Some(x.tenant_id@)
    &&& json_str_member(v, "app_id"@) == Some(x.app_id@)
    &&& json_str_member(v, "source_app_id"@) == Some(x.source_app_id@)
    &&& json_u64_member(v, "active_scope_count"@) == Some(x.active_scope_count)
    &&& field_utc_time(v, "last_granted_at"@) == Some((x.last_granted_at.secs, x.last_granted_at.nanos))
    &&& field_utc_time(v, "first_granted_at"@) == Some((x.first_granted_at.secs, x.first_granted_at.nanos))
    &&& field_number(v, "weight"@) == Some(number_view(x.weight))
}

/// Whether the object `v` reads as a granted edge.
pub open spec fn reads_as_granted_edge_fields(v: JsonValue) -> bool {
    &&& is_object(v)
    &&& json_str_member(v, "tenant_id"@) is Some
    &&& json_str_member(v, "app_id"@) is Some
    &&& json_str_member(v, "source_app_id"@) is Some
    &&& json_u64_member(v, "active_scope_count"@) is Some
    &&& field_utc_time(v, "last_granted_at"@) is Some
    &&& field_utc_time(v, "first_granted_at"@) is Some
    &&& field_number(v, "weight"@) is Some
}

/// The field names of a `GrantedEdge`, in declaration order.
pub open spec fn granted_edge_keys() -> Seq<Seq<char>> {
    seq!["tenant_id"@, "app_id"@, "source_app_id"@, "active_scope_count"@, "last_granted_at"@, "first_granted_at"@, "weight"@]
}

/// Which fields of a `GrantedEdge` may be left out.
pub open spec fn granted_edge_defaults() -> Seq<bool> {
    seq![false, false, false, false, false, false, false]
}

/// Whether `x` is what the record document `v` (an object, or an array of
/// the fields in order) reads as.
pub open spec fn is_granted_edge_of(v: JsonValue, x: GrantedEdge) -> bool {
    record_of(v, granted_edge_keys(), granted_edge_defaults()) matches Some(o) && is_granted_edge_fields_of(o, x)
}

/// Whether the record document `v` reads as a `GrantedEdge`.
pub open spec fn reads_as_granted_edge(v: JsonValue) -> bool {
    record_of(v, granted_edge_keys(), granted_edge_defaults()) matches Some(o) && reads_as_granted_edge_fields(o)
}

/// Whether `l` is what the list document `x` reads as, item by item.
pub open spec fn is_granted_edge_items_of(x: JsonValue, l: Seq<GrantedEdge>) -> bool {
    &&& x is Array
    &&& l.len() == x->Array_0.len()
    &&& forall|i: int| 0 <= i < l.len() ==> is_granted_edge_of(x->Array_0[i], #[trigger] l[i])
}

/// Whether `x` is a list whose every item reads as one.
pub open spec fn reads_as_granted_edge_items(x: JsonValue) -> bool {
    &&& x is Array
    &&& forall|i: int| 0 <= i < x->Array_0.len() ==> reads_as_granted_edge(#[trigger] x->Array_0[i])
}

impl GrantedEdge {
    /// Reads a `GrantedEdge` out of a document: an object, or an array of the
    /// fields in declaration order.
    pub fn from_json(v: &Json) -> (r: Option<GrantedEdge>)
        ensures
            r is Some <==> reads_as_granted_edge(v@),
            r matches Some(x) ==> is_granted_edge_of(v@, x),
    {
        let mut keys: Vec<&str> = Vec::new();
        let mut defaults: Vec<bool> = Vec::new();
        keys.push("tenant_id");
        defaults.push(false);
        keys.push("app_id");
        defaults.push(false);
        keys.push("source_app_id");
        defaults.push(false);
        keys.push("active_scope_count");
        defaults.push(false);
        keys.push("last_granted_at");
        defaults.push(false);
        keys.push("first_granted_at");
        defaults.push(false);
        keys.push("weight");
        defaults.push(false);
        proof {
            assert(keys_view(keys@) =~= granted_edge_keys());
            assert(defaults@ =~= granted_edge_defaults());
        }
        match read_record(v, &keys, &defaults) {
            Some(doc) => Self::from_fields(&doc),
            None => None,
        }
    }

    /// Reads the record out of the object it stands for.
    fn from_fields(v: &Json) -> (r: Option<GrantedEdge>)
        ensures
            r is Some <==> reads_as_granted_edge_fields(v@),
            r matches Some(x) ==> is_granted_edge_fields_of(v@, x),
    {
        if !v.is_object() {
            return None;
        }
        let tenant_id = match read_str(v, "tenant_id") {
            Some(y) => y,
            None => return None,
        };
        let app_id = match read_str(v, "app_id") {
            Some(y) => y,
            None => return None,
        };
        let source_app_id = match read_str(v, "source_app_id") {
            Some(y) => y,
            None => return None,
        };
        let active_scope_count = match read_u64(v, "active_scope_count") {
            Some(y) => y,
            None => return None,
        };
        let last_granted_at = match read_utc_time(v, "last_granted_at") {
            Some(y) => y,
            None => return None,
        };
        let first_granted_at = match read_utc_time(v, "first_granted_at") {
            Some(y) => y,
            None => return None,
        };
        let weight = match read_number(v, "weight") {
            Some(y) => y,
            None => return None,
        };
        Some(GrantedEdge { tenant_id, app_id, source_app_id, active_scope_count, last_granted_at, first_granted_at, weight })
    }

    /// Reads a list of granted edges: an array whose every item reads as
    /// one.
    pub fn list_from_json(v: &Json) -> (r: Option<Vec<GrantedEdge>>)
        ensures
            r is Some <==> reads_as_granted_edge_items(v@),
            r matches Some(l) ==> is_granted_edge_items_of(v@, l@),
    {
        match v {
            Json::Array(items) => {
                let ghost whole = v@;
                let mut out: Vec<GrantedEdge> = Vec::new();
                let mut i: usize = 0;
                while i < items.len()
                    invariant
                        i <= items.len(),
                        whole == v@,
                        whole == crate::json::json_view(Json::Array(*items)),
                        out@.len() == i,
                        forall|k: int| 0 <= k < i ==> is_granted_edge_of(whole->Array_0[k], #[trigger] out@[k]),
                    decreases items.len() - i,
                {
                    assert(whole->Array_0[i as int] == items@[i as int]@);
                    match GrantedEdge::from_json(&items[i]) {
                        Some(a) => out.push(a),
                        None => return None,
                    }
                    i = i + 1;
                }
                assert forall|k: int| 0 <= k < whole->Array_0.len() implies reads_as_granted_edge(
                    #[trigger] whole->Array_0[k],
                ) by {
                    assert(is_granted_edge_of(whole->Array_0[k], out@[k]));
                }
                Some(out)
            },
            _ => None,
        }
    }
}
/// Whether `x` is what the object `v` reads as: every field required.
pub open spec fn is_requires_edge_fields_of(v: JsonValue, x: RequiresEdge) -> bool {
    &&& is_object(v)
    &&& json_str_member(v, "app_id"@) == Some(x.app_id@)
    &&& json_str_member(v, "scope"@) == Some(x.scope@)
    &&& field_bool(v, "is_destructive"@) == Some(x.is_destructive)
    &&& json_u64_member(v, "granted_by_tenants"@) == Some(x.granted_by_tenants)
}

/// Whether the object `v` reads as a requires edge.
pub open spec fn reads_as_requires_edge_fields(v: JsonValue) -> bool {
    &&& is_object(v)
    &&& json_str_member(v, "app_id"@) is Some
    &&& json_str_member(v, "scope"@) is Some
    &&& field_bool(v, "is_destructive"@) is Some
    &&& json_u64_member(v, "granted_by_tenants"@) is Some
}

/// The field names of a `RequiresEdge`, in declaration order.
pub open spec fn requires_edge_keys() -> Seq<Seq<char>> {
    seq!["app_id"@, "scope"@, "is_destructive"@, "granted_by_tenants"@]
}

/// Which fields of a `RequiresEdge` may be left out.
pub open spec fn requires_edge_defaults() -> Seq<bool> {
    seq![false, false, false, false]
}

/// Whether `x` is what the record document `v` (an object, or an array of
/// the fields in order) reads as.
pub open spec fn is_requires_edge_of(v: JsonValue, x: RequiresEdge) -> bool {
    record_of(v, requires_edge_keys(), requires_edge_defaults()) matches Some(o) && is_requires_edge_fields_of(o, x)
}

/// Whether the record document `v` reads as a `RequiresEdge`.
pub open spec fn reads_as_requires_edge(v: JsonValue) -> bool {
    record_of(v, requires_edge_keys(), requires_edge_defaults()) matches Some(o) && reads_as_requires_edge_fields(o)
}

/// The object that writes each field of a `RequiresEdge` under its own name.
pub open spec fn requires_edge_object(x: RequiresEdge) -> JsonValue {
    JsonValue::Object(seq![
        ("app_id"@, JsonValue::Str(x.app_id@)),
        ("scope"@, JsonValue::Str(x.scope@)),
        ("is_destructive"@, JsonValue::Bool(x.is_destructive)),
        ("granted_by_tenants"@, crate::json::uint_value(x.granted_by_tenants)),
    ])
}

/// A `RequiresEdge` whose fields are written under their own names reads back as
/// the same `RequiresEdge`.
pub proof fn lemma_requires_edge_reads_back(x: RequiresEdge)
    ensures
        is_requires_edge_of(requires_edge_object(x), x),
{
    let v = requires_edge_object(x);
    assert(json_str_member(v, "app_id"@) == Some(x.app_id@)) by {
        lemma_requires_edge_names();
        reveal_with_fuel(crate::json::member_lookup, 5);
    }
    assert(json_str_member(v, "scope"@) == Some(x.scope@)) by {
        lemma_requires_edge_names();
        reveal_with_fuel(crate::json::member_lookup, 5);
    }
    assert(field_bool(v, "is_destructive"@) == Some(x.is_destructive)) by {
        lemma_requires_edge_names();
        reveal_with_fuel(crate::json::member_lookup, 5);
    }
    assert(json_u64_member(v, "granted_by_tenants"@) == Some(x.granted_by_tenants)) by {
        lemma_requires_edge_names();
        reveal_with_fuel(crate::json::member_lookup, 5);
    }
    assert(is_requires_edge_fields_of(v, x));
}

/// The field names of a `RequiresEdge`, told apart.
proof fn lemma_requires_edge_names()
    ensures
        "app_id"@.len() == 6,
        "granted_by_tenants"@.len() == 18,
        "is_destructive"@.len() == 14,
        "scope"@.len() == 5,
{
    reveal_strlit("app_id");
    reveal_strlit("granted_by_tenants");
    reveal_strlit("is_destructive");
    reveal_strlit("scope");
}

/// Whether `l` is what the list document `x` reads as, item by item.
pub open spec fn is_requires_edge_items_of(x: JsonValue, l: Seq<RequiresEdge>) -> bool {
    &&& x is Array
    &&& l.len() == x->Array_0.len()
    &&& forall|i: int| 0 <= i < l.len() ==> is_requires_edge_of(x->Array_0[i], #[trigger] l[i])
}

/// Whether `x` is a list whose every item reads as one.
pub open spec fn reads_as_requires_edge_items(x: JsonValue) -> bool {
    &&& x is Array
    &&& forall|i: int| 0 <= i < x->Array_0.len() ==> reads_as_requires_edge(#[trigger] x->Array_0[i])
}

impl RequiresEdge {
    /// Reads a `RequiresEdge` out of a document: an object, or an array of the
    /// fields in declaration order.
    pub fn from_json(v: &Json) -> (r: Option<RequiresEdge>)
        ensures
            r is Some <==> reads_as_requires_edge(v@),
            r matches Some(x) ==> is_requires_edge_of(v@, x),
    {
        let mut keys: Vec<&str> = Vec::new();
        let mut defaults: Vec<bool> = Vec::new();
        keys.push("app_id");
        defaults.push(false);
        keys.push("scope");
        defaults.push(false);
        keys.push("is_destructive");
        defaults.push(false);
        keys.push("granted_by_tenants");
        defaults.push(false);
        proof {
            assert(keys_view(keys@) =~= requires_edge_keys());
            assert(defaults@ =~= requires_edge_defaults());
        }
        match read_record(v, &keys, &defaults) {
            Some(doc) => Self::from_fields(&doc),
            None => None,
        }
    }

    /// Reads the record out of the object it stands for.
    fn from_fields(v: &Json) -> (r: Option<RequiresEdge>)
        ensures
            r is Some <==> reads_as_requires_edge_fields(v@),
            r matches Some(x) ==> is_requires_edge_fields_of(v@, x),
    {
        if !v.is_object() {
            return None;
        }
        let app_id = match read_str(v, "app_id") {
            Some(y) => y,
            None => return None,
        };
        let scope = match read_str(v, "scope") {
            Some(y) => y,
            None => return None,
        };
        let is_destructive = match read_bool(v, "is_destructive") {
            Some(y) => y,
            None => return None,
        };
        let granted_by_tenants = match read_u64(v, "granted_by_tenants") {
            Some(y) => y,
            None => return None,
        };
        Some(RequiresEdge { app_id, scope, is_destructive, granted_by_tenants })
    }

    /// Reads a list of requires edges: an array whose every item reads as
    /// one.
    pub fn list_from_json(v: &Json) -> (r: Option<Vec<RequiresEdge>>)
        ensures
            r is Some <==> reads_as_requires_edge_items(v@),
            r matches Some(l) ==> is_requires_edge_items_of(v@, l@),
    {
        match v {
            Json::Array(items) => {
                let ghost whole = v@;
                let mut out: Vec<RequiresEdge> = Vec::new();
                let mut i: usize = 0;
                while i < items.len()
                    invariant
                        i <= items.len(),
                        whole == v@,
                        whole == crate::json::json_view(Json::Array(*items)),
                        out@.len() == i,
                        forall|k: int| 0 <= k < i ==> is_requires_edge_of(whole->Array_0[k], #[trigger] out@[k]),
                    decreases items.len() - i,
                {
                    assert(whole->Array_0[i as int] == items@[i as int]@);
                    match RequiresEdge::from_json(&items[i]) {
                        Some(a) => out.push(a),
                        None => return None,
                    }
                    i = i + 1;
                }
                assert forall|k: int| 0 <= k < whole->Array_0.len() implies reads_as_requires_edge(
                    #[trigger] whole->Array_0[k],
                ) by {
                    assert(is_requires_edge_of(whole->Array_0[k], out@[k]));
                }
                Some(out)
            },
            _ => None,
        }
    }
}
/// A captured snapshot of the grant graph.
#[derive(Debug, Clone)]
pub struct GrantGraphSnapshot {
    pub captured_at: UtcTime,
    pub tenants: Vec<TenantNode>,
    pub apps: Vec<AppNode>,
    pub granted_edges: Vec<GrantedEdge>,
    pub requires_edges: Vec<RequiresEdge>,
    pub total_active_grants: u64,
}

/// Whether `x` is what the object `v` reads as: every field required.
pub open spec fn is_grant_graph_snapshot_fields_of(v: JsonValue, x: GrantGraphSnapshot) -> bool {
    &&& is_object(v)
    &&& field_utc_time(v, "captured_at"@) == Some((x.captured_at.secs, x.captured_at.nanos))
    &&& json_get(v, "tenants"@) matches Some(y) && is_tenant_node_items_of(y, x.tenants@)
    &&& json_get(v, "apps"@) matches Some(y) && is_app_node_items_of(y, x.apps@)
    &&& json_get(v, "granted_edges"@) matches Some(y) && is_granted_edge_items_of(y, x.granted_edges@)
    &&& json_get(v, "requires_edges"@) matches Some(y) && is_requires_edge_items_of(y, x.requires_edges@)
    &&& json_u64_member(v, "total_active_grants"@) == Some(x.total_active_grants)
}

/// Whether the object `v` reads as a snapshot of the grant graph.
pub open spec fn reads_as_grant_graph_snapshot_fields(v: JsonValue) -> bool {
    &&& is_object(v)
    &&& field_utc_time(v, "captured_at"@) is Some
    &&& json_get(v, "tenants"@) matches Some(y) && reads_as_tenant_node_items(y)
    &&& json_get(v, "apps"@) matches Some(y) && reads_as_app_node_items(y)
    &&& json_get(v, "granted_edges"@) matches Some(y) && reads_as_granted_edge_items(y)
    &&& json_get(v, "requires_edges"@) matches Some(y) && reads_as_requires_edge_items(y)
    &&& json_u64_member(v, "total_active_grants"@) is Some
}

/// The field names of a `GrantGraphSnapshot`, in declaration order.
pub open spec fn grant_graph_snapshot_keys() -> Seq<Seq<char>> {
    seq!["captured_at"@, "tenants"@, "apps"@, "granted_edges"@, "requires_edges"@, "total_active_grants"@]
}

/// Which fields of a `GrantGraphSnapshot` may be left out.
pub open spec fn grant_graph_snapshot_defaults() -> Seq<bool> {
    seq![false, false, false, false, false, false]
}

/// Whether `x` is what the record document `v` (an object, or an array of
/// the fields in order) reads as.
pub open spec fn is_grant_graph_snapshot_of(v: JsonValue, x: GrantGraphSnapshot) -> bool {
    record_of(v, grant_graph_snapshot_keys(), grant_graph_snapshot_defaults()) matches Some(o) && is_grant_graph_snapshot_fields_of(o, x)
}

/// Whether the record document `v` reads as a `GrantGraphSnapshot`.
pub open spec fn reads_as_grant_graph_snapshot(v: JsonValue) -> bool {
    record_of(v, grant_graph_snapshot_keys(), grant_graph_snapshot_defaults()) matches Some(o) && reads_as_grant_graph_snapshot_fields(o)
}

impl GrantGraphSnapshot {
    /// Reads a `GrantGraphSnapshot` out of a document: an object, or an array of the
    /// fields in declaration order.
    pub fn from_json(v: &Json) -> (r: Option<GrantGraphSnapshot>)
        ensures
            r is Some <==> reads_as_grant_graph_snapshot(v@),
            r matches Some(x) ==> is_grant_graph_snapshot_of(v@, x),
    {
        let mut keys: Vec<&str> = Vec::new();
        let mut defaults: Vec<bool> = Vec::new();
        keys.push("captured_at");
        defaults.push(false);
        keys.push("tenants");
        defaults.push(false);
        keys.push("apps");
        defaults.push(false);
        keys.push("granted_edges");
        defaults.push(false);
        keys.push("requires_edges");
        defaults.push(false);
        keys.push("total_active_grants");
        defaults.push(false);
        proof {
            assert(keys_view(keys@) =~= grant_graph_snapshot_keys());
            assert(defaults@ =~= grant_graph_snapshot_defaults());
        }
        match read_record(v, &keys, &defaults) {
            Some(doc) => Self::from_fields(&doc),
            None => None,
        }
    }

    /// Reads the record out of the object it stands for.
    fn from_fields(v: &Json) -> (r: Option<GrantGraphSnapshot>)
        ensures
            r is Some <==> reads_as_grant_graph_snapshot_fields(v@),
            r matches Some(x) ==> is_grant_graph_snapshot_fields_of(v@, x),
    {
        if !v.is_object() {
            return None;
        }
        let captured_at = match read_utc_time(v, "captured_at") {
            Some(y) => y,
            None => return None,
        };
        let tenants = match v.get("tenants") {
            Some(y) => match TenantNode::list_from_json(y) {
                Some(l) => l,
                None => return None,
            },
            None => return None,
        };
        let apps = match v.get("apps") {
            Some(y) => match AppNode::list_from_json(y) {
                Some(l) => l,
                None => return None,
            },
            None => return None,
        };
        let granted_edges = match v.get("granted_edges") {
            Some(y) => match GrantedEdge::list_from_json(y) {
                Some(l) => l,
                None => return None,
            },
            None => return None,
        };
        let requires_edges = match v.get("requires_edges") {
            Some(y) => match RequiresEdge::list_from_json(y) {
                Some(l) => l,
                None => return None,
            },
            None => return None,
        };
        let total_active_grants = match read_u64(v, "total_active_grants") {
            Some(y) => y,
            None => return None,
        };
        Some(GrantGraphSnapshot { captured_at, tenants, apps, granted_edges, requires_edges, total_active_grants })
    }
}
/// The grant graph with its HMAC-SHA256 signature and the canonical JSON
/// that was signed.
#[derive(Debug, Clone)]
pub struct GraphResponse {
    pub snapshot: GrantGraphSnapshot,
    pub signature_hex: String,
    pub canonical_json: String,
}

/// Whether `x` is what the object `v` reads as.
pub open spec fn is_graph_response_fields_of(v: JsonValue, x: GraphResponse) -> bool {
    &&& is_object(v)
    &&& json_get(v, "snapshot"@) matches Some(y) && is_grant_graph_snapshot_of(y, x.snapshot)
    &&& json_str_member(v, "signature_hex"@) == Some(x.signature_hex@)
    &&& json_str_member(v, "canonical_json"@) == Some(x.canonical_json@)
}

/// Whether the object `v` reads as a signed grant graph.
pub open spec fn reads_as_graph_response_fields(v: JsonValue) -> bool {
    &&& is_object(v)
    &&& json_get(v, "snapshot"@) matches Some(y) && reads_as_grant_graph_snapshot(y)
    &&& json_str_member(v, "signature_hex"@) is Some
    &&& json_str_member(v, "canonical_json"@) is Some
}

/// The field names of a `GraphResponse`, in declaration order.
pub open spec fn graph_response_keys() -> Seq<Seq<char>> {
    seq!["snapshot"@, "signature_hex"@, "canonical_json"@]
}

/// Which fields of a `GraphResponse` may be left out.
pub open spec fn graph_response_defaults() -> Seq<bool> {
    seq![false, false, false]
}

/// Whether `x` is what the record document `v` (an object, or an array of
/// the fields in order) reads as.
pub open spec fn is_graph_response_of(v: JsonValue, x: GraphResponse) -> bool {
    record_of(v, graph_response_keys(), graph_response_defaults()) matches Some(o) && is_graph_response_fields_of(o, x)
}

/// Whether the record document `v` reads as a `GraphResponse`.
pub open spec fn reads_as_graph_response(v: JsonValue) -> bool {
    record_of(v, graph_response_keys(), graph_response_defaults()) matches Some(o) && reads_as_graph_response_fields(o)
}

impl GraphResponse {
    /// Reads a `GraphResponse` out of a document: an object, or an array of the
    /// fields in declaration order.
    pub fn from_json(v: &Json) -> (r: Option<GraphResponse>)
        ensures
            r is Some <==> reads_as_graph_response(v@),
            r matches Some(x) ==> is_graph_response_of(v@, x),
    {
        let mut keys: Vec<&str> = Vec::new();
        let mut defaults: Vec<bool> = Vec::new();
        keys.push("snapshot");
        defaults.push(false);
        keys.push("signature_hex");
        defaults.push(false);
        keys.push("canonical_json");
        defaults.push(false);
        proof {
            assert(keys_view(keys@) =~= graph_response_keys());
            assert(defaults@ =~= graph_response_defaults());
        }
        match read_record(v, &keys, &defaults) {
            Some(doc) => Self::from_fields(&doc),
            None => None,
        }
    }

    /// Reads the record out of the object it stands for.
    fn from_fields(v: &Json) -> (r: Option<GraphResponse>)
        ensures
            r is Some <==> reads_as_graph_response_fields(v@),
            r matches Some(x) ==> is_graph_response_fields_of(v@, x),
    {
        if !v.is_object() {
            return None;
        }
        let snapshot = match v.get("snapshot") {
            Some(y) => match GrantGraphSnapshot::from_json(y) {
                Some(t) => t,
                None => return None,
            },
            None => return None,
        };
        let signature_hex = match read_str(v, "signature_hex") {
            Some(y) => y,
            None => return None,
        };
        let canonical_json = match read_str(v, "canonical_json") {
            Some(y) => y,
            None => return None,
        };
        Some(GraphResponse { snapshot, signature_hex, canonical_json })
    }
}
/// The body that [`PlatformService::exchange_authorization_code`] sends.
pub open spec fn exchange_authorization_code_body(req: ExchangeRequest) -> JsonValue {
    object_of(seq![
        text_member("code"@, req.code@),
        text_member("code_verifier"@, req.code_verifier@),
        text_member("app_id"@, req.app_id@),
    ])
}

/// What `exchange_authorization_code_body` builds reads back field by field: each value the
/// arguments give is found under its own name, an optional one only when
/// it is set, and a list as the same items in the same order.
pub proof fn lemma_exchange_authorization_code_body_reads_back(req: ExchangeRequest)
    ensures
        crate::json::json_str_member(exchange_authorization_code_body(req), "code"@) == Some(req.code@),
        crate::json::json_str_member(exchange_authorization_code_body(req), "code_verifier"@) == Some(req.code_verifier@),
        crate::json::json_str_member(exchange_authorization_code_body(req), "app_id"@) == Some(req.app_id@),
{
    assert(crate::json::json_str_member(exchange_authorization_code_body(req), "code"@) == Some(req.code@)) by {
        broadcast use crate::json::lemma_member_lookup_append, crate::json::lemma_member_lookup_opt;

        lemma_exchange_authorization_code_body_keys();
        reveal_with_fuel(crate::json::member_lookup, 4);
    }
    assert(crate::json::json_str_member(exchange_authorization_code_body(req), "code_verifier"@) == Some(req.code_verifier@)) by {
        broadcast use crate::json::lemma_member_lookup_append, crate::json::lemma_member_lookup_opt;

        lemma_exchange_authorization_code_body_keys();
        reveal_with_fuel(crate::json::member_lookup, 4);
    }
    assert(crate::json::json_str_member(exchange_authorization_code_body(req), "app_id"@) == Some(req.app_id@)) by {
        broadcast use crate::json::lemma_member_lookup_append, crate::json::lemma_member_lookup_opt;

        lemma_exchange_authorization_code_body_keys();
        reveal_with_fuel(crate::json::member_lookup, 4);
    }
}

/// The field names that `exchange_authorization_code_body` uses, told apart.
proof fn lemma_exchange_authorization_code_body_keys()
    ensures
        "app_id"@.len() == 6,
        "code"@.len() == 4,
        "code_verifier"@.len() == 13,
{
    reveal_strlit("app_id");
    reveal_strlit("code");
    reveal_strlit("code_verifier");
}

/// The body that [`PlatformService::cleanup`] sends.
pub open spec fn cleanup_body(tenant_id: &str, reason: &str, export_data: bool) -> JsonValue {
    object_of(seq![
        text_member("tenant_id"@, tenant_id@),
        text_member("reason"@, reason@),
        ("export_data"@, JsonValue::Bool(export_data)),
        ("grace_period_days"@, uint_value(30)),
    ])
}

/// What `cleanup_body` builds reads back field by field: each value the
/// arguments give is found under its own name, an optional one only when
/// it is set, and a list as the same items in the same order.
pub proof fn lemma_cleanup_body_reads_back(tenant_id: &str, reason: &str, export_data: bool)
    ensures
        crate::json::json_str_member(cleanup_body(tenant_id, reason, export_data), "tenant_id"@) == Some(tenant_id@),
        crate::json::json_str_member(cleanup_body(tenant_id, reason, export_data), "reason"@) == Some(reason@),
        crate::json::json_get(cleanup_body(tenant_id, reason, export_data), "export_data"@) == Some(JsonValue::Bool(export_data)),
        crate::json::json_get(cleanup_body(tenant_id, reason, export_data), "grace_period_days"@) == Some(uint_value(30)),
{
    assert(crate::json::json_str_member(cleanup_body(tenant_id, reason, export_data), "tenant_id"@) == Some(tenant_id@)) by {
        broadcast use crate::json::lemma_member_lookup_append, crate::json::lemma_member_lookup_opt;

        lemma_cleanup_body_keys();
        reveal_with_fuel(crate::json::member_lookup, 5);
    }
    assert(crate::json::json_str_member(cleanup_body(tenant_id, reason, export_data), "reason"@) == Some(reason@)) by {
        broadcast use crate::json::lemma_member_lookup_append, crate::json::lemma_member_lookup_opt;

        lemma_cleanup_body_keys();
        reveal_with_fuel(crate::json::member_lookup, 5);
    }
    assert(crate::json::json_get(cleanup_body(tenant_id, reason, export_data), "export_data"@) == Some(JsonValue::Bool(export_data))) by {
        broadcast use crate::json::lemma_member_lookup_append, crate::json::lemma_member_lookup_opt;

        lemma_cleanup_body_keys();
        reveal_with_fuel(crate::json::member_lookup, 5);
    }
    assert(crate::json::json_get(cleanup_body(tenant_id, reason, export_data), "grace_period_days"@) == Some(uint_value(30))) by {
        broadcast use crate::json::lemma_member_lookup_append, crate::json::lemma_member_lookup_opt;

        lemma_cleanup_body_keys();
        reveal_with_fuel(crate::json::member_lookup, 5);
    }
}

/// The field names that `cleanup_body` uses, told apart.
proof fn lemma_cleanup_body_keys()
    ensures
        "export_data"@.len() == 11,
        "grace_period_days"@.len() == 17,
        "reason"@.len() == 6,
        "tenant_id"@.len() == 9,
{
    reveal_strlit("export_data");
    reveal_strlit("grace_period_days");
    reveal_strlit("reason");
    reveal_strlit("tenant_id");
}

/// The body that [`PlatformService::signup`] sends.
pub open spec fn signup_body(company_name: &str, admin_email: &str, admin_name: &str, industry: &str) -> JsonValue {
    object_of(seq![
        text_member("company_name"@, company_name@),
        text_member("admin_email"@, admin_email@),
        text_member("admin_name"@, admin_name@),
        text_member("industry"@, industry@),
        ("trial_days"@, uint_value(14)),
    ])
}

/// What `signup_body` builds reads back field by field: each value the
/// arguments give is found under its own name, an optional one only when
/// it is set, and a list as the same items in the same order.
pub proof fn lemma_signup_body_reads_back(company_name: &str, admin_email: &str, admin_name: &str, industry: &str)
    ensures
        crate::json::json_str_member(signup_body(company_name, admin_email, admin_name, industry), "company_name"@) == Some(company_name@),
        crate::json::json_str_member(signup_body(company_name, admin_email, admin_name, industry), "admin_email"@) == Some(admin_email@),
        crate::json::json_str_member(signup_body(company_name, admin_email, admin_name, industry), "admin_name"@) == Some(admin_name@),
        crate::json::json_str_member(signup_body(company_name, admin_email, admin_name, industry), "industry"@) == Some(industry@),
        crate::json::json_get(signup_body(company_name, admin_email, admin_name, industry), "trial_days"@) == Some(uint_value(14)),
{
    assert(crate::json::json_str_member(signup_body(company_name, admin_email, admin_name, industry), "company_name"@) == Some(company_name@)) by {
        broadcast use crate::json::lemma_member_lookup_append, crate::json::lemma_member_lookup_opt;

        lemma_signup_body_keys();
        reveal_with_fuel(crate::json::member_lookup, 6);
    }
    assert(crate::json::json_str_member(signup_body(company_name, admin_email, admin_name, industry), "admin_email"@) == Some(admin_email@)) by {
        broadcast use crate::json::lemma_member_lookup_append, crate::json::lemma_member_lookup_opt;

        lemma_signup_body_keys();
        reveal_with_fuel(crate::json::member_lookup, 6);
    }
    assert(crate::json::json_str_member(signup_body(company_name, admin_email, admin_name, industry), "admin_name"@) == Some(admin_name@)) by {
        broadcast use crate::json::lemma_member_lookup_append, crate::json::lemma_member_lookup_opt;

        lemma_signup_body_keys();
        reveal_with_fuel(crate::json::member_lookup, 6);
    }
    assert(crate::json::json_str_member(signup_body(company_name, admin_email, admin_name, industry), "industry"@) == Some(industry@)) by {
        broadcast use crate::json::lemma_member_lookup_append, crate::json::lemma_member_lookup_opt;

        lemma_signup_body_keys();
        reveal_with_fuel(crate::json::member_lookup, 6);
    }
    assert(crate::json::json_get(signup_body(company_name, admin_email, admin_name, industry), "trial_days"@) == Some(uint_value(14))) by {
        broadcast use crate::json::lemma_member_lookup_append, crate::json::lemma_member_lookup_opt;

        lemma_signup_body_keys();
        reveal_with_fuel(crate::json::member_lookup, 6);
    }
}

/// The field names that `signup_body` uses, told apart.
proof fn lemma_signup_body_keys()
    ensures
        "admin_email"@.len() == 11,
        "admin_name"@.len() == 10,
        "admin_name"@[0] == 'a',
        "company_name"@.len() == 12,
        "industry"@.len() == 8,
        "trial_days"@.len() == 10,
        "trial_days"@[0] == 't',
{
    reveal_strlit("admin_email");
    reveal_strlit("admin_name");
    reveal_strlit("company_name");
    reveal_strlit("industry");
    reveal_strlit("trial_days");
}

impl PlatformService {
    /// Run the tenant signup workflow, with a 14-day trial.
    pub fn signup(&self, company_name: &str, admin_email: &str, admin_name: &str, industry: &str) -> (r: ApiRequest)
        ensures
            r@ == json_request(
                HttpMethod::Post,
                "/platform/signup"@,
                signup_body(company_name, admin_email, admin_name, industry),
            ),
    {
        let mut body = Members::new();
        body.put_str("company_name", company_name);
        body.put_str("admin_email", admin_email);
        body.put_str("admin_name", admin_name);
        body.put_str("industry", industry);
        body.put_uint("trial_days", 14);
        assert(body@ =~= seq![
            text_member("company_name"@, company_name@),
            text_member("admin_email"@, admin_email@),
            text_member("admin_name"@, admin_name@),
            text_member("industry"@, industry@),
            ("trial_days"@, uint_value(14)),
        ]);
        ApiRequest::post("/platform/signup".to_owned(), body.into_json())
    }

    /// Run the tenant offboarding workflow, with a 30-day grace period.
    pub fn cleanup(&self, tenant_id: &str, reason: &str, export_data: bool) -> (r: ApiRequest)
        ensures
            r@ == json_request(
                HttpMethod::Post,
                "/platform/cleanup"@,
                cleanup_body(tenant_id, reason, export_data),
            ),
    {
        let mut body = Members::new();
        body.put_str("tenant_id", tenant_id);
        body.put_str("reason", reason);
        body.put_bool("export_data", export_data);
        body.put_uint("grace_period_days", 30);
        assert(body@ =~= seq![
            text_member("tenant_id"@, tenant_id@),
            text_member("reason"@, reason@),
            ("export_data"@, JsonValue::Bool(export_data)),
            ("grace_period_days"@, uint_value(30)),
        ]);
        ApiRequest::post("/platform/cleanup".to_owned(), body.into_json())
    }

    /// Run the app onboarding ceremony.
    pub fn onboard_app(&self, req: OnboardRequest) -> (r: ApiRequest)
        ensures
            r@ == json_request(HttpMethod::Post, "/platform/apps/onboard"@, onboard_body(req)),
    {
        let ghost spec_req = req;
        let mut body = Members::new();
        body.put("manifest", req.manifest);
        if req.cors_origins.len() > 0 {
            body.put("cors_origins", Json::string_list(&req.cors_origins));
        }
        body.put_opt_string("api_key_label", req.api_key_label);
        assert(body@ =~= onboard_body(spec_req)->Object_0);
        ApiRequest::post("/platform/apps/onboard".to_owned(), body.into_json())
    }

    /// Submit a consent decision as a url-encoded form; the redirect is
    /// captured, not followed.
    pub fn submit_consent(&self, form: ConsentForm) -> (r: ApiRequest)
        ensures
            r@ == form_request("/platform/authorize/consent"@, consent_fields(form)),
    {
        let ghost f = form;
        let mut q = Query::new();
        q.push("app_id", form.app_id);
        q.push("scopes", form.scopes);
        q.push("return_to", form.return_to);
        q.push("state", form.state);
        q.push("request_id", form.request_id);
        q.push_opt_string("code_challenge", &form.code_challenge);
        q.push_opt_string("code_challenge_method", &form.code_challenge_method);
        q.push("action", form.action);
        q.push_opt_string("destructive_ack", &form.destructive_ack);
        assert(q@ =~= consent_fields(f));
        ApiRequest::post_form("/platform/authorize/consent".to_owned(), q)
    }

    /// Submit the PKCE grant form; the redirect is captured, not followed.
    pub fn submit_grant(&self, form: GrantForm) -> (r: ApiRequest)
        ensures
            r@ == form_request("/platform/authorize/grant"@, grant_fields(form)),
    {
        let ghost f = form;
        let mut q = Query::new();
        q.push("app_id", form.app_id);
        q.push("scopes", form.scopes);
        q.push("return_to", form.return_to);
        q.push("state", form.state);
        q.push("request_id", form.request_id);
        q.push("code_challenge", form.code_challenge);
        q.push("code_challenge_method", form.code_challenge_method);
        q.push("action", form.action);
        q.push_opt_string("destructive_ack", &form.destructive_ack);
        assert(q@ =~= grant_fields(f));
        ApiRequest::post_form("/platform/authorize/grant".to_owned(), q)
    }

    /// Exchange a PKCE auth code for a mint ticket.
    pub fn exchange_authorization_code(&self, req: ExchangeRequest) -> (r: ApiRequest)
        ensures
            r@ == json_request(
                HttpMethod::Post,
                "/platform/authorize/exchange"@,
                exchange_authorization_code_body(req),
            ),
    {
        let ghost spec_req = req;
        let mut body = Members::new();
        body.put("code", Json::Str(req.code));
        body.put("code_verifier", Json::Str(req.code_verifier));
        body.put("app_id", Json::Str(req.app_id));
        assert(body@ =~= seq![
            text_member("code"@, spec_req.code@),
            text_member("code_verifier"@, spec_req.code_verifier@),
            text_member("app_id"@, spec_req.app_id@),
        ]);
        ApiRequest::post("/platform/authorize/exchange".to_owned(), body.into_json())
    }

    /// Fetch the read-only grant graph projection, with the given filters.
    pub fn get_grants_graph(&self, query: &GrantsGraphQuery) -> (r: ApiRequest)
        ensures
            r@ == get_request("/platform/admin/grants/graph"@, graph_query(*query)),
    {
        let mut q = Query::new();
        q.push_opt_string("tenant_id", &query.tenant_id);
        q.push_opt_string("app_id", &query.app_id);
        let limit: Option<u64> = match query.limit {
            Some(l) => Some(l as u64),
            None => None,
        };
        q.push_opt_u64("limit", limit);
        assert(q@ =~= graph_query(*query));
        ApiRequest::get("/platform/admin/grants/graph".to_owned(), q)
    }
}

} // verus!
