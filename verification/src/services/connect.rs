//! Lead capture for the marketing site.

use vstd::prelude::*;
use crate::decode::{keys_view, read_record, record_of};
use crate::error::{ErrorView, OlympusError};
use crate::http::{json_request, plan_view, ApiRequest, HttpMethod, RequestView};
use crate::decode::{field_str_aliased, read_str, read_str_aliased};
use crate::json::{is_object, json_str_member, object_of, opt_member, opt_string_member, text_member, Json, JsonValue, Members};

verus! {

/// Plans the calls of lead capture.
pub struct ConnectService;

/// Campaign attribution of a lead; only the set fields are sent.
#[derive(Debug, Clone, Default)]
pub struct UTM {
    pub source: Option<String>,
    pub medium: Option<String>,
    pub campaign: Option<String>,
    pub term: Option<String>,
    pub content: Option<String>,
}

/// A lead to create; `email` is required, every other field is sent only
/// when set.
#[derive(Debug, Default)]
pub struct CreateLeadRequest {
    pub email: String,
    pub name: Option<String>,
    pub phone: Option<String>,
    pub company: Option<String>,
    pub source: Option<String>,
    pub utm: Option<UTM>,
    pub metadata: Option<Members>,
}

/// The server's answer to a lead: its id, `created` or `deduped`, and
/// when.
#[derive(Debug, Clone)]
pub struct CreateLeadResponse {
    pub lead_id: String,
    pub status: String,
    pub created_at: String,
}

/// Whether `r` is what the object `v` reads as: the id and time under
/// their snake_case or camelCase names (not both), and the status.
pub open spec fn is_create_lead_response_fields_of(v: JsonValue, r: CreateLeadResponse) -> bool {
    &&& is_object(v)
    &&& field_str_aliased(v, "lead_id"@, "leadId"@) == Some(r.lead_id@)
    &&& json_str_member(v, "status"@) == Some(r.status@)
    &&& field_str_aliased(v, "created_at"@, "createdAt"@) == Some(r.created_at@)
}

/// Whether the object `v` reads as the answer to a lead.
pub open spec fn reads_as_create_lead_response_fields(v: JsonValue) -> bool {
    &&& is_object(v)
    &&& field_str_aliased(v, "lead_id"@, "leadId"@) is Some
    &&& json_str_member(v, "status"@) is Some
    &&& field_str_aliased(v, "created_at"@, "createdAt"@) is Some
}

/// The field names of a `CreateLeadResponse`, in declaration order.
pub open spec fn create_lead_response_keys() -> Seq<Seq<char>> {
    seq!["lead_id"@, "status"@, "created_at"@]
}

/// Which fields of a `CreateLeadResponse` may be left out.
pub open spec fn create_lead_response_defaults() -> Seq<bool> {
    seq![false, false, false]
}

/// Whether `x` is what the record document `v` (an object, or an array of
/// the fields in order) reads as.
pub open spec fn is_create_lead_response_of(v: JsonValue, x: CreateLeadResponse) -> bool {
    record_of(v, create_lead_response_keys(), create_lead_response_defaults()) matches Some(o) && is_create_lead_response_fields_of(o, x)
}

/// Whether the record document `v` reads as a `CreateLeadResponse`.
pub open spec fn reads_as_create_lead_response(v: JsonValue) -> bool {
    record_of(v, create_lead_response_keys(), create_lead_response_defaults()) matches Some(o) && reads_as_create_lead_response_fields(o)
}

/// The object that writes each field of a `CreateLeadResponse` under its own name.
pub open spec fn create_lead_response_object(r: CreateLeadResponse) -> JsonValue {
    JsonValue::Object(seq![
        ("lead_id"@, JsonValue::Str(r.lead_id@)),
        ("status"@, JsonValue::Str(r.status@)),
        ("created_at"@, JsonValue::Str(r.created_at@)),
    ])
}

/// A `CreateLeadResponse` whose fields are written under their own names reads back as
/// the same `CreateLeadResponse`.
pub proof fn lemma_create_lead_response_reads_back(r: CreateLeadResponse)
    ensures
        is_create_lead_response_of(create_lead_response_object(r), r),
{
    let v = create_lead_response_object(r);
    assert(field_str_aliased(v, "lead_id"@, "leadId"@) == Some(r.lead_id@)) by {
        lemma_create_lead_response_names();
        reveal_with_fuel(crate::json::member_lookup, 4);
    }
    assert(json_str_member(v, "status"@) == Some(r.status@)) by {
        lemma_create_lead_response_names();
        reveal_with_fuel(crate::json::member_lookup, 4);
    }
    assert(field_str_aliased(v, "created_at"@, "createdAt"@) == Some(r.created_at@)) by {
        lemma_create_lead_response_names();
        reveal_with_fuel(crate::json::member_lookup, 4);
    }
    assert(is_create_lead_response_fields_of(v, r));
}

/// The field names of a `CreateLeadResponse`, told apart.
proof fn lemma_create_lead_response_names()
    ensures
        "createdAt"@.len() == 9,
        "created_at"@.len() == 10,
        "leadId"@.len() == 6,
        "leadId"@[0] == 'l',
        "lead_id"@.len() == 7,
        "status"@.len() == 6,
        "status"@[0] == 's',
{
    reveal_strlit("createdAt");
    reveal_strlit("created_at");
    reveal_strlit("leadId");
    reveal_strlit("lead_id");
    reveal_strlit("status");
}

impl CreateLeadResponse {
    /// Reads a `CreateLeadResponse` out of a document: an object, or an array of the
    /// fields in declaration order.
    pub fn from_json(v: &Json) -> (r: Option<CreateLeadResponse>)
        ensures
            r is Some <==> reads_as_create_lead_response(v@),
            r matches Some(x) ==> is_create_lead_response_of(v@, x),
    {
        let mut keys: Vec<&str> = Vec::new();
        let mut defaults: Vec<bool> = Vec::new();
        keys.push("lead_id");
        defaults.push(false);
        keys.push("status");
        defaults.push(false);
        keys.push("created_at");
        defaults.push(false);
        proof {
            assert(keys_view(keys@) =~= create_lead_response_keys());
            assert(defaults@ =~= create_lead_response_defaults());
        }
        match read_record(v, &keys, &defaults) {
            Some(doc) => Self::from_fields(&doc),
            None => None,
        }
    }

    /// Reads the record out of the object it stands for.
    fn from_fields(v: &Json) -> (r: Option<CreateLeadResponse>)
        ensures
            r is Some <==> reads_as_create_lead_response_fields(v@),
            r matches Some(x) ==> is_create_lead_response_fields_of(v@, x),
    {
        if !v.is_object() {
            return None;
        }
        let lead_id = match read_str_aliased(v, "lead_id", "leadId") {
            Some(s) => s,
            None => return None,
        };
        let status = match read_str(v, "status") {
            Some(s) => s,
            None => return None,
        };
        let created_at = match read_str_aliased(v, "created_at", "createdAt") {
            Some(s) => s,
            None => return None,
        };
        Some(CreateLeadResponse { lead_id, status, created_at })
    }
}

pub open spec fn utm_value(u: UTM) -> JsonValue {
    object_of(
        opt_string_member("source"@, u.source)
            + opt_string_member("medium"@, u.medium)
            + opt_string_member("campaign"@, u.campaign)
            + opt_string_member("term"@, u.term)
            + opt_string_member("content"@, u.content),
    )
}

/// What `utm_value` builds reads back field by field: each value the
/// arguments give is found under its own name, an optional one only when
/// it is set, and a list as the same items in the same order.
pub proof fn lemma_utm_value_reads_back(u: UTM)
    ensures
        crate::decode::field_opt_str(utm_value(u), "source"@) == Some(crate::json::opt_string(u.source)),
        crate::decode::field_opt_str(utm_value(u), "medium"@) == Some(crate::json::opt_string(u.medium)),
        crate::decode::field_opt_str(utm_value(u), "campaign"@) == Some(crate::json::opt_string(u.campaign)),
        crate::decode::field_opt_str(utm_value(u), "term"@) == Some(crate::json::opt_string(u.term)),
        crate::decode::field_opt_str(utm_value(u), "content"@) == Some(crate::json::opt_string(u.content)),
{
    assert(crate::decode::field_opt_str(utm_value(u), "source"@) == Some(crate::json::opt_string(u.source))) by {
        broadcast use crate::json::lemma_member_lookup_append, crate::json::lemma_member_lookup_opt;

        lemma_utm_value_keys();
        reveal_with_fuel(crate::json::member_lookup, 2);
    }
    assert(crate::decode::field_opt_str(utm_value(u), "medium"@) == Some(crate::json::opt_string(u.medium))) by {
        broadcast use crate::json::lemma_member_lookup_append, crate::json::lemma_member_lookup_opt;

        lemma_utm_value_keys();
        reveal_with_fuel(crate::json::member_lookup, 2);
    }
    assert(crate::decode::field_opt_str(utm_value(u), "campaign"@) == Some(crate::json::opt_string(u.campaign))) by {
        broadcast use crate::json::lemma_member_lookup_append, crate::json::lemma_member_lookup_opt;

        lemma_utm_value_keys();
        reveal_with_fuel(crate::json::member_lookup, 2);
    }
    assert(crate::decode::field_opt_str(utm_value(u), "term"@) == Some(crate::json::opt_string(u.term))) by {
        broadcast use crate::json::lemma_member_lookup_append, crate::json::lemma_member_lookup_opt;

        lemma_utm_value_keys();
        reveal_with_fuel(crate::json::member_lookup, 2);
    }
    assert(crate::decode::field_opt_str(utm_value(u), "content"@) == Some(crate::json::opt_string(u.content))) by {
        broadcast use crate::json::lemma_member_lookup_append, crate::json::lemma_member_lookup_opt;

        lemma_utm_value_keys();
        reveal_with_fuel(crate::json::member_lookup, 2);
    }
}

/// The field names that `utm_value` uses, told apart.
proof fn lemma_utm_value_keys()
    ensures
        "campaign"@.len() == 8,
        "content"@.len() == 7,
        "medium"@.len() == 6,
        "medium"@[0] == 'm',
        "source"@.len() == 6,
        "source"@[0] == 's',
        "term"@.len() == 4,
{
    reveal_strlit("campaign");
    reveal_strlit("content");
    reveal_strlit("medium");
    reveal_strlit("source");
    reveal_strlit("term");
}

/// The body of a lead: `email`, then each set field.
pub open spec fn lead_body(req: CreateLeadRequest) -> JsonValue {
    object_of(
        seq![text_member("email"@, req.email@)]
            + opt_string_member("name"@, req.name)
            + opt_string_member("phone"@, req.phone)
            + opt_string_member("company"@, req.company)
            + opt_string_member("source"@, req.source)
            + opt_member(
                "utm"@,
                match req.utm {
                    Some(u) => Some(utm_value(u)),
                    None => None,
                },
            )
            + opt_member(
                "metadata"@,
                match req.metadata {
                    Some(m) => Some(JsonValue::Object(m@)),
                    None => None,
                },
            ),
    )
}

/// What `lead_body` builds reads back field by field: each value the
/// arguments give is found under its own name, an optional one only when
/// it is set, and a list as the same items in the same order.
pub proof fn lemma_lead_body_reads_back(req: CreateLeadRequest)
    ensures
        crate::json::json_str_member(lead_body(req), "email"@) == Some(req.email@),
        crate::decode::field_opt_str(lead_body(req), "name"@) == Some(crate::json::opt_string(req.name)),
        crate::decode::field_opt_str(lead_body(req), "phone"@) == Some(crate::json::opt_string(req.phone)),
        crate::decode::field_opt_str(lead_body(req), "company"@) == Some(crate::json::opt_string(req.company)),
        crate::decode::field_opt_str(lead_body(req), "source"@) == Some(crate::json::opt_string(req.source)),
{
    assert(crate::json::json_str_member(lead_body(req), "email"@) == Some(req.email@)) by {
        broadcast use crate::json::lemma_member_lookup_append, crate::json::lemma_member_lookup_opt;

        lemma_lead_body_keys();
        reveal_with_fuel(crate::json::member_lookup, 2);
    }
    assert(crate::decode::field_opt_str(lead_body(req), "name"@) == Some(crate::json::opt_string(req.name))) by {
        broadcast use crate::json::lemma_member_lookup_append, crate::json::lemma_member_lookup_opt;

        lemma_lead_body_keys();
        reveal_with_fuel(crate::json::member_lookup, 2);
    }
    assert(crate::decode::field_opt_str(lead_body(req), "phone"@) == Some(crate::json::opt_string(req.phone))) by {
        broadcast use crate::json::lemma_member_lookup_append, crate::json::lemma_member_lookup_opt;

        lemma_lead_body_keys();
        reveal_with_fuel(crate::json::member_lookup, 2);
    }
    assert(crate::decode::field_opt_str(lead_body(req), "company"@) == Some(crate::json::opt_string(req.company))) by {
        broadcast use crate::json::lemma_member_lookup_append, crate::json::lemma_member_lookup_opt;

        lemma_lead_body_keys();
        reveal_with_fuel(crate::json::member_lookup, 2);
    }
    assert(crate::decode::field_opt_str(lead_body(req), "source"@) == Some(crate::json::opt_string(req.source))) by {
        broadcast use crate::json::lemma_member_lookup_append, crate::json::lemma_member_lookup_opt;

        lemma_lead_body_keys();
        reveal_with_fuel(crate::json::member_lookup, 2);
    }
}

/// The field names that `lead_body` uses, told apart.
proof fn lemma_lead_body_keys()
    ensures
        "company"@.len() == 7,
        "email"@.len() == 5,
        "email"@[0] == 'e',
        "metadata"@.len() == 8,
        "name"@.len() == 4,
        "phone"@.len() == 5,
        "phone"@[0] == 'p',
        "source"@.len() == 6,
        "utm"@.len() == 3,
{
    reveal_strlit("company");
    reveal_strlit("email");
    reveal_strlit("metadata");
    reveal_strlit("name");
    reveal_strlit("phone");
    reveal_strlit("source");
    reveal_strlit("utm");
}

fn utm_json(u: &UTM) -> (r: Json)
    ensures
        r@ == utm_value(*u),
{
    let mut m = Members::new();
    m.put_opt_string("source", u.source.clone());
    m.put_opt_string("medium", u.medium.clone());
    m.put_opt_string("campaign", u.campaign.clone());
    m.put_opt_string("term", u.term.clone());
    m.put_opt_string("content", u.content.clone());
    assert(m@ =~= utm_value(*u)->Object_0);
    m.into_json()
}

/// A lead without an email is refused.
pub open spec fn lead_plan(req: CreateLeadRequest) -> Result<RequestView, ErrorView> {
    if req.email@.len() == 0 {
        Err(ErrorView::Config("email is required"@))
    } else {
        Ok(json_request(HttpMethod::Post, "/leads"@, lead_body(req)))
    }
}

impl ConnectService {
    /// Create (or dedupe) a lead; a lead without an email is refused
    /// before any call.
    pub fn create_lead(&self, request: CreateLeadRequest) -> (r: Result<ApiRequest, OlympusError>)
        ensures
            plan_view(r) == lead_plan(request),
    {
        if request.email.as_str().is_empty() {
            return Err(OlympusError::Config("email is required".to_owned()));
        }
        let ghost req = request;
        let mut body = Members::new();
        body.put("email", Json::Str(request.email));
        body.put_opt_string("name", request.name);
        body.put_opt_string("phone", request.phone);
        body.put_opt_string("company", request.company);
        body.put_opt_string("source", request.source);
        match &request.utm {
            Some(u) => {
                body.put("utm", utm_json(u));
            },
            None => {},
        }
        match request.metadata {
            Some(m) => {
                body.put("metadata", m.into_json());
            },
            None => {},
        }
        assert(body@ =~= lead_body(req)->Object_0);
        Ok(ApiRequest::post("/leads".to_owned(), body.into_json()))
    }
}

} // verus!
