//! Policy exception framework: filing an exception request, listing
//! requests and reading one back. Approval is not part of this surface.

use vstd::prelude::*;
use crate::decode::{keys_view, read_record, record_of};
use vstd::string::StrSliceExecFns;
use crate::error::{ErrorView, OlympusError};
use crate::http::{get_request, json_request, opt_pair, path_end, plan_view, ApiRequest, HttpMethod, Query, RequestView};
use crate::decode::{field_doc, field_number, field_opt_str, read_doc, read_number, read_opt_str, read_str};
use crate::json::{is_object, json_str_member, number_view, opt_string, JsonNumber, array_rows, jsons_view, object_of, opt_str, opt_text_member, text_member, Json, JsonValue, Members};
use crate::text::{concat3, decimal, decimal_string};
use crate::url::url_encoded;

verus! {

/// Plans the calls of the policy exception framework.
pub struct GovernanceService;

/// The shortest justification the server accepts, in bytes.
pub const MIN_JUSTIFICATION_CHARS: usize = 100;

/// The refusal of a justification of `len` characters.
pub open spec fn short_justification_message(len: nat) -> Seq<char> {
    "justification must be >= 100 chars (got "@ + decimal(len) + "); server validator rejects shorter"@
}

pub open spec fn exception_body(policy_key: Seq<char>, requested_value: JsonValue, justification: Seq<char>, tenant_id: Option<&str>) -> JsonValue {
    object_of(
        seq![
            text_member("policy_key"@, policy_key),
            ("requested_value"@, requested_value),
            text_member("justification"@, justification),
        ] + opt_text_member("tenant_id"@, tenant_id),
    )
}

/// What `exception_body` builds reads back field by field: each value the
/// arguments give is found under its own name, an optional one only when
/// it is set, and a list as the same items in the same order.
pub proof fn lemma_exception_body_reads_back(policy_key: Seq<char>, requested_value: JsonValue, justification: Seq<char>, tenant_id: Option<&str>)
    ensures
        crate::json::json_str_member(exception_body(policy_key, requested_value, justification, tenant_id), "policy_key"@) == Some(policy_key),
        crate::json::json_str_member(exception_body(policy_key, requested_value, justification, tenant_id), "justification"@) == Some(justification),
        crate::decode::field_opt_str(exception_body(policy_key, requested_value, justification, tenant_id), "tenant_id"@) == Some(crate::json::opt_str(tenant_id)),
        crate::json::json_get(exception_body(policy_key, requested_value, justification, tenant_id), "requested_value"@) == Some(requested_value),
{
    assert(crate::json::json_str_member(exception_body(policy_key, requested_value, justification, tenant_id), "policy_key"@) == Some(policy_key)) by {
        broadcast use crate::json::lemma_member_lookup_append, crate::json::lemma_member_lookup_opt;

        lemma_exception_body_keys();
        reveal_with_fuel(crate::json::member_lookup, 4);
    }
    assert(crate::json::json_str_member(exception_body(policy_key, requested_value, justification, tenant_id), "justification"@) == Some(justification)) by {
        broadcast use crate::json::lemma_member_lookup_append, crate::json::lemma_member_lookup_opt;

        lemma_exception_body_keys();
        reveal_with_fuel(crate::json::member_lookup, 4);
    }
    assert(crate::decode::field_opt_str(exception_body(policy_key, requested_value, justification, tenant_id), "tenant_id"@) == Some(crate::json::opt_str(tenant_id))) by {
        broadcast use crate::json::lemma_member_lookup_append, crate::json::lemma_member_lookup_opt;

        lemma_exception_body_keys();
        reveal_with_fuel(crate::json::member_lookup, 4);
    }
    assert(crate::json::json_get(exception_body(policy_key, requested_value, justification, tenant_id), "requested_value"@) == Some(requested_value)) by {
        broadcast use crate::json::lemma_member_lookup_append, crate::json::lemma_member_lookup_opt;

        lemma_exception_body_keys();
        reveal_with_fuel(crate::json::member_lookup, 4);
    }
}

/// The field names that `exception_body` uses, told apart.
proof fn lemma_exception_body_keys()
    ensures
        "justification"@.len() == 13,
        "policy_key"@.len() == 10,
        "requested_value"@.len() == 15,
        "tenant_id"@.len() == 9,
{
    reveal_strlit("justification");
    reveal_strlit("policy_key");
    reveal_strlit("requested_value");
    reveal_strlit("tenant_id");
}

// ---------------------------------------------------------------------------
// Reading responses
// ---------------------------------------------------------------------------

/// A policy exception record. The requested value is the document the
/// requester sent; the risk score is kept as the JSON number the server
/// computed.
#[derive(Debug)]
pub struct ExceptionRequest {
    pub exception_id: String,
    pub app_id: String,
    pub tenant_id: Option<String>,
    pub policy_key: String,
    pub requested_value: Json,
    pub justification: String,
    pub risk_tier: String,
    pub risk_score: JsonNumber,
    pub risk_rationale: String,
    pub status: String,
    pub expires_at: String,
    pub created_at: String,
    pub updated_at: String,
    pub reviewer_id: Option<String>,
    pub reviewed_at: Option<String>,
    pub reviewer_notes: Option<String>,
    pub revoked_at: Option<String>,
    pub revoke_reason: Option<String>,
}

/// Whether `x` is what the object `v` reads as: the request, its risk
/// assessment and times required; the tenant and review trail optional.
pub open spec fn is_exception_request_fields_of(v: JsonValue, x: ExceptionRequest) -> bool {
    &&& is_object(v)
    &&& json_str_member(v, "exception_id"@) == Some(x.exception_id@)
    &&& json_str_member(v, "app_id"@) == Some(x.app_id@)
    &&& field_opt_str(v, "tenant_id"@) == Some(opt_string(x.tenant_id))
    &&& json_str_member(v, "policy_key"@) == Some(x.policy_key@)
    &&& field_doc(v, "requested_value"@) == Some(x.requested_value@)
    &&& json_str_member(v, "justification"@) == Some(x.justification@)
    &&& json_str_member(v, "risk_tier"@) == Some(x.risk_tier@)
    &&& field_number(v, "risk_score"@) == Some(number_view(x.risk_score))
    &&& json_str_member(v, "risk_rationale"@) == Some(x.risk_rationale@)
    &&& json_str_member(v, "status"@) == Some(x.status@)
    &&& json_str_member(v, "expires_at"@) == Some(x.expires_at@)
    &&& json_str_member(v, "created_at"@) == Some(x.created_at@)
    &&& json_str_member(v, "updated_at"@) == Some(x.updated_at@)
    &&& field_opt_str(v, "reviewer_id"@) == Some(opt_string(x.reviewer_id))
    &&& field_opt_str(v, "reviewed_at"@) == Some(opt_string(x.reviewed_at))
    &&& field_opt_str(v, "reviewer_notes"@) == Some(opt_string(x.reviewer_notes))
    &&& field_opt_str(v, "revoked_at"@) == Some(opt_string(x.revoked_at))
    &&& field_opt_str(v, "revoke_reason"@) == Some(opt_string(x.revoke_reason))
}

/// Whether the object `v` reads as an exception record.
pub open spec fn reads_as_exception_request_fields(v: JsonValue) -> bool {
    &&& is_object(v)
    &&& json_str_member(v, "exception_id"@) is Some
    &&& json_str_member(v, "app_id"@) is Some
    &&& field_opt_str(v, "tenant_id"@) is Some
    &&& json_str_member(v, "policy_key"@) is Some
    &&& field_doc(v, "requested_value"@) is Some
    &&& json_str_member(v, "justification"@) is Some
    &&& json_str_member(v, "risk_tier"@) is Some
    &&& field_number(v, "risk_score"@) is Some
    &&& json_str_member(v, "risk_rationale"@) is Some
    &&& json_str_member(v, "status"@) is Some
    &&& json_str_member(v, "expires_at"@) is Some
    &&& json_str_member(v, "created_at"@) is Some
    &&& json_str_member(v, "updated_at"@) is Some
    &&& field_opt_str(v, "reviewer_id"@) is Some
    &&& field_opt_str(v, "reviewed_at"@) is Some
    &&& field_opt_str(v, "reviewer_notes"@) is Some
    &&& field_opt_str(v, "revoked_at"@) is Some
    &&& field_opt_str(v, "revoke_reason"@) is Some
}

/// The field names of an `ExceptionRequest`, in declaration order.
pub open spec fn exception_request_keys() -> Seq<Seq<char>> {
    seq!["exception_id"@, "app_id"@, "tenant_id"@, "policy_key"@, "requested_value"@, "justification"@, "risk_tier"@, "risk_score"@, "risk_rationale"@, "status"@, "expires_at"@, "created_at"@, "updated_at"@, "reviewer_id"@, "reviewed_at"@, "reviewer_notes"@, "revoked_at"@, "revoke_reason"@]
}

/// Which fields of an `ExceptionRequest` may be left out.
pub open spec fn exception_request_defaults() -> Seq<bool> {
    seq![false, false, true, false, false, false, false, false, false, false, false, false, false, true, true, true, true, true]
}

/// Whether `x` is what the record document `v` (an object, or an array of
/// the fields in order) reads as.
pub open spec fn is_exception_request_of(v: JsonValue, x: ExceptionRequest) -> bool {
    record_of(v, exception_request_keys(), exception_request_defaults()) matches Some(o) && is_exception_request_fields_of(o, x)
}

/// Whether the record document `v` reads as an `ExceptionRequest`.
pub open spec fn reads_as_exception_request(v: JsonValue) -> bool {
    record_of(v, exception_request_keys(), exception_request_defaults()) matches Some(o) && reads_as_exception_request_fields(o)
}

/// The object that writes each field of an `ExceptionRequest` under its own name.
pub open spec fn exception_request_object(x: ExceptionRequest) -> JsonValue {
    JsonValue::Object(seq![
        ("exception_id"@, JsonValue::Str(x.exception_id@)),
        ("app_id"@, JsonValue::Str(x.app_id@)),
        ("tenant_id"@, crate::json::str_or_null(crate::json::opt_string(x.tenant_id))),
        ("policy_key"@, JsonValue::Str(x.policy_key@)),
        ("requested_value"@, x.requested_value@),
        ("justification"@, JsonValue::Str(x.justification@)),
        ("risk_tier"@, JsonValue::Str(x.risk_tier@)),
        ("risk_score"@, JsonValue::Number(crate::json::number_view(x.risk_score))),
        ("risk_rationale"@, JsonValue::Str(x.risk_rationale@)),
        ("status"@, JsonValue::Str(x.status@)),
        ("expires_at"@, JsonValue::Str(x.expires_at@)),
        ("created_at"@, JsonValue::Str(x.created_at@)),
        ("updated_at"@, JsonValue::Str(x.updated_at@)),
        ("reviewer_id"@, crate::json::str_or_null(crate::json::opt_string(x.reviewer_id))),
        ("reviewed_at"@, crate::json::str_or_null(crate::json::opt_string(x.reviewed_at))),
        ("reviewer_notes"@, crate::json::str_or_null(crate::json::opt_string(x.reviewer_notes))),
        ("revoked_at"@, crate::json::str_or_null(crate::json::opt_string(x.revoked_at))),
        ("revoke_reason"@, crate::json::str_or_null(crate::json::opt_string(x.revoke_reason))),
    ])
}

/// An `ExceptionRequest` whose fields are written under their own names reads back as
/// the same `ExceptionRequest`.
pub proof fn lemma_exception_request_reads_back(x: ExceptionRequest)
    ensures
        is_exception_request_of(exception_request_object(x), x),
{
    let v = exception_request_object(x);
    assert(json_str_member(v, "exception_id"@) == Some(x.exception_id@)) by {
        lemma_exception_request_names();
        reveal_with_fuel(crate::json::member_lookup, 19);
    }
    assert(json_str_member(v, "app_id"@) == Some(x.app_id@)) by {
        lemma_exception_request_names();
        reveal_with_fuel(crate::json::member_lookup, 19);
    }
    assert(field_opt_str(v, "tenant_id"@) == Some(opt_string(x.tenant_id))) by {
        lemma_exception_request_names();
        reveal_with_fuel(crate::json::member_lookup, 19);
    }
    assert(json_str_member(v, "policy_key"@) == Some(x.policy_key@)) by {
        lemma_exception_request_names();
        reveal_with_fuel(crate::json::member_lookup, 19);
    }
    assert(field_doc(v, "requested_value"@) == Some(x.requested_value@)) by {
        lemma_exception_request_names();
        reveal_with_fuel(crate::json::member_lookup, 19);
    }
    assert(json_str_member(v, "justification"@) == Some(x.justification@)) by {
        lemma_exception_request_names();
        reveal_with_fuel(crate::json::member_lookup, 19);
    }
    assert(json_str_member(v, "risk_tier"@) == Some(x.risk_tier@)) by {
        lemma_exception_request_names();
        reveal_with_fuel(crate::json::member_lookup, 19);
    }
    assert(field_number(v, "risk_score"@) == Some(number_view(x.risk_score))) by {
        lemma_exception_request_names();
        reveal_with_fuel(crate::json::member_lookup, 19);
    }
    assert(json_str_member(v, "risk_rationale"@) == Some(x.risk_rationale@)) by {
        lemma_exception_request_names();
        reveal_with_fuel(crate::json::member_lookup, 19);
    }
    assert(json_str_member(v, "status"@) == Some(x.status@)) by {
        lemma_exception_request_names();
        reveal_with_fuel(crate::json::member_lookup, 19);
    }
    assert(json_str_member(v, "expires_at"@) == Some(x.expires_at@)) by {
        lemma_exception_request_names();
        reveal_with_fuel(crate::json::member_lookup, 19);
    }
    assert(json_str_member(v, "created_at"@) == Some(x.created_at@)) by {
        lemma_exception_request_names();
        reveal_with_fuel(crate::json::member_lookup, 19);
    }
    assert(json_str_member(v, "updated_at"@) == Some(x.updated_at@)) by {
        lemma_exception_request_names();
        reveal_with_fuel(crate::json::member_lookup, 19);
    }
    assert(field_opt_str(v, "reviewer_id"@) == Some(opt_string(x.reviewer_id))) by {
        lemma_exception_request_names();
        reveal_with_fuel(crate::json::member_lookup, 19);
    }
    assert(field_opt_str(v, "reviewed_at"@) == Some(opt_string(x.reviewed_at))) by {
        lemma_exception_request_names();
        reveal_with_fuel(crate::json::member_lookup, 19);
    }
    assert(field_opt_str(v, "reviewer_notes"@) == Some(opt_string(x.reviewer_notes))) by {
        lemma_exception_request_names();
        reveal_with_fuel(crate::json::member_lookup, 19);
    }
    assert(field_opt_str(v, "revoked_at"@) == Some(opt_string(x.revoked_at))) by {
        lemma_exception_request_names();
        reveal_with_fuel(crate::json::member_lookup, 19);
    }
    assert(field_opt_str(v, "revoke_reason"@) == Some(opt_string(x.revoke_reason))) by {
        lemma_exception_request_names();
        reveal_with_fuel(crate::json::member_lookup, 19);
    }
    assert(is_exception_request_fields_of(v, x));
}

/// The field names of an `ExceptionRequest`, told apart.
proof fn lemma_exception_request_names()
    ensures
        "app_id"@.len() == 6,
        "app_id"@[0] == 'a',
        "created_at"@.len() == 10,
        "created_at"@[0] == 'c',
        "exception_id"@.len() == 12,
        "expires_at"@.len() == 10,
        "expires_at"@[0] == 'e',
        "justification"@.len() == 13,
        "justification"@[0] == 'j',
        "policy_key"@.len() == 10,
        "policy_key"@[0] == 'p',
        "requested_value"@.len() == 15,
        "reviewed_at"@.len() == 11,
        "reviewed_at"@[7] == 'd',
        "reviewer_id"@.len() == 11,
        "reviewer_id"@[7] == 'r',
        "reviewer_notes"@.len() == 14,
        "reviewer_notes"@[1] == 'e',
        "revoke_reason"@.len() == 13,
        "revoke_reason"@[0] == 'r',
        "revoked_at"@.len() == 10,
        "revoked_at"@[0] == 'r',
        "revoked_at"@[1] == 'e',
        "risk_rationale"@.len() == 14,
        "risk_rationale"@[1] == 'i',
        "risk_score"@.len() == 10,
        "risk_score"@[0] == 'r',
        "risk_score"@[1] == 'i',
        "risk_tier"@.len() == 9,
        "risk_tier"@[0] == 'r',
        "status"@.len() == 6,
        "status"@[0] == 's',
        "tenant_id"@.len() == 9,
        "tenant_id"@[0] == 't',
        "updated_at"@.len() == 10,
        "updated_at"@[0] == 'u',
{
    reveal_strlit("app_id");
    reveal_strlit("created_at");
    reveal_strlit("exception_id");
    reveal_strlit("expires_at");
    reveal_strlit("justification");
    reveal_strlit("policy_key");
    reveal_strlit("requested_value");
    reveal_strlit("reviewed_at");
    reveal_strlit("reviewer_id");
    reveal_strlit("reviewer_notes");
    reveal_strlit("revoke_reason");
    reveal_strlit("revoked_at");
    reveal_strlit("risk_rationale");
    reveal_strlit("risk_score");
    reveal_strlit("risk_tier");
    reveal_strlit("status");
    reveal_strlit("tenant_id");
    reveal_strlit("updated_at");
}

impl ExceptionRequest {
    /// Reads an `ExceptionRequest` out of a document: an object, or an array of the
    /// fields in declaration order.
    pub fn from_json(v: &Json) -> (r: Option<ExceptionRequest>)
        ensures
            r is Some <==> reads_as_exception_request(v@),
            r matches Some(x) ==> is_exception_request_of(v@, x),
    {
        let mut keys: Vec<&str> = Vec::new();
        let mut defaults: Vec<bool> = Vec::new();
        keys.push("exception_id");
        defaults.push(false);
        keys.push("app_id");
        defaults.push(false);
        keys.push("tenant_id");
        defaults.push(true);
        keys.push("policy_key");
        defaults.push(false);
        keys.push("requested_value");
        defaults.push(false);
        keys.push("justification");
        defaults.push(false);
        keys.push("risk_tier");
        defaults.push(false);
        keys.push("risk_score");
        defaults.push(false);
        keys.push("risk_rationale");
        defaults.push(false);
        keys.push("status");
        defaults.push(false);
        keys.push("expires_at");
        defaults.push(false);
        keys.push("created_at");
        defaults.push(false);
        keys.push("updated_at");
        defaults.push(false);
        keys.push("reviewer_id");
        defaults.push(true);
        keys.push("reviewed_at");
        defaults.push(true);
        keys.push("reviewer_notes");
        defaults.push(true);
        keys.push("revoked_at");
        defaults.push(true);
        keys.push("revoke_reason");
        defaults.push(true);
        proof {
            assert(keys_view(keys@) =~= exception_request_keys());
            assert(defaults@ =~= exception_request_defaults());
        }
        match read_record(v, &keys, &defaults) {
            Some(doc) => Self::from_fields(&doc),
            None => None,
        }
    }

    /// Reads the record out of the object it stands for.
    fn from_fields(v: &Json) -> (r: Option<ExceptionRequest>)
        ensures
            r is Some <==> reads_as_exception_request_fields(v@),
            r matches Some(x) ==> is_exception_request_fields_of(v@, x),
    {
        if !v.is_object() {
            return None;
        }
        let exception_id = match read_str(v, "exception_id") {
            Some(y) => y,
            None => return None,
        };
        let app_id = match read_str(v, "app_id") {
            Some(y) => y,
            None => return None,
        };
        let tenant_id = match read_opt_str(v, "tenant_id") {
            Some(y) => y,
            None => return None,
        };
        let policy_key = match read_str(v, "policy_key") {
            Some(y) => y,
            None => return None,
        };
        let requested_value = match read_doc(v, "requested_value") {
            Some(y) => y,
            None => return None,
        };
        let justification = match read_str(v, "justification") {
            Some(y) => y,
            None => return None,
        };
        let risk_tier = match read_str(v, "risk_tier") {
            Some(y) => y,
            None => return None,
        };
        let risk_score = match read_number(v, "risk_score") {
            Some(y) => y,
            None => return None,
        };
        let risk_rationale = match read_str(v, "risk_rationale") {
            Some(y) => y,
            None => return None,
        };
        let status = match read_str(v, "status") {
            Some(y) => y,
            None => return None,
        };
        let expires_at = match read_str(v, "expires_at") {
            Some(y) => y,
            None => return None,
        };
        let created_at = match read_str(v, "created_at") {
            Some(y) => y,
            None => return None,
        };
        let updated_at = match read_str(v, "updated_at") {
            Some(y) => y,
            None => return None,
        };
        let reviewer_id = match read_opt_str(v, "reviewer_id") {
            Some(y) => y,
            None => return None,
        };
        let reviewed_at = match read_opt_str(v, "reviewed_at") {
            Some(y) => y,
            None => return None,
        };
        let reviewer_notes = match read_opt_str(v, "reviewer_notes") {
            Some(y) => y,
            None => return None,
        };
        let revoked_at = match read_opt_str(v, "revoked_at") {
            Some(y) => y,
            None => return None,
        };
        let revoke_reason = match read_opt_str(v, "revoke_reason") {
            Some(y) => y,
            None => return None,
        };
        Some(ExceptionRequest { exception_id, app_id, tenant_id, policy_key, requested_value, justification, risk_tier, risk_score, risk_rationale, status, expires_at, created_at, updated_at, reviewer_id, reviewed_at, reviewer_notes, revoked_at, revoke_reason })
    }
}
/// The rows that read as an exception record, in order.
pub open spec fn readable_exception_request_rows(rows: Seq<JsonValue>) -> Seq<JsonValue> {
    rows.filter(|x: JsonValue| reads_as_exception_request(x))
}

impl ExceptionRequest {
    /// Reads every row that reads as an exception record, in order, and skips the
    /// others.
    pub fn from_rows(rows: &Vec<Json>) -> (r: Vec<ExceptionRequest>)
        ensures
            r@.len() == readable_exception_request_rows(jsons_view(rows@)).len(),
            forall|i: int|
                0 <= i < r@.len() ==> is_exception_request_of(readable_exception_request_rows(jsons_view(rows@))[i], #[trigger] r@[i]),
    {
        let ghost all = jsons_view(rows@);
        let mut out: Vec<ExceptionRequest> = Vec::new();
        let mut i: usize = 0;
        proof {
            reveal(Seq::filter);
            assert(all.take(0) =~= Seq::<JsonValue>::empty());
        }
        while i < rows.len()
            invariant
                i <= rows.len(),
                all == jsons_view(rows@),
                out@.len() == readable_exception_request_rows(all.take(i as int)).len(),
                forall|k: int|
                    0 <= k < out@.len() ==> is_exception_request_of(readable_exception_request_rows(all.take(i as int))[k], #[trigger] out@[k]),
            decreases rows.len() - i,
        {
            proof {
                reveal(Seq::filter);
                assert(all.take(i as int + 1).drop_last() =~= all.take(i as int));
                assert(all.take(i as int + 1).last() == rows@[i as int]@);
            }
            match ExceptionRequest::from_json(&rows[i]) {
                Some(x) => out.push(x),
                None => {},
            }
            i = i + 1;
        }
        proof {
            assert(all.take(rows@.len() as int) =~= all);
        }
        out
    }
}

impl GovernanceService {
    /// File a new policy exception request. A justification shorter than
    /// 100 characters is refused here, before any call, as the server would
    /// refuse it.
    pub fn request_exception(
        &self,
        policy_key: &str,
        requested_value: Json,
        justification: &str,
        tenant_id: Option<&str>,
    ) -> (r: Result<ApiRequest, OlympusError>)
        ensures
            justification@.len() < 100 ==> plan_view(r) == Err::<RequestView, ErrorView>(
                ErrorView::Config(short_justification_message(justification@.len())),
            ),
            justification@.len() >= 100 ==> plan_view(r) == Ok::<RequestView, ErrorView>(
                json_request(
                    HttpMethod::Post,
                    "/api/v1/platform/exceptions"@,
                    exception_body(policy_key@, requested_value@, justification@, tenant_id),
                ),
            ),
    {
        let len = justification.unicode_len();
        if len < MIN_JUSTIFICATION_CHARS {
            let msg = concat3(
                "justification must be >= 100 chars (got ",
                decimal_string(len as u64).as_str(),
                "); server validator rejects shorter",
            );
            return Err(OlympusError::Config(msg));
        }
        let ghost value = requested_value@;
        let mut body = Members::new();
        body.put_str("policy_key", policy_key);
        body.put("requested_value", requested_value);
        body.put_str("justification", justification);
        body.put_opt_str("tenant_id", tenant_id);
        assert(body@ =~= exception_body(policy_key@, value, justification@, tenant_id)->Object_0);
        Ok(ApiRequest::post("/api/v1/platform/exceptions".to_owned(), body.into_json()))
    }

    /// List exceptions, filtered by app and status when given.
    pub fn list_exceptions(&self, app_id: Option<&str>, status: Option<&str>) -> (r: ApiRequest)
        ensures
            r@ == get_request(
                "/api/v1/platform/exceptions"@,
                opt_pair("app_id"@, opt_str(app_id)) + opt_pair("status"@, opt_str(status)),
            ),
    {
        let mut q = Query::new();
        q.push_opt("app_id", app_id);
        q.push_opt("status", status);
        assert(q@ =~= opt_pair("app_id"@, opt_str(app_id)) + opt_pair("status"@, opt_str(status)));
        ApiRequest::get("/api/v1/platform/exceptions".to_owned(), q)
    }

    /// The exception rows of a list reply: the items of its `exceptions`
    /// array, or none.
    pub fn exception_rows(&self, response: &Json) -> (r: Vec<Json>)
        ensures
            jsons_view(r@) == array_rows(response@, "exceptions"@),
    {
        response.array_rows("exceptions")
    }

    /// The exceptions of a list reply: each row of its `exceptions` array
    /// that reads as a record, in order; the other rows are skipped.
    pub fn exceptions_from_response(&self, response: &Json) -> (r: Vec<ExceptionRequest>)
        ensures
            r@.len() == readable_exception_request_rows(array_rows(response@, "exceptions"@)).len(),
            forall|i: int|
                0 <= i < r@.len() ==> is_exception_request_of(
                    readable_exception_request_rows(array_rows(response@, "exceptions"@))[i],
                    #[trigger] r@[i],
                ),
    {
        let rows = self.exception_rows(response);
        ExceptionRequest::from_rows(&rows)
    }

    /// Fetch a single exception by ID.
    pub fn get_exception(&self, exception_id: &str) -> (r: ApiRequest)
        ensures
            r@ == get_request("/api/v1/platform/exceptions/"@ + url_encoded(exception_id@), seq![]),
    {
        ApiRequest::get_plain(path_end("/api/v1/platform/exceptions/", exception_id))
    }
}

} // verus!
