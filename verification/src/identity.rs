//! Tenant invites and membership: inviting a user, accepting and revoking
//! invites, and removing a user from the tenant.

use vstd::prelude::*;
use crate::decode::{field_enum_tag, keys_view, read_enum_tag, read_record, record_of};
use crate::http::{empty_object, get_request, json_request, path_with, ApiRequest, HttpMethod};
use crate::decode::{field_opt_str, read_opt_str, read_str};
use crate::json::{
    int_value, is_object, json_str_member, object_of, opt_member, opt_str, opt_string, opt_string_member,
    str_or_null, text_member, Json, JsonValue, Members,
};
use crate::url::url_encoded;

verus! {

/// Plans the calls of tenant invites.
pub struct IdentityApi;

/// An invite to create; optional fields are sent only when set.
#[derive(Debug, Clone, Default)]
pub struct InviteCreateRequest {
    pub email: String,
    pub role: String,
    pub location_id: Option<String>,
    pub message: Option<String>,
    pub ttl_seconds: Option<i64>,
}

/// Where an invite stands.
#[derive(Debug, Clone, Copy, PartialEq, Eq, Structural)]
pub enum InviteStatus {
    Pending,
    Accepted,
    Revoked,
    Expired,
}

/// The wire name of an invite status.
pub open spec fn invite_status_name(s: InviteStatus) -> Seq<char> {
    match s {
        InviteStatus::Pending => "pending"@,
        InviteStatus::Accepted => "accepted"@,
        InviteStatus::Revoked => "revoked"@,
        InviteStatus::Expired => "expired"@,
    }
}

impl InviteStatus {
    /// The status's wire name.
    pub fn as_str(self) -> (r: &'static str)
        ensures
            r@ == invite_status_name(self),
    {
        match self {
            InviteStatus::Pending => "pending",
            InviteStatus::Accepted => "accepted",
            InviteStatus::Revoked => "revoked",
            InviteStatus::Expired => "expired",
        }
    }

    /// The status a wire name denotes.
    pub fn from_name(name: &str) -> (r: Option<InviteStatus>)
        ensures
            match r {
                Some(s) => invite_status_name(s) == name@,
                None => forall|s: InviteStatus| invite_status_name(s) != name@,
            },
    {
        if crate::text::str_eq(name, "pending") {
            Some(InviteStatus::Pending)
        } else if crate::text::str_eq(name, "accepted") {
            Some(InviteStatus::Accepted)
        } else if crate::text::str_eq(name, "revoked") {
            Some(InviteStatus::Revoked)
        } else if crate::text::str_eq(name, "expired") {
            Some(InviteStatus::Expired)
        } else {
            proof {
                assert forall|s: InviteStatus| invite_status_name(s) != name@ by {
                    match s {
                        InviteStatus::Pending => {},
                        InviteStatus::Accepted => {},
                        InviteStatus::Revoked => {},
                        InviteStatus::Expired => {},
                    }
                }
            }
            None
        }
    }
}

/// An invite as the server returns it; the token is present only to the
/// inviter, once.
#[derive(Debug, Clone)]
pub struct InviteHandle {
    pub id: String,
    pub token: Option<String>,
    pub email: String,
    pub role: String,
    pub location_id: Option<String>,
    pub tenant_id: String,
    pub expires_at: String,
    pub status: InviteStatus,
    pub created_at: String,
    pub accepted_at: Option<String>,
}

/// The record of a user removed from a tenant.
#[derive(Debug, Clone)]
pub struct RemoveFromTenantResponse {
    pub tenant_id: String,
    pub user_id: String,
    pub removed_at: String,
}

/// Each invite status has a wire name of its own, so a status written out
/// and read back by [`InviteStatus::from_name`] is the same status.
pub proof fn lemma_invite_status_names_distinct(a: InviteStatus, b: InviteStatus)
    ensures
        invite_status_name(a) == invite_status_name(b) ==> a == b,
{
    reveal_strlit("pending");
    reveal_strlit("accepted");
    reveal_strlit("revoked");
    reveal_strlit("expired");
    assert("pending"@.len() == 7 && "pending"@[0] == 'p');
    assert("accepted"@.len() == 8);
    assert("revoked"@.len() == 7 && "revoked"@[0] == 'r');
    assert("expired"@.len() == 7 && "expired"@[0] == 'e');
}

/// Whether `n` names an invite status.
pub open spec fn is_invite_status_name(n: Seq<char>) -> bool {
    exists|s: InviteStatus| #[trigger] invite_status_name(s) == n
}

/// Whether `h` is what the object `v` reads as: the token, location and
/// acceptance time optional, the status one of its wire names.
pub open spec fn is_invite_handle_fields_of(v: JsonValue, h: InviteHandle) -> bool {
    &&& is_object(v)
    &&& json_str_member(v, "id"@) == Some(h.id@)
    &&& field_opt_str(v, "token"@) == Some(opt_string(h.token))
    &&& json_str_member(v, "email"@) == Some(h.email@)
    &&& json_str_member(v, "role"@) == Some(h.role@)
    &&& field_opt_str(v, "location_id"@) == Some(opt_string(h.location_id))
    &&& json_str_member(v, "tenant_id"@) == Some(h.tenant_id@)
    &&& json_str_member(v, "expires_at"@) == Some(h.expires_at@)
    &&& field_enum_tag(v, "status"@) == Some(invite_status_name(h.status))
    &&& json_str_member(v, "created_at"@) == Some(h.created_at@)
    &&& field_opt_str(v, "accepted_at"@) == Some(opt_string(h.accepted_at))
}

/// Whether the object `v` reads as an invite.
pub open spec fn reads_as_invite_handle_fields(v: JsonValue) -> bool {
    &&& is_object(v)
    &&& json_str_member(v, "id"@) is Some
    &&& field_opt_str(v, "token"@) is Some
    &&& json_str_member(v, "email"@) is Some
    &&& json_str_member(v, "role"@) is Some
    &&& field_opt_str(v, "location_id"@) is Some
    &&& json_str_member(v, "tenant_id"@) is Some
    &&& json_str_member(v, "expires_at"@) is Some
    &&& field_enum_tag(v, "status"@) matches Some(n) && is_invite_status_name(n)
    &&& json_str_member(v, "created_at"@) is Some
    &&& field_opt_str(v, "accepted_at"@) is Some
}

/// The field names of an `InviteHandle`, in declaration order.
pub open spec fn invite_handle_keys() -> Seq<Seq<char>> {
    seq!["id"@, "token"@, "email"@, "role"@, "location_id"@, "tenant_id"@, "expires_at"@, "status"@, "created_at"@, "accepted_at"@]
}

/// Which fields of an `InviteHandle` may be left out.
pub open spec fn invite_handle_defaults() -> Seq<bool> {
    seq![false, true, false, false, true, false, false, false, false, true]
}

/// Whether `x` is what the record document `v` (an object, or an array of
/// the fields in order) reads as.
pub open spec fn is_invite_handle_of(v: JsonValue, x: InviteHandle) -> bool {
    record_of(v, invite_handle_keys(), invite_handle_defaults()) matches Some(o) && is_invite_handle_fields_of(o, x)
}

/// Whether the record document `v` reads as an `InviteHandle`.
pub open spec fn reads_as_invite_handle(v: JsonValue) -> bool {
    record_of(v, invite_handle_keys(), invite_handle_defaults()) matches Some(o) && reads_as_invite_handle_fields(o)
}

/// The object that writes each field of an `InviteHandle` under its own name.
pub open spec fn invite_handle_object(h: InviteHandle) -> JsonValue {
    JsonValue::Object(seq![
        ("id"@, JsonValue::Str(h.id@)),
        ("token"@, crate::json::str_or_null(crate::json::opt_string(h.token))),
        ("email"@, JsonValue::Str(h.email@)),
        ("role"@, JsonValue::Str(h.role@)),
        ("location_id"@, crate::json::str_or_null(crate::json::opt_string(h.location_id))),
        ("tenant_id"@, JsonValue::Str(h.tenant_id@)),
        ("expires_at"@, JsonValue::Str(h.expires_at@)),
        ("status"@, JsonValue::Str(invite_status_name(h.status))),
        ("created_at"@, JsonValue::Str(h.created_at@)),
        ("accepted_at"@, crate::json::str_or_null(crate::json::opt_string(h.accepted_at))),
    ])
}

/// An `InviteHandle` whose fields are written under their own names reads back as
/// the same `InviteHandle`.
pub proof fn lemma_invite_handle_reads_back(h: InviteHandle)
    ensures
        is_invite_handle_of(invite_handle_object(h), h),
{
    let v = invite_handle_object(h);
    assert(json_str_member(v, "id"@) == Some(h.id@)) by {
        lemma_invite_handle_names();
        reveal_with_fuel(crate::json::member_lookup, 11);
    }
    assert(field_opt_str(v, "token"@) == Some(opt_string(h.token))) by {
        lemma_invite_handle_names();
        reveal_with_fuel(crate::json::member_lookup, 11);
    }
    assert(json_str_member(v, "email"@) == Some(h.email@)) by {
        lemma_invite_handle_names();
        reveal_with_fuel(crate::json::member_lookup, 11);
    }
    assert(json_str_member(v, "role"@) == Some(h.role@)) by {
        lemma_invite_handle_names();
        reveal_with_fuel(crate::json::member_lookup, 11);
    }
    assert(field_opt_str(v, "location_id"@) == Some(opt_string(h.location_id))) by {
        lemma_invite_handle_names();
        reveal_with_fuel(crate::json::member_lookup, 11);
    }
    assert(json_str_member(v, "tenant_id"@) == Some(h.tenant_id@)) by {
        lemma_invite_handle_names();
        reveal_with_fuel(crate::json::member_lookup, 11);
    }
    assert(json_str_member(v, "expires_at"@) == Some(h.expires_at@)) by {
        lemma_invite_handle_names();
        reveal_with_fuel(crate::json::member_lookup, 11);
    }
    assert(field_enum_tag(v, "status"@) == Some(invite_status_name(h.status))) by {
        lemma_invite_handle_names();
        reveal_with_fuel(crate::json::member_lookup, 11);
    }
    assert(json_str_member(v, "created_at"@) == Some(h.created_at@)) by {
        lemma_invite_handle_names();
        reveal_with_fuel(crate::json::member_lookup, 11);
    }
    assert(field_opt_str(v, "accepted_at"@) == Some(opt_string(h.accepted_at))) by {
        lemma_invite_handle_names();
        reveal_with_fuel(crate::json::member_lookup, 11);
    }
    assert(is_invite_handle_fields_of(v, h));
}

/// The field names of an `InviteHandle`, told apart.
proof fn lemma_invite_handle_names()
    ensures
        "accepted_at"@.len() == 11,
        "accepted_at"@[0] == 'a',
        "created_at"@.len() == 10,
        "created_at"@[0] == 'c',
        "email"@.len() == 5,
        "email"@[0] == 'e',
        "expires_at"@.len() == 10,
        "expires_at"@[0] == 'e',
        "id"@.len() == 2,
        "location_id"@.len() == 11,
        "location_id"@[0] == 'l',
        "role"@.len() == 4,
        "status"@.len() == 6,
        "tenant_id"@.len() == 9,
        "token"@.len() == 5,
        "token"@[0] == 't',
{
    reveal_strlit("accepted_at");
    reveal_strlit("created_at");
    reveal_strlit("email");
    reveal_strlit("expires_at");
    reveal_strlit("id");
    reveal_strlit("location_id");
    reveal_strlit("role");
    reveal_strlit("status");
    reveal_strlit("tenant_id");
    reveal_strlit("token");
}

/// Whether `r` is what the object `v` reads as.
pub open spec fn is_remove_from_tenant_response_fields_of(v: JsonValue, r: RemoveFromTenantResponse) -> bool {
    &&& is_object(v)
    &&& json_str_member(v, "tenant_id"@) == Some(r.tenant_id@)
    &&& json_str_member(v, "user_id"@) == Some(r.user_id@)
    &&& json_str_member(v, "removed_at"@) == Some(r.removed_at@)
}

/// Whether the object `v` reads as the record of a removal.
pub open spec fn reads_as_remove_from_tenant_response_fields(v: JsonValue) -> bool {
    &&& is_object(v)
    &&& json_str_member(v, "tenant_id"@) is Some
    &&& json_str_member(v, "user_id"@) is Some
    &&& json_str_member(v, "removed_at"@) is Some
}

/// The field names of a `RemoveFromTenantResponse`, in declaration order.
pub open spec fn remove_from_tenant_response_keys() -> Seq<Seq<char>> {
    seq!["tenant_id"@, "user_id"@, "removed_at"@]
}

/// Which fields of a `RemoveFromTenantResponse` may be left out.
pub open spec fn remove_from_tenant_response_defaults() -> Seq<bool> {
    seq![false, false, false]
}

/// Whether `x` is what the record document `v` (an object, or an array of
/// the fields in order) reads as.
pub open spec fn is_remove_from_tenant_response_of(v: JsonValue, x: RemoveFromTenantResponse) -> bool {
    record_of(v, remove_from_tenant_response_keys(), remove_from_tenant_response_defaults()) matches Some(o) && is_remove_from_tenant_response_fields_of(o, x)
}

/// Whether the record document `v` reads as a `RemoveFromTenantResponse`.
pub open spec fn reads_as_remove_from_tenant_response(v: JsonValue) -> bool {
    record_of(v, remove_from_tenant_response_keys(), remove_from_tenant_response_defaults()) matches Some(o) && reads_as_remove_from_tenant_response_fields(o)
}

/// The object that writes each field of a `RemoveFromTenantResponse` under its own name.
pub open spec fn remove_from_tenant_response_object(r: RemoveFromTenantResponse) -> JsonValue {
    JsonValue::Object(seq![
        ("tenant_id"@, JsonValue::Str(r.tenant_id@)),
        ("user_id"@, JsonValue::Str(r.user_id@)),
        ("removed_at"@, JsonValue::Str(r.removed_at@)),
    ])
}

/// A `RemoveFromTenantResponse` whose fields are written under their own names reads back as
/// the same `RemoveFromTenantResponse`.
pub proof fn lemma_remove_from_tenant_response_reads_back(r: RemoveFromTenantResponse)
    ensures
        is_remove_from_tenant_response_of(remove_from_tenant_response_object(r), r),
{
    let v = remove_from_tenant_response_object(r);
    assert(json_str_member(v, "tenant_id"@) == Some(r.tenant_id@)) by {
        lemma_remove_from_tenant_response_names();
        reveal_with_fuel(crate::json::member_lookup, 4);
    }
    assert(json_str_member(v, "user_id"@) == Some(r.user_id@)) by {
        lemma_remove_from_tenant_response_names();
        reveal_with_fuel(crate::json::member_lookup, 4);
    }
    assert(json_str_member(v, "removed_at"@) == Some(r.removed_at@)) by {
        lemma_remove_from_tenant_response_names();
        reveal_with_fuel(crate::json::member_lookup, 4);
    }
    assert(is_remove_from_tenant_response_fields_of(v, r));
}

/// The field names of a `RemoveFromTenantResponse`, told apart.
proof fn lemma_remove_from_tenant_response_names()
    ensures
        "removed_at"@.len() == 10,
        "tenant_id"@.len() == 9,
        "user_id"@.len() == 7,
{
    reveal_strlit("removed_at");
    reveal_strlit("tenant_id");
    reveal_strlit("user_id");
}

impl InviteHandle {
    /// Reads an `InviteHandle` out of a document: an object, or an array of the
    /// fields in declaration order.
    pub fn from_json(v: &Json) -> (r: Option<InviteHandle>)
        ensures
            r is Some <==> reads_as_invite_handle(v@),
            r matches Some(x) ==> is_invite_handle_of(v@, x),
    {
        let mut keys: Vec<&str> = Vec::new();
        let mut defaults: Vec<bool> = Vec::new();
        keys.push("id");
        defaults.push(false);
        keys.push("token");
        defaults.push(true);
        keys.push("email");
        defaults.push(false);
        keys.push("role");
        defaults.push(false);
        keys.push("location_id");
        defaults.push(true);
        keys.push("tenant_id");
        defaults.push(false);
        keys.push("expires_at");
        defaults.push(false);
        keys.push("status");
        defaults.push(false);
        keys.push("created_at");
        defaults.push(false);
        keys.push("accepted_at");
        defaults.push(true);
        proof {
            assert(keys_view(keys@) =~= invite_handle_keys());
            assert(defaults@ =~= invite_handle_defaults());
        }
        match read_record(v, &keys, &defaults) {
            Some(doc) => Self::from_fields(&doc),
            None => None,
        }
    }

    /// Reads the record out of the object it stands for.
    fn from_fields(v: &Json) -> (r: Option<InviteHandle>)
        ensures
            r is Some <==> reads_as_invite_handle_fields(v@),
            r matches Some(h) ==> is_invite_handle_fields_of(v@, h),
    {
        if !v.is_object() {
            return None;
        }
        let id = match read_str(v, "id") {
            Some(s) => s,
            None => return None,
        };
        let token = match read_opt_str(v, "token") {
            Some(s) => s,
            None => return None,
        };
        let email = match read_str(v, "email") {
            Some(s) => s,
            None => return None,
        };
        let role = match read_str(v, "role") {
            Some(s) => s,
            None => return None,
        };
        let location_id = match read_opt_str(v, "location_id") {
            Some(s) => s,
            None => return None,
        };
        let tenant_id = match read_str(v, "tenant_id") {
            Some(s) => s,
            None => return None,
        };
        let expires_at = match read_str(v, "expires_at") {
            Some(s) => s,
            None => return None,
        };
        let status_name = match read_enum_tag(v, "status") {
            Some(s) => s,
            None => return None,
        };
        let status = match InviteStatus::from_name(status_name.as_str()) {
            Some(st) => st,
            None => return None,
        };
        let created_at = match read_str(v, "created_at") {
            Some(s) => s,
            None => return None,
        };
        let accepted_at = match read_opt_str(v, "accepted_at") {
            Some(s) => s,
            None => return None,
        };
        Some(
            InviteHandle {
                id,
                token,
                email,
                role,
                location_id,
                tenant_id,
                expires_at,
                status,
                created_at,
                accepted_at,
            },
        )
    }

    /// Reads a list of invites: an array whose every item reads as one.
    pub fn list_from_json(v: &Json) -> (r: Option<Vec<InviteHandle>>)
        ensures
            r is Some <==> (v@ is Array && forall|i: int|
                0 <= i < v@->Array_0.len() ==> reads_as_invite_handle(#[trigger] v@->Array_0[i])),
            r matches Some(l) ==> l@.len() == v@->Array_0.len() && forall|i: int|
                0 <= i < l@.len() ==> is_invite_handle_of(v@->Array_0[i], #[trigger] l@[i]),
    {
        match v {
            Json::Array(items) => {
                let ghost whole = v@;
                let mut out: Vec<InviteHandle> = Vec::new();
                let mut i: usize = 0;
                while i < items.len()
                    invariant
                        i <= items.len(),
                        whole == v@,
                        whole == crate::json::json_view(Json::Array(*items)),
                        out@.len() == i,
                        forall|k: int| 0 <= k < i ==> is_invite_handle_of(whole->Array_0[k], #[trigger] out@[k]),
                    decreases items.len() - i,
                {
                    assert(whole->Array_0[i as int] == items@[i as int]@);
                    match InviteHandle::from_json(&items[i]) {
                        Some(h) => out.push(h),
                        None => return None,
                    }
                    i = i + 1;
                }
                assert forall|k: int| 0 <= k < whole->Array_0.len() implies reads_as_invite_handle(
                    #[trigger] whole->Array_0[k],
                ) by {
                    assert(is_invite_handle_of(whole->Array_0[k], out@[k]));
                }
                Some(out)
            },
            _ => None,
        }
    }
}

impl RemoveFromTenantResponse {
    /// Reads a `RemoveFromTenantResponse` out of a document: an object, or an array of the
    /// fields in declaration order.
    pub fn from_json(v: &Json) -> (r: Option<RemoveFromTenantResponse>)
        ensures
            r is Some <==> reads_as_remove_from_tenant_response(v@),
            r matches Some(x) ==> is_remove_from_tenant_response_of(v@, x),
    {
        let mut keys: Vec<&str> = Vec::new();
        let mut defaults: Vec<bool> = Vec::new();
        keys.push("tenant_id");
        defaults.push(false);
        keys.push("user_id");
        defaults.push(false);
        keys.push("removed_at");
        defaults.push(false);
        proof {
            assert(keys_view(keys@) =~= remove_from_tenant_response_keys());
            assert(defaults@ =~= remove_from_tenant_response_defaults());
        }
        match read_record(v, &keys, &defaults) {
            Some(doc) => Self::from_fields(&doc),
            None => None,
        }
    }

    /// Reads the record out of the object it stands for.
    fn from_fields(v: &Json) -> (r: Option<RemoveFromTenantResponse>)
        ensures
            r is Some <==> reads_as_remove_from_tenant_response_fields(v@),
            r matches Some(x) ==> is_remove_from_tenant_response_fields_of(v@, x),
    {
        if !v.is_object() {
            return None;
        }
        let tenant_id = match read_str(v, "tenant_id") {
            Some(s) => s,
            None => return None,
        };
        let user_id = match read_str(v, "user_id") {
            Some(s) => s,
            None => return None,
        };
        let removed_at = match read_str(v, "removed_at") {
            Some(s) => s,
            None => return None,
        };
        Some(RemoveFromTenantResponse { tenant_id, user_id, removed_at })
    }
}

/// The body of an invite.
pub open spec fn invite_body(req: InviteCreateRequest) -> JsonValue {
    object_of(
        seq![text_member("email"@, req.email@), text_member("role"@, req.role@)]
            + opt_string_member("location_id"@, req.location_id)
            + opt_string_member("message"@, req.message)
            + opt_member(
                "ttl_seconds"@,
                match req.ttl_seconds {
                    Some(t) => Some(int_value(t)),
                    None => None,
                },
            ),
    )
}

/// What `invite_body` builds reads back field by field: each value the
/// arguments give is found under its own name, an optional one only when
/// it is set, and a list as the same items in the same order.
pub proof fn lemma_invite_body_reads_back(req: InviteCreateRequest)
    ensures
        crate::json::json_str_member(invite_body(req), "email"@) == Some(req.email@),
        crate::json::json_str_member(invite_body(req), "role"@) == Some(req.role@),
        crate::decode::field_opt_str(invite_body(req), "location_id"@) == Some(crate::json::opt_string(req.location_id)),
        crate::decode::field_opt_str(invite_body(req), "message"@) == Some(crate::json::opt_string(req.message)),
{
    assert(crate::json::json_str_member(invite_body(req), "email"@) == Some(req.email@)) by {
        broadcast use crate::json::lemma_member_lookup_append, crate::json::lemma_member_lookup_opt;

        lemma_invite_body_keys();
        reveal_with_fuel(crate::json::member_lookup, 3);
    }
    assert(crate::json::json_str_member(invite_body(req), "role"@) == Some(req.role@)) by {
        broadcast use crate::json::lemma_member_lookup_append, crate::json::lemma_member_lookup_opt;

        lemma_invite_body_keys();
        reveal_with_fuel(crate::json::member_lookup, 3);
    }
    assert(crate::decode::field_opt_str(invite_body(req), "location_id"@) == Some(crate::json::opt_string(req.location_id))) by {
        broadcast use crate::json::lemma_member_lookup_append, crate::json::lemma_member_lookup_opt;

        lemma_invite_body_keys();
        reveal_with_fuel(crate::json::member_lookup, 3);
    }
    assert(crate::decode::field_opt_str(invite_body(req), "message"@) == Some(crate::json::opt_string(req.message))) by {
        broadcast use crate::json::lemma_member_lookup_append, crate::json::lemma_member_lookup_opt;

        lemma_invite_body_keys();
        reveal_with_fuel(crate::json::member_lookup, 3);
    }
}

/// The field names that `invite_body` uses, told apart.
proof fn lemma_invite_body_keys()
    ensures
        "email"@.len() == 5,
        "location_id"@.len() == 11,
        "location_id"@[0] == 'l',
        "message"@.len() == 7,
        "role"@.len() == 4,
        "ttl_seconds"@.len() == 11,
        "ttl_seconds"@[0] == 't',
{
    reveal_strlit("email");
    reveal_strlit("location_id");
    reveal_strlit("message");
    reveal_strlit("role");
    reveal_strlit("ttl_seconds");
}

/// The body that [`IdentityApi::remove_from_tenant`] sends.
pub open spec fn remove_from_tenant_body(user_id: &str, reason: Option<&str>) -> JsonValue {
    object_of(seq![text_member("user_id"@, user_id@), ("reason"@, str_or_null(opt_str(reason)))])
}

/// What `remove_from_tenant_body` builds reads back field by field: each value the
/// arguments give is found under its own name, an optional one only when
/// it is set, and a list as the same items in the same order.
pub proof fn lemma_remove_from_tenant_body_reads_back(user_id: &str, reason: Option<&str>)
    ensures
        crate::json::json_str_member(remove_from_tenant_body(user_id, reason), "user_id"@) == Some(user_id@),
        crate::json::json_get(remove_from_tenant_body(user_id, reason), "reason"@) == Some(str_or_null(opt_str(reason))),
{
    assert(crate::json::json_str_member(remove_from_tenant_body(user_id, reason), "user_id"@) == Some(user_id@)) by {
        broadcast use crate::json::lemma_member_lookup_append, crate::json::lemma_member_lookup_opt;

        lemma_remove_from_tenant_body_keys();
        reveal_with_fuel(crate::json::member_lookup, 3);
    }
    assert(crate::json::json_get(remove_from_tenant_body(user_id, reason), "reason"@) == Some(str_or_null(opt_str(reason)))) by {
        broadcast use crate::json::lemma_member_lookup_append, crate::json::lemma_member_lookup_opt;

        lemma_remove_from_tenant_body_keys();
        reveal_with_fuel(crate::json::member_lookup, 3);
    }
}

/// The field names that `remove_from_tenant_body` uses, told apart.
proof fn lemma_remove_from_tenant_body_keys()
    ensures
        "reason"@.len() == 6,
        "user_id"@.len() == 7,
{
    reveal_strlit("reason");
    reveal_strlit("user_id");
}

/// The body that [`IdentityApi::accept`] sends.
pub open spec fn accept_body(firebase_id_token: &str) -> JsonValue {
    object_of(seq![text_member("firebase_id_token"@, firebase_id_token@)])
}

/// What `accept_body` builds reads back field by field: each value the
/// arguments give is found under its own name, an optional one only when
/// it is set, and a list as the same items in the same order.
pub proof fn lemma_accept_body_reads_back(firebase_id_token: &str)
    ensures
        crate::json::json_str_member(accept_body(firebase_id_token), "firebase_id_token"@) == Some(firebase_id_token@),
{
    assert(crate::json::json_str_member(accept_body(firebase_id_token), "firebase_id_token"@) == Some(firebase_id_token@)) by {
        broadcast use crate::json::lemma_member_lookup_append, crate::json::lemma_member_lookup_opt;

        lemma_accept_body_keys();
        reveal_with_fuel(crate::json::member_lookup, 2);
    }
}

/// The field names that `accept_body` uses, told apart.
proof fn lemma_accept_body_keys()
    ensures
        "firebase_id_token"@.len() == 17,
{
    reveal_strlit("firebase_id_token");
}

impl IdentityApi {
    /// Invite a user to the tenant.
    pub fn invite(&self, req: InviteCreateRequest) -> (r: ApiRequest)
        ensures
            r@ == json_request(HttpMethod::Post, "/identity/invite"@, invite_body(req)),
    {
        let ghost spec_req = req;
        let mut body = Members::new();
        body.put("email", Json::Str(req.email));
        body.put("role", Json::Str(req.role));
        body.put_opt_string("location_id", req.location_id);
        body.put_opt_string("message", req.message);
        match req.ttl_seconds {
            Some(t) => {
                body.put("ttl_seconds", Json::integer(t));
            },
            None => {},
        }
        assert(body@ =~= invite_body(spec_req)->Object_0);
        ApiRequest::post("/identity/invite".to_owned(), body.into_json())
    }

    /// Accept an invite with a Firebase ID token.
    pub fn accept(&self, token: &str, firebase_id_token: &str) -> (r: ApiRequest)
        ensures
            r@ == json_request(
                HttpMethod::Post,
                "/identity/invites/"@ + url_encoded(token@) + "/accept"@,
                accept_body(firebase_id_token),
            ),
    {
        let mut body = Members::new();
        body.put_str("firebase_id_token", firebase_id_token);
        assert(body@ =~= seq![text_member("firebase_id_token"@, firebase_id_token@)]);
        ApiRequest::post(path_with("/identity/invites/", token, "/accept"), body.into_json())
    }

    /// The tenant's invites.
    pub fn list(&self) -> (r: ApiRequest)
        ensures
            r@ == get_request("/identity/invites"@, seq![]),
    {
        ApiRequest::get_plain("/identity/invites".to_owned())
    }

    /// Revoke an invite.
    pub fn revoke(&self, invite_id: &str) -> (r: ApiRequest)
        ensures
            r@ == json_request(
                HttpMethod::Post,
                "/identity/invites/"@ + url_encoded(invite_id@) + "/revoke"@,
                empty_object(),
            ),
    {
        ApiRequest::post_empty(path_with("/identity/invites/", invite_id, "/revoke"))
    }

    /// Remove a user from the tenant; an absent reason is sent as `null`.
    pub fn remove_from_tenant(&self, user_id: &str, reason: Option<&str>) -> (r: ApiRequest)
        ensures
            r@ == json_request(
                HttpMethod::Post,
                "/identity/remove_from_tenant"@,
                remove_from_tenant_body(user_id, reason),
            ),
    {
        let mut body = Members::new();
        body.put_str("user_id", user_id);
        body.put("reason", Json::string_or_null(reason));
        assert(body@ =~= seq![text_member("user_id"@, user_id@), ("reason"@, str_or_null(opt_str(reason)))]);
        ApiRequest::post("/identity/remove_from_tenant".to_owned(), body.into_json())
    }
}

} // verus!
