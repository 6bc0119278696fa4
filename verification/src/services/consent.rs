//! App-scoped permissions: listing, describing, granting and revoking
//! scope grants held by a tenant or a user.

use vstd::prelude::*;
use crate::decode::{keys_view, read_record, record_of};
use crate::http::{delete_request, get_request, json_request, opt_pair, path_end2, ApiRequest, HttpMethod, Query};
use crate::decode::{field_bool_or_false, field_opt_str, read_bool_or_false, read_opt_str, read_str};
use crate::json::{array_rows, is_object, json_str_member, jsons_view, object_of, opt_string, opt_str, opt_text_member, text_member, Json, JsonValue, Members};
use crate::text::concat3;
use crate::url::{url_encode, url_encoded};

verus! {

/// Plans the calls of the consent surface.
pub struct ConsentService;

/// Server-rendered consent copy and its stable hash. `prompt_hash` must be
/// echoed back on a user grant so the server can check what the user saw.
#[derive(Debug, Clone)]
pub struct ConsentPrompt {
    pub app_id: String,
    pub scope: String,
    pub prompt_text: String,
    pub prompt_hash: String,
    pub is_destructive: bool,
    pub requires_mfa: bool,
    pub app_may_request: bool,
}

/// A grant row of the tenant or user grant tables.
#[derive(Debug, Clone)]
pub struct Grant {
    pub tenant_id: String,
    pub app_id: String,
    pub scope: String,
    pub granted_at: String,
    pub source: String,
    pub granted_by: Option<String>,
    pub user_id: Option<String>,
    pub revoked_at: Option<String>,
}

/// Who must consent for a scope.
#[derive(Debug, Clone, Copy, PartialEq, Eq, Structural)]
pub enum Holder {
    Tenant,
    User,
}

/// The path segment of a holder's grants.
pub open spec fn holder_suffix(h: Holder) -> Seq<char> {
    match h {
        Holder::Tenant => "tenant-grants"@,
        Holder::User => "user-grants"@,
    }
}

impl Holder {
    /// The path segment of this holder's grants.
    pub fn path_suffix(self) -> (r: &'static str)
        ensures
            r@ == holder_suffix(self),
    {
        match self {
            Holder::Tenant => "tenant-grants",
            Holder::User => "user-grants",
        }
    }
}

/// `/api/v1/platform/apps/{app}/{holder}-grants`.
pub open spec fn grants_path(app_id: Seq<char>, holder: Holder) -> Seq<char> {
    "/api/v1/platform/apps/"@ + url_encoded(app_id) + "/"@ + holder_suffix(holder)
}

fn grants_path_of(app_id: &str, holder: Holder) -> (r: String)
    ensures
        r@ == grants_path(app_id@, holder),
{
    let enc = url_encode(app_id);
    let r = concat3("/api/v1/platform/apps/", enc.as_str(), "/");
    let r = crate::text::concat2(r.as_str(), holder.path_suffix());
    assert(r@ =~= grants_path(app_id@, holder));
    r
}

pub open spec fn grant_body(scope: Seq<char>, tenant_id: Option<&str>, user_id: Option<&str>, prompt_hash: Option<&str>) -> JsonValue {
    object_of(
        seq![text_member("scope"@, scope)]
            + opt_text_member("tenant_id"@, tenant_id)
            + opt_text_member("user_id"@, user_id)
            + opt_text_member("consent_prompt_hash"@, prompt_hash),
    )
}

/// What `grant_body` builds reads back field by field: each value the
/// arguments give is found under its own name, an optional one only when
/// it is set, and a list as the same items in the same order.
pub proof fn lemma_grant_body_reads_back(scope: Seq<char>, tenant_id: Option<&str>, user_id: Option<&str>, prompt_hash: Option<&str>)
    ensures
        crate::json::json_str_member(grant_body(scope, tenant_id, user_id, prompt_hash), "scope"@) == Some(scope),
        crate::decode::field_opt_str(grant_body(scope, tenant_id, user_id, prompt_hash), "tenant_id"@) == Some(crate::json::opt_str(tenant_id)),
        crate::decode::field_opt_str(grant_body(scope, tenant_id, user_id, prompt_hash), "user_id"@) == Some(crate::json::opt_str(user_id)),
        crate::decode::field_opt_str(grant_body(scope, tenant_id, user_id, prompt_hash), "consent_prompt_hash"@) == Some(crate::json::opt_str(prompt_hash)),
{
    assert(crate::json::json_str_member(grant_body(scope, tenant_id, user_id, prompt_hash), "scope"@) == Some(scope)) by {
        broadcast use crate::json::lemma_member_lookup_append, crate::json::lemma_member_lookup_opt;

        lemma_grant_body_keys();
        reveal_with_fuel(crate::json::member_lookup, 2);
    }
    assert(crate::decode::field_opt_str(grant_body(scope, tenant_id, user_id, prompt_hash), "tenant_id"@) == Some(crate::json::opt_str(tenant_id))) by {
        broadcast use crate::json::lemma_member_lookup_append, crate::json::lemma_member_lookup_opt;

        lemma_grant_body_keys();
        reveal_with_fuel(crate::json::member_lookup, 2);
    }
    assert(crate::decode::field_opt_str(grant_body(scope, tenant_id, user_id, prompt_hash), "user_id"@) == Some(crate::json::opt_str(user_id))) by {
        broadcast use crate::json::lemma_member_lookup_append, crate::json::lemma_member_lookup_opt;

        lemma_grant_body_keys();
        reveal_with_fuel(crate::json::member_lookup, 2);
    }
    assert(crate::decode::field_opt_str(grant_body(scope, tenant_id, user_id, prompt_hash), "consent_prompt_hash"@) == Some(crate::json::opt_str(prompt_hash))) by {
        broadcast use crate::json::lemma_member_lookup_append, crate::json::lemma_member_lookup_opt;

        lemma_grant_body_keys();
        reveal_with_fuel(crate::json::member_lookup, 2);
    }
}

/// The field names that `grant_body` uses, told apart.
proof fn lemma_grant_body_keys()
    ensures
        "consent_prompt_hash"@.len() == 19,
        "scope"@.len() == 5,
        "tenant_id"@.len() == 9,
        "user_id"@.len() == 7,
{
    reveal_strlit("consent_prompt_hash");
    reveal_strlit("scope");
    reveal_strlit("tenant_id");
    reveal_strlit("user_id");
}

// ---------------------------------------------------------------------------
// Reading responses
// ---------------------------------------------------------------------------

/// Whether `x` is what the object `v` reads as: the copy and its hash
/// required, each flag false when absent.
pub open spec fn is_consent_prompt_fields_of(v: JsonValue, x: ConsentPrompt) -> bool {
    &&& is_object(v)
    &&& json_str_member(v, "app_id"@) == Some(x.app_id@)
    &&& json_str_member(v, "scope"@) == Some(x.scope@)
    &&& json_str_member(v, "prompt_text"@) == Some(x.prompt_text@)
    &&& json_str_member(v, "prompt_hash"@) == Some(x.prompt_hash@)
    &&& field_bool_or_false(v, "is_destructive"@) == Some(x.is_destructive)
    &&& field_bool_or_false(v, "requires_mfa"@) == Some(x.requires_mfa)
    &&& field_bool_or_false(v, "app_may_request"@) == Some(x.app_may_request)
}

/// Whether the object `v` reads as a consent prompt.
pub open spec fn reads_as_consent_prompt_fields(v: JsonValue) -> bool {
    &&& is_object(v)
    &&& json_str_member(v, "app_id"@) is Some
    &&& json_str_member(v, "scope"@) is Some
    &&& json_str_member(v, "prompt_text"@) is Some
    &&& json_str_member(v, "prompt_hash"@) is Some
    &&& field_bool_or_false(v, "is_destructive"@) is Some
    &&& field_bool_or_false(v, "requires_mfa"@) is Some
    &&& field_bool_or_false(v, "app_may_request"@) is Some
}

/// The field names of a `ConsentPrompt`, in declaration order.
pub open spec fn consent_prompt_keys() -> Seq<Seq<char>> {
    seq!["app_id"@, "scope"@, "prompt_text"@, "prompt_hash"@, "is_destructive"@, "requires_mfa"@, "app_may_request"@]
}

/// Which fields of a `ConsentPrompt` may be left out.
pub open spec fn consent_prompt_defaults() -> Seq<bool> {
    seq![false, false, false, false, true, true, true]
}

/// Whether `x` is what the record document `v` (an object, or an array of
/// the fields in order) reads as.
pub open spec fn is_consent_prompt_of(v: JsonValue, x: ConsentPrompt) -> bool {
    record_of(v, consent_prompt_keys(), consent_prompt_defaults()) matches Some(o) && is_consent_prompt_fields_of(o, x)
}

/// Whether the record document `v` reads as a `ConsentPrompt`.
pub open spec fn reads_as_consent_prompt(v: JsonValue) -> bool {
    record_of(v, consent_prompt_keys(), consent_prompt_defaults()) matches Some(o) && reads_as_consent_prompt_fields(o)
}

/// The object that writes each field of a `ConsentPrompt` under its own name.
pub open spec fn consent_prompt_object(x: ConsentPrompt) -> JsonValue {
    JsonValue::Object(seq![
        ("app_id"@, JsonValue::Str(x.app_id@)),
        ("scope"@, JsonValue::Str(x.scope@)),
        ("prompt_text"@, JsonValue::Str(x.prompt_text@)),
        ("prompt_hash"@, JsonValue::Str(x.prompt_hash@)),
        ("is_destructive"@, JsonValue::Bool(x.is_destructive)),
        ("requires_mfa"@, JsonValue::Bool(x.requires_mfa)),
        ("app_may_request"@, JsonValue::Bool(x.app_may_request)),
    ])
}

/// A `ConsentPrompt` whose fields are written under their own names reads back as
/// the same `ConsentPrompt`.
pub proof fn lemma_consent_prompt_reads_back(x: ConsentPrompt)
    ensures
        is_consent_prompt_of(consent_prompt_object(x), x),
{
    let v = consent_prompt_object(x);
    assert(json_str_member(v, "app_id"@) == Some(x.app_id@)) by {
        lemma_consent_prompt_names();
        reveal_with_fuel(crate::json::member_lookup, 8);
    }
    assert(json_str_member(v, "scope"@) == Some(x.scope@)) by {
        lemma_consent_prompt_names();
        reveal_with_fuel(crate::json::member_lookup, 8);
    }
    assert(json_str_member(v, "prompt_text"@) == Some(x.prompt_text@)) by {
        lemma_consent_prompt_names();
        reveal_with_fuel(crate::json::member_lookup, 8);
    }
    assert(json_str_member(v, "prompt_hash"@) == Some(x.prompt_hash@)) by {
        lemma_consent_prompt_names();
        reveal_with_fuel(crate::json::member_lookup, 8);
    }
    assert(field_bool_or_false(v, "is_destructive"@) == Some(x.is_destructive)) by {
        lemma_consent_prompt_names();
        reveal_with_fuel(crate::json::member_lookup, 8);
    }
    assert(field_bool_or_false(v, "requires_mfa"@) == Some(x.requires_mfa)) by {
        lemma_consent_prompt_names();
        reveal_with_fuel(crate::json::member_lookup, 8);
    }
    assert(field_bool_or_false(v, "app_may_request"@) == Some(x.app_may_request)) by {
        lemma_consent_prompt_names();
        reveal_with_fuel(crate::json::member_lookup, 8);
    }
    assert(is_consent_prompt_fields_of(v, x));
}

/// The field names of a `ConsentPrompt`, told apart.
proof fn lemma_consent_prompt_names()
    ensures
        "app_id"@.len() == 6,
        "app_may_request"@.len() == 15,
        "is_destructive"@.len() == 14,
        "prompt_hash"@.len() == 11,
        "prompt_hash"@[7] == 'h',
        "prompt_text"@.len() == 11,
        "prompt_text"@[7] == 't',
        "requires_mfa"@.len() == 12,
        "scope"@.len() == 5,
{
    reveal_strlit("app_id");
    reveal_strlit("app_may_request");
    reveal_strlit("is_destructive");
    reveal_strlit("prompt_hash");
    reveal_strlit("prompt_text");
    reveal_strlit("requires_mfa");
    reveal_strlit("scope");
}

impl ConsentPrompt {
    /// Reads a `ConsentPrompt` out of a document: an object, or an array of the
    /// fields in declaration order.
    pub fn from_json(v: &Json) -> (r: Option<ConsentPrompt>)
        ensures
            r is Some <==> reads_as_consent_prompt(v@),
            r matches Some(x) ==> is_consent_prompt_of(v@, x),
    {
        let mut keys: Vec<&str> = Vec::new();
        let mut defaults: Vec<bool> = Vec::new();
        keys.push("app_id");
        defaults.push(false);
        keys.push("scope");
        defaults.push(false);
        keys.push("prompt_text");
        defaults.push(false);
        keys.push("prompt_hash");
        defaults.push(false);
        keys.push("is_destructive");
        defaults.push(true);
        keys.push("requires_mfa");
        defaults.push(true);
        keys.push("app_may_request");
        defaults.push(true);
        proof {
            assert(keys_view(keys@) =~= consent_prompt_keys());
            assert(defaults@ =~= consent_prompt_defaults());
        }
        match read_record(v, &keys, &defaults) {
            Some(doc) => Self::from_fields(&doc),
            None => None,
        }
    }

    /// Reads the record out of the object it stands for.
    fn from_fields(v: &Json) -> (r: Option<ConsentPrompt>)
        ensures
            r is Some <==> reads_as_consent_prompt_fields(v@),
            r matches Some(x) ==> is_consent_prompt_fields_of(v@, x),
    {
        if !v.is_object() {
            return None;
        }
        let app_id = match read_str(v, "app_id") {
            Some(y) => y,
            None => return None,
        };
        let scope = match read_str(v, "scope") {
            Some(y) => y,
            None => return None,
        };
        let prompt_text = match read_str(v, "prompt_text") {
            Some(y) => y,
            None => return None,
        };
        let prompt_hash = match read_str(v, "prompt_hash") {
            Some(y) => y,
            None => return None,
        };
        let is_destructive = match read_bool_or_false(v, "is_destructive") {
            Some(y) => y,
            None => return None,
        };
        let requires_mfa = match read_bool_or_false(v, "requires_mfa") {
            Some(y) => y,
            None => return None,
        };
        let app_may_request = match read_bool_or_false(v, "app_may_request") {
            Some(y) => y,
            None => return None,
        };
        Some(ConsentPrompt { app_id, scope, prompt_text, prompt_hash, is_destructive, requires_mfa, app_may_request })
    }
}
/// Whether `x` is what the object `v` reads as: the five identifying
/// fields required, the rest optional.
pub open spec fn is_grant_fields_of(v: JsonValue, x: Grant) -> bool {
    &&& is_object(v)
    &&& json_str_member(v, "tenant_id"@) == Some(x.tenant_id@)
    &&& json_str_member(v, "app_id"@) == Some(x.app_id@)
    &&& json_str_member(v, "scope"@) == Some(x.scope@)
    &&& json_str_member(v, "granted_at"@) == Some(x.granted_at@)
    &&& json_str_member(v, "source"@) == Some(x.source@)
    &&& field_opt_str(v, "granted_by"@) == Some(opt_string(x.granted_by))
    &&& field_opt_str(v, "user_id"@) == Some(opt_string(x.user_id))
    &&& field_opt_str(v, "revoked_at"@) == Some(opt_string(x.revoked_at))
}

/// Whether the object `v` reads as a grant.
pub open spec fn reads_as_grant_fields(v: JsonValue) -> bool {
    &&& is_object(v)
    &&& json_str_member(v, "tenant_id"@) is Some
    &&& json_str_member(v, "app_id"@) is Some
    &&& json_str_member(v, "scope"@) is Some
    &&& json_str_member(v, "granted_at"@) is Some
    &&& json_str_member(v, "source"@) is Some
    &&& field_opt_str(v, "granted_by"@) is Some
    &&& field_opt_str(v, "user_id"@) is Some
    &&& field_opt_str(v, "revoked_at"@) is Some
}

/// The field names of a `Grant`, in declaration order.
pub open spec fn grant_keys() -> Seq<Seq<char>> {
    seq!["tenant_id"@, "app_id"@, "scope"@, "granted_at"@, "source"@, "granted_by"@, "user_id"@, "revoked_at"@]
}

/// Which fields of a `Grant` may be left out.
pub open spec fn grant_defaults() -> Seq<bool> {
    seq![false, false, false, false, false, true, true, true]
}

/// Whether `x` is what the record document `v` (an object, or an array of
/// the fields in order) reads as.
pub open spec fn is_grant_of(v: JsonValue, x: Grant) -> bool {
    record_of(v, grant_keys(), grant_defaults()) matches Some(o) && is_grant_fields_of(o, x)
}

/// Whether the record document `v` reads as a `Grant`.
pub open spec fn reads_as_grant(v: JsonValue) -> bool {
    record_of(v, grant_keys(), grant_defaults()) matches Some(o) && reads_as_grant_fields(o)
}

/// The object that writes each field of a `Grant` under its own name.
pub open spec fn grant_object(x: Grant) -> JsonValue {
    JsonValue::Object(seq![
        ("tenant_id"@, JsonValue::Str(x.tenant_id@)),
        ("app_id"@, JsonValue::Str(x.app_id@)),
        ("scope"@, JsonValue::Str(x.scope@)),
        ("granted_at"@, JsonValue::Str(x.granted_at@)),
        ("source"@, JsonValue::Str(x.source@)),
        ("granted_by"@, crate::json::str_or_null(crate::json::opt_string(x.granted_by))),
        ("user_id"@, crate::json::str_or_null(crate::json::opt_string(x.user_id))),
        ("revoked_at"@, crate::json::str_or_null(crate::json::opt_string(x.revoked_at))),
    ])
}

/// A `Grant` whose fields are written under their own names reads back as
/// the same `Grant`.
pub proof fn lemma_grant_reads_back(x: Grant)
    ensures
        is_grant_of(grant_object(x), x),
{
    let v = grant_object(x);
    assert(json_str_member(v, "tenant_id"@) == Some(x.tenant_id@)) by {
        lemma_grant_names();
        reveal_with_fuel(crate::json::member_lookup, 9);
    }
    assert(json_str_member(v, "app_id"@) == Some(x.app_id@)) by {
        lemma_grant_names();
        reveal_with_fuel(crate::json::member_lookup, 9);
    }
    assert(json_str_member(v, "scope"@) == Some(x.scope@)) by {
        lemma_grant_names();
        reveal_with_fuel(crate::json::member_lookup, 9);
    }
    assert(json_str_member(v, "granted_at"@) == Some(x.granted_at@)) by {
        lemma_grant_names();
        reveal_with_fuel(crate::json::member_lookup, 9);
    }
    assert(json_str_member(v, "source"@) == Some(x.source@)) by {
        lemma_grant_names();
        reveal_with_fuel(crate::json::member_lookup, 9);
    }
    assert(field_opt_str(v, "granted_by"@) == Some(opt_string(x.granted_by))) by {
        lemma_grant_names();
        reveal_with_fuel(crate::json::member_lookup, 9);
    }
    assert(field_opt_str(v, "user_id"@) == Some(opt_string(x.user_id))) by {
        lemma_grant_names();
        reveal_with_fuel(crate::json::member_lookup, 9);
    }
    assert(field_opt_str(v, "revoked_at"@) == Some(opt_string(x.revoked_at))) by {
        lemma_grant_names();
        reveal_with_fuel(crate::json::member_lookup, 9);
    }
    assert(is_grant_fields_of(v, x));
}

/// The field names of a `Grant`, told apart.
proof fn lemma_grant_names()
    ensures
        "app_id"@.len() == 6,
        "app_id"@[0] == 'a',
        "granted_at"@.len() == 10,
        "granted_at"@[0] == 'g',
        "granted_at"@[8] == 'a',
        "granted_by"@.len() == 10,
        "granted_by"@[0] == 'g',
        "granted_by"@[8] == 'b',
        "revoked_at"@.len() == 10,
        "revoked_at"@[0] == 'r',
        "scope"@.len() == 5,
        "source"@.len() == 6,
        "source"@[0] == 's',
        "tenant_id"@.len() == 9,
        "user_id"@.len() == 7,
{
    reveal_strlit("app_id");
    reveal_strlit("granted_at");
    reveal_strlit("granted_by");
    reveal_strlit("revoked_at");
    reveal_strlit("scope");
    reveal_strlit("source");
    reveal_strlit("tenant_id");
    reveal_strlit("user_id");
}

impl Grant {
    /// Reads a `Grant` out of a document: an object, or an array of the
    /// fields in declaration order.
    pub fn from_json(v: &Json) -> (r: Option<Grant>)
        ensures
            r is Some <==> reads_as_grant(v@),
            r matches Some(x) ==> is_grant_of(v@, x),
    {
        let mut keys: Vec<&str> = Vec::new();
        let mut defaults: Vec<bool> = Vec::new();
        keys.push("tenant_id");
        defaults.push(false);
        keys.push("app_id");
        defaults.push(false);
        keys.push("scope");
        defaults.push(false);
        keys.push("granted_at");
        defaults.push(false);
        keys.push("source");
        defaults.push(false);
        keys.push("granted_by");
        defaults.push(true);
        keys.push("user_id");
        defaults.push(true);
        keys.push("revoked_at");
        defaults.push(true);
        proof {
            assert(keys_view(keys@) =~= grant_keys());
            assert(defaults@ =~= grant_defaults());
        }
        match read_record(v, &keys, &defaults) {
            Some(doc) => Self::from_fields(&doc),
            None => None,
        }
    }

    /// Reads the record out of the object it stands for.
    fn from_fields(v: &Json) -> (r: Option<Grant>)
        ensures
            r is Some <==> reads_as_grant_fields(v@),
            r matches Some(x) ==> is_grant_fields_of(v@, x),
    {
        if !v.is_object() {
            return None;
        }
        let tenant_id = match read_str(v, "tenant_id") {
            Some(y) => y,
            None => return None,
        };
        let app_id = match read_str(v, "app_id") {
            Some(y) => y,
            None => return None,
        };
        let scope = match read_str(v, "scope") {
            Some(y) => y,
            None => return None,
        };
        let granted_at = match read_str(v, "granted_at") {
            Some(y) => y,
            None => return None,
        };
        let source = match read_str(v, "source") {
            Some(y) => y,
            None => return None,
        };
        let granted_by = match read_opt_str(v, "granted_by") {
            Some(y) => y,
            None => return None,
        };
        let user_id = match read_opt_str(v, "user_id") {
            Some(y) => y,
            None => return None,
        };
        let revoked_at = match read_opt_str(v, "revoked_at") {
            Some(y) => y,
            None => return None,
        };
        Some(Grant { tenant_id, app_id, scope, granted_at, source, granted_by, user_id, revoked_at })
    }
}
/// The rows that read as a grant, in order.
pub open spec fn readable_grant_rows(rows: Seq<JsonValue>) -> Seq<JsonValue> {
    rows.filter(|x: JsonValue| reads_as_grant(x))
}

impl Grant {
    /// Reads every row that reads as a grant, in order, and skips the
    /// others.
    pub fn from_rows(rows: &Vec<Json>) -> (r: Vec<Grant>)
        ensures
            r@.len() == readable_grant_rows(jsons_view(rows@)).len(),
            forall|i: int|
                0 <= i < r@.len() ==> is_grant_of(readable_grant_rows(jsons_view(rows@))[i], #[trigger] r@[i]),
    {
        let ghost all = jsons_view(rows@);
        let mut out: Vec<Grant> = Vec::new();
        let mut i: usize = 0;
        proof {
            reveal(Seq::filter);
            assert(all.take(0) =~= Seq::<JsonValue>::empty());
        }
        while i < rows.len()
            invariant
                i <= rows.len(),
                all == jsons_view(rows@),
                out@.len() == readable_grant_rows(all.take(i as int)).len(),
                forall|k: int|
                    0 <= k < out@.len() ==> is_grant_of(readable_grant_rows(all.take(i as int))[k], #[trigger] out@[k]),
            decreases rows.len() - i,
        {
            proof {
                reveal(Seq::filter);
                assert(all.take(i as int + 1).drop_last() =~= all.take(i as int));
                assert(all.take(i as int + 1).last() == rows@[i as int]@);
            }
            match Grant::from_json(&rows[i]) {
                Some(x) => out.push(x),
                None => {},
            }
            i = i + 1;
        }
        proof {
            assert(all.take(rows@.len() as int) =~= all);
        }
        out
    }
}

impl ConsentService {
    /// List the active scope grants of an app, of one tenant when given.
    pub fn list_granted(&self, app_id: &str, tenant_id: Option<&str>, holder: Holder) -> (r: ApiRequest)
        ensures
            r@ == get_request(grants_path(app_id@, holder), opt_pair("tenant_id"@, opt_str(tenant_id))),
    {
        let mut q = Query::new();
        q.push_opt("tenant_id", tenant_id);
        assert(q@ =~= opt_pair("tenant_id"@, opt_str(tenant_id)));
        ApiRequest::get(grants_path_of(app_id, holder), q)
    }

    /// The grant rows of a list reply: the items of its `grants` array, or
    /// none.
    pub fn grant_rows(&self, response: &Json) -> (r: Vec<Json>)
        ensures
            jsons_view(r@) == array_rows(response@, "grants"@),
    {
        response.array_rows("grants")
    }

    /// The grants of a list reply: each row of its `grants` array that
    /// reads as a grant, in order; the other rows are skipped.
    pub fn granted_from_response(&self, response: &Json) -> (r: Vec<Grant>)
        ensures
            r@.len() == readable_grant_rows(array_rows(response@, "grants"@)).len(),
            forall|i: int|
                0 <= i < r@.len() ==> is_grant_of(readable_grant_rows(array_rows(response@, "grants"@))[i], #[trigger] r@[i]),
    {
        let rows = self.grant_rows(response);
        Grant::from_rows(&rows)
    }

    /// Fetch the consent prompt and its hash for a scope.
    pub fn describe(&self, app_id: &str, scope: &str) -> (r: ApiRequest)
        ensures
            r@ == get_request("/platform/consent-prompt"@, seq![("app_id"@, app_id@), ("scope"@, scope@)]),
    {
        let mut q = Query::new();
        q.push("app_id", app_id.to_owned());
        q.push("scope", scope.to_owned());
        assert(q@ =~= seq![("app_id"@, app_id@), ("scope"@, scope@)]);
        ApiRequest::get("/platform/consent-prompt".to_owned(), q)
    }

    /// Grant a scope; a user grant carries the hash of the prompt the user
    /// saw.
    pub fn grant(
        &self,
        app_id: &str,
        scope: &str,
        holder: Holder,
        tenant_id: Option<&str>,
        user_id: Option<&str>,
        prompt_hash: Option<&str>,
    ) -> (r: ApiRequest)
        ensures
            r@ == json_request(HttpMethod::Post, grants_path(app_id@, holder), grant_body(scope@, tenant_id, user_id, prompt_hash)),
    {
        let mut body = Members::new();
        body.put_str("scope", scope);
        body.put_opt_str("tenant_id", tenant_id);
        body.put_opt_str("user_id", user_id);
        body.put_opt_str("consent_prompt_hash", prompt_hash);
        assert(body@ =~= grant_body(scope@, tenant_id, user_id, prompt_hash)->Object_0);
        ApiRequest::post(grants_path_of(app_id, holder), body.into_json())
    }

    /// Revoke a scope (the server sets `revoked_at`).
    pub fn revoke(&self, app_id: &str, scope: &str, holder: Holder) -> (r: ApiRequest)
        ensures
            r@ == delete_request(grants_path(app_id@, holder) + "/"@ + url_encoded(scope@)),
    {
        let base = grants_path_of(app_id, holder);
        let enc = url_encode(scope);
        let path = concat3(base.as_str(), "/", enc.as_str());
        ApiRequest::delete(path)
    }
}

} // verus!
