//! Authentication: login and registration, token validation and refresh,
//! role assignment, and app-scoped tokens (mint, refresh, public keys).

use vstd::prelude::*;
use crate::decode::{keys_view, read_record, record_of};
use crate::http::{get_request, json_request, path_raw, ApiRequest, HttpMethod};
use crate::decode::{field_i64, field_opt_str, field_str_list, read_i64, read_opt_str, read_str};
use crate::json::{is_object, json_get, json_str_member, opt_string, object_of, opt_string_member, str_list_value, strings_view, text_member, Json, JsonValue, Members};

verus! {

/// Plans the calls of the auth service.
pub struct AuthService;

/// A role change for one user of one tenant: scopes to grant and scopes
/// to revoke, with an optional audit note.
#[derive(Debug, Clone)]
pub struct AssignRolesRequest {
    pub tenant_id: String,
    /// The user; it goes into the path, not the body.
    pub user_id: String,
    pub grant_scopes: Vec<String>,
    pub revoke_scopes: Vec<String>,
    pub note: Option<String>,
}

impl AssignRolesRequest {
    /// A request that changes nothing yet.
    pub fn new(tenant_id: &str, user_id: &str) -> (r: Self)
        ensures
            r.tenant_id@ == tenant_id@,
            r.user_id@ == user_id@,
            r.grant_scopes@.len() == 0,
            r.revoke_scopes@.len() == 0,
            r.note is None,
    {
        AssignRolesRequest {
            tenant_id: tenant_id.to_owned(),
            user_id: user_id.to_owned(),
            grant_scopes: Vec::new(),
            revoke_scopes: Vec::new(),
            note: None,
        }
    }

    /// The same request granting `grants`.
    pub fn with_grants(self, grants: Vec<String>) -> (r: Self)
        ensures
            r.grant_scopes@ == grants@,
            r.tenant_id == self.tenant_id,
            r.user_id == self.user_id,
            r.revoke_scopes@ == self.revoke_scopes@,
            r.note == self.note,
    {
        AssignRolesRequest { grant_scopes: grants, ..self }
    }

    /// The same request revoking `revokes`.
    pub fn with_revokes(self, revokes: Vec<String>) -> (r: Self)
        ensures
            r.revoke_scopes@ == revokes@,
            r.tenant_id == self.tenant_id,
            r.user_id == self.user_id,
            r.grant_scopes@ == self.grant_scopes@,
            r.note == self.note,
    {
        AssignRolesRequest { revoke_scopes: revokes, ..self }
    }

    /// The same request with an audit note.
    pub fn with_note(self, note: &str) -> (r: Self)
        ensures
            r.note matches Some(n) && n@ == note@,
            r.tenant_id == self.tenant_id,
            r.user_id == self.user_id,
            r.grant_scopes@ == self.grant_scopes@,
            r.revoke_scopes@ == self.revoke_scopes@,
    {
        AssignRolesRequest { note: Some(note.to_owned()), ..self }
    }
}

/// Request body of [`AuthService::mint_app_token`].
#[derive(Debug, Clone)]
pub struct MintAppTokenRequest {
    pub app_check_token: String,
    pub firebase_install_id: Option<String>,
}

impl MintAppTokenRequest {
    /// A mint request for an App Check token.
    pub fn new(app_check_token: &str) -> (r: Self)
        ensures
            r.app_check_token@ == app_check_token@,
            r.firebase_install_id is None,
    {
        MintAppTokenRequest { app_check_token: app_check_token.to_owned(), firebase_install_id: None }
    }

    /// The same request bound to a Firebase installation.
    pub fn with_firebase_install_id(self, id: &str) -> (r: Self)
        ensures
            r.app_check_token == self.app_check_token,
            r.firebase_install_id matches Some(i) && i@ == id@,
    {
        MintAppTokenRequest { app_check_token: self.app_check_token, firebase_install_id: Some(id.to_owned()) }
    }
}

/// Request body of [`AuthService::refresh_app_token`].
#[derive(Debug, Clone)]
pub struct RefreshAppTokenRequest {
    pub refresh_token: String,
}

impl RefreshAppTokenRequest {
    /// A refresh request.
    pub fn new(refresh_token: &str) -> (r: Self)
        ensures
            r.refresh_token@ == refresh_token@,
    {
        RefreshAppTokenRequest { refresh_token: refresh_token.to_owned() }
    }
}

/// An issued pair of app tokens.
#[derive(Debug, Clone)]
pub struct AppTokenResponse {
    pub access_token: String,
    pub refresh_token: String,
    pub expires_in: i64,
    pub token_type: String,
}

/// One public key of an app's key set.
#[derive(Debug, Clone)]
pub struct AppJwk {
    pub kty: String,
    pub crv: String,
    pub x: String,
    pub alg: String,
    /// The key's `use`.
    pub use_: String,
    pub kid: String,
    pub status: Option<String>,
}

/// An app's public key set.
#[derive(Debug, Clone)]
pub struct AppJwksResponse {
    pub keys: Vec<AppJwk>,
}

/// The body of a role change: the tenant, both scope lists, and the note
/// when there is one (the user is in the path).
pub open spec fn assign_roles_body(req: AssignRolesRequest) -> JsonValue {
    object_of(
        seq![
            text_member("tenant_id"@, req.tenant_id@),
            ("grant_scopes"@, str_list_value(strings_view(req.grant_scopes@))),
            ("revoke_scopes"@, str_list_value(strings_view(req.revoke_scopes@))),
        ] + opt_string_member("note"@, req.note),
    )
}

/// A role change's body reads back as the request: the tenant under
/// `tenant_id`, exactly the scopes to grant, in order, under `grant_scopes`,
/// exactly the scopes to revoke under `revoke_scopes`, the note under
/// `note` (absent when there is none), and no user, which the path carries.
pub proof fn lemma_role_change_body_reads_back(req: AssignRolesRequest)
    ensures
        json_str_member(assign_roles_body(req), "tenant_id"@) == Some(req.tenant_id@),
        field_str_list(assign_roles_body(req), "grant_scopes"@) == Some(strings_view(req.grant_scopes@)),
        field_str_list(assign_roles_body(req), "revoke_scopes"@) == Some(strings_view(req.revoke_scopes@)),
        field_opt_str(assign_roles_body(req), "note"@) == Some(opt_string(req.note)),
        json_get(assign_roles_body(req), "user_id"@) is None,
{
    broadcast use crate::json::lemma_member_lookup_append, crate::json::lemma_member_lookup_opt;

    reveal_strlit("tenant_id");
    reveal_strlit("grant_scopes");
    reveal_strlit("revoke_scopes");
    reveal_strlit("note");
    reveal_strlit("user_id");
    assert("tenant_id"@.len() == 9 && "tenant_id"@[0] == 't');
    assert("grant_scopes"@.len() == 12 && "grant_scopes"@[0] == 'g');
    assert("revoke_scopes"@.len() == 13);
    assert("note"@.len() == 4);
    assert("user_id"@.len() == 7);
    reveal_with_fuel(crate::json::member_lookup, 4);
    crate::decode::lemma_str_list_reads_back(strings_view(req.grant_scopes@));
    crate::decode::lemma_str_list_reads_back(strings_view(req.revoke_scopes@));
}

/// `/platform/users/{user}/roles/assign`, the user as given.
pub open spec fn assign_roles_path(user_id: Seq<char>) -> Seq<char> {
    "/platform/users/"@ + user_id + "/roles/assign"@
}

// ---------------------------------------------------------------------------
// Reading responses
// ---------------------------------------------------------------------------

/// Whether `x` is what the object `v` reads as: all four fields
/// required.
pub open spec fn is_app_token_response_fields_of(v: JsonValue, x: AppTokenResponse) -> bool {
    &&& is_object(v)
    &&& json_str_member(v, "access_token"@) == Some(x.access_token@)
    &&& json_str_member(v, "refresh_token"@) == Some(x.refresh_token@)
    &&& field_i64(v, "expires_in"@) == Some(x.expires_in)
    &&& json_str_member(v, "token_type"@) == Some(x.token_type@)
}

/// Whether the object `v` reads as a pair of app tokens.
pub open spec fn reads_as_app_token_response_fields(v: JsonValue) -> bool {
    &&& is_object(v)
    &&& json_str_member(v, "access_token"@) is Some
    &&& json_str_member(v, "refresh_token"@) is Some
    &&& field_i64(v, "expires_in"@) is Some
    &&& json_str_member(v, "token_type"@) is Some
}

/// The field names of an `AppTokenResponse`, in declaration order.
pub open spec fn app_token_response_keys() -> Seq<Seq<char>> {
    seq!["access_token"@, "refresh_token"@, "expires_in"@, "token_type"@]
}

/// Which fields of an `AppTokenResponse` may be left out.
pub open spec fn app_token_response_defaults() -> Seq<bool> {
    seq![false, false, false, false]
}

/// Whether `x` is what the record document `v` (an object, or an array of
/// the fields in order) reads as.
pub open spec fn is_app_token_response_of(v: JsonValue, x: AppTokenResponse) -> bool {
    record_of(v, app_token_response_keys(), app_token_response_defaults()) matches Some(o) && is_app_token_response_fields_of(o, x)
}

/// Whether the record document `v` reads as an `AppTokenResponse`.
pub open spec fn reads_as_app_token_response(v: JsonValue) -> bool {
    record_of(v, app_token_response_keys(), app_token_response_defaults()) matches Some(o) && reads_as_app_token_response_fields(o)
}

/// The object that writes each field of an `AppTokenResponse` under its own name.
pub open spec fn app_token_response_object(x: AppTokenResponse) -> JsonValue {
    JsonValue::Object(seq![
        ("access_token"@, JsonValue::Str(x.access_token@)),
        ("refresh_token"@, JsonValue::Str(x.refresh_token@)),
        ("expires_in"@, crate::json::int_value(x.expires_in)),
        ("token_type"@, JsonValue::Str(x.token_type@)),
    ])
}

/// An `AppTokenResponse` whose fields are written under their own names reads back as
/// the same `AppTokenResponse`.
pub proof fn lemma_app_token_response_reads_back(x: AppTokenResponse)
    ensures
        is_app_token_response_of(app_token_response_object(x), x),
{
    let v = app_token_response_object(x);
    assert(json_str_member(v, "access_token"@) == Some(x.access_token@)) by {
        lemma_app_token_response_names();
        reveal_with_fuel(crate::json::member_lookup, 5);
    }
    assert(json_str_member(v, "refresh_token"@) == Some(x.refresh_token@)) by {
        lemma_app_token_response_names();
        reveal_with_fuel(crate::json::member_lookup, 5);
    }
    assert(field_i64(v, "expires_in"@) == Some(x.expires_in)) by {
        lemma_app_token_response_names();
        reveal_with_fuel(crate::json::member_lookup, 5);
        crate::decode::lemma_int_value_reads_back(x.expires_in);
    }
    assert(json_str_member(v, "token_type"@) == Some(x.token_type@)) by {
        lemma_app_token_response_names();
        reveal_with_fuel(crate::json::member_lookup, 5);
    }
    assert(is_app_token_response_fields_of(v, x));
}

/// The field names of an `AppTokenResponse`, told apart.
proof fn lemma_app_token_response_names()
    ensures
        "access_token"@.len() == 12,
        "expires_in"@.len() == 10,
        "expires_in"@[0] == 'e',
        "refresh_token"@.len() == 13,
        "token_type"@.len() == 10,
        "token_type"@[0] == 't',
{
    reveal_strlit("access_token");
    reveal_strlit("expires_in");
    reveal_strlit("refresh_token");
    reveal_strlit("token_type");
}

impl AppTokenResponse {
    /// Reads an `AppTokenResponse` out of a document: an object, or an array of the
    /// fields in declaration order.
    pub fn from_json(v: &Json) -> (r: Option<AppTokenResponse>)
        ensures
            r is Some <==> reads_as_app_token_response(v@),
            r matches Some(x) ==> is_app_token_response_of(v@, x),
    {
        let mut keys: Vec<&str> = Vec::new();
        let mut defaults: Vec<bool> = Vec::new();
        keys.push("access_token");
        defaults.push(false);
        keys.push("refresh_token");
        defaults.push(false);
        keys.push("expires_in");
        defaults.push(false);
        keys.push("token_type");
        defaults.push(false);
        proof {
            assert(keys_view(keys@) =~= app_token_response_keys());
            assert(defaults@ =~= app_token_response_defaults());
        }
        match read_record(v, &keys, &defaults) {
            Some(doc) => Self::from_fields(&doc),
            None => None,
        }
    }

    /// Reads the record out of the object it stands for.
    fn from_fields(v: &Json) -> (r: Option<AppTokenResponse>)
        ensures
            r is Some <==> reads_as_app_token_response_fields(v@),
            r matches Some(x) ==> is_app_token_response_fields_of(v@, x),
    {
        if !v.is_object() {
            return None;
        }
        let access_token = match read_str(v, "access_token") {
            Some(y) => y,
            None => return None,
        };
        let refresh_token = match read_str(v, "refresh_token") {
            Some(y) => y,
            None => return None,
        };
        let expires_in = match read_i64(v, "expires_in") {
            Some(y) => y,
            None => return None,
        };
        let token_type = match read_str(v, "token_type") {
            Some(y) => y,
            None => return None,
        };
        Some(AppTokenResponse { access_token, refresh_token, expires_in, token_type })
    }
}
/// Whether `x` is what the object `v` reads as: the key fields
/// required (its use under `use`), the status optional.
pub open spec fn is_app_jwk_fields_of(v: JsonValue, x: AppJwk) -> bool {
    &&& is_object(v)
    &&& json_str_member(v, "kty"@) == Some(x.kty@)
    &&& json_str_member(v, "crv"@) == Some(x.crv@)
    &&& json_str_member(v, "x"@) == Some(x.x@)
    &&& json_str_member(v, "alg"@) == Some(x.alg@)
    &&& json_str_member(v, "use"@) == Some(x.use_@)
    &&& json_str_member(v, "kid"@) == Some(x.kid@)
    &&& field_opt_str(v, "status"@) == Some(opt_string(x.status))
}

/// Whether the object `v` reads as a public key.
pub open spec fn reads_as_app_jwk_fields(v: JsonValue) -> bool {
    &&& is_object(v)
    &&& json_str_member(v, "kty"@) is Some
    &&& json_str_member(v, "crv"@) is Some
    &&& json_str_member(v, "x"@) is Some
    &&& json_str_member(v, "alg"@) is Some
    &&& json_str_member(v, "use"@) is Some
    &&& json_str_member(v, "kid"@) is Some
    &&& field_opt_str(v, "status"@) is Some
}

/// The field names of an `AppJwk`, in declaration order.
pub open spec fn app_jwk_keys() -> Seq<Seq<char>> {
    seq!["kty"@, "crv"@, "x"@, "alg"@, "use"@, "kid"@, "status"@]
}

/// Which fields of an `AppJwk` may be left out.
pub open spec fn app_jwk_defaults() -> Seq<bool> {
    seq![false, false, false, false, false, false, true]
}

/// Whether `x` is what the record document `v` (an object, or an array of
/// the fields in order) reads as.
pub open spec fn is_app_jwk_of(v: JsonValue, x: AppJwk) -> bool {
    record_of(v, app_jwk_keys(), app_jwk_defaults()) matches Some(o) && is_app_jwk_fields_of(o, x)
}

/// Whether the record document `v` reads as an `AppJwk`.
pub open spec fn reads_as_app_jwk(v: JsonValue) -> bool {
    record_of(v, app_jwk_keys(), app_jwk_defaults()) matches Some(o) && reads_as_app_jwk_fields(o)
}

/// The object that writes each field of an `AppJwk` under its own name.
pub open spec fn app_jwk_object(x: AppJwk) -> JsonValue {
    JsonValue::Object(seq![
        ("kty"@, JsonValue::Str(x.kty@)),
        ("crv"@, JsonValue::Str(x.crv@)),
        ("x"@, JsonValue::Str(x.x@)),
        ("alg"@, JsonValue::Str(x.alg@)),
        ("use"@, JsonValue::Str(x.use_@)),
        ("kid"@, JsonValue::Str(x.kid@)),
        ("status"@, crate::json::str_or_null(crate::json::opt_string(x.status))),
    ])
}

/// An `AppJwk` whose fields are written under their own names reads back as
/// the same `AppJwk`.
pub proof fn lemma_app_jwk_reads_back(x: AppJwk)
    ensures
        is_app_jwk_of(app_jwk_object(x), x),
{
    let v = app_jwk_object(x);
    assert(json_str_member(v, "kty"@) == Some(x.kty@)) by {
        lemma_app_jwk_names();
        reveal_with_fuel(crate::json::member_lookup, 8);
    }
    assert(json_str_member(v, "crv"@) == Some(x.crv@)) by {
        lemma_app_jwk_names();
        reveal_with_fuel(crate::json::member_lookup, 8);
    }
    assert(json_str_member(v, "x"@) == Some(x.x@)) by {
        lemma_app_jwk_names();
        reveal_with_fuel(crate::json::member_lookup, 8);
    }
    assert(json_str_member(v, "alg"@) == Some(x.alg@)) by {
        lemma_app_jwk_names();
        reveal_with_fuel(crate::json::member_lookup, 8);
    }
    assert(json_str_member(v, "use"@) == Some(x.use_@)) by {
        lemma_app_jwk_names();
        reveal_with_fuel(crate::json::member_lookup, 8);
    }
    assert(json_str_member(v, "kid"@) == Some(x.kid@)) by {
        lemma_app_jwk_names();
        reveal_with_fuel(crate::json::member_lookup, 8);
    }
    assert(field_opt_str(v, "status"@) == Some(opt_string(x.status))) by {
        lemma_app_jwk_names();
        reveal_with_fuel(crate::json::member_lookup, 8);
    }
    assert(is_app_jwk_fields_of(v, x));
}

/// The field names of an `AppJwk`, told apart.
proof fn lemma_app_jwk_names()
    ensures
        "alg"@.len() == 3,
        "alg"@[0] == 'a',
        "crv"@.len() == 3,
        "crv"@[0] == 'c',
        "kid"@.len() == 3,
        "kid"@[0] == 'k',
        "kid"@[1] == 'i',
        "kty"@.len() == 3,
        "kty"@[0] == 'k',
        "kty"@[1] == 't',
        "status"@.len() == 6,
        "use"@.len() == 3,
        "use"@[0] == 'u',
        "x"@.len() == 1,
{
    reveal_strlit("alg");
    reveal_strlit("crv");
    reveal_strlit("kid");
    reveal_strlit("kty");
    reveal_strlit("status");
    reveal_strlit("use");
    reveal_strlit("x");
}

/// Whether `l` is what the list document `x` reads as, item by item.
pub open spec fn is_app_jwk_items_of(x: JsonValue, l: Seq<AppJwk>) -> bool {
    &&& x is Array
    &&& l.len() == x->Array_0.len()
    &&& forall|i: int| 0 <= i < l.len() ==> is_app_jwk_of(x->Array_0[i], #[trigger] l[i])
}

/// Whether `x` is a list whose every item reads as one.
pub open spec fn reads_as_app_jwk_items(x: JsonValue) -> bool {
    &&& x is Array
    &&& forall|i: int| 0 <= i < x->Array_0.len() ==> reads_as_app_jwk(#[trigger] x->Array_0[i])
}

impl AppJwk {
    /// Reads an `AppJwk` out of a document: an object, or an array of the
    /// fields in declaration order.
    pub fn from_json(v: &Json) -> (r: Option<AppJwk>)
        ensures
            r is Some <==> reads_as_app_jwk(v@),
            r matches Some(x) ==> is_app_jwk_of(v@, x),
    {
        let mut keys: Vec<&str> = Vec::new();
        let mut defaults: Vec<bool> = Vec::new();
        keys.push("kty");
        defaults.push(false);
        keys.push("crv");
        defaults.push(false);
        keys.push("x");
        defaults.push(false);
        keys.push("alg");
        defaults.push(false);
        keys.push("use");
        defaults.push(false);
        keys.push("kid");
        defaults.push(false);
        keys.push("status");
        defaults.push(true);
        proof {
            assert(keys_view(keys@) =~= app_jwk_keys());
            assert(defaults@ =~= app_jwk_defaults());
        }
        match read_record(v, &keys, &defaults) {
            Some(doc) => Self::from_fields(&doc),
            None => None,
        }
    }

    /// Reads the record out of the object it stands for.
    fn from_fields(v: &Json) -> (r: Option<AppJwk>)
        ensures
            r is Some <==> reads_as_app_jwk_fields(v@),
            r matches Some(x) ==> is_app_jwk_fields_of(v@, x),
    {
        if !v.is_object() {
            return None;
        }
        let kty = match read_str(v, "kty") {
            Some(y) => y,
            None => return None,
        };
        let crv = match read_str(v, "crv") {
            Some(y) => y,
            None => return None,
        };
        let x = match read_str(v, "x") {
            Some(y) => y,
            None => return None,
        };
        let alg = match read_str(v, "alg") {
            Some(y) => y,
            None => return None,
        };
        let use_ = match read_str(v, "use") {
            Some(y) => y,
            None => return None,
        };
        let kid = match read_str(v, "kid") {
            Some(y) => y,
            None => return None,
        };
        let status = match read_opt_str(v, "status") {
            Some(y) => y,
            None => return None,
        };
        Some(AppJwk { kty, crv, x, alg, use_, kid, status })
    }

    /// Reads a list of public keys: an array whose every item reads as one.
    pub fn list_from_json(v: &Json) -> (r: Option<Vec<AppJwk>>)
        ensures
            r is Some <==> reads_as_app_jwk_items(v@),
            r matches Some(l) ==> is_app_jwk_items_of(v@, l@),
    {
        match v {
            Json::Array(items) => {
                let ghost whole = v@;
                let mut out: Vec<AppJwk> = Vec::new();
                let mut i: usize = 0;
                while i < items.len()
                    invariant
                        i <= items.len(),
                        whole == v@,
                        whole == crate::json::json_view(Json::Array(*items)),
                        out@.len() == i,
                        forall|k: int| 0 <= k < i ==> is_app_jwk_of(whole->Array_0[k], #[trigger] out@[k]),
                    decreases items.len() - i,
                {
                    assert(whole->Array_0[i as int] == items@[i as int]@);
                    match AppJwk::from_json(&items[i]) {
                        Some(a) => out.push(a),
                        None => return None,
                    }
                    i = i + 1;
                }
                assert forall|k: int| 0 <= k < whole->Array_0.len() implies reads_as_app_jwk(
                    #[trigger] whole->Array_0[k],
                ) by {
                    assert(is_app_jwk_of(whole->Array_0[k], out@[k]));
                }
                Some(out)
            },
            _ => None,
        }
    }
}
/// Whether `x` is what the object `v` reads as: the key list required.
pub open spec fn is_app_jwks_response_fields_of(v: JsonValue, x: AppJwksResponse) -> bool {
    &&& is_object(v)
    &&& json_get(v, "keys"@) matches Some(y) && is_app_jwk_items_of(y, x.keys@)
}

/// Whether the object `v` reads as a key set.
pub open spec fn reads_as_app_jwks_response_fields(v: JsonValue) -> bool {
    &&& is_object(v)
    &&& json_get(v, "keys"@) matches Some(y) && reads_as_app_jwk_items(y)
}

/// The field names of an `AppJwksResponse`, in declaration order.
pub open spec fn app_jwks_response_keys() -> Seq<Seq<char>> {
    seq!["keys"@]
}

/// Which fields of an `AppJwksResponse` may be left out.
pub open spec fn app_jwks_response_defaults() -> Seq<bool> {
    seq![false]
}

/// Whether `x` is what the record document `v` (an object, or an array of
/// the fields in order) reads as.
pub open spec fn is_app_jwks_response_of(v: JsonValue, x: AppJwksResponse) -> bool {
    record_of(v, app_jwks_response_keys(), app_jwks_response_defaults()) matches Some(o) && is_app_jwks_response_fields_of(o, x)
}

/// Whether the record document `v` reads as an `AppJwksResponse`.
pub open spec fn reads_as_app_jwks_response(v: JsonValue) -> bool {
    record_of(v, app_jwks_response_keys(), app_jwks_response_defaults()) matches Some(o) && reads_as_app_jwks_response_fields(o)
}

impl AppJwksResponse {
    /// Reads an `AppJwksResponse` out of a document: an object, or an array of the
    /// fields in declaration order.
    pub fn from_json(v: &Json) -> (r: Option<AppJwksResponse>)
        ensures
            r is Some <==> reads_as_app_jwks_response(v@),
            r matches Some(x) ==> is_app_jwks_response_of(v@, x),
    {
        let mut keys: Vec<&str> = Vec::new();
        let mut defaults: Vec<bool> = Vec::new();
        keys.push("keys");
        defaults.push(false);
        proof {
            assert(keys_view(keys@) =~= app_jwks_response_keys());
            assert(defaults@ =~= app_jwks_response_defaults());
        }
        match read_record(v, &keys, &defaults) {
            Some(doc) => Self::from_fields(&doc),
            None => None,
        }
    }

    /// Reads the record out of the object it stands for.
    fn from_fields(v: &Json) -> (r: Option<AppJwksResponse>)
        ensures
            r is Some <==> reads_as_app_jwks_response_fields(v@),
            r matches Some(x) ==> is_app_jwks_response_fields_of(v@, x),
    {
        if !v.is_object() {
            return None;
        }
        let keys = match v.get("keys") {
            Some(y) => match AppJwk::list_from_json(y) {
                Some(l) => l,
                None => return None,
            },
            None => return None,
        };
        Some(AppJwksResponse { keys })
    }
}
/// The body that [`AuthService::refresh_app_token`] sends.
pub open spec fn refresh_app_token_body(req: RefreshAppTokenRequest) -> JsonValue {
    object_of(seq![text_member("refresh_token"@, req.refresh_token@)])
}

/// What `refresh_app_token_body` builds reads back field by field: each value the
/// arguments give is found under its own name, an optional one only when
/// it is set, and a list as the same items in the same order.
pub proof fn lemma_refresh_app_token_body_reads_back(req: RefreshAppTokenRequest)
    ensures
        crate::json::json_str_member(refresh_app_token_body(req), "refresh_token"@) == Some(req.refresh_token@),
{
    assert(crate::json::json_str_member(refresh_app_token_body(req), "refresh_token"@) == Some(req.refresh_token@)) by {
        broadcast use crate::json::lemma_member_lookup_append, crate::json::lemma_member_lookup_opt;

        lemma_refresh_app_token_body_keys();
        reveal_with_fuel(crate::json::member_lookup, 2);
    }
}

/// The field names that `refresh_app_token_body` uses, told apart.
proof fn lemma_refresh_app_token_body_keys()
    ensures
        "refresh_token"@.len() == 13,
{
    reveal_strlit("refresh_token");
}

/// The body that [`AuthService::mint_app_token`] sends.
pub open spec fn mint_app_token_body(req: MintAppTokenRequest) -> JsonValue {
    object_of(
        seq![text_member("app_check_token"@, req.app_check_token@)]
            + opt_string_member("firebase_install_id"@, req.firebase_install_id),
    )
}

/// What `mint_app_token_body` builds reads back field by field: each value the
/// arguments give is found under its own name, an optional one only when
/// it is set, and a list as the same items in the same order.
pub proof fn lemma_mint_app_token_body_reads_back(req: MintAppTokenRequest)
    ensures
        crate::json::json_str_member(mint_app_token_body(req), "app_check_token"@) == Some(req.app_check_token@),
        crate::decode::field_opt_str(mint_app_token_body(req), "firebase_install_id"@) == Some(crate::json::opt_string(req.firebase_install_id)),
{
    assert(crate::json::json_str_member(mint_app_token_body(req), "app_check_token"@) == Some(req.app_check_token@)) by {
        broadcast use crate::json::lemma_member_lookup_append, crate::json::lemma_member_lookup_opt;

        lemma_mint_app_token_body_keys();
        reveal_with_fuel(crate::json::member_lookup, 2);
    }
    assert(crate::decode::field_opt_str(mint_app_token_body(req), "firebase_install_id"@) == Some(crate::json::opt_string(req.firebase_install_id))) by {
        broadcast use crate::json::lemma_member_lookup_append, crate::json::lemma_member_lookup_opt;

        lemma_mint_app_token_body_keys();
        reveal_with_fuel(crate::json::member_lookup, 2);
    }
}

/// The field names that `mint_app_token_body` uses, told apart.
proof fn lemma_mint_app_token_body_keys()
    ensures
        "app_check_token"@.len() == 15,
        "firebase_install_id"@.len() == 19,
{
    reveal_strlit("app_check_token");
    reveal_strlit("firebase_install_id");
}

/// The body that [`AuthService::revoke_roles`] sends.
pub open spec fn revoke_roles_body(tenant_id: &str, scopes: Vec<String>, note: Option<String>) -> JsonValue {
    object_of(
        seq![
            text_member("tenant_id"@, tenant_id@),
            ("grant_scopes"@, str_list_value(Seq::empty())),
            ("revoke_scopes"@, str_list_value(strings_view(scopes@))),
        ] + opt_string_member("note"@, note),
    )
}

/// What `revoke_roles_body` builds reads back field by field: each value the
/// arguments give is found under its own name, an optional one only when
/// it is set, and a list as the same items in the same order.
pub proof fn lemma_revoke_roles_body_reads_back(tenant_id: &str, scopes: Vec<String>, note: Option<String>)
    ensures
        crate::json::json_str_member(revoke_roles_body(tenant_id, scopes, note), "tenant_id"@) == Some(tenant_id@),
        crate::decode::field_opt_str(revoke_roles_body(tenant_id, scopes, note), "note"@) == Some(crate::json::opt_string(note)),
        crate::decode::field_str_list(revoke_roles_body(tenant_id, scopes, note), "revoke_scopes"@) == Some(strings_view(scopes@)),
{
    assert(crate::json::json_str_member(revoke_roles_body(tenant_id, scopes, note), "tenant_id"@) == Some(tenant_id@)) by {
        broadcast use crate::json::lemma_member_lookup_append, crate::json::lemma_member_lookup_opt;

        lemma_revoke_roles_body_keys();
        reveal_with_fuel(crate::json::member_lookup, 4);
    }
    assert(crate::decode::field_opt_str(revoke_roles_body(tenant_id, scopes, note), "note"@) == Some(crate::json::opt_string(note))) by {
        broadcast use crate::json::lemma_member_lookup_append, crate::json::lemma_member_lookup_opt;

        lemma_revoke_roles_body_keys();
        reveal_with_fuel(crate::json::member_lookup, 4);
    }
    assert(crate::decode::field_str_list(revoke_roles_body(tenant_id, scopes, note), "revoke_scopes"@) == Some(strings_view(scopes@))) by {
        broadcast use crate::json::lemma_member_lookup_append, crate::json::lemma_member_lookup_opt;

        lemma_revoke_roles_body_keys();
        reveal_with_fuel(crate::json::member_lookup, 4);
        crate::decode::lemma_str_list_reads_back(strings_view(scopes@));
    }
}

/// The field names that `revoke_roles_body` uses, told apart.
proof fn lemma_revoke_roles_body_keys()
    ensures
        "grant_scopes"@.len() == 12,
        "note"@.len() == 4,
        "revoke_scopes"@.len() == 13,
        "tenant_id"@.len() == 9,
{
    reveal_strlit("grant_scopes");
    reveal_strlit("note");
    reveal_strlit("revoke_scopes");
    reveal_strlit("tenant_id");
}

/// The body that [`AuthService::refresh`] sends.
pub open spec fn refresh_body(refresh_token: &str) -> JsonValue {
    object_of(seq![text_member("refresh_token"@, refresh_token@)])
}

/// What `refresh_body` builds reads back field by field: each value the
/// arguments give is found under its own name, an optional one only when
/// it is set, and a list as the same items in the same order.
pub proof fn lemma_refresh_body_reads_back(refresh_token: &str)
    ensures
        crate::json::json_str_member(refresh_body(refresh_token), "refresh_token"@) == Some(refresh_token@),
{
    assert(crate::json::json_str_member(refresh_body(refresh_token), "refresh_token"@) == Some(refresh_token@)) by {
        broadcast use crate::json::lemma_member_lookup_append, crate::json::lemma_member_lookup_opt;

        lemma_refresh_body_keys();
        reveal_with_fuel(crate::json::member_lookup, 2);
    }
}

/// The field names that `refresh_body` uses, told apart.
proof fn lemma_refresh_body_keys()
    ensures
        "refresh_token"@.len() == 13,
{
    reveal_strlit("refresh_token");
}

/// The body that [`AuthService::validate`] sends.
pub open spec fn validate_body(token: &str) -> JsonValue {
    object_of(seq![text_member("token"@, token@)])
}

/// What `validate_body` builds reads back field by field: each value the
/// arguments give is found under its own name, an optional one only when
/// it is set, and a list as the same items in the same order.
pub proof fn lemma_validate_body_reads_back(token: &str)
    ensures
        crate::json::json_str_member(validate_body(token), "token"@) == Some(token@),
{
    assert(crate::json::json_str_member(validate_body(token), "token"@) == Some(token@)) by {
        broadcast use crate::json::lemma_member_lookup_append, crate::json::lemma_member_lookup_opt;

        lemma_validate_body_keys();
        reveal_with_fuel(crate::json::member_lookup, 2);
    }
}

/// The field names that `validate_body` uses, told apart.
proof fn lemma_validate_body_keys()
    ensures
        "token"@.len() == 5,
{
    reveal_strlit("token");
}

/// The body that [`AuthService::register`] sends.
pub open spec fn register_body(email: &str, password: &str, name: &str) -> JsonValue {
    object_of(seq![
        text_member("email"@, email@),
        text_member("password"@, password@),
        text_member("name"@, name@),
    ])
}

/// What `register_body` builds reads back field by field: each value the
/// arguments give is found under its own name, an optional one only when
/// it is set, and a list as the same items in the same order.
pub proof fn lemma_register_body_reads_back(email: &str, password: &str, name: &str)
    ensures
        crate::json::json_str_member(register_body(email, password, name), "email"@) == Some(email@),
        crate::json::json_str_member(register_body(email, password, name), "password"@) == Some(password@),
        crate::json::json_str_member(register_body(email, password, name), "name"@) == Some(name@),
{
    assert(crate::json::json_str_member(register_body(email, password, name), "email"@) == Some(email@)) by {
        broadcast use crate::json::lemma_member_lookup_append, crate::json::lemma_member_lookup_opt;

        lemma_register_body_keys();
        reveal_with_fuel(crate::json::member_lookup, 4);
    }
    assert(crate::json::json_str_member(register_body(email, password, name), "password"@) == Some(password@)) by {
        broadcast use crate::json::lemma_member_lookup_append, crate::json::lemma_member_lookup_opt;

        lemma_register_body_keys();
        reveal_with_fuel(crate::json::member_lookup, 4);
    }
    assert(crate::json::json_str_member(register_body(email, password, name), "name"@) == Some(name@)) by {
        broadcast use crate::json::lemma_member_lookup_append, crate::json::lemma_member_lookup_opt;

        lemma_register_body_keys();
        reveal_with_fuel(crate::json::member_lookup, 4);
    }
}

/// The field names that `register_body` uses, told apart.
proof fn lemma_register_body_keys()
    ensures
        "email"@.len() == 5,
        "name"@.len() == 4,
        "password"@.len() == 8,
{
    reveal_strlit("email");
    reveal_strlit("name");
    reveal_strlit("password");
}

/// The body that [`AuthService::login`] sends.
pub open spec fn login_body(email: &str, password: &str) -> JsonValue {
    object_of(seq![text_member("email"@, email@), text_member("password"@, password@)])
}

/// What `login_body` builds reads back field by field: each value the
/// arguments give is found under its own name, an optional one only when
/// it is set, and a list as the same items in the same order.
pub proof fn lemma_login_body_reads_back(email: &str, password: &str)
    ensures
        crate::json::json_str_member(login_body(email, password), "email"@) == Some(email@),
        crate::json::json_str_member(login_body(email, password), "password"@) == Some(password@),
{
    assert(crate::json::json_str_member(login_body(email, password), "email"@) == Some(email@)) by {
        broadcast use crate::json::lemma_member_lookup_append, crate::json::lemma_member_lookup_opt;

        lemma_login_body_keys();
        reveal_with_fuel(crate::json::member_lookup, 3);
    }
    assert(crate::json::json_str_member(login_body(email, password), "password"@) == Some(password@)) by {
        broadcast use crate::json::lemma_member_lookup_append, crate::json::lemma_member_lookup_opt;

        lemma_login_body_keys();
        reveal_with_fuel(crate::json::member_lookup, 3);
    }
}

/// The field names that `login_body` uses, told apart.
proof fn lemma_login_body_keys()
    ensures
        "email"@.len() == 5,
        "password"@.len() == 8,
{
    reveal_strlit("email");
    reveal_strlit("password");
}

impl AuthService {
    /// Log in with email and password.
    pub fn login(&self, email: &str, password: &str) -> (r: ApiRequest)
        ensures
            r@ == json_request(
                HttpMethod::Post,
                "/auth/login"@,
                login_body(email, password),
            ),
    {
        let mut body = Members::new();
        body.put_str("email", email);
        body.put_str("password", password);
        assert(body@ =~= seq![text_member("email"@, email@), text_member("password"@, password@)]);
        ApiRequest::post("/auth/login".to_owned(), body.into_json())
    }

    /// Register a new user.
    pub fn register(&self, email: &str, password: &str, name: &str) -> (r: ApiRequest)
        ensures
            r@ == json_request(
                HttpMethod::Post,
                "/auth/register"@,
                register_body(email, password, name),
            ),
    {
        let mut body = Members::new();
        body.put_str("email", email);
        body.put_str("password", password);
        body.put_str("name", name);
        assert(body@ =~= seq![
            text_member("email"@, email@),
            text_member("password"@, password@),
            text_member("name"@, name@),
        ]);
        ApiRequest::post("/auth/register".to_owned(), body.into_json())
    }

    /// Validate a token.
    pub fn validate(&self, token: &str) -> (r: ApiRequest)
        ensures
            r@ == json_request(HttpMethod::Post, "/auth/validate"@, validate_body(token)),
    {
        let mut body = Members::new();
        body.put_str("token", token);
        assert(body@ =~= seq![text_member("token"@, token@)]);
        ApiRequest::post("/auth/validate".to_owned(), body.into_json())
    }

    /// Trade a refresh token for a new session.
    pub fn refresh(&self, refresh_token: &str) -> (r: ApiRequest)
        ensures
            r@ == json_request(
                HttpMethod::Post,
                "/auth/refresh"@,
                refresh_body(refresh_token),
            ),
    {
        let mut body = Members::new();
        body.put_str("refresh_token", refresh_token);
        assert(body@ =~= seq![text_member("refresh_token"@, refresh_token@)]);
        ApiRequest::post("/auth/refresh".to_owned(), body.into_json())
    }

    /// Apply a role change.
    pub fn assign_roles(&self, req: AssignRolesRequest) -> (r: ApiRequest)
        ensures
            r@ == json_request(HttpMethod::Post, assign_roles_path(req.user_id@), assign_roles_body(req)),
    {
        let ghost spec_req = req;
        let path = path_raw("/platform/users/", req.user_id.as_str(), "/roles/assign");
        let mut body = Members::new();
        body.put("tenant_id", Json::Str(req.tenant_id));
        body.put("grant_scopes", Json::string_list(&req.grant_scopes));
        body.put("revoke_scopes", Json::string_list(&req.revoke_scopes));
        body.put_opt_string("note", req.note);
        assert(body@ =~= assign_roles_body(spec_req)->Object_0);
        ApiRequest::post(path, body.into_json())
    }

    /// Revoke scopes from a user: the role change that grants nothing and
    /// revokes `scopes`, with the note when given.
    pub fn revoke_roles(&self, tenant_id: &str, user_id: &str, scopes: Vec<String>, note: Option<String>) -> (r: ApiRequest)
        ensures
            r@ == json_request(
                HttpMethod::Post,
                assign_roles_path(user_id@),
                revoke_roles_body(tenant_id, scopes, note),
            ),
    {
        let ghost n = note;
        let mut req = AssignRolesRequest::new(tenant_id, user_id).with_revokes(scopes);
        match note {
            Some(text) => {
                req = req.with_note(text.as_str());
            },
            None => {},
        }
        assert(strings_view(req.grant_scopes@) =~= Seq::<Seq<char>>::empty());
        assert(opt_string_member("note"@, req.note) == opt_string_member("note"@, n));
        self.assign_roles(req)
    }

    /// Mint app tokens from an App Check token.
    pub fn mint_app_token(&self, req: MintAppTokenRequest) -> (r: ApiRequest)
        ensures
            r@ == json_request(
                HttpMethod::Post,
                "/auth/app-tokens/mint"@,
                mint_app_token_body(req),
            ),
    {
        let ghost spec_req = req;
        let mut body = Members::new();
        body.put("app_check_token", Json::Str(req.app_check_token));
        body.put_opt_string("firebase_install_id", req.firebase_install_id);
        assert(body@ =~= seq![text_member("app_check_token"@, spec_req.app_check_token@)]
            + opt_string_member("firebase_install_id"@, spec_req.firebase_install_id));
        ApiRequest::post("/auth/app-tokens/mint".to_owned(), body.into_json())
    }

    /// Refresh app tokens.
    pub fn refresh_app_token(&self, req: RefreshAppTokenRequest) -> (r: ApiRequest)
        ensures
            r@ == json_request(
                HttpMethod::Post,
                "/auth/app-tokens/refresh"@,
                refresh_app_token_body(req),
            ),
    {
        let ghost spec_req = req;
        let mut body = Members::new();
        body.put("refresh_token", Json::Str(req.refresh_token));
        assert(body@ =~= seq![text_member("refresh_token"@, spec_req.refresh_token@)]);
        ApiRequest::post("/auth/app-tokens/refresh".to_owned(), body.into_json())
    }

    /// The public key set of an app. The identifier is placed in the path
    /// as given.
    pub fn get_app_jwks(&self, app_id: &str) -> (r: ApiRequest)
        ensures
            r@ == get_request("/.well-known/app-keys/"@ + app_id@, seq![]),
    {
        ApiRequest::get_plain(crate::text::concat2("/.well-known/app-keys/", app_id))
    }
}

} // verus!
