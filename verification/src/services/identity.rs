//! Global identities: federated identities and tenant links, ID scans and
//! passphrase verification.

use vstd::prelude::*;
use crate::decode::{keys_view, read_record, record_of};
use crate::http::{empty_object, get_request, json_request, path_end, ApiRequest, HttpMethod};
use crate::decode::{field_opt_members, field_opt_str, opt_members_view, read_opt_members_of, read_opt_str, read_str};
use crate::json::{
    is_object, json_str_member, opt_string, object_of, opt_str, str_or_null, text_member, uint_value, Json, JsonValue, Members,
};
use crate::url::url_encoded;

verus! {

/// Plans the calls of the identity service.
pub struct IdentityService;

/// A link between a global identity and a tenant's customer.
#[derive(Debug, Clone)]
pub struct IdentityLink {
    pub olympus_id: String,
    pub tenant_id: String,
    pub commerce_customer_id: String,
    pub linked_at: String,
}

/// A federated identity to find or create.
#[derive(Debug, Default)]
pub struct GetOrCreateIdentityRequest<'a> {
    pub firebase_uid: &'a str,
    pub email: Option<&'a str>,
    pub phone: Option<&'a str>,
    pub first_name: Option<&'a str>,
    pub last_name: Option<&'a str>,
    pub global_preferences: Option<Members>,
}

/// Bytes as `serde_json` writes a byte slice: an array of numbers.
pub open spec fn bytes_value(b: Seq<u8>) -> JsonValue {
    JsonValue::Array(Seq::new(b.len(), |i: int| uint_value(b[i] as u64)))
}

fn bytes_json(b: &[u8]) -> (r: Json)
    ensures
        r@ == bytes_value(b@),
{
    let mut items: Vec<Json> = Vec::new();
    let mut i: usize = 0;
    while i < b.len()
        invariant
            i <= b.len(),
            items@.len() == i,
            forall|k: int| 0 <= k < i ==> (#[trigger] items@[k])@ == uint_value(b@[k] as u64),
        decreases b.len() - i,
    {
        items.push(Json::uint(b[i] as u64));
        i = i + 1;
    }
    let r = Json::Array(items);
    assert(r@->Array_0 =~= bytes_value(b@)->Array_0);
    r
}

/// The body of an identity lookup: every field, absent ones as `null`.
pub open spec fn identity_body(req: GetOrCreateIdentityRequest) -> JsonValue {
    object_of(seq![
        text_member("firebase_uid"@, req.firebase_uid@),
        ("email"@, str_or_null(opt_str(req.email))),
        ("phone"@, str_or_null(opt_str(req.phone))),
        ("first_name"@, str_or_null(opt_str(req.first_name))),
        ("last_name"@, str_or_null(opt_str(req.last_name))),
        (
            "global_preferences"@,
            match req.global_preferences {
                Some(m) => JsonValue::Object(m@),
                None => JsonValue::Null,
            },
        ),
    ])
}

/// What `identity_body` builds reads back field by field: each value the
/// arguments give is found under its own name, an optional one only when
/// it is set, and a list as the same items in the same order.
pub proof fn lemma_identity_body_reads_back(req: GetOrCreateIdentityRequest)
    ensures
        crate::json::json_str_member(identity_body(req), "firebase_uid"@) == Some(req.firebase_uid@),
        crate::json::json_get(identity_body(req), "email"@) == Some(str_or_null(opt_str(req.email))),
        crate::json::json_get(identity_body(req), "phone"@) == Some(str_or_null(opt_str(req.phone))),
        crate::json::json_get(identity_body(req), "first_name"@) == Some(str_or_null(opt_str(req.first_name))),
        crate::json::json_get(identity_body(req), "last_name"@) == Some(str_or_null(opt_str(req.last_name))),
{
    assert(crate::json::json_str_member(identity_body(req), "firebase_uid"@) == Some(req.firebase_uid@)) by {
        broadcast use crate::json::lemma_member_lookup_append, crate::json::lemma_member_lookup_opt;

        lemma_identity_body_keys();
        reveal_with_fuel(crate::json::member_lookup, 7);
    }
    assert(crate::json::json_get(identity_body(req), "email"@) == Some(str_or_null(opt_str(req.email)))) by {
        broadcast use crate::json::lemma_member_lookup_append, crate::json::lemma_member_lookup_opt;

        lemma_identity_body_keys();
        reveal_with_fuel(crate::json::member_lookup, 7);
    }
    assert(crate::json::json_get(identity_body(req), "phone"@) == Some(str_or_null(opt_str(req.phone)))) by {
        broadcast use crate::json::lemma_member_lookup_append, crate::json::lemma_member_lookup_opt;

        lemma_identity_body_keys();
        reveal_with_fuel(crate::json::member_lookup, 7);
    }
    assert(crate::json::json_get(identity_body(req), "first_name"@) == Some(str_or_null(opt_str(req.first_name)))) by {
        broadcast use crate::json::lemma_member_lookup_append, crate::json::lemma_member_lookup_opt;

        lemma_identity_body_keys();
        reveal_with_fuel(crate::json::member_lookup, 7);
    }
    assert(crate::json::json_get(identity_body(req), "last_name"@) == Some(str_or_null(opt_str(req.last_name)))) by {
        broadcast use crate::json::lemma_member_lookup_append, crate::json::lemma_member_lookup_opt;

        lemma_identity_body_keys();
        reveal_with_fuel(crate::json::member_lookup, 7);
    }
}

/// The field names that `identity_body` uses, told apart.
proof fn lemma_identity_body_keys()
    ensures
        "email"@.len() == 5,
        "email"@[0] == 'e',
        "firebase_uid"@.len() == 12,
        "first_name"@.len() == 10,
        "global_preferences"@.len() == 18,
        "last_name"@.len() == 9,
        "phone"@.len() == 5,
        "phone"@[0] == 'p',
{
    reveal_strlit("email");
    reveal_strlit("firebase_uid");
    reveal_strlit("first_name");
    reveal_strlit("global_preferences");
    reveal_strlit("last_name");
    reveal_strlit("phone");
}

/// `{"phone": phone, "passphrase": passphrase}`.
pub open spec fn passphrase_body(phone: Seq<char>, passphrase: Seq<char>) -> JsonValue {
    object_of(seq![text_member("phone"@, phone), text_member("passphrase"@, passphrase)])
}

/// What `passphrase_body` builds reads back field by field: each value the
/// arguments give is found under its own name, an optional one only when
/// it is set, and a list as the same items in the same order.
pub proof fn lemma_passphrase_body_reads_back(phone: Seq<char>, passphrase: Seq<char>)
    ensures
        crate::json::json_str_member(passphrase_body(phone, passphrase), "phone"@) == Some(phone),
        crate::json::json_str_member(passphrase_body(phone, passphrase), "passphrase"@) == Some(passphrase),
{
    assert(crate::json::json_str_member(passphrase_body(phone, passphrase), "phone"@) == Some(phone)) by {
        broadcast use crate::json::lemma_member_lookup_append, crate::json::lemma_member_lookup_opt;

        lemma_passphrase_body_keys();
        reveal_with_fuel(crate::json::member_lookup, 3);
    }
    assert(crate::json::json_str_member(passphrase_body(phone, passphrase), "passphrase"@) == Some(passphrase)) by {
        broadcast use crate::json::lemma_member_lookup_append, crate::json::lemma_member_lookup_opt;

        lemma_passphrase_body_keys();
        reveal_with_fuel(crate::json::member_lookup, 3);
    }
}

/// The field names that `passphrase_body` uses, told apart.
proof fn lemma_passphrase_body_keys()
    ensures
        "passphrase"@.len() == 10,
        "phone"@.len() == 5,
{
    reveal_strlit("passphrase");
    reveal_strlit("phone");
}

fn passphrase_json(phone: &str, passphrase: &str) -> (r: Json)
    ensures
        r@ == passphrase_body(phone@, passphrase@),
{
    let mut body = Members::new();
    body.put_str("phone", phone);
    body.put_str("passphrase", passphrase);
    assert(body@ =~= seq![text_member("phone"@, phone@), text_member("passphrase"@, passphrase@)]);
    body.into_json()
}

/// A global identity across every app and tenant, created on first
/// Firebase sign-in. The cross-app preferences are an object of documents.
#[derive(Debug)]
pub struct OlympusIdentity {
    pub id: String,
    pub firebase_uid: String,
    pub email: Option<String>,
    pub phone: Option<String>,
    pub first_name: Option<String>,
    pub last_name: Option<String>,
    pub global_preferences: Option<Members>,
    pub stripe_customer_id: Option<String>,
    pub created_at: String,
    pub updated_at: String,
}

/// Whether `x` is what the object `v` reads as: the identifiers and
/// times required, the contact details, preferences and Stripe customer
/// optional.
pub open spec fn is_olympus_identity_fields_of(v: JsonValue, x: OlympusIdentity) -> bool {
    &&& is_object(v)
    &&& json_str_member(v, "id"@) == Some(x.id@)
    &&& json_str_member(v, "firebase_uid"@) == Some(x.firebase_uid@)
    &&& field_opt_str(v, "email"@) == Some(opt_string(x.email))
    &&& field_opt_str(v, "phone"@) == Some(opt_string(x.phone))
    &&& field_opt_str(v, "first_name"@) == Some(opt_string(x.first_name))
    &&& field_opt_str(v, "last_name"@) == Some(opt_string(x.last_name))
    &&& field_opt_members(v, "global_preferences"@) == Some(opt_members_view(x.global_preferences))
    &&& field_opt_str(v, "stripe_customer_id"@) == Some(opt_string(x.stripe_customer_id))
    &&& json_str_member(v, "created_at"@) == Some(x.created_at@)
    &&& json_str_member(v, "updated_at"@) == Some(x.updated_at@)
}

/// Whether the object `v` reads as a global identity.
pub open spec fn reads_as_olympus_identity_fields(v: JsonValue) -> bool {
    &&& is_object(v)
    &&& json_str_member(v, "id"@) is Some
    &&& json_str_member(v, "firebase_uid"@) is Some
    &&& field_opt_str(v, "email"@) is Some
    &&& field_opt_str(v, "phone"@) is Some
    &&& field_opt_str(v, "first_name"@) is Some
    &&& field_opt_str(v, "last_name"@) is Some
    &&& field_opt_members(v, "global_preferences"@) is Some
    &&& field_opt_str(v, "stripe_customer_id"@) is Some
    &&& json_str_member(v, "created_at"@) is Some
    &&& json_str_member(v, "updated_at"@) is Some
}

/// The field names of an `OlympusIdentity`, in declaration order.
pub open spec fn olympus_identity_keys() -> Seq<Seq<char>> {
    seq!["id"@, "firebase_uid"@, "email"@, "phone"@, "first_name"@, "last_name"@, "global_preferences"@, "stripe_customer_id"@, "created_at"@, "updated_at"@]
}

/// Which fields of an `OlympusIdentity` may be left out.
pub open spec fn olympus_identity_defaults() -> Seq<bool> {
    seq![false, false, true, true, true, true, true, true, false, false]
}

/// Whether `x` is what the record document `v` (an object, or an array of
/// the fields in order) reads as.
pub open spec fn is_olympus_identity_of(v: JsonValue, x: OlympusIdentity) -> bool {
    record_of(v, olympus_identity_keys(), olympus_identity_defaults()) matches Some(o) && is_olympus_identity_fields_of(o, x)
}

/// Whether the record document `v` reads as an `OlympusIdentity`.
pub open spec fn reads_as_olympus_identity(v: JsonValue) -> bool {
    record_of(v, olympus_identity_keys(), olympus_identity_defaults()) matches Some(o) && reads_as_olympus_identity_fields(o)
}

impl OlympusIdentity {
    /// Reads an `OlympusIdentity` out of a document: an object, or an array of the
    /// fields in declaration order.
    pub fn from_json(v: &Json) -> (r: Option<OlympusIdentity>)
        ensures
            r is Some <==> reads_as_olympus_identity(v@),
            r matches Some(x) ==> is_olympus_identity_of(v@, x),
    {
        let mut keys: Vec<&str> = Vec::new();
        let mut defaults: Vec<bool> = Vec::new();
        keys.push("id");
        defaults.push(false);
        keys.push("firebase_uid");
        defaults.push(false);
        keys.push("email");
        defaults.push(true);
        keys.push("phone");
        defaults.push(true);
        keys.push("first_name");
        defaults.push(true);
        keys.push("last_name");
        defaults.push(true);
        keys.push("global_preferences");
        defaults.push(true);
        keys.push("stripe_customer_id");
        defaults.push(true);
        keys.push("created_at");
        defaults.push(false);
        keys.push("updated_at");
        defaults.push(false);
        proof {
            assert(keys_view(keys@) =~= olympus_identity_keys());
            assert(defaults@ =~= olympus_identity_defaults());
        }
        match read_record(v, &keys, &defaults) {
            Some(doc) => Self::from_fields(&doc),
            None => None,
        }
    }

    /// Reads the record out of the object it stands for.
    fn from_fields(v: &Json) -> (r: Option<OlympusIdentity>)
        ensures
            r is Some <==> reads_as_olympus_identity_fields(v@),
            r matches Some(x) ==> is_olympus_identity_fields_of(v@, x),
    {
        if !v.is_object() {
            return None;
        }
        let id = match read_str(v, "id") {
            Some(y) => y,
            None => return None,
        };
        let firebase_uid = match read_str(v, "firebase_uid") {
            Some(y) => y,
            None => return None,
        };
        let email = match read_opt_str(v, "email") {
            Some(y) => y,
            None => return None,
        };
        let phone = match read_opt_str(v, "phone") {
            Some(y) => y,
            None => return None,
        };
        let first_name = match read_opt_str(v, "first_name") {
            Some(y) => y,
            None => return None,
        };
        let last_name = match read_opt_str(v, "last_name") {
            Some(y) => y,
            None => return None,
        };
        let global_preferences = match read_opt_members_of(v, "global_preferences") {
            Some(y) => y,
            None => return None,
        };
        let stripe_customer_id = match read_opt_str(v, "stripe_customer_id") {
            Some(y) => y,
            None => return None,
        };
        let created_at = match read_str(v, "created_at") {
            Some(y) => y,
            None => return None,
        };
        let updated_at = match read_str(v, "updated_at") {
            Some(y) => y,
            None => return None,
        };
        Some(OlympusIdentity { id, firebase_uid, email, phone, first_name, last_name, global_preferences, stripe_customer_id, created_at, updated_at })
    }
}
/// The body that [`IdentityService::scan_id`] sends.
pub open spec fn scan_id_body(phone: &str, image_bytes: &[u8]) -> JsonValue {
    object_of(seq![text_member("phone"@, phone@), ("image"@, bytes_value(image_bytes@))])
}

/// What `scan_id_body` builds reads back field by field: each value the
/// arguments give is found under its own name, an optional one only when
/// it is set, and a list as the same items in the same order.
pub proof fn lemma_scan_id_body_reads_back(phone: &str, image_bytes: &[u8])
    ensures
        crate::json::json_str_member(scan_id_body(phone, image_bytes), "phone"@) == Some(phone@),
        crate::json::json_get(scan_id_body(phone, image_bytes), "image"@) == Some(bytes_value(image_bytes@)),
{
    assert(crate::json::json_str_member(scan_id_body(phone, image_bytes), "phone"@) == Some(phone@)) by {
        broadcast use crate::json::lemma_member_lookup_append, crate::json::lemma_member_lookup_opt;

        lemma_scan_id_body_keys();
        reveal_with_fuel(crate::json::member_lookup, 3);
    }
    assert(crate::json::json_get(scan_id_body(phone, image_bytes), "image"@) == Some(bytes_value(image_bytes@))) by {
        broadcast use crate::json::lemma_member_lookup_append, crate::json::lemma_member_lookup_opt;

        lemma_scan_id_body_keys();
        reveal_with_fuel(crate::json::member_lookup, 3);
    }
}

/// The field names that `scan_id_body` uses, told apart.
proof fn lemma_scan_id_body_keys()
    ensures
        "image"@.len() == 5,
        "image"@[0] == 'i',
        "phone"@.len() == 5,
        "phone"@[0] == 'p',
{
    reveal_strlit("image");
    reveal_strlit("phone");
}

/// The body that [`IdentityService::link_to_tenant`] sends.
pub open spec fn link_to_tenant_body(olympus_id: &str, tenant_id: &str, commerce_customer_id: &str) -> JsonValue {
    object_of(seq![
        text_member("olympus_id"@, olympus_id@),
        text_member("tenant_id"@, tenant_id@),
        text_member("commerce_customer_id"@, commerce_customer_id@),
    ])
}

/// What `link_to_tenant_body` builds reads back field by field: each value the
/// arguments give is found under its own name, an optional one only when
/// it is set, and a list as the same items in the same order.
pub proof fn lemma_link_to_tenant_body_reads_back(olympus_id: &str, tenant_id: &str, commerce_customer_id: &str)
    ensures
        crate::json::json_str_member(link_to_tenant_body(olympus_id, tenant_id, commerce_customer_id), "olympus_id"@) == Some(olympus_id@),
        crate::json::json_str_member(link_to_tenant_body(olympus_id, tenant_id, commerce_customer_id), "tenant_id"@) == Some(tenant_id@),
        crate::json::json_str_member(link_to_tenant_body(olympus_id, tenant_id, commerce_customer_id), "commerce_customer_id"@) == Some(commerce_customer_id@),
{
    assert(crate::json::json_str_member(link_to_tenant_body(olympus_id, tenant_id, commerce_customer_id), "olympus_id"@) == Some(olympus_id@)) by {
        broadcast use crate::json::lemma_member_lookup_append, crate::json::lemma_member_lookup_opt;

        lemma_link_to_tenant_body_keys();
        reveal_with_fuel(crate::json::member_lookup, 4);
    }
    assert(crate::json::json_str_member(link_to_tenant_body(olympus_id, tenant_id, commerce_customer_id), "tenant_id"@) == Some(tenant_id@)) by {
        broadcast use crate::json::lemma_member_lookup_append, crate::json::lemma_member_lookup_opt;

        lemma_link_to_tenant_body_keys();
        reveal_with_fuel(crate::json::member_lookup, 4);
    }
    assert(crate::json::json_str_member(link_to_tenant_body(olympus_id, tenant_id, commerce_customer_id), "commerce_customer_id"@) == Some(commerce_customer_id@)) by {
        broadcast use crate::json::lemma_member_lookup_append, crate::json::lemma_member_lookup_opt;

        lemma_link_to_tenant_body_keys();
        reveal_with_fuel(crate::json::member_lookup, 4);
    }
}

/// The field names that `link_to_tenant_body` uses, told apart.
proof fn lemma_link_to_tenant_body_keys()
    ensures
        "commerce_customer_id"@.len() == 20,
        "olympus_id"@.len() == 10,
        "tenant_id"@.len() == 9,
{
    reveal_strlit("commerce_customer_id");
    reveal_strlit("olympus_id");
    reveal_strlit("tenant_id");
}

impl IdentityService {
    /// Find or create the global identity of a Firebase user.
    pub fn get_or_create_from_firebase(&self, req: GetOrCreateIdentityRequest<'_>) -> (r: ApiRequest)
        ensures
            r@ == json_request(HttpMethod::Post, "/platform/identities"@, identity_body(req)),
    {
        let ghost spec_req = req;
        let mut body = Members::new();
        body.put_str("firebase_uid", req.firebase_uid);
        body.put("email", Json::string_or_null(req.email));
        body.put("phone", Json::string_or_null(req.phone));
        body.put("first_name", Json::string_or_null(req.first_name));
        body.put("last_name", Json::string_or_null(req.last_name));
        let prefs = match req.global_preferences {
            Some(m) => m.into_json(),
            None => Json::Null,
        };
        body.put("global_preferences", prefs);
        assert(body@ =~= identity_body(spec_req)->Object_0);
        ApiRequest::post("/platform/identities".to_owned(), body.into_json())
    }

    /// Link a global identity to a tenant's customer.
    pub fn link_to_tenant(&self, olympus_id: &str, tenant_id: &str, commerce_customer_id: &str) -> (r: ApiRequest)
        ensures
            r@ == json_request(
                HttpMethod::Post,
                "/platform/identities/links"@,
                link_to_tenant_body(olympus_id, tenant_id, commerce_customer_id),
            ),
    {
        let mut body = Members::new();
        body.put_str("olympus_id", olympus_id);
        body.put_str("tenant_id", tenant_id);
        body.put_str("commerce_customer_id", commerce_customer_id);
        assert(body@ =~= seq![
            text_member("olympus_id"@, olympus_id@),
            text_member("tenant_id"@, tenant_id@),
            text_member("commerce_customer_id"@, commerce_customer_id@),
        ]);
        ApiRequest::post("/platform/identities/links".to_owned(), body.into_json())
    }

    /// Scan an ID document for a phone number; the image travels as an
    /// array of byte values.
    pub fn scan_id(&self, phone: &str, image_bytes: &[u8]) -> (r: ApiRequest)
        ensures
            r@ == json_request(
                HttpMethod::Post,
                "/identity/scan-id"@,
                scan_id_body(phone, image_bytes),
            ),
    {
        let mut body = Members::new();
        body.put_str("phone", phone);
        body.put("image", bytes_json(image_bytes));
        assert(body@ =~= seq![text_member("phone"@, phone@), ("image"@, bytes_value(image_bytes@))]);
        ApiRequest::post("/identity/scan-id".to_owned(), body.into_json())
    }

    /// The verification status of a phone number.
    pub fn check_verification_status(&self, phone: &str) -> (r: ApiRequest)
        ensures
            r@ == get_request("/identity/status/"@ + url_encoded(phone@), seq![]),
    {
        ApiRequest::get_plain(path_end("/identity/status/", phone))
    }

    /// Check a passphrase.
    pub fn verify_passphrase(&self, phone: &str, passphrase: &str) -> (r: ApiRequest)
        ensures
            r@ == json_request(HttpMethod::Post, "/identity/verify-passphrase"@, passphrase_body(phone@, passphrase@)),
    {
        ApiRequest::post("/identity/verify-passphrase".to_owned(), passphrase_json(phone, passphrase))
    }

    /// Set a passphrase.
    pub fn set_passphrase(&self, phone: &str, passphrase: &str) -> (r: ApiRequest)
        ensures
            r@ == json_request(HttpMethod::Post, "/identity/set-passphrase"@, passphrase_body(phone@, passphrase@)),
    {
        ApiRequest::post("/identity/set-passphrase".to_owned(), passphrase_json(phone, passphrase))
    }

    /// Open an upload session.
    pub fn create_upload_session(&self) -> (r: ApiRequest)
        ensures
            r@ == json_request(HttpMethod::Post, "/identity/create-upload-session"@, empty_object()),
    {
        ApiRequest::post_empty("/identity/create-upload-session".to_owned())
    }
}

} // verus!
