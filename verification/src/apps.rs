//! App installs: requesting an install (which the tenant admin then
//! approves through a consent page), listing and removing installs, app
//! manifests, and acting on pending installs.

use vstd::prelude::*;
use crate::decode::{keys_view, read_record, record_of};
use crate::http::{empty_object, get_request, json_request, path_end, path_with, ApiRequest, HttpMethod};
use crate::decode::{
    field_opt_doc, field_opt_str, field_str_list_or_empty, field_str_or_empty, read_opt_doc, read_opt_str, read_str,
    read_str_list_or_empty, read_str_or_empty,
};
use crate::json::{
    is_object, json_str_member, object_of, opt_string, opt_string_member, str_list_value, strings_view, text_member,
    Json, JsonValue, Members,
};
use crate::url::url_encoded;

verus! {

/// Plans the calls of app installs.
pub struct AppsApi;

/// An install to request. Scopes are sent only when there are some, the
/// idempotency key only when set.
#[derive(Debug, Clone, Default)]
pub struct AppInstallRequest {
    pub app_id: String,
    pub scopes: Vec<String>,
    pub return_to: String,
    pub idempotency_key: Option<String>,
}

/// An install awaiting the admin's consent.
#[derive(Debug, Clone)]
pub struct PendingInstall {
    pub pending_install_id: String,
    pub consent_url: String,
    pub expires_at: String,
}

/// The public manifest of an app.
#[derive(Debug, Clone)]
pub struct AppManifest {
    pub app_id: String,
    pub version: String,
    pub name: String,
    pub publisher: String,
    pub logo_url: Option<String>,
    pub scopes_required: Vec<String>,
    pub scopes_optional: Vec<String>,
    pub privacy_url: Option<String>,
    pub tos_url: Option<String>,
}

/// A pending install, with the app's manifest when loaded.
#[derive(Debug, Clone)]
pub struct PendingInstallDetail {
    pub id: String,
    pub app_id: String,
    pub tenant_id: String,
    pub requested_scopes: Vec<String>,
    pub return_to: String,
    pub status: String,
    pub expires_at: String,
    pub manifest: Option<AppManifest>,
}

/// An installed app.
#[derive(Debug, Clone)]
pub struct AppInstall {
    pub tenant_id: String,
    pub app_id: String,
    pub installed_at: String,
    pub installed_by: String,
    pub scopes_granted: Vec<String>,
    pub status: String,
}

/// The body of an install request.
pub open spec fn install_body(req: AppInstallRequest) -> JsonValue {
    object_of(
        seq![text_member("app_id"@, req.app_id@)]
            + (if req.scopes@.len() == 0 {
                Seq::empty()
            } else {
                seq![("scopes"@, str_list_value(strings_view(req.scopes@)))]
            })
            + seq![text_member("return_to"@, req.return_to@)]
            + opt_string_member("idempotency_key"@, req.idempotency_key),
    )
}

/// What `install_body` builds reads back field by field: each value the
/// arguments give is found under its own name, an optional one only when
/// it is set, and a list as the same items in the same order.
pub proof fn lemma_install_body_reads_back(req: AppInstallRequest)
    ensures
        crate::decode::field_str_list_or_empty(install_body(req), "scopes"@) == Some(strings_view(req.scopes@)),
        crate::json::json_str_member(install_body(req), "app_id"@) == Some(req.app_id@),
        crate::json::json_str_member(install_body(req), "return_to"@) == Some(req.return_to@),
        crate::decode::field_opt_str(install_body(req), "idempotency_key"@) == Some(crate::json::opt_string(req.idempotency_key)),
{
    assert(crate::decode::field_str_list_or_empty(install_body(req), "scopes"@) == Some(strings_view(req.scopes@))) by {
        broadcast use crate::json::lemma_member_lookup_append, crate::json::lemma_member_lookup_opt;

        lemma_install_body_keys();
        reveal_with_fuel(crate::json::member_lookup, 2);
        crate::decode::lemma_str_list_reads_back(strings_view(req.scopes@));
    }
    assert(crate::json::json_str_member(install_body(req), "app_id"@) == Some(req.app_id@)) by {
        broadcast use crate::json::lemma_member_lookup_append, crate::json::lemma_member_lookup_opt;

        lemma_install_body_keys();
        reveal_with_fuel(crate::json::member_lookup, 2);
    }
    assert(crate::json::json_str_member(install_body(req), "return_to"@) == Some(req.return_to@)) by {
        broadcast use crate::json::lemma_member_lookup_append, crate::json::lemma_member_lookup_opt;

        lemma_install_body_keys();
        reveal_with_fuel(crate::json::member_lookup, 2);
    }
    assert(crate::decode::field_opt_str(install_body(req), "idempotency_key"@) == Some(crate::json::opt_string(req.idempotency_key))) by {
        broadcast use crate::json::lemma_member_lookup_append, crate::json::lemma_member_lookup_opt;

        lemma_install_body_keys();
        reveal_with_fuel(crate::json::member_lookup, 2);
    }
}

/// The field names that `install_body` uses, told apart.
proof fn lemma_install_body_keys()
    ensures
        "app_id"@.len() == 6,
        "app_id"@[0] == 'a',
        "idempotency_key"@.len() == 15,
        "return_to"@.len() == 9,
        "scopes"@.len() == 6,
        "scopes"@[0] == 's',
{
    reveal_strlit("app_id");
    reveal_strlit("idempotency_key");
    reveal_strlit("return_to");
    reveal_strlit("scopes");
}

// ---------------------------------------------------------------------------
// Reading responses
// ---------------------------------------------------------------------------

/// Whether `p` is what the object `v` reads as: an object with the three
/// string fields.
pub open spec fn is_pending_install_fields_of(v: JsonValue, p: PendingInstall) -> bool {
    &&& is_object(v)
    &&& json_str_member(v, "pending_install_id"@) == Some(p.pending_install_id@)
    &&& json_str_member(v, "consent_url"@) == Some(p.consent_url@)
    &&& json_str_member(v, "expires_at"@) == Some(p.expires_at@)
}

/// Whether the object `v` reads as a pending install.
pub open spec fn reads_as_pending_install_fields(v: JsonValue) -> bool {
    &&& is_object(v)
    &&& json_str_member(v, "pending_install_id"@) is Some
    &&& json_str_member(v, "consent_url"@) is Some
    &&& json_str_member(v, "expires_at"@) is Some
}

/// The field names of a `PendingInstall`, in declaration order.
pub open spec fn pending_install_keys() -> Seq<Seq<char>> {
    seq!["pending_install_id"@, "consent_url"@, "expires_at"@]
}

/// Which fields of a `PendingInstall` may be left out.
pub open spec fn pending_install_defaults() -> Seq<bool> {
    seq![false, false, false]
}

/// Whether `x` is what the record document `v` (an object, or an array of
/// the fields in order) reads as.
pub open spec fn is_pending_install_of(v: JsonValue, x: PendingInstall) -> bool {
    record_of(v, pending_install_keys(), pending_install_defaults()) matches Some(o) && is_pending_install_fields_of(o, x)
}

/// Whether the record document `v` reads as a `PendingInstall`.
pub open spec fn reads_as_pending_install(v: JsonValue) -> bool {
    record_of(v, pending_install_keys(), pending_install_defaults()) matches Some(o) && reads_as_pending_install_fields(o)
}

/// The object that writes each field of a `PendingInstall` under its own name.
pub open spec fn pending_install_object(p: PendingInstall) -> JsonValue {
    JsonValue::Object(seq![
        ("pending_install_id"@, JsonValue::Str(p.pending_install_id@)),
        ("consent_url"@, JsonValue::Str(p.consent_url@)),
        ("expires_at"@, JsonValue::Str(p.expires_at@)),
    ])
}

/// A `PendingInstall` whose fields are written under their own names reads back as
/// the same `PendingInstall`.
pub proof fn lemma_pending_install_reads_back(p: PendingInstall)
    ensures
        is_pending_install_of(pending_install_object(p), p),
{
    let v = pending_install_object(p);
    assert(json_str_member(v, "pending_install_id"@) == Some(p.pending_install_id@)) by {
        lemma_pending_install_names();
        reveal_with_fuel(crate::json::member_lookup, 4);
    }
    assert(json_str_member(v, "consent_url"@) == Some(p.consent_url@)) by {
        lemma_pending_install_names();
        reveal_with_fuel(crate::json::member_lookup, 4);
    }
    assert(json_str_member(v, "expires_at"@) == Some(p.expires_at@)) by {
        lemma_pending_install_names();
        reveal_with_fuel(crate::json::member_lookup, 4);
    }
    assert(is_pending_install_fields_of(v, p));
}

/// The field names of a `PendingInstall`, told apart.
proof fn lemma_pending_install_names()
    ensures
        "consent_url"@.len() == 11,
        "expires_at"@.len() == 10,
        "pending_install_id"@.len() == 18,
{
    reveal_strlit("consent_url");
    reveal_strlit("expires_at");
    reveal_strlit("pending_install_id");
}

/// Whether `m` is what the object `v` reads as: the four names
/// required, the URLs optional, the scope lists empty when absent.
pub open spec fn is_app_manifest_fields_of(v: JsonValue, m: AppManifest) -> bool {
    &&& is_object(v)
    &&& json_str_member(v, "app_id"@) == Some(m.app_id@)
    &&& json_str_member(v, "version"@) == Some(m.version@)
    &&& json_str_member(v, "name"@) == Some(m.name@)
    &&& json_str_member(v, "publisher"@) == Some(m.publisher@)
    &&& field_opt_str(v, "logo_url"@) == Some(opt_string(m.logo_url))
    &&& field_str_list_or_empty(v, "scopes_required"@) == Some(strings_view(m.scopes_required@))
    &&& field_str_list_or_empty(v, "scopes_optional"@) == Some(strings_view(m.scopes_optional@))
    &&& field_opt_str(v, "privacy_url"@) == Some(opt_string(m.privacy_url))
    &&& field_opt_str(v, "tos_url"@) == Some(opt_string(m.tos_url))
}

/// Whether the object `v` reads as an app manifest.
pub open spec fn reads_as_app_manifest_fields(v: JsonValue) -> bool {
    &&& is_object(v)
    &&& json_str_member(v, "app_id"@) is Some
    &&& json_str_member(v, "version"@) is Some
    &&& json_str_member(v, "name"@) is Some
    &&& json_str_member(v, "publisher"@) is Some
    &&& field_opt_str(v, "logo_url"@) is Some
    &&& field_str_list_or_empty(v, "scopes_required"@) is Some
    &&& field_str_list_or_empty(v, "scopes_optional"@) is Some
    &&& field_opt_str(v, "privacy_url"@) is Some
    &&& field_opt_str(v, "tos_url"@) is Some
}

/// The field names of an `AppManifest`, in declaration order.
pub open spec fn app_manifest_keys() -> Seq<Seq<char>> {
    seq!["app_id"@, "version"@, "name"@, "publisher"@, "logo_url"@, "scopes_required"@, "scopes_optional"@, "privacy_url"@, "tos_url"@]
}

/// Which fields of an `AppManifest` may be left out.
pub open spec fn app_manifest_defaults() -> Seq<bool> {
    seq![false, false, false, false, true, true, true, true, true]
}

/// Whether `x` is what the record document `v` (an object, or an array of
/// the fields in order) reads as.
pub open spec fn is_app_manifest_of(v: JsonValue, x: AppManifest) -> bool {
    record_of(v, app_manifest_keys(), app_manifest_defaults()) matches Some(o) && is_app_manifest_fields_of(o, x)
}

/// Whether the record document `v` reads as an `AppManifest`.
pub open spec fn reads_as_app_manifest(v: JsonValue) -> bool {
    record_of(v, app_manifest_keys(), app_manifest_defaults()) matches Some(o) && reads_as_app_manifest_fields(o)
}

/// The object that writes each field of an `AppManifest` under its own name.
pub open spec fn app_manifest_object(m: AppManifest) -> JsonValue {
    JsonValue::Object(seq![
        ("app_id"@, JsonValue::Str(m.app_id@)),
        ("version"@, JsonValue::Str(m.version@)),
        ("name"@, JsonValue::Str(m.name@)),
        ("publisher"@, JsonValue::Str(m.publisher@)),
        ("logo_url"@, crate::json::str_or_null(crate::json::opt_string(m.logo_url))),
        ("scopes_required"@, crate::json::str_list_value(crate::json::strings_view(m.scopes_required@))),
        ("scopes_optional"@, crate::json::str_list_value(crate::json::strings_view(m.scopes_optional@))),
        ("privacy_url"@, crate::json::str_or_null(crate::json::opt_string(m.privacy_url))),
        ("tos_url"@, crate::json::str_or_null(crate::json::opt_string(m.tos_url))),
    ])
}

/// An `AppManifest` whose fields are written under their own names reads back as
/// the same `AppManifest`.
pub proof fn lemma_app_manifest_reads_back(m: AppManifest)
    ensures
        is_app_manifest_of(app_manifest_object(m), m),
{
    let v = app_manifest_object(m);
    assert(json_str_member(v, "app_id"@) == Some(m.app_id@)) by {
        lemma_app_manifest_names();
        reveal_with_fuel(crate::json::member_lookup, 10);
    }
    assert(json_str_member(v, "version"@) == Some(m.version@)) by {
        lemma_app_manifest_names();
        reveal_with_fuel(crate::json::member_lookup, 10);
    }
    assert(json_str_member(v, "name"@) == Some(m.name@)) by {
        lemma_app_manifest_names();
        reveal_with_fuel(crate::json::member_lookup, 10);
    }
    assert(json_str_member(v, "publisher"@) == Some(m.publisher@)) by {
        lemma_app_manifest_names();
        reveal_with_fuel(crate::json::member_lookup, 10);
    }
    assert(field_opt_str(v, "logo_url"@) == Some(opt_string(m.logo_url))) by {
        lemma_app_manifest_names();
        reveal_with_fuel(crate::json::member_lookup, 10);
    }
    assert(field_str_list_or_empty(v, "scopes_required"@) == Some(strings_view(m.scopes_required@))) by {
        lemma_app_manifest_names();
        reveal_with_fuel(crate::json::member_lookup, 10);
        crate::decode::lemma_str_list_reads_back(crate::json::strings_view(m.scopes_required@));
    }
    assert(field_str_list_or_empty(v, "scopes_optional"@) == Some(strings_view(m.scopes_optional@))) by {
        lemma_app_manifest_names();
        reveal_with_fuel(crate::json::member_lookup, 10);
        crate::decode::lemma_str_list_reads_back(crate::json::strings_view(m.scopes_optional@));
    }
    assert(field_opt_str(v, "privacy_url"@) == Some(opt_string(m.privacy_url))) by {
        lemma_app_manifest_names();
        reveal_with_fuel(crate::json::member_lookup, 10);
    }
    assert(field_opt_str(v, "tos_url"@) == Some(opt_string(m.tos_url))) by {
        lemma_app_manifest_names();
        reveal_with_fuel(crate::json::member_lookup, 10);
    }
    assert(is_app_manifest_fields_of(v, m));
}

/// The field names of an `AppManifest`, told apart.
proof fn lemma_app_manifest_names()
    ensures
        "app_id"@.len() == 6,
        "logo_url"@.len() == 8,
        "name"@.len() == 4,
        "privacy_url"@.len() == 11,
        "publisher"@.len() == 9,
        "scopes_optional"@.len() == 15,
        "scopes_optional"@[7] == 'o',
        "scopes_required"@.len() == 15,
        "scopes_required"@[7] == 'r',
        "tos_url"@.len() == 7,
        "tos_url"@[0] == 't',
        "version"@.len() == 7,
        "version"@[0] == 'v',
{
    reveal_strlit("app_id");
    reveal_strlit("logo_url");
    reveal_strlit("name");
    reveal_strlit("privacy_url");
    reveal_strlit("publisher");
    reveal_strlit("scopes_optional");
    reveal_strlit("scopes_required");
    reveal_strlit("tos_url");
    reveal_strlit("version");
}

/// Whether `d` is what the object `v` reads as; the manifest is none
/// when absent or `null`, and must read as a manifest otherwise.
pub open spec fn is_pending_install_detail_fields_of(v: JsonValue, d: PendingInstallDetail) -> bool {
    &&& is_object(v)
    &&& json_str_member(v, "id"@) == Some(d.id@)
    &&& json_str_member(v, "app_id"@) == Some(d.app_id@)
    &&& json_str_member(v, "tenant_id"@) == Some(d.tenant_id@)
    &&& field_str_list_or_empty(v, "requested_scopes"@) == Some(strings_view(d.requested_scopes@))
    &&& field_str_or_empty(v, "return_to"@) == Some(d.return_to@)
    &&& field_str_or_empty(v, "status"@) == Some(d.status@)
    &&& json_str_member(v, "expires_at"@) == Some(d.expires_at@)
    &&& match field_opt_doc(v, "manifest"@) {
        Some(x) => d.manifest matches Some(m) && is_app_manifest_of(x, m),
        None => d.manifest is None,
    }
}

/// Whether the object `v` reads as a pending install with its details.
pub open spec fn reads_as_pending_install_detail_fields(v: JsonValue) -> bool {
    &&& is_object(v)
    &&& json_str_member(v, "id"@) is Some
    &&& json_str_member(v, "app_id"@) is Some
    &&& json_str_member(v, "tenant_id"@) is Some
    &&& field_str_list_or_empty(v, "requested_scopes"@) is Some
    &&& field_str_or_empty(v, "return_to"@) is Some
    &&& field_str_or_empty(v, "status"@) is Some
    &&& json_str_member(v, "expires_at"@) is Some
    &&& match field_opt_doc(v, "manifest"@) {
        Some(x) => reads_as_app_manifest(x),
        None => true,
    }
}

/// The field names of a `PendingInstallDetail`, in declaration order.
pub open spec fn pending_install_detail_keys() -> Seq<Seq<char>> {
    seq!["id"@, "app_id"@, "tenant_id"@, "requested_scopes"@, "return_to"@, "status"@, "expires_at"@, "manifest"@]
}

/// Which fields of a `PendingInstallDetail` may be left out.
pub open spec fn pending_install_detail_defaults() -> Seq<bool> {
    seq![false, false, false, true, true, true, false, true]
}

/// Whether `x` is what the record document `v` (an object, or an array of
/// the fields in order) reads as.
pub open spec fn is_pending_install_detail_of(v: JsonValue, x: PendingInstallDetail) -> bool {
    record_of(v, pending_install_detail_keys(), pending_install_detail_defaults()) matches Some(o) && is_pending_install_detail_fields_of(o, x)
}

/// Whether the record document `v` reads as a `PendingInstallDetail`.
pub open spec fn reads_as_pending_install_detail(v: JsonValue) -> bool {
    record_of(v, pending_install_detail_keys(), pending_install_detail_defaults()) matches Some(o) && reads_as_pending_install_detail_fields(o)
}

/// Whether `a` is what the object `v` reads as: three required strings,
/// the rest empty when absent.
pub open spec fn is_app_install_fields_of(v: JsonValue, a: AppInstall) -> bool {
    &&& is_object(v)
    &&& json_str_member(v, "tenant_id"@) == Some(a.tenant_id@)
    &&& json_str_member(v, "app_id"@) == Some(a.app_id@)
    &&& json_str_member(v, "installed_at"@) == Some(a.installed_at@)
    &&& field_str_or_empty(v, "installed_by"@) == Some(a.installed_by@)
    &&& field_str_list_or_empty(v, "scopes_granted"@) == Some(strings_view(a.scopes_granted@))
    &&& field_str_or_empty(v, "status"@) == Some(a.status@)
}

/// Whether the object `v` reads as an installed app.
pub open spec fn reads_as_app_install_fields(v: JsonValue) -> bool {
    &&& is_object(v)
    &&& json_str_member(v, "tenant_id"@) is Some
    &&& json_str_member(v, "app_id"@) is Some
    &&& json_str_member(v, "installed_at"@) is Some
    &&& field_str_or_empty(v, "installed_by"@) is Some
    &&& field_str_list_or_empty(v, "scopes_granted"@) is Some
    &&& field_str_or_empty(v, "status"@) is Some
}

/// The field names of an `AppInstall`, in declaration order.
pub open spec fn app_install_keys() -> Seq<Seq<char>> {
    seq!["tenant_id"@, "app_id"@, "installed_at"@, "installed_by"@, "scopes_granted"@, "status"@]
}

/// Which fields of an `AppInstall` may be left out.
pub open spec fn app_install_defaults() -> Seq<bool> {
    seq![false, false, false, true, true, true]
}

/// Whether `x` is what the record document `v` (an object, or an array of
/// the fields in order) reads as.
pub open spec fn is_app_install_of(v: JsonValue, x: AppInstall) -> bool {
    record_of(v, app_install_keys(), app_install_defaults()) matches Some(o) && is_app_install_fields_of(o, x)
}

/// Whether the record document `v` reads as an `AppInstall`.
pub open spec fn reads_as_app_install(v: JsonValue) -> bool {
    record_of(v, app_install_keys(), app_install_defaults()) matches Some(o) && reads_as_app_install_fields(o)
}

/// The object that writes each field of an `AppInstall` under its own name.
pub open spec fn app_install_object(a: AppInstall) -> JsonValue {
    JsonValue::Object(seq![
        ("tenant_id"@, JsonValue::Str(a.tenant_id@)),
        ("app_id"@, JsonValue::Str(a.app_id@)),
        ("installed_at"@, JsonValue::Str(a.installed_at@)),
        ("installed_by"@, JsonValue::Str(a.installed_by@)),
        ("scopes_granted"@, crate::json::str_list_value(crate::json::strings_view(a.scopes_granted@))),
        ("status"@, JsonValue::Str(a.status@)),
    ])
}

/// An `AppInstall` whose fields are written under their own names reads back as
/// the same `AppInstall`.
pub proof fn lemma_app_install_reads_back(a: AppInstall)
    ensures
        is_app_install_of(app_install_object(a), a),
{
    let v = app_install_object(a);
    assert(json_str_member(v, "tenant_id"@) == Some(a.tenant_id@)) by {
        lemma_app_install_names();
        reveal_with_fuel(crate::json::member_lookup, 7);
    }
    assert(json_str_member(v, "app_id"@) == Some(a.app_id@)) by {
        lemma_app_install_names();
        reveal_with_fuel(crate::json::member_lookup, 7);
    }
    assert(json_str_member(v, "installed_at"@) == Some(a.installed_at@)) by {
        lemma_app_install_names();
        reveal_with_fuel(crate::json::member_lookup, 7);
    }
    assert(field_str_or_empty(v, "installed_by"@) == Some(a.installed_by@)) by {
        lemma_app_install_names();
        reveal_with_fuel(crate::json::member_lookup, 7);
    }
    assert(field_str_list_or_empty(v, "scopes_granted"@) == Some(strings_view(a.scopes_granted@))) by {
        lemma_app_install_names();
        reveal_with_fuel(crate::json::member_lookup, 7);
        crate::decode::lemma_str_list_reads_back(crate::json::strings_view(a.scopes_granted@));
    }
    assert(field_str_or_empty(v, "status"@) == Some(a.status@)) by {
        lemma_app_install_names();
        reveal_with_fuel(crate::json::member_lookup, 7);
    }
    assert(is_app_install_fields_of(v, a));
}

/// The field names of an `AppInstall`, told apart.
proof fn lemma_app_install_names()
    ensures
        "app_id"@.len() == 6,
        "app_id"@[0] == 'a',
        "installed_at"@.len() == 12,
        "installed_at"@[10] == 'a',
        "installed_by"@.len() == 12,
        "installed_by"@[10] == 'b',
        "scopes_granted"@.len() == 14,
        "status"@.len() == 6,
        "status"@[0] == 's',
        "tenant_id"@.len() == 9,
{
    reveal_strlit("app_id");
    reveal_strlit("installed_at");
    reveal_strlit("installed_by");
    reveal_strlit("scopes_granted");
    reveal_strlit("status");
    reveal_strlit("tenant_id");
}

impl PendingInstall {
    /// Reads a `PendingInstall` out of a document: an object, or an array of the
    /// fields in declaration order.
    pub fn from_json(v: &Json) -> (r: Option<PendingInstall>)
        ensures
            r is Some <==> reads_as_pending_install(v@),
            r matches Some(x) ==> is_pending_install_of(v@, x),
    {
        let mut keys: Vec<&str> = Vec::new();
        let mut defaults: Vec<bool> = Vec::new();
        keys.push("pending_install_id");
        defaults.push(false);
        keys.push("consent_url");
        defaults.push(false);
        keys.push("expires_at");
        defaults.push(false);
        proof {
            assert(keys_view(keys@) =~= pending_install_keys());
            assert(defaults@ =~= pending_install_defaults());
        }
        match read_record(v, &keys, &defaults) {
            Some(doc) => Self::from_fields(&doc),
            None => None,
        }
    }

    /// Reads the record out of the object it stands for.
    fn from_fields(v: &Json) -> (r: Option<PendingInstall>)
        ensures
            r is Some <==> reads_as_pending_install_fields(v@),
            r matches Some(p) ==> is_pending_install_fields_of(v@, p),
    {
        if !v.is_object() {
            return None;
        }
        let pending_install_id = match read_str(v, "pending_install_id") {
            Some(s) => s,
            None => return None,
        };
        let consent_url = match read_str(v, "consent_url") {
            Some(s) => s,
            None => return None,
        };
        let expires_at = match read_str(v, "expires_at") {
            Some(s) => s,
            None => return None,
        };
        Some(PendingInstall { pending_install_id, consent_url, expires_at })
    }
}

impl AppManifest {
    /// Reads an `AppManifest` out of a document: an object, or an array of the
    /// fields in declaration order.
    pub fn from_json(v: &Json) -> (r: Option<AppManifest>)
        ensures
            r is Some <==> reads_as_app_manifest(v@),
            r matches Some(x) ==> is_app_manifest_of(v@, x),
    {
        let mut keys: Vec<&str> = Vec::new();
        let mut defaults: Vec<bool> = Vec::new();
        keys.push("app_id");
        defaults.push(false);
        keys.push("version");
        defaults.push(false);
        keys.push("name");
        defaults.push(false);
        keys.push("publisher");
        defaults.push(false);
        keys.push("logo_url");
        defaults.push(true);
        keys.push("scopes_required");
        defaults.push(true);
        keys.push("scopes_optional");
        defaults.push(true);
        keys.push("privacy_url");
        defaults.push(true);
        keys.push("tos_url");
        defaults.push(true);
        proof {
            assert(keys_view(keys@) =~= app_manifest_keys());
            assert(defaults@ =~= app_manifest_defaults());
        }
        match read_record(v, &keys, &defaults) {
            Some(doc) => Self::from_fields(&doc),
            None => None,
        }
    }

    /// Reads the record out of the object it stands for.
    fn from_fields(v: &Json) -> (r: Option<AppManifest>)
        ensures
            r is Some <==> reads_as_app_manifest_fields(v@),
            r matches Some(m) ==> is_app_manifest_fields_of(v@, m),
    {
        if !v.is_object() {
            return None;
        }
        let app_id = match read_str(v, "app_id") {
            Some(s) => s,
            None => return None,
        };
        let version = match read_str(v, "version") {
            Some(s) => s,
            None => return None,
        };
        let name = match read_str(v, "name") {
            Some(s) => s,
            None => return None,
        };
        let publisher = match read_str(v, "publisher") {
            Some(s) => s,
            None => return None,
        };
        let logo_url = match read_opt_str(v, "logo_url") {
            Some(s) => s,
            None => return None,
        };
        let scopes_required = match read_str_list_or_empty(v, "scopes_required") {
            Some(l) => l,
            None => return None,
        };
        let scopes_optional = match read_str_list_or_empty(v, "scopes_optional") {
            Some(l) => l,
            None => return None,
        };
        let privacy_url = match read_opt_str(v, "privacy_url") {
            Some(s) => s,
            None => return None,
        };
        let tos_url = match read_opt_str(v, "tos_url") {
            Some(s) => s,
            None => return None,
        };
        Some(
            AppManifest {
                app_id,
                version,
                name,
                publisher,
                logo_url,
                scopes_required,
                scopes_optional,
                privacy_url,
                tos_url,
            },
        )
    }
}

impl PendingInstallDetail {
    /// Reads a `PendingInstallDetail` out of a document: an object, or an array of the
    /// fields in declaration order.
    pub fn from_json(v: &Json) -> (r: Option<PendingInstallDetail>)
        ensures
            r is Some <==> reads_as_pending_install_detail(v@),
            r matches Some(x) ==> is_pending_install_detail_of(v@, x),
    {
        let mut keys: Vec<&str> = Vec::new();
        let mut defaults: Vec<bool> = Vec::new();
        keys.push("id");
        defaults.push(false);
        keys.push("app_id");
        defaults.push(false);
        keys.push("tenant_id");
        defaults.push(false);
        keys.push("requested_scopes");
        defaults.push(true);
        keys.push("return_to");
        defaults.push(true);
        keys.push("status");
        defaults.push(true);
        keys.push("expires_at");
        defaults.push(false);
        keys.push("manifest");
        defaults.push(true);
        proof {
            assert(keys_view(keys@) =~= pending_install_detail_keys());
            assert(defaults@ =~= pending_install_detail_defaults());
        }
        match read_record(v, &keys, &defaults) {
            Some(doc) => Self::from_fields(&doc),
            None => None,
        }
    }

    /// Reads the record out of the object it stands for.
    fn from_fields(v: &Json) -> (r: Option<PendingInstallDetail>)
        ensures
            r is Some <==> reads_as_pending_install_detail_fields(v@),
            r matches Some(d) ==> is_pending_install_detail_fields_of(v@, d),
    {
        if !v.is_object() {
            return None;
        }
        let id = match read_str(v, "id") {
            Some(s) => s,
            None => return None,
        };
        let app_id = match read_str(v, "app_id") {
            Some(s) => s,
            None => return None,
        };
        let tenant_id = match read_str(v, "tenant_id") {
            Some(s) => s,
            None => return None,
        };
        let requested_scopes = match read_str_list_or_empty(v, "requested_scopes") {
            Some(l) => l,
            None => return None,
        };
        let return_to = match read_str_or_empty(v, "return_to") {
            Some(s) => s,
            None => return None,
        };
        let status = match read_str_or_empty(v, "status") {
            Some(s) => s,
            None => return None,
        };
        let expires_at = match read_str(v, "expires_at") {
            Some(s) => s,
            None => return None,
        };
        let manifest = match read_opt_doc(v, "manifest") {
            Some(x) => match AppManifest::from_json(x) {
                Some(m) => Some(m),
                None => return None,
            },
            None => None,
        };
        Some(PendingInstallDetail { id, app_id, tenant_id, requested_scopes, return_to, status, expires_at, manifest })
    }
}

impl AppInstall {
    /// Reads an `AppInstall` out of a document: an object, or an array of the
    /// fields in declaration order.
    pub fn from_json(v: &Json) -> (r: Option<AppInstall>)
        ensures
            r is Some <==> reads_as_app_install(v@),
            r matches Some(x) ==> is_app_install_of(v@, x),
    {
        let mut keys: Vec<&str> = Vec::new();
        let mut defaults: Vec<bool> = Vec::new();
        keys.push("tenant_id");
        defaults.push(false);
        keys.push("app_id");
        defaults.push(false);
        keys.push("installed_at");
        defaults.push(false);
        keys.push("installed_by");
        defaults.push(true);
        keys.push("scopes_granted");
        defaults.push(true);
        keys.push("status");
        defaults.push(true);
        proof {
            assert(keys_view(keys@) =~= app_install_keys());
            assert(defaults@ =~= app_install_defaults());
        }
        match read_record(v, &keys, &defaults) {
            Some(doc) => Self::from_fields(&doc),
            None => None,
        }
    }

    /// Reads the record out of the object it stands for.
    fn from_fields(v: &Json) -> (r: Option<AppInstall>)
        ensures
            r is Some <==> reads_as_app_install_fields(v@),
            r matches Some(a) ==> is_app_install_fields_of(v@, a),
    {
        if !v.is_object() {
            return None;
        }
        let tenant_id = match read_str(v, "tenant_id") {
            Some(s) => s,
            None => return None,
        };
        let app_id = match read_str(v, "app_id") {
            Some(s) => s,
            None => return None,
        };
        let installed_at = match read_str(v, "installed_at") {
            Some(s) => s,
            None => return None,
        };
        let installed_by = match read_str_or_empty(v, "installed_by") {
            Some(s) => s,
            None => return None,
        };
        let scopes_granted = match read_str_list_or_empty(v, "scopes_granted") {
            Some(l) => l,
            None => return None,
        };
        let status = match read_str_or_empty(v, "status") {
            Some(s) => s,
            None => return None,
        };
        Some(AppInstall { tenant_id, app_id, installed_at, installed_by, scopes_granted, status })
    }

    /// Reads a list of installed apps: an array whose every item reads as
    /// one.
    pub fn list_from_json(v: &Json) -> (r: Option<Vec<AppInstall>>)
        ensures
            r is Some <==> (v@ is Array && forall|i: int|
                0 <= i < v@->Array_0.len() ==> reads_as_app_install(#[trigger] v@->Array_0[i])),
            r matches Some(l) ==> l@.len() == v@->Array_0.len() && forall|i: int|
                0 <= i < l@.len() ==> is_app_install_of(v@->Array_0[i], #[trigger] l@[i]),
    {
        match v {
            Json::Array(items) => {
                let ghost whole = v@;
                let mut out: Vec<AppInstall> = Vec::new();
                let mut i: usize = 0;
                while i < items.len()
                    invariant
                        i <= items.len(),
                        whole == v@,
                        whole == crate::json::json_view(Json::Array(*items)),
                        out@.len() == i,
                        forall|k: int| 0 <= k < i ==> is_app_install_of(whole->Array_0[k], #[trigger] out@[k]),
                    decreases items.len() - i,
                {
                    assert(whole->Array_0[i as int] == items@[i as int]@);
                    match AppInstall::from_json(&items[i]) {
                        Some(a) => out.push(a),
                        None => return None,
                    }
                    i = i + 1;
                }
                assert forall|k: int| 0 <= k < whole->Array_0.len() implies reads_as_app_install(
                    #[trigger] whole->Array_0[k],
                ) by {
                    assert(is_app_install_of(whole->Array_0[k], out@[k]));
                }
                Some(out)
            },
            _ => None,
        }
    }
}

impl AppsApi {
    /// Request an install.
    pub fn install(&self, req: AppInstallRequest) -> (r: ApiRequest)
        ensures
            r@ == json_request(HttpMethod::Post, "/apps/install"@, install_body(req)),
    {
        let ghost spec_req = req;
        let mut body = Members::new();
        body.put("app_id", Json::Str(req.app_id));
        if req.scopes.len() > 0 {
            body.put("scopes", Json::string_list(&req.scopes));
        }
        body.put("return_to", Json::Str(req.return_to));
        body.put_opt_string("idempotency_key", req.idempotency_key);
        assert(body@ =~= install_body(spec_req)->Object_0);
        ApiRequest::post("/apps/install".to_owned(), body.into_json())
    }

    /// The tenant's installed apps.
    pub fn list_installed(&self) -> (r: ApiRequest)
        ensures
            r@ == get_request("/apps/installed"@, seq![]),
    {
        ApiRequest::get_plain("/apps/installed".to_owned())
    }

    /// Remove an app.
    pub fn uninstall(&self, app_id: &str) -> (r: ApiRequest)
        ensures
            r@ == json_request(HttpMethod::Post, "/apps/uninstall/"@ + url_encoded(app_id@), empty_object()),
    {
        ApiRequest::post_empty(path_end("/apps/uninstall/", app_id))
    }

    /// An app's manifest.
    pub fn get_manifest(&self, app_id: &str) -> (r: ApiRequest)
        ensures
            r@ == get_request("/apps/manifest/"@ + url_encoded(app_id@), seq![]),
    {
        ApiRequest::get_plain(path_end("/apps/manifest/", app_id))
    }

    /// A pending install.
    pub fn get_pending_install(&self, pending_install_id: &str) -> (r: ApiRequest)
        ensures
            r@ == get_request("/apps/pending_install/"@ + url_encoded(pending_install_id@), seq![]),
    {
        ApiRequest::get_plain(path_end("/apps/pending_install/", pending_install_id))
    }

    /// Approve a pending install.
    pub fn approve_pending_install(&self, pending_install_id: &str) -> (r: ApiRequest)
        ensures
            r@ == json_request(
                HttpMethod::Post,
                "/apps/pending_install/"@ + url_encoded(pending_install_id@) + "/approve"@,
                empty_object(),
            ),
    {
        ApiRequest::post_empty(path_with("/apps/pending_install/", pending_install_id, "/approve"))
    }

    /// Deny a pending install.
    pub fn deny_pending_install(&self, pending_install_id: &str) -> (r: ApiRequest)
        ensures
            r@ == json_request(
                HttpMethod::Post,
                "/apps/pending_install/"@ + url_encoded(pending_install_id@) + "/deny"@,
                empty_object(),
            ),
    {
        ApiRequest::post_empty(path_with("/apps/pending_install/", pending_install_id, "/deny"))
    }
}

} // verus!
