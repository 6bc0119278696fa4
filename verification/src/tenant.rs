//! Tenant lifecycle from the tenant's side: provisioning, reading and
//! updating the current tenant, retiring it, listing the caller's tenants,
//! and switching into another one.

use vstd::prelude::*;
use crate::decode::{keys_view, read_record, record_of};
use crate::error::{ErrorView, OlympusError};
use crate::decode::{
    field_bool_or_false, field_doc_or_null, field_opt_str, field_str_list_or_empty, field_str_or_empty,
    read_bool_or_false, read_doc_or_null, read_opt_str, read_str, read_str_list_or_empty, read_str_or_empty,
};
use crate::http::{empty_object, get_request, json_request, ApiRequest, HttpMethod};
use crate::json::{
    is_object, json_get, json_str_member, object_of, opt_member, opt_str, opt_string, opt_string_member, str_list_value,
    str_or_null, strings_view, text_member, Json, JsonValue, Members,
};

verus! {

/// Plans the calls of the tenant lifecycle.
pub struct TenantApi;

/// The first administrator of a new tenant.
#[derive(Debug, Clone, Default)]
pub struct TenantFirstAdmin {
    pub firebase_link: Option<String>,
    pub email: String,
    pub first_name: String,
    pub last_name: String,
}

/// A tenant to provision.
#[derive(Debug, Clone, Default)]
pub struct TenantCreateRequest {
    pub brand_name: String,
    pub slug: String,
    pub plan: String,
    pub first_admin: TenantFirstAdmin,
    pub install_apps: Vec<String>,
    pub billing_address: Option<String>,
    pub tax_id: Option<String>,
    pub idempotency_key: String,
}

/// Changes to the current tenant; only the set fields are sent.
#[derive(Debug, Clone, Default)]
pub struct TenantUpdate {
    pub brand_name: Option<String>,
    pub plan: Option<String>,
    pub billing_address: Option<String>,
    pub tax_id: Option<String>,
    pub locale: Option<String>,
    pub timezone: Option<String>,
}

/// The tokens a tenant switch hands back.
#[derive(Debug, Clone, Default)]
pub struct ExchangedSession {
    pub access_token: Option<String>,
    pub refresh_token: Option<String>,
    pub access_expires_at: Option<String>,
}

/// An app installed during provisioning.
#[derive(Debug, Clone)]
pub struct AppInstall {
    pub app_id: String,
    pub status: String,
    pub installed_at: String,
}

/// The tenant record. The settings, features, branding and metadata blobs
/// are kept as documents.
#[derive(Debug)]
pub struct Tenant {
    pub id: String,
    pub slug: String,
    pub name: String,
    pub legal_name: Option<String>,
    pub industry: String,
    pub subscription_tier: String,
    pub parent_id: Option<String>,
    pub path: Option<String>,
    pub settings: Json,
    pub features: Json,
    pub branding: Json,
    pub locale: Option<String>,
    pub timezone: Option<String>,
    pub billing_email: Option<String>,
    pub stripe_customer_id: Option<String>,
    pub stripe_connect_account_id: Option<String>,
    pub trial_ends_at: Option<String>,
    pub is_active: bool,
    pub is_suspended: bool,
    pub suspension_reason: Option<String>,
    pub company_id: Option<String>,
    pub metadata: Json,
    pub tags: Vec<String>,
    pub is_nebusai_company: bool,
    pub created_at: String,
    pub updated_at: String,
    pub deleted_at: Option<String>,
    pub retired_at: Option<String>,
}

/// The answer to a provisioning request. `idempotent` is set when the
/// request repeated an earlier idempotency key, and `tenant` is then the
/// tenant that first request created.
#[derive(Debug)]
pub struct TenantProvisionResult {
    pub tenant: Tenant,
    pub admin_user_id: String,
    pub session: ExchangedSession,
    pub installed_apps: Vec<AppInstall>,
    pub idempotent: bool,
}

/// A tenant the caller belongs to.
#[derive(Debug, Clone)]
pub struct TenantOption {
    pub tenant_id: String,
    pub slug: String,
    pub name: String,
    pub role: Option<String>,
}

/// Whether `o` is what the object `v` reads as: the role optional.
pub open spec fn is_tenant_option_fields_of(v: JsonValue, o: TenantOption) -> bool {
    &&& is_object(v)
    &&& json_str_member(v, "tenant_id"@) == Some(o.tenant_id@)
    &&& json_str_member(v, "slug"@) == Some(o.slug@)
    &&& json_str_member(v, "name"@) == Some(o.name@)
    &&& field_opt_str(v, "role"@) == Some(opt_string(o.role))
}

/// Whether the object `v` reads as a tenant the caller belongs to.
pub open spec fn reads_as_tenant_option_fields(v: JsonValue) -> bool {
    &&& is_object(v)
    &&& json_str_member(v, "tenant_id"@) is Some
    &&& json_str_member(v, "slug"@) is Some
    &&& json_str_member(v, "name"@) is Some
    &&& field_opt_str(v, "role"@) is Some
}

/// The field names of a `TenantOption`, in declaration order.
pub open spec fn tenant_option_keys() -> Seq<Seq<char>> {
    seq!["tenant_id"@, "slug"@, "name"@, "role"@]
}

/// Which fields of a `TenantOption` may be left out.
pub open spec fn tenant_option_defaults() -> Seq<bool> {
    seq![false, false, false, true]
}

/// Whether `x` is what the record document `v` (an object, or an array of
/// the fields in order) reads as.
pub open spec fn is_tenant_option_of(v: JsonValue, x: TenantOption) -> bool {
    record_of(v, tenant_option_keys(), tenant_option_defaults()) matches Some(o) && is_tenant_option_fields_of(o, x)
}

/// Whether the record document `v` reads as a `TenantOption`.
pub open spec fn reads_as_tenant_option(v: JsonValue) -> bool {
    record_of(v, tenant_option_keys(), tenant_option_defaults()) matches Some(o) && reads_as_tenant_option_fields(o)
}

/// The object that writes each field of a `TenantOption` under its own name.
pub open spec fn tenant_option_object(o: TenantOption) -> JsonValue {
    JsonValue::Object(seq![
        ("tenant_id"@, JsonValue::Str(o.tenant_id@)),
        ("slug"@, JsonValue::Str(o.slug@)),
        ("name"@, JsonValue::Str(o.name@)),
        ("role"@, crate::json::str_or_null(crate::json::opt_string(o.role))),
    ])
}

/// A `TenantOption` whose fields are written under their own names reads back as
/// the same `TenantOption`.
pub proof fn lemma_tenant_option_reads_back(o: TenantOption)
    ensures
        is_tenant_option_of(tenant_option_object(o), o),
{
    let v = tenant_option_object(o);
    assert(json_str_member(v, "tenant_id"@) == Some(o.tenant_id@)) by {
        lemma_tenant_option_names();
        reveal_with_fuel(crate::json::member_lookup, 5);
    }
    assert(json_str_member(v, "slug"@) == Some(o.slug@)) by {
        lemma_tenant_option_names();
        reveal_with_fuel(crate::json::member_lookup, 5);
    }
    assert(json_str_member(v, "name"@) == Some(o.name@)) by {
        lemma_tenant_option_names();
        reveal_with_fuel(crate::json::member_lookup, 5);
    }
    assert(field_opt_str(v, "role"@) == Some(opt_string(o.role))) by {
        lemma_tenant_option_names();
        reveal_with_fuel(crate::json::member_lookup, 5);
    }
    assert(is_tenant_option_fields_of(v, o));
}

/// The field names of a `TenantOption`, told apart.
proof fn lemma_tenant_option_names()
    ensures
        "name"@.len() == 4,
        "name"@[0] == 'n',
        "role"@.len() == 4,
        "role"@[0] == 'r',
        "slug"@.len() == 4,
        "slug"@[0] == 's',
        "tenant_id"@.len() == 9,
{
    reveal_strlit("name");
    reveal_strlit("role");
    reveal_strlit("slug");
    reveal_strlit("tenant_id");
}

/// Whether `a` is what the object `v` reads as.
pub open spec fn is_app_install_fields_of(v: JsonValue, a: AppInstall) -> bool {
    &&& is_object(v)
    &&& json_str_member(v, "app_id"@) == Some(a.app_id@)
    &&& json_str_member(v, "status"@) == Some(a.status@)
    &&& json_str_member(v, "installed_at"@) == Some(a.installed_at@)
}

/// Whether the object `v` reads as an app installed during provisioning.
pub open spec fn reads_as_app_install_fields(v: JsonValue) -> bool {
    &&& is_object(v)
    &&& json_str_member(v, "app_id"@) is Some
    &&& json_str_member(v, "status"@) is Some
    &&& json_str_member(v, "installed_at"@) is Some
}

/// The field names of an `AppInstall`, in declaration order.
pub open spec fn app_install_keys() -> Seq<Seq<char>> {
    seq!["app_id"@, "status"@, "installed_at"@]
}

/// Which fields of an `AppInstall` may be left out.
pub open spec fn app_install_defaults() -> Seq<bool> {
    seq![false, false, false]
}

/// Whether `x` is what the record document `v` (an object, or an array of
/// the fields in order) reads as.
pub open spec fn is_app_install_of(v: JsonValue, x: AppInstall) -> bool {
    record_of(v, app_install_keys(), app_install_defaults()) matches Some(o) && is_app_install_fields_of(o, x)
}

/// Whether the record document `v` reads as an `AppInstall`.
pub open spec fn reads_as_app_install(v: JsonValue) -> bool {
    record_of(v, app_install_keys(), app_install_defaults()) matches Some(o) && reads_as_app_install_fields(o)
}

/// The object that writes each field of an `AppInstall` under its own name.
pub open spec fn app_install_object(a: AppInstall) -> JsonValue {
    JsonValue::Object(seq![
        ("app_id"@, JsonValue::Str(a.app_id@)),
        ("status"@, JsonValue::Str(a.status@)),
        ("installed_at"@, JsonValue::Str(a.installed_at@)),
    ])
}

/// An `AppInstall` whose fields are written under their own names reads back as
/// the same `AppInstall`.
pub proof fn lemma_app_install_reads_back(a: AppInstall)
    ensures
        is_app_install_of(app_install_object(a), a),
{
    let v = app_install_object(a);
    assert(json_str_member(v, "app_id"@) == Some(a.app_id@)) by {
        lemma_app_install_names();
        reveal_with_fuel(crate::json::member_lookup, 4);
    }
    assert(json_str_member(v, "status"@) == Some(a.status@)) by {
        lemma_app_install_names();
        reveal_with_fuel(crate::json::member_lookup, 4);
    }
    assert(json_str_member(v, "installed_at"@) == Some(a.installed_at@)) by {
        lemma_app_install_names();
        reveal_with_fuel(crate::json::member_lookup, 4);
    }
    assert(is_app_install_fields_of(v, a));
}

/// The field names of an `AppInstall`, told apart.
proof fn lemma_app_install_names()
    ensures
        "app_id"@.len() == 6,
        "app_id"@[0] == 'a',
        "installed_at"@.len() == 12,
        "status"@.len() == 6,
        "status"@[0] == 's',
{
    reveal_strlit("app_id");
    reveal_strlit("installed_at");
    reveal_strlit("status");
}

/// Whether `t` carries the identity, naming and status fields the document
/// `v` reads as.
pub open spec fn tenant_names_of(v: JsonValue, t: Tenant) -> bool {
    &&& json_str_member(v, "id"@) == Some(t.id@)
    &&& json_str_member(v, "slug"@) == Some(t.slug@)
    &&& json_str_member(v, "name"@) == Some(t.name@)
    &&& field_opt_str(v, "legal_name"@) == Some(opt_string(t.legal_name))
    &&& field_str_or_empty(v, "industry"@) == Some(t.industry@)
    &&& field_str_or_empty(v, "subscription_tier"@) == Some(t.subscription_tier@)
    &&& field_opt_str(v, "parent_id"@) == Some(opt_string(t.parent_id))
    &&& field_opt_str(v, "path"@) == Some(opt_string(t.path))
    &&& field_doc_or_null(v, "settings"@) == t.settings@
    &&& field_doc_or_null(v, "features"@) == t.features@
    &&& field_doc_or_null(v, "branding"@) == t.branding@
    &&& field_opt_str(v, "locale"@) == Some(opt_string(t.locale))
    &&& field_opt_str(v, "timezone"@) == Some(opt_string(t.timezone))
}

/// Whether `t` carries the billing, lifecycle and bookkeeping fields the
/// document `v` reads as.
pub open spec fn tenant_accounts_of(v: JsonValue, t: Tenant) -> bool {
    &&& field_opt_str(v, "billing_email"@) == Some(opt_string(t.billing_email))
    &&& field_opt_str(v, "stripe_customer_id"@) == Some(opt_string(t.stripe_customer_id))
    &&& field_opt_str(v, "stripe_connect_account_id"@) == Some(opt_string(t.stripe_connect_account_id))
    &&& field_opt_str(v, "trial_ends_at"@) == Some(opt_string(t.trial_ends_at))
    &&& field_bool_or_false(v, "is_active"@) == Some(t.is_active)
    &&& field_bool_or_false(v, "is_suspended"@) == Some(t.is_suspended)
    &&& field_opt_str(v, "suspension_reason"@) == Some(opt_string(t.suspension_reason))
    &&& field_opt_str(v, "company_id"@) == Some(opt_string(t.company_id))
    &&& field_doc_or_null(v, "metadata"@) == t.metadata@
    &&& field_str_list_or_empty(v, "tags"@) == Some(strings_view(t.tags@))
    &&& field_bool_or_false(v, "is_nebusai_company"@) == Some(t.is_nebusai_company)
    &&& field_str_or_empty(v, "created_at"@) == Some(t.created_at@)
    &&& field_str_or_empty(v, "updated_at"@) == Some(t.updated_at@)
    &&& field_opt_str(v, "deleted_at"@) == Some(opt_string(t.deleted_at))
    &&& field_opt_str(v, "retired_at"@) == Some(opt_string(t.retired_at))
}

/// Whether `t` is what the object `v` reads as: `id`, `slug` and `name`
/// required; every other field optional, or empty, `false` or `null` when
/// absent.
pub open spec fn is_tenant_fields_of(v: JsonValue, t: Tenant) -> bool {
    &&& is_object(v)
    &&& tenant_names_of(v, t)
    &&& tenant_accounts_of(v, t)
}

/// Whether the object `v` reads as a tenant record.
pub open spec fn reads_as_tenant_fields(v: JsonValue) -> bool {
    &&& is_object(v)
    &&& json_str_member(v, "id"@) is Some
    &&& json_str_member(v, "slug"@) is Some
    &&& json_str_member(v, "name"@) is Some
    &&& field_opt_str(v, "legal_name"@) is Some
    &&& field_str_or_empty(v, "industry"@) is Some
    &&& field_str_or_empty(v, "subscription_tier"@) is Some
    &&& field_opt_str(v, "parent_id"@) is Some
    &&& field_opt_str(v, "path"@) is Some
    &&& field_opt_str(v, "locale"@) is Some
    &&& field_opt_str(v, "timezone"@) is Some
    &&& field_opt_str(v, "billing_email"@) is Some
    &&& field_opt_str(v, "stripe_customer_id"@) is Some
    &&& field_opt_str(v, "stripe_connect_account_id"@) is Some
    &&& field_opt_str(v, "trial_ends_at"@) is Some
    &&& field_bool_or_false(v, "is_active"@) is Some
    &&& field_bool_or_false(v, "is_suspended"@) is Some
    &&& field_opt_str(v, "suspension_reason"@) is Some
    &&& field_opt_str(v, "company_id"@) is Some
    &&& field_str_list_or_empty(v, "tags"@) is Some
    &&& field_bool_or_false(v, "is_nebusai_company"@) is Some
    &&& field_str_or_empty(v, "created_at"@) is Some
    &&& field_str_or_empty(v, "updated_at"@) is Some
    &&& field_opt_str(v, "deleted_at"@) is Some
    &&& field_opt_str(v, "retired_at"@) is Some
}

/// The field names of a `Tenant`, in declaration order.
pub open spec fn tenant_keys() -> Seq<Seq<char>> {
    seq!["id"@, "slug"@, "name"@, "legal_name"@, "industry"@, "subscription_tier"@, "parent_id"@, "path"@, "settings"@, "features"@, "branding"@, "locale"@, "timezone"@, "billing_email"@, "stripe_customer_id"@, "stripe_connect_account_id"@, "trial_ends_at"@, "is_active"@, "is_suspended"@, "suspension_reason"@, "company_id"@, "metadata"@, "tags"@, "is_nebusai_company"@, "created_at"@, "updated_at"@, "deleted_at"@, "retired_at"@]
}

/// Which fields of a `Tenant` may be left out.
pub open spec fn tenant_defaults() -> Seq<bool> {
    seq![false, false, false, true, true, true, true, true, true, true, true, true, true, true, true, true, true, true, true, true, true, true, true, true, true, true, true, true]
}

/// Whether `x` is what the record document `v` (an object, or an array of
/// the fields in order) reads as.
pub open spec fn is_tenant_of(v: JsonValue, x: Tenant) -> bool {
    record_of(v, tenant_keys(), tenant_defaults()) matches Some(o) && is_tenant_fields_of(o, x)
}

/// Whether the record document `v` reads as a `Tenant`.
pub open spec fn reads_as_tenant(v: JsonValue) -> bool {
    record_of(v, tenant_keys(), tenant_defaults()) matches Some(o) && reads_as_tenant_fields(o)
}

/// Whether `s` is what the object `v` reads as: each token optional.
pub open spec fn is_exchanged_session_fields_of(v: JsonValue, s: ExchangedSession) -> bool {
    &&& is_object(v)
    &&& field_opt_str(v, "access_token"@) == Some(opt_string(s.access_token))
    &&& field_opt_str(v, "refresh_token"@) == Some(opt_string(s.refresh_token))
    &&& field_opt_str(v, "access_expires_at"@) == Some(opt_string(s.access_expires_at))
}

/// Whether the object `v` reads as a session.
pub open spec fn reads_as_exchanged_session_fields(v: JsonValue) -> bool {
    &&& is_object(v)
    &&& field_opt_str(v, "access_token"@) is Some
    &&& field_opt_str(v, "refresh_token"@) is Some
    &&& field_opt_str(v, "access_expires_at"@) is Some
}

/// The field names of an `ExchangedSession`, in declaration order.
pub open spec fn exchanged_session_keys() -> Seq<Seq<char>> {
    seq!["access_token"@, "refresh_token"@, "access_expires_at"@]
}

/// Which fields of an `ExchangedSession` may be left out.
pub open spec fn exchanged_session_defaults() -> Seq<bool> {
    seq![true, true, true]
}

/// Whether `x` is what the record document `v` (an object, or an array of
/// the fields in order) reads as.
pub open spec fn is_exchanged_session_of(v: JsonValue, x: ExchangedSession) -> bool {
    record_of(v, exchanged_session_keys(), exchanged_session_defaults()) matches Some(o) && is_exchanged_session_fields_of(o, x)
}

/// Whether the record document `v` reads as an `ExchangedSession`.
pub open spec fn reads_as_exchanged_session(v: JsonValue) -> bool {
    record_of(v, exchanged_session_keys(), exchanged_session_defaults()) matches Some(o) && reads_as_exchanged_session_fields(o)
}

/// The object that writes each field of an `ExchangedSession` under its own name.
pub open spec fn exchanged_session_object(s: ExchangedSession) -> JsonValue {
    JsonValue::Object(seq![
        ("access_token"@, crate::json::str_or_null(crate::json::opt_string(s.access_token))),
        ("refresh_token"@, crate::json::str_or_null(crate::json::opt_string(s.refresh_token))),
        ("access_expires_at"@, crate::json::str_or_null(crate::json::opt_string(s.access_expires_at))),
    ])
}

/// An `ExchangedSession` whose fields are written under their own names reads back as
/// the same `ExchangedSession`.
pub proof fn lemma_exchanged_session_reads_back(s: ExchangedSession)
    ensures
        is_exchanged_session_of(exchanged_session_object(s), s),
{
    let v = exchanged_session_object(s);
    assert(field_opt_str(v, "access_token"@) == Some(opt_string(s.access_token))) by {
        lemma_exchanged_session_names();
        reveal_with_fuel(crate::json::member_lookup, 4);
    }
    assert(field_opt_str(v, "refresh_token"@) == Some(opt_string(s.refresh_token))) by {
        lemma_exchanged_session_names();
        reveal_with_fuel(crate::json::member_lookup, 4);
    }
    assert(field_opt_str(v, "access_expires_at"@) == Some(opt_string(s.access_expires_at))) by {
        lemma_exchanged_session_names();
        reveal_with_fuel(crate::json::member_lookup, 4);
    }
    assert(is_exchanged_session_fields_of(v, s));
}

/// The field names of an `ExchangedSession`, told apart.
proof fn lemma_exchanged_session_names()
    ensures
        "access_expires_at"@.len() == 17,
        "access_token"@.len() == 12,
        "refresh_token"@.len() == 13,
{
    reveal_strlit("access_expires_at");
    reveal_strlit("access_token");
    reveal_strlit("refresh_token");
}

/// Whether `l` is what the list document `x` reads as, item by item.
pub open spec fn is_app_install_list_of(x: JsonValue, l: Seq<AppInstall>) -> bool {
    &&& x is Array
    &&& l.len() == x->Array_0.len()
    &&& forall|i: int| 0 <= i < l.len() ==> is_app_install_of(x->Array_0[i], #[trigger] l[i])
}

/// Whether `x` is a list whose every item reads as a provisioned app.
pub open spec fn reads_as_app_install_list(x: JsonValue) -> bool {
    &&& x is Array
    &&& forall|i: int| 0 <= i < x->Array_0.len() ==> reads_as_app_install(#[trigger] x->Array_0[i])
}

/// Whether `r` is what the object `v` reads as: the tenant required; the
/// admin id empty, the session without tokens, no installed apps and
/// `idempotent` false when absent.
pub open spec fn is_provision_result_fields_of(v: JsonValue, r: TenantProvisionResult) -> bool {
    &&& is_object(v)
    &&& json_get(v, "tenant"@) matches Some(t) && is_tenant_of(t, r.tenant)
    &&& field_str_or_empty(v, "admin_user_id"@) == Some(r.admin_user_id@)
    &&& match json_get(v, "session"@) {
        Some(x) => is_exchanged_session_of(x, r.session),
        None => r.session.access_token is None && r.session.refresh_token is None
            && r.session.access_expires_at is None,
    }
    &&& match json_get(v, "installed_apps"@) {
        Some(x) => is_app_install_list_of(x, r.installed_apps@),
        None => r.installed_apps@.len() == 0,
    }
    &&& field_bool_or_false(v, "idempotent"@) == Some(r.idempotent)
}

/// Whether the object `v` reads as the answer to a provisioning request.
pub open spec fn reads_as_provision_result_fields(v: JsonValue) -> bool {
    &&& is_object(v)
    &&& json_get(v, "tenant"@) matches Some(t) && reads_as_tenant(t)
    &&& field_str_or_empty(v, "admin_user_id"@) is Some
    &&& match json_get(v, "session"@) {
        Some(x) => reads_as_exchanged_session(x),
        None => true,
    }
    &&& match json_get(v, "installed_apps"@) {
        Some(x) => reads_as_app_install_list(x),
        None => true,
    }
    &&& field_bool_or_false(v, "idempotent"@) is Some
}

/// The field names of a `TenantProvisionResult`, in declaration order.
pub open spec fn provision_result_keys() -> Seq<Seq<char>> {
    seq!["tenant"@, "admin_user_id"@, "session"@, "installed_apps"@, "idempotent"@]
}

/// Which fields of a `TenantProvisionResult` may be left out.
pub open spec fn provision_result_defaults() -> Seq<bool> {
    seq![false, true, true, true, true]
}

/// Whether `x` is what the record document `v` (an object, or an array of
/// the fields in order) reads as.
pub open spec fn is_provision_result_of(v: JsonValue, x: TenantProvisionResult) -> bool {
    record_of(v, provision_result_keys(), provision_result_defaults()) matches Some(o) && is_provision_result_fields_of(o, x)
}

/// Whether the record document `v` reads as a `TenantProvisionResult`.
pub open spec fn reads_as_provision_result(v: JsonValue) -> bool {
    record_of(v, provision_result_keys(), provision_result_defaults()) matches Some(o) && reads_as_provision_result_fields(o)
}

impl Tenant {
    /// Reads a `Tenant` out of a document: an object, or an array of the
    /// fields in declaration order.
    pub fn from_json(v: &Json) -> (r: Option<Tenant>)
        ensures
            r is Some <==> reads_as_tenant(v@),
            r matches Some(x) ==> is_tenant_of(v@, x),
    {
        let mut keys: Vec<&str> = Vec::new();
        let mut defaults: Vec<bool> = Vec::new();
        keys.push("id");
        defaults.push(false);
        keys.push("slug");
        defaults.push(false);
        keys.push("name");
        defaults.push(false);
        keys.push("legal_name");
        defaults.push(true);
        keys.push("industry");
        defaults.push(true);
        keys.push("subscription_tier");
        defaults.push(true);
        keys.push("parent_id");
        defaults.push(true);
        keys.push("path");
        defaults.push(true);
        keys.push("settings");
        defaults.push(true);
        keys.push("features");
        defaults.push(true);
        keys.push("branding");
        defaults.push(true);
        keys.push("locale");
        defaults.push(true);
        keys.push("timezone");
        defaults.push(true);
        keys.push("billing_email");
        defaults.push(true);
        keys.push("stripe_customer_id");
        defaults.push(true);
        keys.push("stripe_connect_account_id");
        defaults.push(true);
        keys.push("trial_ends_at");
        defaults.push(true);
        keys.push("is_active");
        defaults.push(true);
        keys.push("is_suspended");
        defaults.push(true);
        keys.push("suspension_reason");
        defaults.push(true);
        keys.push("company_id");
        defaults.push(true);
        keys.push("metadata");
        defaults.push(true);
        keys.push("tags");
        defaults.push(true);
        keys.push("is_nebusai_company");
        defaults.push(true);
        keys.push("created_at");
        defaults.push(true);
        keys.push("updated_at");
        defaults.push(true);
        keys.push("deleted_at");
        defaults.push(true);
        keys.push("retired_at");
        defaults.push(true);
        proof {
            assert(keys_view(keys@) =~= tenant_keys());
            assert(defaults@ =~= tenant_defaults());
        }
        match read_record(v, &keys, &defaults) {
            Some(doc) => Self::from_fields(&doc),
            None => None,
        }
    }

    /// Reads the record out of the object it stands for.
    fn from_fields(v: &Json) -> (r: Option<Tenant>)
        ensures
            r is Some <==> reads_as_tenant_fields(v@),
            r matches Some(t) ==> is_tenant_fields_of(v@, t),
    {
        if !v.is_object() {
            return None;
        }
        let id = match read_str(v, "id") {
            Some(s) => s,
            None => return None,
        };
        let slug = match read_str(v, "slug") {
            Some(s) => s,
            None => return None,
        };
        let name = match read_str(v, "name") {
            Some(s) => s,
            None => return None,
        };
        let legal_name = match read_opt_str(v, "legal_name") {
            Some(s) => s,
            None => return None,
        };
        let industry = match read_str_or_empty(v, "industry") {
            Some(s) => s,
            None => return None,
        };
        let subscription_tier = match read_str_or_empty(v, "subscription_tier") {
            Some(s) => s,
            None => return None,
        };
        let parent_id = match read_opt_str(v, "parent_id") {
            Some(s) => s,
            None => return None,
        };
        let path = match read_opt_str(v, "path") {
            Some(s) => s,
            None => return None,
        };
        let settings = read_doc_or_null(v, "settings");
        let features = read_doc_or_null(v, "features");
        let branding = read_doc_or_null(v, "branding");
        let locale = match read_opt_str(v, "locale") {
            Some(s) => s,
            None => return None,
        };
        let timezone = match read_opt_str(v, "timezone") {
            Some(s) => s,
            None => return None,
        };
        let billing_email = match read_opt_str(v, "billing_email") {
            Some(s) => s,
            None => return None,
        };
        let stripe_customer_id = match read_opt_str(v, "stripe_customer_id") {
            Some(s) => s,
            None => return None,
        };
        let stripe_connect_account_id = match read_opt_str(v, "stripe_connect_account_id") {
            Some(s) => s,
            None => return None,
        };
        let trial_ends_at = match read_opt_str(v, "trial_ends_at") {
            Some(s) => s,
            None => return None,
        };
        let is_active = match read_bool_or_false(v, "is_active") {
            Some(b) => b,
            None => return None,
        };
        let is_suspended = match read_bool_or_false(v, "is_suspended") {
            Some(b) => b,
            None => return None,
        };
        let suspension_reason = match read_opt_str(v, "suspension_reason") {
            Some(s) => s,
            None => return None,
        };
        let company_id = match read_opt_str(v, "company_id") {
            Some(s) => s,
            None => return None,
        };
        let metadata = read_doc_or_null(v, "metadata");
        let tags = match read_str_list_or_empty(v, "tags") {
            Some(l) => l,
            None => return None,
        };
        let is_nebusai_company = match read_bool_or_false(v, "is_nebusai_company") {
            Some(b) => b,
            None => return None,
        };
        let created_at = match read_str_or_empty(v, "created_at") {
            Some(s) => s,
            None => return None,
        };
        let updated_at = match read_str_or_empty(v, "updated_at") {
            Some(s) => s,
            None => return None,
        };
        let deleted_at = match read_opt_str(v, "deleted_at") {
            Some(s) => s,
            None => return None,
        };
        let retired_at = match read_opt_str(v, "retired_at") {
            Some(s) => s,
            None => return None,
        };
        Some(
            Tenant {
                id,
                slug,
                name,
                legal_name,
                industry,
                subscription_tier,
                parent_id,
                path,
                settings,
                features,
                branding,
                locale,
                timezone,
                billing_email,
                stripe_customer_id,
                stripe_connect_account_id,
                trial_ends_at,
                is_active,
                is_suspended,
                suspension_reason,
                company_id,
                metadata,
                tags,
                is_nebusai_company,
                created_at,
                updated_at,
                deleted_at,
                retired_at,
            },
        )
    }
}

impl ExchangedSession {
    /// Reads an `ExchangedSession` out of a document: an object, or an array of the
    /// fields in declaration order.
    pub fn from_json(v: &Json) -> (r: Option<ExchangedSession>)
        ensures
            r is Some <==> reads_as_exchanged_session(v@),
            r matches Some(x) ==> is_exchanged_session_of(v@, x),
    {
        let mut keys: Vec<&str> = Vec::new();
        let mut defaults: Vec<bool> = Vec::new();
        keys.push("access_token");
        defaults.push(true);
        keys.push("refresh_token");
        defaults.push(true);
        keys.push("access_expires_at");
        defaults.push(true);
        proof {
            assert(keys_view(keys@) =~= exchanged_session_keys());
            assert(defaults@ =~= exchanged_session_defaults());
        }
        match read_record(v, &keys, &defaults) {
            Some(doc) => Self::from_fields(&doc),
            None => None,
        }
    }

    /// Reads the record out of the object it stands for.
    fn from_fields(v: &Json) -> (r: Option<ExchangedSession>)
        ensures
            r is Some <==> reads_as_exchanged_session_fields(v@),
            r matches Some(s) ==> is_exchanged_session_fields_of(v@, s),
    {
        if !v.is_object() {
            return None;
        }
        let access_token = match read_opt_str(v, "access_token") {
            Some(s) => s,
            None => return None,
        };
        let refresh_token = match read_opt_str(v, "refresh_token") {
            Some(s) => s,
            None => return None,
        };
        let access_expires_at = match read_opt_str(v, "access_expires_at") {
            Some(s) => s,
            None => return None,
        };
        Some(ExchangedSession { access_token, refresh_token, access_expires_at })
    }
}

impl TenantProvisionResult {
    /// Reads a `TenantProvisionResult` out of a document: an object, or an array of the
    /// fields in declaration order.
    pub fn from_json(v: &Json) -> (r: Option<TenantProvisionResult>)
        ensures
            r is Some <==> reads_as_provision_result(v@),
            r matches Some(x) ==> is_provision_result_of(v@, x),
    {
        let mut keys: Vec<&str> = Vec::new();
        let mut defaults: Vec<bool> = Vec::new();
        keys.push("tenant");
        defaults.push(false);
        keys.push("admin_user_id");
        defaults.push(true);
        keys.push("session");
        defaults.push(true);
        keys.push("installed_apps");
        defaults.push(true);
        keys.push("idempotent");
        defaults.push(true);
        proof {
            assert(keys_view(keys@) =~= provision_result_keys());
            assert(defaults@ =~= provision_result_defaults());
        }
        match read_record(v, &keys, &defaults) {
            Some(doc) => Self::from_fields(&doc),
            None => None,
        }
    }

    /// Reads the record out of the object it stands for.
    fn from_fields(v: &Json) -> (r: Option<TenantProvisionResult>)
        ensures
            r is Some <==> reads_as_provision_result_fields(v@),
            r matches Some(x) ==> is_provision_result_fields_of(v@, x),
    {
        if !v.is_object() {
            return None;
        }
        let tenant = match v.get("tenant") {
            Some(t) => match Tenant::from_json(t) {
                Some(t) => t,
                None => return None,
            },
            None => return None,
        };
        let admin_user_id = match read_str_or_empty(v, "admin_user_id") {
            Some(s) => s,
            None => return None,
        };
        let session = match v.get("session") {
            Some(x) => match ExchangedSession::from_json(x) {
                Some(s) => s,
                None => return None,
            },
            None => ExchangedSession { access_token: None, refresh_token: None, access_expires_at: None },
        };
        let installed_apps = match v.get("installed_apps") {
            Some(x) => match AppInstall::list_from_json(x) {
                Some(l) => l,
                None => return None,
            },
            None => Vec::new(),
        };
        let idempotent = match read_bool_or_false(v, "idempotent") {
            Some(b) => b,
            None => return None,
        };
        Some(TenantProvisionResult { tenant, admin_user_id, session, installed_apps, idempotent })
    }
}

impl TenantOption {
    /// Reads a `TenantOption` out of a document: an object, or an array of the
    /// fields in declaration order.
    pub fn from_json(v: &Json) -> (r: Option<TenantOption>)
        ensures
            r is Some <==> reads_as_tenant_option(v@),
            r matches Some(x) ==> is_tenant_option_of(v@, x),
    {
        let mut keys: Vec<&str> = Vec::new();
        let mut defaults: Vec<bool> = Vec::new();
        keys.push("tenant_id");
        defaults.push(false);
        keys.push("slug");
        defaults.push(false);
        keys.push("name");
        defaults.push(false);
        keys.push("role");
        defaults.push(true);
        proof {
            assert(keys_view(keys@) =~= tenant_option_keys());
            assert(defaults@ =~= tenant_option_defaults());
        }
        match read_record(v, &keys, &defaults) {
            Some(doc) => Self::from_fields(&doc),
            None => None,
        }
    }

    /// Reads the record out of the object it stands for.
    fn from_fields(v: &Json) -> (r: Option<TenantOption>)
        ensures
            r is Some <==> reads_as_tenant_option_fields(v@),
            r matches Some(o) ==> is_tenant_option_fields_of(v@, o),
    {
        if !v.is_object() {
            return None;
        }
        let tenant_id = match read_str(v, "tenant_id") {
            Some(s) => s,
            None => return None,
        };
        let slug = match read_str(v, "slug") {
            Some(s) => s,
            None => return None,
        };
        let name = match read_str(v, "name") {
            Some(s) => s,
            None => return None,
        };
        let role = match read_opt_str(v, "role") {
            Some(s) => s,
            None => return None,
        };
        Some(TenantOption { tenant_id, slug, name, role })
    }

    /// Reads the caller's tenants: an array whose every item reads as one.
    pub fn list_from_json(v: &Json) -> (r: Option<Vec<TenantOption>>)
        ensures
            r is Some <==> (v@ is Array && forall|i: int|
                0 <= i < v@->Array_0.len() ==> reads_as_tenant_option(#[trigger] v@->Array_0[i])),
            r matches Some(l) ==> l@.len() == v@->Array_0.len() && forall|i: int|
                0 <= i < l@.len() ==> is_tenant_option_of(v@->Array_0[i], #[trigger] l@[i]),
    {
        match v {
            Json::Array(items) => {
                let ghost whole = v@;
                let mut out: Vec<TenantOption> = Vec::new();
                let mut i: usize = 0;
                while i < items.len()
                    invariant
                        i <= items.len(),
                        whole == v@,
                        whole == crate::json::json_view(Json::Array(*items)),
                        out@.len() == i,
                        forall|k: int| 0 <= k < i ==> is_tenant_option_of(whole->Array_0[k], #[trigger] out@[k]),
                    decreases items.len() - i,
                {
                    assert(whole->Array_0[i as int] == items@[i as int]@);
                    match TenantOption::from_json(&items[i]) {
                        Some(o) => out.push(o),
                        None => return None,
                    }
                    i = i + 1;
                }
                assert forall|k: int| 0 <= k < whole->Array_0.len() implies reads_as_tenant_option(
                    #[trigger] whole->Array_0[k],
                ) by {
                    assert(is_tenant_option_of(whole->Array_0[k], out@[k]));
                }
                Some(out)
            },
            _ => None,
        }
    }
}

impl AppInstall {
    /// Reads an `AppInstall` out of a document: an object, or an array of the
    /// fields in declaration order.
    pub fn from_json(v: &Json) -> (r: Option<AppInstall>)
        ensures
            r is Some <==> reads_as_app_install(v@),
            r matches Some(x) ==> is_app_install_of(v@, x),
    {
        let mut keys: Vec<&str> = Vec::new();
        let mut defaults: Vec<bool> = Vec::new();
        keys.push("app_id");
        defaults.push(false);
        keys.push("status");
        defaults.push(false);
        keys.push("installed_at");
        defaults.push(false);
        proof {
            assert(keys_view(keys@) =~= app_install_keys());
            assert(defaults@ =~= app_install_defaults());
        }
        match read_record(v, &keys, &defaults) {
            Some(doc) => Self::from_fields(&doc),
            None => None,
        }
    }

    /// Reads the record out of the object it stands for.
    fn from_fields(v: &Json) -> (r: Option<AppInstall>)
        ensures
            r is Some <==> reads_as_app_install_fields(v@),
            r matches Some(a) ==> is_app_install_fields_of(v@, a),
    {
        if !v.is_object() {
            return None;
        }
        let app_id = match read_str(v, "app_id") {
            Some(s) => s,
            None => return None,
        };
        let status = match read_str(v, "status") {
            Some(s) => s,
            None => return None,
        };
        let installed_at = match read_str(v, "installed_at") {
            Some(s) => s,
            None => return None,
        };
        Some(AppInstall { app_id, status, installed_at })
    }

    /// Reads a list of provisioned apps: an array whose every item reads as
    /// one.
    pub fn list_from_json(v: &Json) -> (r: Option<Vec<AppInstall>>)
        ensures
            r is Some <==> reads_as_app_install_list(v@),
            r matches Some(l) ==> is_app_install_list_of(v@, l@),
    {
        match v {
            Json::Array(items) => {
                let ghost whole = v@;
                let mut out: Vec<AppInstall> = Vec::new();
                let mut i: usize = 0;
                while i < items.len()
                    invariant
                        i <= items.len(),
                        whole == v@,
                        whole == crate::json::json_view(Json::Array(*items)),
                        out@.len() == i,
                        forall|k: int| 0 <= k < i ==> is_app_install_of(whole->Array_0[k], #[trigger] out@[k]),
                    decreases items.len() - i,
                {
                    assert(whole->Array_0[i as int] == items@[i as int]@);
                    match AppInstall::from_json(&items[i]) {
                        Some(a) => out.push(a),
                        None => return None,
                    }
                    i = i + 1;
                }
                assert forall|k: int| 0 <= k < whole->Array_0.len() implies reads_as_app_install(
                    #[trigger] whole->Array_0[k],
                ) by {
                    assert(is_app_install_of(whole->Array_0[k], out@[k]));
                }
                Some(out)
            },
            _ => None,
        }
    }
}

pub open spec fn first_admin_value(a: TenantFirstAdmin) -> JsonValue {
    object_of(
        opt_string_member("firebase_link"@, a.firebase_link)
            + seq![
                text_member("email"@, a.email@),
                text_member("first_name"@, a.first_name@),
                text_member("last_name"@, a.last_name@),
            ],
    )
}

/// The body of a provisioning request.
pub open spec fn tenant_create_body(req: TenantCreateRequest) -> JsonValue {
    object_of(
        seq![
            text_member("brand_name"@, req.brand_name@),
            text_member("slug"@, req.slug@),
            text_member("plan"@, req.plan@),
            ("first_admin"@, first_admin_value(req.first_admin)),
        ] + (if req.install_apps@.len() == 0 {
            Seq::empty()
        } else {
            seq![("install_apps"@, str_list_value(strings_view(req.install_apps@)))]
        }) + opt_string_member("billing_address"@, req.billing_address)
            + opt_string_member("tax_id"@, req.tax_id)
            + seq![text_member("idempotency_key"@, req.idempotency_key@)],
    )
}

/// The provisioning body reads back as the request: the brand, slug, plan
/// and idempotency key under their own names, the apps to install (none
/// when the list is empty), the optional billing address and tax id, and
/// under `first_admin` an object that gives the admin's email, first name,
/// last name and Firebase link each under its own name.
pub proof fn lemma_tenant_create_body_reads_back(req: TenantCreateRequest)
    ensures
        json_str_member(tenant_create_body(req), "brand_name"@) == Some(req.brand_name@),
        json_str_member(tenant_create_body(req), "slug"@) == Some(req.slug@),
        json_str_member(tenant_create_body(req), "plan"@) == Some(req.plan@),
        json_str_member(tenant_create_body(req), "idempotency_key"@) == Some(req.idempotency_key@),
        field_str_list_or_empty(tenant_create_body(req), "install_apps"@) == Some(strings_view(req.install_apps@)),
        field_opt_str(tenant_create_body(req), "billing_address"@) == Some(opt_string(req.billing_address)),
        field_opt_str(tenant_create_body(req), "tax_id"@) == Some(opt_string(req.tax_id)),
        json_get(tenant_create_body(req), "first_admin"@) matches Some(a) && {
            &&& json_str_member(a, "email"@) == Some(req.first_admin.email@)
            &&& json_str_member(a, "first_name"@) == Some(req.first_admin.first_name@)
            &&& json_str_member(a, "last_name"@) == Some(req.first_admin.last_name@)
            &&& field_opt_str(a, "firebase_link"@) == Some(opt_string(req.first_admin.firebase_link))
        },
{
    broadcast use crate::json::lemma_member_lookup_append, crate::json::lemma_member_lookup_opt;

    reveal_strlit("brand_name");
    reveal_strlit("slug");
    reveal_strlit("plan");
    reveal_strlit("first_admin");
    reveal_strlit("install_apps");
    reveal_strlit("billing_address");
    reveal_strlit("tax_id");
    reveal_strlit("idempotency_key");
    reveal_strlit("email");
    reveal_strlit("first_name");
    reveal_strlit("last_name");
    reveal_strlit("firebase_link");
    assert("brand_name"@.len() == 10 && "brand_name"@[0] == 'b');
    assert("slug"@.len() == 4 && "slug"@[0] == 's');
    assert("plan"@.len() == 4 && "plan"@[0] == 'p');
    assert("first_admin"@.len() == 11);
    assert("install_apps"@.len() == 12);
    assert("billing_address"@.len() == 15);
    assert("tax_id"@.len() == 6);
    assert("idempotency_key"@.len() == 15 && "idempotency_key"@[0] == 'i');
    assert("email"@.len() == 5);
    assert("first_name"@.len() == 10 && "first_name"@[0] == 'f');
    assert("last_name"@.len() == 9);
    assert("firebase_link"@.len() == 13);
    reveal_with_fuel(crate::json::member_lookup, 5);
    crate::decode::lemma_str_list_reads_back(strings_view(req.install_apps@));
}

/// A tenant update sends each field that is set under its own name, and
/// no other.
pub proof fn lemma_tenant_update_body_reads_back(p: TenantUpdate)
    ensures
        field_opt_str(tenant_update_body(p), "brand_name"@) == Some(opt_string(p.brand_name)),
        field_opt_str(tenant_update_body(p), "plan"@) == Some(opt_string(p.plan)),
        field_opt_str(tenant_update_body(p), "billing_address"@) == Some(opt_string(p.billing_address)),
        field_opt_str(tenant_update_body(p), "tax_id"@) == Some(opt_string(p.tax_id)),
        field_opt_str(tenant_update_body(p), "locale"@) == Some(opt_string(p.locale)),
        field_opt_str(tenant_update_body(p), "timezone"@) == Some(opt_string(p.timezone)),
{
    broadcast use crate::json::lemma_member_lookup_append, crate::json::lemma_member_lookup_opt;

    reveal_strlit("brand_name");
    reveal_strlit("plan");
    reveal_strlit("billing_address");
    reveal_strlit("tax_id");
    reveal_strlit("locale");
    reveal_strlit("timezone");
    assert("brand_name"@.len() == 10);
    assert("plan"@.len() == 4);
    assert("billing_address"@.len() == 15);
    assert("tax_id"@.len() == 6 && "tax_id"@[0] == 't');
    assert("locale"@.len() == 6 && "locale"@[0] == 'l');
    assert("timezone"@.len() == 8);
}

pub open spec fn tenant_update_body(p: TenantUpdate) -> JsonValue {
    object_of(
        opt_string_member("brand_name"@, p.brand_name)
            + opt_string_member("plan"@, p.plan)
            + opt_string_member("billing_address"@, p.billing_address)
            + opt_string_member("tax_id"@, p.tax_id)
            + opt_string_member("locale"@, p.locale)
            + opt_string_member("timezone"@, p.timezone),
    )
}

/// Where the token half of a switch goes: the platform's `auth_endpoint`
/// when it names one, `/auth/switch-tenant` otherwise.
pub open spec fn auth_endpoint_of(platform_resp: JsonValue) -> Seq<char> {
    match json_str_member(platform_resp, "auth_endpoint"@) {
        Some(e) => e,
        None => "/auth/switch-tenant"@,
    }
}

/// What a token reply becomes: the three token fields that are strings;
/// a reply that is not an object is an error.
pub open spec fn token_response_spec(v: JsonValue) -> Result<(Option<Seq<char>>, Option<Seq<char>>, Option<Seq<char>>), ErrorView> {
    if is_object(v) {
        Ok((
            json_str_member(v, "access_token"@),
            json_str_member(v, "refresh_token"@),
            json_str_member(v, "access_expires_at"@),
        ))
    } else {
        Err(ErrorView::Api {
            status: 500,
            code: "UNKNOWN"@,
            message: "expected JSON object from /auth/switch-tenant"@,
            request_id: None,
        })
    }
}

/// A tenant-switch reply that gives the access token, the refresh token and
/// the expiry reads as exactly those three, in that order; an empty object
/// reads as none of them.
pub proof fn lemma_token_reply_reads_back(a: Seq<char>, r: Seq<char>, e: Seq<char>)
    ensures
        token_response_spec(JsonValue::Object(seq![
            ("access_token"@, JsonValue::Str(a)),
            ("refresh_token"@, JsonValue::Str(r)),
            ("access_expires_at"@, JsonValue::Str(e)),
        ])) == Ok::<_, ErrorView>((Some(a), Some(r), Some(e))),
        token_response_spec(JsonValue::Object(Seq::empty())) == Ok::<_, ErrorView>((
            None::<Seq<char>>,
            None::<Seq<char>>,
            None::<Seq<char>>,
        )),
{
    reveal_strlit("access_token");
    reveal_strlit("refresh_token");
    reveal_strlit("access_expires_at");
    assert("access_token"@.len() == 12 && "access_token"@[0] == 'a');
    assert("refresh_token"@.len() == 13);
    assert("access_expires_at"@.len() == 17);
    reveal_with_fuel(crate::json::member_lookup, 4);
}

pub open spec fn session_outcome(r: Result<ExchangedSession, OlympusError>) -> Result<(Option<Seq<char>>, Option<Seq<char>>, Option<Seq<char>>), ErrorView> {
    match r {
        Ok(s) => Ok((opt_string(s.access_token), opt_string(s.refresh_token), opt_string(s.access_expires_at))),
        Err(e) => Err(e@),
    }
}

/// Read the tokens out of a tenant-switch reply.
pub fn parse_token_response(value: &Json) -> (r: Result<ExchangedSession, OlympusError>)
    ensures
        session_outcome(r) == token_response_spec(value@),
{
    if !value.is_object() {
        return Err(OlympusError::Api {
            status: 500,
            code: "UNKNOWN".to_owned(),
            message: "expected JSON object from /auth/switch-tenant".to_owned(),
            request_id: None,
        });
    }
    Ok(ExchangedSession {
        access_token: value.str_member("access_token"),
        refresh_token: value.str_member("refresh_token"),
        access_expires_at: value.str_member("access_expires_at"),
    })
}

fn first_admin_json(a: TenantFirstAdmin) -> (r: Json)
    ensures
        r@ == first_admin_value(a),
{
    let ghost spec_a = a;
    let mut m = Members::new();
    m.put_opt_string("firebase_link", a.firebase_link);
    m.put("email", Json::Str(a.email));
    m.put("first_name", Json::Str(a.first_name));
    m.put("last_name", Json::Str(a.last_name));
    assert(m@ =~= first_admin_value(spec_a)->Object_0);
    m.into_json()
}

/// The body that [`TenantApi::switch_tenant_auth`] sends.
pub open spec fn switch_tenant_auth_body(tenant_id: &str) -> JsonValue {
    object_of(seq![text_member("tenant_id"@, tenant_id@)])
}

/// What `switch_tenant_auth_body` builds reads back field by field: each value the
/// arguments give is found under its own name, an optional one only when
/// it is set, and a list as the same items in the same order.
pub proof fn lemma_switch_tenant_auth_body_reads_back(tenant_id: &str)
    ensures
        crate::json::json_str_member(switch_tenant_auth_body(tenant_id), "tenant_id"@) == Some(tenant_id@),
{
    assert(crate::json::json_str_member(switch_tenant_auth_body(tenant_id), "tenant_id"@) == Some(tenant_id@)) by {
        broadcast use crate::json::lemma_member_lookup_append, crate::json::lemma_member_lookup_opt;

        lemma_switch_tenant_auth_body_keys();
        reveal_with_fuel(crate::json::member_lookup, 2);
    }
}

/// The field names that `switch_tenant_auth_body` uses, told apart.
proof fn lemma_switch_tenant_auth_body_keys()
    ensures
        "tenant_id"@.len() == 9,
{
    reveal_strlit("tenant_id");
}

/// The body that [`TenantApi::switch_tenant`] sends.
pub open spec fn switch_tenant_body(tenant_id: &str) -> JsonValue {
    object_of(seq![text_member("tenant_id"@, tenant_id@)])
}

/// What `switch_tenant_body` builds reads back field by field: each value the
/// arguments give is found under its own name, an optional one only when
/// it is set, and a list as the same items in the same order.
pub proof fn lemma_switch_tenant_body_reads_back(tenant_id: &str)
    ensures
        crate::json::json_str_member(switch_tenant_body(tenant_id), "tenant_id"@) == Some(tenant_id@),
{
    assert(crate::json::json_str_member(switch_tenant_body(tenant_id), "tenant_id"@) == Some(tenant_id@)) by {
        broadcast use crate::json::lemma_member_lookup_append, crate::json::lemma_member_lookup_opt;

        lemma_switch_tenant_body_keys();
        reveal_with_fuel(crate::json::member_lookup, 2);
    }
}

/// The field names that `switch_tenant_body` uses, told apart.
proof fn lemma_switch_tenant_body_keys()
    ensures
        "tenant_id"@.len() == 9,
{
    reveal_strlit("tenant_id");
}

/// The body that [`TenantApi::retire_with_reason`] sends.
pub open spec fn retire_with_reason_body(confirmation_slug: &str, reason: Option<&str>) -> JsonValue {
    object_of(seq![
        text_member("confirmation_slug"@, confirmation_slug@),
        ("reason"@, str_or_null(opt_str(reason))),
    ])
}

/// What `retire_with_reason_body` builds reads back field by field: each value the
/// arguments give is found under its own name, an optional one only when
/// it is set, and a list as the same items in the same order.
pub proof fn lemma_retire_with_reason_body_reads_back(confirmation_slug: &str, reason: Option<&str>)
    ensures
        crate::json::json_str_member(retire_with_reason_body(confirmation_slug, reason), "confirmation_slug"@) == Some(confirmation_slug@),
        crate::json::json_get(retire_with_reason_body(confirmation_slug, reason), "reason"@) == Some(str_or_null(opt_str(reason))),
{
    assert(crate::json::json_str_member(retire_with_reason_body(confirmation_slug, reason), "confirmation_slug"@) == Some(confirmation_slug@)) by {
        broadcast use crate::json::lemma_member_lookup_append, crate::json::lemma_member_lookup_opt;

        lemma_retire_with_reason_body_keys();
        reveal_with_fuel(crate::json::member_lookup, 3);
    }
    assert(crate::json::json_get(retire_with_reason_body(confirmation_slug, reason), "reason"@) == Some(str_or_null(opt_str(reason)))) by {
        broadcast use crate::json::lemma_member_lookup_append, crate::json::lemma_member_lookup_opt;

        lemma_retire_with_reason_body_keys();
        reveal_with_fuel(crate::json::member_lookup, 3);
    }
}

/// The field names that `retire_with_reason_body` uses, told apart.
proof fn lemma_retire_with_reason_body_keys()
    ensures
        "confirmation_slug"@.len() == 17,
        "reason"@.len() == 6,
{
    reveal_strlit("confirmation_slug");
    reveal_strlit("reason");
}

/// The body that [`TenantApi::retire`] sends.
pub open spec fn retire_body(confirmation_slug: &str) -> JsonValue {
    object_of(seq![text_member("confirmation_slug"@, confirmation_slug@), ("reason"@, JsonValue::Null)])
}

/// What `retire_body` builds reads back field by field: each value the
/// arguments give is found under its own name, an optional one only when
/// it is set, and a list as the same items in the same order.
pub proof fn lemma_retire_body_reads_back(confirmation_slug: &str)
    ensures
        crate::json::json_str_member(retire_body(confirmation_slug), "confirmation_slug"@) == Some(confirmation_slug@),
        crate::json::json_get(retire_body(confirmation_slug), "reason"@) == Some(JsonValue::Null),
{
    assert(crate::json::json_str_member(retire_body(confirmation_slug), "confirmation_slug"@) == Some(confirmation_slug@)) by {
        broadcast use crate::json::lemma_member_lookup_append, crate::json::lemma_member_lookup_opt;

        lemma_retire_body_keys();
        reveal_with_fuel(crate::json::member_lookup, 3);
    }
    assert(crate::json::json_get(retire_body(confirmation_slug), "reason"@) == Some(JsonValue::Null)) by {
        broadcast use crate::json::lemma_member_lookup_append, crate::json::lemma_member_lookup_opt;

        lemma_retire_body_keys();
        reveal_with_fuel(crate::json::member_lookup, 3);
    }
}

/// The field names that `retire_body` uses, told apart.
proof fn lemma_retire_body_keys()
    ensures
        "confirmation_slug"@.len() == 17,
        "reason"@.len() == 6,
{
    reveal_strlit("confirmation_slug");
    reveal_strlit("reason");
}

impl TenantApi {
    /// Provision a tenant with its first admin.
    pub fn create(&self, req: TenantCreateRequest) -> (r: ApiRequest)
        ensures
            r@ == json_request(HttpMethod::Post, "/tenant/create"@, tenant_create_body(req)),
    {
        let ghost spec_req = req;
        let mut body = Members::new();
        body.put("brand_name", Json::Str(req.brand_name));
        body.put("slug", Json::Str(req.slug));
        body.put("plan", Json::Str(req.plan));
        body.put("first_admin", first_admin_json(req.first_admin));
        if req.install_apps.len() > 0 {
            body.put("install_apps", Json::string_list(&req.install_apps));
        }
        body.put_opt_string("billing_address", req.billing_address);
        body.put_opt_string("tax_id", req.tax_id);
        body.put("idempotency_key", Json::Str(req.idempotency_key));
        assert(body@ =~= tenant_create_body(spec_req)->Object_0);
        ApiRequest::post("/tenant/create".to_owned(), body.into_json())
    }

    /// The current tenant.
    pub fn current(&self) -> (r: ApiRequest)
        ensures
            r@ == get_request("/tenant/current"@, seq![]),
    {
        ApiRequest::get_plain("/tenant/current".to_owned())
    }

    /// Update the current tenant.
    pub fn update(&self, patch: TenantUpdate) -> (r: ApiRequest)
        ensures
            r@ == json_request(HttpMethod::Patch, "/tenant/current"@, tenant_update_body(patch)),
    {
        let ghost p = patch;
        let mut body = Members::new();
        body.put_opt_string("brand_name", patch.brand_name);
        body.put_opt_string("plan", patch.plan);
        body.put_opt_string("billing_address", patch.billing_address);
        body.put_opt_string("tax_id", patch.tax_id);
        body.put_opt_string("locale", patch.locale);
        body.put_opt_string("timezone", patch.timezone);
        assert(body@ =~= tenant_update_body(p)->Object_0);
        ApiRequest::patch("/tenant/current".to_owned(), body.into_json())
    }

    /// Retire the current tenant, confirmed by its slug (no reason).
    pub fn retire(&self, confirmation_slug: &str) -> (r: ApiRequest)
        ensures
            r@ == json_request(
                HttpMethod::Post,
                "/tenant/retire"@,
                retire_body(confirmation_slug),
            ),
    {
        self.retire_with_reason(confirmation_slug, None)
    }

    /// Retire the current tenant, confirmed by its slug, with a reason when
    /// given (`null` otherwise).
    pub fn retire_with_reason(&self, confirmation_slug: &str, reason: Option<&str>) -> (r: ApiRequest)
        ensures
            r@ == json_request(
                HttpMethod::Post,
                "/tenant/retire"@,
                retire_with_reason_body(confirmation_slug, reason),
            ),
    {
        let mut body = Members::new();
        body.put_str("confirmation_slug", confirmation_slug);
        body.put("reason", Json::string_or_null(reason));
        assert(body@ =~= seq![
            text_member("confirmation_slug"@, confirmation_slug@),
            ("reason"@, str_or_null(opt_str(reason))),
        ]);
        ApiRequest::post("/tenant/retire".to_owned(), body.into_json())
    }

    /// Undo a retirement.
    pub fn unretire(&self) -> (r: ApiRequest)
        ensures
            r@ == json_request(HttpMethod::Post, "/tenant/unretire"@, empty_object()),
    {
        ApiRequest::post_empty("/tenant/unretire".to_owned())
    }

    /// The caller's tenants.
    pub fn my_tenants(&self) -> (r: ApiRequest)
        ensures
            r@ == get_request("/tenant/mine"@, seq![]),
    {
        ApiRequest::get_plain("/tenant/mine".to_owned())
    }

    /// The platform half of a tenant switch.
    pub fn switch_tenant(&self, tenant_id: &str) -> (r: ApiRequest)
        ensures
            r@ == json_request(HttpMethod::Post, "/tenant/switch"@, switch_tenant_body(tenant_id)),
    {
        let mut body = Members::new();
        body.put_str("tenant_id", tenant_id);
        assert(body@ =~= seq![text_member("tenant_id"@, tenant_id@)]);
        ApiRequest::post("/tenant/switch".to_owned(), body.into_json())
    }

    /// The token half of a tenant switch, sent where the platform's reply
    /// says.
    pub fn switch_tenant_auth(&self, platform_resp: &Json, tenant_id: &str) -> (r: ApiRequest)
        ensures
            r@ == json_request(
                HttpMethod::Post,
                auth_endpoint_of(platform_resp@),
                switch_tenant_auth_body(tenant_id),
            ),
    {
        let endpoint = match platform_resp.str_member("auth_endpoint") {
            Some(e) => e,
            None => "/auth/switch-tenant".to_owned(),
        };
        let mut body = Members::new();
        body.put_str("tenant_id", tenant_id);
        assert(body@ =~= seq![text_member("tenant_id"@, tenant_id@)]);
        ApiRequest::post(endpoint, body.into_json())
    }
}

} // verus!
