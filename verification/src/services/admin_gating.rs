//! Feature gating administration: features, plan features, resource
//! limits and evaluation.

use vstd::prelude::*;
use crate::http::{get_request, json_request, path_raw, path_raw2, path_tail, ApiRequest, HttpMethod};
use crate::json::{
    int_value, object_of, opt_str, opt_text_member, str_list_value, str_or_null, strings_view, text_member,
    Json, JsonValue, Members,
};

verus! {

/// Plans the calls of feature gating administration.
pub struct AdminGatingService;

/// The body that [`AdminGatingService::evaluate_feature`] sends.
pub open spec fn evaluate_feature_body(feature_key: &str, tenant_id: Option<&str>, user_id: Option<&str>) -> JsonValue {
    object_of(
        seq![text_member("feature_key"@, feature_key@)]
            + opt_text_member("tenant_id"@, tenant_id)
            + opt_text_member("user_id"@, user_id),
    )
}

/// What `evaluate_feature_body` builds reads back field by field: each value the
/// arguments give is found under its own name, an optional one only when
/// it is set, and a list as the same items in the same order.
pub proof fn lemma_evaluate_feature_body_reads_back(feature_key: &str, tenant_id: Option<&str>, user_id: Option<&str>)
    ensures
        crate::json::json_str_member(evaluate_feature_body(feature_key, tenant_id, user_id), "feature_key"@) == Some(feature_key@),
        crate::decode::field_opt_str(evaluate_feature_body(feature_key, tenant_id, user_id), "tenant_id"@) == Some(crate::json::opt_str(tenant_id)),
        crate::decode::field_opt_str(evaluate_feature_body(feature_key, tenant_id, user_id), "user_id"@) == Some(crate::json::opt_str(user_id)),
{
    assert(crate::json::json_str_member(evaluate_feature_body(feature_key, tenant_id, user_id), "feature_key"@) == Some(feature_key@)) by {
        broadcast use crate::json::lemma_member_lookup_append, crate::json::lemma_member_lookup_opt;

        lemma_evaluate_feature_body_keys();
        reveal_with_fuel(crate::json::member_lookup, 2);
    }
    assert(crate::decode::field_opt_str(evaluate_feature_body(feature_key, tenant_id, user_id), "tenant_id"@) == Some(crate::json::opt_str(tenant_id))) by {
        broadcast use crate::json::lemma_member_lookup_append, crate::json::lemma_member_lookup_opt;

        lemma_evaluate_feature_body_keys();
        reveal_with_fuel(crate::json::member_lookup, 2);
    }
    assert(crate::decode::field_opt_str(evaluate_feature_body(feature_key, tenant_id, user_id), "user_id"@) == Some(crate::json::opt_str(user_id))) by {
        broadcast use crate::json::lemma_member_lookup_append, crate::json::lemma_member_lookup_opt;

        lemma_evaluate_feature_body_keys();
        reveal_with_fuel(crate::json::member_lookup, 2);
    }
}

/// The field names that `evaluate_feature_body` uses, told apart.
proof fn lemma_evaluate_feature_body_keys()
    ensures
        "feature_key"@.len() == 11,
        "tenant_id"@.len() == 9,
        "user_id"@.len() == 7,
{
    reveal_strlit("feature_key");
    reveal_strlit("tenant_id");
    reveal_strlit("user_id");
}

/// The body that [`AdminGatingService::set_resource_limit`] sends.
pub open spec fn set_resource_limit_body(limit: i64) -> JsonValue {
    object_of(seq![("limit"@, int_value(limit))])
}

/// What `set_resource_limit_body` builds reads back field by field: each value the
/// arguments give is found under its own name, an optional one only when
/// it is set, and a list as the same items in the same order.
pub proof fn lemma_set_resource_limit_body_reads_back(limit: i64)
    ensures
        crate::json::json_get(set_resource_limit_body(limit), "limit"@) == Some(int_value(limit)),
{
    assert(crate::json::json_get(set_resource_limit_body(limit), "limit"@) == Some(int_value(limit))) by {
        broadcast use crate::json::lemma_member_lookup_append, crate::json::lemma_member_lookup_opt;

        lemma_set_resource_limit_body_keys();
        reveal_with_fuel(crate::json::member_lookup, 2);
    }
}

/// The field names that `set_resource_limit_body` uses, told apart.
proof fn lemma_set_resource_limit_body_keys()
    ensures
        "limit"@.len() == 5,
{
    reveal_strlit("limit");
}

/// The body that [`AdminGatingService::set_plan_features`] sends.
pub open spec fn set_plan_features_body(feature_keys: &Vec<String>) -> JsonValue {
    object_of(seq![("feature_keys"@, str_list_value(strings_view(feature_keys@)))])
}

/// What `set_plan_features_body` builds reads back field by field: each value the
/// arguments give is found under its own name, an optional one only when
/// it is set, and a list as the same items in the same order.
pub proof fn lemma_set_plan_features_body_reads_back(feature_keys: &Vec<String>)
    ensures
        crate::decode::field_str_list(set_plan_features_body(feature_keys), "feature_keys"@) == Some(strings_view(feature_keys@)),
{
    assert(crate::decode::field_str_list(set_plan_features_body(feature_keys), "feature_keys"@) == Some(strings_view(feature_keys@))) by {
        broadcast use crate::json::lemma_member_lookup_append, crate::json::lemma_member_lookup_opt;

        lemma_set_plan_features_body_keys();
        reveal_with_fuel(crate::json::member_lookup, 2);
        crate::decode::lemma_str_list_reads_back(strings_view(feature_keys@));
    }
}

/// The field names that `set_plan_features_body` uses, told apart.
proof fn lemma_set_plan_features_body_keys()
    ensures
        "feature_keys"@.len() == 12,
{
    reveal_strlit("feature_keys");
}

/// The body that [`AdminGatingService::define_feature`] sends.
pub open spec fn define_feature_body(key: &str, description: Option<&str>, enabled: bool) -> JsonValue {
    object_of(seq![
        text_member("key"@, key@),
        ("description"@, str_or_null(opt_str(description))),
        ("enabled"@, JsonValue::Bool(enabled)),
    ])
}

/// What `define_feature_body` builds reads back field by field: each value the
/// arguments give is found under its own name, an optional one only when
/// it is set, and a list as the same items in the same order.
pub proof fn lemma_define_feature_body_reads_back(key: &str, description: Option<&str>, enabled: bool)
    ensures
        crate::json::json_str_member(define_feature_body(key, description, enabled), "key"@) == Some(key@),
        crate::json::json_get(define_feature_body(key, description, enabled), "description"@) == Some(str_or_null(opt_str(description))),
        crate::json::json_get(define_feature_body(key, description, enabled), "enabled"@) == Some(JsonValue::Bool(enabled)),
{
    assert(crate::json::json_str_member(define_feature_body(key, description, enabled), "key"@) == Some(key@)) by {
        broadcast use crate::json::lemma_member_lookup_append, crate::json::lemma_member_lookup_opt;

        lemma_define_feature_body_keys();
        reveal_with_fuel(crate::json::member_lookup, 4);
    }
    assert(crate::json::json_get(define_feature_body(key, description, enabled), "description"@) == Some(str_or_null(opt_str(description)))) by {
        broadcast use crate::json::lemma_member_lookup_append, crate::json::lemma_member_lookup_opt;

        lemma_define_feature_body_keys();
        reveal_with_fuel(crate::json::member_lookup, 4);
    }
    assert(crate::json::json_get(define_feature_body(key, description, enabled), "enabled"@) == Some(JsonValue::Bool(enabled))) by {
        broadcast use crate::json::lemma_member_lookup_append, crate::json::lemma_member_lookup_opt;

        lemma_define_feature_body_keys();
        reveal_with_fuel(crate::json::member_lookup, 4);
    }
}

/// The field names that `define_feature_body` uses, told apart.
proof fn lemma_define_feature_body_keys()
    ensures
        "description"@.len() == 11,
        "enabled"@.len() == 7,
        "key"@.len() == 3,
{
    reveal_strlit("description");
    reveal_strlit("enabled");
    reveal_strlit("key");
}

impl AdminGatingService {
    /// Define a feature; an absent description is sent as `null`.
    pub fn define_feature(&self, key: &str, description: Option<&str>, enabled: bool) -> (r: ApiRequest)
        ensures
            r@ == json_request(
                HttpMethod::Post,
                "/admin/gating/features"@,
                define_feature_body(key, description, enabled),
            ),
    {
        let mut body = Members::new();
        body.put_str("key", key);
        body.put("description", Json::string_or_null(description));
        body.put_bool("enabled", enabled);
        assert(body@ =~= seq![
            text_member("key"@, key@),
            ("description"@, str_or_null(opt_str(description))),
            ("enabled"@, JsonValue::Bool(enabled)),
        ]);
        ApiRequest::post("/admin/gating/features".to_owned(), body.into_json())
    }

    /// Update a feature. The key is placed in the path as given.
    pub fn update_feature(&self, key: &str, updates: Json) -> (r: ApiRequest)
        ensures
            r@ == json_request(HttpMethod::Put, "/admin/gating/features/"@ + key@, updates@),
    {
        ApiRequest::put(path_tail("/admin/gating/features/", key), updates)
    }

    /// List the features.
    pub fn list_features(&self) -> (r: ApiRequest)
        ensures
            r@ == get_request("/admin/gating/features"@, seq![]),
    {
        ApiRequest::get_plain("/admin/gating/features".to_owned())
    }

    /// Set the features of a plan.
    pub fn set_plan_features(&self, plan_id: &str, feature_keys: &Vec<String>) -> (r: ApiRequest)
        ensures
            r@ == json_request(
                HttpMethod::Put,
                "/admin/gating/plans/"@ + plan_id@ + "/features"@,
                set_plan_features_body(feature_keys),
            ),
    {
        let mut body = Members::new();
        body.put("feature_keys", Json::string_list(feature_keys));
        assert(body@ =~= seq![("feature_keys"@, str_list_value(strings_view(feature_keys@)))]);
        ApiRequest::put(path_raw("/admin/gating/plans/", plan_id, "/features"), body.into_json())
    }

    /// The features of a plan.
    pub fn get_plan_features(&self, plan_id: &str) -> (r: ApiRequest)
        ensures
            r@ == get_request("/admin/gating/plans/"@ + plan_id@ + "/features"@, seq![]),
    {
        ApiRequest::get_plain(path_raw("/admin/gating/plans/", plan_id, "/features"))
    }

    /// Set a plan's limit on a resource.
    pub fn set_resource_limit(&self, plan_id: &str, resource: &str, limit: i64) -> (r: ApiRequest)
        ensures
            r@ == json_request(
                HttpMethod::Put,
                "/admin/gating/plans/"@ + plan_id@ + "/limits/"@ + resource@,
                set_resource_limit_body(limit),
            ),
    {
        let mut body = Members::new();
        body.put("limit", Json::integer(limit));
        assert(body@ =~= seq![("limit"@, int_value(limit))]);
        ApiRequest::put(path_raw2("/admin/gating/plans/", plan_id, "/limits/", resource), body.into_json())
    }

    /// Evaluate a feature, for a tenant and a user when given.
    pub fn evaluate_feature(&self, feature_key: &str, tenant_id: Option<&str>, user_id: Option<&str>) -> (r: ApiRequest)
        ensures
            r@ == json_request(
                HttpMethod::Post,
                "/admin/gating/evaluate"@,
                evaluate_feature_body(feature_key, tenant_id, user_id),
            ),
    {
        let mut body = Members::new();
        body.put_str("feature_key", feature_key);
        body.put_opt_str("tenant_id", tenant_id);
        body.put_opt_str("user_id", user_id);
        assert(body@ =~= seq![text_member("feature_key"@, feature_key@)]
            + opt_text_member("tenant_id"@, tenant_id)
            + opt_text_member("user_id"@, user_id));
        ApiRequest::post("/admin/gating/evaluate".to_owned(), body.into_json())
    }
}

} // verus!
