//! Billing administration: plans, add-ons, minute packs and usage meters.

use vstd::prelude::*;
use crate::http::{delete_request, get_request, json_request, opt_pair, path_tail, ApiRequest, HttpMethod, Query};
use crate::json::{object_of, opt_str, text_member, Json, JsonValue, Members};

verus! {

/// Plans the calls of billing administration.
pub struct AdminBillingService;

/// The body that [`AdminBillingService::record_usage`] sends.
pub open spec fn record_usage_body(meter_type: &str, quantity: Json) -> JsonValue {
    object_of(seq![text_member("meter_type"@, meter_type@), ("quantity"@, quantity@)])
}

/// What `record_usage_body` builds reads back field by field: each value the
/// arguments give is found under its own name, an optional one only when
/// it is set, and a list as the same items in the same order.
pub proof fn lemma_record_usage_body_reads_back(meter_type: &str, quantity: Json)
    ensures
        crate::json::json_str_member(record_usage_body(meter_type, quantity), "meter_type"@) == Some(meter_type@),
        crate::json::json_get(record_usage_body(meter_type, quantity), "quantity"@) == Some(quantity@),
{
    assert(crate::json::json_str_member(record_usage_body(meter_type, quantity), "meter_type"@) == Some(meter_type@)) by {
        broadcast use crate::json::lemma_member_lookup_append, crate::json::lemma_member_lookup_opt;

        lemma_record_usage_body_keys();
        reveal_with_fuel(crate::json::member_lookup, 3);
    }
    assert(crate::json::json_get(record_usage_body(meter_type, quantity), "quantity"@) == Some(quantity@)) by {
        broadcast use crate::json::lemma_member_lookup_append, crate::json::lemma_member_lookup_opt;

        lemma_record_usage_body_keys();
        reveal_with_fuel(crate::json::member_lookup, 3);
    }
}

/// The field names that `record_usage_body` uses, told apart.
proof fn lemma_record_usage_body_keys()
    ensures
        "meter_type"@.len() == 10,
        "quantity"@.len() == 8,
{
    reveal_strlit("meter_type");
    reveal_strlit("quantity");
}

impl AdminBillingService {
    /// Create a billing plan.
    pub fn create_plan(&self, plan: Json) -> (r: ApiRequest)
        ensures
            r@ == json_request(HttpMethod::Post, "/admin/billing/plans"@, plan@),
    {
        ApiRequest::post("/admin/billing/plans".to_owned(), plan)
    }

    /// Update a plan. The identifier is placed in the path as given.
    pub fn update_plan(&self, plan_id: &str, updates: Json) -> (r: ApiRequest)
        ensures
            r@ == json_request(HttpMethod::Put, "/admin/billing/plans/"@ + plan_id@, updates@),
    {
        ApiRequest::put(path_tail("/admin/billing/plans/", plan_id), updates)
    }

    /// Delete a plan.
    pub fn delete_plan(&self, plan_id: &str) -> (r: ApiRequest)
        ensures
            r@ == delete_request("/admin/billing/plans/"@ + plan_id@),
    {
        ApiRequest::delete(path_tail("/admin/billing/plans/", plan_id))
    }

    /// List the plans.
    pub fn list_plans(&self) -> (r: ApiRequest)
        ensures
            r@ == get_request("/admin/billing/plans"@, seq![]),
    {
        ApiRequest::get_plain("/admin/billing/plans".to_owned())
    }

    /// Create an add-on.
    pub fn create_addon(&self, addon: Json) -> (r: ApiRequest)
        ensures
            r@ == json_request(HttpMethod::Post, "/admin/billing/addons"@, addon@),
    {
        ApiRequest::post("/admin/billing/addons".to_owned(), addon)
    }

    /// Create a minute pack.
    pub fn create_minute_pack(&self, pack: Json) -> (r: ApiRequest)
        ensures
            r@ == json_request(HttpMethod::Post, "/admin/billing/minute-packs"@, pack@),
    {
        ApiRequest::post("/admin/billing/minute-packs".to_owned(), pack)
    }

    /// A tenant's usage, of one meter when given.
    pub fn get_usage(&self, tenant_id: &str, meter_type: Option<&str>) -> (r: ApiRequest)
        ensures
            r@ == get_request("/admin/billing/usage/"@ + tenant_id@, opt_pair("meter_type"@, opt_str(meter_type))),
    {
        let mut q = Query::new();
        q.push_opt("meter_type", meter_type);
        assert(q@ =~= opt_pair("meter_type"@, opt_str(meter_type)));
        ApiRequest::get(path_tail("/admin/billing/usage/", tenant_id), q)
    }

    /// Record usage on a meter. The quantity is carried as the JSON value
    /// it is sent as.
    pub fn record_usage(&self, tenant_id: &str, meter_type: &str, quantity: Json) -> (r: ApiRequest)
        ensures
            r@ == json_request(
                HttpMethod::Post,
                "/admin/billing/usage/"@ + tenant_id@,
                record_usage_body(meter_type, quantity),
            ),
    {
        let ghost q = quantity@;
        let mut body = Members::new();
        body.put_str("meter_type", meter_type);
        body.put("quantity", quantity);
        assert(body@ =~= seq![text_member("meter_type"@, meter_type@), ("quantity"@, q)]);
        ApiRequest::post(path_tail("/admin/billing/usage/", tenant_id), body.into_json())
    }
}

} // verus!
