//! Model catalog administration: models, tiers and catalog reloads.

use vstd::prelude::*;
use crate::http::{
    delete_request, empty_object, get_request, json_request, opt_pair, path_tail, ApiRequest, HttpMethod,
    Query,
};
use crate::json::{opt_str, Json};
use crate::text::{concat2, decimal, decimal_string};

verus! {

/// Plans the calls of model catalog administration.
pub struct AdminEtherService;

impl AdminEtherService {
    /// Add a model to the catalog.
    pub fn create_model(&self, model: Json) -> (r: ApiRequest)
        ensures
            r@ == json_request(HttpMethod::Post, "/admin/ether/models"@, model@),
    {
        ApiRequest::post("/admin/ether/models".to_owned(), model)
    }

    /// Update a model. The identifier is placed in the path as given.
    pub fn update_model(&self, model_id: &str, updates: Json) -> (r: ApiRequest)
        ensures
            r@ == json_request(HttpMethod::Put, "/admin/ether/models/"@ + model_id@, updates@),
    {
        ApiRequest::put(path_tail("/admin/ether/models/", model_id), updates)
    }

    /// Remove a model.
    pub fn delete_model(&self, model_id: &str) -> (r: ApiRequest)
        ensures
            r@ == delete_request("/admin/ether/models/"@ + model_id@),
    {
        ApiRequest::delete(path_tail("/admin/ether/models/", model_id))
    }

    /// List models, of one tier and one provider when given.
    pub fn list_models(&self, tier: Option<&str>, provider: Option<&str>) -> (r: ApiRequest)
        ensures
            r@ == get_request(
                "/admin/ether/models"@,
                opt_pair("tier"@, opt_str(tier)) + opt_pair("provider"@, opt_str(provider)),
            ),
    {
        let mut q = Query::new();
        q.push_opt("tier", tier);
        q.push_opt("provider", provider);
        assert(q@ =~= opt_pair("tier"@, opt_str(tier)) + opt_pair("provider"@, opt_str(provider)));
        ApiRequest::get("/admin/ether/models".to_owned(), q)
    }

    /// List the tiers.
    pub fn list_tiers(&self) -> (r: ApiRequest)
        ensures
            r@ == get_request("/admin/ether/tiers"@, seq![]),
    {
        ApiRequest::get_plain("/admin/ether/tiers".to_owned())
    }

    /// Update a tier.
    pub fn update_tier(&self, tier_number: u32, updates: Json) -> (r: ApiRequest)
        ensures
            r@ == json_request(HttpMethod::Put, "/admin/ether/tiers/"@ + decimal(tier_number as nat), updates@),
    {
        let n = decimal_string(tier_number as u64);
        ApiRequest::put(concat2("/admin/ether/tiers/", n.as_str()), updates)
    }

    /// Reload the catalog.
    pub fn reload_catalog(&self) -> (r: ApiRequest)
        ensures
            r@ == json_request(HttpMethod::Post, "/admin/ether/catalog/reload"@, empty_object()),
    {
        ApiRequest::post_empty("/admin/ether/catalog/reload".to_owned())
    }
}

} // verus!
