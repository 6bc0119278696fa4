//! Point of sale: voice orders and menu sync.

use vstd::prelude::*;
use crate::http::{empty_object, json_request, path_raw, ApiRequest, HttpMethod};
use crate::json::Json;

verus! {

/// Plans the calls of the point-of-sale bridge.
pub struct PosService;

impl PosService {
    /// Submit an order taken by voice.
    pub fn submit_voice_order(&self, order: Json) -> (r: ApiRequest)
        ensures
            r@ == json_request(HttpMethod::Post, "/pos/voice-order"@, order@),
    {
        ApiRequest::post("/pos/voice-order".to_owned(), order)
    }

    /// Sync a tenant's menu. The identifier is placed in the path as given.
    pub fn sync_menu(&self, tenant_id: &str) -> (r: ApiRequest)
        ensures
            r@ == json_request(HttpMethod::Post, "/pos/"@ + tenant_id@ + "/sync-menu"@, empty_object()),
    {
        ApiRequest::post_empty(path_raw("/pos/", tenant_id, "/sync-menu"))
    }
}

} // verus!
