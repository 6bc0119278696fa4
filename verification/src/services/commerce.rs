//! Commerce: orders, menu availability ("86" lists) and combos.

use vstd::prelude::*;
use crate::http::{
    bool_text, delete_request, get_request, json_request, opt_bool_text, opt_decimal32, opt_pair, path_raw,
    path_tail, ApiRequest, HttpMethod, Query,
};
use crate::json::{object_of, opt_str, text_member, Json, JsonValue, Members};

verus! {

/// Plans the calls of commerce.
pub struct CommerceService;

/// The body that [`CommerceService::create_order`] sends.
pub open spec fn create_order_body(items: Json, source: &str) -> JsonValue {
    object_of(seq![("items"@, items@), text_member("source"@, source@)])
}

/// What `create_order_body` builds reads back field by field: each value the
/// arguments give is found under its own name, an optional one only when
/// it is set, and a list as the same items in the same order.
pub proof fn lemma_create_order_body_reads_back(items: Json, source: &str)
    ensures
        crate::json::json_str_member(create_order_body(items, source), "source"@) == Some(source@),
        crate::json::json_get(create_order_body(items, source), "items"@) == Some(items@),
{
    assert(crate::json::json_str_member(create_order_body(items, source), "source"@) == Some(source@)) by {
        broadcast use crate::json::lemma_member_lookup_append, crate::json::lemma_member_lookup_opt;

        lemma_create_order_body_keys();
        reveal_with_fuel(crate::json::member_lookup, 3);
    }
    assert(crate::json::json_get(create_order_body(items, source), "items"@) == Some(items@)) by {
        broadcast use crate::json::lemma_member_lookup_append, crate::json::lemma_member_lookup_opt;

        lemma_create_order_body_keys();
        reveal_with_fuel(crate::json::member_lookup, 3);
    }
}

/// The field names that `create_order_body` uses, told apart.
proof fn lemma_create_order_body_keys()
    ensures
        "items"@.len() == 5,
        "source"@.len() == 6,
{
    reveal_strlit("items");
    reveal_strlit("source");
}

impl CommerceService {
    /// List orders, of one status when given.
    pub fn list_orders(&self, status: Option<&str>) -> (r: ApiRequest)
        ensures
            r@ == get_request("/commerce/orders"@, opt_pair("status"@, opt_str(status))),
    {
        let mut q = Query::new();
        q.push_opt("status", status);
        assert(q@ =~= opt_pair("status"@, opt_str(status)));
        ApiRequest::get("/commerce/orders".to_owned(), q)
    }

    /// Create an order.
    pub fn create_order(&self, items: Json, source: &str) -> (r: ApiRequest)
        ensures
            r@ == json_request(
                HttpMethod::Post,
                "/commerce/orders"@,
                create_order_body(items, source),
            ),
    {
        let ghost i = items@;
        let mut body = Members::new();
        body.put("items", items);
        body.put_str("source", source);
        assert(body@ =~= seq![("items"@, i), text_member("source"@, source@)]);
        ApiRequest::post("/commerce/orders".to_owned(), body.into_json())
    }

    /// One order. The identifier is placed in the path as given.
    pub fn get_order(&self, order_id: &str) -> (r: ApiRequest)
        ensures
            r@ == get_request("/commerce/orders/"@ + order_id@, seq![]),
    {
        ApiRequest::get_plain(path_tail("/commerce/orders/", order_id))
    }

    /// Take a menu item off the menu.
    pub fn eighty_six_item(&self, item_id: &str, body: Json) -> (r: ApiRequest)
        ensures
            r@ == json_request(HttpMethod::Post, "/commerce/menus/items/"@ + item_id@ + "/86"@, body@),
    {
        ApiRequest::post(path_raw("/commerce/menus/items/", item_id, "/86"), body)
    }

    /// Put a menu item back.
    pub fn un_eighty_six_item(&self, item_id: &str) -> (r: ApiRequest)
        ensures
            r@ == delete_request("/commerce/menus/items/"@ + item_id@ + "/86"@),
    {
        ApiRequest::delete(path_raw("/commerce/menus/items/", item_id, "/86"))
    }

    /// Take an ingredient off the menu.
    pub fn eighty_six_ingredient(&self, ingredient_id: &str, body: Json) -> (r: ApiRequest)
        ensures
            r@ == json_request(HttpMethod::Post, "/commerce/menus/ingredients/"@ + ingredient_id@ + "/86"@, body@),
    {
        ApiRequest::post(path_raw("/commerce/menus/ingredients/", ingredient_id, "/86"), body)
    }

    /// Put an ingredient back.
    pub fn un_eighty_six_ingredient(&self, ingredient_id: &str) -> (r: ApiRequest)
        ensures
            r@ == delete_request("/commerce/menus/ingredients/"@ + ingredient_id@ + "/86"@),
    {
        ApiRequest::delete(path_raw("/commerce/menus/ingredients/", ingredient_id, "/86"))
    }

    /// The items off the menu.
    pub fn list_eighty_sixed_items(&self) -> (r: ApiRequest)
        ensures
            r@ == get_request("/commerce/menus/items/86"@, seq![]),
    {
        ApiRequest::get_plain("/commerce/menus/items/86".to_owned())
    }

    /// The ingredients off the menu.
    pub fn list_eighty_sixed_ingredients(&self) -> (r: ApiRequest)
        ensures
            r@ == get_request("/commerce/menus/ingredients/86"@, seq![]),
    {
        ApiRequest::get_plain("/commerce/menus/ingredients/86".to_owned())
    }

    /// The log of menu removals, of one entity and at most `limit` when
    /// given.
    pub fn get_eighty_six_log(&self, entity_id: Option<&str>, limit: Option<u32>) -> (r: ApiRequest)
        ensures
            r@ == get_request(
                "/commerce/menus/86/log"@,
                opt_pair("entity_id"@, opt_str(entity_id)) + opt_pair("limit"@, opt_decimal32(limit)),
            ),
    {
        let mut q = Query::new();
        q.push_opt("entity_id", entity_id);
        q.push_opt_u32("limit", limit);
        assert(q@ =~= opt_pair("entity_id"@, opt_str(entity_id)) + opt_pair("limit"@, opt_decimal32(limit)));
        ApiRequest::get("/commerce/menus/86/log".to_owned(), q)
    }

    /// Create a combo.
    pub fn create_combo(&self, body: Json) -> (r: ApiRequest)
        ensures
            r@ == json_request(HttpMethod::Post, "/commerce/combos"@, body@),
    {
        ApiRequest::post("/commerce/combos".to_owned(), body)
    }

    /// List combos, of one location and activity when given.
    pub fn list_combos(&self, location_id: Option<&str>, active: Option<bool>) -> (r: ApiRequest)
        ensures
            r@ == get_request(
                "/commerce/combos"@,
                opt_pair("location_id"@, opt_str(location_id)) + opt_pair("active"@, opt_bool_text(active)),
            ),
    {
        let mut q = Query::new();
        q.push_opt("location_id", location_id);
        q.push_opt_bool("active", active);
        assert(q@ =~= opt_pair("location_id"@, opt_str(location_id)) + opt_pair("active"@, opt_bool_text(active)));
        ApiRequest::get("/commerce/combos".to_owned(), q)
    }

    /// Update a combo.
    pub fn update_combo(&self, combo_id: &str, body: Json) -> (r: ApiRequest)
        ensures
            r@ == json_request(HttpMethod::Patch, "/commerce/combos/"@ + combo_id@, body@),
    {
        ApiRequest::patch(path_tail("/commerce/combos/", combo_id), body)
    }

    /// Delete a combo.
    pub fn delete_combo(&self, combo_id: &str) -> (r: ApiRequest)
        ensures
            r@ == delete_request("/commerce/combos/"@ + combo_id@),
    {
        ApiRequest::delete(path_tail("/commerce/combos/", combo_id))
    }
}

} // verus!
