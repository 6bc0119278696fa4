//! Orders taken by voice agents: creation, lookup, listing and the push
//! to the point of sale.

use vstd::prelude::*;
use crate::http::{empty_object, get_request, json_request, opt_decimal32, opt_pair, path_raw, path_tail, ApiRequest, HttpMethod, Query};
use crate::json::{json_view, members_view, opt_json_view, object_of, opt_str, text_member, with_member, Json, JsonValue, Members};

verus! {

/// Plans the calls of voice orders.
pub struct VoiceOrdersService;

/// Filters of [`VoiceOrdersService::list`].
#[derive(Default, Debug, Clone, Copy)]
pub struct ListVoiceOrdersOptions<'a> {
    pub caller_phone: Option<&'a str>,
    pub status: Option<&'a str>,
    pub location_id: Option<&'a str>,
    pub limit: Option<u32>,
}

/// `body` with each of `extra`'s members set on it in turn.
pub open spec fn merge_members(body: JsonValue, extra: Seq<(Seq<char>, JsonValue)>) -> JsonValue
    decreases extra.len(),
{
    if extra.len() == 0 {
        body
    } else {
        merge_members(with_member(body, extra[0].0, extra[0].1), extra.drop_first())
    }
}

/// The members an `extra` document contributes: all of an object's, none
/// of anything else.
pub open spec fn extra_members(extra: Option<JsonValue>) -> Seq<(Seq<char>, JsonValue)> {
    match extra {
        Some(JsonValue::Object(ms)) => ms,
        _ => Seq::empty(),
    }
}

/// The fulfillment asked for, `pickup` when none is.
pub open spec fn fulfillment_of(fulfillment: Option<&str>) -> Seq<char> {
    match fulfillment {
        Some(f) => f@,
        None => "pickup"@,
    }
}

/// The body of a voice order: location, items and fulfillment (`pickup`
/// when not given), then the extra members set over them.
pub open spec fn voice_order_body(location_id: Seq<char>, items: JsonValue, fulfillment: Option<&str>, extra: Option<JsonValue>) -> JsonValue {
    merge_members(
        object_of(seq![
            text_member("location_id"@, location_id),
            ("items"@, items),
            text_member("fulfillment"@, fulfillment_of(fulfillment)),
        ]),
        extra_members(extra),
    )
}

fn merge_into(body: Json, extra: &Vec<(String, Json)>) -> (r: Json)
    requires
        body@ is Object,
    ensures
        r@ == merge_members(body@, members_view(extra@)),
{
    let ghost all = members_view(extra@);
    let ghost target = merge_members(body@, all);
    let mut cur = body;
    let mut i: usize = 0;
    assert(all.subrange(0, all.len() as int) =~= all);
    while i < extra.len()
        invariant
            i <= extra.len(),
            all == members_view(extra@),
            cur@ is Object,
            merge_members(cur@, all.subrange(i as int, all.len() as int)) == target,
        decreases extra.len() - i,
    {
        let ghost rest = all.subrange(i as int, all.len() as int);
        assert(rest[0] == (extra@[i as int].0@, json_view(extra@[i as int].1)));
        assert(rest.drop_first() =~= all.subrange(i + 1, all.len() as int));
        cur = cur.with_member(extra[i].0.as_str(), extra[i].1.duplicate());
        i = i + 1;
    }
    assert(all.subrange(i as int, all.len() as int) =~= Seq::<(Seq<char>, JsonValue)>::empty());
    cur
}

impl VoiceOrdersService {
    /// Create a voice order; an `extra` object's members are set over the
    /// body, anything else in `extra` is ignored.
    pub fn create(&self, location_id: &str, items: Json, fulfillment: Option<&str>, extra: Option<Json>) -> (r: ApiRequest)
        ensures
            r@ == json_request(
                HttpMethod::Post,
                "/voice-orders"@,
                voice_order_body(location_id@, items@, fulfillment, opt_json_view(extra)),
            ),
    {
        let ghost i = items@;
        let mut body = Members::new();
        body.put_str("location_id", location_id);
        body.put("items", items);
        let f = match fulfillment {
            Some(f) => f,
            None => "pickup",
        };
        assert(f@ == fulfillment_of(fulfillment));
        body.put_str("fulfillment", f);
        assert(body@ =~= seq![
            text_member("location_id"@, location_id@),
            ("items"@, i),
            text_member("fulfillment"@, f@),
        ]);
        let base = body.into_json();
        assert(base@ == object_of(seq![
            text_member("location_id"@, location_id@),
            ("items"@, i),
            text_member("fulfillment"@, f@),
        ]));
        let ghost extra_view = opt_json_view(extra);
        let ghost head = base@;
        let merged = match &extra {
            Some(Json::Object(ms)) => {
                let m = merge_into(base, ms);
                assert(extra_members(extra_view) =~= members_view(ms@));
                assert(m@ == merge_members(head, extra_members(extra_view)));
                m
            },
            _ => {
                assert(extra_members(extra_view) =~= Seq::<(Seq<char>, JsonValue)>::empty());
                assert(merge_members(head, Seq::<(Seq<char>, JsonValue)>::empty()) == head);
                base
            },
        };
        ApiRequest::post("/voice-orders".to_owned(), merged)
    }

    /// Create a voice order from a raw body.
    pub fn create_raw(&self, order: Json) -> (r: ApiRequest)
        ensures
            r@ == json_request(HttpMethod::Post, "/voice-orders"@, order@),
    {
        ApiRequest::post("/voice-orders".to_owned(), order)
    }

    /// One voice order. The identifier is placed in the path as given.
    pub fn get(&self, order_id: &str) -> (r: ApiRequest)
        ensures
            r@ == get_request("/voice-orders/"@ + order_id@, seq![]),
    {
        ApiRequest::get_plain(path_tail("/voice-orders/", order_id))
    }

    /// List voice orders with the given filters.
    pub fn list(&self, opts: ListVoiceOrdersOptions<'_>) -> (r: ApiRequest)
        ensures
            r@ == get_request(
                "/voice-orders"@,
                opt_pair("caller_phone"@, opt_str(opts.caller_phone))
                    + opt_pair("status"@, opt_str(opts.status))
                    + opt_pair("location_id"@, opt_str(opts.location_id))
                    + opt_pair("limit"@, opt_decimal32(opts.limit)),
            ),
    {
        let mut q = Query::new();
        q.push_opt("caller_phone", opts.caller_phone);
        q.push_opt("status", opts.status);
        q.push_opt("location_id", opts.location_id);
        q.push_opt_u32("limit", opts.limit);
        assert(q@ =~= opt_pair("caller_phone"@, opt_str(opts.caller_phone))
            + opt_pair("status"@, opt_str(opts.status))
            + opt_pair("location_id"@, opt_str(opts.location_id))
            + opt_pair("limit"@, opt_decimal32(opts.limit)));
        ApiRequest::get("/voice-orders".to_owned(), q)
    }

    /// Push a voice order to the point of sale.
    pub fn push_to_pos(&self, order_id: &str) -> (r: ApiRequest)
        ensures
            r@ == json_request(HttpMethod::Post, "/voice-orders/"@ + order_id@ + "/push-pos"@, empty_object()),
    {
        ApiRequest::post_empty(path_raw("/voice-orders/", order_id, "/push-pos"))
    }
}

} // verus!
