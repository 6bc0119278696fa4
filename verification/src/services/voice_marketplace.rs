//! Voice marketplace reviews.

use vstd::prelude::*;
use crate::json::JsonValue;
use crate::http::{delete_request, get_request, json_request, opt_decimal32, opt_pair, path_raw, path_tail, ApiRequest, HttpMethod, Query};
use crate::json::{object_of, text_member, uint_value, Members};

verus! {

/// Plans the calls of marketplace reviews.
pub struct VoiceMarketplaceService;

/// The body that [`VoiceMarketplaceService::submit_review`] sends.
pub open spec fn submit_review_body(rating: u32, text: &str) -> JsonValue {
    object_of(seq![("rating"@, uint_value(rating as u64)), text_member("text"@, text@)])
}

/// What `submit_review_body` builds reads back field by field: each value the
/// arguments give is found under its own name, an optional one only when
/// it is set, and a list as the same items in the same order.
pub proof fn lemma_submit_review_body_reads_back(rating: u32, text: &str)
    ensures
        crate::json::json_str_member(submit_review_body(rating, text), "text"@) == Some(text@),
        crate::json::json_get(submit_review_body(rating, text), "rating"@) == Some(uint_value(rating as u64)),
{
    assert(crate::json::json_str_member(submit_review_body(rating, text), "text"@) == Some(text@)) by {
        broadcast use crate::json::lemma_member_lookup_append, crate::json::lemma_member_lookup_opt;

        lemma_submit_review_body_keys();
        reveal_with_fuel(crate::json::member_lookup, 3);
    }
    assert(crate::json::json_get(submit_review_body(rating, text), "rating"@) == Some(uint_value(rating as u64))) by {
        broadcast use crate::json::lemma_member_lookup_append, crate::json::lemma_member_lookup_opt;

        lemma_submit_review_body_keys();
        reveal_with_fuel(crate::json::member_lookup, 3);
    }
}

/// The field names that `submit_review_body` uses, told apart.
proof fn lemma_submit_review_body_keys()
    ensures
        "rating"@.len() == 6,
        "text"@.len() == 4,
{
    reveal_strlit("rating");
    reveal_strlit("text");
}

impl VoiceMarketplaceService {
    /// A voice's reviews, one page when given. The identifier is placed in
    /// the path as given.
    pub fn list_reviews(&self, voice_id: &str, limit: Option<u32>, offset: Option<u32>) -> (r: ApiRequest)
        ensures
            r@ == get_request(
                "/voice/marketplace/voices/"@ + voice_id@ + "/reviews"@,
                opt_pair("limit"@, opt_decimal32(limit)) + opt_pair("offset"@, opt_decimal32(offset)),
            ),
    {
        let mut q = Query::new();
        q.push_opt_u32("limit", limit);
        q.push_opt_u32("offset", offset);
        assert(q@ =~= opt_pair("limit"@, opt_decimal32(limit)) + opt_pair("offset"@, opt_decimal32(offset)));
        ApiRequest::get(path_raw("/voice/marketplace/voices/", voice_id, "/reviews"), q)
    }

    /// Review a voice.
    pub fn submit_review(&self, voice_id: &str, rating: u32, text: &str) -> (r: ApiRequest)
        ensures
            r@ == json_request(
                HttpMethod::Post,
                "/voice/marketplace/voices/"@ + voice_id@ + "/reviews"@,
                submit_review_body(rating, text),
            ),
    {
        let mut body = Members::new();
        body.put_uint("rating", rating as u64);
        body.put_str("text", text);
        assert(body@ =~= seq![("rating"@, uint_value(rating as u64)), text_member("text"@, text@)]);
        ApiRequest::post(path_raw("/voice/marketplace/voices/", voice_id, "/reviews"), body.into_json())
    }

    /// Delete a review.
    pub fn delete_review(&self, review_id: &str) -> (r: ApiRequest)
        ensures
            r@ == delete_request("/voice/marketplace/voices/reviews/"@ + review_id@),
    {
        ApiRequest::delete(path_tail("/voice/marketplace/voices/reviews/", review_id))
    }
}

} // verus!
