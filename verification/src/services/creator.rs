//! Creator studio: posts and AI content generation.

use vstd::prelude::*;
use crate::json::JsonValue;
use crate::http::{get_request, json_request, opt_decimal32, opt_pair, ApiRequest, HttpMethod, Query};
use crate::json::{object_of, opt_text_member, text_member, Json, Members};

verus! {

/// Plans the calls of the creator studio.
pub struct CreatorService;

/// The body that [`CreatorService::generate_content`] sends.
pub open spec fn generate_content_body(prompt: &str, content_type: Option<&str>) -> JsonValue {
    object_of(seq![text_member("prompt"@, prompt@)] + opt_text_member("content_type"@, content_type))
}

/// What `generate_content_body` builds reads back field by field: each value the
/// arguments give is found under its own name, an optional one only when
/// it is set, and a list as the same items in the same order.
pub proof fn lemma_generate_content_body_reads_back(prompt: &str, content_type: Option<&str>)
    ensures
        crate::json::json_str_member(generate_content_body(prompt, content_type), "prompt"@) == Some(prompt@),
        crate::decode::field_opt_str(generate_content_body(prompt, content_type), "content_type"@) == Some(crate::json::opt_str(content_type)),
{
    assert(crate::json::json_str_member(generate_content_body(prompt, content_type), "prompt"@) == Some(prompt@)) by {
        broadcast use crate::json::lemma_member_lookup_append, crate::json::lemma_member_lookup_opt;

        lemma_generate_content_body_keys();
        reveal_with_fuel(crate::json::member_lookup, 2);
    }
    assert(crate::decode::field_opt_str(generate_content_body(prompt, content_type), "content_type"@) == Some(crate::json::opt_str(content_type))) by {
        broadcast use crate::json::lemma_member_lookup_append, crate::json::lemma_member_lookup_opt;

        lemma_generate_content_body_keys();
        reveal_with_fuel(crate::json::member_lookup, 2);
    }
}

/// The field names that `generate_content_body` uses, told apart.
proof fn lemma_generate_content_body_keys()
    ensures
        "content_type"@.len() == 12,
        "prompt"@.len() == 6,
{
    reveal_strlit("content_type");
    reveal_strlit("prompt");
}

impl CreatorService {
    /// List posts, one page when given.
    pub fn list_posts(&self, page: Option<u32>, page_size: Option<u32>) -> (r: ApiRequest)
        ensures
            r@ == get_request(
                "/api/v1/posts"@,
                opt_pair("page"@, opt_decimal32(page)) + opt_pair("page_size"@, opt_decimal32(page_size)),
            ),
    {
        let mut q = Query::new();
        q.push_opt_u32("page", page);
        q.push_opt_u32("page_size", page_size);
        assert(q@ =~= opt_pair("page"@, opt_decimal32(page)) + opt_pair("page_size"@, opt_decimal32(page_size)));
        ApiRequest::get("/api/v1/posts".to_owned(), q)
    }

    /// Create a post.
    pub fn create_post(&self, post: Json) -> (r: ApiRequest)
        ensures
            r@ == json_request(HttpMethod::Post, "/api/v1/posts"@, post@),
    {
        ApiRequest::post("/api/v1/posts".to_owned(), post)
    }

    /// Generate content from a prompt, of one content type when given.
    pub fn generate_content(&self, prompt: &str, content_type: Option<&str>) -> (r: ApiRequest)
        ensures
            r@ == json_request(
                HttpMethod::Post,
                "/creator/ai/generate"@,
                generate_content_body(prompt, content_type),
            ),
    {
        let mut body = Members::new();
        body.put_str("prompt", prompt);
        body.put_opt_str("content_type", content_type);
        assert(body@ =~= seq![text_member("prompt"@, prompt@)] + opt_text_member("content_type"@, content_type));
        ApiRequest::post("/creator/ai/generate".to_owned(), body.into_json())
    }
}

} // verus!
