//! CPaaS administration: provider preference and provider health.

use vstd::prelude::*;
use crate::json::JsonValue;
use crate::http::{get_request, json_request, ApiRequest, HttpMethod};
use crate::json::{object_of, text_member, Members};

verus! {

/// Plans the calls of CPaaS administration.
pub struct AdminCpaasService;

/// The body that [`AdminCpaasService::set_provider_preference`] sends.
pub open spec fn set_provider_preference_body(scope: &str, scope_id: &str, provider: &str) -> JsonValue {
    object_of(seq![
        text_member("scope"@, scope@),
        text_member("scope_id"@, scope_id@),
        text_member("provider"@, provider@),
    ])
}

/// What `set_provider_preference_body` builds reads back field by field: each value the
/// arguments give is found under its own name, an optional one only when
/// it is set, and a list as the same items in the same order.
pub proof fn lemma_set_provider_preference_body_reads_back(scope: &str, scope_id: &str, provider: &str)
    ensures
        crate::json::json_str_member(set_provider_preference_body(scope, scope_id, provider), "scope"@) == Some(scope@),
        crate::json::json_str_member(set_provider_preference_body(scope, scope_id, provider), "scope_id"@) == Some(scope_id@),
        crate::json::json_str_member(set_provider_preference_body(scope, scope_id, provider), "provider"@) == Some(provider@),
{
    assert(crate::json::json_str_member(set_provider_preference_body(scope, scope_id, provider), "scope"@) == Some(scope@)) by {
        broadcast use crate::json::lemma_member_lookup_append, crate::json::lemma_member_lookup_opt;

        lemma_set_provider_preference_body_keys();
        reveal_with_fuel(crate::json::member_lookup, 4);
    }
    assert(crate::json::json_str_member(set_provider_preference_body(scope, scope_id, provider), "scope_id"@) == Some(scope_id@)) by {
        broadcast use crate::json::lemma_member_lookup_append, crate::json::lemma_member_lookup_opt;

        lemma_set_provider_preference_body_keys();
        reveal_with_fuel(crate::json::member_lookup, 4);
    }
    assert(crate::json::json_str_member(set_provider_preference_body(scope, scope_id, provider), "provider"@) == Some(provider@)) by {
        broadcast use crate::json::lemma_member_lookup_append, crate::json::lemma_member_lookup_opt;

        lemma_set_provider_preference_body_keys();
        reveal_with_fuel(crate::json::member_lookup, 4);
    }
}

/// The field names that `set_provider_preference_body` uses, told apart.
proof fn lemma_set_provider_preference_body_keys()
    ensures
        "provider"@.len() == 8,
        "provider"@[0] == 'p',
        "scope"@.len() == 5,
        "scope_id"@.len() == 8,
        "scope_id"@[0] == 's',
{
    reveal_strlit("provider");
    reveal_strlit("scope");
    reveal_strlit("scope_id");
}

impl AdminCpaasService {
    /// Prefer a provider for a scope.
    pub fn set_provider_preference(&self, scope: &str, scope_id: &str, provider: &str) -> (r: ApiRequest)
        ensures
            r@ == json_request(
                HttpMethod::Put,
                "/admin/cpaas/provider-preference"@,
                set_provider_preference_body(scope, scope_id, provider),
            ),
    {
        let mut body = Members::new();
        body.put_str("scope", scope);
        body.put_str("scope_id", scope_id);
        body.put_str("provider", provider);
        assert(body@ =~= seq![
            text_member("scope"@, scope@),
            text_member("scope_id"@, scope_id@),
            text_member("provider"@, provider@),
        ]);
        ApiRequest::put("/admin/cpaas/provider-preference".to_owned(), body.into_json())
    }

    /// The providers' health.
    pub fn get_provider_health(&self) -> (r: ApiRequest)
        ensures
            r@ == get_request("/admin/cpaas/health"@, seq![]),
    {
        ApiRequest::get_plain("/admin/cpaas/health".to_owned())
    }
}

} // verus!
