//! SMS: sending through a voice config or the CPaaS layer, conversations
//! and delivery status.

use vstd::prelude::*;
use crate::json::JsonValue;
use crate::http::{get_request, json_request, opt_decimal32, opt_pair, path_end, ApiRequest, HttpMethod, Query};
use crate::json::{object_of, opt_text_member, text_member, Members};
use crate::url::url_encoded;

verus! {

/// Plans the calls of the SMS service.
pub struct SmsService;

/// Paging of [`SmsService::get_conversations`].
#[derive(Default, Debug, Clone, Copy)]
pub struct GetConversationsOptions {
    pub limit: Option<u32>,
    pub offset: Option<u32>,
}

/// A message to send through the CPaaS layer.
#[derive(Debug, Clone)]
pub struct SendViaCpaasRequest<'a> {
    pub from: &'a str,
    pub to: &'a str,
    pub body: &'a str,
    pub webhook_url: Option<&'a str>,
}

/// The body that [`SmsService::send_via_cpaas`] sends.
pub open spec fn send_via_cpaas_body(req: SendViaCpaasRequest<'_>) -> JsonValue {
    object_of(
        seq![text_member("from"@, req.from@), text_member("to"@, req.to@), text_member("body"@, req.body@)]
            + opt_text_member("webhook_url"@, req.webhook_url),
    )
}

/// What `send_via_cpaas_body` builds reads back field by field: each value the
/// arguments give is found under its own name, an optional one only when
/// it is set, and a list as the same items in the same order.
pub proof fn lemma_send_via_cpaas_body_reads_back(req: SendViaCpaasRequest<'_>)
    ensures
        crate::json::json_str_member(send_via_cpaas_body(req), "from"@) == Some(req.from@),
        crate::json::json_str_member(send_via_cpaas_body(req), "to"@) == Some(req.to@),
        crate::json::json_str_member(send_via_cpaas_body(req), "body"@) == Some(req.body@),
        crate::decode::field_opt_str(send_via_cpaas_body(req), "webhook_url"@) == Some(crate::json::opt_str(req.webhook_url)),
{
    assert(crate::json::json_str_member(send_via_cpaas_body(req), "from"@) == Some(req.from@)) by {
        broadcast use crate::json::lemma_member_lookup_append, crate::json::lemma_member_lookup_opt;

        lemma_send_via_cpaas_body_keys();
        reveal_with_fuel(crate::json::member_lookup, 4);
    }
    assert(crate::json::json_str_member(send_via_cpaas_body(req), "to"@) == Some(req.to@)) by {
        broadcast use crate::json::lemma_member_lookup_append, crate::json::lemma_member_lookup_opt;

        lemma_send_via_cpaas_body_keys();
        reveal_with_fuel(crate::json::member_lookup, 4);
    }
    assert(crate::json::json_str_member(send_via_cpaas_body(req), "body"@) == Some(req.body@)) by {
        broadcast use crate::json::lemma_member_lookup_append, crate::json::lemma_member_lookup_opt;

        lemma_send_via_cpaas_body_keys();
        reveal_with_fuel(crate::json::member_lookup, 4);
    }
    assert(crate::decode::field_opt_str(send_via_cpaas_body(req), "webhook_url"@) == Some(crate::json::opt_str(req.webhook_url))) by {
        broadcast use crate::json::lemma_member_lookup_append, crate::json::lemma_member_lookup_opt;

        lemma_send_via_cpaas_body_keys();
        reveal_with_fuel(crate::json::member_lookup, 4);
    }
}

/// The field names that `send_via_cpaas_body` uses, told apart.
proof fn lemma_send_via_cpaas_body_keys()
    ensures
        "body"@.len() == 4,
        "body"@[0] == 'b',
        "from"@.len() == 4,
        "from"@[0] == 'f',
        "to"@.len() == 2,
        "webhook_url"@.len() == 11,
{
    reveal_strlit("body");
    reveal_strlit("from");
    reveal_strlit("to");
    reveal_strlit("webhook_url");
}

/// The body that [`SmsService::send`] sends.
pub open spec fn send_body(config_id: &str, to: &str, body: &str) -> JsonValue {
    object_of(seq![
        text_member("config_id"@, config_id@),
        text_member("to"@, to@),
        text_member("body"@, body@),
    ])
}

/// What `send_body` builds reads back field by field: each value the
/// arguments give is found under its own name, an optional one only when
/// it is set, and a list as the same items in the same order.
pub proof fn lemma_send_body_reads_back(config_id: &str, to: &str, body: &str)
    ensures
        crate::json::json_str_member(send_body(config_id, to, body), "config_id"@) == Some(config_id@),
        crate::json::json_str_member(send_body(config_id, to, body), "to"@) == Some(to@),
        crate::json::json_str_member(send_body(config_id, to, body), "body"@) == Some(body@),
{
    assert(crate::json::json_str_member(send_body(config_id, to, body), "config_id"@) == Some(config_id@)) by {
        broadcast use crate::json::lemma_member_lookup_append, crate::json::lemma_member_lookup_opt;

        lemma_send_body_keys();
        reveal_with_fuel(crate::json::member_lookup, 4);
    }
    assert(crate::json::json_str_member(send_body(config_id, to, body), "to"@) == Some(to@)) by {
        broadcast use crate::json::lemma_member_lookup_append, crate::json::lemma_member_lookup_opt;

        lemma_send_body_keys();
        reveal_with_fuel(crate::json::member_lookup, 4);
    }
    assert(crate::json::json_str_member(send_body(config_id, to, body), "body"@) == Some(body@)) by {
        broadcast use crate::json::lemma_member_lookup_append, crate::json::lemma_member_lookup_opt;

        lemma_send_body_keys();
        reveal_with_fuel(crate::json::member_lookup, 4);
    }
}

/// The field names that `send_body` uses, told apart.
proof fn lemma_send_body_keys()
    ensures
        "body"@.len() == 4,
        "config_id"@.len() == 9,
        "to"@.len() == 2,
{
    reveal_strlit("body");
    reveal_strlit("config_id");
    reveal_strlit("to");
}

impl SmsService {
    /// Send a message through a voice config.
    pub fn send(&self, config_id: &str, to: &str, body: &str) -> (r: ApiRequest)
        ensures
            r@ == json_request(
                HttpMethod::Post,
                "/voice/sms/send"@,
                send_body(config_id, to, body),
            ),
    {
        let mut payload = Members::new();
        payload.put_str("config_id", config_id);
        payload.put_str("to", to);
        payload.put_str("body", body);
        assert(payload@ =~= seq![
            text_member("config_id"@, config_id@),
            text_member("to"@, to@),
            text_member("body"@, body@),
        ]);
        ApiRequest::post("/voice/sms/send".to_owned(), payload.into_json())
    }

    /// The conversations of a phone number, one page when given.
    pub fn get_conversations(&self, phone: &str, opts: GetConversationsOptions) -> (r: ApiRequest)
        ensures
            r@ == get_request(
                "/voice/sms/conversations/"@ + url_encoded(phone@),
                opt_pair("limit"@, opt_decimal32(opts.limit)) + opt_pair("offset"@, opt_decimal32(opts.offset)),
            ),
    {
        let mut q = Query::new();
        q.push_opt_u32("limit", opts.limit);
        q.push_opt_u32("offset", opts.offset);
        assert(q@ =~= opt_pair("limit"@, opt_decimal32(opts.limit)) + opt_pair("offset"@, opt_decimal32(opts.offset)));
        ApiRequest::get(path_end("/voice/sms/conversations/", phone), q)
    }

    /// Send a message through the CPaaS layer, with a status webhook when
    /// given.
    pub fn send_via_cpaas(&self, req: SendViaCpaasRequest<'_>) -> (r: ApiRequest)
        ensures
            r@ == json_request(
                HttpMethod::Post,
                "/cpaas/messages/sms"@,
                send_via_cpaas_body(req),
            ),
    {
        let mut body = Members::new();
        body.put_str("from", req.from);
        body.put_str("to", req.to);
        body.put_str("body", req.body);
        body.put_opt_str("webhook_url", req.webhook_url);
        assert(body@ =~= seq![text_member("from"@, req.from@), text_member("to"@, req.to@), text_member("body"@, req.body@)]
            + opt_text_member("webhook_url"@, req.webhook_url));
        ApiRequest::post("/cpaas/messages/sms".to_owned(), body.into_json())
    }

    /// The delivery status of a message.
    pub fn get_status(&self, message_id: &str) -> (r: ApiRequest)
        ensures
            r@ == get_request("/cpaas/messages/"@ + url_encoded(message_id@), seq![]),
    {
        ApiRequest::get_plain(path_end("/cpaas/messages/", message_id))
    }
}

} // verus!
