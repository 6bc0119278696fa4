//! AI inference, agent orchestration and NLP: single-turn queries,
//! capability-routed generation, specialist models, agents and chat.

use vstd::prelude::*;
use crate::error::{ErrorView, OlympusError};
use crate::http::{json_request, plan_view, ApiRequest, HttpMethod, RequestView};
use crate::json::{
    object_of, opt_json_member, opt_member, opt_text_member, opt_uint_member, str_list_value,
    strings_view, text_member, Json, JsonValue, Members,
};
use crate::text::{concat3, str_eq};

verus! {

/// Plans the calls of the AI gateway.
pub struct AiService;

/// Options for a single-turn AI query. `required_capabilities` switches on
/// capability-based routing.
#[derive(Default, Debug)]
pub struct QueryOptions<'a> {
    pub tier: Option<&'a str>,
    pub context: Option<Json>,
    pub required_capabilities: Option<Vec<String>>,
}

/// Options for image generation.
#[derive(Default, Debug, Clone, Copy)]
pub struct GenerateImageOptions<'a> {
    pub preferred_provider: Option<&'a str>,
}

/// Options for video generation.
#[derive(Default, Debug, Clone, Copy)]
pub struct GenerateVideoOptions<'a> {
    pub duration_seconds: Option<u32>,
    pub preferred_provider: Option<&'a str>,
}

/// The chat message `{"role": role, "content": content}`.
pub open spec fn chat_message(role: Seq<char>, content: Seq<char>) -> JsonValue {
    object_of(seq![text_member("role"@, role), text_member("content"@, content)])
}

/// What `chat_message` builds reads back field by field: each value the
/// arguments give is found under its own name, an optional one only when
/// it is set, and a list as the same items in the same order.
pub proof fn lemma_chat_message_reads_back(role: Seq<char>, content: Seq<char>)
    ensures
        crate::json::json_str_member(chat_message(role, content), "role"@) == Some(role),
        crate::json::json_str_member(chat_message(role, content), "content"@) == Some(content),
{
    assert(crate::json::json_str_member(chat_message(role, content), "role"@) == Some(role)) by {
        broadcast use crate::json::lemma_member_lookup_append, crate::json::lemma_member_lookup_opt;

        lemma_chat_message_keys();
        reveal_with_fuel(crate::json::member_lookup, 3);
    }
    assert(crate::json::json_str_member(chat_message(role, content), "content"@) == Some(content)) by {
        broadcast use crate::json::lemma_member_lookup_append, crate::json::lemma_member_lookup_opt;

        lemma_chat_message_keys();
        reveal_with_fuel(crate::json::member_lookup, 3);
    }
}

/// The field names that `chat_message` uses, told apart.
proof fn lemma_chat_message_keys()
    ensures
        "content"@.len() == 7,
        "role"@.len() == 4,
{
    reveal_strlit("content");
    reveal_strlit("role");
}

fn message(role: &str, content: &str) -> (r: Json)
    ensures
        r@ == chat_message(role@, content@),
{
    let mut m = Members::new();
    m.put_str("role", role);
    m.put_str("content", content);
    assert(m@ =~= seq![text_member("role"@, role@), text_member("content"@, content@)]);
    m.into_json()
}

/// `messages: [{"role": "user", "content": prompt}]`.
pub open spec fn user_messages(prompt: Seq<char>) -> (Seq<char>, JsonValue) {
    ("messages"@, JsonValue::Array(seq![chat_message("user"@, prompt)]))
}

fn user_messages_member(body: &mut Members, prompt: &str)
    ensures
        final(body)@ == old(body)@.push(user_messages(prompt@)),
{
    let mut items: Vec<Json> = Vec::new();
    items.push(message("user", prompt));
    let list = Json::Array(items);
    assert(list@->Array_0 =~= seq![chat_message("user"@, prompt@)]);
    body.put("messages", list);
}

pub open spec fn caps_member(caps: Option<Vec<String>>) -> Seq<(Seq<char>, JsonValue)> {
    opt_member(
        "required_capabilities"@,
        match caps {
            Some(c) => Some(str_list_value(strings_view(c@))),
            None => None,
        },
    )
}

pub open spec fn query_body(prompt: Seq<char>, opts: QueryOptions) -> JsonValue {
    object_of(
        seq![user_messages(prompt)]
            + opt_text_member("tier"@, opts.tier)
            + opt_json_member("context"@, opts.context)
            + caps_member(opts.required_capabilities),
    )
}

/// The capability a specialty routes to; `None` for an unknown one.
pub open spec fn specialist_capability(specialty: Seq<char>) -> Option<Seq<char>> {
    if specialty == "medical"@ {
        Some("medical_specialist"@)
    } else if specialty == "legal"@ {
        Some("legal_specialist"@)
    } else if specialty == "financial"@ {
        Some("financial_specialist"@)
    } else if specialty == "scientific"@ {
        Some("scientific_specialist"@)
    } else {
        None
    }
}

/// The messages of a specialist query: the context as a system message
/// when given, then the prompt.
pub open spec fn specialist_messages(prompt: Seq<char>, context: Option<&str>) -> Seq<JsonValue> {
    match context {
        Some(c) => seq![chat_message("system"@, c@), chat_message("user"@, prompt)],
        None => seq![chat_message("user"@, prompt)],
    }
}

pub open spec fn specialist_body(prompt: Seq<char>, capability: Seq<char>, context: Option<&str>) -> JsonValue {
    object_of(
        seq![
            ("messages"@, JsonValue::Array(specialist_messages(prompt, context))),
            ("required_capabilities"@, str_list_value(seq!["reasoning"@, capability])),
        ],
    )
}

fn specialty_capability(specialty: &str) -> (r: Option<&'static str>)
    ensures
        match r {
            Some(c) => specialist_capability(specialty@) == Some(c@),
            None => specialist_capability(specialty@) is None,
        },
{
    if str_eq(specialty, "medical") {
        Some("medical_specialist")
    } else if str_eq(specialty, "legal") {
        Some("legal_specialist")
    } else if str_eq(specialty, "financial") {
        Some("financial_specialist")
    } else if str_eq(specialty, "scientific") {
        Some("scientific_specialist")
    } else {
        None
    }
}

/// The body that [`AiService::chat`] sends.
pub open spec fn chat_body(messages: Json, model: Option<&str>) -> JsonValue {
    object_of(seq![("messages"@, messages@)] + opt_text_member("model"@, model))
}

/// What `chat_body` builds reads back field by field: each value the
/// arguments give is found under its own name, an optional one only when
/// it is set, and a list as the same items in the same order.
pub proof fn lemma_chat_body_reads_back(messages: Json, model: Option<&str>)
    ensures
        crate::decode::field_opt_str(chat_body(messages, model), "model"@) == Some(crate::json::opt_str(model)),
        crate::json::json_get(chat_body(messages, model), "messages"@) == Some(messages@),
{
    assert(crate::decode::field_opt_str(chat_body(messages, model), "model"@) == Some(crate::json::opt_str(model))) by {
        broadcast use crate::json::lemma_member_lookup_append, crate::json::lemma_member_lookup_opt;

        lemma_chat_body_keys();
        reveal_with_fuel(crate::json::member_lookup, 2);
    }
    assert(crate::json::json_get(chat_body(messages, model), "messages"@) == Some(messages@)) by {
        broadcast use crate::json::lemma_member_lookup_append, crate::json::lemma_member_lookup_opt;

        lemma_chat_body_keys();
        reveal_with_fuel(crate::json::member_lookup, 2);
    }
}

/// The field names that `chat_body` uses, told apart.
proof fn lemma_chat_body_keys()
    ensures
        "messages"@.len() == 8,
        "model"@.len() == 5,
{
    reveal_strlit("messages");
    reveal_strlit("model");
}

/// The body that [`AiService::invoke`] sends.
pub open spec fn invoke_body(agent: &str, task: &str, params: Option<Json>) -> JsonValue {
    object_of(
        seq![text_member("agent"@, agent@), text_member("task"@, task@)]
            + opt_json_member("params"@, params),
    )
}

/// What `invoke_body` builds reads back field by field: each value the
/// arguments give is found under its own name, an optional one only when
/// it is set, and a list as the same items in the same order.
pub proof fn lemma_invoke_body_reads_back(agent: &str, task: &str, params: Option<Json>)
    ensures
        crate::json::json_str_member(invoke_body(agent, task, params), "agent"@) == Some(agent@),
        crate::json::json_str_member(invoke_body(agent, task, params), "task"@) == Some(task@),
        crate::json::json_get(invoke_body(agent, task, params), "params"@) == crate::json::opt_json_view(params),
{
    assert(crate::json::json_str_member(invoke_body(agent, task, params), "agent"@) == Some(agent@)) by {
        broadcast use crate::json::lemma_member_lookup_append, crate::json::lemma_member_lookup_opt;

        lemma_invoke_body_keys();
        reveal_with_fuel(crate::json::member_lookup, 3);
    }
    assert(crate::json::json_str_member(invoke_body(agent, task, params), "task"@) == Some(task@)) by {
        broadcast use crate::json::lemma_member_lookup_append, crate::json::lemma_member_lookup_opt;

        lemma_invoke_body_keys();
        reveal_with_fuel(crate::json::member_lookup, 3);
    }
    assert(crate::json::json_get(invoke_body(agent, task, params), "params"@) == crate::json::opt_json_view(params)) by {
        broadcast use crate::json::lemma_member_lookup_append, crate::json::lemma_member_lookup_opt;

        lemma_invoke_body_keys();
        reveal_with_fuel(crate::json::member_lookup, 3);
    }
}

/// The field names that `invoke_body` uses, told apart.
proof fn lemma_invoke_body_keys()
    ensures
        "agent"@.len() == 5,
        "params"@.len() == 6,
        "task"@.len() == 4,
{
    reveal_strlit("agent");
    reveal_strlit("params");
    reveal_strlit("task");
}

/// The body that [`AiService::generate_video`] sends.
pub open spec fn generate_video_body(prompt: &str, opts: GenerateVideoOptions<'_>) -> JsonValue {
    object_of(
        seq![user_messages(prompt@), ("required_capabilities"@, str_list_value(seq!["video_generation"@]))]
            + opt_uint_member(
                "duration_seconds"@,
                match opts.duration_seconds {
                    Some(d) => Some(d as u64),
                    None => None,
                },
            )
            + opt_text_member("preferred_provider"@, opts.preferred_provider),
    )
}

/// What `generate_video_body` builds reads back field by field: each value the
/// arguments give is found under its own name, an optional one only when
/// it is set, and a list as the same items in the same order.
pub proof fn lemma_generate_video_body_reads_back(prompt: &str, opts: GenerateVideoOptions<'_>)
    ensures
        crate::decode::field_opt_str(generate_video_body(prompt, opts), "preferred_provider"@) == Some(crate::json::opt_str(opts.preferred_provider)),
{
    assert(crate::decode::field_opt_str(generate_video_body(prompt, opts), "preferred_provider"@) == Some(crate::json::opt_str(opts.preferred_provider))) by {
        broadcast use crate::json::lemma_member_lookup_append, crate::json::lemma_member_lookup_opt;

        lemma_generate_video_body_keys();
        reveal_with_fuel(crate::json::member_lookup, 3);
    }
}

/// The field names that `generate_video_body` uses, told apart.
proof fn lemma_generate_video_body_keys()
    ensures
        "duration_seconds"@.len() == 16,
        "duration_seconds"@[0] == 'd',
        "messages"@.len() == 8,
        "preferred_provider"@.len() == 18,
        "required_capabilities"@.len() == 21,
        "video_generation"@.len() == 16,
        "video_generation"@[0] == 'v',
{
    reveal_strlit("duration_seconds");
    reveal_strlit("messages");
    reveal_strlit("preferred_provider");
    reveal_strlit("required_capabilities");
    reveal_strlit("video_generation");
}

/// The body that [`AiService::generate_image`] sends.
pub open spec fn generate_image_body(prompt: &str, opts: GenerateImageOptions<'_>) -> JsonValue {
    object_of(
        seq![user_messages(prompt@), ("required_capabilities"@, str_list_value(seq!["image_generation"@]))]
            + opt_text_member("preferred_provider"@, opts.preferred_provider),
    )
}

/// What `generate_image_body` builds reads back field by field: each value the
/// arguments give is found under its own name, an optional one only when
/// it is set, and a list as the same items in the same order.
pub proof fn lemma_generate_image_body_reads_back(prompt: &str, opts: GenerateImageOptions<'_>)
    ensures
        crate::decode::field_opt_str(generate_image_body(prompt, opts), "preferred_provider"@) == Some(crate::json::opt_str(opts.preferred_provider)),
{
    assert(crate::decode::field_opt_str(generate_image_body(prompt, opts), "preferred_provider"@) == Some(crate::json::opt_str(opts.preferred_provider))) by {
        broadcast use crate::json::lemma_member_lookup_append, crate::json::lemma_member_lookup_opt;

        lemma_generate_image_body_keys();
        reveal_with_fuel(crate::json::member_lookup, 3);
    }
}

/// The field names that `generate_image_body` uses, told apart.
proof fn lemma_generate_image_body_keys()
    ensures
        "image_generation"@.len() == 16,
        "messages"@.len() == 8,
        "preferred_provider"@.len() == 18,
        "required_capabilities"@.len() == 21,
{
    reveal_strlit("image_generation");
    reveal_strlit("messages");
    reveal_strlit("preferred_provider");
    reveal_strlit("required_capabilities");
}

/// The body that [`AiService::query`] sends.
pub open spec fn query_request_body(prompt: &str, tier: Option<&str>) -> JsonValue {
    object_of(seq![user_messages(prompt@)] + opt_text_member("tier"@, tier))
}

/// What `query_request_body` builds reads back field by field: each value the
/// arguments give is found under its own name, an optional one only when
/// it is set, and a list as the same items in the same order.
pub proof fn lemma_query_request_body_reads_back(prompt: &str, tier: Option<&str>)
    ensures
        crate::decode::field_opt_str(query_request_body(prompt, tier), "tier"@) == Some(crate::json::opt_str(tier)),
{
    assert(crate::decode::field_opt_str(query_request_body(prompt, tier), "tier"@) == Some(crate::json::opt_str(tier))) by {
        broadcast use crate::json::lemma_member_lookup_append, crate::json::lemma_member_lookup_opt;

        lemma_query_request_body_keys();
        reveal_with_fuel(crate::json::member_lookup, 2);
    }
}

/// The field names that `query_request_body` uses, told apart.
proof fn lemma_query_request_body_keys()
    ensures
        "messages"@.len() == 8,
        "tier"@.len() == 4,
{
    reveal_strlit("messages");
    reveal_strlit("tier");
}

impl AiService {
    /// Send a single-turn prompt, at a tier when given.
    pub fn query(&self, prompt: &str, tier: Option<&str>) -> (r: ApiRequest)
        ensures
            r@ == json_request(
                HttpMethod::Post,
                "/ai/chat"@,
                query_request_body(prompt, tier),
            ),
    {
        let r = self.query_with_options(prompt, QueryOptions { tier, context: None, required_capabilities: None });
        assert(query_body(prompt@, QueryOptions { tier, context: None, required_capabilities: None })->Object_0
            =~= seq![user_messages(prompt@)] + opt_text_member("tier"@, tier));
        r
    }

    /// Send a single-turn prompt with all options, capability routing
    /// included.
    pub fn query_with_options(&self, prompt: &str, opts: QueryOptions<'_>) -> (r: ApiRequest)
        ensures
            r@ == json_request(HttpMethod::Post, "/ai/chat"@, query_body(prompt@, opts)),
    {
        let ghost o = opts;
        let mut body = Members::new();
        user_messages_member(&mut body, prompt);
        body.put_opt_str("tier", opts.tier);
        body.put_opt("context", opts.context);
        match opts.required_capabilities {
            Some(caps) => {
                body.put("required_capabilities", Json::string_list(&caps));
            },
            None => {},
        }
        assert(body@ =~= query_body(prompt@, o)->Object_0);
        ApiRequest::post("/ai/chat".to_owned(), body.into_json())
    }

    /// Generate an image from a text prompt.
    pub fn generate_image(&self, prompt: &str, opts: GenerateImageOptions<'_>) -> (r: ApiRequest)
        ensures
            r@ == json_request(
                HttpMethod::Post,
                "/ai/chat"@,
                generate_image_body(prompt, opts),
            ),
    {
        let mut body = Members::new();
        user_messages_member(&mut body, prompt);
        let mut caps: Vec<String> = Vec::new();
        caps.push("image_generation".to_owned());
        let caps_json = Json::string_list(&caps);
        assert(strings_view(caps@) =~= seq!["image_generation"@]);
        body.put("required_capabilities", caps_json);
        body.put_opt_str("preferred_provider", opts.preferred_provider);
        assert(body@ =~= seq![user_messages(prompt@), ("required_capabilities"@, str_list_value(seq!["image_generation"@]))]
            + opt_text_member("preferred_provider"@, opts.preferred_provider));
        ApiRequest::post("/ai/chat".to_owned(), body.into_json())
    }

    /// Generate a video from a text prompt; the reply refers to a job to
    /// poll.
    pub fn generate_video(&self, prompt: &str, opts: GenerateVideoOptions<'_>) -> (r: ApiRequest)
        ensures
            r@ == json_request(
                HttpMethod::Post,
                "/ai/chat"@,
                generate_video_body(prompt, opts),
            ),
    {
        let mut body = Members::new();
        user_messages_member(&mut body, prompt);
        let mut caps: Vec<String> = Vec::new();
        caps.push("video_generation".to_owned());
        let caps_json = Json::string_list(&caps);
        assert(strings_view(caps@) =~= seq!["video_generation"@]);
        body.put("required_capabilities", caps_json);
        let duration: Option<u64> = match opts.duration_seconds {
            Some(d) => Some(d as u64),
            None => None,
        };
        body.put_opt_uint("duration_seconds", duration);
        body.put_opt_str("preferred_provider", opts.preferred_provider);
        assert(body@ =~= seq![user_messages(prompt@), ("required_capabilities"@, str_list_value(seq!["video_generation"@]))]
            + opt_uint_member("duration_seconds"@, duration)
            + opt_text_member("preferred_provider"@, opts.preferred_provider));
        ApiRequest::post("/ai/chat".to_owned(), body.into_json())
    }

    /// Ask a vertical specialist model (medical, legal, financial or
    /// scientific). Any other specialty is refused before a call.
    pub fn specialist_query(&self, prompt: &str, specialty: &str, context: Option<&str>) -> (r: Result<ApiRequest, OlympusError>)
        ensures
            specialist_capability(specialty@) is None ==> plan_view(r) == Err::<RequestView, ErrorView>(
                ErrorView::Config(
                    "unknown specialty '"@ + specialty@ + "' (must be medical/legal/financial/scientific)"@,
                ),
            ),
            specialist_capability(specialty@) matches Some(cap) ==> plan_view(r) == Ok::<RequestView, ErrorView>(
                json_request(HttpMethod::Post, "/ai/chat"@, specialist_body(prompt@, cap, context)),
            ),
    {
        let capability = match specialty_capability(specialty) {
            Some(c) => c,
            None => {
                return Err(OlympusError::Config(concat3(
                    "unknown specialty '",
                    specialty,
                    "' (must be medical/legal/financial/scientific)",
                )));
            },
        };
        let mut messages: Vec<Json> = Vec::new();
        match context {
            Some(ctx) => {
                messages.push(message("system", ctx));
            },
            None => {},
        }
        messages.push(message("user", prompt));
        let list = Json::Array(messages);
        assert(list@->Array_0 =~= specialist_messages(prompt@, context));
        let mut caps: Vec<String> = Vec::new();
        caps.push("reasoning".to_owned());
        caps.push(capability.to_owned());
        let caps_json = Json::string_list(&caps);
        assert(strings_view(caps@) =~= seq!["reasoning"@, capability@]);
        let mut body = Members::new();
        body.put("messages", list);
        body.put("required_capabilities", caps_json);
        assert(body@ =~= specialist_body(prompt@, capability@, context)->Object_0);
        Ok(ApiRequest::post("/ai/chat".to_owned(), body.into_json()))
    }

    /// Run a LangGraph agent synchronously.
    pub fn invoke(&self, agent: &str, task: &str, params: Option<Json>) -> (r: ApiRequest)
        ensures
            r@ == json_request(
                HttpMethod::Post,
                "/agent/invoke"@,
                invoke_body(agent, task, params),
            ),
    {
        let ghost p = params;
        let mut body = Members::new();
        body.put_str("agent", agent);
        body.put_str("task", task);
        body.put_opt("params", params);
        assert(body@ =~= seq![text_member("agent"@, agent@), text_member("task"@, task@)] + opt_json_member("params"@, p));
        ApiRequest::post("/agent/invoke".to_owned(), body.into_json())
    }

    /// Send a multi-turn chat completion request, to a model when given.
    pub fn chat(&self, messages: Json, model: Option<&str>) -> (r: ApiRequest)
        ensures
            r@ == json_request(
                HttpMethod::Post,
                "/ai/chat"@,
                chat_body(messages, model),
            ),
    {
        let ghost m = messages@;
        let mut body = Members::new();
        body.put("messages", messages);
        body.put_opt_str("model", model);
        assert(body@ =~= seq![("messages"@, m)] + opt_text_member("model"@, model));
        ApiRequest::post("/ai/chat".to_owned(), body.into_json())
    }
}

} // verus!
