//! Voice AI platform: agent configs, conversations, campaigns, phone
//! numbers, marketplace voices, calls, speakers, profiles, caller profiles,
//! voicemail, ambiance beds, personas, templates, escalation and
//! business-hours config, and the edge voice pipeline.

use vstd::prelude::*;
use base64::Engine;
use crate::http::{
    bool_text, delete_request, get_request, json_request, opt_bool_text, opt_decimal32, opt_pair,
    page_limit, page_limit_query, path_end, path_end2, path_raw, path_with, trim_trailing_slashes,
    empty_object, ApiRequest, HttpMethod, Query,
};
use crate::decode::{field_opt_bool, field_opt_str};
use crate::json::{json_get, opt_json_view};
use crate::json::{
    object_of, opt_bool_member, opt_json_member, opt_member, opt_str, opt_text_member,
    str_list_value, strings_view, text_member, uint_value, Json, JsonValue, Members,
};
use crate::text::{chars_of, concat2, concat3, string_of_range};
use crate::url::{url_encode, url_encoded};

pub use crate::services::voice_config::{VoiceDefaultsCascade, VoiceDefaultsRung, VoiceEffectiveConfig, VoicePipeline};

verus! {

/// The digit of the standard base64 alphabet for a six-bit value.
pub open spec fn base64_digit(n: int) -> char {
    "ABCDEFGHIJKLMNOPQRSTUVWXYZabcdefghijklmnopqrstuvwxyz0123456789+/"@[n]
}

/// The padded standard base64 text of `bytes`: each group of three bytes
/// gives four digits of six bits each, most significant first; a last
/// group of two bytes gives three digits and `=`, one of one byte two
/// digits and `==`, the missing bits being zero.
pub open spec fn base64_standard_encoded(bytes: Seq<u8>) -> Seq<char>
    decreases bytes.len(),
{
    if bytes.len() >= 3 {
        let (a, b, c) = (bytes[0] as int, bytes[1] as int, bytes[2] as int);
        seq![base64_digit(a / 4), base64_digit((a % 4) * 16 + b / 16), base64_digit((b % 16) * 4 + c / 64), base64_digit(c % 64)]
            + base64_standard_encoded(bytes.subrange(3, bytes.len() as int))
    } else if bytes.len() == 2 {
        let (a, b) = (bytes[0] as int, bytes[1] as int);
        seq![base64_digit(a / 4), base64_digit((a % 4) * 16 + b / 16), base64_digit((b % 16) * 4), '=']
    } else if bytes.len() == 1 {
        let a = bytes[0] as int;
        seq![base64_digit(a / 4), base64_digit((a % 4) * 16), '=', '=']
    } else {
        Seq::empty()
    }
}

/// `base64::engine::general_purpose::STANDARD.encode`: the standard
/// alphabet with padding, as `base64_standard_encoded` spells out.
#[verifier::external_body]
fn base64_standard_encode(bytes: &[u8]) -> (r: String)
    ensures
        r@ == base64_standard_encoded(bytes@),
{
    base64::engine::general_purpose::STANDARD.encode(bytes)
}

/// Plans the calls of the voice platform.
pub struct VoiceService;

/// Pagination options for `list_configs`, `list_conversations`, etc.
#[derive(Default, Debug, Clone, Copy)]
pub struct PageOptions<'a> {
    pub page: Option<u32>,
    pub limit: Option<u32>,
    pub tenant_id: Option<&'a str>,
}

/// Filter options for [`VoiceService::list_personas`].
#[derive(Default, Debug, Clone, Copy)]
pub struct ListPersonasOptions<'a> {
    pub category: Option<&'a str>,
    pub industry: Option<&'a str>,
    pub premium_only: Option<bool>,
}

/// Filter options for [`VoiceService::list_gemini_voices`].
#[derive(Default, Debug, Clone, Copy)]
pub struct ListGeminiVoicesOptions<'a> {
    pub language: Option<&'a str>,
}

/// Filter options for [`VoiceService::list_voices`] (marketplace).
#[derive(Default, Debug, Clone, Copy)]
pub struct ListVoicesOptions<'a> {
    pub language: Option<&'a str>,
    pub gender: Option<&'a str>,
    pub limit: Option<u32>,
}

/// Filter options for [`VoiceService::search_numbers`].
#[derive(Default, Debug, Clone, Copy)]
pub struct SearchNumbersOptions<'a> {
    pub area_code: Option<&'a str>,
    pub contains: Option<&'a str>,
    pub country: Option<&'a str>,
    pub limit: Option<u32>,
}

/// Filter options for [`VoiceService::list_conversations`].
#[derive(Default, Debug, Clone, Copy)]
pub struct ListConversationsOptions<'a> {
    pub agent_id: Option<&'a str>,
    pub status: Option<&'a str>,
    pub page: Option<u32>,
    pub limit: Option<u32>,
    pub tenant_id: Option<&'a str>,
}

/// Filter options for [`VoiceService::list_messages`].
#[derive(Default, Debug, Clone, Copy)]
pub struct ListVoiceMessagesOptions<'a> {
    pub department: Option<&'a str>,
    pub page: Option<u32>,
    pub limit: Option<u32>,
}

/// Filter options for [`VoiceService::list_voicemails`].
#[derive(Default, Debug, Clone, Copy)]
pub struct ListVoicemailsOptions<'a> {
    pub caller_phone: Option<&'a str>,
    pub page: Option<u32>,
    pub limit: Option<u32>,
}

/// Filter options for [`VoiceService::get_analytics`].
#[derive(Default, Debug, Clone, Copy)]
pub struct GetAnalyticsOptions<'a> {
    pub agent_id: Option<&'a str>,
    pub from: Option<&'a str>,
    pub to: Option<&'a str>,
}

/// Filter options for [`VoiceService::list_caller_profiles`].
#[derive(Debug, Clone, Copy)]
pub struct ListCallerProfilesOptions {
    pub limit: u32,
    pub offset: u32,
}

impl Default for ListCallerProfilesOptions {
    /// Fifty profiles from the start.
    fn default() -> (r: Self)
        ensures
            r.limit == 50 && r.offset == 0,
    {
        ListCallerProfilesOptions { limit: 50, offset: 0 }
    }
}

/// Parameters for [`VoiceService::create_agent`].
#[derive(Default, Debug)]
pub struct CreateAgentRequest<'a> {
    pub from_template_id: Option<&'a str>,
    pub name: Option<&'a str>,
    pub voice_id: Option<&'a str>,
    pub persona: Option<&'a str>,
    pub greeting: Option<&'a str>,
    pub phone_number: Option<&'a str>,
    pub location_id: Option<&'a str>,
    pub ambiance_config: Option<Json>,
    pub voice_overrides: Option<Json>,
    pub business_hours: Option<Json>,
    pub escalation_rules: Option<Json>,
}

/// Parameters for [`VoiceService::update_agent`].
#[derive(Default, Debug)]
pub struct UpdateAgentRequest<'a> {
    pub name: Option<&'a str>,
    pub voice_id: Option<&'a str>,
    pub persona: Option<&'a str>,
    pub greeting: Option<&'a str>,
    pub ambiance_config: Option<Json>,
    pub voice_overrides: Option<Json>,
    pub business_hours: Option<Json>,
    pub escalation_rules: Option<Json>,
    pub is_active: Option<bool>,
}

/// Parameters for [`VoiceService::clone_agent`].
#[derive(Default, Debug, Clone, Copy)]
pub struct CloneAgentRequest<'a> {
    pub new_name: Option<&'a str>,
    pub phone_number: Option<&'a str>,
    pub location_id: Option<&'a str>,
}

/// Parameters for [`VoiceService::preview_agent_voice`].
#[derive(Debug)]
pub struct PreviewAgentVoiceRequest<'a> {
    pub sample_text: &'a str,
    pub voice_id: Option<&'a str>,
    pub voice_overrides: Option<Json>,
}

/// Parameters for [`VoiceService::instantiate_agent_template`].
#[derive(Debug, Clone, Copy)]
pub struct InstantiateAgentTemplateRequest<'a> {
    pub name: &'a str,
    pub phone_number: Option<&'a str>,
    pub location_id: Option<&'a str>,
}

/// Parameters for [`VoiceService::publish_agent_as_template`].
#[derive(Debug, Clone, Copy)]
pub struct PublishAgentAsTemplateRequest<'a> {
    pub scope: &'a str,
    pub description: Option<&'a str>,
}

/// Parameters for [`VoiceService::upload_ambiance_bed`].
#[derive(Debug, Clone)]
pub struct UploadAmbianceBedRequest<'a> {
    pub name: &'a str,
    pub audio_bytes: &'a [u8],
    pub time_of_day: Option<&'a str>,
    pub description: Option<&'a str>,
}

/// Parameters for [`VoiceService::update_agent_ambiance`]. The intensity
/// is carried as the JSON value it is sent as: a number, or `null` where
/// the caller's float has no JSON form.
#[derive(Default, Debug)]
pub struct UpdateAgentAmbianceRequest<'a> {
    pub enabled: Option<bool>,
    pub intensity: Option<Json>,
    pub default_r2_key: Option<&'a str>,
    pub time_of_day_variants: Option<Members>,
}

/// Parameters for [`VoiceService::update_agent_voice_overrides`]. Each
/// tuning value is carried as the JSON value it is sent as: a number, or
/// `null` where the caller's float has no JSON form.
#[derive(Default, Debug)]
pub struct UpdateAgentVoiceOverridesRequest<'a> {
    pub pitch: Option<Json>,
    pub speed: Option<Json>,
    pub warmth: Option<Json>,
    pub regional_dialect: Option<&'a str>,
}

/// Parameters for [`VoiceService::provision_agent`].
#[derive(Debug)]
pub struct ProvisionAgentRequest<'a> {
    pub agent_id: &'a str,
    pub tenant_id: &'a str,
    pub voice_name: &'a str,
    pub profile: Json,
    pub greeting_text: &'a str,
}

/// Parameters for [`VoiceService::process_audio`].
#[derive(Debug, Clone)]
pub struct ProcessAudioRequest<'a> {
    pub audio_bytes: &'a [u8],
    pub language: Option<&'a str>,
    pub agent_id: Option<&'a str>,
    pub voice_id: Option<&'a str>,
    pub session_id: Option<&'a str>,
}

// ---------------------------------------------------------------------------
// Queries and bodies, as the contracts state them
// ---------------------------------------------------------------------------

/// `page`, `limit` and `tenant_id`, each only when given.
pub open spec fn page_query(opts: PageOptions) -> Seq<(Seq<char>, Seq<char>)> {
    page_limit_query(opts.page, opts.limit) + opt_pair("tenant_id"@, opt_str(opts.tenant_id))
}

/// What `page_query` builds reads back pair by pair: each value the arguments
/// give is found under its own name, an optional one only when it is set.
pub proof fn lemma_page_query_reads_back(opts: PageOptions)
    ensures
        crate::http::pair_value(page_query(opts), "tenant_id"@) == opt_str(opts.tenant_id),
{
    assert(crate::http::pair_value(page_query(opts), "tenant_id"@) == opt_str(opts.tenant_id)) by {
        broadcast use crate::http::lemma_pair_value_append, crate::http::lemma_pair_value_opt;

        lemma_page_query_keys();
        reveal_with_fuel(crate::http::pair_value, 2);
    }
}

/// The names that `page_query` uses, told apart.
proof fn lemma_page_query_keys()
    ensures
        "limit"@.len() == 5,
        "page"@.len() == 4,
        "tenant_id"@.len() == 9,
{
    reveal_strlit("limit");
    reveal_strlit("page");
    reveal_strlit("tenant_id");
}

pub open spec fn create_agent_body(req: CreateAgentRequest) -> JsonValue {
    object_of(
        opt_text_member("from_template_id"@, req.from_template_id)
            + opt_text_member("name"@, req.name)
            + opt_text_member("voice_id"@, req.voice_id)
            + opt_text_member("persona"@, req.persona)
            + opt_text_member("greeting"@, req.greeting)
            + opt_text_member("phone_number"@, req.phone_number)
            + opt_text_member("location_id"@, req.location_id)
            + opt_json_member("ambiance_config"@, req.ambiance_config)
            + opt_json_member("voice_overrides"@, req.voice_overrides)
            + opt_json_member("business_hours"@, req.business_hours)
            + opt_json_member("escalation_rules"@, req.escalation_rules),
    )
}

pub open spec fn update_agent_body(req: UpdateAgentRequest) -> JsonValue {
    object_of(
        opt_text_member("name"@, req.name)
            + opt_text_member("voice_id"@, req.voice_id)
            + opt_text_member("persona"@, req.persona)
            + opt_text_member("greeting"@, req.greeting)
            + opt_json_member("ambiance_config"@, req.ambiance_config)
            + opt_json_member("voice_overrides"@, req.voice_overrides)
            + opt_json_member("business_hours"@, req.business_hours)
            + opt_json_member("escalation_rules"@, req.escalation_rules)
            + opt_bool_member("is_active"@, req.is_active),
    )
}

/// The create-agent body sends each field that is given under its own
/// name with its own value (the persona under `persona`, the greeting
/// under `greeting`, and so on), and leaves out each one that is not.
pub proof fn lemma_create_agent_body_reads_back(req: CreateAgentRequest)
    ensures
        field_opt_str(create_agent_body(req), "from_template_id"@) == Some(opt_str(req.from_template_id)),
        field_opt_str(create_agent_body(req), "name"@) == Some(opt_str(req.name)),
        field_opt_str(create_agent_body(req), "voice_id"@) == Some(opt_str(req.voice_id)),
        field_opt_str(create_agent_body(req), "persona"@) == Some(opt_str(req.persona)),
        field_opt_str(create_agent_body(req), "greeting"@) == Some(opt_str(req.greeting)),
        field_opt_str(create_agent_body(req), "phone_number"@) == Some(opt_str(req.phone_number)),
        field_opt_str(create_agent_body(req), "location_id"@) == Some(opt_str(req.location_id)),
        json_get(create_agent_body(req), "ambiance_config"@) == opt_json_view(req.ambiance_config),
        json_get(create_agent_body(req), "voice_overrides"@) == opt_json_view(req.voice_overrides),
        json_get(create_agent_body(req), "business_hours"@) == opt_json_view(req.business_hours),
        json_get(create_agent_body(req), "escalation_rules"@) == opt_json_view(req.escalation_rules),
{
    assert(field_opt_str(create_agent_body(req), "from_template_id"@) == Some(opt_str(req.from_template_id))) by {
        broadcast use crate::json::lemma_member_lookup_append, crate::json::lemma_member_lookup_opt;

        lemma_agent_keys_distinct();
    }
    assert(field_opt_str(create_agent_body(req), "name"@) == Some(opt_str(req.name))) by {
        broadcast use crate::json::lemma_member_lookup_append, crate::json::lemma_member_lookup_opt;

        lemma_agent_keys_distinct();
    }
    assert(field_opt_str(create_agent_body(req), "voice_id"@) == Some(opt_str(req.voice_id))) by {
        broadcast use crate::json::lemma_member_lookup_append, crate::json::lemma_member_lookup_opt;

        lemma_agent_keys_distinct();
    }
    assert(field_opt_str(create_agent_body(req), "persona"@) == Some(opt_str(req.persona))) by {
        broadcast use crate::json::lemma_member_lookup_append, crate::json::lemma_member_lookup_opt;

        lemma_agent_keys_distinct();
    }
    assert(field_opt_str(create_agent_body(req), "greeting"@) == Some(opt_str(req.greeting))) by {
        broadcast use crate::json::lemma_member_lookup_append, crate::json::lemma_member_lookup_opt;

        lemma_agent_keys_distinct();
    }
    assert(field_opt_str(create_agent_body(req), "phone_number"@) == Some(opt_str(req.phone_number))) by {
        broadcast use crate::json::lemma_member_lookup_append, crate::json::lemma_member_lookup_opt;

        lemma_agent_keys_distinct();
    }
    assert(field_opt_str(create_agent_body(req), "location_id"@) == Some(opt_str(req.location_id))) by {
        broadcast use crate::json::lemma_member_lookup_append, crate::json::lemma_member_lookup_opt;

        lemma_agent_keys_distinct();
    }
    assert(json_get(create_agent_body(req), "ambiance_config"@) == opt_json_view(req.ambiance_config)) by {
        broadcast use crate::json::lemma_member_lookup_append, crate::json::lemma_member_lookup_opt;

        lemma_agent_keys_distinct();
    }
    assert(json_get(create_agent_body(req), "voice_overrides"@) == opt_json_view(req.voice_overrides)) by {
        broadcast use crate::json::lemma_member_lookup_append, crate::json::lemma_member_lookup_opt;

        lemma_agent_keys_distinct();
    }
    assert(json_get(create_agent_body(req), "business_hours"@) == opt_json_view(req.business_hours)) by {
        broadcast use crate::json::lemma_member_lookup_append, crate::json::lemma_member_lookup_opt;

        lemma_agent_keys_distinct();
    }
    assert(json_get(create_agent_body(req), "escalation_rules"@) == opt_json_view(req.escalation_rules)) by {
        broadcast use crate::json::lemma_member_lookup_append, crate::json::lemma_member_lookup_opt;

        lemma_agent_keys_distinct();
    }
}

/// The update-agent body sends each field that is given under its own
/// name with its own value, and leaves out each one that is not.
pub proof fn lemma_update_agent_body_reads_back(req: UpdateAgentRequest)
    ensures
        field_opt_str(update_agent_body(req), "name"@) == Some(opt_str(req.name)),
        field_opt_str(update_agent_body(req), "voice_id"@) == Some(opt_str(req.voice_id)),
        field_opt_str(update_agent_body(req), "persona"@) == Some(opt_str(req.persona)),
        field_opt_str(update_agent_body(req), "greeting"@) == Some(opt_str(req.greeting)),
        json_get(update_agent_body(req), "ambiance_config"@) == opt_json_view(req.ambiance_config),
        json_get(update_agent_body(req), "voice_overrides"@) == opt_json_view(req.voice_overrides),
        json_get(update_agent_body(req), "business_hours"@) == opt_json_view(req.business_hours),
        json_get(update_agent_body(req), "escalation_rules"@) == opt_json_view(req.escalation_rules),
        field_opt_bool(update_agent_body(req), "is_active"@) == Some(req.is_active),
{
    assert(field_opt_str(update_agent_body(req), "name"@) == Some(opt_str(req.name))) by {
        broadcast use crate::json::lemma_member_lookup_append, crate::json::lemma_member_lookup_opt;

        lemma_agent_keys_distinct();
    }
    assert(field_opt_str(update_agent_body(req), "voice_id"@) == Some(opt_str(req.voice_id))) by {
        broadcast use crate::json::lemma_member_lookup_append, crate::json::lemma_member_lookup_opt;

        lemma_agent_keys_distinct();
    }
    assert(field_opt_str(update_agent_body(req), "persona"@) == Some(opt_str(req.persona))) by {
        broadcast use crate::json::lemma_member_lookup_append, crate::json::lemma_member_lookup_opt;

        lemma_agent_keys_distinct();
    }
    assert(field_opt_str(update_agent_body(req), "greeting"@) == Some(opt_str(req.greeting))) by {
        broadcast use crate::json::lemma_member_lookup_append, crate::json::lemma_member_lookup_opt;

        lemma_agent_keys_distinct();
    }
    assert(json_get(update_agent_body(req), "ambiance_config"@) == opt_json_view(req.ambiance_config)) by {
        broadcast use crate::json::lemma_member_lookup_append, crate::json::lemma_member_lookup_opt;

        lemma_agent_keys_distinct();
    }
    assert(json_get(update_agent_body(req), "voice_overrides"@) == opt_json_view(req.voice_overrides)) by {
        broadcast use crate::json::lemma_member_lookup_append, crate::json::lemma_member_lookup_opt;

        lemma_agent_keys_distinct();
    }
    assert(json_get(update_agent_body(req), "business_hours"@) == opt_json_view(req.business_hours)) by {
        broadcast use crate::json::lemma_member_lookup_append, crate::json::lemma_member_lookup_opt;

        lemma_agent_keys_distinct();
    }
    assert(json_get(update_agent_body(req), "escalation_rules"@) == opt_json_view(req.escalation_rules)) by {
        broadcast use crate::json::lemma_member_lookup_append, crate::json::lemma_member_lookup_opt;

        lemma_agent_keys_distinct();
    }
    assert(field_opt_bool(update_agent_body(req), "is_active"@) == Some(req.is_active)) by {
        broadcast use crate::json::lemma_member_lookup_append, crate::json::lemma_member_lookup_opt;

        lemma_agent_keys_distinct();
    }
}

proof fn lemma_agent_keys_distinct()
    ensures
        "from_template_id"@.len() == 16,
        "name"@.len() == 4,
        "voice_id"@.len() == 8 && "voice_id"@[0] == 'v',
        "persona"@.len() == 7,
        "greeting"@.len() == 8 && "greeting"@[0] == 'g',
        "phone_number"@.len() == 12,
        "location_id"@.len() == 11,
        "ambiance_config"@.len() == 15 && "ambiance_config"@[0] == 'a',
        "voice_overrides"@.len() == 15 && "voice_overrides"@[0] == 'v',
        "business_hours"@.len() == 14 && "business_hours"@[0] == 'b',
        "escalation_rules"@.len() == 16 && "escalation_rules"@[0] == 'e',
        "from_template_id"@[0] == 'f',
        "is_active"@.len() == 9 && "is_active"@[0] == 'i',
{
    reveal_strlit("is_active");
    reveal_strlit("from_template_id");
    reveal_strlit("name");
    reveal_strlit("voice_id");
    reveal_strlit("persona");
    reveal_strlit("greeting");
    reveal_strlit("phone_number");
    reveal_strlit("location_id");
    reveal_strlit("ambiance_config");
    reveal_strlit("voice_overrides");
    reveal_strlit("business_hours");
    reveal_strlit("escalation_rules");
}

pub open spec fn ambiance_body(req: UpdateAgentAmbianceRequest) -> JsonValue {
    object_of(
        opt_bool_member("enabled"@, req.enabled)
            + opt_json_member("intensity"@, req.intensity)
            + opt_text_member("default_r2_key"@, req.default_r2_key)
            + opt_member(
                "time_of_day_variants"@,
                match req.time_of_day_variants {
                    Some(m) => Some(JsonValue::Object(m@)),
                    None => None,
                },
            ),
    )
}

/// What `ambiance_body` builds reads back field by field: each value the
/// arguments give is found under its own name, an optional one only when
/// it is set, and a list as the same items in the same order.
pub proof fn lemma_ambiance_body_reads_back(req: UpdateAgentAmbianceRequest)
    ensures
        crate::decode::field_opt_bool(ambiance_body(req), "enabled"@) == Some(req.enabled),
        crate::json::json_get(ambiance_body(req), "intensity"@) == crate::json::opt_json_view(req.intensity),
        crate::decode::field_opt_str(ambiance_body(req), "default_r2_key"@) == Some(crate::json::opt_str(req.default_r2_key)),
{
    assert(crate::decode::field_opt_bool(ambiance_body(req), "enabled"@) == Some(req.enabled)) by {
        broadcast use crate::json::lemma_member_lookup_append, crate::json::lemma_member_lookup_opt;

        lemma_ambiance_body_keys();
        reveal_with_fuel(crate::json::member_lookup, 2);
    }
    assert(crate::json::json_get(ambiance_body(req), "intensity"@) == crate::json::opt_json_view(req.intensity)) by {
        broadcast use crate::json::lemma_member_lookup_append, crate::json::lemma_member_lookup_opt;

        lemma_ambiance_body_keys();
        reveal_with_fuel(crate::json::member_lookup, 2);
    }
    assert(crate::decode::field_opt_str(ambiance_body(req), "default_r2_key"@) == Some(crate::json::opt_str(req.default_r2_key))) by {
        broadcast use crate::json::lemma_member_lookup_append, crate::json::lemma_member_lookup_opt;

        lemma_ambiance_body_keys();
        reveal_with_fuel(crate::json::member_lookup, 2);
    }
}

/// The field names that `ambiance_body` uses, told apart.
proof fn lemma_ambiance_body_keys()
    ensures
        "default_r2_key"@.len() == 14,
        "enabled"@.len() == 7,
        "intensity"@.len() == 9,
        "time_of_day_variants"@.len() == 20,
{
    reveal_strlit("default_r2_key");
    reveal_strlit("enabled");
    reveal_strlit("intensity");
    reveal_strlit("time_of_day_variants");
}

pub open spec fn voice_overrides_body(req: UpdateAgentVoiceOverridesRequest) -> JsonValue {
    object_of(
        opt_json_member("pitch"@, req.pitch)
            + opt_json_member("speed"@, req.speed)
            + opt_json_member("warmth"@, req.warmth)
            + opt_text_member("regional_dialect"@, req.regional_dialect),
    )
}

/// What `voice_overrides_body` builds reads back field by field: each value the
/// arguments give is found under its own name, an optional one only when
/// it is set, and a list as the same items in the same order.
pub proof fn lemma_voice_overrides_body_reads_back(req: UpdateAgentVoiceOverridesRequest)
    ensures
        crate::json::json_get(voice_overrides_body(req), "pitch"@) == crate::json::opt_json_view(req.pitch),
        crate::json::json_get(voice_overrides_body(req), "speed"@) == crate::json::opt_json_view(req.speed),
        crate::json::json_get(voice_overrides_body(req), "warmth"@) == crate::json::opt_json_view(req.warmth),
        crate::decode::field_opt_str(voice_overrides_body(req), "regional_dialect"@) == Some(crate::json::opt_str(req.regional_dialect)),
{
    assert(crate::json::json_get(voice_overrides_body(req), "pitch"@) == crate::json::opt_json_view(req.pitch)) by {
        broadcast use crate::json::lemma_member_lookup_append, crate::json::lemma_member_lookup_opt;

        lemma_voice_overrides_body_keys();
        reveal_with_fuel(crate::json::member_lookup, 2);
    }
    assert(crate::json::json_get(voice_overrides_body(req), "speed"@) == crate::json::opt_json_view(req.speed)) by {
        broadcast use crate::json::lemma_member_lookup_append, crate::json::lemma_member_lookup_opt;

        lemma_voice_overrides_body_keys();
        reveal_with_fuel(crate::json::member_lookup, 2);
    }
    assert(crate::json::json_get(voice_overrides_body(req), "warmth"@) == crate::json::opt_json_view(req.warmth)) by {
        broadcast use crate::json::lemma_member_lookup_append, crate::json::lemma_member_lookup_opt;

        lemma_voice_overrides_body_keys();
        reveal_with_fuel(crate::json::member_lookup, 2);
    }
    assert(crate::decode::field_opt_str(voice_overrides_body(req), "regional_dialect"@) == Some(crate::json::opt_str(req.regional_dialect))) by {
        broadcast use crate::json::lemma_member_lookup_append, crate::json::lemma_member_lookup_opt;

        lemma_voice_overrides_body_keys();
        reveal_with_fuel(crate::json::member_lookup, 2);
    }
}

/// The field names that `voice_overrides_body` uses, told apart.
proof fn lemma_voice_overrides_body_keys()
    ensures
        "pitch"@.len() == 5,
        "pitch"@[0] == 'p',
        "regional_dialect"@.len() == 16,
        "speed"@.len() == 5,
        "speed"@[0] == 's',
        "warmth"@.len() == 6,
{
    reveal_strlit("pitch");
    reveal_strlit("regional_dialect");
    reveal_strlit("speed");
    reveal_strlit("warmth");
}

/// `str::replacen(pattern, replacement, 1)`: the first occurrence of the
/// pattern replaced; an empty pattern occurs first at the very start.
pub open spec fn replace_first(s: Seq<char>, pat: Seq<char>, rep: Seq<char>) -> Seq<char>
    decreases s.len(),
{
    if pat.len() == 0 {
        rep + s
    } else if s.len() < pat.len() {
        s
    } else if s.subrange(0, pat.len() as int) == pat {
        rep + s.subrange(pat.len() as int, s.len() as int)
    } else {
        seq![s[0]] + replace_first(s.drop_first(), pat, rep)
    }
}

/// The WebSocket URL of the edge voice pipeline for a base URL.
pub open spec fn voice_socket_url(base_url: Seq<char>, session_id: Option<&str>) -> Seq<char> {
    let base = trim_trailing_slashes(replace_first(base_url, "https://"@, "wss://"@));
    match session_id {
        Some(sid) => base + "/ws/voice?session_id="@ + url_encoded(sid@),
        None => base + "/ws/voice"@,
    }
}

fn starts_at(cs: &Vec<char>, at: usize, pat: &Vec<char>) -> (r: bool)
    requires
        at + pat.len() <= cs.len(),
    ensures
        r == (cs@.subrange(at as int, at + pat.len()) == pat@),
{
    let mut k: usize = 0;
    while k < pat.len()
        invariant
            k <= pat.len(),
            at + pat.len() <= cs.len(),
            forall|j: int| 0 <= j < k ==> cs@[at + j] == pat@[j],
        decreases pat.len() - k,
    {
        if cs[at + k] != pat[k] {
            assert(cs@.subrange(at as int, at + pat.len())[k as int] != pat@[k as int]);
            return false;
        }
        k = k + 1;
    }
    assert(cs@.subrange(at as int, at + pat.len()) =~= pat@);
    true
}

proof fn lemma_replace_first_skip(s: Seq<char>, pat: Seq<char>, rep: Seq<char>, i: int)
    requires
        pat.len() > 0,
        0 <= i,
        i + pat.len() <= s.len(),
        forall|j: int| 0 <= j < i ==> #[trigger] s.subrange(j, j + pat.len()) != pat,
    ensures
        replace_first(s, pat, rep) == s.subrange(0, i) + replace_first(s.subrange(i, s.len() as int), pat, rep),
    decreases i,
{
    if i > 0 {
        let z: int = 0;
        assert(s.subrange(z, z + pat.len()) != pat);
        assert(s.subrange(z, z + pat.len()) == s.subrange(0, pat.len() as int));
        let t = s.drop_first();
        assert forall|j: int| 0 <= j < i - 1 implies #[trigger] t.subrange(j, j + pat.len()) != pat by {
            assert(t.subrange(j, j + pat.len()) =~= s.subrange(j + 1, j + 1 + pat.len()));
        }
        lemma_replace_first_skip(t, pat, rep, i - 1);
        assert(t.subrange(i - 1, t.len() as int) =~= s.subrange(i, s.len() as int));
        assert(s.subrange(0, i) =~= seq![s[0]] + t.subrange(0, i - 1));
    } else {
        assert(s.subrange(0, 0) + replace_first(s.subrange(0, s.len() as int), pat, rep) =~= replace_first(s, pat, rep)) by {
            assert(s.subrange(0, s.len() as int) =~= s);
        }
    }
}

proof fn lemma_replace_first_none(s: Seq<char>, pat: Seq<char>, rep: Seq<char>)
    requires
        pat.len() > 0,
        forall|j: int| 0 <= j && j + pat.len() <= s.len() ==> #[trigger] s.subrange(j, j + pat.len()) != pat,
    ensures
        replace_first(s, pat, rep) == s,
    decreases s.len(),
{
    if s.len() >= pat.len() {
        let z: int = 0;
        assert(s.subrange(z, z + pat.len()) != pat);
        assert(s.subrange(z, z + pat.len()) == s.subrange(0, pat.len() as int));
        let t = s.drop_first();
        assert forall|j: int| 0 <= j && j + pat.len() <= t.len() implies #[trigger] t.subrange(j, j + pat.len()) != pat by {
            assert(t.subrange(j, j + pat.len()) =~= s.subrange(j + 1, j + 1 + pat.len()));
        }
        lemma_replace_first_none(t, pat, rep);
        assert(seq![s[0]] + t =~= s);
    }
}

/// `s.replacen(pat, rep, 1)`: the first occurrence of `pat` replaced by `rep`.
pub fn replace_first_of(s: &str, pat: &str, rep: &str) -> (r: String)
    ensures
        r@ == replace_first(s@, pat@, rep@),
{
    let cs = chars_of(s);
    let ps = chars_of(pat);
    if ps.len() == 0 {
        return concat2(rep, s);
    }
    if ps.len() > cs.len() {
        return s.to_owned();
    }
    let last = cs.len() - ps.len();
    let mut i: usize = 0;
    while i <= last
        invariant
            last + ps.len() == cs.len(),
            cs@ == s@,
            ps@ == pat@,
            ps@.len() > 0,
            i <= last + 1,
            forall|j: int| 0 <= j < i ==> #[trigger] cs@.subrange(j, j + ps@.len()) != ps@,
        decreases last + 1 - i,
    {
        if starts_at(&cs, i, &ps) {
            proof {
                lemma_replace_first_skip(cs@, ps@, rep@, i as int);
                let t = cs@.subrange(i as int, cs@.len() as int);
                assert(t.subrange(0, ps@.len() as int) =~= cs@.subrange(i as int, i + ps@.len()));
                assert(t.subrange(ps@.len() as int, t.len() as int) =~= cs@.subrange(i + ps@.len(), cs@.len() as int));
            }
            let head = string_of_range(&cs, 0, i);
            let tail = string_of_range(&cs, i + ps.len(), cs.len());
            let r = concat3(head.as_str(), rep, tail.as_str());
            assert(r@ =~= replace_first(s@, pat@, rep@));
            return r;
        }
        i = i + 1;
    }
    proof {
        assert forall|j: int| 0 <= j && j + ps@.len() <= cs@.len() implies #[trigger] cs@.subrange(j, j + ps@.len()) != ps@ by {
            assert(j < i);
        }
        lemma_replace_first_none(cs@, ps@, rep@);
    }
    s.to_owned()
}

fn trim_slashes(s: &str) -> (r: String)
    ensures
        r@ == trim_trailing_slashes(s@),
{
    let cs = chars_of(s);
    let mut end = cs.len();
    assert(cs@.subrange(0, cs@.len() as int) =~= cs@);
    while end > 0 && cs[end - 1] == '/'
        invariant
            end <= cs.len(),
            trim_trailing_slashes(cs@) == trim_trailing_slashes(cs@.subrange(0, end as int)),
        decreases end,
    {
        assert(cs@.subrange(0, end as int).drop_last() =~= cs@.subrange(0, end - 1));
        end = end - 1;
    }
    string_of_range(&cs, 0, end)
}

/// The body that [`VoiceService::test_agent`] sends.
pub open spec fn test_agent_body(tenant_id: &str, scenario_count: u32) -> JsonValue {
    object_of(seq![
        text_member("tenant_id"@, tenant_id@),
        ("scenario_count"@, uint_value(scenario_count as u64)),
    ])
}

/// What `test_agent_body` builds reads back field by field: each value the
/// arguments give is found under its own name, an optional one only when
/// it is set, and a list as the same items in the same order.
pub proof fn lemma_test_agent_body_reads_back(tenant_id: &str, scenario_count: u32)
    ensures
        crate::json::json_str_member(test_agent_body(tenant_id, scenario_count), "tenant_id"@) == Some(tenant_id@),
        crate::json::json_get(test_agent_body(tenant_id, scenario_count), "scenario_count"@) == Some(uint_value(scenario_count as u64)),
{
    assert(crate::json::json_str_member(test_agent_body(tenant_id, scenario_count), "tenant_id"@) == Some(tenant_id@)) by {
        broadcast use crate::json::lemma_member_lookup_append, crate::json::lemma_member_lookup_opt;

        lemma_test_agent_body_keys();
        reveal_with_fuel(crate::json::member_lookup, 3);
    }
    assert(crate::json::json_get(test_agent_body(tenant_id, scenario_count), "scenario_count"@) == Some(uint_value(scenario_count as u64))) by {
        broadcast use crate::json::lemma_member_lookup_append, crate::json::lemma_member_lookup_opt;

        lemma_test_agent_body_keys();
        reveal_with_fuel(crate::json::member_lookup, 3);
    }
}

/// The field names that `test_agent_body` uses, told apart.
proof fn lemma_test_agent_body_keys()
    ensures
        "scenario_count"@.len() == 14,
        "tenant_id"@.len() == 9,
{
    reveal_strlit("scenario_count");
    reveal_strlit("tenant_id");
}

/// The body that [`VoiceService::process_audio`] sends.
pub open spec fn process_audio_body(req: ProcessAudioRequest<'_>) -> JsonValue {
    object_of(
        seq![text_member("audio"@, base64_standard_encoded(req.audio_bytes@))]
            + opt_text_member("language"@, req.language)
            + opt_text_member("agent_id"@, req.agent_id)
            + opt_text_member("voice_id"@, req.voice_id)
            + opt_text_member("session_id"@, req.session_id),
    )
}

/// What `process_audio_body` builds reads back field by field: each value the
/// arguments give is found under its own name, an optional one only when
/// it is set, and a list as the same items in the same order.
pub proof fn lemma_process_audio_body_reads_back(req: ProcessAudioRequest<'_>)
    ensures
        crate::json::json_str_member(process_audio_body(req), "audio"@) == Some(base64_standard_encoded(req.audio_bytes@)),
        crate::decode::field_opt_str(process_audio_body(req), "language"@) == Some(crate::json::opt_str(req.language)),
        crate::decode::field_opt_str(process_audio_body(req), "agent_id"@) == Some(crate::json::opt_str(req.agent_id)),
        crate::decode::field_opt_str(process_audio_body(req), "voice_id"@) == Some(crate::json::opt_str(req.voice_id)),
        crate::decode::field_opt_str(process_audio_body(req), "session_id"@) == Some(crate::json::opt_str(req.session_id)),
{
    assert(crate::json::json_str_member(process_audio_body(req), "audio"@) == Some(base64_standard_encoded(req.audio_bytes@))) by {
        broadcast use crate::json::lemma_member_lookup_append, crate::json::lemma_member_lookup_opt;

        lemma_process_audio_body_keys();
        reveal_with_fuel(crate::json::member_lookup, 2);
    }
    assert(crate::decode::field_opt_str(process_audio_body(req), "language"@) == Some(crate::json::opt_str(req.language))) by {
        broadcast use crate::json::lemma_member_lookup_append, crate::json::lemma_member_lookup_opt;

        lemma_process_audio_body_keys();
        reveal_with_fuel(crate::json::member_lookup, 2);
    }
    assert(crate::decode::field_opt_str(process_audio_body(req), "agent_id"@) == Some(crate::json::opt_str(req.agent_id))) by {
        broadcast use crate::json::lemma_member_lookup_append, crate::json::lemma_member_lookup_opt;

        lemma_process_audio_body_keys();
        reveal_with_fuel(crate::json::member_lookup, 2);
    }
    assert(crate::decode::field_opt_str(process_audio_body(req), "voice_id"@) == Some(crate::json::opt_str(req.voice_id))) by {
        broadcast use crate::json::lemma_member_lookup_append, crate::json::lemma_member_lookup_opt;

        lemma_process_audio_body_keys();
        reveal_with_fuel(crate::json::member_lookup, 2);
    }
    assert(crate::decode::field_opt_str(process_audio_body(req), "session_id"@) == Some(crate::json::opt_str(req.session_id))) by {
        broadcast use crate::json::lemma_member_lookup_append, crate::json::lemma_member_lookup_opt;

        lemma_process_audio_body_keys();
        reveal_with_fuel(crate::json::member_lookup, 2);
    }
}

/// The field names that `process_audio_body` uses, told apart.
proof fn lemma_process_audio_body_keys()
    ensures
        "agent_id"@.len() == 8,
        "agent_id"@[0] == 'a',
        "audio"@.len() == 5,
        "language"@.len() == 8,
        "language"@[0] == 'l',
        "session_id"@.len() == 10,
        "voice_id"@.len() == 8,
        "voice_id"@[0] == 'v',
{
    reveal_strlit("agent_id");
    reveal_strlit("audio");
    reveal_strlit("language");
    reveal_strlit("session_id");
    reveal_strlit("voice_id");
}

/// The body that [`VoiceService::add_words`] sends.
pub open spec fn add_words_body(words: Vec<String>) -> JsonValue {
    object_of(seq![("words"@, str_list_value(strings_view(words@)))])
}

/// What `add_words_body` builds reads back field by field: each value the
/// arguments give is found under its own name, an optional one only when
/// it is set, and a list as the same items in the same order.
pub proof fn lemma_add_words_body_reads_back(words: Vec<String>)
    ensures
        crate::decode::field_str_list(add_words_body(words), "words"@) == Some(strings_view(words@)),
{
    assert(crate::decode::field_str_list(add_words_body(words), "words"@) == Some(strings_view(words@))) by {
        broadcast use crate::json::lemma_member_lookup_append, crate::json::lemma_member_lookup_opt;

        lemma_add_words_body_keys();
        reveal_with_fuel(crate::json::member_lookup, 2);
        crate::decode::lemma_str_list_reads_back(strings_view(words@));
    }
}

/// The field names that `add_words_body` uses, told apart.
proof fn lemma_add_words_body_keys()
    ensures
        "words"@.len() == 5,
{
    reveal_strlit("words");
}

/// The body that [`VoiceService::assign_number`] sends.
pub open spec fn assign_number_body(agent_id: &str) -> JsonValue {
    object_of(seq![text_member("agent_id"@, agent_id@)])
}

/// What `assign_number_body` builds reads back field by field: each value the
/// arguments give is found under its own name, an optional one only when
/// it is set, and a list as the same items in the same order.
pub proof fn lemma_assign_number_body_reads_back(agent_id: &str)
    ensures
        crate::json::json_str_member(assign_number_body(agent_id), "agent_id"@) == Some(agent_id@),
{
    assert(crate::json::json_str_member(assign_number_body(agent_id), "agent_id"@) == Some(agent_id@)) by {
        broadcast use crate::json::lemma_member_lookup_append, crate::json::lemma_member_lookup_opt;

        lemma_assign_number_body_keys();
        reveal_with_fuel(crate::json::member_lookup, 2);
    }
}

/// The field names that `assign_number_body` uses, told apart.
proof fn lemma_assign_number_body_keys()
    ensures
        "agent_id"@.len() == 8,
{
    reveal_strlit("agent_id");
}

/// The body that [`VoiceService::upload_ambiance_bed`] sends.
pub open spec fn upload_ambiance_bed_body(req: UploadAmbianceBedRequest<'_>) -> JsonValue {
    object_of(
        seq![
            text_member("name"@, req.name@),
            text_member("audio_base64"@, base64_standard_encoded(req.audio_bytes@)),
        ] + opt_text_member("time_of_day"@, req.time_of_day)
            + opt_text_member("description"@, req.description),
    )
}

/// What `upload_ambiance_bed_body` builds reads back field by field: each value the
/// arguments give is found under its own name, an optional one only when
/// it is set, and a list as the same items in the same order.
pub proof fn lemma_upload_ambiance_bed_body_reads_back(req: UploadAmbianceBedRequest<'_>)
    ensures
        crate::json::json_str_member(upload_ambiance_bed_body(req), "name"@) == Some(req.name@),
        crate::json::json_str_member(upload_ambiance_bed_body(req), "audio_base64"@) == Some(base64_standard_encoded(req.audio_bytes@)),
        crate::decode::field_opt_str(upload_ambiance_bed_body(req), "time_of_day"@) == Some(crate::json::opt_str(req.time_of_day)),
        crate::decode::field_opt_str(upload_ambiance_bed_body(req), "description"@) == Some(crate::json::opt_str(req.description)),
{
    assert(crate::json::json_str_member(upload_ambiance_bed_body(req), "name"@) == Some(req.name@)) by {
        broadcast use crate::json::lemma_member_lookup_append, crate::json::lemma_member_lookup_opt;

        lemma_upload_ambiance_bed_body_keys();
        reveal_with_fuel(crate::json::member_lookup, 3);
    }
    assert(crate::json::json_str_member(upload_ambiance_bed_body(req), "audio_base64"@) == Some(base64_standard_encoded(req.audio_bytes@))) by {
        broadcast use crate::json::lemma_member_lookup_append, crate::json::lemma_member_lookup_opt;

        lemma_upload_ambiance_bed_body_keys();
        reveal_with_fuel(crate::json::member_lookup, 3);
    }
    assert(crate::decode::field_opt_str(upload_ambiance_bed_body(req), "time_of_day"@) == Some(crate::json::opt_str(req.time_of_day))) by {
        broadcast use crate::json::lemma_member_lookup_append, crate::json::lemma_member_lookup_opt;

        lemma_upload_ambiance_bed_body_keys();
        reveal_with_fuel(crate::json::member_lookup, 3);
    }
    assert(crate::decode::field_opt_str(upload_ambiance_bed_body(req), "description"@) == Some(crate::json::opt_str(req.description))) by {
        broadcast use crate::json::lemma_member_lookup_append, crate::json::lemma_member_lookup_opt;

        lemma_upload_ambiance_bed_body_keys();
        reveal_with_fuel(crate::json::member_lookup, 3);
    }
}

/// The field names that `upload_ambiance_bed_body` uses, told apart.
proof fn lemma_upload_ambiance_bed_body_keys()
    ensures
        "audio_base64"@.len() == 12,
        "description"@.len() == 11,
        "description"@[0] == 'd',
        "name"@.len() == 4,
        "time_of_day"@.len() == 11,
        "time_of_day"@[0] == 't',
{
    reveal_strlit("audio_base64");
    reveal_strlit("description");
    reveal_strlit("name");
    reveal_strlit("time_of_day");
}

/// The body that [`VoiceService::publish_agent_as_template`] sends.
pub open spec fn publish_agent_as_template_body(req: PublishAgentAsTemplateRequest<'_>) -> JsonValue {
    object_of(seq![text_member("scope"@, req.scope@)] + opt_text_member("description"@, req.description))
}

/// What `publish_agent_as_template_body` builds reads back field by field: each value the
/// arguments give is found under its own name, an optional one only when
/// it is set, and a list as the same items in the same order.
pub proof fn lemma_publish_agent_as_template_body_reads_back(req: PublishAgentAsTemplateRequest<'_>)
    ensures
        crate::json::json_str_member(publish_agent_as_template_body(req), "scope"@) == Some(req.scope@),
        crate::decode::field_opt_str(publish_agent_as_template_body(req), "description"@) == Some(crate::json::opt_str(req.description)),
{
    assert(crate::json::json_str_member(publish_agent_as_template_body(req), "scope"@) == Some(req.scope@)) by {
        broadcast use crate::json::lemma_member_lookup_append, crate::json::lemma_member_lookup_opt;

        lemma_publish_agent_as_template_body_keys();
        reveal_with_fuel(crate::json::member_lookup, 2);
    }
    assert(crate::decode::field_opt_str(publish_agent_as_template_body(req), "description"@) == Some(crate::json::opt_str(req.description))) by {
        broadcast use crate::json::lemma_member_lookup_append, crate::json::lemma_member_lookup_opt;

        lemma_publish_agent_as_template_body_keys();
        reveal_with_fuel(crate::json::member_lookup, 2);
    }
}

/// The field names that `publish_agent_as_template_body` uses, told apart.
proof fn lemma_publish_agent_as_template_body_keys()
    ensures
        "description"@.len() == 11,
        "scope"@.len() == 5,
{
    reveal_strlit("description");
    reveal_strlit("scope");
}

/// The body that [`VoiceService::instantiate_agent_template`] sends.
pub open spec fn instantiate_agent_template_body(req: InstantiateAgentTemplateRequest<'_>) -> JsonValue {
    object_of(
        seq![text_member("name"@, req.name@)]
            + opt_text_member("phone_number"@, req.phone_number)
            + opt_text_member("location_id"@, req.location_id),
    )
}

/// What `instantiate_agent_template_body` builds reads back field by field: each value the
/// arguments give is found under its own name, an optional one only when
/// it is set, and a list as the same items in the same order.
pub proof fn lemma_instantiate_agent_template_body_reads_back(req: InstantiateAgentTemplateRequest<'_>)
    ensures
        crate::json::json_str_member(instantiate_agent_template_body(req), "name"@) == Some(req.name@),
        crate::decode::field_opt_str(instantiate_agent_template_body(req), "phone_number"@) == Some(crate::json::opt_str(req.phone_number)),
        crate::decode::field_opt_str(instantiate_agent_template_body(req), "location_id"@) == Some(crate::json::opt_str(req.location_id)),
{
    assert(crate::json::json_str_member(instantiate_agent_template_body(req), "name"@) == Some(req.name@)) by {
        broadcast use crate::json::lemma_member_lookup_append, crate::json::lemma_member_lookup_opt;

        lemma_instantiate_agent_template_body_keys();
        reveal_with_fuel(crate::json::member_lookup, 2);
    }
    assert(crate::decode::field_opt_str(instantiate_agent_template_body(req), "phone_number"@) == Some(crate::json::opt_str(req.phone_number))) by {
        broadcast use crate::json::lemma_member_lookup_append, crate::json::lemma_member_lookup_opt;

        lemma_instantiate_agent_template_body_keys();
        reveal_with_fuel(crate::json::member_lookup, 2);
    }
    assert(crate::decode::field_opt_str(instantiate_agent_template_body(req), "location_id"@) == Some(crate::json::opt_str(req.location_id))) by {
        broadcast use crate::json::lemma_member_lookup_append, crate::json::lemma_member_lookup_opt;

        lemma_instantiate_agent_template_body_keys();
        reveal_with_fuel(crate::json::member_lookup, 2);
    }
}

/// The field names that `instantiate_agent_template_body` uses, told apart.
proof fn lemma_instantiate_agent_template_body_keys()
    ensures
        "location_id"@.len() == 11,
        "name"@.len() == 4,
        "phone_number"@.len() == 12,
{
    reveal_strlit("location_id");
    reveal_strlit("name");
    reveal_strlit("phone_number");
}

/// The body that [`VoiceService::apply_persona_to_agent`] sends.
pub open spec fn apply_persona_to_agent_body(persona_id_or_slug: &str) -> JsonValue {
    object_of(seq![text_member("persona"@, persona_id_or_slug@)])
}

/// What `apply_persona_to_agent_body` builds reads back field by field: each value the
/// arguments give is found under its own name, an optional one only when
/// it is set, and a list as the same items in the same order.
pub proof fn lemma_apply_persona_to_agent_body_reads_back(persona_id_or_slug: &str)
    ensures
        crate::json::json_str_member(apply_persona_to_agent_body(persona_id_or_slug), "persona"@) == Some(persona_id_or_slug@),
{
    assert(crate::json::json_str_member(apply_persona_to_agent_body(persona_id_or_slug), "persona"@) == Some(persona_id_or_slug@)) by {
        broadcast use crate::json::lemma_member_lookup_append, crate::json::lemma_member_lookup_opt;

        lemma_apply_persona_to_agent_body_keys();
        reveal_with_fuel(crate::json::member_lookup, 2);
    }
}

/// The field names that `apply_persona_to_agent_body` uses, told apart.
proof fn lemma_apply_persona_to_agent_body_keys()
    ensures
        "persona"@.len() == 7,
{
    reveal_strlit("persona");
}

/// The body that [`VoiceService::preview_agent_voice`] sends.
pub open spec fn preview_agent_voice_body(req: PreviewAgentVoiceRequest<'_>) -> JsonValue {
    object_of(
        seq![text_member("sample_text"@, req.sample_text@)]
            + opt_text_member("voice_id"@, req.voice_id)
            + opt_json_member("voice_overrides"@, req.voice_overrides),
    )
}

/// What `preview_agent_voice_body` builds reads back field by field: each value the
/// arguments give is found under its own name, an optional one only when
/// it is set, and a list as the same items in the same order.
pub proof fn lemma_preview_agent_voice_body_reads_back(req: PreviewAgentVoiceRequest<'_>)
    ensures
        crate::json::json_str_member(preview_agent_voice_body(req), "sample_text"@) == Some(req.sample_text@),
        crate::decode::field_opt_str(preview_agent_voice_body(req), "voice_id"@) == Some(crate::json::opt_str(req.voice_id)),
        crate::json::json_get(preview_agent_voice_body(req), "voice_overrides"@) == crate::json::opt_json_view(req.voice_overrides),
{
    assert(crate::json::json_str_member(preview_agent_voice_body(req), "sample_text"@) == Some(req.sample_text@)) by {
        broadcast use crate::json::lemma_member_lookup_append, crate::json::lemma_member_lookup_opt;

        lemma_preview_agent_voice_body_keys();
        reveal_with_fuel(crate::json::member_lookup, 2);
    }
    assert(crate::decode::field_opt_str(preview_agent_voice_body(req), "voice_id"@) == Some(crate::json::opt_str(req.voice_id))) by {
        broadcast use crate::json::lemma_member_lookup_append, crate::json::lemma_member_lookup_opt;

        lemma_preview_agent_voice_body_keys();
        reveal_with_fuel(crate::json::member_lookup, 2);
    }
    assert(crate::json::json_get(preview_agent_voice_body(req), "voice_overrides"@) == crate::json::opt_json_view(req.voice_overrides)) by {
        broadcast use crate::json::lemma_member_lookup_append, crate::json::lemma_member_lookup_opt;

        lemma_preview_agent_voice_body_keys();
        reveal_with_fuel(crate::json::member_lookup, 2);
    }
}

/// The field names that `preview_agent_voice_body` uses, told apart.
proof fn lemma_preview_agent_voice_body_keys()
    ensures
        "sample_text"@.len() == 11,
        "voice_id"@.len() == 8,
        "voice_overrides"@.len() == 15,
{
    reveal_strlit("sample_text");
    reveal_strlit("voice_id");
    reveal_strlit("voice_overrides");
}

/// The body that [`VoiceService::provision_agent`] sends.
pub open spec fn provision_agent_body(req: ProvisionAgentRequest<'_>) -> JsonValue {
    object_of(seq![
        text_member("tenant_id"@, req.tenant_id@),
        text_member("voice_name"@, req.voice_name@),
        ("profile"@, req.profile@),
        text_member("greeting_text"@, req.greeting_text@),
    ])
}

/// What `provision_agent_body` builds reads back field by field: each value the
/// arguments give is found under its own name, an optional one only when
/// it is set, and a list as the same items in the same order.
pub proof fn lemma_provision_agent_body_reads_back(req: ProvisionAgentRequest<'_>)
    ensures
        crate::json::json_str_member(provision_agent_body(req), "tenant_id"@) == Some(req.tenant_id@),
        crate::json::json_str_member(provision_agent_body(req), "voice_name"@) == Some(req.voice_name@),
        crate::json::json_str_member(provision_agent_body(req), "greeting_text"@) == Some(req.greeting_text@),
        crate::json::json_get(provision_agent_body(req), "profile"@) == Some(req.profile@),
{
    assert(crate::json::json_str_member(provision_agent_body(req), "tenant_id"@) == Some(req.tenant_id@)) by {
        broadcast use crate::json::lemma_member_lookup_append, crate::json::lemma_member_lookup_opt;

        lemma_provision_agent_body_keys();
        reveal_with_fuel(crate::json::member_lookup, 5);
    }
    assert(crate::json::json_str_member(provision_agent_body(req), "voice_name"@) == Some(req.voice_name@)) by {
        broadcast use crate::json::lemma_member_lookup_append, crate::json::lemma_member_lookup_opt;

        lemma_provision_agent_body_keys();
        reveal_with_fuel(crate::json::member_lookup, 5);
    }
    assert(crate::json::json_str_member(provision_agent_body(req), "greeting_text"@) == Some(req.greeting_text@)) by {
        broadcast use crate::json::lemma_member_lookup_append, crate::json::lemma_member_lookup_opt;

        lemma_provision_agent_body_keys();
        reveal_with_fuel(crate::json::member_lookup, 5);
    }
    assert(crate::json::json_get(provision_agent_body(req), "profile"@) == Some(req.profile@)) by {
        broadcast use crate::json::lemma_member_lookup_append, crate::json::lemma_member_lookup_opt;

        lemma_provision_agent_body_keys();
        reveal_with_fuel(crate::json::member_lookup, 5);
    }
}

/// The field names that `provision_agent_body` uses, told apart.
proof fn lemma_provision_agent_body_keys()
    ensures
        "greeting_text"@.len() == 13,
        "profile"@.len() == 7,
        "tenant_id"@.len() == 9,
        "voice_name"@.len() == 10,
{
    reveal_strlit("greeting_text");
    reveal_strlit("profile");
    reveal_strlit("tenant_id");
    reveal_strlit("voice_name");
}

impl VoiceService {
    // -- Agents ---------------------------------------------------------------

    /// List all voice agent configurations.
    pub fn list_configs(&self, opts: PageOptions<'_>) -> (r: ApiRequest)
        ensures
            r@ == get_request("/voice-agents/configs"@, page_query(opts)),
    {
        let mut q = page_limit(opts.page, opts.limit);
        q.push_opt("tenant_id", opts.tenant_id);
        ApiRequest::get("/voice-agents/configs".to_owned(), q)
    }

    /// Get a single voice agent configuration.
    pub fn get_config(&self, config_id: &str) -> (r: ApiRequest)
        ensures
            r@ == get_request("/voice-agents/configs/"@ + url_encoded(config_id@), seq![]),
    {
        ApiRequest::get_plain(path_end("/voice-agents/configs/", config_id))
    }

    /// Create a new voice agent configuration from a raw body.
    pub fn create_config(&self, config: Json) -> (r: ApiRequest)
        ensures
            r@ == json_request(HttpMethod::Post, "/voice-agents/configs"@, config@),
    {
        ApiRequest::post("/voice-agents/configs".to_owned(), config)
    }

    /// Update an existing voice agent configuration.
    pub fn update_config(&self, config_id: &str, config: Json) -> (r: ApiRequest)
        ensures
            r@ == json_request(HttpMethod::Put, "/voice-agents/configs/"@ + url_encoded(config_id@), config@),
    {
        ApiRequest::put(path_end("/voice-agents/configs/", config_id), config)
    }

    /// Delete a voice agent configuration.
    pub fn delete_config(&self, config_id: &str) -> (r: ApiRequest)
        ensures
            r@ == delete_request("/voice-agents/configs/"@ + url_encoded(config_id@)),
    {
        ApiRequest::delete(path_end("/voice-agents/configs/", config_id))
    }

    /// The effective configuration after the platform → app → tenant →
    /// agent cascade. The identifier is placed in the path as given.
    pub fn get_effective_config(&self, agent_id: &str) -> (r: ApiRequest)
        ensures
            r@ == get_request("/voice-agents/configs/"@ + agent_id@ + "/effective-config"@, seq![]),
    {
        ApiRequest::get_plain(path_raw("/voice-agents/configs/", agent_id, "/effective-config"))
    }

    /// The pipeline view of an agent's configuration. The identifier is
    /// placed in the path as given.
    pub fn get_pipeline(&self, agent_id: &str) -> (r: ApiRequest)
        ensures
            r@ == get_request("/voice-agents/configs/"@ + agent_id@ + "/pipeline"@, seq![]),
    {
        ApiRequest::get_plain(path_raw("/voice-agents/configs/", agent_id, "/pipeline"))
    }

    // -- Voice pool and schedule --------------------------------------------------

    /// Get the voice pool (persona rotation) for an agent.
    pub fn get_pool(&self, agent_id: &str) -> (r: ApiRequest)
        ensures
            r@ == get_request("/voice-agents/"@ + url_encoded(agent_id@) + "/pool"@, seq![]),
    {
        ApiRequest::get_plain(path_with("/voice-agents/", agent_id, "/pool"))
    }

    /// Add a persona to an agent's voice pool.
    pub fn add_to_pool(&self, agent_id: &str, entry: Json) -> (r: ApiRequest)
        ensures
            r@ == json_request(HttpMethod::Post, "/voice-agents/"@ + url_encoded(agent_id@) + "/pool"@, entry@),
    {
        ApiRequest::post(path_with("/voice-agents/", agent_id, "/pool"), entry)
    }

    /// Remove a persona from an agent's voice pool.
    pub fn remove_from_pool(&self, agent_id: &str, entry_id: &str) -> (r: ApiRequest)
        ensures
            r@ == delete_request("/voice-agents/"@ + url_encoded(agent_id@) + "/pool/"@ + url_encoded(entry_id@)),
    {
        ApiRequest::delete(path_end2("/voice-agents/", agent_id, "/pool/", entry_id))
    }

    /// Get the operating schedule for an agent.
    pub fn get_schedule(&self, agent_id: &str) -> (r: ApiRequest)
        ensures
            r@ == get_request("/voice-agents/"@ + url_encoded(agent_id@) + "/schedule"@, seq![]),
    {
        ApiRequest::get_plain(path_with("/voice-agents/", agent_id, "/schedule"))
    }

    /// Update the operating schedule for an agent.
    pub fn update_schedule(&self, agent_id: &str, request: Json) -> (r: ApiRequest)
        ensures
            r@ == json_request(HttpMethod::Put, "/voice-agents/"@ + url_encoded(agent_id@) + "/schedule"@, request@),
    {
        ApiRequest::put(path_with("/voice-agents/", agent_id, "/schedule"), request)
    }

    // -- Provisioning wizard ------------------------------------------------------

    /// Start the provisioning wizard for a new agent.
    pub fn provision_agent(&self, req: ProvisionAgentRequest<'_>) -> (r: ApiRequest)
        ensures
            r@ == json_request(
                HttpMethod::Post,
                "/ether/voice/agents/"@ + url_encoded(req.agent_id@) + "/provision-wizard"@,
                provision_agent_body(req),
            ),
    {
        let path = path_with("/ether/voice/agents/", req.agent_id, "/provision-wizard");
        let ghost profile = req.profile@;
        let mut m = Members::new();
        m.put_str("tenant_id", req.tenant_id);
        m.put_str("voice_name", req.voice_name);
        m.put("profile", req.profile);
        m.put_str("greeting_text", req.greeting_text);
        assert(m@ =~= seq![
            text_member("tenant_id"@, req.tenant_id@),
            text_member("voice_name"@, req.voice_name@),
            ("profile"@, profile),
            text_member("greeting_text"@, req.greeting_text@),
        ]);
        ApiRequest::post(path, m.into_json())
    }

    /// Get the current status of a provisioning job.
    pub fn get_provisioning_status(&self, agent_id: &str, job_id: &str) -> (r: ApiRequest)
        ensures
            r@ == get_request(
                "/ether/voice/agents/"@ + url_encoded(agent_id@) + "/provisioning-status"@,
                seq![("job_id"@, job_id@)],
            ),
    {
        ApiRequest::get_with(path_with("/ether/voice/agents/", agent_id, "/provisioning-status"), "job_id", job_id)
    }

    // -- Self-service agent CRUD --------------------------------------------------

    /// List all voice agents for the current tenant (the same call as
    /// [`VoiceService::list_configs`]).
    pub fn list_agents(&self, opts: PageOptions<'_>) -> (r: ApiRequest)
        ensures
            r@ == get_request("/voice-agents/configs"@, page_query(opts)),
    {
        self.list_configs(opts)
    }

    /// Get a single agent by ID (the same call as
    /// [`VoiceService::get_config`]).
    pub fn get_agent(&self, agent_id: &str) -> (r: ApiRequest)
        ensures
            r@ == get_request("/voice-agents/configs/"@ + url_encoded(agent_id@), seq![]),
    {
        self.get_config(agent_id)
    }

    /// Create a new voice agent: every given field, and no other, goes
    /// into the body.
    pub fn create_agent(&self, req: CreateAgentRequest<'_>) -> (r: ApiRequest)
        ensures
            r@ == json_request(HttpMethod::Post, "/voice-agents/configs"@, create_agent_body(req)),
    {
        let ghost spec_req = req;
        let mut body = Members::new();
        body.put_opt_str("from_template_id", req.from_template_id);
        body.put_opt_str("name", req.name);
        body.put_opt_str("voice_id", req.voice_id);
        body.put_opt_str("persona", req.persona);
        body.put_opt_str("greeting", req.greeting);
        body.put_opt_str("phone_number", req.phone_number);
        body.put_opt_str("location_id", req.location_id);
        body.put_opt("ambiance_config", req.ambiance_config);
        body.put_opt("voice_overrides", req.voice_overrides);
        body.put_opt("business_hours", req.business_hours);
        body.put_opt("escalation_rules", req.escalation_rules);
        assert(body@ =~= create_agent_body(spec_req)->Object_0);
        ApiRequest::post("/voice-agents/configs".to_owned(), body.into_json())
    }

    /// Update the given fields of an existing agent.
    pub fn update_agent(&self, agent_id: &str, req: UpdateAgentRequest<'_>) -> (r: ApiRequest)
        ensures
            r@ == json_request(HttpMethod::Put, "/voice-agents/configs/"@ + url_encoded(agent_id@), update_agent_body(req)),
    {
        let ghost spec_req = req;
        let mut body = Members::new();
        body.put_opt_str("name", req.name);
        body.put_opt_str("voice_id", req.voice_id);
        body.put_opt_str("persona", req.persona);
        body.put_opt_str("greeting", req.greeting);
        body.put_opt("ambiance_config", req.ambiance_config);
        body.put_opt("voice_overrides", req.voice_overrides);
        body.put_opt("business_hours", req.business_hours);
        body.put_opt("escalation_rules", req.escalation_rules);
        body.put_opt_bool("is_active", req.is_active);
        assert(body@ =~= update_agent_body(spec_req)->Object_0);
        ApiRequest::put(path_end("/voice-agents/configs/", agent_id), body.into_json())
    }

    /// Delete a voice agent (the same call as
    /// [`VoiceService::delete_config`]).
    pub fn delete_agent(&self, agent_id: &str) -> (r: ApiRequest)
        ensures
            r@ == delete_request("/voice-agents/configs/"@ + url_encoded(agent_id@)),
    {
        self.delete_config(agent_id)
    }

    /// Clone an existing agent.
    pub fn clone_agent(&self, agent_id: &str, req: CloneAgentRequest<'_>) -> (r: ApiRequest)
        ensures
            r@ == json_request(
                HttpMethod::Post,
                "/voice-agents/configs/"@ + url_encoded(agent_id@) + "/clone"@,
                object_of(
                    opt_text_member("new_name"@, req.new_name)
                        + opt_text_member("phone_number"@, req.phone_number)
                        + opt_text_member("location_id"@, req.location_id),
                ),
            ),
    {
        let mut body = Members::new();
        body.put_opt_str("new_name", req.new_name);
        body.put_opt_str("phone_number", req.phone_number);
        body.put_opt_str("location_id", req.location_id);
        assert(body@ =~= opt_text_member("new_name"@, req.new_name)
            + opt_text_member("phone_number"@, req.phone_number)
            + opt_text_member("location_id"@, req.location_id));
        ApiRequest::post(path_with("/voice-agents/configs/", agent_id, "/clone"), body.into_json())
    }

    /// Generate a TTS preview clip for an agent.
    pub fn preview_agent_voice(&self, agent_id: &str, req: PreviewAgentVoiceRequest<'_>) -> (r: ApiRequest)
        ensures
            r@ == json_request(
                HttpMethod::Post,
                "/voice-agents/configs/"@ + url_encoded(agent_id@) + "/preview"@,
                preview_agent_voice_body(req),
            ),
    {
        let ghost spec_req = req;
        let mut body = Members::new();
        body.put_str("sample_text", req.sample_text);
        body.put_opt_str("voice_id", req.voice_id);
        body.put_opt("voice_overrides", req.voice_overrides);
        assert(body@ =~= seq![text_member("sample_text"@, spec_req.sample_text@)]
            + opt_text_member("voice_id"@, spec_req.voice_id)
            + opt_json_member("voice_overrides"@, spec_req.voice_overrides));
        ApiRequest::post(path_with("/voice-agents/configs/", agent_id, "/preview"), body.into_json())
    }

    /// List the catalog of available Gemini Live voices.
    pub fn list_gemini_voices(&self, opts: ListGeminiVoicesOptions<'_>) -> (r: ApiRequest)
        ensures
            r@ == get_request("/voice/voices"@, opt_pair("language"@, opt_str(opts.language))),
    {
        let mut q = Query::new();
        q.push_opt("language", opts.language);
        assert(q@ =~= opt_pair("language"@, opt_str(opts.language)));
        ApiRequest::get("/voice/voices".to_owned(), q)
    }

    // -- Persona library ----------------------------------------------------------

    /// List curated voice personas.
    pub fn list_personas(&self, opts: ListPersonasOptions<'_>) -> (r: ApiRequest)
        ensures
            r@ == get_request(
                "/voice/personas"@,
                opt_pair("category"@, opt_str(opts.category))
                    + opt_pair("industry"@, opt_str(opts.industry))
                    + opt_pair("premium_only"@, opt_bool_text(opts.premium_only)),
            ),
    {
        let mut q = Query::new();
        q.push_opt("category", opts.category);
        q.push_opt("industry", opts.industry);
        q.push_opt_bool("premium_only", opts.premium_only);
        assert(q@ =~= opt_pair("category"@, opt_str(opts.category))
            + opt_pair("industry"@, opt_str(opts.industry))
            + opt_pair("premium_only"@, opt_bool_text(opts.premium_only)));
        ApiRequest::get("/voice/personas".to_owned(), q)
    }

    /// Get a single persona by ID or slug.
    pub fn get_persona(&self, id_or_slug: &str) -> (r: ApiRequest)
        ensures
            r@ == get_request("/voice/personas/"@ + url_encoded(id_or_slug@), seq![]),
    {
        ApiRequest::get_plain(path_end("/voice/personas/", id_or_slug))
    }

    /// Apply a persona to an existing agent.
    pub fn apply_persona_to_agent(&self, agent_id: &str, persona_id_or_slug: &str) -> (r: ApiRequest)
        ensures
            r@ == json_request(
                HttpMethod::Post,
                "/voice-agents/configs/"@ + url_encoded(agent_id@) + "/apply-persona"@,
                apply_persona_to_agent_body(persona_id_or_slug),
            ),
    {
        let mut body = Members::new();
        body.put_str("persona", persona_id_or_slug);
        assert(body@ =~= seq![text_member("persona"@, persona_id_or_slug@)]);
        ApiRequest::post(path_with("/voice-agents/configs/", agent_id, "/apply-persona"), body.into_json())
    }

    // -- Agent templates ----------------------------------------------------------

    /// List voice agent templates, of one scope when given.
    pub fn list_agent_templates(&self, scope: Option<&str>) -> (r: ApiRequest)
        ensures
            r@ == get_request("/voice-agents/templates"@, opt_pair("scope"@, opt_str(scope))),
    {
        let mut q = Query::new();
        q.push_opt("scope", scope);
        assert(q@ =~= opt_pair("scope"@, opt_str(scope)));
        ApiRequest::get("/voice-agents/templates".to_owned(), q)
    }

    /// Instantiate a new agent from an existing template.
    pub fn instantiate_agent_template(&self, template_id: &str, req: InstantiateAgentTemplateRequest<'_>) -> (r: ApiRequest)
        ensures
            r@ == json_request(
                HttpMethod::Post,
                "/voice-agents/templates/"@ + url_encoded(template_id@) + "/instantiate"@,
                instantiate_agent_template_body(req),
            ),
    {
        let mut body = Members::new();
        body.put_str("name", req.name);
        body.put_opt_str("phone_number", req.phone_number);
        body.put_opt_str("location_id", req.location_id);
        assert(body@ =~= seq![text_member("name"@, req.name@)]
            + opt_text_member("phone_number"@, req.phone_number)
            + opt_text_member("location_id"@, req.location_id));
        ApiRequest::post(path_with("/voice-agents/templates/", template_id, "/instantiate"), body.into_json())
    }

    /// Publish the current agent as a template.
    pub fn publish_agent_as_template(&self, agent_id: &str, req: PublishAgentAsTemplateRequest<'_>) -> (r: ApiRequest)
        ensures
            r@ == json_request(
                HttpMethod::Post,
                "/voice-agents/configs/"@ + url_encoded(agent_id@) + "/publish-template"@,
                publish_agent_as_template_body(req),
            ),
    {
        let mut body = Members::new();
        body.put_str("scope", req.scope);
        body.put_opt_str("description", req.description);
        assert(body@ =~= seq![text_member("scope"@, req.scope@)] + opt_text_member("description"@, req.description));
        ApiRequest::post(path_with("/voice-agents/configs/", agent_id, "/publish-template"), body.into_json())
    }

    /// List available agent templates.
    pub fn list_templates(&self) -> (r: ApiRequest)
        ensures
            r@ == get_request("/voice-agents/templates"@, seq![]),
    {
        ApiRequest::get_plain("/voice-agents/templates".to_owned())
    }

    // -- Background ambiance ------------------------------------------------------

    /// List the curated library of ambient beds, of one category when
    /// given.
    pub fn list_ambiance_library(&self, category: Option<&str>) -> (r: ApiRequest)
        ensures
            r@ == get_request("/voice/ambiance/library"@, opt_pair("category"@, opt_str(category))),
    {
        let mut q = Query::new();
        q.push_opt("category", category);
        assert(q@ =~= opt_pair("category"@, opt_str(category)));
        ApiRequest::get("/voice/ambiance/library".to_owned(), q)
    }

    /// Upload a custom ambient bed; the audio travels base64-encoded.
    pub fn upload_ambiance_bed(&self, req: UploadAmbianceBedRequest<'_>) -> (r: ApiRequest)
        ensures
            r@ == json_request(
                HttpMethod::Post,
                "/voice/ambiance/upload"@,
                upload_ambiance_bed_body(req),
            ),
    {
        let audio = base64_standard_encode(req.audio_bytes);
        let mut body = Members::new();
        body.put_str("name", req.name);
        body.put_str("audio_base64", audio.as_str());
        body.put_opt_str("time_of_day", req.time_of_day);
        body.put_opt_str("description", req.description);
        assert(body@ =~= seq![
            text_member("name"@, req.name@),
            text_member("audio_base64"@, base64_standard_encoded(req.audio_bytes@)),
        ] + opt_text_member("time_of_day"@, req.time_of_day) + opt_text_member("description"@, req.description));
        ApiRequest::post("/voice/ambiance/upload".to_owned(), body.into_json())
    }

    /// Update the given fields of an agent's ambiance configuration.
    pub fn update_agent_ambiance(&self, agent_id: &str, req: UpdateAgentAmbianceRequest<'_>) -> (r: ApiRequest)
        ensures
            r@ == json_request(HttpMethod::Patch, "/voice-agents/configs/"@ + url_encoded(agent_id@) + "/ambiance"@, ambiance_body(req)),
    {
        let ghost spec_req = req;
        let mut body = Members::new();
        body.put_opt_bool("enabled", req.enabled);
        body.put_opt("intensity", req.intensity);
        body.put_opt_str("default_r2_key", req.default_r2_key);
        match req.time_of_day_variants {
            Some(v) => {
                body.put("time_of_day_variants", v.into_json());
            },
            None => {},
        }
        assert(body@ =~= ambiance_body(spec_req)->Object_0);
        ApiRequest::patch(path_with("/voice-agents/configs/", agent_id, "/ambiance"), body.into_json())
    }

    /// Update the given voice tuning overrides of an agent.
    pub fn update_agent_voice_overrides(&self, agent_id: &str, req: UpdateAgentVoiceOverridesRequest<'_>) -> (r: ApiRequest)
        ensures
            r@ == json_request(
                HttpMethod::Patch,
                "/voice-agents/configs/"@ + url_encoded(agent_id@) + "/voice-overrides"@,
                voice_overrides_body(req),
            ),
    {
        let ghost spec_req = req;
        let mut body = Members::new();
        body.put_opt("pitch", req.pitch);
        body.put_opt("speed", req.speed);
        body.put_opt("warmth", req.warmth);
        body.put_opt_str("regional_dialect", req.regional_dialect);
        assert(body@ =~= voice_overrides_body(spec_req)->Object_0);
        ApiRequest::patch(path_with("/voice-agents/configs/", agent_id, "/voice-overrides"), body.into_json())
    }

    // -- Workflow templates -------------------------------------------------------

    /// List the workflow templates of the current tenant.
    pub fn list_workflow_templates(&self, opts: PageOptions<'_>) -> (r: ApiRequest)
        ensures
            r@ == get_request("/voice/workflow-templates"@, page_limit_query(opts.page, opts.limit)),
    {
        ApiRequest::get("/voice/workflow-templates".to_owned(), page_limit(opts.page, opts.limit))
    }

    /// Create a new workflow template.
    pub fn create_workflow_template(&self, request: Json) -> (r: ApiRequest)
        ensures
            r@ == json_request(HttpMethod::Post, "/voice/workflow-templates"@, request@),
    {
        ApiRequest::post("/voice/workflow-templates".to_owned(), request)
    }

    /// Get a single workflow template by ID.
    pub fn get_workflow_template(&self, id: &str) -> (r: ApiRequest)
        ensures
            r@ == get_request("/voice/workflow-templates/"@ + url_encoded(id@), seq![]),
    {
        ApiRequest::get_plain(path_end("/voice/workflow-templates/", id))
    }

    /// Delete a workflow template.
    pub fn delete_workflow_template(&self, id: &str) -> (r: ApiRequest)
        ensures
            r@ == delete_request("/voice/workflow-templates/"@ + url_encoded(id@)),
    {
        ApiRequest::delete(path_end("/voice/workflow-templates/", id))
    }

    /// Instantiate a workflow from a template.
    pub fn create_workflow_instance(&self, template_id: &str, params: Json) -> (r: ApiRequest)
        ensures
            r@ == json_request(
                HttpMethod::Post,
                "/voice/workflow-templates/"@ + url_encoded(template_id@) + "/instances"@,
                params@,
            ),
    {
        ApiRequest::post(path_with("/voice/workflow-templates/", template_id, "/instances"), params)
    }

    // -- Voicemail ----------------------------------------------------------------

    /// List voicemails for the tenant.
    pub fn list_voicemails(&self, opts: ListVoicemailsOptions<'_>) -> (r: ApiRequest)
        ensures
            r@ == get_request(
                "/voice/voicemails"@,
                opt_pair("caller_phone"@, opt_str(opts.caller_phone)) + page_limit_query(opts.page, opts.limit),
            ),
    {
        let mut q = Query::new();
        q.push_opt("caller_phone", opts.caller_phone);
        q.push_opt_u32("page", opts.page);
        q.push_opt_u32("limit", opts.limit);
        assert(q@ =~= opt_pair("caller_phone"@, opt_str(opts.caller_phone)) + page_limit_query(opts.page, opts.limit));
        ApiRequest::get("/voice/voicemails".to_owned(), q)
    }

    /// Update a voicemail (mark as read, resolve, etc.).
    pub fn update_voicemail(&self, id: &str, data: Json) -> (r: ApiRequest)
        ensures
            r@ == json_request(HttpMethod::Patch, "/voice/voicemails/"@ + url_encoded(id@), data@),
    {
        ApiRequest::patch(path_end("/voice/voicemails/", id), data)
    }

    /// Get a signed URL for a voicemail audio recording.
    pub fn get_voicemail_audio_url(&self, id: &str) -> (r: ApiRequest)
        ensures
            r@ == get_request("/voice/voicemails/"@ + url_encoded(id@) + "/audio"@, seq![]),
    {
        ApiRequest::get_plain(path_with("/voice/voicemails/", id, "/audio"))
    }

    // -- Conversations and department messages --------------------------------------

    /// List voice conversations with optional filters.
    pub fn list_conversations(&self, opts: ListConversationsOptions<'_>) -> (r: ApiRequest)
        ensures
            r@ == get_request(
                "/voice-agents/conversations"@,
                opt_pair("agent_id"@, opt_str(opts.agent_id))
                    + opt_pair("status"@, opt_str(opts.status))
                    + page_limit_query(opts.page, opts.limit)
                    + opt_pair("tenant_id"@, opt_str(opts.tenant_id)),
            ),
    {
        let mut q = Query::new();
        q.push_opt("agent_id", opts.agent_id);
        q.push_opt("status", opts.status);
        q.push_opt_u32("page", opts.page);
        q.push_opt_u32("limit", opts.limit);
        q.push_opt("tenant_id", opts.tenant_id);
        assert(q@ =~= opt_pair("agent_id"@, opt_str(opts.agent_id))
            + opt_pair("status"@, opt_str(opts.status))
            + page_limit_query(opts.page, opts.limit)
            + opt_pair("tenant_id"@, opt_str(opts.tenant_id)));
        ApiRequest::get("/voice-agents/conversations".to_owned(), q)
    }

    /// Get a single conversation with its transcript and metadata.
    pub fn get_conversation(&self, conversation_id: &str) -> (r: ApiRequest)
        ensures
            r@ == get_request("/voice-agents/conversations/"@ + url_encoded(conversation_id@), seq![]),
    {
        ApiRequest::get_plain(path_end("/voice-agents/conversations/", conversation_id))
    }

    /// List department messages.
    pub fn list_messages(&self, opts: ListVoiceMessagesOptions<'_>) -> (r: ApiRequest)
        ensures
            r@ == get_request(
                "/voice/messages"@,
                opt_pair("department"@, opt_str(opts.department)) + page_limit_query(opts.page, opts.limit),
            ),
    {
        let mut q = Query::new();
        q.push_opt("department", opts.department);
        q.push_opt_u32("page", opts.page);
        q.push_opt_u32("limit", opts.limit);
        assert(q@ =~= opt_pair("department"@, opt_str(opts.department)) + page_limit_query(opts.page, opts.limit));
        ApiRequest::get("/voice/messages".to_owned(), q)
    }

    // -- Analytics ------------------------------------------------------------------

    /// Get voice analytics (call volume, duration, sentiment, etc.).
    pub fn get_analytics(&self, opts: GetAnalyticsOptions<'_>) -> (r: ApiRequest)
        ensures
            r@ == get_request(
                "/voice-agents/analytics"@,
                opt_pair("agent_id"@, opt_str(opts.agent_id))
                    + opt_pair("from"@, opt_str(opts.from))
                    + opt_pair("to"@, opt_str(opts.to)),
            ),
    {
        let mut q = Query::new();
        q.push_opt("agent_id", opts.agent_id);
        q.push_opt("from", opts.from);
        q.push_opt("to", opts.to);
        assert(q@ =~= opt_pair("agent_id"@, opt_str(opts.agent_id))
            + opt_pair("from"@, opt_str(opts.from))
            + opt_pair("to"@, opt_str(opts.to)));
        ApiRequest::get("/voice-agents/analytics".to_owned(), q)
    }

    // -- Campaigns ------------------------------------------------------------------

    /// List outbound voice campaigns.
    pub fn list_campaigns(&self, opts: PageOptions<'_>) -> (r: ApiRequest)
        ensures
            r@ == get_request("/voice-agents/campaigns"@, page_limit_query(opts.page, opts.limit)),
    {
        ApiRequest::get("/voice-agents/campaigns".to_owned(), page_limit(opts.page, opts.limit))
    }

    /// Get a single campaign by ID.
    pub fn get_campaign(&self, campaign_id: &str) -> (r: ApiRequest)
        ensures
            r@ == get_request("/voice-agents/campaigns/"@ + url_encoded(campaign_id@), seq![]),
    {
        ApiRequest::get_plain(path_end("/voice-agents/campaigns/", campaign_id))
    }

    /// Create a new outbound campaign.
    pub fn create_campaign(&self, campaign: Json) -> (r: ApiRequest)
        ensures
            r@ == json_request(HttpMethod::Post, "/voice-agents/campaigns"@, campaign@),
    {
        ApiRequest::post("/voice-agents/campaigns".to_owned(), campaign)
    }

    /// Update an existing campaign.
    pub fn update_campaign(&self, campaign_id: &str, campaign: Json) -> (r: ApiRequest)
        ensures
            r@ == json_request(HttpMethod::Put, "/voice-agents/campaigns/"@ + url_encoded(campaign_id@), campaign@),
    {
        ApiRequest::put(path_end("/voice-agents/campaigns/", campaign_id), campaign)
    }

    /// Delete a campaign.
    pub fn delete_campaign(&self, campaign_id: &str) -> (r: ApiRequest)
        ensures
            r@ == delete_request("/voice-agents/campaigns/"@ + url_encoded(campaign_id@)),
    {
        ApiRequest::delete(path_end("/voice-agents/campaigns/", campaign_id))
    }

    // -- Phone numbers --------------------------------------------------------------

    /// List provisioned phone numbers.
    pub fn list_numbers(&self, opts: PageOptions<'_>) -> (r: ApiRequest)
        ensures
            r@ == get_request("/voice/phone-numbers"@, page_limit_query(opts.page, opts.limit)),
    {
        ApiRequest::get("/voice/phone-numbers".to_owned(), page_limit(opts.page, opts.limit))
    }

    /// Get details for a single phone number.
    pub fn get_number(&self, number_id: &str) -> (r: ApiRequest)
        ensures
            r@ == get_request("/voice/phone-numbers/"@ + url_encoded(number_id@), seq![]),
    {
        ApiRequest::get_plain(path_end("/voice/phone-numbers/", number_id))
    }

    /// Provision a new phone number.
    pub fn provision_number(&self, request: Json) -> (r: ApiRequest)
        ensures
            r@ == json_request(HttpMethod::Post, "/voice/phone-numbers/provision"@, request@),
    {
        ApiRequest::post("/voice/phone-numbers/provision".to_owned(), request)
    }

    /// Release a provisioned phone number.
    pub fn release_number(&self, number_id: &str) -> (r: ApiRequest)
        ensures
            r@ == delete_request("/voice/phone-numbers/"@ + url_encoded(number_id@)),
    {
        ApiRequest::delete(path_end("/voice/phone-numbers/", number_id))
    }

    /// Assign a phone number to a voice agent.
    pub fn assign_number(&self, number_id: &str, agent_id: &str) -> (r: ApiRequest)
        ensures
            r@ == json_request(
                HttpMethod::Post,
                "/voice/phone-numbers/"@ + url_encoded(number_id@) + "/assign"@,
                assign_number_body(agent_id),
            ),
    {
        let mut body = Members::new();
        body.put_str("agent_id", agent_id);
        assert(body@ =~= seq![text_member("agent_id"@, agent_id@)]);
        ApiRequest::post(path_with("/voice/phone-numbers/", number_id, "/assign"), body.into_json())
    }

    /// Search available phone numbers by area code or pattern.
    pub fn search_numbers(&self, opts: SearchNumbersOptions<'_>) -> (r: ApiRequest)
        ensures
            r@ == get_request(
                "/voice/phone-numbers/search"@,
                opt_pair("area_code"@, opt_str(opts.area_code))
                    + opt_pair("contains"@, opt_str(opts.contains))
                    + opt_pair("country"@, opt_str(opts.country))
                    + opt_pair("limit"@, opt_decimal32(opts.limit)),
            ),
    {
        let mut q = Query::new();
        q.push_opt("area_code", opts.area_code);
        q.push_opt("contains", opts.contains);
        q.push_opt("country", opts.country);
        q.push_opt_u32("limit", opts.limit);
        assert(q@ =~= opt_pair("area_code"@, opt_str(opts.area_code))
            + opt_pair("contains"@, opt_str(opts.contains))
            + opt_pair("country"@, opt_str(opts.country))
            + opt_pair("limit"@, opt_decimal32(opts.limit)));
        ApiRequest::get("/voice/phone-numbers/search".to_owned(), q)
    }

    /// Initiate a number port-in request.
    pub fn port_number(&self, port_request: Json) -> (r: ApiRequest)
        ensures
            r@ == json_request(HttpMethod::Post, "/voice/phone-numbers/port"@, port_request@),
    {
        ApiRequest::post("/voice/phone-numbers/port".to_owned(), port_request)
    }

    /// Get the status of a port-in request.
    pub fn get_port_status(&self, port_id: &str) -> (r: ApiRequest)
        ensures
            r@ == get_request("/voice/phone-numbers/port/"@ + url_encoded(port_id@), seq![]),
    {
        ApiRequest::get_plain(path_end("/voice/phone-numbers/port/", port_id))
    }

    /// Cancel a pending port-in request.
    pub fn cancel_port(&self, port_id: &str) -> (r: ApiRequest)
        ensures
            r@ == delete_request("/voice/phone-numbers/port/"@ + url_encoded(port_id@)),
    {
        ApiRequest::delete(path_end("/voice/phone-numbers/port/", port_id))
    }

    // -- Marketplace ----------------------------------------------------------------

    /// List available voices in the marketplace.
    pub fn list_voices(&self, opts: ListVoicesOptions<'_>) -> (r: ApiRequest)
        ensures
            r@ == get_request(
                "/voice/marketplace/voices"@,
                opt_pair("language"@, opt_str(opts.language))
                    + opt_pair("gender"@, opt_str(opts.gender))
                    + opt_pair("limit"@, opt_decimal32(opts.limit)),
            ),
    {
        let mut q = Query::new();
        q.push_opt("language", opts.language);
        q.push_opt("gender", opts.gender);
        q.push_opt_u32("limit", opts.limit);
        assert(q@ =~= opt_pair("language"@, opt_str(opts.language))
            + opt_pair("gender"@, opt_str(opts.gender))
            + opt_pair("limit"@, opt_decimal32(opts.limit)));
        ApiRequest::get("/voice/marketplace/voices".to_owned(), q)
    }

    /// Get voices installed for the current tenant.
    pub fn get_my_voices(&self) -> (r: ApiRequest)
        ensures
            r@ == get_request("/voice/marketplace/my-voices"@, seq![]),
    {
        ApiRequest::get_plain("/voice/marketplace/my-voices".to_owned())
    }

    /// List voice packs (bundles of voices).
    pub fn list_packs(&self, limit: Option<u32>) -> (r: ApiRequest)
        ensures
            r@ == get_request("/voice/marketplace/packs"@, opt_pair("limit"@, opt_decimal32(limit))),
    {
        let mut q = Query::new();
        q.push_opt_u32("limit", limit);
        assert(q@ =~= opt_pair("limit"@, opt_decimal32(limit)));
        ApiRequest::get("/voice/marketplace/packs".to_owned(), q)
    }

    /// Get a single voice pack by ID.
    pub fn get_pack(&self, pack_id: &str) -> (r: ApiRequest)
        ensures
            r@ == get_request("/voice/marketplace/packs/"@ + url_encoded(pack_id@), seq![]),
    {
        ApiRequest::get_plain(path_end("/voice/marketplace/packs/", pack_id))
    }

    /// Install a voice pack for the current tenant.
    pub fn install_pack(&self, pack_id: &str) -> (r: ApiRequest)
        ensures
            r@ == json_request(
                HttpMethod::Post,
                "/voice/marketplace/packs/"@ + url_encoded(pack_id@) + "/install"@,
                empty_object(),
            ),
    {
        ApiRequest::post_empty(path_with("/voice/marketplace/packs/", pack_id, "/install"))
    }

    // -- Calls, speakers and profiles -------------------------------------------------

    /// End an active call by ID.
    pub fn end_call(&self, call_id: &str) -> (r: ApiRequest)
        ensures
            r@ == json_request(HttpMethod::Post, "/voice/calls/"@ + url_encoded(call_id@) + "/end"@, empty_object()),
    {
        ApiRequest::post_empty(path_with("/voice/calls/", call_id, "/end"))
    }

    /// Get the speaker profile for a given speaker ID.
    pub fn get_speaker_profile(&self, speaker_id: &str) -> (r: ApiRequest)
        ensures
            r@ == get_request("/voice/speaker/"@ + url_encoded(speaker_id@), seq![]),
    {
        ApiRequest::get_plain(path_end("/voice/speaker/", speaker_id))
    }

    /// Enroll a new speaker for voice recognition.
    pub fn enroll_speaker(&self, enrollment: Json) -> (r: ApiRequest)
        ensures
            r@ == json_request(HttpMethod::Post, "/voice/speaker/enroll"@, enrollment@),
    {
        ApiRequest::post("/voice/speaker/enroll".to_owned(), enrollment)
    }

    /// Add custom words or phrases to a speaker's vocabulary.
    pub fn add_words(&self, speaker_id: &str, words: Vec<String>) -> (r: ApiRequest)
        ensures
            r@ == json_request(
                HttpMethod::Post,
                "/voice/speaker/"@ + url_encoded(speaker_id@) + "/words"@,
                add_words_body(words),
            ),
    {
        let mut body = Members::new();
        body.put("words", Json::string_list(&words));
        assert(body@ =~= seq![("words"@, str_list_value(strings_view(words@)))]);
        ApiRequest::post(path_with("/voice/speaker/", speaker_id, "/words"), body.into_json())
    }

    /// List voice profiles for the tenant.
    pub fn list_profiles(&self, opts: PageOptions<'_>) -> (r: ApiRequest)
        ensures
            r@ == get_request("/voice/profiles"@, page_limit_query(opts.page, opts.limit)),
    {
        ApiRequest::get("/voice/profiles".to_owned(), page_limit(opts.page, opts.limit))
    }

    /// Get a single voice profile by ID.
    pub fn get_profile(&self, profile_id: &str) -> (r: ApiRequest)
        ensures
            r@ == get_request("/voice/profiles/"@ + url_encoded(profile_id@), seq![]),
    {
        ApiRequest::get_plain(path_end("/voice/profiles/", profile_id))
    }

    /// Create a new voice profile.
    pub fn create_profile(&self, profile: Json) -> (r: ApiRequest)
        ensures
            r@ == json_request(HttpMethod::Post, "/voice/profiles"@, profile@),
    {
        ApiRequest::post("/voice/profiles".to_owned(), profile)
    }

    /// Update an existing voice profile.
    pub fn update_profile(&self, profile_id: &str, profile: Json) -> (r: ApiRequest)
        ensures
            r@ == json_request(HttpMethod::Put, "/voice/profiles/"@ + url_encoded(profile_id@), profile@),
    {
        ApiRequest::put(path_end("/voice/profiles/", profile_id), profile)
    }

    // -- Edge voice pipeline --------------------------------------------------------

    /// Process recorded audio through the edge voice pipeline; the audio
    /// travels base64-encoded.
    pub fn process_audio(&self, req: ProcessAudioRequest<'_>) -> (r: ApiRequest)
        ensures
            r@ == json_request(
                HttpMethod::Post,
                "/voice/process"@,
                process_audio_body(req),
            ),
    {
        let audio = base64_standard_encode(req.audio_bytes);
        let mut body = Members::new();
        body.put_str("audio", audio.as_str());
        body.put_opt_str("language", req.language);
        body.put_opt_str("agent_id", req.agent_id);
        body.put_opt_str("voice_id", req.voice_id);
        body.put_opt_str("session_id", req.session_id);
        assert(body@ =~= seq![text_member("audio"@, base64_standard_encoded(req.audio_bytes@))]
            + opt_text_member("language"@, req.language)
            + opt_text_member("agent_id"@, req.agent_id)
            + opt_text_member("voice_id"@, req.voice_id)
            + opt_text_member("session_id"@, req.session_id));
        ApiRequest::post("/voice/process".to_owned(), body.into_json())
    }

    /// The WebSocket URL of the edge voice pipeline: the base URL with its
    /// first `https://` turned into `wss://` and trailing slashes removed,
    /// then `/ws/voice`, with the encoded session id when one is given.
    pub fn get_voice_web_socket_url(&self, base_url: &str, session_id: Option<&str>) -> (r: String)
        ensures
            r@ == voice_socket_url(base_url@, session_id),
    {
        proof {
            reveal_strlit("https://");
        }
        let swapped = replace_first_of(base_url, "https://", "wss://");
        let base = trim_slashes(swapped.as_str());
        match session_id {
            Some(sid) => {
                let enc = url_encode(sid);
                concat3(base.as_str(), "/ws/voice?session_id=", enc.as_str())
            },
            None => concat2(base.as_str(), "/ws/voice"),
        }
    }

    /// Check edge voice pipeline health.
    pub fn pipeline_health(&self) -> (r: ApiRequest)
        ensures
            r@ == get_request("/voice/pipeline/health"@, seq![]),
    {
        ApiRequest::get_plain("/voice/pipeline/health".to_owned())
    }

    // -- Caller profiles ------------------------------------------------------------

    /// Look up a caller profile by phone number.
    pub fn get_caller_profile(&self, phone_number: &str) -> (r: ApiRequest)
        ensures
            r@ == get_request("/caller-profiles/"@ + url_encoded(phone_number@), seq![]),
    {
        ApiRequest::get_plain(path_end("/caller-profiles/", phone_number))
    }

    /// List the caller profiles of the current tenant, one page.
    pub fn list_caller_profiles(&self, opts: ListCallerProfilesOptions) -> (r: ApiRequest)
        ensures
            r@ == get_request(
                "/caller-profiles"@,
                seq![("limit"@, crate::text::decimal(opts.limit as nat)), ("offset"@, crate::text::decimal(opts.offset as nat))],
            ),
    {
        let mut q = Query::new();
        q.push("limit", crate::text::decimal_string(opts.limit as u64));
        q.push("offset", crate::text::decimal_string(opts.offset as u64));
        assert(q@ =~= seq![("limit"@, crate::text::decimal(opts.limit as nat)), ("offset"@, crate::text::decimal(opts.offset as nat))]);
        ApiRequest::get("/caller-profiles".to_owned(), q)
    }

    /// Create or update a caller profile.
    pub fn upsert_caller_profile(&self, profile: Json) -> (r: ApiRequest)
        ensures
            r@ == json_request(HttpMethod::Post, "/caller-profiles"@, profile@),
    {
        ApiRequest::post("/caller-profiles".to_owned(), profile)
    }

    /// Delete a caller profile.
    pub fn delete_caller_profile(&self, profile_id: &str) -> (r: ApiRequest)
        ensures
            r@ == delete_request("/caller-profiles/"@ + url_encoded(profile_id@)),
    {
        ApiRequest::delete(path_end("/caller-profiles/", profile_id))
    }

    /// Record an order for a caller (updates stats and loyalty points).
    pub fn record_caller_order(&self, phone_number: &str, order_data: Json) -> (r: ApiRequest)
        ensures
            r@ == json_request(
                HttpMethod::Post,
                "/caller-profiles/"@ + url_encoded(phone_number@) + "/orders"@,
                order_data@,
            ),
    {
        ApiRequest::post(path_with("/caller-profiles/", phone_number, "/orders"), order_data)
    }

    // -- Escalation and business hours ----------------------------------------------

    /// Get the escalation config of an agent.
    pub fn get_escalation_config(&self, agent_id: &str) -> (r: ApiRequest)
        ensures
            r@ == get_request("/voice-agents/"@ + url_encoded(agent_id@) + "/escalation-config"@, seq![]),
    {
        ApiRequest::get_plain(path_with("/voice-agents/", agent_id, "/escalation-config"))
    }

    /// Update the escalation config of an agent.
    pub fn update_escalation_config(&self, agent_id: &str, config: Json) -> (r: ApiRequest)
        ensures
            r@ == json_request(
                HttpMethod::Put,
                "/voice-agents/"@ + url_encoded(agent_id@) + "/escalation-config"@,
                config@,
            ),
    {
        ApiRequest::put(path_with("/voice-agents/", agent_id, "/escalation-config"), config)
    }

    /// Get the business hours of an agent.
    pub fn get_business_hours(&self, agent_id: &str) -> (r: ApiRequest)
        ensures
            r@ == get_request("/voice-agents/"@ + url_encoded(agent_id@) + "/business-hours"@, seq![]),
    {
        ApiRequest::get_plain(path_with("/voice-agents/", agent_id, "/business-hours"))
    }

    /// Update the business hours of an agent.
    pub fn update_business_hours(&self, agent_id: &str, hours: Json) -> (r: ApiRequest)
        ensures
            r@ == json_request(
                HttpMethod::Put,
                "/voice-agents/"@ + url_encoded(agent_id@) + "/business-hours"@,
                hours@,
            ),
    {
        ApiRequest::put(path_with("/voice-agents/", agent_id, "/business-hours"), hours)
    }

    // -- Agent testing --------------------------------------------------------------

    /// Trigger an AI-to-AI test suite against the tenant's voice agent.
    pub fn test_agent(&self, tenant_id: &str, scenario_count: u32) -> (r: ApiRequest)
        ensures
            r@ == json_request(
                HttpMethod::Post,
                "/voice-agents/test"@,
                test_agent_body(tenant_id, scenario_count),
            ),
    {
        let mut body = Members::new();
        body.put_str("tenant_id", tenant_id);
        body.put_uint("scenario_count", scenario_count as u64);
        assert(body@ =~= seq![
            text_member("tenant_id"@, tenant_id@),
            ("scenario_count"@, uint_value(scenario_count as u64)),
        ]);
        ApiRequest::post("/voice-agents/test".to_owned(), body.into_json())
    }
}

} // verus!
