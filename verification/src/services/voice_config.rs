//! The voice-defaults cascade as the resolver returns it: the merged
//! effective configuration of an agent, its pipeline view, and the four
//! rungs (platform, app, tenant, agent) it was merged from. Each type reads
//! from and writes to the camelCase documents of the resolver.

use vstd::prelude::*;
use crate::decode::{keys_view, read_record, record_of};
use crate::decode::{
    duplicate_members, field_bool, field_members_or_empty, field_opt_bool, field_opt_doc, field_opt_i64,
    field_opt_members, field_opt_str, opt_members_view, read_bool, read_members_or_empty, read_opt_bool, read_opt_doc, read_opt_i64,
    read_opt_members, read_opt_str, read_str,
};
use crate::json::{
    int_value, is_object, json_get, json_str_member, object_of, opt_bool_member, opt_member, opt_string,
    opt_string_member, text_member, Json, JsonValue, Members,
};

verus! {

/// One rung of the voice-defaults cascade: whatever was set at that scope.
#[derive(Debug, Default)]
pub struct VoiceDefaultsRung {
    pub pipeline: Option<String>,
    pub pipeline_config: Option<Members>,
    pub tier_override: Option<String>,
    pub log_level: Option<String>,
    pub debug_transcripts_enabled: Option<bool>,
    pub v2_shadow_enabled: Option<bool>,
    pub v2_primary_enabled: Option<bool>,
}

/// The four rungs of the cascade, from least to most specific.
#[derive(Debug, Default)]
pub struct VoiceDefaultsCascade {
    pub platform: Option<VoiceDefaultsRung>,
    pub app: Option<VoiceDefaultsRung>,
    pub tenant: Option<VoiceDefaultsRung>,
    pub agent: Option<VoiceDefaultsRung>,
}

/// The merged configuration of an agent.
#[derive(Debug)]
pub struct VoiceEffectiveConfig {
    pub agent_id: String,
    pub tenant_id: String,
    pub pipeline: String,
    pub pipeline_config: Members,
    pub tier_override: Option<String>,
    pub log_level: String,
    pub debug_transcripts_enabled: bool,
    pub v2_shadow_enabled: bool,
    pub v2_primary_enabled: bool,
    pub telephony_provider: Option<String>,
    pub provider_account_ref: Option<String>,
    pub preferred_codec: Option<String>,
    pub preferred_sample_rate: Option<i64>,
    pub hd_audio_enabled: Option<bool>,
    pub webhook_path_override: Option<String>,
    pub v2_routed: Option<bool>,
    pub voice_defaults: VoiceDefaultsCascade,
    pub resolved_at: String,
    pub cascade_version: String,
}

/// The pipeline view of an agent's configuration.
#[derive(Debug)]
pub struct VoicePipeline {
    pub agent_id: String,
    pub pipeline: String,
    pub pipeline_config: Members,
    pub resolved_at: String,
    pub cascade_version: String,
}

// ---------------------------------------------------------------------------
// Documents
// ---------------------------------------------------------------------------

/// The document of a rung: each set field, in declaration order.
pub open spec fn rung_value(r: VoiceDefaultsRung) -> JsonValue {
    object_of(
        opt_string_member("pipeline"@, r.pipeline)
            + opt_member(
                "pipelineConfig"@,
                match r.pipeline_config {
                    Some(m) => Some(JsonValue::Object(m@)),
                    None => None,
                },
            )
            + opt_string_member("tierOverride"@, r.tier_override)
            + opt_string_member("logLevel"@, r.log_level)
            + opt_bool_member("debugTranscriptsEnabled"@, r.debug_transcripts_enabled)
            + opt_bool_member("v2ShadowEnabled"@, r.v2_shadow_enabled)
            + opt_bool_member("v2PrimaryEnabled"@, r.v2_primary_enabled),
    )
}

/// A rung's document, or `null` for a rung that is not there.
pub open spec fn opt_rung_value(o: Option<VoiceDefaultsRung>) -> JsonValue {
    match o {
        Some(r) => rung_value(r),
        None => JsonValue::Null,
    }
}

/// The document of the cascade: all four rungs, `null` where absent.
pub open spec fn cascade_value(c: VoiceDefaultsCascade) -> JsonValue {
    object_of(
        seq![
            ("platform"@, opt_rung_value(c.platform)),
            ("app"@, opt_rung_value(c.app)),
            ("tenant"@, opt_rung_value(c.tenant)),
            ("agent"@, opt_rung_value(c.agent)),
        ],
    )
}

/// The members an effective configuration's document opens with: its
/// identity, pipeline, tier override (when set), log level and switches.
pub open spec fn config_head(c: VoiceEffectiveConfig) -> Seq<(Seq<char>, JsonValue)> {
    seq![
        text_member("agentId"@, c.agent_id@),
        text_member("tenantId"@, c.tenant_id@),
        text_member("pipeline"@, c.pipeline@),
        ("pipelineConfig"@, JsonValue::Object(c.pipeline_config@)),
    ] + opt_string_member("tierOverride"@, c.tier_override) + seq![
        text_member("logLevel"@, c.log_level@),
        ("debugTranscriptsEnabled"@, JsonValue::Bool(c.debug_transcripts_enabled)),
        ("v2ShadowEnabled"@, JsonValue::Bool(c.v2_shadow_enabled)),
        ("v2PrimaryEnabled"@, JsonValue::Bool(c.v2_primary_enabled)),
    ]
}

/// The telephony bindings of an effective configuration's document, each
/// when set.
pub open spec fn config_telephony(c: VoiceEffectiveConfig) -> Seq<(Seq<char>, JsonValue)> {
    opt_string_member("telephonyProvider"@, c.telephony_provider) + opt_string_member(
        "providerAccountRef"@,
        c.provider_account_ref,
    ) + opt_string_member("preferredCodec"@, c.preferred_codec) + opt_member(
        "preferredSampleRate"@,
        match c.preferred_sample_rate {
            Some(n) => Some(int_value(n)),
            None => None,
        },
    ) + opt_bool_member("hdAudioEnabled"@, c.hd_audio_enabled) + opt_string_member(
        "webhookPathOverride"@,
        c.webhook_path_override,
    ) + opt_bool_member("v2Routed"@, c.v2_routed)
}

/// The members an effective configuration's document closes with: the
/// cascade and the resolution stamp.
pub open spec fn config_tail(c: VoiceEffectiveConfig) -> Seq<(Seq<char>, JsonValue)> {
    seq![
        ("voiceDefaults"@, cascade_value(c.voice_defaults)),
        text_member("resolvedAt"@, c.resolved_at@),
        text_member("cascadeVersion"@, c.cascade_version@),
    ]
}

/// The document of an effective configuration: the required fields always,
/// the optional ones when set, in declaration order.
pub open spec fn effective_config_value(c: VoiceEffectiveConfig) -> JsonValue {
    object_of(config_head(c) + config_telephony(c) + config_tail(c))
}

/// The document of a pipeline view.
pub open spec fn pipeline_value(p: VoicePipeline) -> JsonValue {
    object_of(
        seq![
            text_member("agentId"@, p.agent_id@),
            text_member("pipeline"@, p.pipeline@),
            ("pipelineConfig"@, JsonValue::Object(p.pipeline_config@)),
            text_member("resolvedAt"@, p.resolved_at@),
            text_member("cascadeVersion"@, p.cascade_version@),
        ],
    )
}

// ---------------------------------------------------------------------------
// Reading
// ---------------------------------------------------------------------------

/// Whether `r` is what the object `v` reads as: every field optional,
/// absent or `null` reading as none.
pub open spec fn is_rung_fields_of(v: JsonValue, r: VoiceDefaultsRung) -> bool {
    &&& is_object(v)
    &&& field_opt_str(v, "pipeline"@) == Some(opt_string(r.pipeline))
    &&& field_opt_members(v, "pipelineConfig"@) == Some(opt_members_view(r.pipeline_config))
    &&& field_opt_str(v, "tierOverride"@) == Some(opt_string(r.tier_override))
    &&& field_opt_str(v, "logLevel"@) == Some(opt_string(r.log_level))
    &&& field_opt_bool(v, "debugTranscriptsEnabled"@) == Some(r.debug_transcripts_enabled)
    &&& field_opt_bool(v, "v2ShadowEnabled"@) == Some(r.v2_shadow_enabled)
    &&& field_opt_bool(v, "v2PrimaryEnabled"@) == Some(r.v2_primary_enabled)
}

/// Whether the object `v` reads as a rung.
pub open spec fn reads_as_rung_fields(v: JsonValue) -> bool {
    &&& is_object(v)
    &&& field_opt_str(v, "pipeline"@) is Some
    &&& field_opt_members(v, "pipelineConfig"@) is Some
    &&& field_opt_str(v, "tierOverride"@) is Some
    &&& field_opt_str(v, "logLevel"@) is Some
    &&& field_opt_bool(v, "debugTranscriptsEnabled"@) is Some
    &&& field_opt_bool(v, "v2ShadowEnabled"@) is Some
    &&& field_opt_bool(v, "v2PrimaryEnabled"@) is Some
}

/// The field names of a `VoiceDefaultsRung`, in declaration order.
pub open spec fn rung_keys() -> Seq<Seq<char>> {
    seq!["pipeline"@, "pipelineConfig"@, "tierOverride"@, "logLevel"@, "debugTranscriptsEnabled"@, "v2ShadowEnabled"@, "v2PrimaryEnabled"@]
}

/// Which fields of a `VoiceDefaultsRung` may be left out.
pub open spec fn rung_defaults() -> Seq<bool> {
    seq![true, true, true, true, true, true, true]
}

/// Whether `x` is what the record document `v` (an object, or an array of
/// the fields in order) reads as.
pub open spec fn is_rung_of(v: JsonValue, x: VoiceDefaultsRung) -> bool {
    record_of(v, rung_keys(), rung_defaults()) matches Some(o) && is_rung_fields_of(o, x)
}

/// Whether the record document `v` reads as a `VoiceDefaultsRung`.
pub open spec fn reads_as_rung(v: JsonValue) -> bool {
    record_of(v, rung_keys(), rung_defaults()) matches Some(o) && reads_as_rung_fields(o)
}

/// Whether the optional rung `r` is what the optional document `d` reads
/// as.
pub open spec fn is_opt_rung_of(d: Option<JsonValue>, r: Option<VoiceDefaultsRung>) -> bool {
    match d {
        Some(x) => r matches Some(rr) && is_rung_of(x, rr),
        None => r is None,
    }
}

pub open spec fn reads_as_opt_rung(d: Option<JsonValue>) -> bool {
    match d {
        Some(x) => reads_as_rung(x),
        None => true,
    }
}

/// Whether `c` is what the object `v` reads as: each rung none when
/// absent or `null`.
pub open spec fn is_cascade_fields_of(v: JsonValue, c: VoiceDefaultsCascade) -> bool {
    &&& is_object(v)
    &&& is_opt_rung_of(field_opt_doc(v, "platform"@), c.platform)
    &&& is_opt_rung_of(field_opt_doc(v, "app"@), c.app)
    &&& is_opt_rung_of(field_opt_doc(v, "tenant"@), c.tenant)
    &&& is_opt_rung_of(field_opt_doc(v, "agent"@), c.agent)
}

/// Whether the object `v` reads as a cascade.
pub open spec fn reads_as_cascade_fields(v: JsonValue) -> bool {
    &&& is_object(v)
    &&& reads_as_opt_rung(field_opt_doc(v, "platform"@))
    &&& reads_as_opt_rung(field_opt_doc(v, "app"@))
    &&& reads_as_opt_rung(field_opt_doc(v, "tenant"@))
    &&& reads_as_opt_rung(field_opt_doc(v, "agent"@))
}

/// The field names of a `VoiceDefaultsCascade`, in declaration order.
pub open spec fn cascade_keys() -> Seq<Seq<char>> {
    seq!["platform"@, "app"@, "tenant"@, "agent"@]
}

/// Which fields of a `VoiceDefaultsCascade` may be left out.
pub open spec fn cascade_defaults() -> Seq<bool> {
    seq![true, true, true, true]
}

/// Whether `x` is what the record document `v` (an object, or an array of
/// the fields in order) reads as.
pub open spec fn is_cascade_of(v: JsonValue, x: VoiceDefaultsCascade) -> bool {
    record_of(v, cascade_keys(), cascade_defaults()) matches Some(o) && is_cascade_fields_of(o, x)
}

/// Whether the record document `v` reads as a `VoiceDefaultsCascade`.
pub open spec fn reads_as_cascade(v: JsonValue) -> bool {
    record_of(v, cascade_keys(), cascade_defaults()) matches Some(o) && reads_as_cascade_fields(o)
}

/// The cascade with no rung.
pub open spec fn is_empty_cascade(c: VoiceDefaultsCascade) -> bool {
    &&& c.platform is None
    &&& c.app is None
    &&& c.tenant is None
    &&& c.agent is None
}

/// Whether `c` is what the object `v` reads as: the pipeline
/// configuration empty and the cascade without rungs when absent, the
/// telephony bindings and tier override optional, the rest required.
pub open spec fn is_effective_config_fields_of(v: JsonValue, c: VoiceEffectiveConfig) -> bool {
    &&& is_object(v)
    &&& json_str_member(v, "agentId"@) == Some(c.agent_id@)
    &&& json_str_member(v, "tenantId"@) == Some(c.tenant_id@)
    &&& json_str_member(v, "pipeline"@) == Some(c.pipeline@)
    &&& field_members_or_empty(v, "pipelineConfig"@) == Some(c.pipeline_config@)
    &&& field_opt_str(v, "tierOverride"@) == Some(opt_string(c.tier_override))
    &&& json_str_member(v, "logLevel"@) == Some(c.log_level@)
    &&& field_bool(v, "debugTranscriptsEnabled"@) == Some(c.debug_transcripts_enabled)
    &&& field_bool(v, "v2ShadowEnabled"@) == Some(c.v2_shadow_enabled)
    &&& field_bool(v, "v2PrimaryEnabled"@) == Some(c.v2_primary_enabled)
    &&& field_opt_str(v, "telephonyProvider"@) == Some(opt_string(c.telephony_provider))
    &&& field_opt_str(v, "providerAccountRef"@) == Some(opt_string(c.provider_account_ref))
    &&& field_opt_str(v, "preferredCodec"@) == Some(opt_string(c.preferred_codec))
    &&& field_opt_i64(v, "preferredSampleRate"@) == Some(c.preferred_sample_rate)
    &&& field_opt_bool(v, "hdAudioEnabled"@) == Some(c.hd_audio_enabled)
    &&& field_opt_str(v, "webhookPathOverride"@) == Some(opt_string(c.webhook_path_override))
    &&& field_opt_bool(v, "v2Routed"@) == Some(c.v2_routed)
    &&& match json_get(v, "voiceDefaults"@) {
        Some(x) => is_cascade_of(x, c.voice_defaults),
        None => is_empty_cascade(c.voice_defaults),
    }
    &&& json_str_member(v, "resolvedAt"@) == Some(c.resolved_at@)
    &&& json_str_member(v, "cascadeVersion"@) == Some(c.cascade_version@)
}

/// Whether the object `v` reads as an effective configuration.
pub open spec fn reads_as_effective_config_fields(v: JsonValue) -> bool {
    &&& is_object(v)
    &&& json_str_member(v, "agentId"@) is Some
    &&& json_str_member(v, "tenantId"@) is Some
    &&& json_str_member(v, "pipeline"@) is Some
    &&& field_members_or_empty(v, "pipelineConfig"@) is Some
    &&& field_opt_str(v, "tierOverride"@) is Some
    &&& json_str_member(v, "logLevel"@) is Some
    &&& field_bool(v, "debugTranscriptsEnabled"@) is Some
    &&& field_bool(v, "v2ShadowEnabled"@) is Some
    &&& field_bool(v, "v2PrimaryEnabled"@) is Some
    &&& field_opt_str(v, "telephonyProvider"@) is Some
    &&& field_opt_str(v, "providerAccountRef"@) is Some
    &&& field_opt_str(v, "preferredCodec"@) is Some
    &&& field_opt_i64(v, "preferredSampleRate"@) is Some
    &&& field_opt_bool(v, "hdAudioEnabled"@) is Some
    &&& field_opt_str(v, "webhookPathOverride"@) is Some
    &&& field_opt_bool(v, "v2Routed"@) is Some
    &&& match json_get(v, "voiceDefaults"@) {
        Some(x) => reads_as_cascade(x),
        None => true,
    }
    &&& json_str_member(v, "resolvedAt"@) is Some
    &&& json_str_member(v, "cascadeVersion"@) is Some
}

/// The field names of a `VoiceEffectiveConfig`, in declaration order.
pub open spec fn effective_config_keys() -> Seq<Seq<char>> {
    seq!["agentId"@, "tenantId"@, "pipeline"@, "pipelineConfig"@, "tierOverride"@, "logLevel"@, "debugTranscriptsEnabled"@, "v2ShadowEnabled"@, "v2PrimaryEnabled"@, "telephonyProvider"@, "providerAccountRef"@, "preferredCodec"@, "preferredSampleRate"@, "hdAudioEnabled"@, "webhookPathOverride"@, "v2Routed"@, "voiceDefaults"@, "resolvedAt"@, "cascadeVersion"@]
}

/// Which fields of a `VoiceEffectiveConfig` may be left out.
pub open spec fn effective_config_defaults() -> Seq<bool> {
    seq![false, false, false, true, true, false, false, false, false, true, true, true, true, true, true, true, true, false, false]
}

/// Whether `x` is what the record document `v` (an object, or an array of
/// the fields in order) reads as.
pub open spec fn is_effective_config_of(v: JsonValue, x: VoiceEffectiveConfig) -> bool {
    record_of(v, effective_config_keys(), effective_config_defaults()) matches Some(o) && is_effective_config_fields_of(o, x)
}

/// Whether the record document `v` reads as a `VoiceEffectiveConfig`.
pub open spec fn reads_as_effective_config(v: JsonValue) -> bool {
    record_of(v, effective_config_keys(), effective_config_defaults()) matches Some(o) && reads_as_effective_config_fields(o)
}

/// Whether `p` is what the object `v` reads as: the pipeline
/// configuration empty when absent, the rest required.
pub open spec fn is_pipeline_fields_of(v: JsonValue, p: VoicePipeline) -> bool {
    &&& is_object(v)
    &&& json_str_member(v, "agentId"@) == Some(p.agent_id@)
    &&& json_str_member(v, "pipeline"@) == Some(p.pipeline@)
    &&& field_members_or_empty(v, "pipelineConfig"@) == Some(p.pipeline_config@)
    &&& json_str_member(v, "resolvedAt"@) == Some(p.resolved_at@)
    &&& json_str_member(v, "cascadeVersion"@) == Some(p.cascade_version@)
}

/// Whether the object `v` reads as a pipeline view.
pub open spec fn reads_as_pipeline_fields(v: JsonValue) -> bool {
    &&& is_object(v)
    &&& json_str_member(v, "agentId"@) is Some
    &&& json_str_member(v, "pipeline"@) is Some
    &&& field_members_or_empty(v, "pipelineConfig"@) is Some
    &&& json_str_member(v, "resolvedAt"@) is Some
    &&& json_str_member(v, "cascadeVersion"@) is Some
}

/// The field names of a `VoicePipeline`, in declaration order.
pub open spec fn pipeline_keys() -> Seq<Seq<char>> {
    seq!["agentId"@, "pipeline"@, "pipelineConfig"@, "resolvedAt"@, "cascadeVersion"@]
}

/// Which fields of a `VoicePipeline` may be left out.
pub open spec fn pipeline_defaults() -> Seq<bool> {
    seq![false, false, true, false, false]
}

/// Whether `x` is what the record document `v` (an object, or an array of
/// the fields in order) reads as.
pub open spec fn is_pipeline_of(v: JsonValue, x: VoicePipeline) -> bool {
    record_of(v, pipeline_keys(), pipeline_defaults()) matches Some(o) && is_pipeline_fields_of(o, x)
}

/// Whether the record document `v` reads as a `VoicePipeline`.
pub open spec fn reads_as_pipeline(v: JsonValue) -> bool {
    record_of(v, pipeline_keys(), pipeline_defaults()) matches Some(o) && reads_as_pipeline_fields(o)
}

/// Writing a rung and reading the document back gives the same rung.
#[verifier::rlimit(60)]
pub proof fn lemma_rung_round_trip(r: VoiceDefaultsRung)
    ensures
        reads_as_rung(rung_value(r)),
        is_rung_of(rung_value(r), r),
{
    broadcast use crate::json::lemma_member_lookup_append, crate::json::lemma_member_lookup_opt;

    reveal_strlit("pipeline");
    reveal_strlit("pipelineConfig");
    reveal_strlit("tierOverride");
    reveal_strlit("logLevel");
    reveal_strlit("debugTranscriptsEnabled");
    reveal_strlit("v2ShadowEnabled");
    reveal_strlit("v2PrimaryEnabled");
    assert("pipeline"@.len() == 8 && "pipeline"@[0] == 'p');
    assert("pipelineConfig"@.len() == 14);
    assert("tierOverride"@.len() == 12);
    assert("logLevel"@.len() == 8 && "logLevel"@[0] == 'l');
    assert("debugTranscriptsEnabled"@.len() == 23);
    assert("v2ShadowEnabled"@.len() == 15);
    assert("v2PrimaryEnabled"@.len() == 16);
}

/// Writing a cascade and reading the document back gives the same
/// cascade.
pub proof fn lemma_cascade_round_trip(c: VoiceDefaultsCascade)
    ensures
        reads_as_cascade(cascade_value(c)),
        is_cascade_of(cascade_value(c), c),
{
    reveal_with_fuel(crate::json::member_lookup, 5);
    reveal_strlit("platform");
    reveal_strlit("app");
    reveal_strlit("tenant");
    reveal_strlit("agent");
    assert("platform"@.len() == 8);
    assert("app"@.len() == 3);
    assert("tenant"@.len() == 6);
    assert("agent"@.len() == 5);
    match c.platform {
        Some(r) => lemma_rung_round_trip(r),
        None => {},
    }
    match c.app {
        Some(r) => lemma_rung_round_trip(r),
        None => {},
    }
    match c.tenant {
        Some(r) => lemma_rung_round_trip(r),
        None => {},
    }
    match c.agent {
        Some(r) => lemma_rung_round_trip(r),
        None => {},
    }
}

proof fn lemma_effective_config_head_round_trip(c: VoiceEffectiveConfig)
    ensures
        ({
            let v = effective_config_value(c);
            &&& json_str_member(v, "agentId"@) == Some(c.agent_id@)
            &&& json_str_member(v, "tenantId"@) == Some(c.tenant_id@)
            &&& json_str_member(v, "pipeline"@) == Some(c.pipeline@)
            &&& field_members_or_empty(v, "pipelineConfig"@) == Some(c.pipeline_config@)
            &&& field_opt_str(v, "tierOverride"@) == Some(opt_string(c.tier_override))
            &&& json_str_member(v, "logLevel"@) == Some(c.log_level@)
            &&& field_bool(v, "debugTranscriptsEnabled"@) == Some(c.debug_transcripts_enabled)
            &&& field_bool(v, "v2ShadowEnabled"@) == Some(c.v2_shadow_enabled)
            &&& field_bool(v, "v2PrimaryEnabled"@) == Some(c.v2_primary_enabled)
        }),
{
    broadcast use crate::json::lemma_member_lookup_append, crate::json::lemma_member_lookup_opt;

    reveal_with_fuel(crate::json::member_lookup, 5);
    reveal_strlit("agentId");
    reveal_strlit("tenantId");
    reveal_strlit("pipeline");
    reveal_strlit("pipelineConfig");
    reveal_strlit("tierOverride");
    reveal_strlit("logLevel");
    reveal_strlit("debugTranscriptsEnabled");
    reveal_strlit("v2ShadowEnabled");
    reveal_strlit("v2PrimaryEnabled");
    reveal_strlit("telephonyProvider");
    reveal_strlit("providerAccountRef");
    reveal_strlit("preferredCodec");
    reveal_strlit("preferredSampleRate");
    reveal_strlit("hdAudioEnabled");
    reveal_strlit("webhookPathOverride");
    reveal_strlit("v2Routed");
    reveal_strlit("voiceDefaults");
    reveal_strlit("resolvedAt");
    reveal_strlit("cascadeVersion");
    assert("agentId"@.len() == 7);
    assert("tenantId"@.len() == 8 && "tenantId"@[0] == 't');
    assert("pipeline"@.len() == 8 && "pipeline"@[0] == 'p');
    assert("pipelineConfig"@.len() == 14 && "pipelineConfig"@[0] == 'p' && "pipelineConfig"@[1] == 'i');
    assert("tierOverride"@.len() == 12);
    assert("logLevel"@.len() == 8 && "logLevel"@[0] == 'l');
    assert("debugTranscriptsEnabled"@.len() == 23);
    assert("v2ShadowEnabled"@.len() == 15);
    assert("v2PrimaryEnabled"@.len() == 16);
    assert("telephonyProvider"@.len() == 17);
    assert("providerAccountRef"@.len() == 18);
    assert("preferredCodec"@.len() == 14 && "preferredCodec"@[0] == 'p' && "preferredCodec"@[1] == 'r');
    assert("preferredSampleRate"@.len() == 19 && "preferredSampleRate"@[0] == 'p');
    assert("hdAudioEnabled"@.len() == 14 && "hdAudioEnabled"@[0] == 'h');
    assert("webhookPathOverride"@.len() == 19 && "webhookPathOverride"@[0] == 'w');
    assert("v2Routed"@.len() == 8 && "v2Routed"@[0] == 'v');
    assert("voiceDefaults"@.len() == 13);
    assert("resolvedAt"@.len() == 10);
    assert("cascadeVersion"@.len() == 14 && "cascadeVersion"@[0] == 'c');
}

#[verifier::rlimit(40)]
proof fn lemma_effective_config_telephony_names_round_trip(c: VoiceEffectiveConfig)
    ensures
        ({
            let v = effective_config_value(c);
            &&& field_opt_str(v, "telephonyProvider"@) == Some(opt_string(c.telephony_provider))
            &&& field_opt_str(v, "providerAccountRef"@) == Some(opt_string(c.provider_account_ref))
            &&& field_opt_str(v, "preferredCodec"@) == Some(opt_string(c.preferred_codec))
        }),
{
    broadcast use crate::json::lemma_member_lookup_append, crate::json::lemma_member_lookup_opt;

    reveal_with_fuel(crate::json::member_lookup, 5);
    reveal_strlit("agentId");
    reveal_strlit("tenantId");
    reveal_strlit("pipeline");
    reveal_strlit("pipelineConfig");
    reveal_strlit("tierOverride");
    reveal_strlit("logLevel");
    reveal_strlit("debugTranscriptsEnabled");
    reveal_strlit("v2ShadowEnabled");
    reveal_strlit("v2PrimaryEnabled");
    reveal_strlit("telephonyProvider");
    reveal_strlit("providerAccountRef");
    reveal_strlit("preferredCodec");
    reveal_strlit("preferredSampleRate");
    reveal_strlit("hdAudioEnabled");
    reveal_strlit("webhookPathOverride");
    reveal_strlit("v2Routed");
    reveal_strlit("voiceDefaults");
    reveal_strlit("resolvedAt");
    reveal_strlit("cascadeVersion");
    assert("agentId"@.len() == 7);
    assert("tenantId"@.len() == 8 && "tenantId"@[0] == 't');
    assert("pipeline"@.len() == 8 && "pipeline"@[0] == 'p');
    assert("pipelineConfig"@.len() == 14 && "pipelineConfig"@[0] == 'p' && "pipelineConfig"@[1] == 'i');
    assert("tierOverride"@.len() == 12);
    assert("logLevel"@.len() == 8 && "logLevel"@[0] == 'l');
    assert("debugTranscriptsEnabled"@.len() == 23);
    assert("v2ShadowEnabled"@.len() == 15);
    assert("v2PrimaryEnabled"@.len() == 16);
    assert("telephonyProvider"@.len() == 17);
    assert("providerAccountRef"@.len() == 18);
    assert("preferredCodec"@.len() == 14 && "preferredCodec"@[0] == 'p' && "preferredCodec"@[1] == 'r');
    assert("preferredSampleRate"@.len() == 19 && "preferredSampleRate"@[0] == 'p');
    assert("hdAudioEnabled"@.len() == 14 && "hdAudioEnabled"@[0] == 'h');
    assert("webhookPathOverride"@.len() == 19 && "webhookPathOverride"@[0] == 'w');
    assert("v2Routed"@.len() == 8 && "v2Routed"@[0] == 'v');
    assert("voiceDefaults"@.len() == 13);
    assert("resolvedAt"@.len() == 10);
    assert("cascadeVersion"@.len() == 14 && "cascadeVersion"@[0] == 'c');
}

#[verifier::rlimit(80)]
proof fn lemma_effective_config_telephony_flags_round_trip(c: VoiceEffectiveConfig)
    ensures
        ({
            let v = effective_config_value(c);
            &&& field_opt_i64(v, "preferredSampleRate"@) == Some(c.preferred_sample_rate)
            &&& field_opt_bool(v, "hdAudioEnabled"@) == Some(c.hd_audio_enabled)
            &&& field_opt_str(v, "webhookPathOverride"@) == Some(opt_string(c.webhook_path_override))
            &&& field_opt_bool(v, "v2Routed"@) == Some(c.v2_routed)
        }),
{
    broadcast use crate::json::lemma_member_lookup_append, crate::json::lemma_member_lookup_opt;

    reveal_with_fuel(crate::json::member_lookup, 5);
    reveal_strlit("agentId");
    reveal_strlit("tenantId");
    reveal_strlit("pipeline");
    reveal_strlit("pipelineConfig");
    reveal_strlit("tierOverride");
    reveal_strlit("logLevel");
    reveal_strlit("debugTranscriptsEnabled");
    reveal_strlit("v2ShadowEnabled");
    reveal_strlit("v2PrimaryEnabled");
    reveal_strlit("telephonyProvider");
    reveal_strlit("providerAccountRef");
    reveal_strlit("preferredCodec");
    reveal_strlit("preferredSampleRate");
    reveal_strlit("hdAudioEnabled");
    reveal_strlit("webhookPathOverride");
    reveal_strlit("v2Routed");
    reveal_strlit("voiceDefaults");
    reveal_strlit("resolvedAt");
    reveal_strlit("cascadeVersion");
    assert("agentId"@.len() == 7);
    assert("tenantId"@.len() == 8 && "tenantId"@[0] == 't');
    assert("pipeline"@.len() == 8 && "pipeline"@[0] == 'p');
    assert("pipelineConfig"@.len() == 14 && "pipelineConfig"@[0] == 'p' && "pipelineConfig"@[1] == 'i');
    assert("tierOverride"@.len() == 12);
    assert("logLevel"@.len() == 8 && "logLevel"@[0] == 'l');
    assert("debugTranscriptsEnabled"@.len() == 23);
    assert("v2ShadowEnabled"@.len() == 15);
    assert("v2PrimaryEnabled"@.len() == 16);
    assert("telephonyProvider"@.len() == 17);
    assert("providerAccountRef"@.len() == 18);
    assert("preferredCodec"@.len() == 14 && "preferredCodec"@[0] == 'p' && "preferredCodec"@[1] == 'r');
    assert("preferredSampleRate"@.len() == 19 && "preferredSampleRate"@[0] == 'p');
    assert("hdAudioEnabled"@.len() == 14 && "hdAudioEnabled"@[0] == 'h');
    assert("webhookPathOverride"@.len() == 19 && "webhookPathOverride"@[0] == 'w');
    assert("v2Routed"@.len() == 8 && "v2Routed"@[0] == 'v');
    assert("voiceDefaults"@.len() == 13);
    assert("resolvedAt"@.len() == 10);
    assert("cascadeVersion"@.len() == 14 && "cascadeVersion"@[0] == 'c');
    match c.preferred_sample_rate {
        Some(n) => crate::decode::lemma_int_value_reads_back(n),
        None => {},
    }
}

proof fn lemma_effective_config_tail_round_trip(c: VoiceEffectiveConfig)
    ensures
        ({
            let v = effective_config_value(c);
            &&& json_get(v, "voiceDefaults"@) == Some(cascade_value(c.voice_defaults))
            &&& json_str_member(v, "resolvedAt"@) == Some(c.resolved_at@)
            &&& json_str_member(v, "cascadeVersion"@) == Some(c.cascade_version@)
        }),
{
    broadcast use crate::json::lemma_member_lookup_append, crate::json::lemma_member_lookup_opt;

    reveal_with_fuel(crate::json::member_lookup, 5);
    reveal_strlit("agentId");
    reveal_strlit("tenantId");
    reveal_strlit("pipeline");
    reveal_strlit("pipelineConfig");
    reveal_strlit("tierOverride");
    reveal_strlit("logLevel");
    reveal_strlit("debugTranscriptsEnabled");
    reveal_strlit("v2ShadowEnabled");
    reveal_strlit("v2PrimaryEnabled");
    reveal_strlit("telephonyProvider");
    reveal_strlit("providerAccountRef");
    reveal_strlit("preferredCodec");
    reveal_strlit("preferredSampleRate");
    reveal_strlit("hdAudioEnabled");
    reveal_strlit("webhookPathOverride");
    reveal_strlit("v2Routed");
    reveal_strlit("voiceDefaults");
    reveal_strlit("resolvedAt");
    reveal_strlit("cascadeVersion");
    assert("agentId"@.len() == 7);
    assert("tenantId"@.len() == 8 && "tenantId"@[0] == 't');
    assert("pipeline"@.len() == 8 && "pipeline"@[0] == 'p');
    assert("pipelineConfig"@.len() == 14 && "pipelineConfig"@[0] == 'p' && "pipelineConfig"@[1] == 'i');
    assert("tierOverride"@.len() == 12);
    assert("logLevel"@.len() == 8 && "logLevel"@[0] == 'l');
    assert("debugTranscriptsEnabled"@.len() == 23);
    assert("v2ShadowEnabled"@.len() == 15);
    assert("v2PrimaryEnabled"@.len() == 16);
    assert("telephonyProvider"@.len() == 17);
    assert("providerAccountRef"@.len() == 18);
    assert("preferredCodec"@.len() == 14 && "preferredCodec"@[0] == 'p' && "preferredCodec"@[1] == 'r');
    assert("preferredSampleRate"@.len() == 19 && "preferredSampleRate"@[0] == 'p');
    assert("hdAudioEnabled"@.len() == 14 && "hdAudioEnabled"@[0] == 'h');
    assert("webhookPathOverride"@.len() == 19 && "webhookPathOverride"@[0] == 'w');
    assert("v2Routed"@.len() == 8 && "v2Routed"@[0] == 'v');
    assert("voiceDefaults"@.len() == 13);
    assert("resolvedAt"@.len() == 10);
    assert("cascadeVersion"@.len() == 14 && "cascadeVersion"@[0] == 'c');
}

/// Writing an effective configuration and reading the document back gives
/// the same configuration.
pub proof fn lemma_effective_config_round_trip(c: VoiceEffectiveConfig)
    ensures
        reads_as_effective_config(effective_config_value(c)),
        is_effective_config_of(effective_config_value(c), c),
{
    lemma_effective_config_head_round_trip(c);
    lemma_effective_config_telephony_names_round_trip(c);
    lemma_effective_config_telephony_flags_round_trip(c);
    lemma_effective_config_tail_round_trip(c);
    lemma_cascade_round_trip(c.voice_defaults);
}

/// Writing a pipeline view and reading the document back gives the same
/// view.
pub proof fn lemma_pipeline_round_trip(p: VoicePipeline)
    ensures
        reads_as_pipeline(pipeline_value(p)),
        is_pipeline_of(pipeline_value(p), p),
{
    reveal_strlit("agentId");
    reveal_strlit("pipeline");
    reveal_strlit("pipelineConfig");
    reveal_strlit("resolvedAt");
    reveal_strlit("cascadeVersion");
    assert("agentId"@.len() == 7);
    assert("pipeline"@.len() == 8);
    assert("pipelineConfig"@.len() == 14 && "pipelineConfig"@[0] == 'p');
    assert("resolvedAt"@.len() == 10);
    assert("cascadeVersion"@.len() == 14 && "cascadeVersion"@[0] == 'c');
    reveal_with_fuel(crate::json::member_lookup, 6);
}

fn copy_opt_string(o: &Option<String>) -> (r: Option<String>)
    ensures
        opt_string(r) == opt_string(*o),
{
    match o {
        Some(s) => Some(s.clone()),
        None => None,
    }
}

fn copy_opt_members(o: &Option<Members>) -> (r: Option<Members>)
    ensures
        opt_members_view(r) == opt_members_view(*o),
{
    match o {
        Some(m) => Some(Members { items: duplicate_members(&m.items) }),
        None => None,
    }
}

fn members_of(items: Vec<(String, Json)>) -> (m: Members)
    ensures
        m@ == crate::json::members_view(items@),
{
    Members { items }
}

impl VoiceDefaultsRung {
    /// Reads a `VoiceDefaultsRung` out of a document: an object, or an array of the
    /// fields in declaration order.
    pub fn from_json(v: &Json) -> (r: Option<VoiceDefaultsRung>)
        ensures
            r is Some <==> reads_as_rung(v@),
            r matches Some(x) ==> is_rung_of(v@, x),
    {
        let mut keys: Vec<&str> = Vec::new();
        let mut defaults: Vec<bool> = Vec::new();
        keys.push("pipeline");
        defaults.push(true);
        keys.push("pipelineConfig");
        defaults.push(true);
        keys.push("tierOverride");
        defaults.push(true);
        keys.push("logLevel");
        defaults.push(true);
        keys.push("debugTranscriptsEnabled");
        defaults.push(true);
        keys.push("v2ShadowEnabled");
        defaults.push(true);
        keys.push("v2PrimaryEnabled");
        defaults.push(true);
        proof {
            assert(keys_view(keys@) =~= rung_keys());
            assert(defaults@ =~= rung_defaults());
        }
        match read_record(v, &keys, &defaults) {
            Some(doc) => Self::from_fields(&doc),
            None => None,
        }
    }

    /// Reads the record out of the object it stands for.
    fn from_fields(v: &Json) -> (r: Option<VoiceDefaultsRung>)
        ensures
            r is Some <==> reads_as_rung_fields(v@),
            r matches Some(x) ==> is_rung_fields_of(v@, x),
    {
        if !v.is_object() {
            return None;
        }
        let pipeline = match read_opt_str(v, "pipeline") {
            Some(s) => s,
            None => return None,
        };
        let pipeline_config = match read_opt_members(v, "pipelineConfig") {
            Some(Some(items)) => Some(members_of(items)),
            Some(None) => None,
            None => return None,
        };
        let tier_override = match read_opt_str(v, "tierOverride") {
            Some(s) => s,
            None => return None,
        };
        let log_level = match read_opt_str(v, "logLevel") {
            Some(s) => s,
            None => return None,
        };
        let debug_transcripts_enabled = match read_opt_bool(v, "debugTranscriptsEnabled") {
            Some(b) => b,
            None => return None,
        };
        let v2_shadow_enabled = match read_opt_bool(v, "v2ShadowEnabled") {
            Some(b) => b,
            None => return None,
        };
        let v2_primary_enabled = match read_opt_bool(v, "v2PrimaryEnabled") {
            Some(b) => b,
            None => return None,
        };
        Some(
            VoiceDefaultsRung {
                pipeline,
                pipeline_config,
                tier_override,
                log_level,
                debug_transcripts_enabled,
                v2_shadow_enabled,
                v2_primary_enabled,
            },
        )
    }

    /// The rung's document.
    pub fn to_json(&self) -> (r: Json)
        ensures
            r@ == rung_value(*self),
    {
        let mut m = Members::new();
        m.put_opt_string("pipeline", copy_opt_string(&self.pipeline));
        let config = match copy_opt_members(&self.pipeline_config) {
            Some(c) => Some(c.into_json()),
            None => None,
        };
        m.put_opt("pipelineConfig", config);
        m.put_opt_string("tierOverride", copy_opt_string(&self.tier_override));
        m.put_opt_string("logLevel", copy_opt_string(&self.log_level));
        m.put_opt_bool("debugTranscriptsEnabled", self.debug_transcripts_enabled);
        m.put_opt_bool("v2ShadowEnabled", self.v2_shadow_enabled);
        m.put_opt_bool("v2PrimaryEnabled", self.v2_primary_enabled);
        assert(m@ =~= rung_value(*self)->Object_0);
        m.into_json()
    }
}

fn read_opt_rung(v: &Json, key: &str) -> (r: Option<Option<VoiceDefaultsRung>>)
    ensures
        r is Some <==> reads_as_opt_rung(field_opt_doc(v@, key@)),
        r matches Some(x) ==> is_opt_rung_of(field_opt_doc(v@, key@), x),
{
    match read_opt_doc(v, key) {
        Some(x) => match VoiceDefaultsRung::from_json(x) {
            Some(rung) => Some(Some(rung)),
            None => None,
        },
        None => Some(None),
    }
}

fn opt_rung_to_json(o: &Option<VoiceDefaultsRung>) -> (r: Json)
    ensures
        r@ == opt_rung_value(*o),
{
    match o {
        Some(rung) => rung.to_json(),
        None => Json::Null,
    }
}

impl VoiceDefaultsCascade {
    /// Reads a `VoiceDefaultsCascade` out of a document: an object, or an array of the
    /// fields in declaration order.
    pub fn from_json(v: &Json) -> (r: Option<VoiceDefaultsCascade>)
        ensures
            r is Some <==> reads_as_cascade(v@),
            r matches Some(x) ==> is_cascade_of(v@, x),
    {
        let mut keys: Vec<&str> = Vec::new();
        let mut defaults: Vec<bool> = Vec::new();
        keys.push("platform");
        defaults.push(true);
        keys.push("app");
        defaults.push(true);
        keys.push("tenant");
        defaults.push(true);
        keys.push("agent");
        defaults.push(true);
        proof {
            assert(keys_view(keys@) =~= cascade_keys());
            assert(defaults@ =~= cascade_defaults());
        }
        match read_record(v, &keys, &defaults) {
            Some(doc) => Self::from_fields(&doc),
            None => None,
        }
    }

    /// Reads the record out of the object it stands for.
    fn from_fields(v: &Json) -> (r: Option<VoiceDefaultsCascade>)
        ensures
            r is Some <==> reads_as_cascade_fields(v@),
            r matches Some(c) ==> is_cascade_fields_of(v@, c),
    {
        if !v.is_object() {
            return None;
        }
        let platform = match read_opt_rung(v, "platform") {
            Some(x) => x,
            None => return None,
        };
        let app = match read_opt_rung(v, "app") {
            Some(x) => x,
            None => return None,
        };
        let tenant = match read_opt_rung(v, "tenant") {
            Some(x) => x,
            None => return None,
        };
        let agent = match read_opt_rung(v, "agent") {
            Some(x) => x,
            None => return None,
        };
        Some(VoiceDefaultsCascade { platform, app, tenant, agent })
    }

    /// The cascade's document.
    pub fn to_json(&self) -> (r: Json)
        ensures
            r@ == cascade_value(*self),
    {
        let mut m = Members::new();
        m.put("platform", opt_rung_to_json(&self.platform));
        m.put("app", opt_rung_to_json(&self.app));
        m.put("tenant", opt_rung_to_json(&self.tenant));
        m.put("agent", opt_rung_to_json(&self.agent));
        assert(m@ =~= cascade_value(*self)->Object_0);
        m.into_json()
    }
}

impl VoiceEffectiveConfig {
    /// Reads a `VoiceEffectiveConfig` out of a document: an object, or an array of the
    /// fields in declaration order.
    pub fn from_json(v: &Json) -> (r: Option<VoiceEffectiveConfig>)
        ensures
            r is Some <==> reads_as_effective_config(v@),
            r matches Some(x) ==> is_effective_config_of(v@, x),
    {
        let mut keys: Vec<&str> = Vec::new();
        let mut defaults: Vec<bool> = Vec::new();
        keys.push("agentId");
        defaults.push(false);
        keys.push("tenantId");
        defaults.push(false);
        keys.push("pipeline");
        defaults.push(false);
        keys.push("pipelineConfig");
        defaults.push(true);
        keys.push("tierOverride");
        defaults.push(true);
        keys.push("logLevel");
        defaults.push(false);
        keys.push("debugTranscriptsEnabled");
        defaults.push(false);
        keys.push("v2ShadowEnabled");
        defaults.push(false);
        keys.push("v2PrimaryEnabled");
        defaults.push(false);
        keys.push("telephonyProvider");
        defaults.push(true);
        keys.push("providerAccountRef");
        defaults.push(true);
        keys.push("preferredCodec");
        defaults.push(true);
        keys.push("preferredSampleRate");
        defaults.push(true);
        keys.push("hdAudioEnabled");
        defaults.push(true);
        keys.push("webhookPathOverride");
        defaults.push(true);
        keys.push("v2Routed");
        defaults.push(true);
        keys.push("voiceDefaults");
        defaults.push(true);
        keys.push("resolvedAt");
        defaults.push(false);
        keys.push("cascadeVersion");
        defaults.push(false);
        proof {
            assert(keys_view(keys@) =~= effective_config_keys());
            assert(defaults@ =~= effective_config_defaults());
        }
        match read_record(v, &keys, &defaults) {
            Some(doc) => Self::from_fields(&doc),
            None => None,
        }
    }

    /// Reads the record out of the object it stands for.
    fn from_fields(v: &Json) -> (r: Option<VoiceEffectiveConfig>)
        ensures
            r is Some <==> reads_as_effective_config_fields(v@),
            r matches Some(c) ==> is_effective_config_fields_of(v@, c),
    {
        if !v.is_object() {
            return None;
        }
        let agent_id = match read_str(v, "agentId") {
            Some(s) => s,
            None => return None,
        };
        let tenant_id = match read_str(v, "tenantId") {
            Some(s) => s,
            None => return None,
        };
        let pipeline = match read_str(v, "pipeline") {
            Some(s) => s,
            None => return None,
        };
        let pipeline_config = match read_members_or_empty(v, "pipelineConfig") {
            Some(items) => members_of(items),
            None => return None,
        };
        let tier_override = match read_opt_str(v, "tierOverride") {
            Some(s) => s,
            None => return None,
        };
        let log_level = match read_str(v, "logLevel") {
            Some(s) => s,
            None => return None,
        };
        let debug_transcripts_enabled = match read_bool(v, "debugTranscriptsEnabled") {
            Some(b) => b,
            None => return None,
        };
        let v2_shadow_enabled = match read_bool(v, "v2ShadowEnabled") {
            Some(b) => b,
            None => return None,
        };
        let v2_primary_enabled = match read_bool(v, "v2PrimaryEnabled") {
            Some(b) => b,
            None => return None,
        };
        let telephony_provider = match read_opt_str(v, "telephonyProvider") {
            Some(s) => s,
            None => return None,
        };
        let provider_account_ref = match read_opt_str(v, "providerAccountRef") {
            Some(s) => s,
            None => return None,
        };
        let preferred_codec = match read_opt_str(v, "preferredCodec") {
            Some(s) => s,
            None => return None,
        };
        let preferred_sample_rate = match read_opt_i64(v, "preferredSampleRate") {
            Some(n) => n,
            None => return None,
        };
        let hd_audio_enabled = match read_opt_bool(v, "hdAudioEnabled") {
            Some(b) => b,
            None => return None,
        };
        let webhook_path_override = match read_opt_str(v, "webhookPathOverride") {
            Some(s) => s,
            None => return None,
        };
        let v2_routed = match read_opt_bool(v, "v2Routed") {
            Some(b) => b,
            None => return None,
        };
        let voice_defaults = match v.get("voiceDefaults") {
            Some(x) => match VoiceDefaultsCascade::from_json(x) {
                Some(c) => c,
                None => return None,
            },
            None => VoiceDefaultsCascade { platform: None, app: None, tenant: None, agent: None },
        };
        let resolved_at = match read_str(v, "resolvedAt") {
            Some(s) => s,
            None => return None,
        };
        let cascade_version = match read_str(v, "cascadeVersion") {
            Some(s) => s,
            None => return None,
        };
        Some(
            VoiceEffectiveConfig {
                agent_id,
                tenant_id,
                pipeline,
                pipeline_config,
                tier_override,
                log_level,
                debug_transcripts_enabled,
                v2_shadow_enabled,
                v2_primary_enabled,
                telephony_provider,
                provider_account_ref,
                preferred_codec,
                preferred_sample_rate,
                hd_audio_enabled,
                webhook_path_override,
                v2_routed,
                voice_defaults,
                resolved_at,
                cascade_version,
            },
        )
    }

    fn put_head(&self, m: &mut Members)
        ensures
            final(m)@ == old(m)@ + config_head(*self),
    {
        m.put_str("agentId", self.agent_id.as_str());
        m.put_str("tenantId", self.tenant_id.as_str());
        m.put_str("pipeline", self.pipeline.as_str());
        m.put("pipelineConfig", Members { items: duplicate_members(&self.pipeline_config.items) }.into_json());
        m.put_opt_string("tierOverride", copy_opt_string(&self.tier_override));
        m.put_str("logLevel", self.log_level.as_str());
        m.put_bool("debugTranscriptsEnabled", self.debug_transcripts_enabled);
        m.put_bool("v2ShadowEnabled", self.v2_shadow_enabled);
        m.put_bool("v2PrimaryEnabled", self.v2_primary_enabled);
        assert(m@ =~= old(m)@ + config_head(*self));
    }

    fn put_telephony(&self, m: &mut Members)
        ensures
            final(m)@ == old(m)@ + config_telephony(*self),
    {
        m.put_opt_string("telephonyProvider", copy_opt_string(&self.telephony_provider));
        m.put_opt_string("providerAccountRef", copy_opt_string(&self.provider_account_ref));
        m.put_opt_string("preferredCodec", copy_opt_string(&self.preferred_codec));
        let rate = match self.preferred_sample_rate {
            Some(n) => Some(Json::integer(n)),
            None => None,
        };
        m.put_opt("preferredSampleRate", rate);
        m.put_opt_bool("hdAudioEnabled", self.hd_audio_enabled);
        m.put_opt_string("webhookPathOverride", copy_opt_string(&self.webhook_path_override));
        m.put_opt_bool("v2Routed", self.v2_routed);
        assert(m@ =~= old(m)@ + config_telephony(*self));
    }

    /// The configuration's document.
    pub fn to_json(&self) -> (r: Json)
        ensures
            r@ == effective_config_value(*self),
    {
        let mut m = Members::new();
        self.put_head(&mut m);
        self.put_telephony(&mut m);
        m.put("voiceDefaults", self.voice_defaults.to_json());
        m.put_str("resolvedAt", self.resolved_at.as_str());
        m.put_str("cascadeVersion", self.cascade_version.as_str());
        assert(m@ =~= config_head(*self) + config_telephony(*self) + config_tail(*self));
        m.into_json()
    }
}

impl VoicePipeline {
    /// Reads a `VoicePipeline` out of a document: an object, or an array of the
    /// fields in declaration order.
    pub fn from_json(v: &Json) -> (r: Option<VoicePipeline>)
        ensures
            r is Some <==> reads_as_pipeline(v@),
            r matches Some(x) ==> is_pipeline_of(v@, x),
    {
        let mut keys: Vec<&str> = Vec::new();
        let mut defaults: Vec<bool> = Vec::new();
        keys.push("agentId");
        defaults.push(false);
        keys.push("pipeline");
        defaults.push(false);
        keys.push("pipelineConfig");
        defaults.push(true);
        keys.push("resolvedAt");
        defaults.push(false);
        keys.push("cascadeVersion");
        defaults.push(false);
        proof {
            assert(keys_view(keys@) =~= pipeline_keys());
            assert(defaults@ =~= pipeline_defaults());
        }
        match read_record(v, &keys, &defaults) {
            Some(doc) => Self::from_fields(&doc),
            None => None,
        }
    }

    /// Reads the record out of the object it stands for.
    fn from_fields(v: &Json) -> (r: Option<VoicePipeline>)
        ensures
            r is Some <==> reads_as_pipeline_fields(v@),
            r matches Some(p) ==> is_pipeline_fields_of(v@, p),
    {
        if !v.is_object() {
            return None;
        }
        let agent_id = match read_str(v, "agentId") {
            Some(s) => s,
            None => return None,
        };
        let pipeline = match read_str(v, "pipeline") {
            Some(s) => s,
            None => return None,
        };
        let pipeline_config = match read_members_or_empty(v, "pipelineConfig") {
            Some(items) => members_of(items),
            None => return None,
        };
        let resolved_at = match read_str(v, "resolvedAt") {
            Some(s) => s,
            None => return None,
        };
        let cascade_version = match read_str(v, "cascadeVersion") {
            Some(s) => s,
            None => return None,
        };
        Some(VoicePipeline { agent_id, pipeline, pipeline_config, resolved_at, cascade_version })
    }

    /// The pipeline view's document.
    pub fn to_json(&self) -> (r: Json)
        ensures
            r@ == pipeline_value(*self),
    {
        let mut m = Members::new();
        m.put_str("agentId", self.agent_id.as_str());
        m.put_str("pipeline", self.pipeline.as_str());
        m.put("pipelineConfig", Members { items: duplicate_members(&self.pipeline_config.items) }.into_json());
        m.put_str("resolvedAt", self.resolved_at.as_str());
        m.put_str("cascadeVersion", self.cascade_version.as_str());
        assert(m@ =~= pipeline_value(*self)->Object_0);
        m.into_json()
    }
}

} // verus!
