use olympus_sdk::apps::{AppInstall, AppManifest, PendingInstall, PendingInstallDetail};
use olympus_sdk::identity::{InviteHandle, InviteStatus, RemoveFromTenantResponse};
use olympus_sdk::json::Json;
use olympus_sdk::services::connect::CreateLeadResponse;
use olympus_sdk::services::voice::{VoiceDefaultsRung, VoiceEffectiveConfig, VoicePipeline};
use olympus_sdk::tenant::{AppInstall as TenantAppInstall, Tenant, TenantOption, TenantProvisionResult};

fn doc(text: &str) -> Json {
    Json::parse(text).expect("fixture is JSON")
}

// Canonical resolver response for one agent.
const EFFECTIVE_CONFIG_FIXTURE: &str = r#"{
    "agentId": "41f239da-c492-5fe6-9334-7bbc47804a36",
    "tenantId": "550e8400-e29b-41d4-a716-446655449100",
    "pipeline": "olympus_native",
    "pipelineConfig": {
        "defaultLogLevel": "INFO",
        "tenantSeededAt": "2026-04-17-V2-005-fix-verification"
    },
    "tierOverride": "T3",
    "logLevel": "INFO",
    "debugTranscriptsEnabled": false,
    "v2ShadowEnabled": false,
    "v2PrimaryEnabled": false,
    "telephonyProvider": "telnyx",
    "providerAccountRef": "telnyx-dev-acct-v2-005-test",
    "preferredCodec": "opus",
    "preferredSampleRate": 48000,
    "hdAudioEnabled": true,
    "webhookPathOverride": "/v2/voice/inbound",
    "v2Routed": true,
    "voiceDefaults": {
        "platform": null,
        "app": null,
        "tenant": {
            "pipelineConfig": {
                "defaultLogLevel": "INFO",
                "tenantSeededAt": "2026-04-17-V2-005-fix-verification"
            },
            "tierOverride": "T3"
        },
        "agent": {
            "pipeline": "olympus_native",
            "pipelineConfig": {},
            "tierOverride": null,
            "logLevel": "INFO",
            "debugTranscriptsEnabled": false,
            "v2ShadowEnabled": false,
            "v2PrimaryEnabled": false
        }
    },
    "resolvedAt": "2026-04-18T01:31:52.064682+00:00",
    "cascadeVersion": "v2.1-rename"
}"#;

const PIPELINE_FIXTURE: &str = r#"{
    "agentId": "41f239da-c492-5fe6-9334-7bbc47804a36",
    "pipeline": "olympus_native",
    "pipelineConfig": {
        "defaultLogLevel": "INFO",
        "tenantSeededAt": "2026-04-17-V2-005-fix-verification"
    },
    "resolvedAt": "2026-04-18T01:32:52.722382+00:00",
    "cascadeVersion": "v2.1-rename"
}"#;

#[test]
fn pending_install_deserializes() {
    let value = doc(r#"{
        "pending_install_id": "7a3b...-uuid",
        "consent_url": "https://platform.olympuscloud.ai/apps/consent/7a3b...-uuid",
        "expires_at": "2026-04-21T00:10:00Z"
    }"#);
    let p = PendingInstall::from_json(&value).unwrap();
    assert_eq!(p.pending_install_id, "7a3b...-uuid");
    assert_eq!(p.expires_at, "2026-04-21T00:10:00Z");
}

#[test]
fn pending_install_detail_with_manifest_deserializes() {
    let value = doc(r#"{
        "id": "p1",
        "app_id": "com.pizzaos",
        "tenant_id": "t_pizza",
        "requested_scopes": ["a.read", "b.write"],
        "return_to": "https://pizza.shop/done",
        "status": "pending",
        "expires_at": "2026-04-21T00:10:00Z",
        "manifest": {
            "app_id": "com.pizzaos",
            "version": "1.0.0",
            "name": "PizzaOS",
            "publisher": "NëbusAI",
            "scopes_required": ["a.read"],
            "scopes_optional": ["b.write"]
        }
    }"#);
    let detail = PendingInstallDetail::from_json(&value).unwrap();
    assert_eq!(detail.status, "pending");
    let manifest = detail.manifest.expect("manifest eager-loaded");
    assert_eq!(manifest.name, "PizzaOS");
    assert_eq!(manifest.scopes_required, vec!["a.read".to_string()]);
}

#[test]
fn app_install_deserializes_with_defaults() {
    // status/installed_by/scopes_granted absent → defaults hold.
    let value = doc(r#"{
        "tenant_id": "t1",
        "app_id": "com.pizzaos",
        "installed_at": "2026-04-21T00:00:00Z"
    }"#);
    let a = AppInstall::from_json(&value).unwrap();
    assert_eq!(a.status, "");
    assert!(a.scopes_granted.is_empty());
    assert_eq!(a.installed_by, "");
}

#[test]
fn app_manifest_deserializes_without_optional_urls() {
    let value = doc(r#"{
        "app_id": "com.barOS",
        "version": "0.9.0",
        "name": "BarOS",
        "publisher": "NëbusAI",
        "scopes_required": [],
        "scopes_optional": []
    }"#);
    let m = AppManifest::from_json(&value).unwrap();
    assert!(m.logo_url.is_none());
    assert!(m.privacy_url.is_none());
    assert!(m.tos_url.is_none());
}

#[test]
fn invite_handle_without_token_deserializes() {
    let value = doc(r#"{
        "id": "inv_1",
        "email": "a@b.co",
        "role": "manager",
        "tenant_id": "t_1",
        "expires_at": "2026-05-01T00:00:00Z",
        "status": "pending",
        "created_at": "2026-04-20T00:00:00Z"
    }"#);
    let h = InviteHandle::from_json(&value).unwrap();
    assert!(h.token.is_none());
    assert_eq!(h.status, InviteStatus::Pending);
}

#[test]
fn create_lead_response_deserializes_snake_case() {
    let raw = r#"{
        "lead_id": "lead-xyz",
        "status": "created",
        "created_at": "2026-04-18T03:00:00Z"
    }"#;
    let resp = CreateLeadResponse::from_json(&doc(raw)).expect("deserialize");
    assert_eq!(resp.lead_id, "lead-xyz");
    assert_eq!(resp.status, "created");
}

#[test]
fn create_lead_response_deserializes_camel_case_alias() {
    let raw = r#"{
        "leadId": "lead-abc",
        "status": "deduped",
        "createdAt": "2026-04-18T00:00:00Z"
    }"#;
    let resp = CreateLeadResponse::from_json(&doc(raw)).expect("deserialize");
    assert_eq!(resp.lead_id, "lead-abc");
    assert_eq!(resp.status, "deduped");
}

#[test]
fn tenant_option_deserializes_with_optional_role() {
    let value = doc(r#"{
        "tenant_id": "t1",
        "slug": "t-one",
        "name": "Tenant One"
    }"#);
    let opt = TenantOption::from_json(&value).unwrap();
    assert_eq!(opt.slug, "t-one");
    assert!(opt.role.is_none());
}

#[test]
fn parses_canonical_effective_config() {
    let cfg = VoiceEffectiveConfig::from_json(&doc(EFFECTIVE_CONFIG_FIXTURE)).expect("deserialize");
    assert_eq!(cfg.agent_id, "41f239da-c492-5fe6-9334-7bbc47804a36");
    assert_eq!(cfg.tenant_id, "550e8400-e29b-41d4-a716-446655449100");
    assert_eq!(cfg.pipeline, "olympus_native");
    assert_eq!(cfg.tier_override.as_deref(), Some("T3"));
    assert_eq!(cfg.log_level, "INFO");
    assert_eq!(cfg.telephony_provider.as_deref(), Some("telnyx"));
    assert_eq!(cfg.preferred_sample_rate, Some(48000));
    assert_eq!(cfg.hd_audio_enabled, Some(true));
    assert_eq!(cfg.v2_routed, Some(true));
    assert_eq!(cfg.cascade_version, "v2.1-rename");
}

#[test]
fn parses_cascade_rungs() {
    let cfg = VoiceEffectiveConfig::from_json(&doc(EFFECTIVE_CONFIG_FIXTURE)).expect("deserialize");
    assert!(cfg.voice_defaults.platform.is_none());
    assert!(cfg.voice_defaults.app.is_none());
    let tenant = cfg.voice_defaults.tenant.expect("tenant present");
    assert_eq!(tenant.tier_override.as_deref(), Some("T3"));
    let agent = cfg.voice_defaults.agent.expect("agent present");
    assert_eq!(agent.pipeline.as_deref(), Some("olympus_native"));
    assert_eq!(agent.debug_transcripts_enabled, Some(false));
}

#[test]
fn tolerates_missing_optional_telephony() {
    let minimal = r#"{
        "agentId": "a",
        "tenantId": "t",
        "pipeline": "olympus_native",
        "pipelineConfig": {},
        "logLevel": "INFO",
        "debugTranscriptsEnabled": false,
        "v2ShadowEnabled": false,
        "v2PrimaryEnabled": false,
        "voiceDefaults": {},
        "resolvedAt": "2026-04-18T00:00:00Z",
        "cascadeVersion": "v2.1-rename"
    }"#;
    let cfg = VoiceEffectiveConfig::from_json(&doc(minimal)).expect("deserialize");
    assert!(cfg.telephony_provider.is_none());
    assert!(cfg.preferred_codec.is_none());
    assert!(cfg.voice_defaults.platform.is_none());
}

#[test]
fn parses_canonical_pipeline() {
    let p = VoicePipeline::from_json(&doc(PIPELINE_FIXTURE)).expect("deserialize");
    assert_eq!(p.agent_id, "41f239da-c492-5fe6-9334-7bbc47804a36");
    assert_eq!(p.pipeline, "olympus_native");
    assert_eq!(p.cascade_version, "v2.1-rename");
}

#[test]
fn effective_config_roundtrips() {
    let cfg = VoiceEffectiveConfig::from_json(&doc(EFFECTIVE_CONFIG_FIXTURE)).expect("deserialize");
    let v = cfg.to_json();
    let back = VoiceEffectiveConfig::from_json(&v).expect("round-trip");
    assert_eq!(back.agent_id, cfg.agent_id);
    assert_eq!(back.cascade_version, cfg.cascade_version);
    assert_eq!(back.voice_defaults.tenant.map(|r| r.tier_override), Some(Some("T3".to_string())));
}

// ---------------------------------------------------------------------------
// Beyond the wire fixtures
// ---------------------------------------------------------------------------

#[test]
fn missing_required_field_is_unreadable() {
    let value = doc(r#"{"pending_install_id": "p", "consent_url": "u"}"#);
    assert!(PendingInstall::from_json(&value).is_none());
}

#[test]
fn wrongly_typed_field_is_unreadable() {
    let value = doc(r#"{"pending_install_id": 7, "consent_url": "u", "expires_at": "e"}"#);
    assert!(PendingInstall::from_json(&value).is_none());
    let manifest = doc(r#"{"app_id": "a", "version": "1", "name": "n", "publisher": "p", "scopes_required": ["x", 1]}"#);
    assert!(AppManifest::from_json(&manifest).is_none());
}

#[test]
fn non_record_is_unreadable() {
    assert!(VoiceDefaultsRung::from_json(&doc(r#""rung""#)).is_none());
    assert!(PendingInstall::from_json(&doc("7")).is_none());
}

#[test]
fn record_reads_from_an_array_of_its_fields() {
    let p = PendingInstall::from_json(&doc(r#"["p", "u", "e"]"#)).unwrap();
    assert_eq!(p.pending_install_id, "p");
    assert_eq!(p.consent_url, "u");
    assert_eq!(p.expires_at, "e");
    // One value too many, or a required field left out.
    assert!(PendingInstall::from_json(&doc(r#"["p", "u", "e", "x"]"#)).is_none());
    assert!(PendingInstall::from_json(&doc(r#"["p", "u"]"#)).is_none());
    // Trailing defaulted fields may be left out.
    let a = AppInstall::from_json(&doc(r#"["t", "a", "i"]"#)).unwrap();
    assert_eq!(a.installed_by, "");
    assert!(a.scopes_granted.is_empty());
    assert_eq!(a.status, "");
    // The values are read as they would be under their keys.
    assert!(AppInstall::from_json(&doc(r#"["t", 5, "i"]"#)).is_none());
    let o = TenantOption::from_json(&doc(r#"["t1", "s", "n"]"#)).unwrap();
    assert!(o.role.is_none());
    assert!(TenantAppInstall::from_json(&doc(r#"["a", "active"]"#)).is_none());
    assert_eq!(TenantAppInstall::from_json(&doc(r#"["a", "active", "i"]"#)).unwrap().installed_at, "i");
    let rung = VoiceDefaultsRung::from_json(&doc("[]")).unwrap();
    assert!(rung.pipeline.is_none());
}

#[test]
fn null_optional_reads_as_none_but_null_default_string_does_not() {
    let with_null = doc(r#"{"tenant_id": "t1", "slug": "s", "name": "n", "role": null}"#);
    assert!(TenantOption::from_json(&with_null).unwrap().role.is_none());
    let null_status = doc(r#"{"tenant_id": "t", "app_id": "a", "installed_at": "i", "status": null}"#);
    assert!(AppInstall::from_json(&null_status).is_none());
}

#[test]
fn null_manifest_reads_as_none() {
    let value = doc(r#"{"id": "p1", "app_id": "a", "tenant_id": "t", "expires_at": "e", "manifest": null}"#);
    let d = PendingInstallDetail::from_json(&value).unwrap();
    assert!(d.manifest.is_none());
    assert!(d.requested_scopes.is_empty());
    assert_eq!(d.return_to, "");
}

#[test]
fn invite_with_unknown_status_is_unreadable() {
    let value = doc(r#"{
        "id": "inv_1", "email": "a@b.co", "role": "manager", "tenant_id": "t_1",
        "expires_at": "x", "status": "lost", "created_at": "y"
    }"#);
    assert!(InviteHandle::from_json(&value).is_none());
}

#[test]
fn invite_status_may_come_as_a_one_member_object() {
    let with = |status: &str| {
        doc(&format!(
            r#"{{"id": "inv_1", "email": "a@b.co", "role": "manager", "tenant_id": "t_1",
                "expires_at": "x", "status": {}, "created_at": "y"}}"#,
            status
        ))
    };
    let h = InviteHandle::from_json(&with(r#"{"expired": null}"#)).unwrap();
    assert_eq!(h.status, InviteStatus::Expired);
    assert!(InviteHandle::from_json(&with(r#"{"expired": 1}"#)).is_none());
    assert!(InviteHandle::from_json(&with(r#"{"expired": null, "pending": null}"#)).is_none());
    assert!(InviteHandle::from_json(&with("7")).is_none());
}

#[test]
fn invite_list_reads_every_item() {
    let value = doc(r#"[
        {"id": "i1", "token": "tok", "email": "a@b.co", "role": "r", "tenant_id": "t",
         "expires_at": "x", "status": "accepted", "created_at": "y", "accepted_at": "z"},
        {"id": "i2", "email": "c@d.co", "role": "r", "tenant_id": "t",
         "expires_at": "x", "status": "revoked", "created_at": "y"}
    ]"#);
    let list = InviteHandle::list_from_json(&value).unwrap();
    assert_eq!(list.len(), 2);
    assert_eq!(list[0].token.as_deref(), Some("tok"));
    assert_eq!(list[0].status, InviteStatus::Accepted);
    assert_eq!(list[1].status, InviteStatus::Revoked);
    let broken = doc(r#"[{"id": "i1"}]"#);
    assert!(InviteHandle::list_from_json(&broken).is_none());
    assert!(InviteHandle::list_from_json(&doc("{}")).is_none());
}

#[test]
fn app_install_and_tenant_option_lists() {
    let installs = doc(r#"[{"tenant_id": "t", "app_id": "a", "installed_at": "i", "scopes_granted": ["s"]}]"#);
    let l = AppInstall::list_from_json(&installs).unwrap();
    assert_eq!(l[0].scopes_granted, vec!["s".to_string()]);
    let tenants = doc(r#"[{"tenant_id": "t1", "slug": "a", "name": "A", "role": "owner"}, {"tenant_id": "t2", "slug": "b", "name": "B"}]"#);
    let t = TenantOption::list_from_json(&tenants).unwrap();
    assert_eq!(t.len(), 2);
    assert_eq!(t[0].role.as_deref(), Some("owner"));
    assert!(TenantOption::list_from_json(&doc("[]")).unwrap().is_empty());
}

#[test]
fn lead_id_under_both_names_is_unreadable() {
    let raw = r#"{"lead_id": "a", "leadId": "b", "status": "created", "created_at": "t"}"#;
    assert!(CreateLeadResponse::from_json(&doc(raw)).is_none());
}

#[test]
fn removal_record_and_provisioned_app_read() {
    let r = RemoveFromTenantResponse::from_json(&doc(r#"{"tenant_id": "t", "user_id": "u", "removed_at": "w"}"#)).unwrap();
    assert_eq!(r.user_id, "u");
    let a = TenantAppInstall::from_json(&doc(r#"{"app_id": "a", "status": "active", "installed_at": "i"}"#)).unwrap();
    assert_eq!(a.status, "active");
    assert!(TenantAppInstall::from_json(&doc(r#"{"app_id": "a", "installed_at": "i"}"#)).is_none());
}

#[test]
fn sample_rate_must_be_an_integer_in_range() {
    let base = |rate: &str| {
        format!(
            r#"{{"agentId": "a", "tenantId": "t", "pipeline": "p", "logLevel": "INFO",
                "debugTranscriptsEnabled": false, "v2ShadowEnabled": false, "v2PrimaryEnabled": false,
                "preferredSampleRate": {rate}, "resolvedAt": "r", "cascadeVersion": "c"}}"#
        )
    };
    let neg = VoiceEffectiveConfig::from_json(&doc(&base("-1"))).unwrap();
    assert_eq!(neg.preferred_sample_rate, Some(-1));
    assert!(VoiceEffectiveConfig::from_json(&doc(&base("16000.5"))).is_none());
    assert!(VoiceEffectiveConfig::from_json(&doc(&base("18446744073709551615"))).is_none());
    let absent_defaults = VoiceEffectiveConfig::from_json(&doc(&base("null"))).unwrap();
    assert!(absent_defaults.preferred_sample_rate.is_none());
    assert!(absent_defaults.voice_defaults.agent.is_none());
    assert!(absent_defaults.pipeline_config.items.is_empty());
}

#[test]
fn rung_and_pipeline_round_trip() {
    let rung = VoiceDefaultsRung::from_json(&doc(r#"{"pipeline": "p", "pipelineConfig": {"k": 1}, "v2ShadowEnabled": true}"#))
        .unwrap();
    let back = VoiceDefaultsRung::from_json(&rung.to_json()).unwrap();
    assert_eq!(back.pipeline.as_deref(), Some("p"));
    assert_eq!(back.v2_shadow_enabled, Some(true));
    assert!(back.log_level.is_none());
    assert_eq!(back.pipeline_config.unwrap().items.len(), 1);
    let p = VoicePipeline::from_json(&doc(PIPELINE_FIXTURE)).unwrap();
    let again = VoicePipeline::from_json(&p.to_json()).unwrap();
    assert_eq!(again.resolved_at, p.resolved_at);
    assert_eq!(again.pipeline_config.items.len(), 2);
}

#[test]
fn tenant_record_reads_with_defaults() {
    let t = Tenant::from_json(&doc(r#"{"id": "t1", "slug": "one", "name": "One", "settings": {"a": 1}, "tags": ["x"]}"#))
        .unwrap();
    assert_eq!(t.slug, "one");
    assert_eq!(t.industry, "");
    assert!(!t.is_active);
    assert!(t.settings.is_object());
    assert!(matches!(t.features, Json::Null));
    assert_eq!(t.tags, vec!["x".to_string()]);
    assert!(t.retired_at.is_none());
    assert!(Tenant::from_json(&doc(r#"{"id": "t1", "slug": "one", "name": "One", "is_active": "yes"}"#)).is_none());
}

#[test]
fn provision_result_reads_nested_records() {
    let r = TenantProvisionResult::from_json(&doc(r#"{
        "tenant": {"id": "t1", "slug": "one", "name": "One", "is_active": true},
        "admin_user_id": "u1",
        "session": {"access_token": "a", "refresh_token": "r"},
        "installed_apps": [{"app_id": "com.pizzaos", "status": "active", "installed_at": "now"}],
        "idempotent": true
    }"#))
    .unwrap();
    assert!(r.tenant.is_active);
    assert_eq!(r.session.access_token.as_deref(), Some("a"));
    assert!(r.session.access_expires_at.is_none());
    assert_eq!(r.installed_apps.len(), 1);
    assert!(r.idempotent);
    let minimal = TenantProvisionResult::from_json(&doc(r#"{"tenant": {"id": "t", "slug": "s", "name": "n"}}"#)).unwrap();
    assert_eq!(minimal.admin_user_id, "");
    assert!(minimal.installed_apps.is_empty());
    assert!(!minimal.idempotent);
    assert!(TenantProvisionResult::from_json(&doc(r#"{"admin_user_id": "u"}"#)).is_none());
    assert!(TenantProvisionResult::from_json(&doc(r#"{"tenant": {"id": "t", "slug": "s", "name": "n"}, "session": null}"#)).is_none());
}
