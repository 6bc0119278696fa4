use olympus_sdk::i18n::{ErrorManifest, MessageMap};
use olympus_sdk::json::{Json, JsonNumber};
use olympus_sdk::services::auth::{AppJwksResponse, AppTokenResponse};
use olympus_sdk::services::compliance::{ComplianceService, DramShopEvent, DramShopEventList};
use olympus_sdk::services::consent::{ConsentPrompt, ConsentService};
use olympus_sdk::services::gating::PlanDetails;
use olympus_sdk::services::governance::GovernanceService;
use olympus_sdk::services::i18n::ErrorManifest as ServiceManifest;
use olympus_sdk::services::identity::OlympusIdentity;
use olympus_sdk::services::maps::{DirectionsResponse, GeocodeResponse, ValidateDeliveryZoneResponse};
use olympus_sdk::services::pay::{RoutingConfig, RoutingConfigList};
use olympus_sdk::services::platform::{ExchangeResponse, GraphResponse, OnboardResponse, OnboardStatus};
use olympus_sdk::stamps::{read_utc_time, read_uuid};

fn doc(text: &str) -> Json {
    Json::parse(text).expect("fixture is JSON")
}

#[test]
fn grants_skip_rows_that_do_not_read() {
    let reply = doc(r#"{"grants": [
        {"tenant_id": "t", "app_id": "a", "scope": "s1", "granted_at": "g", "source": "admin"},
        {"tenant_id": "t", "app_id": "a"},
        {"tenant_id": "t", "app_id": "a", "scope": "s2", "granted_at": "g", "source": "user", "user_id": "u"}
    ]}"#);
    let grants = ConsentService.granted_from_response(&reply);
    assert_eq!(grants.len(), 2);
    assert_eq!(grants[0].scope, "s1");
    assert_eq!(grants[1].user_id.as_deref(), Some("u"));
    assert!(ConsentService.granted_from_response(&doc(r#"{"grants": "none"}"#)).is_empty());
}

#[test]
fn consent_prompt_flags_default_to_false() {
    let p = ConsentPrompt::from_json(&doc(r#"{"app_id": "a", "scope": "s", "prompt_text": "t", "prompt_hash": "h", "requires_mfa": true}"#))
        .unwrap();
    assert!(p.requires_mfa);
    assert!(!p.is_destructive);
    assert!(!p.app_may_request);
}

#[test]
fn dram_shop_rules_and_events_read() {
    let reply = doc(r#"{"rules": [
        {"tenant_id": "t", "rule_id": "r1", "jurisdiction_code": "US-TX", "rule_type": "bac_threshold",
         "rule_payload": {"max": 0.08}, "effective_from": "2026-01-01", "created_at": "c"},
        {"rule_id": "broken"}
    ]}"#);
    let rules = ComplianceService.dram_shop_rules_from_response(&reply);
    assert_eq!(rules.len(), 1);
    assert!(rules[0].rule_payload.as_ref().unwrap().is_object());
    assert!(rules[0].effective_until.is_none());

    let positional = doc(r#"{"rules": [
        ["t", "r2", "US-CA", "hours", null, "2026-02-01", null, null, null, "c2"],
        ["t", "r3"],
        ["t", "r4", "US-CA", "hours", null, "2026-02-01", null, null, null, "c2", "extra"]
    ]}"#);
    let rows = ComplianceService.dram_shop_rules_from_response(&positional);
    assert_eq!(rows.len(), 1);
    assert_eq!(rows[0].rule_id, "r2");
    assert_eq!(rows[0].jurisdiction_code, "US-CA");
    assert_eq!(rows[0].effective_from, "2026-02-01");
    assert!(rows[0].rule_payload.is_none());
    assert_eq!(rows[0].created_at, "c2");

    let event = DramShopEvent::from_json(&doc(r#"{"event_id": "e", "tenant_id": "t", "location_id": "l",
        "event_type": "service_refused", "estimated_bac": 0.09, "occurred_at": "o", "created_at": "c"}"#))
    .unwrap();
    assert!(matches!(event.estimated_bac, Some(JsonNumber::Float(ref t)) if t == "0.09"));
    assert!(event.bac_inputs.is_none());
    let page = DramShopEventList::from_json(&doc("{}")).unwrap();
    assert!(page.events.is_empty());
    assert_eq!(page.total_returned, 0);
}

#[test]
fn exceptions_keep_risk_score_and_requested_value() {
    let reply = doc(r#"{"exceptions": [{"exception_id": "x", "app_id": "a", "policy_key": "k",
        "requested_value": 5, "justification": "j", "risk_tier": "low", "risk_score": 12,
        "risk_rationale": "r", "status": "pending", "expires_at": "e", "created_at": "c", "updated_at": "u"}]}"#);
    let ex = GovernanceService.exceptions_from_response(&reply);
    assert_eq!(ex.len(), 1);
    assert!(matches!(ex[0].risk_score, JsonNumber::PosInt(12)));
    assert!(matches!(ex[0].requested_value, Json::Number(JsonNumber::PosInt(5))));
    assert!(ex[0].tenant_id.is_none());
}

#[test]
fn routing_is_active_unless_it_says_otherwise() {
    let r = RoutingConfig::from_json(&doc(r#"{"location_id": "l", "preferred_processor": "stripe"}"#)).unwrap();
    assert!(r.is_active);
    assert_eq!(r.tenant_id, "");
    assert!(r.fallback_processors.is_empty());
    let off = RoutingConfig::from_json(&doc(r#"{"location_id": "l", "preferred_processor": "p", "is_active": false}"#)).unwrap();
    assert!(!off.is_active);
    let page = RoutingConfigList::from_json(&doc(r#"{"configs": [{"location_id": "l", "preferred_processor": "p"}], "total_returned": 1}"#))
        .unwrap();
    assert_eq!(page.configs.len(), 1);
    assert_eq!(page.total_returned, 1);
    assert!(RoutingConfigList::from_json(&doc(r#"{"total_returned": 4294967296}"#)).is_none());
}

#[test]
fn app_tokens_and_key_set_read() {
    let t = AppTokenResponse::from_json(&doc(r#"{"access_token": "a", "refresh_token": "r", "expires_in": 900, "token_type": "App-JWT"}"#))
        .unwrap();
    assert_eq!(t.expires_in, 900);
    let keys = AppJwksResponse::from_json(&doc(r#"{"keys": [{"kty": "OKP", "crv": "Ed25519", "x": "abc", "alg": "EdDSA", "use": "sig", "kid": "k1"}]}"#))
        .unwrap();
    assert_eq!(keys.keys[0].use_, "sig");
    assert!(keys.keys[0].status.is_none());
    assert!(AppJwksResponse::from_json(&doc("{}")).is_none());
}

#[test]
fn maps_replies_read() {
    let g = GeocodeResponse::from_json(&doc(r#"{"formatted": "1 Main St", "lat": 30.25, "lng": -97}"#)).unwrap();
    assert!(matches!(g.lat, JsonNumber::Float(ref t) if t == "30.25"));
    assert!(matches!(g.lng, JsonNumber::NegInt(-97)));
    assert!(g.place_id.is_none());
    let d = DirectionsResponse::from_json(&doc(r#"{"distance_text": "1 km", "distance_meters": 1000, "duration_text": "3 min",
        "duration_seconds": 180, "start_address": "a", "end_address": "b"}"#))
    .unwrap();
    assert!(d.steps.is_empty());
    let z = ValidateDeliveryZoneResponse::from_json(&doc(r#"{"in_zone": true, "lat": 1, "lng": 2, "eta_minutes": 25, "delivery_fee_cents": 499}"#))
        .unwrap();
    assert_eq!(z.eta_minutes, Some(25));
    assert_eq!(z.delivery_fee_cents, Some(499));
    assert!(ValidateDeliveryZoneResponse::from_json(&doc(r#"{"in_zone": true, "lat": 1, "lng": 2, "eta_minutes": 3000000000}"#)).is_none());
}

#[test]
fn plan_details_need_features_and_limits() {
    let p = PlanDetails::from_json(&doc(r#"{"current_plan": "pro", "as_of": "now", "plans": [
        {"tier_id": "pro", "display_name": "Pro", "monthly_price_usd": 49.5, "features": {}, "usage_limits": {}, "is_current": true},
        {"tier_id": "ent", "display_name": "Enterprise", "monthly_price_usd": null, "features": [], "usage_limits": null, "contact_sales": true}
    ]}"#))
    .unwrap();
    assert_eq!(p.plans.len(), 2);
    assert!(p.plans[0].is_current);
    assert!(p.plans[1].monthly_price_usd.is_none());
    assert!(p.plans[1].contact_sales);
    assert!(PlanDetails::from_json(&doc(r#"{"as_of": "now", "plans": [{"tier_id": "x", "display_name": "X"}]}"#)).is_none());
}

#[test]
fn identity_keeps_preferences() {
    let i = OlympusIdentity::from_json(&doc(r#"{"id": "i", "firebase_uid": "f", "global_preferences": {"theme": "dark"},
        "created_at": "c", "updated_at": "u"}"#))
    .unwrap();
    assert_eq!(i.global_preferences.unwrap().items.len(), 1);
    assert!(i.email.is_none());
}

#[test]
fn onboarding_status_reads_by_wire_name() {
    let o = OnboardResponse::from_json(&doc(r#"{"app_id": "a", "status": "already_onboarded", "api_key": "k",
        "api_key_prefix": "p", "api_key_id": "i", "signing_key_seed_event_published": false, "validator_warnings": [{"w": 1}]}"#))
    .unwrap();
    assert_eq!(o.status, OnboardStatus::AlreadyOnboarded);
    assert_eq!(o.validator_warnings.len(), 1);
    assert!(o.cors_origins_pending.is_empty());
    assert!(OnboardResponse::from_json(&doc(r#"{"app_id": "a", "status": "done", "api_key": "k",
        "api_key_prefix": "p", "api_key_id": "i", "signing_key_seed_event_published": false}"#))
    .is_none());
}

#[test]
fn mint_ticket_reads_uuids() {
    let e = ExchangeResponse::from_json(&doc(r#"{"expires_in": 300, "mint_ticket": {"app_id": "a",
        "tenant_id": "550e8400-e29b-41d4-a716-446655440000", "user_id": "{550e8400-e29b-41d4-a716-446655440000}",
        "granted_scopes": ["s"], "issued_at": 1, "exp": 301, "nonce": "n"}}"#))
    .unwrap();
    assert_eq!(e.mint_ticket.tenant_id, 0x550e8400e29b41d4a716446655440000u128);
    assert_eq!(e.mint_ticket.user_id, e.mint_ticket.tenant_id);
    assert_eq!(e.expires_in, 300);
    assert!(read_uuid(&doc(r#"{"id": "not-a-uuid"}"#), "id").is_none());
    assert_eq!(read_uuid(&doc(r#"{"id": "550e8400e29b41d4a716446655440000"}"#), "id"), Some(0x550e8400e29b41d4a716446655440000u128));
}

#[test]
fn uuid_text_forms() {
    let v = Some(0x550e8400e29b41d4a716446655440000u128);
    let read = |t: &str| read_uuid(&doc(&format!(r#"{{"id": "{}"}}"#, t)), "id");
    assert_eq!(read("550E8400-E29B-41D4-A716-446655440000"), v);
    assert_eq!(read("UrN:uUiD:550e8400-e29b-41d4-a716-446655440000"), v);
    assert_eq!(read("{550e8400e29b41d4a716446655440000}"), None);
    assert_eq!(read("550e8400-e29b41d4-a716-4466554400000"), None);
    assert_eq!(read("550e8400-e29b-41d4-a716-44665544000g"), None);
    assert_eq!(read("urn:uuid:550e8400e29b41d4a716446655440000"), None);
    assert!(matches!(read_uuid(&doc(r#"{"id": 5}"#), "id"), None));
}

#[test]
fn instants_read_in_utc() {
    let t = read_utc_time(&doc(r#"{"at": "2026-04-18T01:31:52Z"}"#), "at").unwrap();
    assert_eq!((t.secs, t.nanos), (1776475912, 0));
    let shifted = read_utc_time(&doc(r#"{"at": "2026-04-18T03:31:52.5+02:00"}"#), "at").unwrap();
    assert_eq!((shifted.secs, shifted.nanos), (1776475912, 500_000_000));
    assert!(read_utc_time(&doc(r#"{"at": "yesterday"}"#), "at").is_none());
}

#[test]
fn grant_graph_reads() {
    let g = GraphResponse::from_json(&doc(r#"{"signature_hex": "ab", "canonical_json": "{}", "snapshot": {
        "captured_at": "2026-04-17T00:00:00Z", "tenants": [{"tenant_id": "t"}], "apps": [{"app_id": "a"}],
        "granted_edges": [{"tenant_id": "t", "app_id": "a", "source_app_id": "", "active_scope_count": 2,
            "last_granted_at": "2026-04-17T00:00:00Z", "first_granted_at": "2026-04-17T00:00:00Z", "weight": 2.5}],
        "requires_edges": [], "total_active_grants": 2}}"#))
    .unwrap();
    assert_eq!(g.snapshot.captured_at.secs, 1776384000);
    assert_eq!(g.snapshot.granted_edges[0].active_scope_count, 2);
    assert_eq!(g.snapshot.tenants[0].tenant_id, "t");
    assert!(GraphResponse::from_json(&doc(r#"{"signature_hex": "ab", "canonical_json": "{}", "snapshot": {
        "captured_at": "not a time", "tenants": [], "apps": [], "granted_edges": [], "requires_edges": [], "total_active_grants": 0}}"#))
    .is_none());
}

#[test]
fn manifests_read_strictly_and_leniently() {
    let text = r#"{"version": "1.0", "locales": ["en", "es"], "errors": [
        {"code": "NOT_FOUND", "messages": {"en": "Not found", "es": "No encontrado"}}]}"#;
    let strict = ErrorManifest::from_json(&doc(text)).unwrap();
    assert_eq!(strict.errors.len(), 1);
    assert_eq!(strict.errors[0].messages.get("es").map(String::as_str), Some("No encontrado"));
    assert!(ErrorManifest::from_json(&doc(r#"{"locales": [], "errors": []}"#)).is_none());
    let lenient = ServiceManifest::from_json(&doc(r#"{"errors": [{"code": "X"}]}"#)).unwrap();
    assert_eq!(lenient.version, "1.0");
    assert!(lenient.locales.is_empty());
    assert!(lenient.errors[0].messages.get("en").is_none());
    assert!(MessageMap::from_json(&doc(r#"{"en": 1}"#)).is_none());
}
