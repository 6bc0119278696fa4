use olympus_sdk::apps::{AppInstallRequest, AppsApi};
use olympus_sdk::http::{ApiRequest, HttpMethod, RequestBody};
use olympus_sdk::identity::{IdentityApi, InviteCreateRequest, InviteStatus};
use olympus_sdk::json::{Json, Members};
use olympus_sdk::services::ai::{AiService, GenerateVideoOptions, QueryOptions};
use olympus_sdk::services::auth::{AssignRolesRequest, AuthService, MintAppTokenRequest, RefreshAppTokenRequest};
use olympus_sdk::services::connect::{ConnectService, CreateLeadRequest, UTM};
use olympus_sdk::services::consent::{ConsentService, Holder};
use olympus_sdk::services::ethical_ai::EthicalAiService;
use olympus_sdk::services::governance::GovernanceService;
use olympus_sdk::services::pay::{default_true, ConfigureRoutingParams, ListRoutingParams, PayService};
use olympus_sdk::services::voice::{replace_first_of, 
    CreateAgentRequest, ListCallerProfilesOptions, PageOptions, UploadAmbianceBedRequest, VoiceService,
};
use olympus_sdk::services::voice_orders::VoiceOrdersService;
use olympus_sdk::tenant::{parse_token_response, TenantApi, TenantCreateRequest, TenantFirstAdmin};
use olympus_sdk::OlympusError;

fn body(r: &ApiRequest) -> &Json {
    match &r.body {
        RequestBody::Json(j) => j,
        _ => panic!("json body expected"),
    }
}

fn text<'a>(j: &'a Json, key: &str) -> Option<&'a str> {
    j.get(key).and_then(Json::as_str)
}

fn keys(j: &Json) -> Vec<String> {
    match j {
        Json::Object(ms) => ms.iter().map(|(k, _)| k.clone()).collect(),
        _ => panic!("object expected"),
    }
}

fn obj(pairs: Vec<(&str, Json)>) -> Json {
    Json::Object(pairs.into_iter().map(|(k, v)| (k.to_string(), v)).collect())
}

fn s(v: &str) -> Json {
    Json::Str(v.to_string())
}

// ---------------------------------------------------------------------------
// Request bodies: field names, order and omitted fields on the wire
// ---------------------------------------------------------------------------

#[test]
fn app_install_request_serializes_snake_case_and_skips_none() {
    let req = AppInstallRequest {
        app_id: "com.pizzaos".into(),
        scopes: vec!["commerce.orders.read".into()],
        return_to: "https://pizza.shop/settings".into(),
        idempotency_key: None,
    };
    let r = AppsApi.install(req);
    let v = body(&r);
    assert_eq!(text(v, "app_id"), Some("com.pizzaos"));
    match v.get("scopes") {
        Some(Json::Array(items)) => assert_eq!(items[0].as_str(), Some("commerce.orders.read")),
        _ => panic!("scopes expected"),
    }
    assert_eq!(text(v, "return_to"), Some("https://pizza.shop/settings"));
    assert!(v.get("idempotency_key").is_none());
}

#[test]
fn app_install_request_skips_empty_scopes() {
    let req = AppInstallRequest {
        app_id: "com.barOS".into(),
        scopes: vec![],
        return_to: "https://bar.shop/x".into(),
        idempotency_key: Some("idem-1".into()),
    };
    let r = AppsApi.install(req);
    let v = body(&r);
    assert!(v.get("scopes").is_none());
    assert_eq!(text(v, "idempotency_key"), Some("idem-1"));
}

#[test]
fn invite_status_serializes_lowercase() {
    assert_eq!(InviteStatus::Pending.as_str(), "pending");
    assert_eq!(InviteStatus::Accepted.as_str(), "accepted");
    assert_eq!(InviteStatus::Revoked.as_str(), "revoked");
    assert_eq!(InviteStatus::Expired.as_str(), "expired");
}

#[test]
fn invite_status_deserializes_lowercase() {
    let s = InviteStatus::from_name("pending").unwrap();
    assert_eq!(s, InviteStatus::Pending);
    assert_eq!(InviteStatus::from_name("Pending"), None);
}

#[test]
fn invite_create_request_skips_none_fields() {
    let req = InviteCreateRequest {
        email: "a@b.co".into(),
        role: "manager".into(),
        location_id: None,
        message: None,
        ttl_seconds: None,
    };
    let r = IdentityApi.invite(req);
    let json = body(&r);
    assert_eq!(text(json, "email"), Some("a@b.co"));
    assert_eq!(text(json, "role"), Some("manager"));
    assert!(json.get("location_id").is_none());
    assert!(json.get("message").is_none());
    assert!(json.get("ttl_seconds").is_none());
}

#[test]
fn create_lead_request_serializes_without_empty_optionals() {
    let req = CreateLeadRequest {
        email: "scott@example.com".into(),
        name: Some("Scott".into()),
        utm: Some(UTM {
            source: Some("twitter".into()),
            campaign: Some("spring-launch".into()),
            ..Default::default()
        }),
        ..Default::default()
    };
    let r = ConnectService.create_lead(req).expect("planned");
    let v = body(&r);
    assert_eq!(text(v, "email"), Some("scott@example.com"));
    assert_eq!(text(v, "name"), Some("Scott"));
    assert!(v.get("phone").is_none());
    let utm = v.get("utm").expect("utm");
    assert_eq!(text(utm, "source"), Some("twitter"));
    assert_eq!(text(utm, "campaign"), Some("spring-launch"));
    assert!(utm.get("medium").is_none());
}

#[test]
fn tenant_create_request_serializes_snake_case_matching_backend() {
    let req = TenantCreateRequest {
        brand_name: "Test Co".into(),
        slug: "test-co".into(),
        plan: "starter".into(),
        first_admin: TenantFirstAdmin {
            firebase_link: Some("fb-uid".into()),
            email: "admin@test.co".into(),
            first_name: "Admin".into(),
            last_name: "User".into(),
        },
        install_apps: vec!["pizza-os".into()],
        billing_address: Some("123 Main St".into()),
        tax_id: None,
        idempotency_key: "idem-123".into(),
    };
    let r = TenantApi.create(req);
    let json = body(&r);
    assert_eq!(text(json, "brand_name"), Some("Test Co"));
    assert_eq!(text(json.get("first_admin").unwrap(), "firebase_link"), Some("fb-uid"));
    assert_eq!(text(json, "idempotency_key"), Some("idem-123"));
    assert!(json.get("tax_id").is_none());
}

#[test]
fn parse_token_response_extracts_access_and_refresh() {
    let value = obj(vec![
        ("access_token", s("new-access")),
        ("refresh_token", s("new-refresh")),
        ("token_type", s("Bearer")),
        ("expires_in", Json::uint(3600)),
        ("user", obj(vec![("id", s("u1"))])),
    ]);
    let session = parse_token_response(&value).unwrap();
    assert_eq!(session.access_token.as_deref(), Some("new-access"));
    assert_eq!(session.refresh_token.as_deref(), Some("new-refresh"));
}

// ---------------------------------------------------------------------------
// Further cases
// ---------------------------------------------------------------------------

#[test]
fn parse_token_response_refuses_non_objects() {
    match parse_token_response(&Json::Array(vec![])) {
        Err(OlympusError::Api { status, message, .. }) => {
            assert_eq!(status, 500);
            assert_eq!(message, "expected JSON object from /auth/switch-tenant");
        }
        _ => panic!("error expected"),
    }
    let partial = parse_token_response(&obj(vec![("access_token", Json::uint(1))])).unwrap();
    assert!(partial.access_token.is_none());
}

#[test]
fn tenant_switch_follows_the_named_endpoint() {
    let resp = obj(vec![("auth_endpoint", s("/auth/custom"))]);
    assert_eq!(TenantApi.switch_tenant_auth(&resp, "t2").path, "/auth/custom");
    assert_eq!(TenantApi.switch_tenant_auth(&obj(vec![]), "t2").path, "/auth/switch-tenant");
    let first = TenantApi.switch_tenant("t2");
    assert_eq!(first.path, "/tenant/switch");
    assert_eq!(text(body(&first), "tenant_id"), Some("t2"));
    let retire = TenantApi.retire("slug");
    assert!(matches!(body(&retire).get("reason"), Some(Json::Null)));
}

#[test]
fn identifiers_are_percent_encoded_in_paths() {
    let v = VoiceService;
    assert_eq!(v.get_config("a b/c").path, "/voice-agents/configs/a%20b%2Fc");
    assert_eq!(v.remove_from_pool("x?y", "z#w").path, "/voice-agents/x%3Fy/pool/z%23w");
    assert_eq!(v.get_caller_profile("+1 555").path, "/caller-profiles/%2B1%20555");
    assert_eq!(v.get_persona("é").path, "/voice/personas/%C3%A9");
    // Some routes place the identifier as given.
    assert_eq!(v.get_pipeline("a b").path, "/voice-agents/configs/a b/pipeline");
}

#[test]
fn page_options_become_the_query() {
    let v = VoiceService;
    let r = v.list_configs(PageOptions { page: Some(2), limit: None, tenant_id: Some("t") });
    assert_eq!(r.method, HttpMethod::Get);
    assert_eq!(r.query, vec![("page".to_string(), "2".to_string()), ("tenant_id".to_string(), "t".to_string())]);
    let none = v.list_campaigns(PageOptions::default());
    assert!(none.query.is_empty());
    let profiles = v.list_caller_profiles(ListCallerProfilesOptions::default());
    assert_eq!(profiles.query, vec![("limit".to_string(), "50".to_string()), ("offset".to_string(), "0".to_string())]);
}

#[test]
fn create_agent_sends_only_given_fields() {
    let req = CreateAgentRequest {
        name: Some("Front desk"),
        voice_overrides: Some(obj(vec![("pitch", Json::Null)])),
        ..Default::default()
    };
    let r = VoiceService.create_agent(req);
    assert_eq!(r.path, "/voice-agents/configs");
    assert_eq!(keys(body(&r)), vec!["name".to_string(), "voice_overrides".to_string()]);
}

#[test]
fn upload_encodes_audio_in_standard_base64() {
    let req = UploadAmbianceBedRequest { name: "rain", audio_bytes: b"hi?", time_of_day: None, description: None };
    let r = VoiceService.upload_ambiance_bed(req);
    assert_eq!(text(body(&r), "audio_base64"), Some("aGk/"));
}

#[test]
fn upload_pads_the_last_group() {
    for (bytes, expected) in [(&b""[..], ""), (&b"h"[..], "aA=="), (&b"hi"[..], "aGk="), (&b"\xff\xfe\xfdhi"[..], "//79aGk=")] {
        let req = UploadAmbianceBedRequest { name: "rain", audio_bytes: bytes, time_of_day: None, description: None };
        let r = VoiceService.upload_ambiance_bed(req);
        assert_eq!(text(body(&r), "audio_base64"), Some(expected));
    }
}

#[test]
fn voice_socket_url_swaps_scheme_and_trims() {
    let v = VoiceService;
    assert_eq!(v.get_voice_web_socket_url("https://api.x.ai/", None), "wss://api.x.ai/ws/voice");
    assert_eq!(
        v.get_voice_web_socket_url("https://api.x.ai", Some("s 1")),
        "wss://api.x.ai/ws/voice?session_id=s%201"
    );
    assert_eq!(v.get_voice_web_socket_url("http://local//", None), "http://local/ws/voice");
}

#[test]
fn specialist_query_refuses_unknown_specialties() {
    match AiService.specialist_query("p", "astrology", None) {
        Err(OlympusError::Config(m)) => {
            assert_eq!(m, "unknown specialty 'astrology' (must be medical/legal/financial/scientific)")
        }
        _ => panic!("config error expected"),
    }
    let r = AiService.specialist_query("p", "legal", Some("ctx")).unwrap();
    let b = body(&r);
    match b.get("messages") {
        Some(Json::Array(ms)) => {
            assert_eq!(ms.len(), 2);
            assert_eq!(text(&ms[0], "role"), Some("system"));
        }
        _ => panic!("messages expected"),
    }
    match b.get("required_capabilities") {
        Some(Json::Array(cs)) => assert_eq!(cs[1].as_str(), Some("legal_specialist")),
        _ => panic!("capabilities expected"),
    }
}

#[test]
fn query_and_video_options() {
    let r = AiService.query("hi", Some("T2"));
    assert_eq!(keys(body(&r)), vec!["messages".to_string(), "tier".to_string()]);
    let r = AiService.query_with_options(
        "hi",
        QueryOptions { tier: None, context: None, required_capabilities: Some(vec!["vision".into()]) },
    );
    assert_eq!(keys(body(&r)), vec!["messages".to_string(), "required_capabilities".to_string()]);
    let v = AiService.generate_video("x", GenerateVideoOptions { duration_seconds: Some(8), preferred_provider: None });
    assert_eq!(body(&v).get("duration_seconds").and_then(Json::as_u64), Some(8));
}

#[test]
fn short_justifications_are_refused() {
    let short = "too short";
    match GovernanceService.request_exception("k", Json::Bool(true), short, None) {
        Err(OlympusError::Config(m)) => {
            assert_eq!(m, "justification must be >= 100 chars (got 9); server validator rejects shorter")
        }
        _ => panic!("config error expected"),
    }
    let long = "x".repeat(100);
    let r = GovernanceService.request_exception("k", Json::Bool(true), &long, Some("t")).unwrap();
    assert_eq!(r.path, "/api/v1/platform/exceptions");
    assert_eq!(text(body(&r), "tenant_id"), Some("t"));
    // The length is counted in characters.
    let accented = "é".repeat(50);
    match GovernanceService.request_exception("k", Json::Null, &accented, None) {
        Err(OlympusError::Config(m)) => {
            assert_eq!(m, "justification must be >= 100 chars (got 50); server validator rejects shorter")
        }
        _ => panic!("config error expected"),
    }
    assert!(GovernanceService.request_exception("k", Json::Null, &"é".repeat(100), None).is_ok());
}

#[test]
fn leads_need_an_email() {
    match ConnectService.create_lead(CreateLeadRequest::default()) {
        Err(OlympusError::Config(m)) => assert_eq!(m, "email is required"),
        _ => panic!("config error expected"),
    }
}

#[test]
fn consent_paths_follow_the_holder() {
    assert_eq!(Holder::Tenant.path_suffix(), "tenant-grants");
    assert_eq!(Holder::User.path_suffix(), "user-grants");
    let r = ConsentService.revoke("com.a b", "x.read", Holder::User);
    assert_eq!(r.method, HttpMethod::Delete);
    assert_eq!(r.path, "/api/v1/platform/apps/com.a%20b/user-grants/x.read");
    let rows = ConsentService.grant_rows(&obj(vec![("grants", Json::Array(vec![s("a"), s("b")]))]));
    assert_eq!(rows.len(), 2);
    assert!(ConsentService.grant_rows(&obj(vec![("grants", s("no"))])).is_empty());
}

#[test]
fn role_changes_and_app_tokens() {
    let req = AssignRolesRequest::new("t", "u 1").with_grants(vec!["a".into()]).with_note("n");
    let r = AuthService.assign_roles(req);
    assert_eq!(r.path, "/platform/users/u 1/roles/assign");
    assert_eq!(keys(body(&r)), vec!["tenant_id", "grant_scopes", "revoke_scopes", "note"]);
    let revoke = AuthService.revoke_roles("t", "u", vec!["x".into()], None);
    match body(&revoke).get("grant_scopes") {
        Some(Json::Array(items)) => assert!(items.is_empty()),
        _ => panic!("grant_scopes expected"),
    }
    let mint = AuthService.mint_app_token(MintAppTokenRequest::new("tok").with_firebase_install_id("fi"));
    assert_eq!(text(body(&mint), "firebase_install_id"), Some("fi"));
    let refresh = AuthService.refresh_app_token(RefreshAppTokenRequest::new("r"));
    assert_eq!(text(body(&refresh), "refresh_token"), Some("r"));
}

#[test]
fn routing_defaults_and_query() {
    let p = ConfigureRoutingParams::default();
    assert!(p.is_active && p.fallback_processors.is_empty());
    assert!(default_true());
    let r = PayService.configure_routing(p);
    assert!(matches!(body(&r).get("is_active"), Some(Json::Bool(true))));
    let q = PayService.list_routing(&ListRoutingParams { is_active: Some(false), processor: None, limit: Some(5) });
    assert_eq!(q.query, vec![("is_active".to_string(), "false".to_string()), ("limit".to_string(), "5".to_string())]);
}

#[test]
fn model_cards_get_their_model_id() {
    let card = obj(vec![("model_id", s("old")), ("notes", s("n"))]);
    let r = EthicalAiService.upsert_model_card("m1", card);
    assert_eq!(keys(body(&r)), vec!["model_id".to_string(), "notes".to_string()]);
    assert_eq!(text(body(&r), "model_id"), Some("m1"));
    let fresh = EthicalAiService.upsert_model_card("m2", Json::Null);
    assert_eq!(keys(body(&fresh)), vec!["model_id".to_string()]);
}

#[test]
fn voice_orders_merge_extra_fields() {
    let extra = obj(vec![("fulfillment", s("delivery")), ("note", s("ring"))]);
    let r = VoiceOrdersService.create("loc", Json::Array(vec![]), None, Some(extra));
    let b = body(&r);
    assert_eq!(text(b, "fulfillment"), Some("delivery"));
    assert_eq!(text(b, "note"), Some("ring"));
    let plain = VoiceOrdersService.create("loc", Json::Array(vec![]), None, Some(s("ignored")));
    assert_eq!(text(body(&plain), "fulfillment"), Some("pickup"));
    assert_eq!(keys(body(&plain)).len(), 3);
}

#[test]
fn members_builder_keeps_order() {
    let mut m = Members::new();
    m.put_str("b", "1");
    m.put_opt_str("skip", None);
    m.put_bool("a", true);
    let j = m.into_json();
    assert_eq!(keys(&j), vec!["b".to_string(), "a".to_string()]);
}

#[test]
fn replace_first_of_replaces_one_occurrence() {
    assert_eq!(replace_first_of("https://a/https://", "https://", "wss://"), "wss://a/https://");
    assert_eq!(replace_first_of("http://a", "https://", "wss://"), "http://a");
    // An empty pattern occurs first at the start, as with `replacen`.
    assert_eq!(replace_first_of("abc", "", "X"), "abc".replacen("", "X", 1));
    assert_eq!(replace_first_of("abc", "", "X"), "Xabc");
}
