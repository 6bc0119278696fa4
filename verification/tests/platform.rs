use olympus_sdk::http::{FormResponse, HttpMethod, RequestBody};
use olympus_sdk::services::platform::{
    ConsentForm, ConsentResult, ExchangeRequest, GrantForm, GrantResult, GrantsGraphQuery,
    OnboardRequest, PlatformService,
};
use olympus_sdk::url::{extract_query_param, percent_decode, query_param_raw_of};
use olympus_sdk::json::Json;

#[test]
fn extract_query_param_finds_value() {
    let url = "pizzaos://settings?grant_id=abc-123&state=xyz";
    assert_eq!(extract_query_param(url, "grant_id"), Some("abc-123".to_string()));
    assert_eq!(extract_query_param(url, "state"), Some("xyz".to_string()));
    assert_eq!(extract_query_param(url, "missing"), None);
}

#[test]
fn extract_query_param_handles_missing_query() {
    assert_eq!(extract_query_param("pizzaos://settings", "code"), None);
}

#[test]
fn extract_query_param_strips_fragment() {
    let url = "https://app.example.com/cb?code=abc#fragment-here";
    assert_eq!(extract_query_param(url, "code"), Some("abc".to_string()));
}

#[test]
fn percent_decode_handles_plus_and_pct() {
    assert_eq!(percent_decode("hello+world"), "hello world");
    assert_eq!(percent_decode("a%20b%2Fc"), "a b/c");
    assert_eq!(percent_decode("plain"), "plain");
    assert_eq!(percent_decode("a%2"), "a%2");
}

#[test]
fn consent_result_parses_grant_id_and_state() {
    let resp = FormResponse {
        status: 303,
        location: Some("pizzaos://settings/voice-agents?grant_id=g-42&state=csrf-abc".to_string()),
        body: String::new(),
    };
    let result = ConsentResult::from_form_response(resp);
    assert_eq!(result.grant_id.as_deref(), Some("g-42"));
    assert_eq!(result.state.as_deref(), Some("csrf-abc"));
    assert_eq!(result.error, None);
}

#[test]
fn consent_result_parses_cancel_error() {
    let resp = FormResponse {
        status: 303,
        location: Some("pizzaos://cancel?error=user_cancelled&state=xyz".to_string()),
        body: String::new(),
    };
    let result = ConsentResult::from_form_response(resp);
    assert_eq!(result.error.as_deref(), Some("user_cancelled"));
    assert_eq!(result.grant_id, None);
}

#[test]
fn grant_result_parses_code_and_state() {
    let resp = FormResponse {
        status: 303,
        location: Some("pizzaos://oauth-cb?code=auth-code-99&state=csrf-9".to_string()),
        body: String::new(),
    };
    let result = GrantResult::from_form_response(resp);
    assert_eq!(result.code.as_deref(), Some("auth-code-99"));
    assert_eq!(result.state.as_deref(), Some("csrf-9"));
}

// ---------------------------------------------------------------------------
// Further cases
// ---------------------------------------------------------------------------

#[test]
fn percent_decode_edge_cases() {
    // An invalid UTF-8 result gives the input back.
    assert_eq!(percent_decode("%FF"), "%FF");
    // Only two hex digits make an escape: a sign is no digit, so the `%`
    // stays and the `+` becomes a space.
    assert_eq!(percent_decode("%+5x"), "% 5x");
    assert_eq!(percent_decode("%+F"), "% F");
    assert_eq!(percent_decode("%-F"), "%-F");
    // Lower-case hex and a multi-byte character.
    assert_eq!(percent_decode("caf%c3%a9"), "café");
    assert_eq!(percent_decode("%zz"), "%zz");
}

#[test]
fn extract_query_param_first_match_and_missing_value() {
    let url = "x://y?a=1&a=2&flag&e=%41";
    assert_eq!(extract_query_param(url, "a"), Some("1".to_string()));
    assert_eq!(extract_query_param(url, "flag"), Some(String::new()));
    assert_eq!(extract_query_param(url, "e"), Some("A".to_string()));
    assert_eq!(extract_query_param("x://y?", "a"), None);
}

#[test]
fn results_without_location_carry_nothing() {
    let resp = FormResponse { status: 200, location: None, body: "ok".into() };
    let r = ConsentResult::from_form_response(resp.clone());
    assert_eq!(r.status, 200);
    assert!(r.grant_id.is_none() && r.state.is_none() && r.error.is_none() && r.location.is_none());
    let g = GrantResult::from_form_response(resp);
    assert!(g.code.is_none());
}

#[test]
fn consent_form_leaves_out_unset_fields() {
    let form = ConsentForm {
        app_id: "com.a".into(),
        scopes: "x.read,y.write".into(),
        return_to: "a://b".into(),
        state: "s".into(),
        request_id: "r".into(),
        code_challenge: None,
        code_challenge_method: Some("S256".into()),
        action: "authorize".into(),
        destructive_ack: None,
    };
    let r = PlatformService.submit_consent(form);
    assert_eq!(r.method, HttpMethod::Post);
    assert_eq!(r.path, "/platform/authorize/consent");
    match r.body {
        RequestBody::Form(fields) => {
            let keys: Vec<&str> = fields.iter().map(|(k, _)| k.as_str()).collect();
            assert_eq!(
                keys,
                vec!["app_id", "scopes", "return_to", "state", "request_id", "code_challenge_method", "action"]
            );
        }
        _ => panic!("form body expected"),
    }
}

#[test]
fn grant_form_always_carries_pkce() {
    let form = GrantForm {
        app_id: "a".into(),
        scopes: "s".into(),
        return_to: "r".into(),
        state: "st".into(),
        request_id: "id".into(),
        code_challenge: "cc".into(),
        code_challenge_method: "S256".into(),
        action: "authorize".into(),
        destructive_ack: Some("yes".into()),
    };
    let r = PlatformService.submit_grant(form);
    match r.body {
        RequestBody::Form(fields) => {
            assert_eq!(fields.len(), 9);
            assert_eq!(fields[5], ("code_challenge".to_string(), "cc".to_string()));
        }
        _ => panic!("form body expected"),
    }
}

#[test]
fn grants_graph_query_builders_and_request() {
    let q = GrantsGraphQuery::all().with_tenant_id("t1").with_limit(50);
    assert_eq!(q.tenant_id.as_deref(), Some("t1"));
    assert!(q.app_id.is_none());
    let r = PlatformService.get_grants_graph(&q);
    assert_eq!(r.path, "/platform/admin/grants/graph");
    assert_eq!(
        r.query,
        vec![("tenant_id".to_string(), "t1".to_string()), ("limit".to_string(), "50".to_string())]
    );
    let q2 = q.with_app_id("app");
    assert_eq!(q2.app_id.as_deref(), Some("app"));
}

#[test]
fn exchange_and_onboard_bodies() {
    let r = PlatformService.exchange_authorization_code(ExchangeRequest::new("c", "v", "app"));
    match &r.body {
        RequestBody::Json(j) => {
            assert_eq!(j.get("code").and_then(Json::as_str), Some("c"));
            assert_eq!(j.get("code_verifier").and_then(Json::as_str), Some("v"));
            assert_eq!(j.get("app_id").and_then(Json::as_str), Some("app"));
        }
        _ => panic!("json body expected"),
    }
    let bare = PlatformService.onboard_app(OnboardRequest::new(Json::Object(vec![])));
    match &bare.body {
        RequestBody::Json(j) => {
            assert!(j.get("manifest").is_some());
            assert!(j.get("cors_origins").is_none());
            assert!(j.get("api_key_label").is_none());
        }
        _ => panic!("json body expected"),
    }
    let full = PlatformService.onboard_app(
        OnboardRequest::new(Json::Null)
            .with_cors_origins(vec!["https://a".into()])
            .with_api_key_label("k"),
    );
    match &full.body {
        RequestBody::Json(j) => {
            assert!(j.get("cors_origins").is_some());
            assert_eq!(j.get("api_key_label").and_then(Json::as_str), Some("k"));
        }
        _ => panic!("json body expected"),
    }
}

#[test]
fn signup_sends_a_fourteen_day_trial() {
    let r = PlatformService.signup("Co", "a@b.c", "Ann", "food");
    match &r.body {
        RequestBody::Json(j) => assert_eq!(j.get("trial_days").and_then(Json::as_u64), Some(14)),
        _ => panic!("json body expected"),
    }
    let c = PlatformService.cleanup("t", "why", true);
    match &c.body {
        RequestBody::Json(j) => assert_eq!(j.get("grace_period_days").and_then(Json::as_u64), Some(30)),
        _ => panic!("json body expected"),
    }
}

#[test]
fn malformed_escapes_stay_as_they_are() {
    assert_eq!(percent_decode("%aé"), "%aé");
    assert_eq!(percent_decode("%é1"), "%é1");
    assert_eq!(percent_decode("%41+b"), "A b");
    assert_eq!(extract_query_param("app://cb?grant_id=%aé", "grant_id"), Some("%aé".to_string()));
    assert_eq!(query_param_raw_of("app://cb?a=1&b=%41#frag", "b").as_deref(), Some("%41"));
    let resp = FormResponse { status: 303, location: Some("app://cb?state=%aé&grant_id=g".to_string()), body: String::new() };
    let r = ConsentResult::from_form_response(resp);
    assert_eq!(r.state.as_deref(), Some("%aé"));
    assert_eq!(r.grant_id.as_deref(), Some("g"));
}
