use olympus_sdk::config::OlympusConfig;
use olympus_sdk::http::{
    build_url, form_headers, form_outcome, is_redirection, is_success, json_headers, parse_api_error,
    raw_response_check, response_outcome, success_body, ApiRequest, HttpMethod, Query, RequestBody,
};
use olympus_sdk::json::{Json, JsonNumber};
use olympus_sdk::time::Duration;
use olympus_sdk::OlympusError;

fn api(e: OlympusError) -> (u16, String, String, Option<String>) {
    match e {
        OlympusError::Api { status, code, message, request_id } => (status, code, message, request_id),
        other => panic!("api error expected, got {:?}", other),
    }
}

#[test]
fn parse_api_error_reads_the_envelope() {
    let body = r#"{"error":{"code":"NOT_FOUND","message":"Order 7 not found","request_id":"req-1"}}"#;
    assert_eq!(
        api(parse_api_error(404, body)),
        (404, "NOT_FOUND".into(), "Order 7 not found".into(), Some("req-1".into()))
    );
}

#[test]
fn parse_api_error_fallbacks() {
    assert_eq!(api(parse_api_error(502, "   ")), (502, "UNKNOWN".into(), "HTTP 502".into(), None));
    assert_eq!(
        api(parse_api_error(429, r#" {"code":"RATE_LIMITED","message":"Slow down"} "#)),
        (429, "UNKNOWN".into(), r#"{"code":"RATE_LIMITED","message":"Slow down"}"#.into(), None)
    );
    assert_eq!(api(parse_api_error(400, r#"{"other":1}"#)), (400, "UNKNOWN".into(), r#"{"other":1}"#.into(), None));
    assert_eq!(api(parse_api_error(500, " <html>oops</html> ")), (500, "UNKNOWN".into(), "HTTP 500".into(), None));
    assert_eq!(
        api(parse_api_error(502, "<html>Bad Gateway</html>")),
        (502, "UNKNOWN".into(), "HTTP 502".into(), None)
    );
    assert_eq!(api(parse_api_error(409, r#"{"error":{}}"#)), (409, "UNKNOWN".into(), "Unknown error".into(), None));
    assert_eq!(api(parse_api_error(409, r#"[1,2]"#)), (409, "UNKNOWN".into(), "[1,2]".into(), None));
}

#[test]
fn response_outcome_by_status() {
    match response_outcome(200, b"", "") {
        Ok(Json::Object(ms)) => assert!(ms.is_empty()),
        _ => panic!("empty object expected"),
    }
    match response_outcome(201, br#"{"id":3}"#, r#"{"id":3}"#) {
        Ok(j) => assert_eq!(j.get("id").and_then(Json::as_u64), Some(3)),
        _ => panic!("document expected"),
    }
    match response_outcome(200, b"not json", "not json") {
        Err(OlympusError::Json(m)) => assert!(!m.is_empty()),
        _ => panic!("json error expected"),
    }
    assert_eq!(api(response_outcome(503, b"", "").unwrap_err()).1, "UNKNOWN");
}

#[test]
fn success_body_parses_numbers() {
    match success_body(b"-5") {
        Ok(Json::Number(JsonNumber::NegInt(n))) => assert_eq!(n, -5),
        _ => panic!("negative integer expected"),
    }
    match success_body(b"1.5") {
        Ok(Json::Number(JsonNumber::Float(t))) => assert_eq!(t, "1.5"),
        _ => panic!("float expected"),
    }
}

#[test]
fn form_outcome_keeps_redirects() {
    let ok = form_outcome(303, Some("a://b?x=1".into()), String::new()).unwrap();
    assert_eq!(ok.status, 303);
    assert_eq!(ok.location.as_deref(), Some("a://b?x=1"));
    let err = form_outcome(403, None, r#"{"error":{"code":"csrf_check_failed","message":"no"}}"#.into());
    assert_eq!(api(err.unwrap_err()).1, "csrf_check_failed");
    assert!(raw_response_check(204, "").is_none());
    assert!(raw_response_check(401, "").is_some());
    assert!(is_success(299) && !is_success(300) && is_redirection(301) && !is_redirection(200));
}

#[test]
fn urls_and_headers() {
    let cfg = OlympusConfig::new("com.app", "oc_test").with_base_url("https://dev.example//");
    assert_eq!(build_url(&cfg, "/x/y"), "https://dev.example/x/y");
    let h = json_headers(&cfg);
    assert_eq!(h.pairs[0], ("Authorization".to_string(), "Bearer oc_test".to_string()));
    assert_eq!(h.pairs[2], ("X-SDK-Version".to_string(), "rust/0.3.0".to_string()));
    let f = form_headers(&cfg);
    assert_eq!(f.pairs.len(), 4);
    assert_eq!(f.pairs[3].1, "application/json, text/html");
}

#[test]
fn config_defaults_and_timeout() {
    let cfg = OlympusConfig::new("a", "k");
    assert_eq!(cfg.base_url, "https://api.olympuscloud.ai");
    assert_eq!(cfg.timeout_ms, 30_000);
    assert_eq!(cfg.timeout(), Duration::from_secs(30));
    let short = cfg.with_timeout_ms(1500);
    assert_eq!(short.timeout(), Duration::from_millis(1500));
    assert_eq!(short.timeout().as_millis(), 1500);
    assert_eq!(short.timeout().subsec_nanos(), 500_000_000);
}

#[test]
fn queries_render_numbers_and_flags() {
    let mut q = Query::new();
    q.push_opt_u32("limit", Some(25));
    q.push_opt_bool("active", Some(true));
    q.push_opt("skip", None);
    q.push_opt_u64("big", Some(u64::MAX));
    assert_eq!(
        q.pairs,
        vec![
            ("limit".to_string(), "25".to_string()),
            ("active".to_string(), "true".to_string()),
            ("big".to_string(), "18446744073709551615".to_string()),
        ]
    );
    let r = ApiRequest::get_with("/p".into(), "k", "v w");
    assert_eq!(r.method, HttpMethod::Get);
    assert!(matches!(r.body, RequestBody::Empty));
}

#[test]
fn url_encode_escapes_reserved_bytes() {
    assert_eq!(olympus_sdk::http::path_end("/x/", "a b/c?d"), "/x/a%20b%2Fc%3Fd");
    assert_eq!(olympus_sdk::http::path_end("/x/", "AZaz09-._~"), "/x/AZaz09-._~");
}

#[test]
fn parse_json_text_reads_documents() {
    let doc = Json::parse(r#"{"a":[true,null,"x"]}"#).unwrap();
    match doc.get("a") {
        Some(Json::Array(items)) => assert_eq!(items.len(), 3),
        _ => panic!("array expected"),
    }
    assert!(Json::parse("{").is_none());
}
