use olympus_sdk::json::Json;
use olympus_sdk::session::AuthSession;
use olympus_sdk::silent_refresh::{
    compute_fire_delay, exp_claim, jwt_exp_seconds, jwt_payload_segment, on_response, on_start, on_wake,
    RefreshDecision,
};
use olympus_sdk::time::Duration;

// Header {"alg":"none"}, payload {"exp":1700000000,"sub":"u"}, URL-safe
// base64 without padding.
const TOKEN: &str = "eyJhbGciOiJub25lIn0.eyJleHAiOjE3MDAwMDAwMDAsInN1YiI6InUifQ.sig";

fn obj(pairs: Vec<(&str, Json)>) -> Json {
    Json::Object(pairs.into_iter().map(|(k, v)| (k.to_string(), v)).collect())
}

#[test]
fn jwt_exp_is_read_from_the_payload() {
    assert_eq!(jwt_payload_segment(TOKEN).as_deref(), Some("eyJleHAiOjE3MDAwMDAwMDAsInN1YiI6InUifQ"));
    assert_eq!(jwt_exp_seconds(TOKEN), Some(1_700_000_000));
    assert_eq!(jwt_exp_seconds("no-dots"), None);
    assert_eq!(jwt_exp_seconds("a.!!!.c"), None);
    // {"sub":"u"} has no exp.
    assert_eq!(jwt_exp_seconds("x.eyJzdWIiOiJ1In0"), None);
    assert_eq!(exp_claim(&obj(vec![("exp", Json::uint(5))])), Some(5));
}

#[test]
fn fire_delay_is_exp_minus_margin() {
    let margin = Duration::from_secs(60);
    assert_eq!(compute_fire_delay(1000, 100, margin), Duration::from_secs(840));
    assert_eq!(compute_fire_delay(1000, 1000, margin), Duration::from_secs(0));
    assert_eq!(compute_fire_delay(1000, 2000, margin), Duration::from_secs(0));
    assert_eq!(compute_fire_delay(1030, 1000, margin), Duration::from_secs(0));
    assert_eq!(compute_fire_delay(1000, 900, Duration::from_millis(500)), Duration::from_millis(99_500));
}

#[test]
fn refresh_loop_steps() {
    match on_start(Some(TOKEN), 1_699_999_000, Duration::from_secs(60)) {
        RefreshDecision::Sleep(d) => assert_eq!(d, Duration::from_secs(940)),
        _ => panic!("sleep expected"),
    }
    match on_start(None, 0, Duration::from_secs(60)) {
        RefreshDecision::Expire(m) => assert_eq!(m, "no access token"),
        _ => panic!("expire expected"),
    }
    match on_start(Some("a.b"), 0, Duration::from_secs(60)) {
        RefreshDecision::Expire(m) => assert_eq!(m, "no exp claim"),
        _ => panic!("expire expected"),
    }
    match on_wake(Some("rt")) {
        RefreshDecision::Post(b) => assert_eq!(b.get("refresh_token").and_then(Json::as_str), Some("rt")),
        _ => panic!("post expected"),
    }
    match on_wake(Some("")) {
        RefreshDecision::Expire(m) => assert_eq!(m, "no refresh token"),
        _ => panic!("expire expected"),
    }
    let body = obj(vec![("access_token", Json::Str("new".into())), ("refresh_token", Json::Str("r2".into()))]);
    match on_response(Ok(&body)) {
        RefreshDecision::Rotate(s) => {
            assert_eq!(s.access_token, "new");
            assert_eq!(s.refresh_token, "r2");
        }
        _ => panic!("rotate expected"),
    }
    match on_response(Ok(&obj(vec![]))) {
        RefreshDecision::Expire(m) => assert_eq!(m, "refresh response missing access_token"),
        _ => panic!("expire expected"),
    }
    match on_response(Err("HTTP 500")) {
        RefreshDecision::Expire(m) => assert_eq!(m, "refresh failed: HTTP 500"),
        _ => panic!("expire expected"),
    }
}

#[test]
fn sessions_are_read_from_envelopes() {
    let inner = obj(vec![
        ("access_token", Json::Str("a".into())),
        ("expires_at", Json::uint(99)),
        ("user_id", Json::Str("u".into())),
    ]);
    let s = AuthSession::from_json(&obj(vec![("data", inner)]));
    assert_eq!(s.access_token, "a");
    assert_eq!(s.refresh_token, "");
    assert_eq!(s.expires_at, 99);
    assert_eq!(s.token_type, "Bearer");
    assert_eq!(s.user_id.as_deref(), Some("u"));
    let d = AuthSession::default();
    assert!(d.access_token.is_empty());
}

#[test]
fn jwt_payload_must_be_canonical_unpadded_base64() {
    // {"exp":5} and {"exp":50}.
    assert_eq!(jwt_exp_seconds("h.eyJleHAiOjV9.s"), Some(5));
    assert_eq!(jwt_exp_seconds("h.eyJleHAiOjUwfQ.s"), Some(50));
    // Padding is refused.
    assert_eq!(jwt_exp_seconds("h.eyJleHAiOjUwfQ==.s"), None);
    // The last digit carries bits that no byte takes up.
    assert_eq!(jwt_exp_seconds("h.eyJleHAiOjUwfR.s"), None);
    // One digit left over.
    assert_eq!(jwt_exp_seconds("h.eyJleHAiOjV9A.s"), None);
    // Standard-alphabet digits are not URL-safe ones.
    assert_eq!(jwt_exp_seconds("h.eyJleHAiOjV9+/.s"), None);
}
