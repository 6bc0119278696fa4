//! Silent access-token refresh: when to fire, what to send, and what the
//! refresh response means.
//!
//! The refresh loop alternates waiting and calling the server. Its
//! decisions live here as three steps the driver calls in turn:
//! [`on_start`] (read the token's `exp` and schedule the wake-up),
//! [`on_wake`] (build the `/auth/refresh` call) and [`on_response`]
//! (rotate the tokens or give up). Each returns a [`RefreshDecision`].

use vstd::prelude::*;
use base64::Engine;
use crate::json::{
    json_bytes_parse, json_u64_member, parse_json_bytes, Json, JsonValue, Members,
};
use crate::session::{session_of, AuthSession, SessionView};
use crate::text::{after_first, before_first, chars_of, find_from, lemma_find_in_range, string_of_range};
use crate::time::{Duration, NANOS_PER_SEC};

verus! {

// ---------------------------------------------------------------------------
// JWT `exp` claim
// ---------------------------------------------------------------------------

/// The URL-safe base64 alphabet, digit by digit.
pub open spec fn base64_url_alphabet() -> Seq<char> {
    "ABCDEFGHIJKLMNOPQRSTUVWXYZabcdefghijklmnopqrstuvwxyz0123456789-_"@
}

/// The six-bit value of a digit of the URL-safe alphabet.
pub open spec fn base64_url_value(c: char) -> Option<int> {
    if exists|i: int| 0 <= i < 64 && base64_url_alphabet()[i] == c {
        Some(choose|i: int| 0 <= i < 64 && base64_url_alphabet()[i] == c)
    } else {
        None
    }
}

/// The bytes that an unpadded URL-safe base64 text stands for: each four
/// digits give three bytes, a last two digits one byte and a last three
/// digits two, the six-bit values read most significant first. The text is
/// refused when a character is not a digit (padding included), when one
/// digit is left over, or when the last digit carries bits that no byte
/// takes up.
pub open spec fn base64_url_decoded(s: Seq<char>) -> Option<Seq<u8>>
    decreases s.len(),
{
    if s.len() == 0 {
        Some(Seq::empty())
    } else if s.len() == 1 {
        None
    } else {
        match (base64_url_value(s[0]), base64_url_value(s[1])) {
            (Some(a), Some(b)) => if s.len() == 2 {
                if b % 16 == 0 {
                    Some(seq![(a * 4 + b / 16) as u8])
                } else {
                    None
                }
            } else {
                match base64_url_value(s[2]) {
                    Some(c) => if s.len() == 3 {
                        if c % 4 == 0 {
                            Some(seq![(a * 4 + b / 16) as u8, ((b % 16) * 16 + c / 4) as u8])
                        } else {
                            None
                        }
                    } else {
                        match (base64_url_value(s[3]), base64_url_decoded(s.subrange(4, s.len() as int))) {
                            (Some(d), Some(rest)) => Some(
                                seq![(a * 4 + b / 16) as u8, ((b % 16) * 16 + c / 4) as u8, ((c % 4) * 64 + d) as u8]
                                    + rest,
                            ),
                            _ => None,
                        }
                    },
                    None => None,
                }
            },
            _ => None,
        }
    }
}

/// `base64::engine::general_purpose::URL_SAFE_NO_PAD.decode`: the bytes
/// that `base64_url_decoded` spells out, or `None` where it refuses the text.
#[verifier::external_body]
fn base64_url_decode(s: &str) -> (r: Option<Vec<u8>>)
    ensures
        match r {
            Some(v) => base64_url_decoded(s@) == Some(v@),
            None => base64_url_decoded(s@) is None,
        },
{
    base64::engine::general_purpose::URL_SAFE_NO_PAD.decode(s).ok()
}

/// The second `.`-separated segment of a token (the JWT payload), when the
/// token has at least two segments.
pub open spec fn payload_segment(token: Seq<char>) -> Option<Seq<char>> {
    match after_first(token, '.') {
        Some(rest) => Some(before_first(rest, '.')),
        None => None,
    }
}

/// The `exp` claim of a decoded payload document.
pub open spec fn exp_of_document(doc: JsonValue) -> Option<u64> {
    json_u64_member(doc, "exp"@)
}

/// What [`jwt_exp_seconds`] returns.
pub open spec fn jwt_exp_spec(token: Seq<char>) -> Option<u64> {
    match payload_segment(token) {
        Some(seg) => match base64_url_decoded(seg) {
            Some(bytes) => match json_bytes_parse(bytes) {
                Ok(doc) => exp_of_document(doc),
                Err(_) => None,
            },
            None => None,
        },
        None => None,
    }
}

/// The `exp` claim of a decoded payload document.
pub fn exp_claim(payload: &Json) -> (r: Option<u64>)
    ensures
        r == exp_of_document(payload@),
{
    payload.u64_member("exp")
}

/// The payload segment of a token: the text between the first and the
/// second `.` (or the end).
pub fn jwt_payload_segment(token: &str) -> (r: Option<String>)
    ensures
        crate::json::opt_string(r) == payload_segment(token@),
{
    let cs = chars_of(token);
    let n = cs.len();
    let d1 = find_from(&cs, '.', 0, n);
    proof {
        lemma_find_in_range(cs@, '.', 0, n as int, d1 as int);
        assert(cs@.subrange(0, n as int) =~= cs@);
    }
    if d1 == n {
        return None;
    }
    let d2 = find_from(&cs, '.', d1 + 1, n);
    proof {
        lemma_find_in_range(cs@, '.', d1 + 1, n as int, d2 as int);
        let rest = cs@.subrange(d1 + 1, n as int);
        assert(rest.subrange(0, d2 - d1 - 1) =~= cs@.subrange(d1 + 1, d2 as int));
    }
    Some(string_of_range(&cs, d1 + 1, d2))
}

/// Decode the unsigned `exp` claim (seconds since epoch) from a JWT
/// without verifying the signature; the server is the source of truth and
/// `exp` only schedules the next refresh.
pub fn jwt_exp_seconds(token: &str) -> (r: Option<u64>)
    ensures
        r == jwt_exp_spec(token@),
{
    let seg = match jwt_payload_segment(token) {
        Some(s) => s,
        None => return None,
    };
    let payload = match base64_url_decode(seg.as_str()) {
        Some(p) => p,
        None => return None,
    };
    match parse_json_bytes(payload.as_slice()) {
        Ok(doc) => exp_claim(&doc),
        Err(_) => None,
    }
}

// ---------------------------------------------------------------------------
// Schedule
// ---------------------------------------------------------------------------

/// The delay before the next refresh, in nanoseconds: immediately when
/// `exp` is not in the future, else `exp - now - margin` (never negative).
pub open spec fn fire_delay_spec(exp: u64, now: u64, margin: nat) -> nat {
    if exp <= now {
        0
    } else {
        let remaining = ((exp - now) * NANOS_PER_SEC) as nat;
        if remaining >= margin {
            (remaining - margin) as nat
        } else {
            0
        }
    }
}

/// Compute the delay until the next refresh fire.
///
/// - When `exp` is in the past (or within `margin`), fire immediately.
/// - Otherwise fire at `exp - margin`.
pub fn compute_fire_delay(exp: u64, now: u64, margin: Duration) -> (d: Duration)
    ensures
        d@ == fire_delay_spec(exp, now, margin@),
{
    if exp <= now {
        return Duration::from_secs(0);
    }
    let remaining = Duration::from_secs(exp - now);
    remaining.saturating_sub(margin)
}

/// The refresh never fires after the token expires: an expired token is
/// refreshed at once, otherwise the wait is at most the time left, and it
/// ends exactly `margin` before expiry whenever that much time is left.
pub proof fn lemma_fire_before_expiry(exp: u64, now: u64, margin: nat)
    ensures
        exp <= now ==> fire_delay_spec(exp, now, margin) == 0,
        exp > now ==> fire_delay_spec(exp, now, margin) <= (exp - now) * NANOS_PER_SEC,
        exp > now && (exp - now) * NANOS_PER_SEC >= margin ==> fire_delay_spec(exp, now, margin) + margin == (
        exp - now) * NANOS_PER_SEC,
{
}

// ---------------------------------------------------------------------------
// Loop steps
// ---------------------------------------------------------------------------

/// What the refresh loop does next.
pub enum RefreshDecision {
    /// Sleep this long, then call [`on_wake`].
    Sleep(Duration),
    /// `POST /auth/refresh` with this body, then call [`on_response`].
    Post(Json),
    /// Install the session's access token (and its refresh token when not
    /// empty), broadcast `Refreshed`, and start over with [`on_start`].
    Rotate(AuthSession),
    /// Broadcast `Expired` with this reason and stop.
    Expire(String),
}

/// Start of a round: with the current access token (if any) and the wall
/// clock in Unix seconds, schedule the refresh for `exp - margin`.
pub fn on_start(access_token: Option<&str>, now: u64, margin: Duration) -> (r: RefreshDecision)
    ensures
        match access_token {
            Some(t) if t@.len() > 0 => match jwt_exp_spec(t@) {
                Some(exp) => r matches RefreshDecision::Sleep(d) && d@ == fire_delay_spec(
                    exp,
                    now,
                    margin@,
                ),
                None => r matches RefreshDecision::Expire(m) && m@ == "no exp claim"@,
            },
            _ => r matches RefreshDecision::Expire(m) && m@ == "no access token"@,
        },
{
    let token = match access_token {
        Some(t) => if !t.is_empty() {
            t
        } else {
            return RefreshDecision::Expire("no access token".to_owned());
        },
        None => return RefreshDecision::Expire("no access token".to_owned()),
    };
    match jwt_exp_seconds(token) {
        Some(exp) => RefreshDecision::Sleep(compute_fire_delay(exp, now, margin)),
        None => RefreshDecision::Expire("no exp claim".to_owned()),
    }
}

/// The body of the refresh call.
pub open spec fn refresh_body(token: Seq<char>) -> JsonValue {
    JsonValue::Object(seq![("refresh_token"@, JsonValue::Str(token))])
}

/// After the wait: with the current refresh token (if any), build the
/// `/auth/refresh` call.
pub fn on_wake(refresh_token: Option<&str>) -> (r: RefreshDecision)
    ensures
        match refresh_token {
            Some(t) if t@.len() > 0 => r matches RefreshDecision::Post(b) && b@ == refresh_body(t@),
            _ => r matches RefreshDecision::Expire(m) && m@ == "no refresh token"@,
        },
{
    let token = match refresh_token {
        Some(t) => if !t.is_empty() {
            t
        } else {
            return RefreshDecision::Expire("no refresh token".to_owned());
        },
        None => return RefreshDecision::Expire("no refresh token".to_owned()),
    };
    let mut body = Members::new();
    body.put_str("refresh_token", token);
    let j = body.into_json();
    assert(j@->Object_0 =~= seq![("refresh_token"@, JsonValue::Str(token@))]);
    RefreshDecision::Post(j)
}

/// After the call: the response body, or the rendered error of a failed
/// call. A body without an access token ends the loop.
pub fn on_response(response: Result<&Json, &str>) -> (r: RefreshDecision)
    ensures
        match response {
            Ok(body) => if session_of(body@).access_token.len() > 0 {
                r matches RefreshDecision::Rotate(s) && s@ == session_of(body@)
            } else {
                r matches RefreshDecision::Expire(m) && m@ == "refresh response missing access_token"@
            },
            Err(e) => r matches RefreshDecision::Expire(m) && m@ == "refresh failed: "@ + e@,
        },
{
    match response {
        Ok(body) => {
            let session = AuthSession::from_json(body);
            if session.access_token.as_str().is_empty() {
                RefreshDecision::Expire("refresh response missing access_token".to_owned())
            } else {
                RefreshDecision::Rotate(session)
            }
        },
        Err(e) => RefreshDecision::Expire(crate::text::concat2("refresh failed: ", e)),
    }
}

} // verus!
