//! Session types shared across auth flows and silent refresh.
//!
//! [`AuthSession`] is a minimal view of the `/auth/login` + `/auth/refresh`
//! response bodies — just the tokens and expiry the SDK needs for silent
//! refresh. [`SessionEvent`] is the lifecycle transition the client
//! broadcasts (login, silent refresh, forced expiry, explicit logout).

use vstd::prelude::*;
use crate::json::{json_get, json_str_member, json_u64_member, opt_string, Json, JsonValue};

verus! {

/// Minimal representation of a server-issued auth session. Fields are
/// optional on the wire because the gateway may send partial responses.
#[derive(Debug, Clone)]
pub struct AuthSession {
    /// Short-lived access token (Authorization bearer).
    pub access_token: String,
    /// Refresh token used by the silent-refresh task; may be empty.
    pub refresh_token: String,
    /// Unix seconds at which the access token expires; `0` means unknown.
    pub expires_at: u64,
    /// Token type (typically `"Bearer"`).
    pub token_type: String,
    /// User id that owns this session, when echoed by the server.
    pub user_id: Option<String>,
    /// Tenant id for this session, when echoed by the server.
    pub tenant_id: Option<String>,
    /// Franchise / company identifier, for tenants in a company hierarchy.
    pub company_id: Option<String>,
}

pub ghost struct SessionView {
    pub access_token: Seq<char>,
    pub refresh_token: Seq<char>,
    pub expires_at: u64,
    pub token_type: Seq<char>,
    pub user_id: Option<Seq<char>>,
    pub tenant_id: Option<Seq<char>>,
    pub company_id: Option<Seq<char>>,
}

impl View for AuthSession {
    type V = SessionView;

    open spec fn view(&self) -> SessionView {
        SessionView {
            access_token: self.access_token@,
            refresh_token: self.refresh_token@,
            expires_at: self.expires_at,
            token_type: self.token_type@,
            user_id: opt_string(self.user_id),
            tenant_id: opt_string(self.tenant_id),
            company_id: opt_string(self.company_id),
        }
    }
}

impl Default for AuthSession {
    fn default() -> (s: AuthSession)
        ensures
            s@.access_token.len() == 0,
            s@.refresh_token.len() == 0,
            s.expires_at == 0,
            s@.token_type.len() == 0,
            s.user_id is None,
            s.tenant_id is None,
            s.company_id is None,
    {
        AuthSession {
            access_token: String::new(),
            refresh_token: String::new(),
            expires_at: 0,
            token_type: String::new(),
            user_id: None,
            tenant_id: None,
            company_id: None,
        }
    }
}

/// The object a login/refresh body keeps its session fields in: the
/// `session` member, else the `data` member, else the body itself.
pub open spec fn session_source(v: JsonValue) -> JsonValue {
    match json_get(v, "session"@) {
        Some(s) => s,
        None => match json_get(v, "data"@) {
            Some(d) => d,
            None => v,
        },
    }
}

/// A session sent inside an envelope reads as the session itself: the
/// body `{"session": o}` and the body `{"data": o}` read as `o` does, and
/// where both envelopes are present the `session` member is the one read.
/// (`o` and `p` have no envelope of their own.)
pub proof fn lemma_session_envelopes(o: JsonValue, p: JsonValue)
    requires
        json_get(o, "session"@) is None,
        json_get(o, "data"@) is None,
        json_get(p, "session"@) is None,
        json_get(p, "data"@) is None,
    ensures
        session_of(JsonValue::Object(seq![("session"@, o)])) == session_of(o),
        session_of(JsonValue::Object(seq![("data"@, o)])) == session_of(o),
        session_of(JsonValue::Object(seq![("data"@, p), ("session"@, o)])) == session_of(o),
        session_of(JsonValue::Object(seq![("session"@, o), ("data"@, p)])) == session_of(o),
{
    reveal_strlit("session");
    reveal_strlit("data");
    assert("session"@ != "data"@) by {
        assert("session"@.len() != "data"@.len());
    }
    reveal_with_fuel(crate::json::member_lookup, 3);
    let two = seq![("data"@, p), ("session"@, o)];
    assert(two.drop_first() =~= seq![("session"@, o)]);
    let two_b = seq![("session"@, o), ("data"@, p)];
    assert(two_b.drop_first() =~= seq![("data"@, p)]);
    assert(seq![("session"@, o)].drop_first() =~= Seq::<(Seq<char>, JsonValue)>::empty());
    assert(seq![("data"@, o)].drop_first() =~= Seq::<(Seq<char>, JsonValue)>::empty());
}

/// A flat body with the two tokens, the expiry and the token type reads
/// as a session with exactly those values; a body that gives only the two
/// tokens reads with expiry 0, type `Bearer` and no user, tenant or company.
pub proof fn lemma_session_fields(a: Seq<char>, r: Seq<char>, e: u64, t: Seq<char>)
    ensures
        ({
            let s = session_of(JsonValue::Object(seq![
                ("access_token"@, JsonValue::Str(a)),
                ("refresh_token"@, JsonValue::Str(r)),
                ("expires_at"@, crate::json::uint_value(e)),
                ("token_type"@, JsonValue::Str(t)),
            ]));
            s.access_token == a && s.refresh_token == r && s.expires_at == e && s.token_type == t
        }),
        ({
            let s = session_of(JsonValue::Object(seq![
                ("access_token"@, JsonValue::Str(a)),
                ("refresh_token"@, JsonValue::Str(r)),
            ]));
            &&& s.access_token == a && s.refresh_token == r
            &&& s.expires_at == 0 && s.token_type == "Bearer"@
            &&& s.user_id is None && s.tenant_id is None && s.company_id is None
        }),
{
    reveal_strlit("access_token");
    reveal_strlit("refresh_token");
    reveal_strlit("expires_at");
    reveal_strlit("token_type");
    reveal_strlit("session");
    reveal_strlit("data");
    reveal_strlit("user_id");
    reveal_strlit("tenant_id");
    reveal_strlit("company_id");
    assert("access_token"@.len() == 12 && "access_token"@[0] == 'a');
    assert("refresh_token"@.len() == 13 && "refresh_token"@[0] == 'r');
    assert("expires_at"@.len() == 10 && "expires_at"@[0] == 'e');
    assert("token_type"@.len() == 10 && "token_type"@[0] == 't');
    assert("session"@.len() == 7 && "data"@.len() == 4);
    assert("user_id"@.len() == 7 && "user_id"@[0] == 'u');
    assert("tenant_id"@.len() == 9 && "company_id"@.len() == 10 && "company_id"@[0] == 'c');
    reveal_with_fuel(crate::json::member_lookup, 5);
}

pub open spec fn str_or(o: Option<Seq<char>>, d: Seq<char>) -> Seq<char> {
    match o {
        Some(s) => s,
        None => d,
    }
}

/// What [`AuthSession::from_json`] reads out of a body.
pub open spec fn session_of(v: JsonValue) -> SessionView {
    let inner = session_source(v);
    SessionView {
        access_token: str_or(json_str_member(inner, "access_token"@), Seq::empty()),
        refresh_token: str_or(json_str_member(inner, "refresh_token"@), Seq::empty()),
        expires_at: match json_u64_member(inner, "expires_at"@) {
            Some(e) => e,
            None => 0,
        },
        token_type: str_or(json_str_member(inner, "token_type"@), "Bearer"@),
        user_id: json_str_member(inner, "user_id"@),
        tenant_id: json_str_member(inner, "tenant_id"@),
        company_id: json_str_member(inner, "company_id"@),
    }
}

fn string_or_empty(o: Option<String>) -> (r: String)
    ensures
        r@ == str_or(opt_string(o), Seq::empty()),
{
    match o {
        Some(s) => s,
        None => String::new(),
    }
}

impl AuthSession {
    /// Read a session out of a `/auth/login` or `/auth/refresh` body, in
    /// the flat shape (`{access_token, refresh_token, ...}`) or an envelope
    /// (`{session: {...}}` or `{data: {...}}`). Missing tokens read as
    /// empty, a missing expiry as `0`, a missing token type as `"Bearer"`.
    pub fn from_json(value: &Json) -> (s: AuthSession)
        ensures
            s@ == session_of(value@),
    {
        let inner: &Json = match value.get("session") {
            Some(s) => s,
            None => match value.get("data") {
                Some(d) => d,
                None => value,
            },
        };
        let token_type = match inner.str_member("token_type") {
            Some(t) => t,
            None => "Bearer".to_owned(),
        };
        AuthSession {
            access_token: string_or_empty(inner.str_member("access_token")),
            refresh_token: string_or_empty(inner.str_member("refresh_token")),
            expires_at: match inner.u64_member("expires_at") {
                Some(e) => e,
                None => 0,
            },
            token_type,
            user_id: inner.str_member("user_id"),
            tenant_id: inner.str_member("tenant_id"),
            company_id: inner.str_member("company_id"),
        }
    }
}

/// Lifecycle transitions the client broadcasts.
#[derive(Debug, Clone)]
pub enum SessionEvent {
    /// A new session was established (e.g. after `login`).
    LoggedIn(AuthSession),
    /// The silent-refresh task exchanged the refresh token for a fresh
    /// session; the next refresh has been scheduled.
    Refreshed(AuthSession),
    /// The session is no longer usable.
    Expired {
        /// Human-readable reason suitable for logging. Not localized.
        reason: String,
    },
    /// The caller explicitly logged out.
    LoggedOut,
}

} // verus!
