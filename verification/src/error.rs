//! Errors surfaced by the SDK.

use vstd::prelude::*;
use crate::i18n::{resolve_cached_spec, resolve_from_cache, ManifestCache};
use crate::text::{concat2, concat3, decimal, decimal_string};

verus! {

/// Errors the SDK reports.
#[derive(Clone, Debug)]
pub enum OlympusError {
    /// Structured API error matching the canonical
    /// `{error: {code, message, request_id}}` envelope produced by the
    /// platform. `code` is the canonical UPPER_SNAKE identifier used by the
    /// i18n manifest.
    Api {
        /// HTTP status from the upstream response.
        status: u16,
        /// Canonical UPPER_SNAKE error code (e.g., `"NOT_FOUND"`).
        code: String,
        /// Server-provided English message — the final fallback of
        /// [`OlympusError::localized_message`].
        message: String,
        /// Server-assigned request ID, when present.
        request_id: Option<String>,
    },
    Network(String),
    Json(String),
    AuthExpired,
    Config(String),
}

pub ghost enum ErrorView {
    Api { status: u16, code: Seq<char>, message: Seq<char>, request_id: Option<Seq<char>> },
    Network(Seq<char>),
    Json(Seq<char>),
    AuthExpired,
    Config(Seq<char>),
}

impl View for OlympusError {
    type V = ErrorView;

    open spec fn view(&self) -> ErrorView {
        match self {
            OlympusError::Api { status, code, message, request_id } => ErrorView::Api {
                status: *status,
                code: code@,
                message: message@,
                request_id: crate::json::opt_string(*request_id),
            },
            OlympusError::Network(m) => ErrorView::Network(m@),
            OlympusError::Json(m) => ErrorView::Json(m@),
            OlympusError::AuthExpired => ErrorView::AuthExpired,
            OlympusError::Config(m) => ErrorView::Config(m@),
        }
    }
}

/// The display text of a variant other than `Api`.
pub open spec fn plain_display(e: ErrorView) -> Seq<char> {
    match e {
        ErrorView::Network(m) => "Network error: "@ + m,
        ErrorView::Json(m) => "JSON error: "@ + m,
        ErrorView::AuthExpired => "Authentication expired"@,
        ErrorView::Config(m) => "Configuration error: "@ + m,
        ErrorView::Api { .. } => Seq::empty(),
    }
}

/// What `format!("{:?}", s)` renders a string as: the string quoted, with
/// its special characters escaped.
pub uninterp spec fn str_debug_text(s: Seq<char>) -> Seq<char>;

/// `<str as Debug>::fmt` through `format!("{:?}", ..)`. The contract names
/// the rendering; which characters are escaped, and how, is std's rule and
/// not restated here.
#[verifier::external_body]
fn debug_str(s: &str) -> (r: String)
    ensures
        r@ == str_debug_text(s@),
{
    format!("{:?}", s)
}

/// How an optional request id is shown: `None`, or `Some("<id>")`.
pub open spec fn request_id_text(id: Option<Seq<char>>) -> Seq<char> {
    match id {
        Some(s) => "Some("@ + str_debug_text(s) + ")"@,
        None => "None"@,
    }
}

/// The display text of an error:
/// `OlympusApi(<code>): <message> [status=<status>, reqId=<request id>]`
/// for an API error, a prefixed message for the others.
pub open spec fn display_spec(e: ErrorView) -> Seq<char> {
    match e {
        ErrorView::Api { status, code, message, request_id } => "OlympusApi("@ + code + "): "@ + message
            + " [status="@ + decimal(status as nat) + ", reqId="@ + request_id_text(request_id) + "]"@,
        _ => plain_display(e),
    }
}

/// What [`OlympusError::localized_message`] returns: for an API error the
/// cached translation, else the server's message, else the code, and the
/// error's display text when all of these are empty.
pub open spec fn localized_spec(e: ErrorView, cache: ManifestCache, locale: Seq<char>) -> Seq<char> {
    match e {
        ErrorView::Api { code, message, .. } => {
            let resolved = resolve_cached_spec(cache.cached, code, locale, Some(message));
            if resolved.len() > 0 {
                resolved
            } else {
                display_spec(e)
            }
        },
        _ => plain_display(e),
    }
}

impl OlympusError {
    /// The error's display text:
    /// `OlympusApi(<code>): <message> [status=<status>, reqId=<request id>]`
    /// for an API error, `Network error: <m>`, `JSON error: <m>`,
    /// `Authentication expired` or `Configuration error: <m>` otherwise.
    pub fn display_text(&self) -> (r: String)
        ensures
            r@ == display_spec(self@),
            r@.len() > 0,
    {
        proof {
            reveal_strlit("OlympusApi(");
            reveal_strlit("Network error: ");
            reveal_strlit("JSON error: ");
            reveal_strlit("Authentication expired");
            reveal_strlit("Configuration error: ");
        }
        match self {
            OlympusError::Api { status, code, message, request_id } => {
                let id = match request_id {
                    Some(rid) => concat3("Some(", debug_str(rid.as_str()).as_str(), ")"),
                    None => "None".to_owned(),
                };
                let head = concat3("OlympusApi(", code.as_str(), "): ");
                let mid = concat3(head.as_str(), message.as_str(), " [status=");
                let tail = concat3(decimal_string(*status as u64).as_str(), ", reqId=", id.as_str());
                let all = concat3(mid.as_str(), tail.as_str(), "]");
                assert(all@ =~= display_spec(self@));
                all
            },
            OlympusError::Network(m) => concat2("Network error: ", m.as_str()),
            OlympusError::Json(m) => concat2("JSON error: ", m.as_str()),
            OlympusError::AuthExpired => "Authentication expired".to_owned(),
            OlympusError::Config(m) => concat2("Configuration error: ", m.as_str()),
        }
    }

    /// Resolves a localized message for `locale` against the manifest
    /// cache, falling back through the locale chain (`es-MX` → `es` → `en`)
    /// and finally to the server-provided `message` (or the code, when the
    /// message is empty). Never returns an empty string: an API error with
    /// neither message nor code gives its display text. Non-`Api` variants
    /// return their display text.
    pub fn localized_message(&self, cache: &ManifestCache, locale: &str) -> (r: String)
        ensures
            r@ == localized_spec(self@, *cache, locale@),
            r@.len() > 0,
    {
        proof {
            reveal_strlit("Network error: ");
            reveal_strlit("JSON error: ");
            reveal_strlit("Authentication expired");
            reveal_strlit("Configuration error: ");
        }
        match self {
            OlympusError::Api { code, message, .. } => {
                let resolved = resolve_from_cache(cache, code.as_str(), locale, Some(message.as_str()));
                if resolved.as_str().is_empty() {
                    self.display_text()
                } else {
                    resolved
                }
            },
            OlympusError::Network(m) => crate::text::concat2("Network error: ", m.as_str()),
            OlympusError::Json(m) => crate::text::concat2("JSON error: ", m.as_str()),
            OlympusError::AuthExpired => "Authentication expired".to_owned(),
            OlympusError::Config(m) => crate::text::concat2("Configuration error: ", m.as_str()),
        }
    }

    /// The canonical error code, if this is a structured API error.
    pub fn code(&self) -> (r: Option<&str>)
        ensures
            match self@ {
                ErrorView::Api { code, .. } => r matches Some(c) && c@ == code,
                _ => r is None,
            },
    {
        match self {
            OlympusError::Api { code, .. } => Some(code.as_str()),
            _ => None,
        }
    }
}

/// Before the manifest is fetched, an API error's localized message is
/// the server's own message (or its code, when the server sent no
/// message, or its display text when it sent neither).
pub proof fn lemma_cold_cache_gives_server_message(e: ErrorView, cache: ManifestCache, locale: Seq<char>)
    requires
        cache.cached is None,
        e is Api,
    ensures
        localized_spec(e, cache, locale) == (if e->Api_message.len() > 0 {
            e->Api_message
        } else if e->Api_code.len() > 0 {
            e->Api_code
        } else {
            display_spec(e)
        }),
{
}

} // verus!
