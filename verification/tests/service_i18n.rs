use olympus_sdk::i18n::MessageMap;
use olympus_sdk::services::i18n::{
    default_version, ErrorManifest, ErrorManifestEntry, I18nService, I18nState,
};
use olympus_sdk::time::Duration;

fn messages(pairs: &[(&str, &str)]) -> MessageMap {
    MessageMap::from_pairs(pairs.iter().map(|(k, v)| (k.to_string(), v.to_string())).collect())
}

#[test]
fn entry_message_for_falls_back_to_en() {
    let entry = ErrorManifestEntry {
        code: "X".into(),
        messages: messages(&[("en", "english"), ("es", "spanish")]),
    };
    assert_eq!(entry.message_for("es"), Some("spanish"));
    assert_eq!(entry.message_for("de"), Some("english"));
}

#[test]
fn entry_message_for_returns_none_when_empty() {
    let entry = ErrorManifestEntry { code: "Y".into(), messages: MessageMap::new() };
    assert_eq!(entry.message_for("en"), None);
}

#[test]
fn manifest_entry_for_lookup() {
    let manifest = ErrorManifest {
        version: "1.0".into(),
        locales: vec!["en".into()],
        errors: vec![ErrorManifestEntry { code: "ABC".into(), messages: MessageMap::new() }],
    };
    assert!(manifest.entry_for("ABC").is_some());
    assert!(manifest.entry_for("XYZ").is_none());
}

fn manifest() -> ErrorManifest {
    ErrorManifest {
        version: default_version(),
        locales: vec!["en".into(), "es".into()],
        errors: vec![
            ErrorManifestEntry {
                code: "ORDER_NOT_FOUND".into(),
                messages: messages(&[("en", "Order not found"), ("es", "Pedido no encontrado")]),
            },
            ErrorManifestEntry { code: "EMPTY_EN".into(), messages: messages(&[("es", ""), ("en", "")]) },
        ],
    }
}

#[test]
fn message_for_keeps_an_empty_en_message() {
    let m = manifest();
    let e = m.entry_for("EMPTY_EN").unwrap();
    assert_eq!(e.message_for("es"), Some(""));
    assert_eq!(default_version(), "1.0");
}

#[test]
fn localize_falls_back_to_the_code() {
    let svc = I18nService;
    let m = manifest();
    assert_eq!(svc.localize(&m, "ORDER_NOT_FOUND", "es"), "Pedido no encontrado");
    assert_eq!(svc.localize(&m, "ORDER_NOT_FOUND", "de"), "Order not found");
    assert_eq!(svc.localize(&m, "NOPE", "es"), "NOPE");
    assert_eq!(svc.localize(&m, "   ", "es"), "");
    assert!(!svc.localize_needs_manifest("  \t"));
    assert!(svc.localize_needs_manifest("X"));
}

#[test]
fn localize_code_prefers_the_server_message_over_the_code() {
    let svc = I18nService;
    let m = manifest();
    assert_eq!(svc.localize_code(&m, "", "server", "es"), "server");
    assert_eq!(svc.localize_code(&m, "NOPE", "server", "es"), "server");
    assert_eq!(svc.localize_code(&m, "NOPE", "", "es"), "NOPE");
    assert_eq!(svc.localize_code(&m, "ORDER_NOT_FOUND", "server", "es"), "Pedido no encontrado");
    assert!(!svc.localize_code_needs_manifest(""));
}

#[test]
fn state_serves_for_an_hour_then_expires() {
    let mut state = I18nState::new();
    assert!(state.fresh_manifest(Duration::from_secs(0)).is_none());
    state.store(manifest(), Duration::from_secs(100));
    assert!(state.fresh_manifest(Duration::from_secs(100 + 3599)).is_some());
    assert!(state.fresh_manifest(Duration::from_secs(100 + 3600)).is_none());
    state.clear();
    assert!(state.fresh_manifest(Duration::from_secs(101)).is_none());
}

#[test]
fn errors_request_fetches_the_manifest() {
    let r = I18nService.errors_request();
    assert_eq!(r.path, "/v1/i18n/errors");
    assert!(r.query.is_empty());
}
