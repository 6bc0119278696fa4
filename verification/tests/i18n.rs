use olympus_sdk::i18n::{
    _reset_cache_for_tests, _seed_cache_for_tests, cache_get_by_code, cache_get_if_fresh, cache_get_unchecked,
    candidate_locales, cache_store, default_ttl,
    fallback_or_code, parse_max_age, resolve_from_cache, resolve_manifest, ErrorManifest,
    ErrorManifestEntry, ManifestCache, MessageMap,
};
use olympus_sdk::time::Duration;
use olympus_sdk::OlympusError;

fn messages(pairs: &[(&str, &str)]) -> MessageMap {
    MessageMap::from_pairs(pairs.iter().map(|(k, v)| (k.to_string(), v.to_string())).collect())
}

fn build_manifest() -> ErrorManifest {
    ErrorManifest {
        version: "1.0".into(),
        locales: vec!["en".into(), "es".into(), "fr".into()],
        errors: vec![
            ErrorManifestEntry {
                code: "BAD_REQUEST".into(),
                messages: messages(&[
                    ("en", "The request is invalid."),
                    ("es", "La solicitud no es válida."),
                    ("fr", "La requête n'est pas valide."),
                ]),
            },
            ErrorManifestEntry {
                code: "VALIDATION_ERROR".into(),
                messages: messages(&[
                    ("en", "Validation failed."),
                    ("es", "La validación falló."),
                    ("fr", "La validation a échoué."),
                ]),
            },
        ],
    }
}

#[test]
fn candidate_locales_strips_region_tag_and_appends_en() {
    assert_eq!(
        candidate_locales("es-MX"),
        vec!["es-MX".to_string(), "es".to_string(), "en".to_string()]
    );
}

#[test]
fn candidate_locales_dedupes_en() {
    assert_eq!(candidate_locales("en"), vec!["en".to_string()]);
}

#[test]
fn candidate_locales_strips_on_first_dash_for_three_part() {
    assert_eq!(
        candidate_locales("zh-Hant-TW"),
        vec!["zh-Hant-TW".to_string(), "zh".to_string(), "en".to_string()]
    );
}

#[test]
fn candidate_locales_handles_empty() {
    assert_eq!(candidate_locales(""), vec!["en".to_string()]);
}

#[test]
fn resolve_prefers_exact_locale() {
    let m = build_manifest();
    assert_eq!(
        resolve_manifest(&m, "BAD_REQUEST", "es", None),
        "La solicitud no es válida."
    );
}

#[test]
fn resolve_falls_back_to_base_locale() {
    let m = build_manifest();
    assert_eq!(
        resolve_manifest(&m, "BAD_REQUEST", "es-MX", None),
        "La solicitud no es válida."
    );
}

#[test]
fn resolve_falls_back_to_en_for_unknown_locale() {
    let m = build_manifest();
    assert_eq!(
        resolve_manifest(&m, "BAD_REQUEST", "de", None),
        "The request is invalid."
    );
}

#[test]
fn resolve_falls_back_to_caller_for_unknown_code() {
    let m = build_manifest();
    assert_eq!(
        resolve_manifest(&m, "TOTALLY_FAKE", "es", Some("server-said-so")),
        "server-said-so"
    );
}

#[test]
fn resolve_returns_code_when_nothing_matches_and_no_fallback() {
    let m = build_manifest();
    assert_eq!(resolve_manifest(&m, "TOTALLY_FAKE", "es", None), "TOTALLY_FAKE");
}

#[test]
fn parse_max_age_extracts_seconds() {
    assert_eq!(parse_max_age(Some("public, max-age=3600")), Duration::from_secs(3600));
}

#[test]
fn parse_max_age_returns_default_for_missing_header() {
    assert_eq!(parse_max_age(None), default_ttl());
}

#[test]
fn parse_max_age_returns_default_when_unparseable() {
    assert_eq!(parse_max_age(Some("public, no-store")), default_ttl());
    assert_eq!(parse_max_age(Some("max-age=garbage")), default_ttl());
}

#[test]
fn parse_max_age_handles_zero() {
    assert_eq!(parse_max_age(Some("max-age=0")), Duration::from_secs(0));
}

#[test]
fn resolve_from_cache_returns_fallback_when_empty() {
    let mut cache = ManifestCache::new();
    _reset_cache_for_tests(&mut cache);
    assert_eq!(
        resolve_from_cache(&cache, "BAD_REQUEST", "es", Some("server fallback")),
        "server fallback"
    );
}

#[test]
fn resolve_from_cache_uses_warm_cache() {
    let mut cache = ManifestCache::new();
    _reset_cache_for_tests(&mut cache);
    _seed_cache_for_tests(&mut cache, build_manifest(), Duration::from_secs(3600));
    assert_eq!(
        resolve_from_cache(&cache, "BAD_REQUEST", "es", Some("server")),
        "La solicitud no es válida."
    );
    _reset_cache_for_tests(&mut cache);
}

// ---------------------------------------------------------------------------
// Further cases
// ---------------------------------------------------------------------------

#[test]
fn candidate_chain_ends_in_en_without_repeats() {
    for locale in ["es-MX", "en", "en-GB", "", "-x", "fr", "zh-Hant-TW"] {
        let chain = candidate_locales(locale);
        assert_eq!(chain.last().map(String::as_str), Some("en"));
        for (i, a) in chain.iter().enumerate() {
            for b in &chain[i + 1..] {
                assert_ne!(a, b);
            }
        }
    }
    assert_eq!(candidate_locales("en-GB"), vec!["en-GB".to_string(), "en".to_string()]);
    assert_eq!(candidate_locales("-x"), vec!["-x".to_string(), "en".to_string()]);
}

#[test]
fn resolve_skips_empty_messages_along_the_chain() {
    let m = ErrorManifest {
        version: "1.0".into(),
        locales: vec![],
        errors: vec![ErrorManifestEntry {
            code: "X".into(),
            messages: messages(&[("es", ""), ("en", "english")]),
        }],
    };
    assert_eq!(resolve_manifest(&m, "X", "es-MX", None), "english");
}

#[test]
fn resolve_uses_first_entry_but_cache_uses_last_for_repeated_codes() {
    let m = ErrorManifest {
        version: "1.0".into(),
        locales: vec![],
        errors: vec![
            ErrorManifestEntry { code: "DUP".into(), messages: messages(&[("en", "first")]) },
            ErrorManifestEntry { code: "DUP".into(), messages: messages(&[("en", "second")]) },
        ],
    };
    assert_eq!(resolve_manifest(&m, "DUP", "en", None), "first");
    let mut cache = ManifestCache::new();
    cache_store(&mut cache, m, Duration::from_secs(60), Duration::from_secs(0));
    assert_eq!(resolve_from_cache(&cache, "DUP", "en", None), "second");
}

#[test]
fn cache_agrees_with_manifest_for_unique_codes() {
    let mut cache = ManifestCache::new();
    _seed_cache_for_tests(&mut cache, build_manifest(), Duration::from_secs(3600));
    let m = build_manifest();
    for code in ["BAD_REQUEST", "VALIDATION_ERROR", "NOPE"] {
        for locale in ["es", "fr-CA", "de", ""] {
            assert_eq!(
                resolve_from_cache(&cache, code, locale, Some("fb")),
                resolve_manifest(&m, code, locale, Some("fb"))
            );
        }
    }
}

#[test]
fn fresh_cache_expires_after_its_ttl() {
    let mut cache = ManifestCache::new();
    cache_store(&mut cache, build_manifest(), Duration::from_secs(10), Duration::from_secs(100));
    assert!(cache_get_if_fresh(&cache, Duration::from_secs(105)).is_some());
    assert!(cache_get_if_fresh(&cache, Duration::from_secs(110)).is_none());
    assert!(cache_get_unchecked(&cache).is_some());
    let index = cache_get_by_code(&cache).expect("index");
    assert_eq!(index.get("VALIDATION_ERROR").map(|e| e.code.as_str()), Some("VALIDATION_ERROR"));
    assert!(index.get("NOPE").is_none());
}

#[test]
fn fallback_or_code_prefers_non_empty_fallback() {
    assert_eq!(fallback_or_code("CODE", Some("msg")), "msg");
    assert_eq!(fallback_or_code("CODE", Some("")), "CODE");
    assert_eq!(fallback_or_code("CODE", None), "CODE");
}

#[test]
fn parse_max_age_takes_first_valid_directive() {
    assert_eq!(parse_max_age(Some("no-cache, max-age=x, max-age=120")), Duration::from_secs(120));
    assert_eq!(parse_max_age(Some("  max-age=+7  ")), Duration::from_secs(7));
    assert_eq!(parse_max_age(Some("max-age=18446744073709551616")), default_ttl());
    assert_eq!(default_ttl(), Duration::from_secs(3600));
}

#[test]
fn message_map_later_pair_wins() {
    let m = messages(&[("en", "a"), ("es", "b"), ("en", "c")]);
    assert_eq!(m.get("en").map(String::as_str), Some("c"));
    assert_eq!(m.len(), 2);
    let mut n = MessageMap::new();
    n.insert("fr".into(), "x".into());
    assert_eq!(n.get("fr").map(String::as_str), Some("x"));
    assert!(n.get("de").is_none());
}

#[test]
fn localized_message_uses_cache_then_server_message() {
    let err = OlympusError::Api {
        status: 400,
        code: "BAD_REQUEST".into(),
        message: "server text".into(),
        request_id: None,
    };
    let cold = ManifestCache::new();
    assert_eq!(err.localized_message(&cold, "es"), "server text");
    let mut warm = ManifestCache::new();
    _seed_cache_for_tests(&mut warm, build_manifest(), Duration::from_secs(3600));
    assert_eq!(err.localized_message(&warm, "es"), "La solicitud no es válida.");
    assert_eq!(err.code(), Some("BAD_REQUEST"));
    let other = OlympusError::Config("bad".into());
    assert_eq!(other.localized_message(&warm, "es"), "Configuration error: bad");
    assert_eq!(other.code(), None);
}
