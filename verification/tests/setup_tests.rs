use rigorix_mcp::host::setup::{
    auth_setup, classifier_setup, extractor_setup, mock_planning, parse_u64, proxy_setup,
    schemas_from_descriptors, scored_backends, BackendKind, ClassifierSetup, ExtractorSetup,
    KeychainSetup,
};
use rigorix_mcp::json::{Json, JsonNumber};

fn obj(entries: Vec<(&str, Json)>) -> Json {
    Json::Object(entries.into_iter().map(|(k, v)| (k.to_string(), v)).collect())
}

fn text(s: &str) -> Json {
    Json::Str(s.to_string())
}

#[test]
fn parse_u64_reads_plain_numbers() {
    assert_eq!(parse_u64("0"), Some(0));
    assert_eq!(parse_u64("3600"), Some(3600));
    assert_eq!(parse_u64("+5"), Some(5));
    assert_eq!(parse_u64("18446744073709551615"), Some(u64::MAX));
}

#[test]
fn parse_u64_refuses_what_is_not_a_number() {
    assert_eq!(parse_u64(""), None);
    assert_eq!(parse_u64("+"), None);
    assert_eq!(parse_u64("-1"), None);
    assert_eq!(parse_u64(" 5"), None);
    assert_eq!(parse_u64("5s"), None);
    assert_eq!(parse_u64("18446744073709551616"), None);
}

#[test]
fn parse_u64_agrees_with_std() {
    for s in ["12", "007", "+0", "99999999999999999999", "1_0", "abc", "++1"] {
        assert_eq!(parse_u64(s), s.parse::<u64>().ok(), "{}", s);
    }
}

#[test]
fn mock_planning_switch() {
    assert!(mock_planning(Some("1")));
    assert!(mock_planning(Some("true")));
    assert!(mock_planning(Some("TRUE")));
    assert!(mock_planning(Some("True")));
    assert!(!mock_planning(Some("yes")));
    assert!(!mock_planning(Some("0")));
    assert!(!mock_planning(Some("true ")));
    assert!(!mock_planning(None));
}

#[test]
fn classifier_prefers_anthropic_then_openai() {
    match classifier_setup(false, Some("ak"), Some("ok"), None) {
        ClassifierSetup::Anthropic { key, model } => {
            assert_eq!(key, "ak");
            assert_eq!(model, None);
        }
        other => panic!("unexpected {:?}", other),
    }
    match classifier_setup(false, None, Some("ok"), None) {
        ClassifierSetup::OpenAi { key, model } => {
            assert_eq!(key, "ok");
            assert_eq!(model, "gpt-4o");
        }
        other => panic!("unexpected {:?}", other),
    }
    match classifier_setup(false, None, Some("ok"), Some("gpt-5")) {
        ClassifierSetup::OpenAi { model, .. } => assert_eq!(model, "gpt-5"),
        other => panic!("unexpected {:?}", other),
    }
    match classifier_setup(false, Some("ak"), None, Some("m1")) {
        ClassifierSetup::Anthropic { model, .. } => assert_eq!(model, Some("m1".to_string())),
        other => panic!("unexpected {:?}", other),
    }
}

#[test]
fn classifier_mock_when_switched_or_keyless() {
    assert!(matches!(classifier_setup(true, Some("ak"), None, None), ClassifierSetup::Mock));
    assert!(matches!(classifier_setup(true, None, Some("ok"), None), ClassifierSetup::Mock));
    assert!(matches!(classifier_setup(false, None, None, Some("m")), ClassifierSetup::Mock));
}

#[test]
fn extractor_choices() {
    assert!(matches!(extractor_setup(true, Some("ak"), None, None), ExtractorSetup::Mock));
    assert!(matches!(extractor_setup(false, None, None, None), ExtractorSetup::Mock));
    match extractor_setup(false, Some("ak"), Some("ok"), None) {
        ExtractorSetup::Llm { key, api_url, model, anthropic } => {
            assert_eq!(key, "ak");
            assert_eq!(api_url, "https://api.anthropic.com/v1/messages");
            assert_eq!(model, None);
            assert!(anthropic);
        }
        other => panic!("unexpected {:?}", other),
    }
    match extractor_setup(false, None, Some("ok"), Some("gpt-4o")) {
        ExtractorSetup::Llm { key, api_url, model, anthropic } => {
            assert_eq!(key, "ok");
            assert_eq!(api_url, "https://api.openai.com/v1/chat/completions");
            assert_eq!(model, Some("gpt-4o".to_string()));
            assert!(!anthropic);
        }
        other => panic!("unexpected {:?}", other),
    }
}

#[test]
fn scored_backends_keep_usable_entries_in_order() {
    let config = obj(vec![(
        "scored_evaluation",
        obj(vec![(
            "backends",
            obj(vec![
                ("lint", obj(vec![("type", text("local")), ("script_path", text("scripts/lint.sh"))])),
                ("broken", obj(vec![("type", text("local"))])),
                (
                    "remote",
                    obj(vec![
                        ("type", text("http")),
                        ("url", text("http://scorer")),
                        ("timeout_ms", Json::Number(JsonNumber::UInt(500))),
                    ]),
                ),
                ("unknown", obj(vec![("type", text("grpc")), ("url", text("x"))])),
                ("tools", obj(vec![("type", text("mcp")), ("url", text("http://mcp"))])),
            ]),
        )]),
    )]);
    let backends = scored_backends(&config);
    assert_eq!(backends.len(), 3);
    assert_eq!(backends[0].name, "lint");
    assert!(matches!(&backends[0].kind, BackendKind::Local { script_path } if script_path == "scripts/lint.sh"));
    assert_eq!(backends[0].timeout_ms, 30000);
    assert_eq!(backends[1].name, "remote");
    assert!(matches!(&backends[1].kind, BackendKind::Http { url } if url == "http://scorer"));
    assert_eq!(backends[1].timeout_ms, 500);
    assert_eq!(backends[2].name, "tools");
    assert!(matches!(&backends[2].kind, BackendKind::Mcp { url } if url == "http://mcp"));
}

#[test]
fn scored_backends_empty_without_table() {
    assert!(scored_backends(&obj(vec![])).is_empty());
    assert!(scored_backends(&obj(vec![("scored_evaluation", obj(vec![]))])).is_empty());
    assert!(scored_backends(&obj(vec![(
        "scored_evaluation",
        obj(vec![("backends", Json::Array(vec![]))])
    )]))
    .is_empty());
}

#[test]
fn auth_setup_needs_issuer_and_client() {
    assert!(auth_setup(None, Some("c"), None, None, None).is_none());
    assert!(auth_setup(Some("http://idp"), None, None, None, None).is_none());
    assert!(auth_setup(Some("  "), Some("c"), None, None, None).is_none());
    assert!(auth_setup(Some("http://idp"), Some(""), None, None, None).is_none());
    let a = auth_setup(Some("http://idp"), Some("gw"), Some("s3"), Some("900"), None).unwrap();
    assert_eq!(a.issuer, "http://idp");
    assert_eq!(a.client_id, "gw");
    assert_eq!(a.client_secret, Some("s3".to_string()));
    assert_eq!(a.access_token_ttl_secs, Some(900));
    assert!(matches!(a.keychain, KeychainSetup::Os));
}

#[test]
fn auth_setup_plaintext_storage_only_when_named() {
    let a = auth_setup(Some("i"), Some("c"), None, Some("soon"), Some("/tmp/tokens")).unwrap();
    assert_eq!(a.access_token_ttl_secs, None);
    assert!(matches!(&a.keychain, KeychainSetup::Plaintext { dir } if dir == "/tmp/tokens"));
    let b = auth_setup(Some("i"), Some("c"), None, None, Some("   ")).unwrap();
    assert!(matches!(b.keychain, KeychainSetup::Os));
}

#[test]
fn proxy_setup_needs_url_and_key() {
    assert!(proxy_setup(None, Some("k"), None, None, None).is_none());
    assert!(proxy_setup(Some("http://p"), None, None, None, None).is_none());
    let p = proxy_setup(Some("http://p"), Some("k"), Some("30"), Some("no"), Some("x")).unwrap();
    assert_eq!(p.api_url, "http://p");
    assert_eq!(p.api_key, "k");
    assert_eq!(p.timeout_secs, Some(30));
    assert_eq!(p.tls_verify, Some(false));
    assert_eq!(p.schema_ttl_secs, None);
    let q = proxy_setup(Some("u"), Some("k"), None, Some("yes"), Some("60")).unwrap();
    assert_eq!(q.tls_verify, Some(true));
    assert_eq!(q.schema_ttl_secs, Some(60));
    assert_eq!(q.timeout_secs, None);
    for off in ["false", "0", "no"] {
        assert_eq!(proxy_setup(Some("u"), Some("k"), None, Some(off), None).unwrap().tls_verify, Some(false));
    }
}

#[test]
fn descriptors_become_schemas() {
    let ds = vec![
        obj(vec![
            ("name", text("rigorix_execute")),
            ("description", text("Run a plan")),
            ("inputSchema", obj(vec![("type", text("object"))])),
        ]),
        obj(vec![("description", text("nameless"))]),
        obj(vec![("name", text("bare"))]),
    ];
    let schemas = schemas_from_descriptors(&ds);
    assert_eq!(schemas.len(), 2);
    assert_eq!(schemas[0].name, "rigorix_execute");
    assert_eq!(schemas[0].description, "Run a plan");
    assert_eq!(schemas[0].input_schema, obj(vec![("type", text("object"))]));
    assert_eq!(schemas[1].name, "bare");
    assert_eq!(schemas[1].description, "");
    assert_eq!(schemas[1].input_schema, Json::Null);
}
