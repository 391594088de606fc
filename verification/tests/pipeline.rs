//! Tests of header assembly, URL assembly, and response classification.

use std::collections::HashMap;

use portkey_sdk::pipeline::{
    build_headers, classify_response, prepare_request, HttpMethod, RequestDescriptor,
};
use portkey_sdk::urlbuild::assemble_url;
use portkey_sdk::{AuthMethod, Error, PortkeyConfig};

fn base_config(auth: AuthMethod) -> PortkeyConfig {
    PortkeyConfig::builder()
        .with_api_key("test_api_key")
        .with_auth_method(auth)
        .build()
        .unwrap()
}

#[test]
fn test_headers_virtual_key_exact() {
    let config = base_config(AuthMethod::VirtualKey {
        virtual_key: "vk-123".to_string(),
    });
    let headers = build_headers(&config);
    assert_eq!(
        headers,
        vec![
            ("x-portkey-api-key".to_string(), "test_api_key".to_string()),
            ("x-portkey-virtual-key".to_string(), "vk-123".to_string()),
        ]
    );
}

#[test]
fn test_headers_provider_auth_exact() {
    let config = base_config(AuthMethod::ProviderAuth {
        provider: "openai".to_string(),
        authorization: "Bearer sk-123".to_string(),
        custom_host: None,
    });
    let headers = build_headers(&config);
    assert_eq!(
        headers,
        vec![
            ("x-portkey-api-key".to_string(), "test_api_key".to_string()),
            ("x-portkey-provider".to_string(), "openai".to_string()),
            ("Authorization".to_string(), "Bearer sk-123".to_string()),
        ]
    );
}

#[test]
fn test_headers_provider_auth_custom_host() {
    let config = base_config(AuthMethod::provider_auth_with_host(
        "anthropic",
        "Bearer token",
        "https://custom.host",
    ));
    let headers = build_headers(&config);
    assert_eq!(
        headers,
        vec![
            ("x-portkey-api-key".to_string(), "test_api_key".to_string()),
            ("x-portkey-provider".to_string(), "anthropic".to_string()),
            ("Authorization".to_string(), "Bearer token".to_string()),
            ("x-portkey-custom-host".to_string(), "https://custom.host".to_string()),
        ]
    );
}

#[test]
fn test_headers_config_exact() {
    let config = base_config(AuthMethod::Config {
        config_id: "pc-config-123".to_string(),
    });
    let headers = build_headers(&config);
    assert_eq!(
        headers,
        vec![
            ("x-portkey-api-key".to_string(), "test_api_key".to_string()),
            ("x-portkey-config".to_string(), "pc-config-123".to_string()),
        ]
    );
}

#[test]
fn test_headers_optional_values() {
    let mut metadata = HashMap::new();
    metadata.insert(
        "user_id".to_string(),
        serde_json::Value::String("12345".to_string()),
    );
    let config = PortkeyConfig::builder()
        .with_api_key("test_api_key")
        .with_auth_method(AuthMethod::virtual_key("vk-123"))
        .with_trace_id("trace-123")
        .with_metadata(metadata)
        .with_cache_namespace("my-cache")
        .with_cache_force_refresh(true)
        .build()
        .unwrap();
    let headers = build_headers(&config);
    assert_eq!(
        headers,
        vec![
            ("x-portkey-api-key".to_string(), "test_api_key".to_string()),
            ("x-portkey-virtual-key".to_string(), "vk-123".to_string()),
            ("x-portkey-trace-id".to_string(), "trace-123".to_string()),
            (
                "x-portkey-metadata".to_string(),
                "{\"user_id\":\"12345\"}".to_string()
            ),
            ("x-portkey-cache-namespace".to_string(), "my-cache".to_string()),
            ("x-portkey-cache-force-refresh".to_string(), "true".to_string()),
        ]
    );
}

#[test]
fn test_url_join_without_trailing_slash() {
    let url = assemble_url("https://api.example.com/v1", "/chat/completions", &vec![]).unwrap();
    assert_eq!(url, "https://api.example.com/v1/chat/completions");
}

#[test]
fn test_url_join_with_trailing_slash() {
    let url = assemble_url("https://api.example.com/v1/", "/chat/completions", &vec![]).unwrap();
    assert_eq!(url, "https://api.example.com/v1/chat/completions");
}

#[test]
fn test_url_invalid_base() {
    let r = assemble_url("not a url", "/x", &vec![]);
    assert!(matches!(r, Err(Error::UrlParse(_))));
}

#[test]
fn test_url_query_order_kept() {
    let q1 = vec![
        ("b".to_string(), "2".to_string()),
        ("a".to_string(), "1".to_string()),
    ];
    let url = assemble_url("https://api.example.com/v1", "/models", &q1).unwrap();
    assert_eq!(url, "https://api.example.com/v1/models?b=2&a=1");

    let q2 = vec![
        ("a".to_string(), "1".to_string()),
        ("b".to_string(), "2".to_string()),
    ];
    let url = assemble_url("https://api.example.com/v1", "/models", &q2).unwrap();
    assert_eq!(url, "https://api.example.com/v1/models?a=1&b=2");
}

#[test]
fn test_url_query_percent_encoding() {
    let q = vec![("q".to_string(), "a b&c".to_string())];
    let url = assemble_url("https://api.example.com/v1", "/search", &q).unwrap();
    assert_eq!(url, "https://api.example.com/v1/search?q=a+b%26c");
}

#[test]
fn test_prepare_request_full() {
    let config = PortkeyConfig::builder()
        .with_api_key("test_api_key")
        .with_auth_method(AuthMethod::virtual_key("vk-123"))
        .with_base_url("https://api.example.com/v1/")
        .with_timeout(45_000)
        .build()
        .unwrap();
    let desc = RequestDescriptor::json(
        HttpMethod::Post,
        "/chat/completions",
        "{\"model\":\"gpt-4o\"}".to_string(),
    );
    let prepared = prepare_request(&config, desc).unwrap();
    assert_eq!(prepared.method, HttpMethod::Post);
    assert_eq!(prepared.url, "https://api.example.com/v1/chat/completions");
    assert_eq!(prepared.timeout_ms, 45_000);
    assert_eq!(prepared.headers[0].0, "x-portkey-api-key");
}

#[test]
fn test_prepare_request_override_timeout() {
    let config = base_config(AuthMethod::virtual_key("vk"));
    let mut desc = RequestDescriptor::new(HttpMethod::Get, "/models");
    desc.override_timeout_ms = Some(5_000);
    let prepared = prepare_request(&config, desc).unwrap();
    assert_eq!(prepared.timeout_ms, 5_000);
}

#[test]
fn test_classify_response_errors() {
    for status in [400u16, 401, 429, 500] {
        let r = classify_response(status, "{\"ok\":true}".to_string());
        match r {
            Err(Error::Api {
                status: s,
                message,
            }) => {
                assert_eq!(s, status);
                assert_eq!(message, "{\"ok\":true}");
            }
            other => panic!("expected an API error, got {:?}", other),
        }
    }
}

#[test]
fn test_classify_response_success() {
    let r = classify_response(200, "{\"ok\":true}".to_string());
    assert_eq!(r.unwrap(), "{\"ok\":true}");
}

#[test]
fn test_error_messages() {
    let e = Error::Config(portkey_sdk::PortkeyBuilderError::ValidationError(
        "API key cannot be empty".to_string(),
    ));
    assert_eq!(e.message(), "Configuration error: API key cannot be empty");
    let e = Error::Api {
        status: 500,
        message: "boom".to_string(),
    };
    assert_eq!(e.message(), "API error: boom");
}
