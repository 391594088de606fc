//! Configuration builder and accessor tests.

use std::collections::HashMap;

use portkey_sdk::{AuthMethod, PortkeyConfig};

#[test]
fn test_config_builder() {
    let config = PortkeyConfig::builder()
        .with_api_key("test_key")
        .with_auth_method(AuthMethod::VirtualKey {
            virtual_key: "test_virtual_key".to_string(),
        })
        .build()
        .unwrap();

    assert_eq!(config.api_key(), "test_key");
    assert_eq!(config.base_url(), "https://api.portkey.ai/v1");
    assert_eq!(config.timeout(), 30_000);
}

#[test]
fn test_config_builder_with_custom_values() {
    let config = PortkeyConfig::builder()
        .with_api_key("test_key")
        .with_auth_method(AuthMethod::VirtualKey {
            virtual_key: "test_virtual_key".to_string(),
        })
        .with_base_url("https://custom.api.com")
        .with_timeout(60_000)
        .build()
        .unwrap();

    assert_eq!(config.api_key(), "test_key");
    assert_eq!(config.base_url(), "https://custom.api.com");
    assert_eq!(config.timeout(), 60_000);
}

#[test]
fn test_config_validation_empty_api_key() {
    let result = PortkeyConfig::builder()
        .with_api_key("")
        .with_auth_method(AuthMethod::VirtualKey {
            virtual_key: "test".to_string(),
        })
        .build();
    assert!(result.is_err());
}

#[test]
fn test_config_validation_zero_timeout() {
    let result = PortkeyConfig::builder()
        .with_api_key("test_key")
        .with_auth_method(AuthMethod::VirtualKey {
            virtual_key: "test".to_string(),
        })
        .with_timeout(0)
        .build();

    assert!(result.is_err());
}

#[test]
fn test_config_validation_excessive_timeout() {
    let result = PortkeyConfig::builder()
        .with_api_key("test_key")
        .with_auth_method(AuthMethod::VirtualKey {
            virtual_key: "test".to_string(),
        })
        .with_timeout(400_000)
        .build();

    assert!(result.is_err());
}

#[test]
fn test_masked_api_key() {
    let config = PortkeyConfig::builder()
        .with_api_key("test_key_12345")
        .with_auth_method(AuthMethod::VirtualKey {
            virtual_key: "test".to_string(),
        })
        .build()
        .unwrap();

    assert_eq!(config.masked_api_key(), "test****");
}

#[test]
fn test_masked_api_key_short() {
    let config = PortkeyConfig::builder()
        .with_api_key("abc")
        .with_auth_method(AuthMethod::VirtualKey {
            virtual_key: "test".to_string(),
        })
        .build()
        .unwrap();

    assert_eq!(config.masked_api_key(), "****");
}

#[test]
fn config_test_auth_method_virtual_key() {
    let config = PortkeyConfig::builder()
        .with_api_key("test_key")
        .with_auth_method(AuthMethod::VirtualKey {
            virtual_key: "vk-123".to_string(),
        })
        .build()
        .unwrap();

    matches!(
        config.auth_method(),
        AuthMethod::VirtualKey { virtual_key } if virtual_key == "vk-123"
    );
}

#[test]
fn config_test_auth_method_provider_auth() {
    let config = PortkeyConfig::builder()
        .with_api_key("test_key")
        .with_auth_method(AuthMethod::ProviderAuth {
            provider: "openai".to_string(),
            authorization: "Bearer sk-123".to_string(),
            custom_host: None,
        })
        .build()
        .unwrap();

    matches!(
        config.auth_method(),
        AuthMethod::ProviderAuth { provider, .. } if provider == "openai"
    );
}

#[test]
fn config_test_auth_method_config() {
    let config = PortkeyConfig::builder()
        .with_api_key("test_key")
        .with_auth_method(AuthMethod::Config {
            config_id: "pc-config-123".to_string(),
        })
        .build()
        .unwrap();

    matches!(
        config.auth_method(),
        AuthMethod::Config { config_id } if config_id == "pc-config-123"
    );
}

#[test]
fn test_optional_headers() {
    let mut metadata = HashMap::new();
    metadata.insert(
        "user_id".to_string(),
        serde_json::Value::String("12345".to_string()),
    );

    let config = PortkeyConfig::builder()
        .with_api_key("test_key")
        .with_auth_method(AuthMethod::VirtualKey {
            virtual_key: "vk-123".to_string(),
        })
        .with_trace_id("trace-123")
        .with_metadata(metadata.clone())
        .with_cache_namespace("my-cache")
        .with_cache_force_refresh(true)
        .build()
        .unwrap();

    assert_eq!(config.trace_id().as_deref(), Some("trace-123"));
    assert_eq!(config.cache_namespace().as_deref(), Some("my-cache"));
    assert_eq!(config.cache_force_refresh(), Some(true));
    assert!(config.metadata().is_some());
}

#[test]
fn test_builder_determinism() {
    let build = || {
        PortkeyConfig::builder()
            .with_api_key("determined_key")
            .with_auth_method(AuthMethod::config("pc-1"))
            .with_base_url("https://gw.example.com/v1")
            .with_timeout(12_345)
            .build()
            .unwrap()
    };
    let a = build();
    let b = build();
    assert_eq!(a.base_url(), b.base_url());
    assert_eq!(a.timeout(), b.timeout());
    assert_eq!(a.masked_api_key(), b.masked_api_key());
}

#[test]
fn test_whitespace_api_key_rejected() {
    let result = PortkeyConfig::builder()
        .with_api_key("   \t\n ")
        .with_auth_method(AuthMethod::virtual_key("vk"))
        .build();
    assert!(matches!(
        result,
        Err(portkey_sdk::PortkeyBuilderError::ValidationError(ref m)) if m == "API key cannot be empty"
    ));
}

#[test]
fn test_missing_auth_method_rejected() {
    let result = PortkeyConfig::builder().with_api_key("test_key").build();
    assert!(matches!(
        result,
        Err(portkey_sdk::PortkeyBuilderError::UninitializedField("auth_method"))
    ));
}

#[test]
fn test_masked_api_key_boundary() {
    let build_with = |key: &str| {
        PortkeyConfig::builder()
            .with_api_key(key)
            .with_auth_method(AuthMethod::virtual_key("vk"))
            .build()
            .unwrap()
    };
    assert_eq!(build_with("abcd").masked_api_key(), "****");
    assert_eq!(build_with("abcde").masked_api_key(), "abcd****");
}

#[test]
fn test_timeout_boundary_accepted() {
    let config = PortkeyConfig::builder()
        .with_api_key("test_key")
        .with_auth_method(AuthMethod::virtual_key("vk"))
        .with_timeout(300_000)
        .build()
        .unwrap();
    assert_eq!(config.timeout(), 300_000);
}
