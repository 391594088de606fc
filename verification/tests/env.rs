//! Tests of configuration derived from environment-variable values.

use portkey_sdk::config::EnvValues;
use portkey_sdk::{AuthMethod, Error, PortkeyBuilderError, PortkeyConfig};

fn empty_env() -> EnvValues {
    EnvValues {
        api_key: None,
        virtual_key: None,
        provider: None,
        authorization: None,
        custom_host: None,
        config_id: None,
        base_url: None,
        timeout_secs: None,
        trace_id: None,
        cache_namespace: None,
        cache_force_refresh: None,
    }
}

#[test]
fn test_env_missing_api_key() {
    let r = PortkeyConfig::from_env_values(empty_env());
    assert!(matches!(
        r,
        Err(Error::Config(PortkeyBuilderError::ValidationError(ref m)))
            if m == "PORTKEY_API_KEY environment variable not set"
    ));
}

#[test]
fn test_env_missing_auth_source() {
    let mut v = empty_env();
    v.api_key = Some("key".to_string());
    let r = PortkeyConfig::from_env_values(v);
    assert!(matches!(
        r,
        Err(Error::Config(PortkeyBuilderError::ValidationError(ref m)))
            if m == "One of PORTKEY_VIRTUAL_KEY, PORTKEY_PROVIDER, or PORTKEY_CONFIG must be set"
    ));
}

#[test]
fn test_env_provider_without_authorization() {
    let mut v = empty_env();
    v.api_key = Some("key".to_string());
    v.provider = Some("openai".to_string());
    let r = PortkeyConfig::from_env_values(v);
    assert!(matches!(
        r,
        Err(Error::Config(PortkeyBuilderError::ValidationError(ref m)))
            if m == "PORTKEY_AUTHORIZATION required when PORTKEY_PROVIDER is set"
    ));
}

#[test]
fn test_env_virtual_key_happy_path() {
    let mut v = empty_env();
    v.api_key = Some("env_key".to_string());
    v.virtual_key = Some("vk-env".to_string());
    v.timeout_secs = Some("60".to_string());
    v.trace_id = Some("trace-env".to_string());
    let config = PortkeyConfig::from_env_values(v).unwrap();
    assert_eq!(config.api_key(), "env_key");
    assert_eq!(config.base_url(), "https://api.portkey.ai/v1");
    assert_eq!(config.timeout(), 60_000);
    assert_eq!(config.trace_id().as_deref(), Some("trace-env"));
    matches!(
        config.auth_method(),
        AuthMethod::VirtualKey { virtual_key } if virtual_key == "vk-env"
    );
}

#[test]
fn test_env_virtual_key_precedes_provider() {
    let mut v = empty_env();
    v.api_key = Some("key".to_string());
    v.virtual_key = Some("vk-1".to_string());
    v.provider = Some("openai".to_string());
    v.authorization = Some("Bearer x".to_string());
    let config = PortkeyConfig::from_env_values(v).unwrap();
    assert!(matches!(
        config.auth_method(),
        AuthMethod::VirtualKey { .. }
    ));
}

#[test]
fn test_env_config_id_auth() {
    let mut v = empty_env();
    v.api_key = Some("key".to_string());
    v.config_id = Some("pc-9".to_string());
    let config = PortkeyConfig::from_env_values(v).unwrap();
    assert!(matches!(config.auth_method(), AuthMethod::Config { .. }));
}

#[test]
fn test_env_invalid_timeout() {
    let mut v = empty_env();
    v.api_key = Some("key".to_string());
    v.virtual_key = Some("vk".to_string());
    v.timeout_secs = Some("abc".to_string());
    let r = PortkeyConfig::from_env_values(v);
    assert!(matches!(
        r,
        Err(Error::Config(PortkeyBuilderError::ValidationError(ref m)))
            if m == "Invalid PORTKEY_TIMEOUT_SECS value: abc"
    ));
}

#[test]
fn test_env_timeout_out_of_range() {
    let mut v = empty_env();
    v.api_key = Some("key".to_string());
    v.virtual_key = Some("vk".to_string());
    v.timeout_secs = Some("301".to_string());
    let r = PortkeyConfig::from_env_values(v);
    assert!(matches!(
        r,
        Err(Error::Config(PortkeyBuilderError::ValidationError(ref m)))
            if m == "Timeout cannot exceed 300 seconds (5 minutes)"
    ));
}

#[test]
fn test_env_cache_force_refresh_parsing() {
    let mut v = empty_env();
    v.api_key = Some("key".to_string());
    v.virtual_key = Some("vk".to_string());
    v.cache_force_refresh = Some("true".to_string());
    let config = PortkeyConfig::from_env_values(v).unwrap();
    assert_eq!(config.cache_force_refresh(), Some(true));

    let mut v = empty_env();
    v.api_key = Some("key".to_string());
    v.virtual_key = Some("vk".to_string());
    v.cache_force_refresh = Some("garbage".to_string());
    let config = PortkeyConfig::from_env_values(v).unwrap();
    assert_eq!(config.cache_force_refresh(), None);
}

#[test]
fn test_env_custom_base_url_and_host() {
    let mut v = empty_env();
    v.api_key = Some("key".to_string());
    v.provider = Some("openai".to_string());
    v.authorization = Some("Bearer sk".to_string());
    v.custom_host = Some("https://self.hosted".to_string());
    v.base_url = Some("https://gw.internal/v1".to_string());
    let config = PortkeyConfig::from_env_values(v).unwrap();
    assert_eq!(config.base_url(), "https://gw.internal/v1");
    assert!(matches!(
        config.auth_method(),
        AuthMethod::ProviderAuth { custom_host: Some(ref h), .. } if h == "https://self.hosted"
    ));
}
