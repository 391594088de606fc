//! Client configuration and its validating builder.
//!
//! A [`PortkeyConfig`] is immutable once built and holds everything a
//! request needs besides the per-call descriptor: the API key, the
//! authentication method, the base URL, the timeout, and the optional
//! passthrough values that become headers.  The only place
//! construction-time errors originate is [`PortkeyBuilder::build`].

use std::collections::HashMap;
use vstd::prelude::*;

use crate::auth::AuthMethod;
use crate::error::{Error, PortkeyBuilderError};
use crate::text::{all_whitespace, is_blank, parse_bool, parse_u64, spec_digits_val, spec_number_body, spec_parses_u64};

verus! {

/// Default request timeout, in milliseconds.
pub const DEFAULT_TIMEOUT_MS: u64 = 30000;

/// Upper bound on the request timeout, in milliseconds: five minutes.
pub const MAX_TIMEOUT_MS: u64 = 300000;

/// The canonical gateway URL, used when no base URL is given.
pub open spec fn default_base_url_seq() -> Seq<char> {
    "https://api.portkey.ai/v1"@
}

/// The display-safe rendering of an API key: its first four characters
/// followed by `****`, or plain `****` when the key has no more than four
/// characters.
pub open spec fn spec_masked_key(key: Seq<char>) -> Seq<char> {
    if key.len() > 4 {
        key.subrange(0, 4) + "****"@
    } else {
        "****"@
    }
}

/// The view of an optional string, for comparing field values.
pub open spec fn opt_str_view(o: Option<String>) -> Option<Seq<char>> {
    match o {
        Some(s) => Some(s@),
        None => None,
    }
}

/// Immutable configuration for the Portkey API client.
///
/// Built once through [`PortkeyBuilder`], then shared read-only by every
/// subsequent call; never mutated after construction.
pub struct PortkeyConfig {
    api_key: String,
    auth_method: AuthMethod,
    base_url: String,
    timeout_ms: u64,
    trace_id: Option<String>,
    metadata: Option<HashMap<String, serde_json::Value>>,
    cache_namespace: Option<String>,
    cache_force_refresh: Option<bool>,
}

impl PortkeyConfig {
    /// The API key, as a specification-level value.
    pub closed spec fn spec_api_key(self) -> String {
        self.api_key
    }

    /// The authentication method, as a specification-level value.
    pub closed spec fn spec_auth_method(self) -> AuthMethod {
        self.auth_method
    }

    /// The base URL, as a specification-level value.
    pub closed spec fn spec_base_url(self) -> String {
        self.base_url
    }

    /// The timeout in milliseconds, as a specification-level value.
    pub closed spec fn spec_timeout_ms(self) -> u64 {
        self.timeout_ms
    }

    /// The trace ID, as a specification-level value.
    pub closed spec fn spec_trace_id(self) -> Option<String> {
        self.trace_id
    }

    /// The metadata map, as a specification-level value.
    pub closed spec fn spec_metadata(self) -> Option<HashMap<String, serde_json::Value>> {
        self.metadata
    }

    /// The cache namespace, as a specification-level value.
    pub closed spec fn spec_cache_namespace(self) -> Option<String> {
        self.cache_namespace
    }

    /// The cache force-refresh flag, as a specification-level value.
    pub closed spec fn spec_cache_force_refresh(self) -> Option<bool> {
        self.cache_force_refresh
    }

    /// What the builder guarantees of every configuration it returns: the
    /// API key is not blank and the timeout is positive and at most five
    /// minutes.
    pub open spec fn wf(self) -> bool {
        &&& !all_whitespace(self.spec_api_key()@)
        &&& 0 < self.spec_timeout_ms() <= MAX_TIMEOUT_MS
    }

    /// Creates a new configuration builder with no field set.
    pub fn builder() -> (r: PortkeyBuilder)
        ensures
            r.spec_api_key() is None,
            r.spec_auth_method() is None,
            r.spec_base_url() is None,
            r.spec_timeout_ms() is None,
            r.spec_trace_id() is None,
            r.spec_metadata() is None,
            r.spec_cache_namespace() is None,
            r.spec_cache_force_refresh() is None,
    {
        PortkeyBuilder {
            api_key: None,
            auth_method: None,
            base_url: None,
            timeout_ms: None,
            trace_id: None,
            metadata: None,
            cache_namespace: None,
            cache_force_refresh: None,
        }
    }

    /// Returns the API key.
    pub fn api_key(&self) -> (r: &str)
        ensures
            r@ == self.spec_api_key()@,
    {
        self.api_key.as_str()
    }

    /// Returns a masked version of the API key for safe display and
    /// logging: the first four characters followed by `****`, or plain
    /// `****` for a key of at most four characters.  The raw key never
    /// appears in any display rendering of the configuration.
    pub fn masked_api_key(&self) -> (r: String)
        ensures
            r@ == spec_masked_key(self.spec_api_key()@),
    {
        let k = self.api_key.as_str();
        let n = k.unicode_len();
        if n > 4 {
            String::from_str(k.substring_char(0, 4)).concat("****")
        } else {
            String::from_str("****")
        }
    }

    /// Returns the authentication method.
    pub fn auth_method(&self) -> (r: &AuthMethod)
        ensures
            *r == self.spec_auth_method(),
    {
        &self.auth_method
    }

    /// Returns the base URL.
    pub fn base_url(&self) -> (r: &str)
        ensures
            r@ == self.spec_base_url()@,
    {
        self.base_url.as_str()
    }

    /// Returns the request timeout, in milliseconds.
    pub fn timeout(&self) -> (r: u64)
        ensures
            r == self.spec_timeout_ms(),
    {
        self.timeout_ms
    }

    /// Returns the trace ID, if set.
    pub fn trace_id(&self) -> (r: &Option<String>)
        ensures
            *r == self.spec_trace_id(),
    {
        &self.trace_id
    }

    /// Returns the metadata map, if set.
    pub fn metadata(&self) -> (r: &Option<HashMap<String, serde_json::Value>>)
        ensures
            *r == self.spec_metadata(),
    {
        &self.metadata
    }

    /// Returns the cache namespace, if set.
    pub fn cache_namespace(&self) -> (r: &Option<String>)
        ensures
            *r == self.spec_cache_namespace(),
    {
        &self.cache_namespace
    }

    /// Returns the cache force-refresh flag, if set.
    pub fn cache_force_refresh(&self) -> (r: Option<bool>)
        ensures
            r == self.spec_cache_force_refresh(),
    {
        self.cache_force_refresh
    }
}

/// Staged construction of a [`PortkeyConfig`]: setters record field
/// values, and [`PortkeyBuilder::build`] validates them all at once.
pub struct PortkeyBuilder {
    api_key: Option<String>,
    auth_method: Option<AuthMethod>,
    base_url: Option<String>,
    timeout_ms: Option<u64>,
    trace_id: Option<String>,
    metadata: Option<HashMap<String, serde_json::Value>>,
    cache_namespace: Option<String>,
    cache_force_refresh: Option<bool>,
}

/// The API key was set but holds nothing except whitespace, so validation
/// rejects it.
pub open spec fn key_invalid(b: PortkeyBuilder) -> bool {
    b.spec_api_key() matches Some(k) && all_whitespace(k@)
}

/// The timeout was set to zero, so validation rejects it.
pub open spec fn timeout_zero(b: PortkeyBuilder) -> bool {
    b.spec_timeout_ms() == Some(0u64)
}

/// The timeout was set above five minutes, so validation rejects it.
pub open spec fn timeout_excessive(b: PortkeyBuilder) -> bool {
    b.spec_timeout_ms() matches Some(t) && t > MAX_TIMEOUT_MS
}

/// Exactly when `build` succeeds: validation passes and both required
/// fields are set.
pub open spec fn spec_build_ok(b: PortkeyBuilder) -> bool {
    &&& !key_invalid(b)
    &&& !timeout_zero(b)
    &&& !timeout_excessive(b)
    &&& b.spec_api_key() is Some
    &&& b.spec_auth_method() is Some
}

/// The base URL of the built configuration: the one set, or the canonical
/// gateway URL.
pub open spec fn spec_built_base_url(b: PortkeyBuilder) -> Seq<char> {
    match b.spec_base_url() {
        Some(u) => u@,
        None => default_base_url_seq(),
    }
}

/// The timeout of the built configuration, in milliseconds: the one set,
/// or the default.
pub open spec fn spec_built_timeout_ms(b: PortkeyBuilder) -> u64 {
    match b.spec_timeout_ms() {
        Some(t) => t,
        None => DEFAULT_TIMEOUT_MS,
    }
}

impl PortkeyBuilder {
    /// The API key field, as a specification-level value.
    pub closed spec fn spec_api_key(self) -> Option<String> {
        self.api_key
    }

    /// The authentication method field, as a specification-level value.
    pub closed spec fn spec_auth_method(self) -> Option<AuthMethod> {
        self.auth_method
    }

    /// The base URL field, as a specification-level value.
    pub closed spec fn spec_base_url(self) -> Option<String> {
        self.base_url
    }

    /// The timeout field in milliseconds, as a specification-level value.
    pub closed spec fn spec_timeout_ms(self) -> Option<u64> {
        self.timeout_ms
    }

    /// The trace ID field, as a specification-level value.
    pub closed spec fn spec_trace_id(self) -> Option<String> {
        self.trace_id
    }

    /// The metadata field, as a specification-level value.
    pub closed spec fn spec_metadata(self) -> Option<HashMap<String, serde_json::Value>> {
        self.metadata
    }

    /// The cache namespace field, as a specification-level value.
    pub closed spec fn spec_cache_namespace(self) -> Option<String> {
        self.cache_namespace
    }

    /// The cache force-refresh field, as a specification-level value.
    pub closed spec fn spec_cache_force_refresh(self) -> Option<bool> {
        self.cache_force_refresh
    }

    /// Sets the API key.
    pub fn with_api_key(self, api_key: &str) -> (r: Self)
        ensures
            (r.spec_api_key() matches Some(k) && k@ == api_key@),
            r.spec_auth_method() == self.spec_auth_method(),
            r.spec_base_url() == self.spec_base_url(),
            r.spec_timeout_ms() == self.spec_timeout_ms(),
            r.spec_trace_id() == self.spec_trace_id(),
            r.spec_metadata() == self.spec_metadata(),
            r.spec_cache_namespace() == self.spec_cache_namespace(),
            r.spec_cache_force_refresh() == self.spec_cache_force_refresh(),
    {
        Self { api_key: Some(String::from_str(api_key)), ..self }
    }

    /// Sets the authentication method.
    pub fn with_auth_method(self, auth_method: AuthMethod) -> (r: Self)
        ensures
            r.spec_auth_method() == Some(auth_method),
            r.spec_api_key() == self.spec_api_key(),
            r.spec_base_url() == self.spec_base_url(),
            r.spec_timeout_ms() == self.spec_timeout_ms(),
            r.spec_trace_id() == self.spec_trace_id(),
            r.spec_metadata() == self.spec_metadata(),
            r.spec_cache_namespace() == self.spec_cache_namespace(),
            r.spec_cache_force_refresh() == self.spec_cache_force_refresh(),
    {
        Self { auth_method: Some(auth_method), ..self }
    }

    /// Sets the base URL.
    pub fn with_base_url(self, base_url: &str) -> (r: Self)
        ensures
            (r.spec_base_url() matches Some(u) && u@ == base_url@),
            r.spec_api_key() == self.spec_api_key(),
            r.spec_auth_method() == self.spec_auth_method(),
            r.spec_timeout_ms() == self.spec_timeout_ms(),
            r.spec_trace_id() == self.spec_trace_id(),
            r.spec_metadata() == self.spec_metadata(),
            r.spec_cache_namespace() == self.spec_cache_namespace(),
            r.spec_cache_force_refresh() == self.spec_cache_force_refresh(),
    {
        Self { base_url: Some(String::from_str(base_url)), ..self }
    }

    /// Sets the request timeout, in milliseconds.
    pub fn with_timeout(self, timeout_ms: u64) -> (r: Self)
        ensures
            r.spec_timeout_ms() == Some(timeout_ms),
            r.spec_api_key() == self.spec_api_key(),
            r.spec_auth_method() == self.spec_auth_method(),
            r.spec_base_url() == self.spec_base_url(),
            r.spec_trace_id() == self.spec_trace_id(),
            r.spec_metadata() == self.spec_metadata(),
            r.spec_cache_namespace() == self.spec_cache_namespace(),
            r.spec_cache_force_refresh() == self.spec_cache_force_refresh(),
    {
        Self { timeout_ms: Some(timeout_ms), ..self }
    }

    /// Sets the trace ID.
    pub fn with_trace_id(self, trace_id: &str) -> (r: Self)
        ensures
            (r.spec_trace_id() matches Some(t) && t@ == trace_id@),
            r.spec_api_key() == self.spec_api_key(),
            r.spec_auth_method() == self.spec_auth_method(),
            r.spec_base_url() == self.spec_base_url(),
            r.spec_timeout_ms() == self.spec_timeout_ms(),
            r.spec_metadata() == self.spec_metadata(),
            r.spec_cache_namespace() == self.spec_cache_namespace(),
            r.spec_cache_force_refresh() == self.spec_cache_force_refresh(),
    {
        Self { trace_id: Some(String::from_str(trace_id)), ..self }
    }

    /// Sets the metadata map.
    pub fn with_metadata(self, metadata: HashMap<String, serde_json::Value>) -> (r: Self)
        ensures
            r.spec_metadata() == Some(metadata),
            r.spec_api_key() == self.spec_api_key(),
            r.spec_auth_method() == self.spec_auth_method(),
            r.spec_base_url() == self.spec_base_url(),
            r.spec_timeout_ms() == self.spec_timeout_ms(),
            r.spec_trace_id() == self.spec_trace_id(),
            r.spec_cache_namespace() == self.spec_cache_namespace(),
            r.spec_cache_force_refresh() == self.spec_cache_force_refresh(),
    {
        Self { metadata: Some(metadata), ..self }
    }

    /// Sets the cache namespace.
    pub fn with_cache_namespace(self, cache_namespace: &str) -> (r: Self)
        ensures
            (r.spec_cache_namespace() matches Some(c) && c@ == cache_namespace@),
            r.spec_api_key() == self.spec_api_key(),
            r.spec_auth_method() == self.spec_auth_method(),
            r.spec_base_url() == self.spec_base_url(),
            r.spec_timeout_ms() == self.spec_timeout_ms(),
            r.spec_trace_id() == self.spec_trace_id(),
            r.spec_metadata() == self.spec_metadata(),
            r.spec_cache_force_refresh() == self.spec_cache_force_refresh(),
    {
        Self { cache_namespace: Some(String::from_str(cache_namespace)), ..self }
    }

    /// Sets the cache force-refresh flag.
    pub fn with_cache_force_refresh(self, cache_force_refresh: bool) -> (r: Self)
        ensures
            r.spec_cache_force_refresh() == Some(cache_force_refresh),
            r.spec_api_key() == self.spec_api_key(),
            r.spec_auth_method() == self.spec_auth_method(),
            r.spec_base_url() == self.spec_base_url(),
            r.spec_timeout_ms() == self.spec_timeout_ms(),
            r.spec_trace_id() == self.spec_trace_id(),
            r.spec_metadata() == self.spec_metadata(),
            r.spec_cache_namespace() == self.spec_cache_namespace(),
    {
        Self { cache_force_refresh: Some(cache_force_refresh), ..self }
    }

    /// Validates the recorded fields and freezes them into a
    /// configuration.
    ///
    /// Validation rejects an API key that is empty after trimming and a
    /// timeout of zero or above five minutes; after validation, both the
    /// API key and the authentication method must have been set.  On
    /// success the configuration carries the recorded values, with the
    /// canonical gateway URL and a thirty-second timeout as defaults.
    pub fn build(self) -> (r: Result<PortkeyConfig, PortkeyBuilderError>)
        ensures
            r is Ok <==> spec_build_ok(self),
            r matches Ok(c) ==> {
                &&& c.spec_api_key()@ == self.spec_api_key()->0@
                &&& c.spec_auth_method() == self.spec_auth_method()->0
                &&& c.spec_base_url()@ == spec_built_base_url(self)
                &&& c.spec_timeout_ms() == spec_built_timeout_ms(self)
                &&& c.spec_trace_id() == self.spec_trace_id()
                &&& c.spec_metadata() == self.spec_metadata()
                &&& c.spec_cache_namespace() == self.spec_cache_namespace()
                &&& c.spec_cache_force_refresh() == self.spec_cache_force_refresh()
                &&& c.wf()
            },
            key_invalid(self) ==> (r matches Err(e) && e matches
                PortkeyBuilderError::ValidationError(m) && m@ == "API key cannot be empty"@),
            !key_invalid(self) && timeout_zero(self) ==> (r matches Err(e) && e matches
                PortkeyBuilderError::ValidationError(m) && m@ == "Timeout must be greater than 0"@),
            !key_invalid(self) && !timeout_zero(self) && timeout_excessive(self) ==> (r matches
                Err(e) && e matches PortkeyBuilderError::ValidationError(m) && m@
                == "Timeout cannot exceed 300 seconds (5 minutes)"@),
            !key_invalid(self) && !timeout_zero(self) && !timeout_excessive(self)
                && self.spec_api_key() is None ==> (r matches Err(e) && e matches
                PortkeyBuilderError::UninitializedField(f) && f@ == "api_key"@),
            !key_invalid(self) && !timeout_zero(self) && !timeout_excessive(self)
                && self.spec_api_key() is Some && self.spec_auth_method() is None ==> (r matches
                Err(e) && e matches PortkeyBuilderError::UninitializedField(f) && f@
                == "auth_method"@),
    {
        if let Some(k) = &self.api_key {
            if is_blank(k.as_str()) {
                return Err(
                    PortkeyBuilderError::ValidationError(
                        String::from_str("API key cannot be empty"),
                    ),
                );
            }
        }
        if let Some(t) = self.timeout_ms {
            if t == 0 {
                return Err(
                    PortkeyBuilderError::ValidationError(
                        String::from_str("Timeout must be greater than 0"),
                    ),
                );
            }
            if t > MAX_TIMEOUT_MS {
                return Err(
                    PortkeyBuilderError::ValidationError(
                        String::from_str("Timeout cannot exceed 300 seconds (5 minutes)"),
                    ),
                );
            }
        }
        let api_key = match self.api_key {
            Some(k) => k,
            None => {
                return Err(PortkeyBuilderError::UninitializedField("api_key"));
            },
        };
        let auth_method = match self.auth_method {
            Some(a) => a,
            None => {
                return Err(PortkeyBuilderError::UninitializedField("auth_method"));
            },
        };
        let base_url = match self.base_url {
            Some(u) => u,
            None => String::from_str("https://api.portkey.ai/v1"),
        };
        let timeout_ms = match self.timeout_ms {
            Some(t) => t,
            None => DEFAULT_TIMEOUT_MS,
        };
        Ok(
            PortkeyConfig {
                api_key,
                auth_method,
                base_url,
                timeout_ms,
                trace_id: self.trace_id,
                metadata: self.metadata,
                cache_namespace: self.cache_namespace,
                cache_force_refresh: self.cache_force_refresh,
            },
        )
    }
}

impl Default for PortkeyBuilder {
    /// A builder with no field set.
    fn default() -> (r: Self)
        ensures
            r.spec_api_key() is None,
            r.spec_auth_method() is None,
            r.spec_base_url() is None,
            r.spec_timeout_ms() is None,
            r.spec_trace_id() is None,
            r.spec_metadata() is None,
            r.spec_cache_namespace() is None,
            r.spec_cache_force_refresh() is None,
    {
        PortkeyConfig::builder()
    }
}

/// Law: every builder holding a non-blank API key, an authentication
/// method, and either no timeout or one that is positive and at most five
/// minutes builds successfully; and when no base URL was set, the built
/// base URL is the canonical gateway URL.
pub proof fn lemma_build_accepts_valid(b: PortkeyBuilder)
    requires
        b.spec_api_key() matches Some(k) && !all_whitespace(k@),
        b.spec_auth_method() is Some,
        b.spec_timeout_ms() matches Some(t) ==> 0 < t <= MAX_TIMEOUT_MS,
    ensures
        spec_build_ok(b),
        b.spec_base_url() is None ==> spec_built_base_url(b) == default_base_url_seq(),
{
}

/// Law: a builder whose API key is empty or all whitespace fails
/// validation, with the message for an empty key.
pub proof fn lemma_build_rejects_blank_key(b: PortkeyBuilder)
    requires
        b.spec_api_key() matches Some(k) && all_whitespace(k@),
    ensures
        !spec_build_ok(b),
        key_invalid(b),
{
}

/// Law: a timeout of zero, or above five minutes, fails validation; every
/// other set timeout passes both timeout checks.
pub proof fn lemma_build_timeout_range(b: PortkeyBuilder, t: u64)
    requires
        b.spec_timeout_ms() == Some(t),
    ensures
        t == 0 || t > MAX_TIMEOUT_MS ==> !spec_build_ok(b),
        0 < t <= MAX_TIMEOUT_MS ==> !timeout_zero(b) && !timeout_excessive(b),
{
}

/// Law: building is deterministic.  Two builders whose fields hold the
/// same values succeed or fail together, and on success yield the same
/// base URL, the same timeout, and the same masked API key.
pub proof fn lemma_build_deterministic(a: PortkeyBuilder, b: PortkeyBuilder)
    requires
        opt_str_view(a.spec_api_key()) == opt_str_view(b.spec_api_key()),
        a.spec_auth_method() is Some <==> b.spec_auth_method() is Some,
        opt_str_view(a.spec_base_url()) == opt_str_view(b.spec_base_url()),
        a.spec_timeout_ms() == b.spec_timeout_ms(),
    ensures
        spec_build_ok(a) == spec_build_ok(b),
        spec_built_base_url(a) == spec_built_base_url(b),
        spec_built_timeout_ms(a) == spec_built_timeout_ms(b),
        a.spec_api_key() matches Some(k1) ==> (b.spec_api_key() matches Some(k2)
            && spec_masked_key(k1@) == spec_masked_key(k2@)),
{
    match (a.spec_api_key(), b.spec_api_key()) {
        (Some(k1), Some(k2)) => {
            assert(k1@ == k2@);
        },
        _ => {},
    }
    match (a.spec_base_url(), b.spec_base_url()) {
        (Some(u1), Some(u2)) => {
            assert(u1@ == u2@);
        },
        _ => {},
    }
}

/// The values of the configuration environment variables, read by the
/// embedding application and handed over unchanged: `None` for an unset
/// variable, `Some` with its raw text otherwise.
pub struct EnvValues {
    /// `PORTKEY_API_KEY`.
    pub api_key: Option<String>,
    /// `PORTKEY_VIRTUAL_KEY`.
    pub virtual_key: Option<String>,
    /// `PORTKEY_PROVIDER`.
    pub provider: Option<String>,
    /// `PORTKEY_AUTHORIZATION`.
    pub authorization: Option<String>,
    /// `PORTKEY_CUSTOM_HOST`.
    pub custom_host: Option<String>,
    /// `PORTKEY_CONFIG`.
    pub config_id: Option<String>,
    /// `PORTKEY_BASE_URL`.
    pub base_url: Option<String>,
    /// `PORTKEY_TIMEOUT_SECS`.
    pub timeout_secs: Option<String>,
    /// `PORTKEY_TRACE_ID`.
    pub trace_id: Option<String>,
    /// `PORTKEY_CACHE_NAMESPACE`.
    pub cache_namespace: Option<String>,
    /// `PORTKEY_CACHE_FORCE_REFRESH`.
    pub cache_force_refresh: Option<String>,
}

/// The provider variable is set but the authorization it requires is not.
pub open spec fn env_auth_incomplete(v: EnvValues) -> bool {
    v.virtual_key is None && v.provider is Some && v.authorization is None
}

/// None of the three authentication sources is present.
pub open spec fn env_auth_missing(v: EnvValues) -> bool {
    v.virtual_key is None && v.provider is None && v.config_id is None
}

/// The authentication method the environment selects, by the fixed
/// precedence: virtual key, then provider credentials, then config.
pub open spec fn spec_env_auth(v: EnvValues) -> AuthMethod
    recommends
        !env_auth_missing(v),
        !env_auth_incomplete(v),
{
    if v.virtual_key is Some {
        AuthMethod::VirtualKey { virtual_key: v.virtual_key->0 }
    } else if v.provider is Some {
        AuthMethod::ProviderAuth {
            provider: v.provider->0,
            authorization: v.authorization->0,
            custom_host: v.custom_host,
        }
    } else {
        AuthMethod::Config { config_id: v.config_id->0 }
    }
}

/// The timeout variable is set but does not parse as a `u64`.
pub open spec fn env_timeout_invalid(v: EnvValues) -> bool {
    v.timeout_secs matches Some(s) && !spec_parses_u64(s@)
}

/// The timeout the environment selects, in milliseconds: the parsed
/// seconds times a thousand (saturated at the integer bound), or the
/// default when the variable is unset.
pub open spec fn spec_env_timeout_ms(v: EnvValues) -> u64
    recommends
        !env_timeout_invalid(v),
{
    match v.timeout_secs {
        Some(s) => {
            let secs = spec_digits_val(spec_number_body(s@));
            if secs > u64::MAX as int / 1000 {
                u64::MAX
            } else {
                (secs * 1000) as u64
            }
        },
        None => DEFAULT_TIMEOUT_MS,
    }
}

/// The cache force-refresh flag the environment selects: the parsed
/// boolean, or nothing when the variable is unset or does not parse.
pub open spec fn spec_env_cache_force_refresh(v: EnvValues) -> Option<bool> {
    match v.cache_force_refresh {
        Some(s) => if s@ == "true"@ {
            Some(true)
        } else if s@ == "false"@ {
            Some(false)
        } else {
            None
        },
        None => None,
    }
}

/// Exactly when environment-based construction succeeds.
pub open spec fn spec_env_ok(v: EnvValues) -> bool {
    &&& v.api_key is Some
    &&& !env_auth_incomplete(v)
    &&& !env_auth_missing(v)
    &&& !env_timeout_invalid(v)
    &&& !all_whitespace(v.api_key->0@)
    &&& 0 < spec_env_timeout_ms(v) <= MAX_TIMEOUT_MS
}

/// Law: environment-based construction fails when the API key variable is
/// unset, and when none of the three authentication sources is present.
pub proof fn lemma_env_requires_key_and_auth(v: EnvValues)
    ensures
        v.api_key is None ==> !spec_env_ok(v),
        env_auth_missing(v) ==> !spec_env_ok(v),
{
}

impl PortkeyConfig {
    /// Derives a configuration from the values of the configuration
    /// environment variables, through the same builder and validation as
    /// explicit construction.
    ///
    /// The API key variable is required.  Exactly one authentication
    /// source is chosen, by fixed precedence: the virtual key, else the
    /// provider credentials (whose authorization is then required), else
    /// the config ID; with none present, construction fails.  A set
    /// timeout must parse as whole seconds.  A cache force-refresh value
    /// that is not `true` or `false` is ignored.
    pub fn from_env_values(v: EnvValues) -> (r: Result<PortkeyConfig, Error>)
        ensures
            r is Ok <==> spec_env_ok(v),
            r matches Ok(c) ==> {
                &&& c.spec_api_key()@ == v.api_key->0@
                &&& c.spec_auth_method() == spec_env_auth(v)
                &&& c.spec_base_url()@ == (match v.base_url {
                    Some(u) => u@,
                    None => default_base_url_seq(),
                })
                &&& c.spec_timeout_ms() == spec_env_timeout_ms(v)
                &&& opt_str_view(c.spec_trace_id()) == opt_str_view(v.trace_id)
                &&& c.spec_metadata() is None
                &&& opt_str_view(c.spec_cache_namespace()) == opt_str_view(v.cache_namespace)
                &&& c.spec_cache_force_refresh() == spec_env_cache_force_refresh(v)
                &&& c.wf()
            },
            v.api_key is None ==> (r matches Err(e) && e matches Error::Config(be) && be matches
                PortkeyBuilderError::ValidationError(m) && m@
                == "PORTKEY_API_KEY environment variable not set"@),
            v.api_key is Some && env_auth_incomplete(v) ==> (r matches Err(e) && e matches
                Error::Config(be) && be matches PortkeyBuilderError::ValidationError(m) && m@
                == "PORTKEY_AUTHORIZATION required when PORTKEY_PROVIDER is set"@),
            v.api_key is Some && env_auth_missing(v) ==> (r matches Err(e) && e matches
                Error::Config(be) && be matches PortkeyBuilderError::ValidationError(m) && m@
                == "One of PORTKEY_VIRTUAL_KEY, PORTKEY_PROVIDER, or PORTKEY_CONFIG must be set"@),
            v.api_key is Some && !env_auth_incomplete(v) && !env_auth_missing(v)
                && env_timeout_invalid(v) ==> (r matches Err(e) && e matches Error::Config(be)
                && be matches PortkeyBuilderError::ValidationError(m) && m@
                == "Invalid PORTKEY_TIMEOUT_SECS value: "@ + v.timeout_secs->0@),
            v.api_key is Some && !env_auth_incomplete(v) && !env_auth_missing(v)
                && !env_timeout_invalid(v) && all_whitespace(v.api_key->0@) ==> (r matches Err(e)
                && e matches Error::Config(be) && be matches PortkeyBuilderError::ValidationError(
                m,
            ) && m@ == "API key cannot be empty"@),
            v.api_key is Some && !env_auth_incomplete(v) && !env_auth_missing(v)
                && !env_timeout_invalid(v) && !all_whitespace(v.api_key->0@)
                && spec_env_timeout_ms(v) == 0 ==> (r matches Err(e) && e matches Error::Config(be)
                && be matches PortkeyBuilderError::ValidationError(m) && m@
                == "Timeout must be greater than 0"@),
            v.api_key is Some && !env_auth_incomplete(v) && !env_auth_missing(v)
                && !env_timeout_invalid(v) && !all_whitespace(v.api_key->0@)
                && spec_env_timeout_ms(v) > MAX_TIMEOUT_MS ==> (r matches Err(e) && e matches
                Error::Config(be) && be matches PortkeyBuilderError::ValidationError(m) && m@
                == "Timeout cannot exceed 300 seconds (5 minutes)"@),
    {
        let api_key = match v.api_key {
            Some(k) => k,
            None => {
                return Err(
                    Error::Config(
                        PortkeyBuilderError::ValidationError(
                            String::from_str("PORTKEY_API_KEY environment variable not set"),
                        ),
                    ),
                );
            },
        };
        let auth_method = if let Some(vk) = v.virtual_key {
            AuthMethod::VirtualKey { virtual_key: vk }
        } else if let Some(p) = v.provider {
            match v.authorization {
                Some(a) => AuthMethod::ProviderAuth {
                    provider: p,
                    authorization: a,
                    custom_host: v.custom_host,
                },
                None => {
                    return Err(
                        Error::Config(
                            PortkeyBuilderError::ValidationError(
                                String::from_str(
                                    "PORTKEY_AUTHORIZATION required when PORTKEY_PROVIDER is set",
                                ),
                            ),
                        ),
                    );
                },
            }
        } else if let Some(cid) = v.config_id {
            AuthMethod::Config { config_id: cid }
        } else {
            return Err(
                Error::Config(
                    PortkeyBuilderError::ValidationError(
                        String::from_str(
                            "One of PORTKEY_VIRTUAL_KEY, PORTKEY_PROVIDER, or PORTKEY_CONFIG must be set",
                        ),
                    ),
                ),
            );
        };
        let mut builder = PortkeyConfig::builder().with_api_key(api_key.as_str()).with_auth_method(
            auth_method,
        );
        if let Some(u) = &v.base_url {
            builder = builder.with_base_url(u.as_str());
        }
        if let Some(s) = &v.timeout_secs {
            match parse_u64(s.as_str()) {
                Some(secs) => {
                    let ms: u64 = if secs > u64::MAX / 1000 {
                        u64::MAX
                    } else {
                        secs * 1000
                    };
                    builder = builder.with_timeout(ms);
                },
                None => {
                    return Err(
                        Error::Config(
                            PortkeyBuilderError::ValidationError(
                                String::from_str("Invalid PORTKEY_TIMEOUT_SECS value: ").concat(
                                    s.as_str(),
                                ),
                            ),
                        ),
                    );
                },
            }
        }
        if let Some(t) = &v.trace_id {
            builder = builder.with_trace_id(t.as_str());
        }
        if let Some(c) = &v.cache_namespace {
            builder = builder.with_cache_namespace(c.as_str());
        }
        if let Some(s) = &v.cache_force_refresh {
            if let Some(b) = parse_bool(s.as_str()) {
                builder = builder.with_cache_force_refresh(b);
            }
        }
        match builder.build() {
            Ok(c) => Ok(c),
            Err(e) => Err(Error::Config(e)),
        }
    }
}

} // verus!
