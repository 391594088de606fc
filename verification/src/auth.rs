//! Authentication methods for the Portkey gateway.
//!
//! A client authenticates every request with its Portkey API key, and in
//! addition carries exactly one provider-authentication strategy, chosen
//! here.  Each strategy resolves deterministically to a fixed, ordered set
//! of HTTP headers.

use vstd::prelude::*;

verus! {

/// Provider-authentication strategy.
///
/// Exactly one variant is active per client; there is no unauthenticated
/// state, since a configuration cannot be built without one.
#[derive(Debug, Clone)]
pub enum AuthMethod {
    /// Managed credential reference: the gateway holds the provider
    /// credentials under this key.  Resolves to `x-portkey-virtual-key`.
    VirtualKey {
        /// The virtual key ID.
        virtual_key: String,
    },
    /// Direct provider credential, forwarded verbatim, optionally
    /// redirected to a custom endpoint host.  Resolves to
    /// `x-portkey-provider`, `Authorization`, and, when a custom host is
    /// set, `x-portkey-custom-host`.
    ProviderAuth {
        /// Provider name, e.g. `openai`.
        provider: String,
        /// `Authorization` header value, used verbatim; the caller
        /// supplies any `Bearer` prefix.
        authorization: String,
        /// Optional custom endpoint host.
        custom_host: Option<String>,
    },
    /// Reference to a server-side routing/fallback policy.  Resolves to
    /// `x-portkey-config`.
    Config {
        /// The config ID.
        config_id: String,
    },
}

/// The ordered header set that an authentication method resolves to:
/// exactly the headers of the active variant, and no others.
pub open spec fn spec_auth_headers(m: AuthMethod) -> Seq<(Seq<char>, Seq<char>)> {
    match m {
        AuthMethod::VirtualKey { virtual_key } => seq![("x-portkey-virtual-key"@, virtual_key@)],
        AuthMethod::ProviderAuth { provider, authorization, custom_host } => {
            let base = seq![
                ("x-portkey-provider"@, provider@),
                ("Authorization"@, authorization@),
            ];
            match custom_host {
                Some(h) => base + seq![("x-portkey-custom-host"@, h@)],
                None => base,
            }
        },
        AuthMethod::Config { config_id } => seq![("x-portkey-config"@, config_id@)],
    }
}

/// The view of an executable header list: each name/value pair as a pair
/// of character sequences.
pub open spec fn header_view(v: Seq<(String, String)>) -> Seq<(Seq<char>, Seq<char>)> {
    Seq::new(v.len(), |i: int| (v[i].0@, v[i].1@))
}

impl AuthMethod {
    /// Creates a virtual key authentication method.
    pub fn virtual_key(virtual_key: &str) -> (r: Self)
        ensures
            r matches AuthMethod::VirtualKey { virtual_key: v } && v@ == virtual_key@,
    {
        AuthMethod::VirtualKey { virtual_key: String::from_str(virtual_key) }
    }

    /// Creates a provider authentication method without a custom host.
    pub fn provider_auth(provider: &str, authorization: &str) -> (r: Self)
        ensures
            r matches AuthMethod::ProviderAuth { provider: p, authorization: a, custom_host: h }
                && p@ == provider@ && a@ == authorization@ && h is None,
    {
        AuthMethod::ProviderAuth {
            provider: String::from_str(provider),
            authorization: String::from_str(authorization),
            custom_host: None,
        }
    }

    /// Creates a provider authentication method with a custom host.
    pub fn provider_auth_with_host(provider: &str, authorization: &str, custom_host: &str) -> (r:
        Self)
        ensures
            r matches AuthMethod::ProviderAuth { provider: p, authorization: a, custom_host: h }
                && p@ == provider@ && a@ == authorization@ && (h matches Some(hv) && hv@
                == custom_host@),
    {
        AuthMethod::ProviderAuth {
            provider: String::from_str(provider),
            authorization: String::from_str(authorization),
            custom_host: Some(String::from_str(custom_host)),
        }
    }

    /// Creates a config-based authentication method.
    pub fn config(config_id: &str) -> (r: Self)
        ensures
            r matches AuthMethod::Config { config_id: c } && c@ == config_id@,
    {
        AuthMethod::Config { config_id: String::from_str(config_id) }
    }

    /// Resolves this method to its header set: exactly the headers of the
    /// active variant, in order, and no others.
    pub fn auth_headers(&self) -> (r: Vec<(String, String)>)
        ensures
            header_view(r@) == spec_auth_headers(*self),
    {
        let mut r: Vec<(String, String)> = Vec::new();
        match self {
            AuthMethod::VirtualKey { virtual_key } => {
                r.push((String::from_str("x-portkey-virtual-key"), virtual_key.clone()));
            },
            AuthMethod::ProviderAuth { provider, authorization, custom_host } => {
                r.push((String::from_str("x-portkey-provider"), provider.clone()));
                r.push((String::from_str("Authorization"), authorization.clone()));
                if let Some(h) = custom_host {
                    r.push((String::from_str("x-portkey-custom-host"), h.clone()));
                }
            },
            AuthMethod::Config { config_id } => {
                r.push((String::from_str("x-portkey-config"), config_id.clone()));
            },
        }
        proof {
            assert(header_view(r@) =~= spec_auth_headers(*self));
        }
        r
    }
}

} // verus!
