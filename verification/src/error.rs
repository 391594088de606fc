//! The closed error taxonomy surfaced to every caller.
//!
//! Every fallible operation of the library returns one of these values
//! rather than aborting; errors reach the immediate caller untouched.
//! Callers can distinguish configuration mistakes (fix before retrying)
//! from transient transport failures (safe to retry) from API-level
//! rejections (inspect status and message).

use vstd::prelude::*;

verus! {

/// Error raised while building a configuration.
#[derive(Debug, Clone)]
pub enum PortkeyBuilderError {
    /// A required field was not given a value before `build`.
    UninitializedField(&'static str),
    /// A field value failed validation; carries a human-readable message.
    ValidationError(String),
}

/// Error type for Portkey API operations.
#[derive(Debug, Clone)]
pub enum Error {
    /// HTTP transport failure: connectivity, DNS, or timeout trouble,
    /// reported by the transport that dispatched the request.
    Http(String),
    /// JSON encoding of a request body or decoding of a response body
    /// failed; carries the codec's message.
    Serialization(String),
    /// Configuration validation failed; always raised before any network
    /// call is attempted.
    Config(PortkeyBuilderError),
    /// The base URL or the constructed URL failed to parse; raised before
    /// dispatch.
    UrlParse(String),
    /// The server answered with an error status; carries the HTTP status
    /// code and the server-provided message.
    Api {
        /// The HTTP status code, always at least 400.
        status: u16,
        /// The response body the server sent along with the status.
        message: String,
    },
}

impl PortkeyBuilderError {
    /// A human-readable rendering of the error.
    pub fn message(&self) -> (r: String)
        ensures
            (self matches PortkeyBuilderError::ValidationError(m) ==> r@ == m@),
            (self matches PortkeyBuilderError::UninitializedField(f) ==> r@ == f@ + " must be initialized"@),
    {
        match self {
            PortkeyBuilderError::ValidationError(m) => m.clone(),
            PortkeyBuilderError::UninitializedField(f) => String::from_str(f).concat(
                " must be initialized",
            ),
        }
    }
}

impl Error {
    /// A human-readable rendering of the error, prefixed with its class.
    pub fn message(&self) -> (r: String)
        ensures
            (self matches Error::Http(m) ==> r@ == "HTTP error: "@ + m@),
            (self matches Error::Serialization(m) ==> r@ == "Serialization error: "@ + m@),
            (self matches Error::Config(e) ==> (e matches PortkeyBuilderError::ValidationError(m)
                ==> r@ == "Configuration error: "@ + m@)),
            (self matches Error::Config(e) ==> (e matches PortkeyBuilderError::UninitializedField(
                f,
            ) ==> r@ == "Configuration error: "@ + f@ + " must be initialized"@)),
            (self matches Error::UrlParse(m) ==> r@ == "URL parse error: "@ + m@),
            (self matches Error::Api { status, message } ==> r@ == "API error: "@ + message@),
    {
        match self {
            Error::Http(m) => String::from_str("HTTP error: ").concat(m.as_str()),
            Error::Serialization(m) => String::from_str("Serialization error: ").concat(m.as_str()),
            Error::Config(e) => String::from_str("Configuration error: ").concat(
                e.message().as_str(),
            ),
            Error::UrlParse(m) => String::from_str("URL parse error: ").concat(m.as_str()),
            Error::Api { status: _, message } => String::from_str("API error: ").concat(
                message.as_str(),
            ),
        }
    }
}

} // verus!
