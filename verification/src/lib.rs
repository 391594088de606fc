//! Typed client library for the Portkey LLM-gateway REST API.
//!
//! The library covers the request-construction core of a Portkey client:
//! validated client configuration ([`PortkeyConfig`], [`PortkeyBuilder`]),
//! authentication-header resolution ([`AuthMethod`]), URL and header
//! assembly for outbound requests ([`pipeline`]), response classification,
//! and the data models of the REST resources ([`model`]).  Dispatching the
//! prepared requests over HTTP is left to the embedding application.

pub mod auth;
pub mod config;
pub mod error;
pub mod jsonval;
pub mod model;
pub mod pipeline;
pub mod service;
pub mod text;
pub mod urlbuild;

pub use auth::AuthMethod;
pub use config::{PortkeyBuilder, PortkeyConfig};
pub use error::{Error, PortkeyBuilderError};
