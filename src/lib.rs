//! A client library for a transactional-email service's REST API.
//!
//! The library describes every remote operation as a verified request plan
//! (verb, endpoint path, JSON payload), composes the versioned request URL and
//! headers from a [`Config`], and classifies the service's answer into a parsed
//! JSON value or an [`Error`]. Performing the HTTP exchange itself is left to
//! the caller.

pub mod api;
pub mod attachment;
pub mod authority;
pub mod config;
pub mod error;
pub mod helpers;
pub mod json;
pub mod text;
pub mod types;
pub mod wire;

pub use api::ApiRequest;
pub use attachment::Attachment;
pub use config::Config;
pub use error::Error;
