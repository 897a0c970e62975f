//! Core of an HTTP edge service: configuration validation, request
//! identification, CORS policy, timeout outcomes and error mapping.

pub mod clock;
pub mod config;
pub mod cors;
pub mod pipeline;
pub mod request_id;
pub mod service_error;
pub mod text;
pub mod upstreams;
pub mod url_syntax;
