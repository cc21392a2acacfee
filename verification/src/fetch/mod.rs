//! Fetching content over HTTP: limits, redirects and reading of bodies.

pub mod abort;
pub mod client;
pub mod error;
pub mod headers;
pub mod host;
pub mod reader;
pub mod request;
pub mod response;
