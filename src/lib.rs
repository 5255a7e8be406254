//! A small client library for the Sanity.io query API: endpoint and query URL
//! construction, percent-encoding of query text, the shape of authenticated and
//! anonymous requests, JSON decoding of response bodies, and a retry policy.
//! Sending requests is left to the caller.
pub mod config;
pub mod encode;
pub mod error;
pub mod helpers;
pub mod retry;
