//! Core logic of an HTTP API gateway.
//!
//! The crate covers the decision-making parts of the gateway: resolving a
//! request path to a configured backend route, deciding whether a request is
//! exempt from authorization, evaluating the authorization service's answer,
//! rewriting the outbound request (target URI, `x-forwarded-for`,
//! `x-request-id`), building the gateway's own terminal responses with their
//! CORS decoration and log entries, and merging per-service API description
//! documents into one document.
//!
//! Network and file I/O, the HTTP server and client plumbing, and the log
//! sinks live outside this crate; they hand plain values in and carry the
//! computed values out.

pub mod config;
pub mod kv;
pub mod logger;
pub mod merge;
pub mod pipeline;
pub mod response;
pub mod routes;
pub mod text;
