//! Authorization and resource-binding middleware for a Redfish-style
//! management service.
//!
//! The crate decides, per incoming request, whether the caller is
//! authenticated and privileged enough to perform an operation on a
//! hierarchically addressed resource, and it resolves path segments into
//! typed values before handlers run. Authentication strategies (HTTP Basic
//! and session tokens) compose into a combined strategy; sessions are issued,
//! looked up and revoked by an in-memory store with a configurable TTL.

pub mod auth;
pub mod base64;
pub mod basic;
pub mod certificate;
pub mod certificate_collection;
pub mod computer_system;
pub mod computer_system_collection;
pub mod endpoint;
pub mod gate;
pub mod locator;
pub mod pipeline;
pub mod privilege;
pub mod response;
pub mod role;
pub mod session;
pub mod strategy;
pub mod strutil;
