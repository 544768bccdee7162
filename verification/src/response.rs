//! Terminal responses produced by the middleware.
//!
//! A stage of the pipeline either passes control forward or produces a
//! `Response`, which is returned to the client untouched; no later stage
//! runs. Only the status code, the authentication challenges and a
//! machine-readable reason are modelled here; the surrounding protocol
//! defines the exact body schema.

use vstd::prelude::*;
use crate::role::Role;

verus! {

pub const STATUS_BAD_REQUEST: u16 = 400;

pub const STATUS_UNAUTHORIZED: u16 = 401;

pub const STATUS_FORBIDDEN: u16 = 403;

pub const STATUS_NOT_FOUND: u16 = 404;

pub const STATUS_METHOD_NOT_ALLOWED: u16 = 405;

pub const STATUS_INTERNAL_ERROR: u16 = 500;

/// A terminal response: a status code, the `WWW-Authenticate` challenge
/// values to attach (for 401s), a machine-readable reason, and the privilege
/// a 403 found wanting.
#[derive(Debug)]
pub struct Response {
    pub status: u16,
    pub challenges: Vec<String>,
    pub message: String,
    pub required_privilege: Option<Role>,
}

/// The character sequences of a list of challenge values.
pub open spec fn challenge_views(challenges: Seq<String>) -> Seq<Seq<char>> {
    challenges.map_values(|s: String| s@)
}

impl Response {
    /// A response with no challenges and no privilege annotation.
    pub fn plain(status: u16, message: String) -> (r: Response)
        ensures
            r.status == status,
            r.message@ == message@,
            r.challenges@.len() == 0,
            r.required_privilege is None,
    {
        Response { status, challenges: Vec::new(), message, required_privilege: None }
    }
}

} // verus!
