//! Principals, credentials, and the credential-checking capability.
//!
//! An `AuthenticatedUser` is a verified identity with a role, attached to a
//! request for the lifetime of its handling. `Credentials` are ephemeral:
//! parsed from a request, handed to a verifier, and discarded.

use vstd::prelude::*;
use vstd::string::StringExecFns;
use crate::role::Role;
use crate::strutil::str_eq;

verus! {

/// A verified identity: user name and role. Immutable once created.
#[derive(Debug)]
pub struct AuthenticatedUser {
    pub username: String,
    pub role: Role,
}

impl Clone for AuthenticatedUser {
    fn clone(&self) -> (r: Self)
        ensures
            r == *self,
    {
        AuthenticatedUser { username: self.username.clone(), role: self.role }
    }
}

/// The mathematical value of a principal.
pub struct PrincipalView {
    pub username: Seq<char>,
    pub role: Role,
}

impl View for AuthenticatedUser {
    type V = PrincipalView;

    open spec fn view(&self) -> PrincipalView {
        PrincipalView { username: self.username@, role: self.role }
    }
}

/// A user name and secret, as presented by a request.
pub struct Credentials {
    pub username: String,
    pub password: String,
}

/// Failure of a credential check.
#[derive(Debug)]
pub struct AuthError {
    pub message: String,
}

/// The credential-checking capability: given a user name and secret, produce
/// a principal or fail. Implementations delegate to an external verifier
/// (an OS authentication module, a static table); the middleware only needs
/// the result.
///
/// Each implementation fixes its behaviour as the spec function
/// `verify_spec`, so that callers of `authenticate` can reason exactly about
/// what a given verifier returns.
pub trait BasicAuthentication: Sized {
    /// The principal this verifier produces for the given credentials, or
    /// `None` when it rejects them.
    spec fn verify_spec(&self, username: Seq<char>, password: Seq<char>) -> Option<PrincipalView>;

    /// Checks the credentials.
    fn authenticate(&self, username: String, password: String) -> (r: Result<
        AuthenticatedUser,
        AuthError,
    >)
        ensures
            match r {
                Ok(user) => self.verify_spec(username@, password@) == Some(user@),
                Err(_) => self.verify_spec(username@, password@) is None,
            },
    ;
}

/// A verifier that accepts every credential pair and grants the
/// administrator role; for examples and tests only.
#[derive(Clone, Copy)]
pub struct ExampleBasicAuthenticator;

impl BasicAuthentication for ExampleBasicAuthenticator {
    open spec fn verify_spec(&self, username: Seq<char>, password: Seq<char>) -> Option<
        PrincipalView,
    > {
        Some(PrincipalView { username, role: Role::Administrator })
    }

    fn authenticate(&self, username: String, _password: String) -> (r: Result<
        AuthenticatedUser,
        AuthError,
    >) {
        Ok(AuthenticatedUser { username, role: Role::Administrator })
    }
}

/// A verifier backed by one statically configured credential pair: it
/// accepts exactly that pair and grants the configured role.
pub struct StaticAuthenticator {
    pub username: String,
    pub password: String,
    pub role: Role,
}

impl BasicAuthentication for StaticAuthenticator {
    open spec fn verify_spec(&self, username: Seq<char>, password: Seq<char>) -> Option<
        PrincipalView,
    > {
        if username == self.username@ && password == self.password@ {
            Some(PrincipalView { username, role: self.role })
        } else {
            None
        }
    }

    fn authenticate(&self, username: String, password: String) -> (r: Result<
        AuthenticatedUser,
        AuthError,
    >) {
        if str_eq(username.as_str(), self.username.as_str()) && str_eq(
            password.as_str(),
            self.password.as_str(),
        ) {
            Ok(AuthenticatedUser { username, role: self.role })
        } else {
            Err(AuthError { message: String::from_str("Invalid credentials") })
        }
    }
}

} // verus!
