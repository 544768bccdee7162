//! The authorization gate.
//!
//! Consumes the principal produced by the authentication strategies and the
//! minimum role required for the current operation, and either passes the
//! principal forward or rejects with 401 (no principal) or 403 (insufficient
//! role). The authorization check applies the externally configured role map before
//! comparing roles.

use vstd::prelude::*;
use vstd::string::*;
use crate::auth::AuthenticatedUser;
use crate::response::{Response, STATUS_FORBIDDEN, STATUS_UNAUTHORIZED};
use crate::role::{grants, name_of, rank, Role, RoleMap};

verus! {

/// The authorization check's read-only configuration: the role map, and the challenge
/// values a 401 advertises (one per supported authentication scheme).
pub struct AuthorizationGate {
    pub role_map: RoleMap,
    pub challenges: Vec<String>,
}

/// The message of a 403: the name of the privilege the caller lacked,
/// prefixed for readability.
pub open spec fn insufficient_privilege_message(required: Role) -> Seq<char> {
    "Insufficient privilege: "@ + name_of(required)
}

impl AuthorizationGate {
    pub fn new(role_map: RoleMap, challenges: Vec<String>) -> (g: AuthorizationGate)
        ensures
            g.role_map == role_map,
            g.challenges == challenges,
    {
        AuthorizationGate { role_map, challenges }
    }

    /// Approves or rejects a request's principal against the required role.
    ///
    /// No principal: 401 with this gate's challenges. A principal whose role
    /// does not satisfy `required` under the role map: 403, naming the
    /// required privilege. Otherwise the principal passes, unchanged.
    pub fn authorize(&self, principal: Option<AuthenticatedUser>, required: Role) -> (r: Result<
        AuthenticatedUser,
        Response,
    >)
        ensures
            match r {
                Ok(user) => {
                    &&& principal matches Some(p) && user@ == p@
                    &&& grants(self.role_map.entries@, user@.role, required)
                },
                Err(resp) => match principal {
                    None => {
                        &&& resp.status == STATUS_UNAUTHORIZED
                        &&& resp.challenges@ == self.challenges@
                        &&& resp.required_privilege is None
                    },
                    Some(p) => {
                        &&& !grants(self.role_map.entries@, p@.role, required)
                        &&& resp.status == STATUS_FORBIDDEN
                        &&& resp.required_privilege == Some(required)
                        &&& resp.message@ == insufficient_privilege_message(required)
                    },
                },
            },
    {
        match principal {
            None => {
                let challenges = self.challenges.clone();
                proof {
                    assert(challenges@ =~= self.challenges@);
                }
                Err(
                    Response {
                        status: STATUS_UNAUTHORIZED,
                        challenges,
                        message: String::from_str("Authentication required"),
                        required_privilege: None,
                    },
                )
            },
            Some(user) => {
                if self.role_map.satisfies(user.role, required) {
                    Ok(user)
                } else {
                    let mut message = String::from_str("Insufficient privilege: ");
                    message.append(required.name());
                    Err(
                        Response {
                            status: STATUS_FORBIDDEN,
                            challenges: Vec::new(),
                            message,
                            required_privilege: Some(required),
                        },
                    )
                }
            },
        }
    }
}

/// Between two roles `r1 < r2` and under a role map with no equivalences,
/// a requirement of `r2` rejects every principal holding `r1` and admits
/// every principal holding `r2` or higher: with `authorize`'s contract, the
/// gate returns 403 for the former and passes the latter.
pub proof fn lemma_gate_enforces_order(map: Seq<(Role, Role)>, r1: Role, r2: Role)
    requires
        map.len() == 0,
        rank(r1) < rank(r2),
    ensures
        !grants(map, r1, r2),
        forall|r: Role| rank(r) >= rank(r2) ==> grants(map, r, r2),
{
    if grants(map, r1, r2) {
        let i = choose|i: int|
            0 <= i < map.len() && (#[trigger] map[i]).0 == r1 && rank(map[i].1) >= rank(r2);
        assert(false);
    }
}

} // verus!
