//! Roles, their total order, and the externally configured role map.
//!
//! A role doubles as a privilege level: an operation on a resource class
//! requires a minimum role, and a caller satisfies the requirement when the
//! caller's role is at least as high in the order, or when the configured
//! role map grants the caller's role an equivalence that is.

use vstd::prelude::*;
use crate::strutil::str_eq;

verus! {

/// Permission levels, ordered from least to most privileged.
#[derive(Clone, Copy, Debug, PartialEq, Eq, Structural)]
pub enum Role {
    /// Held by every authenticated principal.
    Login,
    ReadOnly,
    Operator,
    Administrator,
    ConfigureManager,
    ConfigureComponents,
}

/// Position of a role in the total order; larger means more privileged.
pub open spec fn rank(r: Role) -> int {
    match r {
        Role::Login => 0,
        Role::ReadOnly => 1,
        Role::Operator => 2,
        Role::Administrator => 3,
        Role::ConfigureManager => 4,
        Role::ConfigureComponents => 5,
    }
}

impl Role {
    /// The most privileged role; the default requirement for any operation
    /// not explicitly configured, so that omissions never silently permit.
    pub fn most_restrictive() -> (r: Role)
        ensures
            r == Role::ConfigureComponents,
            forall|other: Role| rank(other) <= rank(r),
    {
        proof {
            assert(forall|other: Role| rank(other) <= 5);
        }
        Role::ConfigureComponents
    }

    /// Rank of this role as an integer, for comparisons.
    pub fn level(self) -> (n: u8)
        ensures
            n as int == rank(self),
    {
        match self {
            Role::Login => 0,
            Role::ReadOnly => 1,
            Role::Operator => 2,
            Role::Administrator => 3,
            Role::ConfigureManager => 4,
            Role::ConfigureComponents => 5,
        }
    }

    /// Whether this role is at least as privileged as `other`.
    pub fn at_least(self, other: Role) -> (b: bool)
        ensures
            b == (rank(self) >= rank(other)),
    {
        self.level() >= other.level()
    }

    /// The name of this role, as it appears in error bodies and
    /// configuration files.
    pub fn name(self) -> (s: &'static str)
        ensures
            s@ == name_of(self),
    {
        match self {
            Role::Login => "Login",
            Role::ReadOnly => "ReadOnly",
            Role::Operator => "Operator",
            Role::Administrator => "Administrator",
            Role::ConfigureManager => "ConfigureManager",
            Role::ConfigureComponents => "ConfigureComponents",
        }
    }
}

/// The name of each role, as a sequence of characters.
pub open spec fn name_of(r: Role) -> Seq<char> {
    match r {
        Role::Login => "Login"@,
        Role::ReadOnly => "ReadOnly"@,
        Role::Operator => "Operator"@,
        Role::Administrator => "Administrator"@,
        Role::ConfigureManager => "ConfigureManager"@,
        Role::ConfigureComponents => "ConfigureComponents"@,
    }
}

impl Role {
    /// The role a configured name stands for; nothing for an unknown name.
    /// Used to translate an external identity provider's role string.
    pub fn from_name(s: &str) -> (r: Option<Role>)
        ensures
            match r {
                Some(role) => name_of(role) == s@,
                None => forall|x: Role| name_of(x) != s@,
            },
    {
        if str_eq(s, "Login") {
            Some(Role::Login)
        } else if str_eq(s, "ReadOnly") {
            Some(Role::ReadOnly)
        } else if str_eq(s, "Operator") {
            Some(Role::Operator)
        } else if str_eq(s, "Administrator") {
            Some(Role::Administrator)
        } else if str_eq(s, "ConfigureManager") {
            Some(Role::ConfigureManager)
        } else if str_eq(s, "ConfigureComponents") {
            Some(Role::ConfigureComponents)
        } else {
            proof {
                assert forall|x: Role| name_of(x) != s@ by {
                    match x {
                        Role::Login => {},
                        Role::ReadOnly => {},
                        Role::Operator => {},
                        Role::Administrator => {},
                        Role::ConfigureManager => {},
                        Role::ConfigureComponents => {},
                    }
                }
            }
            None
        }
    }
}

/// Externally configured equivalences: an entry `(held, granted)` lets a
/// principal holding `held` act with the privilege of `granted` as well.
/// Read-only after startup.
pub struct RoleMap {
    pub entries: Vec<(Role, Role)>,
}

/// Whether `map` lets a principal holding `held` satisfy a requirement of
/// `required`: either directly by the total order, or through a configured
/// equivalence.
pub open spec fn grants(map: Seq<(Role, Role)>, held: Role, required: Role) -> bool {
    ||| rank(held) >= rank(required)
    ||| exists|i: int|
        0 <= i < map.len() && (#[trigger] map[i]).0 == held && rank(map[i].1) >= rank(required)
}

impl RoleMap {
    /// A map with no equivalences: only the total order grants access.
    pub fn empty() -> (m: RoleMap)
        ensures
            m.entries@.len() == 0,
            forall|held: Role, required: Role|
                #[trigger] grants(m.entries@, held, required) == (rank(held) >= rank(required)),
    {
        let m = RoleMap { entries: Vec::new() };
        proof {
            assert forall|held: Role, required: Role|
                #[trigger] grants(m.entries@, held, required) == (rank(held)
                    >= rank(required)) by {
                if grants(m.entries@, held, required) && rank(held) < rank(required) {
                    let i = choose|i: int|
                        0 <= i < m.entries@.len() && (#[trigger] m.entries@[i]).0 == held && rank(
                            m.entries@[i].1,
                        ) >= rank(required);
                    assert(false);
                }
            }
        }
        m
    }

    /// Adds the equivalence `(held, granted)`.
    pub fn grant(&mut self, held: Role, granted: Role)
        ensures
            final(self).entries@ == old(self).entries@.push((held, granted)),
    {
        self.entries.push((held, granted));
    }

    /// Whether a principal holding `held` satisfies a requirement of
    /// `required` under this map.
    pub fn satisfies(&self, held: Role, required: Role) -> (b: bool)
        ensures
            b == grants(self.entries@, held, required),
    {
        if held.at_least(required) {
            return true;
        }
        let n = self.entries.len();
        let mut i: usize = 0;
        while i < n
            invariant
                0 <= i <= n,
                n == self.entries@.len(),
                rank(held) < rank(required),
                forall|j: int|
                    0 <= j < i ==> !((#[trigger] self.entries@[j]).0 == held && rank(
                        self.entries@[j].1,
                    ) >= rank(required)),
            decreases n - i,
        {
            let entry = self.entries[i];
            if entry.0 == held && entry.1.at_least(required) {
                return true;
            }
            i = i + 1;
        }
        false
    }
}

/// The order on roles is total: any two roles are comparable, and ranks are
/// equal exactly when the roles are.
pub proof fn lemma_role_order_total(a: Role, b: Role)
    ensures
        rank(a) >= rank(b) || rank(b) >= rank(a),
        (rank(a) == rank(b)) <==> a == b,
{
}

} // verus!
