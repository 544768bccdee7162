//! Privilege mapping for the collection of computer systems.

use vstd::prelude::*;
use crate::privilege::{required_role, OperationPrivilegeMapping, PrivilegeTable, Verb};
use crate::role::Role;

verus! {

/// Listing the collection needs only an authenticated login; adding to it
/// requires the component-configuration privilege.
pub struct DefaultPrivileges;

impl OperationPrivilegeMapping for DefaultPrivileges {
    open spec fn spec_required(v: Verb) -> Role {
        match v {
            Verb::Get => Role::Login,
            Verb::Head => Role::Login,
            _ => Role::ConfigureComponents,
        }
    }

    fn table() -> (t: PrivilegeTable) {
        let mut t = PrivilegeTable::new();
        t.set(Verb::Get, Role::Login);
        t.set(Verb::Head, Role::Login);
        t.set(Verb::Post, Role::ConfigureComponents);
        t.set(Verb::Put, Role::ConfigureComponents);
        t.set(Verb::Patch, Role::ConfigureComponents);
        t.set(Verb::Delete, Role::ConfigureComponents);
        proof {
            reveal_with_fuel(required_role, 8);
            assert forall|v: Verb| #[trigger] required_role(t.entries@, v) == Self::spec_required(
                v,
            ) by {
                match v {
                    Verb::Get => {},
                    Verb::Head => {},
                    Verb::Post => {},
                    Verb::Put => {},
                    Verb::Patch => {},
                    Verb::Delete => {},
                }
            }
        }
        t
    }
}

} // verus!
