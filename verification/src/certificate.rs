//! Privilege mapping for a certificate resource.

use vstd::prelude::*;
use crate::privilege::{required_role, OperationPrivilegeMapping, PrivilegeTable, Verb};
use crate::role::Role;

verus! {

/// Every operation on a certificate requires the manager-configuration
/// privilege.
pub struct DefaultPrivileges;

impl OperationPrivilegeMapping for DefaultPrivileges {
    open spec fn spec_required(v: Verb) -> Role {
        Role::ConfigureManager
    }

    fn table() -> (t: PrivilegeTable) {
        let mut t = PrivilegeTable::new();
        t.set(Verb::Get, Role::ConfigureManager);
        t.set(Verb::Head, Role::ConfigureManager);
        t.set(Verb::Post, Role::ConfigureManager);
        t.set(Verb::Put, Role::ConfigureManager);
        t.set(Verb::Patch, Role::ConfigureManager);
        t.set(Verb::Delete, Role::ConfigureManager);
        proof {
            reveal_with_fuel(required_role, 8);
            assert forall|v: Verb| #[trigger] required_role(t.entries@, v) == Self::spec_required(
                v,
            ) by {
                match v {
                    Verb::Get => {},
                    Verb::Head => {},
                    Verb::Post => {},
                    Verb::Put => {},
                    Verb::Patch => {},
                    Verb::Delete => {},
                }
            }
        }
        t
    }
}

} // verus!
