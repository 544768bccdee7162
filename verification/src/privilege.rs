//! Verbs and the privilege table.
//!
//! A `PrivilegeTable` maps each HTTP verb of one resource class to the
//! minimum role required to perform it. A verb with no entry defaults to
//! the most restrictive role: an omission never silently permits.

use vstd::prelude::*;
use crate::role::{rank, Role};

verus! {

/// The HTTP verbs the middleware distinguishes.
#[derive(Clone, Copy, Debug, PartialEq, Eq, Structural)]
pub enum Verb {
    Get,
    Head,
    Post,
    Put,
    Patch,
    Delete,
}

/// Per-verb minimum roles for one resource class; configured at startup,
/// immutable thereafter. The first entry for a verb wins.
pub struct PrivilegeTable {
    pub entries: Vec<(Verb, Role)>,
}

/// The role required for `v` by `entries`: the first matching entry, or the
/// most restrictive role when none matches.
pub open spec fn required_role(entries: Seq<(Verb, Role)>, v: Verb) -> Role
    decreases entries.len(),
{
    if entries.len() == 0 {
        Role::ConfigureComponents
    } else if entries[0].0 == v {
        entries[0].1
    } else {
        required_role(entries.drop_first(), v)
    }
}

impl PrivilegeTable {
    /// A table with no entries: every verb requires the most restrictive
    /// role.
    pub fn new() -> (t: PrivilegeTable)
        ensures
            t.entries@.len() == 0,
    {
        PrivilegeTable { entries: Vec::new() }
    }

    /// Adds an entry; the first entry for a verb wins, so an existing
    /// requirement is not changed by a later `set`.
    pub fn set(&mut self, v: Verb, required: Role)
        ensures
            final(self).entries@ == old(self).entries@.push((v, required)),
    {
        self.entries.push((v, required));
    }

    /// The minimum role required for `v`.
    pub fn required(&self, v: Verb) -> (r: Role)
        ensures
            r == required_role(self.entries@, v),
    {
        let n = self.entries.len();
        let mut i: usize = 0;
        proof {
            assert(self.entries@.skip(0) =~= self.entries@);
        }
        while i < n
            invariant
                0 <= i <= n,
                n == self.entries@.len(),
                required_role(self.entries@.skip(i as int), v) == required_role(self.entries@, v),
            decreases n - i,
        {
            let entry = self.entries[i];
            if entry.0 == v {
                proof {
                    assert(self.entries@.skip(i as int)[0] == self.entries@[i as int]);
                }
                return entry.1;
            }
            proof {
                assert(self.entries@.skip(i as int).drop_first() =~= self.entries@.skip(
                    i as int + 1,
                ));
            }
            i = i + 1;
        }
        proof {
            assert(self.entries@.skip(n as int).len() == 0);
        }
        Role::most_restrictive()
    }
}

/// The per-resource-class assignment of minimum roles to verbs, one
/// implementation per resource class. The spec function fixes the mapping;
/// the executable table is proved to agree with it.
pub trait OperationPrivilegeMapping {
    /// The role this resource class requires for `v`.
    spec fn spec_required(v: Verb) -> Role;

    /// The privilege table realising the mapping.
    fn table() -> (t: PrivilegeTable)
        ensures
            forall|v: Verb| #[trigger] required_role(t.entries@, v) == Self::spec_required(v),
    ;
}

/// A verb without an entry is held to the most restrictive role, which no
/// role exceeds: the table fails closed on omissions.
pub proof fn lemma_missing_entry_defaults_closed(entries: Seq<(Verb, Role)>, v: Verb)
    requires
        forall|i: int| 0 <= i < entries.len() ==> (#[trigger] entries[i]).0 != v,
    ensures
        required_role(entries, v) == Role::ConfigureComponents,
        forall|r: Role| #[trigger] rank(r) <= rank(required_role(entries, v)),
    decreases entries.len(),
{
    if entries.len() > 0 {
        assert(entries[0].0 != v);
        assert(forall|i: int|
            0 <= i < entries.drop_first().len() ==> (#[trigger] entries.drop_first()[i]).0 != v);
        lemma_missing_entry_defaults_closed(entries.drop_first(), v);
    }
}

} // verus!
