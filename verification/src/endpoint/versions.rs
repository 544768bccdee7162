//! The protocol-version document: each supported version and the path it
//! is served under.

use vstd::prelude::*;
use vstd::string::StringExecFns;

verus! {

/// The version map, as ordered pairs of version name and path.
pub struct Versions {
    pub entries: Vec<(String, String)>,
}

/// The views of the version entries.
pub open spec fn entries_view(s: Seq<(String, String)>) -> Seq<(Seq<char>, Seq<char>)> {
    s.map_values(|p: (String, String)| (p.0@, p.1@))
}

impl Versions {
    pub fn new(versions: Vec<(String, String)>) -> (r: Versions)
        ensures
            r.entries == versions,
    {
        Versions { entries: versions }
    }

    /// The entries, for rendering.
    pub fn entries(&self) -> (r: &Vec<(String, String)>)
        ensures
            r == &self.entries,
    {
        &self.entries
    }
}

impl Default for Versions {
    /// The single entry `v1`, served under `/redfish/v1`.
    fn default() -> (r: Versions)
        ensures
            entries_view(r.entries@) =~= seq![("v1"@, "/redfish/v1"@)],
    {
        let mut entries: Vec<(String, String)> = Vec::new();
        entries.push((String::from_str("v1"), String::from_str("/redfish/v1")));
        proof {
            assert(entries_view(entries@) =~= seq![("v1"@, "/redfish/v1"@)]);
        }
        Versions { entries }
    }
}

} // verus!
