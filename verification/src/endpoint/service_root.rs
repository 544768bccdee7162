//! The service root: the entry document naming the service and linking to
//! the resources it enables.

use vstd::prelude::*;
use vstd::string::StringExecFns;

verus! {

/// The service root's configuration, built up by enabling features.
pub struct ServiceRoot {
    pub name: String,
    pub id: String,
    pub odata_id: String,
    pub systems: Option<String>,
    pub session_service: Option<String>,
    pub sessions_link: Option<String>,
}

/// The entry document a service-root request returns.
pub struct ServiceRootData {
    pub name: String,
    pub id: String,
    pub odata_id: String,
    pub systems: Option<String>,
    pub session_service: Option<String>,
    pub sessions: Option<String>,
}

/// The characters of an optional string.
pub open spec fn opt_view(o: Option<String>) -> Option<Seq<char>> {
    match o {
        Some(s) => Some(s@),
        None => None,
    }
}

impl ServiceRoot {
    /// A service root with nothing enabled.
    pub fn new(name: String, id: String) -> (r: ServiceRoot)
        ensures
            r.name@ == name@,
            r.id@ == id@,
            r.odata_id@.len() == 0,
            r.systems is None,
            r.session_service is None,
            r.sessions_link is None,
    {
        ServiceRoot {
            name,
            id,
            odata_id: String::new(),
            systems: None,
            session_service: None,
            sessions_link: None,
        }
    }

    /// Links the computer-system collection.
    pub fn enable_systems(self) -> (r: ServiceRoot)
        ensures
            r.systems matches Some(s) && s@ == "/redfish/v1/Systems"@,
            r.name@ == self.name@,
            r.id@ == self.id@,
            r.odata_id@ == self.odata_id@,
            opt_view(r.session_service) == opt_view(self.session_service),
            opt_view(r.sessions_link) == opt_view(self.sessions_link),
    {
        let mut root = self;
        root.systems = Some(String::from_str("/redfish/v1/Systems"));
        root
    }

    /// Links the session service, and the session collection it owns.
    pub fn enable_sessions(self, session_collection_id: String) -> (r: ServiceRoot)
        ensures
            r.session_service matches Some(s) && s@ == "/redfish/v1/SessionService"@,
            r.sessions_link matches Some(s) && s@ == session_collection_id@,
            r.name@ == self.name@,
            r.id@ == self.id@,
            r.odata_id@ == self.odata_id@,
            opt_view(r.systems) == opt_view(self.systems),
    {
        let mut root = self;
        root.session_service = Some(String::from_str("/redfish/v1/SessionService"));
        root.sessions_link = Some(session_collection_id);
        root
    }

    /// The entry document: the configured names and whichever links were
    /// enabled.
    pub fn get(&self) -> (r: ServiceRootData)
        ensures
            r.name@ == self.name@,
            r.id@ == self.id@,
            r.odata_id@ == self.odata_id@,
            opt_view(r.systems) == opt_view(self.systems),
            opt_view(r.session_service) == opt_view(self.session_service),
            opt_view(r.sessions) == opt_view(self.sessions_link),
    {
        ServiceRootData {
            name: self.name.clone(),
            id: self.id.clone(),
            odata_id: self.odata_id.clone(),
            systems: clone_opt(&self.systems),
            session_service: clone_opt(&self.session_service),
            sessions: clone_opt(&self.sessions_link),
        }
    }
}

/// A copy of an optional string.
fn clone_opt(o: &Option<String>) -> (r: Option<String>)
    ensures
        opt_view(r) == opt_view(*o),
{
    match o {
        Some(s) => Some(s.clone()),
        None => None,
    }
}

} // verus!
