//! A session service that is switched off, and the empty collection under
//! it: both answer reads with honest documents and refuse every write.

use vstd::prelude::*;
use vstd::string::StringExecFns;
use crate::response::{Response, STATUS_BAD_REQUEST, STATUS_METHOD_NOT_ALLOWED};

verus! {

/// A session service reporting itself disabled.
pub struct DisabledSessionService {
    pub id: String,
    pub name: String,
    pub odata_id: String,
    pub sessions: String,
}

/// The document the session service returns.
pub struct SessionServiceData {
    pub id: String,
    pub name: String,
    pub odata_id: String,
    pub service_enabled: bool,
    pub sessions: String,
}

impl DisabledSessionService {
    pub fn new(odata_id: String, name: String, sessions: String) -> (r: DisabledSessionService)
        ensures
            r.id@ == "sessions"@,
            r.name@ == name@,
            r.odata_id@ == odata_id@,
            r.sessions@ == sessions@,
    {
        DisabledSessionService { id: String::from_str("sessions"), name, odata_id, sessions }
    }

    /// The service document; it always reports the service disabled.
    pub fn get(&self) -> (r: SessionServiceData)
        ensures
            r.id@ == self.id@,
            r.name@ == self.name@,
            r.odata_id@ == self.odata_id@,
            r.service_enabled == false,
            r.sessions@ == self.sessions@,
    {
        SessionServiceData {
            id: self.id.clone(),
            name: self.name.clone(),
            odata_id: self.odata_id.clone(),
            service_enabled: false,
            sessions: self.sessions.clone(),
        }
    }

    /// Replacing the service is refused.
    pub fn put(&self) -> (r: Response)
        ensures
            r.status == STATUS_BAD_REQUEST,
            r.message@ == "QueryNotSupportedOnResource"@,
    {
        Response::plain(STATUS_BAD_REQUEST, String::from_str("QueryNotSupportedOnResource"))
    }

    /// Patching the service is refused.
    pub fn patch(&self) -> (r: Response)
        ensures
            r.status == STATUS_BAD_REQUEST,
            r.message@ == "QueryNotSupportedOnResource"@,
    {
        Response::plain(STATUS_BAD_REQUEST, String::from_str("QueryNotSupportedOnResource"))
    }
}

/// A session collection with no members.
pub struct EmptySessionCollection {
    pub odata_id: String,
    pub name: String,
}

/// The document the empty collection returns.
pub struct SessionCollectionData {
    pub odata_id: String,
    pub name: String,
    pub members_count: usize,
}

impl EmptySessionCollection {
    pub fn new(odata_id: String, name: String) -> (r: EmptySessionCollection)
        ensures
            r.odata_id@ == odata_id@,
            r.name@ == name@,
    {
        EmptySessionCollection { odata_id, name }
    }

    /// The collection document; it never has members.
    pub fn get(&self) -> (r: SessionCollectionData)
        ensures
            r.odata_id@ == self.odata_id@,
            r.name@ == self.name@,
            r.members_count == 0,
    {
        SessionCollectionData {
            odata_id: self.odata_id.clone(),
            name: self.name.clone(),
            members_count: 0,
        }
    }

    /// Creating a session here is refused.
    pub fn post(&self) -> (r: Response)
        ensures
            r.status == STATUS_METHOD_NOT_ALLOWED,
            r.message@ == "OperationNotAllowed"@,
    {
        Response::plain(STATUS_METHOD_NOT_ALLOWED, String::from_str("OperationNotAllowed"))
    }
}

} // verus!
