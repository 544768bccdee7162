//! The computer-system collection: listing, detail lookup, and the reset
//! action's power-state machine.

use vstd::prelude::*;
use vstd::pervasive::VecAdditionalExecFns;
use vstd::string::StringExecFns;
use crate::response::{Response, STATUS_NOT_FOUND};
use crate::strutil::str_eq;

verus! {

/// The power state of a system.
#[derive(Clone, Copy, Debug, PartialEq, Eq, Structural)]
pub enum PowerState {
    On,
    Off,
    PoweringOn,
    PoweringOff,
    Paused,
}

/// The reset actions a caller may request.
#[derive(Clone, Copy, Debug, PartialEq, Eq, Structural)]
pub enum ResetType {
    On,
    ForceOn,
    ForceOff,
    ForceRestart,
    GracefulRestart,
    GracefulShutdown,
    PushPowerButton,
    PowerCycle,
    Nmi,
    Suspend,
    Pause,
    Resume,
}

/// How a reset request ends: the state changed; the action is not
/// supported for the property; the push-button is meaningless in the
/// current state; the request named no reset type; no system has the
/// given name.
#[derive(Clone, Copy, Debug, PartialEq, Eq, Structural)]
pub enum ResetOutcome {
    Success,
    NotUpdated,
    ValueError,
    MissingParameter,
    UnknownSystem,
}

/// The outcome a reset request has against a system in `state`.
pub open spec fn reset_outcome(state: PowerState, reset: Option<ResetType>) -> ResetOutcome {
    match reset {
        None => ResetOutcome::MissingParameter,
        Some(rt) => match rt {
            ResetType::On | ResetType::ForceOn | ResetType::PowerCycle | ResetType::ForceRestart
                | ResetType::GracefulRestart => ResetOutcome::Success,
            ResetType::ForceOff | ResetType::GracefulShutdown => ResetOutcome::Success,
            ResetType::Nmi | ResetType::Suspend | ResetType::Pause | ResetType::Resume
                => ResetOutcome::NotUpdated,
            ResetType::PushPowerButton => match state {
                PowerState::Paused => ResetOutcome::ValueError,
                _ => ResetOutcome::Success,
            },
        },
    }
}

/// The power state after a reset request against a system in `state`;
/// unchanged unless the outcome is a success.
pub open spec fn reset_next(state: PowerState, reset: Option<ResetType>) -> PowerState {
    match reset {
        None => state,
        Some(rt) => match rt {
            ResetType::On | ResetType::ForceOn | ResetType::PowerCycle | ResetType::ForceRestart
                | ResetType::GracefulRestart => PowerState::On,
            ResetType::ForceOff | ResetType::GracefulShutdown => PowerState::Off,
            ResetType::Nmi | ResetType::Suspend | ResetType::Pause | ResetType::Resume => state,
            ResetType::PushPowerButton => match state {
                PowerState::On | PowerState::PoweringOn => PowerState::Off,
                PowerState::Off | PowerState::PoweringOff => PowerState::On,
                PowerState::Paused => PowerState::Paused,
            },
        },
    }
}

/// A stand-in system: its resource path, its name, and its power state.
#[derive(Debug)]
pub struct DummySystem {
    pub odata_id: String,
    pub name: String,
    pub power_state: PowerState,
}

impl Clone for DummySystem {
    fn clone(&self) -> (r: Self)
        ensures
            r.odata_id@ == self.odata_id@,
            r.name@ == self.name@,
            r.power_state == self.power_state,
    {
        DummySystem {
            odata_id: self.odata_id.clone(),
            name: self.name.clone(),
            power_state: self.power_state,
        }
    }
}

/// The full computer-system record a detail request returns.
pub struct ComputerSystemData {
    pub odata_id: String,
    pub name: String,
    pub id: String,
    pub power_state: PowerState,
    pub reset_target: Option<String>,
}

/// The mathematical value of a computer-system record.
pub struct ComputerSystemView {
    pub odata_id: Seq<char>,
    pub name: Seq<char>,
    pub id: Seq<char>,
    pub power_state: PowerState,
    pub reset_target: Option<Seq<char>>,
}

impl View for ComputerSystemData {
    type V = ComputerSystemView;

    open spec fn view(&self) -> ComputerSystemView {
        ComputerSystemView {
            odata_id: self.odata_id@,
            name: self.name@,
            id: self.id@,
            power_state: self.power_state,
            reset_target: match self.reset_target {
                Some(ref t) => Some(t@),
                None => None,
            },
        }
    }
}

/// The record a stand-in system presents: its id is its name, and its
/// reset action lives under its resource path.
pub open spec fn model_of(d: DummySystem) -> ComputerSystemView {
    ComputerSystemView {
        odata_id: d.odata_id@,
        name: d.name@,
        id: d.name@,
        power_state: d.power_state,
        reset_target: Some(d.odata_id@ + "/Actions/ComputerSystem.Reset"@),
    }
}

impl DummySystem {
    /// The full record for this system.
    pub fn to_computer_system(&self) -> (c: ComputerSystemData)
        ensures
            c@ == model_of(*self),
    {
        ComputerSystemData {
            odata_id: self.odata_id.clone(),
            name: self.name.clone(),
            id: self.name.clone(),
            power_state: self.power_state,
            reset_target: Some(self.odata_id.clone().concat("/Actions/ComputerSystem.Reset")),
        }
    }

    /// Applies a reset request to this system alone.
    pub fn post(&mut self, reset_type: Option<ResetType>) -> (r: ResetOutcome)
        ensures
            r == reset_outcome(old(self).power_state, reset_type),
            final(self).power_state == reset_next(old(self).power_state, reset_type),
            final(self).odata_id@ == old(self).odata_id@,
            final(self).name@ == old(self).name@,
    {
        let rt = match reset_type {
            None => {
                return ResetOutcome::MissingParameter;
            },
            Some(rt) => rt,
        };
        match rt {
            ResetType::On | ResetType::ForceOn | ResetType::PowerCycle | ResetType::ForceRestart
                | ResetType::GracefulRestart => {
                self.power_state = PowerState::On;
                ResetOutcome::Success
            },
            ResetType::ForceOff | ResetType::GracefulShutdown => {
                self.power_state = PowerState::Off;
                ResetOutcome::Success
            },
            ResetType::Nmi | ResetType::Suspend | ResetType::Pause | ResetType::Resume => {
                ResetOutcome::NotUpdated
            },
            ResetType::PushPowerButton => {
                match self.power_state {
                    PowerState::On | PowerState::PoweringOn => {
                        self.power_state = PowerState::Off;
                        ResetOutcome::Success
                    },
                    PowerState::Off | PowerState::PoweringOff => {
                        self.power_state = PowerState::On;
                        ResetOutcome::Success
                    },
                    PowerState::Paused => ResetOutcome::ValueError,
                }
            },
        }
    }
}

/// What the collection's listing returns: the collection's path and name,
/// the members' paths, and their count.
pub struct ComputerSystemCollectionData {
    pub odata_id: String,
    pub name: String,
    pub members: Vec<String>,
    pub members_count: usize,
}

/// The views of the member references.
pub open spec fn member_views(s: Seq<String>) -> Seq<Seq<char>> {
    s.map_values(|x: String| x@)
}

/// The resource paths of the systems, in order.
pub open spec fn system_ids(s: Seq<DummySystem>) -> Seq<Seq<char>> {
    s.map_values(|d: DummySystem| d.odata_id@)
}

/// The message of a 404 for a detail request: it names the requested id.
pub open spec fn not_found_message(id: Seq<char>) -> Seq<char> {
    "ResourceNotFound: "@ + id
}

/// The index of the first system named `id`, if any.
pub open spec fn find_system(ss: Seq<DummySystem>, id: Seq<char>) -> Option<int>
    decreases ss.len(),
{
    if ss.len() == 0 {
        None
    } else if ss[0].name@ == id {
        Some(0int)
    } else {
        match find_system(ss.drop_first(), id) {
            Some(i) => Some(i + 1),
            None => None,
        }
    }
}

/// The collection of stand-in systems.
pub struct Systems {
    pub odata_id: String,
    pub name: String,
    pub systems: Vec<DummySystem>,
}

impl Systems {
    pub fn new(odata_id: String, name: String, systems: Vec<DummySystem>) -> (r: Systems)
        ensures
            r.odata_id@ == odata_id@,
            r.name@ == name@,
            r.systems == systems,
    {
        Systems { odata_id, name, systems }
    }

    /// Lists the collection: one member reference per system, in order.
    pub fn get(&self) -> (r: ComputerSystemCollectionData)
        ensures
            r.odata_id@ == self.odata_id@,
            r.name@ == self.name@,
            member_views(r.members@) == system_ids(self.systems@),
            r.members_count == self.systems@.len(),
    {
        let n = self.systems.len();
        let mut members: Vec<String> = Vec::new();
        let mut i: usize = 0;
        proof {
            assert(member_views(members@) =~= system_ids(self.systems@.subrange(0, 0)));
        }
        while i < n
            invariant
                0 <= i <= n,
                n == self.systems@.len(),
                members@.len() == i,
                member_views(members@) == system_ids(self.systems@.subrange(0, i as int)),
            decreases n - i,
        {
            let member = self.systems[i].odata_id.clone();
            let ghost members0 = members@;
            members.push(member);
            proof {
                assert forall|j: int| 0 <= j < i + 1 implies member_views(members@)[j]
                    == system_ids(self.systems@.subrange(0, i as int + 1))[j] by {
                    if j < i {
                        assert(member_views(members@)[j] == members0[j]@);
                        assert(member_views(members0)[j] == members0[j]@);
                    } else {
                        assert(members@[j] == member);
                    }
                }
                assert(member_views(members@) =~= system_ids(
                    self.systems@.subrange(0, i as int + 1),
                ));
            }
            i = i + 1;
        }
        proof {
            assert(self.systems@.subrange(0, n as int) =~= self.systems@);
        }
        ComputerSystemCollectionData {
            odata_id: self.odata_id.clone(),
            name: self.name.clone(),
            members,
            members_count: n,
        }
    }

    /// The index of the first system named `id`, if any.
    fn position_of(&self, id: &str) -> (r: Option<usize>)
        ensures
            match r {
                Some(i) => i < self.systems@.len() && find_system(self.systems@, id@) == Some(
                    i as int,
                ),
                None => find_system(self.systems@, id@) is None,
            },
    {
        let n = self.systems.len();
        let mut i: usize = 0;
        proof {
            assert(self.systems@.skip(0) =~= self.systems@);
        }
        while i < n
            invariant
                0 <= i <= n,
                n == self.systems@.len(),
                find_system(self.systems@, id@) == match find_system(
                    self.systems@.skip(i as int),
                    id@,
                ) {
                    Some(k) => Some(k + i),
                    None => None::<int>,
                },
            decreases n - i,
        {
            proof {
                assert(self.systems@.skip(i as int)[0] == self.systems@[i as int]);
                assert(self.systems@.skip(i as int).drop_first() =~= self.systems@.skip(
                    i as int + 1,
                ));
            }
            if str_eq(self.systems[i].name.as_str(), id) {
                return Some(i);
            }
            i = i + 1;
        }
        proof {
            assert(self.systems@.skip(n as int).len() == 0);
        }
        None
    }

    /// A borrow of the system named `id`, if any.
    pub fn access(&self, id: &str) -> (r: Option<&DummySystem>)
        ensures
            match r {
                Some(d) => {
                    &&& find_system(self.systems@, id@) is Some
                    &&& *d == self.systems@[find_system(self.systems@, id@).unwrap()]
                },
                None => find_system(self.systems@, id@) is None,
            },
    {
        match self.position_of(id) {
            Some(i) => Some(&self.systems[i]),
            None => None,
        }
    }

    /// The detail record of the system named `id`, or 404 naming the
    /// requested id.
    pub fn detail_get(&self, id: &str) -> (r: Result<ComputerSystemData, Response>)
        ensures
            match r {
                Ok(c) => {
                    &&& find_system(self.systems@, id@) is Some
                    &&& c@ == model_of(self.systems@[find_system(self.systems@, id@).unwrap()])
                },
                Err(resp) => {
                    &&& find_system(self.systems@, id@) is None
                    &&& resp.status == STATUS_NOT_FOUND
                    &&& resp.message@ == not_found_message(id@)
                },
            },
    {
        match self.position_of(id) {
            Some(i) => Ok(self.systems[i].to_computer_system()),
            None => {
                let mut message = String::from_str("ResourceNotFound: ");
                message.append(id);
                Err(Response::plain(STATUS_NOT_FOUND, message))
            },
        }
    }

    /// Applies a reset request to the system named `id`.
    pub fn reset(&mut self, id: &str, reset_type: Option<ResetType>) -> (r: ResetOutcome)
        ensures
            match find_system(old(self).systems@, id@) {
                None => {
                    &&& r == ResetOutcome::UnknownSystem
                    &&& final(self).systems@ == old(self).systems@
                },
                Some(i) => {
                    &&& r == reset_outcome(old(self).systems@[i].power_state, reset_type)
                    &&& final(self).systems@.len() == old(self).systems@.len()
                    &&& forall|j: int|
                        0 <= j < old(self).systems@.len() && j != i ==> final(self).systems@[j]
                            == old(self).systems@[j]
                    &&& final(self).systems@[i].power_state == reset_next(
                        old(self).systems@[i].power_state,
                        reset_type,
                    )
                    &&& final(self).systems@[i].odata_id@ == old(self).systems@[i].odata_id@
                    &&& final(self).systems@[i].name@ == old(self).systems@[i].name@
                },
            },
            final(self).odata_id@ == old(self).odata_id@,
            final(self).name@ == old(self).name@,
    {
        let i = match self.position_of(id) {
            Some(i) => i,
            None => {
                return ResetOutcome::UnknownSystem;
            },
        };
        let mut system = self.systems[i].clone();
        let outcome = system.post(reset_type);
        self.systems.set(i, system);
        outcome
    }

    /// Creating is not supported on this collection.
    pub fn post(&self) -> (r: Response)
        ensures
            r.status == crate::response::STATUS_METHOD_NOT_ALLOWED,
            r.message@ == "QueryNotSupportedOnResource"@,
    {
        Response::plain(
            crate::response::STATUS_METHOD_NOT_ALLOWED,
            String::from_str("QueryNotSupportedOnResource"),
        )
    }
}

} // verus!
