//! The baseline steps: what each asks of the store, and in which order they
//! run.

use crate::args::PopulateArgs;
use crate::error::{ErrorKind, ErrorView, StoreError};
use vstd::prelude::*;
use vstd::string::*;

verus! {

/// The address pools that exist on every rack.
#[derive(Clone, Copy, Debug, PartialEq, Eq, Structural)]
pub enum BuiltinPool {
    /// The pool reserved for the control plane's own services.
    Services,
    /// The pool that instances draw from unless told otherwise.
    Default,
}

impl BuiltinPool {
    pub open spec fn name_spec(self) -> Seq<char> {
        match self {
            BuiltinPool::Services => "oxide-service-pool"@,
            BuiltinPool::Default => "default"@,
        }
    }

    pub open spec fn description_spec(self) -> Seq<char> {
        match self {
            BuiltinPool::Services => "IP Pool for Oxide Services"@,
            BuiltinPool::Default => "default IP pool"@,
        }
    }

    /// The name under which the pool is created.
    pub fn name(self) -> (name: &'static str)
        ensures
            name@ == self.name_spec(),
    {
        match self {
            BuiltinPool::Services => "oxide-service-pool",
            BuiltinPool::Default => "default",
        }
    }

    /// The description that the pool is created with.
    pub fn description(self) -> (description: &'static str)
        ensures
            description@ == self.description_spec(),
    {
        match self {
            BuiltinPool::Services => "IP Pool for Oxide Services",
            BuiltinPool::Default => "default IP pool",
        }
    }

    /// Whether the pool is internal to the control plane.
    pub fn internal(self) -> (internal: bool)
        ensures
            internal == (self is Services),
    {
        match self {
            BuiltinPool::Services => true,
            BuiltinPool::Default => false,
        }
    }
}

/// One call into the store.
#[derive(Clone, Copy, Debug, PartialEq, Eq, Structural)]
pub enum StoreRequest {
    LoadBuiltinUsers,
    LoadBuiltinRoles,
    LoadBuiltinRoleAssignments,
    LoadBuiltinSilos,
    LoadSiloUsers,
    LoadSiloUserRoleAssignments,
    /// Create the fleet's record of provisioned resources.
    FleetCollectionCreate,
    RackInsert { rack_id: u128 },
    IpPoolCreate { pool: BuiltinPool },
}

impl StoreRequest {
    /// Whether a report that the record exists already counts as success.
    ///
    /// The requests that load a built-in set, and the one that inserts the
    /// rack, are written so that the store itself passes over what is there:
    /// from them such a report is an unexpected conflict. A request that
    /// creates a single record, a pool or the fleet's collection, meets its
    /// record on every start but the first, and where the store reports that,
    /// the step has what it wanted.
    pub open spec fn tolerates_existing(self) -> bool {
        self is IpPoolCreate || self is FleetCollectionCreate
    }

    /// What the store's answer means to the step that made the request: the
    /// answer itself, but for a tolerated report that the record exists.
    pub open spec fn absorb_spec(self, answer: Result<(), ErrorView>) -> Result<(), ErrorView> {
        match answer {
            Ok(_) => Ok(()),
            Err(error) => if self.tolerates_existing() && error.kind is ObjectAlreadyExists {
                Ok(())
            } else {
                Err(error)
            },
        }
    }

    /// What the store's answer means to the step that made the request.
    pub fn absorb(&self, answer: Result<(), StoreError>) -> (outcome: Result<(), StoreError>)
        ensures
            answer_view(outcome) == self.absorb_spec(answer_view(answer)),
    {
        match answer {
            Ok(_) => Ok(()),
            Err(error) => {
                let tolerated = match self {
                    StoreRequest::IpPoolCreate { .. } => true,
                    StoreRequest::FleetCollectionCreate => true,
                    _ => false,
                };
                match error.kind {
                    ErrorKind::ObjectAlreadyExists => if tolerated {
                        Ok(())
                    } else {
                        Err(error)
                    },
                    _ => Err(error),
                }
            },
        }
    }
}

/// The mathematical value of an answer of the store.
pub open spec fn answer_view(answer: Result<(), StoreError>) -> Result<(), ErrorView> {
    match answer {
        Ok(_) => Ok(()),
        Err(error) => Err(error@),
    }
}

/// A baseline step: one category of built-in data that must exist before the
/// control plane serves.
#[derive(Clone, Copy, Debug, PartialEq, Eq, Structural)]
pub enum Populator {
    /// The built-in users.
    BuiltinUsers,
    /// The built-in roles.
    BuiltinRoles,
    /// The roles that the built-in users hold.
    BuiltinRoleAssignments,
    /// The built-in silo.
    BuiltinSilos,
    /// The users of the built-in silo that interactive use starts from.
    SiloUsers,
    /// The roles that those users hold.
    SiloUserRoleAssignments,
    /// The fleet's record of provisioned resources.
    Fleet,
    /// The rack, and the address pools that every rack has.
    Rack,
}

impl Populator {
    /// The requests that one attempt of this step makes, in order.
    pub open spec fn requests_spec(self, rack_id: u128) -> Seq<StoreRequest> {
        match self {
            Populator::BuiltinUsers => seq![StoreRequest::LoadBuiltinUsers],
            Populator::BuiltinRoles => seq![StoreRequest::LoadBuiltinRoles],
            Populator::BuiltinRoleAssignments => seq![StoreRequest::LoadBuiltinRoleAssignments],
            Populator::BuiltinSilos => seq![StoreRequest::LoadBuiltinSilos],
            Populator::SiloUsers => seq![StoreRequest::LoadSiloUsers],
            Populator::SiloUserRoleAssignments => seq![StoreRequest::LoadSiloUserRoleAssignments],
            Populator::Fleet => seq![StoreRequest::FleetCollectionCreate],
            Populator::Rack => seq![
                StoreRequest::RackInsert { rack_id },
                StoreRequest::IpPoolCreate { pool: BuiltinPool::Services },
                StoreRequest::IpPoolCreate { pool: BuiltinPool::Default },
            ],
        }
    }

    pub open spec fn name_spec(self) -> Seq<char> {
        match self {
            Populator::BuiltinUsers => "PopulateBuiltinUsers"@,
            Populator::BuiltinRoles => "PopulateBuiltinRoles"@,
            Populator::BuiltinRoleAssignments => "PopulateBuiltinRoleAssignments"@,
            Populator::BuiltinSilos => "PopulateBuiltinSilos"@,
            Populator::SiloUsers => "PopulateSiloUsers"@,
            Populator::SiloUserRoleAssignments => "PopulateSiloUserRoleAssignments"@,
            Populator::Fleet => "PopulateFleet"@,
            Populator::Rack => "PopulateRack"@,
        }
    }

    /// The reason that a run gives when this step met a failure that it does
    /// not retry: it names the step, then the failure.
    pub open spec fn failure_reason_spec(self, error: ErrorView) -> Seq<char> {
        "gave up trying to populate built-in "@ + self.name_spec() + ": "@ + error.describe()
    }

    /// The name of this step in messages.
    pub fn name(self) -> (name: &'static str)
        ensures
            name@ == self.name_spec(),
    {
        match self {
            Populator::BuiltinUsers => "PopulateBuiltinUsers",
            Populator::BuiltinRoles => "PopulateBuiltinRoles",
            Populator::BuiltinRoleAssignments => "PopulateBuiltinRoleAssignments",
            Populator::BuiltinSilos => "PopulateBuiltinSilos",
            Populator::SiloUsers => "PopulateSiloUsers",
            Populator::SiloUserRoleAssignments => "PopulateSiloUserRoleAssignments",
            Populator::Fleet => "PopulateFleet",
            Populator::Rack => "PopulateRack",
        }
    }

    /// The requests that one attempt of this step makes, in order.
    pub fn requests(self, args: &PopulateArgs) -> (requests: Vec<StoreRequest>)
        ensures
            requests@ == self.requests_spec(args.rack()),
    {
        let requests = match self {
            Populator::BuiltinUsers => vec![StoreRequest::LoadBuiltinUsers],
            Populator::BuiltinRoles => vec![StoreRequest::LoadBuiltinRoles],
            Populator::BuiltinRoleAssignments => vec![StoreRequest::LoadBuiltinRoleAssignments],
            Populator::BuiltinSilos => vec![StoreRequest::LoadBuiltinSilos],
            Populator::SiloUsers => vec![StoreRequest::LoadSiloUsers],
            Populator::SiloUserRoleAssignments => vec![StoreRequest::LoadSiloUserRoleAssignments],
            Populator::Fleet => vec![StoreRequest::FleetCollectionCreate],
            Populator::Rack => vec![
                StoreRequest::RackInsert { rack_id: args.rack_id() },
                StoreRequest::IpPoolCreate { pool: BuiltinPool::Services },
                StoreRequest::IpPoolCreate { pool: BuiltinPool::Default },
            ],
        };
        assert(requests@ =~= self.requests_spec(args.rack()));
        requests
    }

    /// The reason that a run gives when this step met a failure that it does
    /// not retry.
    pub fn failure_reason(self, error: &StoreError) -> (reason: String)
        ensures
            reason@ == self.failure_reason_spec(error@),
    {
        let mut reason = String::from_str("gave up trying to populate built-in ");
        reason.append(self.name());
        reason.append(": ");
        reason.append(error.describe().as_str());
        reason
    }
}

/// The steps of a run, in the order in which they run. A step stands after
/// every step whose records its own refer to.
pub open spec fn registry() -> Seq<Populator> {
    seq![
        Populator::BuiltinUsers,
        Populator::BuiltinRoles,
        Populator::BuiltinRoleAssignments,
        Populator::BuiltinSilos,
        Populator::SiloUsers,
        Populator::SiloUserRoleAssignments,
        Populator::Fleet,
        Populator::Rack,
    ]
}

/// The steps of a run, in the order in which they run.
pub fn all_populators() -> (populators: [Populator; 8])
    ensures
        populators@ == registry(),
{
    let populators = [
        Populator::BuiltinUsers,
        Populator::BuiltinRoles,
        Populator::BuiltinRoleAssignments,
        Populator::BuiltinSilos,
        Populator::SiloUsers,
        Populator::SiloUserRoleAssignments,
        Populator::Fleet,
        Populator::Rack,
    ];
    assert(populators@ =~= registry());
    populators
}

} // verus!
