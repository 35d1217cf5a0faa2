//! A store held in memory, which answers requests as the control plane's
//! store is understood to: it keeps what it is given, reports a pool that
//! exists already, and for a while may not be reachable at all. It can be told
//! to refuse one record, as a store does that finds a request malformed.
//!
//! It is the store against which the run's laws are stated, and the one that
//! callers without a database run the steps against.

use crate::error::{ErrorKind, ErrorView, StoreError};
use crate::step::{answer_view, BuiltinPool, StoreRequest};
use vstd::prelude::*;

verus! {

/// One unit of baseline data.
#[derive(Clone, Copy, Debug, PartialEq, Eq, Structural)]
pub enum Record {
    BuiltinUsers,
    BuiltinRoles,
    BuiltinRoleAssignments,
    BuiltinSilo,
    SiloUsers,
    SiloUserRoleAssignments,
    FleetCollection,
    Rack { rack_id: u128 },
    IpPool { pool: BuiltinPool },
}

impl Record {
    /// Whether the records that this one refers to are among `records`.
    ///
    /// Role assignments name users and roles, the silo's users name the silo,
    /// and a pool belongs to a rack.
    pub open spec fn referents_present(self, records: Set<Record>) -> bool {
        match self {
            Record::BuiltinRoleAssignments => records.contains(Record::BuiltinUsers)
                && records.contains(Record::BuiltinRoles),
            Record::SiloUsers => records.contains(Record::BuiltinSilo),
            Record::SiloUserRoleAssignments => records.contains(Record::SiloUsers)
                && records.contains(Record::BuiltinRoles),
            Record::IpPool { .. } => has_rack(records),
            _ => true,
        }
    }
}

/// Whether `records` holds a rack.
pub open spec fn has_rack(records: Set<Record>) -> bool {
    exists|record: Record| #[trigger] records.contains(record) && record is Rack
}

impl StoreRequest {
    /// The record that the request asks the store to hold.
    pub open spec fn record_spec(self) -> Record {
        match self {
            StoreRequest::LoadBuiltinUsers => Record::BuiltinUsers,
            StoreRequest::LoadBuiltinRoles => Record::BuiltinRoles,
            StoreRequest::LoadBuiltinRoleAssignments => Record::BuiltinRoleAssignments,
            StoreRequest::LoadBuiltinSilos => Record::BuiltinSilo,
            StoreRequest::LoadSiloUsers => Record::SiloUsers,
            StoreRequest::LoadSiloUserRoleAssignments => Record::SiloUserRoleAssignments,
            StoreRequest::FleetCollectionCreate => Record::FleetCollection,
            StoreRequest::RackInsert { rack_id } => Record::Rack { rack_id },
            StoreRequest::IpPoolCreate { pool } => Record::IpPool { pool },
        }
    }

    /// Whether the store refuses the request when its record is there
    /// already. It does so for a pool; every other request it takes as done.
    pub open spec fn reports_existing(self) -> bool {
        self is IpPoolCreate
    }

    /// The record that the request asks the store to hold.
    pub fn record(&self) -> (record: Record)
        ensures
            record == self.record_spec(),
    {
        match self {
            StoreRequest::LoadBuiltinUsers => Record::BuiltinUsers,
            StoreRequest::LoadBuiltinRoles => Record::BuiltinRoles,
            StoreRequest::LoadBuiltinRoleAssignments => Record::BuiltinRoleAssignments,
            StoreRequest::LoadBuiltinSilos => Record::BuiltinSilo,
            StoreRequest::LoadSiloUsers => Record::SiloUsers,
            StoreRequest::LoadSiloUserRoleAssignments => Record::SiloUserRoleAssignments,
            StoreRequest::FleetCollectionCreate => Record::FleetCollection,
            StoreRequest::RackInsert { rack_id } => Record::Rack { rack_id: *rack_id },
            StoreRequest::IpPoolCreate { pool } => Record::IpPool { pool: *pool },
        }
    }
}

/// The failure with which a store answers a request for the record that it
/// refuses.
pub open spec fn refusal() -> ErrorView {
    ErrorView { kind: ErrorKind::InvalidRequest, message: "the store refuses this record"@ }
}

/// The mathematical value of a [`MemoryStore`].
pub struct StoreView {
    /// What the store holds.
    pub records: Set<Record>,
    /// How many more requests the store will not be reachable for.
    pub outage: nat,
    /// Whether the store refuses a record whose referents are missing.
    pub strict: bool,
    /// The record that the store refuses as malformed, if there is one.
    pub refused: Option<Record>,
}

impl StoreView {
    /// The store's answer to a request, and the store after it.
    ///
    /// While the outage lasts, every request uses up one unit of it and is
    /// answered as unavailable. After that the refused record is refused as
    /// an invalid request, a strict store refuses a record whose referents
    /// are missing, a pool that exists is reported, and any other request
    /// leaves its record in the store.
    pub open spec fn answer(self, request: StoreRequest) -> (StoreView, Result<(), ErrorView>) {
        let record = request.record_spec();
        if self.outage > 0 {
            (
                StoreView { outage: (self.outage - 1) as nat, ..self },
                Err(
                    ErrorView {
                        kind: ErrorKind::ServiceUnavailable,
                        message: "the store cannot be reached"@,
                    },
                ),
            )
        } else if self.refused == Some(record) {
            (self, Err(refusal()))
        } else if self.strict && !record.referents_present(self.records) {
            (
                self,
                Err(
                    ErrorView {
                        kind: ErrorKind::ObjectNotFound,
                        message: "a record that this one refers to is missing"@,
                    },
                ),
            )
        } else if request.reports_existing() && self.records.contains(record) {
            (
                self,
                Err(
                    ErrorView {
                        kind: ErrorKind::ObjectAlreadyExists,
                        message: "the pool exists already"@,
                    },
                ),
            )
        } else {
            (StoreView { records: self.records.insert(record), ..self }, Ok(()))
        }
    }
}

/// A store held in memory.
#[derive(Debug)]
pub struct MemoryStore {
    records: Vec<Record>,
    outage: u64,
    strict: bool,
    refused: Option<Record>,
}

impl View for MemoryStore {
    type V = StoreView;

    closed spec fn view(&self) -> StoreView {
        StoreView {
            records: self.records@.to_set(),
            outage: self.outage as nat,
            strict: self.strict,
            refused: self.refused,
        }
    }
}

impl MemoryStore {
    /// An empty store that can be reached and refuses no record as malformed.
    /// A strict one refuses a record whose referents are missing.
    pub fn new(strict: bool) -> (store: MemoryStore)
        ensures
            store@ == (StoreView { records: Set::empty(), outage: 0, strict, refused: None }),
    {
        let store = MemoryStore { records: Vec::new(), outage: 0, strict, refused: None };
        assert(store.records@.to_set() =~= Set::empty());
        store
    }

    /// Makes the store unreachable for the next `requests` requests.
    pub fn fail_next(&mut self, requests: u64)
        ensures
            final(self)@ == (StoreView { outage: requests as nat, ..old(self)@ }),
    {
        self.outage = requests;
    }

    /// Makes the store refuse `record` as malformed, in place of the record
    /// that it refused before; with `None` it refuses none.
    pub fn refuse(&mut self, record: Option<Record>)
        ensures
            final(self)@ == (StoreView { refused: record, ..old(self)@ }),
    {
        self.refused = record;
    }

    /// Whether the store holds `record`.
    pub fn contains(&self, record: Record) -> (found: bool)
        ensures
            found == self@.records.contains(record),
    {
        let mut i: usize = 0;
        while i < self.records.len()
            invariant
                i <= self.records@.len(),
                forall|j: int| 0 <= j < i ==> self.records@[j] != record,
            decreases self.records@.len() - i,
        {
            if self.records[i] == record {
                assert(self.records@.contains(record));
                return true;
            }
            i += 1;
        }
        false
    }

    /// Whether the store holds a rack.
    pub fn holds_rack(&self) -> (found: bool)
        ensures
            found == has_rack(self@.records),
    {
        let mut i: usize = 0;
        while i < self.records.len()
            invariant
                i <= self.records@.len(),
                forall|j: int| 0 <= j < i ==> !(self.records@[j] is Rack),
            decreases self.records@.len() - i,
        {
            match self.records[i] {
                Record::Rack { rack_id } => {
                    assert(self.records@.contains(Record::Rack { rack_id }));
                    assert(self@.records.contains(Record::Rack { rack_id }));
                    return true;
                },
                _ => {},
            }
            i += 1;
        }
        false
    }

    /// How many more requests the store will not be reachable for.
    pub fn outage(&self) -> (outage: u64)
        ensures
            outage == self@.outage,
    {
        self.outage
    }

    /// Whether the records that `record` refers to are in the store.
    pub fn holds_referents(&self, record: Record) -> (present: bool)
        ensures
            present == record.referents_present(self@.records),
    {
        match record {
            Record::BuiltinRoleAssignments => self.contains(Record::BuiltinUsers) && self.contains(
                Record::BuiltinRoles,
            ),
            Record::SiloUsers => self.contains(Record::BuiltinSilo),
            Record::SiloUserRoleAssignments => self.contains(Record::SiloUsers) && self.contains(
                Record::BuiltinRoles,
            ),
            Record::IpPool { .. } => self.holds_rack(),
            _ => true,
        }
    }

    /// Answers one request.
    pub fn execute(&mut self, request: &StoreRequest) -> (answer: Result<(), StoreError>)
        ensures
            (final(self)@, answer_view(answer)) == old(self)@.answer(*request),
    {
        let record = request.record();
        if self.outage > 0 {
            self.outage = self.outage - 1;
            return Err(StoreError::new(ErrorKind::ServiceUnavailable, "the store cannot be reached"));
        }
        let refused = match self.refused {
            Some(refused) => refused == record,
            None => false,
        };
        if refused {
            return Err(StoreError::new(ErrorKind::InvalidRequest, "the store refuses this record"));
        }
        if self.strict && !self.holds_referents(record) {
            return Err(
                StoreError::new(
                    ErrorKind::ObjectNotFound,
                    "a record that this one refers to is missing",
                ),
            );
        }
        let present = self.contains(record);
        let reports = match request {
            StoreRequest::IpPoolCreate { .. } => true,
            _ => false,
        };
        if reports && present {
            return Err(StoreError::new(ErrorKind::ObjectAlreadyExists, "the pool exists already"));
        }
        if !present {
            self.records.push(record);
            assert(final(self).records@.to_set() =~= old(self).records@.to_set().insert(record)) by {
                lemma_push_to_set(old(self).records@, record);
            }
        } else {
            assert(old(self).records@.to_set().insert(record) =~= old(self).records@.to_set());
        }
        Ok(())
    }
}

/// Pushing an element onto a sequence inserts it into the set of its
/// elements.
proof fn lemma_push_to_set(s: Seq<Record>, record: Record)
    ensures
        s.push(record).to_set() =~= s.to_set().insert(record),
{
    assert forall|r: Record| s.push(record).to_set().contains(r) <==> s.to_set().insert(
        record,
    ).contains(r) by {
        if s.push(record).contains(r) {
            let i = choose|i: int| 0 <= i < s.push(record).len() && s.push(record)[i] == r;
            if i < s.len() {
                assert(s[i] == r);
                assert(s.contains(r));
            }
        }
        if s.contains(r) {
            let i = choose|i: int| 0 <= i < s.len() && s[i] == r;
            assert(s.push(record)[i] == r);
        }
        if r == record {
            assert(s.push(record)[s.len() as int] == r);
        }
    }
}

} // verus!
