//! What holds of the steps and of a whole run against a store that answers
//! as [`MemoryStore`](crate::store::MemoryStore) does.

use crate::populate::{attempt_from, drive};
use crate::run::RunView;
use crate::step::{registry, BuiltinPool, Populator};
use crate::status::StatusView;
use crate::store::{has_rack, refusal, Record, StoreView};
use vstd::prelude::*;

verus! {

impl Populator {
    /// Whether `records` holds what the records of this step refer to and the
    /// step does not bring itself.
    pub open spec fn referents_present(self, records: Set<Record>) -> bool {
        self.requests_spec(0)[0].record_spec().referents_present(records)
    }
}

/// The place of a record among those that a run for the rack `rack_id`
/// brings, in the order in which it brings them; `None` for a record that it
/// does not bring, which is another rack's.
pub open spec fn place(record: Record, rack_id: u128) -> Option<nat> {
    match record {
        Record::BuiltinUsers => Some(0),
        Record::BuiltinRoles => Some(1),
        Record::BuiltinRoleAssignments => Some(2),
        Record::BuiltinSilo => Some(3),
        Record::SiloUsers => Some(4),
        Record::SiloUserRoleAssignments => Some(5),
        Record::FleetCollection => Some(6),
        Record::Rack { rack_id: id } => if id == rack_id {
            Some(7)
        } else {
            None
        },
        Record::IpPool { pool: BuiltinPool::Services } => Some(8),
        Record::IpPool { pool: BuiltinPool::Default } => Some(9),
    }
}

/// The step that brings a record.
pub open spec fn step_of(record: Record) -> Populator {
    match record {
        Record::BuiltinUsers => Populator::BuiltinUsers,
        Record::BuiltinRoles => Populator::BuiltinRoles,
        Record::BuiltinRoleAssignments => Populator::BuiltinRoleAssignments,
        Record::BuiltinSilo => Populator::BuiltinSilos,
        Record::SiloUsers => Populator::SiloUsers,
        Record::SiloUserRoleAssignments => Populator::SiloUserRoleAssignments,
        Record::FleetCollection => Populator::Fleet,
        Record::Rack { .. } => Populator::Rack,
        Record::IpPool { .. } => Populator::Rack,
    }
}

/// The records that a run for the rack `rack_id` brings before it comes to
/// the place `limit`.
pub open spec fn brought(rack_id: u128, limit: nat) -> Set<Record> {
    Set::new(|record: Record| place(record, rack_id) is Some && place(record, rack_id)->0 < limit)
}

/// The number of records that a run brings.
pub open spec fn baseline_size() -> nat {
    10
}

/// The records that a run for the rack `rack_id` leaves in the store.
pub open spec fn baseline(rack_id: u128) -> Set<Record> {
    brought(rack_id, baseline_size())
}

/// The places follow the registry: the record of each request of each step
/// has the place that counts the requests before it, and the step that brings
/// it is that step.
pub proof fn lemma_place_follows_registry(rack_id: u128, step: int, position: int)
    requires
        0 <= step < registry().len(),
        0 <= position < registry()[step].requests_spec(rack_id).len(),
    ensures
        ({
            let record = registry()[step].requests_spec(rack_id)[position].record_spec();
            &&& place(record, rack_id) == Some((step + position) as nat)
            &&& step_of(record) == registry()[step]
            &&& baseline(rack_id).contains(record)
        }),
{
}

/// The order of the registry is the order of reference: what a record
/// refers to is among the records that a run brings before it.
pub proof fn lemma_referents_come_first(record: Record, rack_id: u128)
    requires
        place(record, rack_id) is Some,
    ensures
        record.referents_present(brought(rack_id, place(record, rack_id)->0)),
{
    if record is IpPool {
        let earlier = brought(rack_id, place(record, rack_id)->0);
        assert(earlier.contains(Record::Rack { rack_id }));
    }
}

/// How far a run for the rack `rack_id` gets against `store`: the place of the
/// record that the store refuses, or the number of the baseline's records
/// where the store refuses none of them.
pub open spec fn reach(store: StoreView, rack_id: u128) -> nat {
    match store.refused {
        Some(record) => match place(record, rack_id) {
            Some(at) => at,
            None => baseline_size(),
        },
        None => baseline_size(),
    }
}

/// Whether the store refuses, as malformed, a record that `populator`
/// brings in a run for the rack `rack_id`.
pub open spec fn refuses(store: StoreView, populator: Populator, rack_id: u128) -> bool {
    &&& store.refused is Some
    &&& place(store.refused->Some_0, rack_id) is Some
    &&& step_of(store.refused->Some_0) == populator
}

/// Whether the store takes what `populator` brings: it can be reached, it
/// refuses none of the step's records as malformed, and if it is strict it
/// holds what the step's records refer to.
pub open spec fn accepts(store: StoreView, populator: Populator, rack_id: u128) -> bool {
    &&& store.outage == 0
    &&& !refuses(store, populator, rack_id)
    &&& store.strict ==> populator.referents_present(store.records)
}

/// A step can be run again: against a store that takes what it brings, and
/// against no other, the step succeeds. It then succeeds again when it is run
/// a second time, and the second run leaves the store as the first one left
/// it.
pub proof fn lemma_populator_idempotent(populator: Populator, store: StoreView, rack_id: u128)
    ensures
        ({
            let (once, first) = populator.attempt(store, rack_id);
            let (twice, second) = populator.attempt(once, rack_id);
            &&& first is Ok <==> accepts(store, populator, rack_id)
            &&& first is Ok ==> second is Ok && twice == once
        }),
{
    reveal_with_fuel(attempt_from, 4);
    let requests = populator.requests_spec(rack_id);
    let (once, first) = populator.attempt(store, rack_id);
    let (twice, second) = populator.attempt(once, rack_id);
    if store.outage > 0 {
    } else if populator is Rack {
        let rack = Record::Rack { rack_id };
        let with_rack = store.answer(requests[0]).0;
        if store.refused != Some(rack) {
            assert(with_rack.records.contains(rack));
            let with_services = with_rack.answer(requests[1]).0;
            assert(with_services.records.contains(rack));
            let with_default = with_services.answer(requests[2]).0;
            assert(with_default.records.contains(rack));
            if first is Ok {
                assert(once == with_default);
                assert(once.records.contains(Record::IpPool { pool: BuiltinPool::Services }));
                assert(once.records.contains(Record::IpPool { pool: BuiltinPool::Default }));
                let again = once.answer(requests[0]).0;
                assert(again.records =~= once.records);
                assert(again == once);
                assert(twice.records =~= once.records);
            }
        }
    } else {
        let record = requests[0].record_spec();
        if first is Ok {
            assert(once.records.contains(record));
            assert(once.records.insert(record) =~= once.records);
            assert(twice.records =~= once.records);
        }
    }
}

/// Against a store that cannot be reached, every step fails with a failure
/// that is classified as transient, and leaves the store's records alone.
pub proof fn lemma_unreachable_is_transient(populator: Populator, store: StoreView, rack_id: u128)
    requires
        store.outage > 0,
    ensures
        ({
            let (after, result) = populator.attempt(store, rack_id);
            &&& result is Err
            &&& result->Err_0.kind is ServiceUnavailable
            &&& result->Err_0.kind.class_spec() is Transient
            &&& after == StoreView { outage: (store.outage - 1) as nat, ..store }
        }),
{
    reveal_with_fuel(attempt_from, 2);
}

/// A step that is run before the records that its own refer to are there
/// fails against a strict store, each time in the same way: with a failure
/// that is not retried, and without a change to the store.
pub proof fn lemma_missing_referent_fails(populator: Populator, store: StoreView, rack_id: u128)
    requires
        store.outage == 0,
        !refuses(store, populator, rack_id),
        store.strict,
        !populator.referents_present(store.records),
    ensures
        ({
            let (after, result) = populator.attempt(store, rack_id);
            &&& result is Err
            &&& result->Err_0.kind is ObjectNotFound
            &&& result->Err_0.kind.class_spec() is Permanent
            &&& after == store
        }),
{
    reveal_with_fuel(attempt_from, 2);
}

/// Whether `records` holds the record of every request that comes before
/// the one that `run` awaits the answer to.
spec fn earlier_present(run: RunView, records: Set<Record>) -> bool {
    &&& run.step > 0 ==> records.contains(Record::BuiltinUsers)
    &&& run.step > 1 ==> records.contains(Record::BuiltinRoles)
    &&& run.step > 2 ==> records.contains(Record::BuiltinRoleAssignments)
    &&& run.step > 3 ==> records.contains(Record::BuiltinSilo)
    &&& run.step > 4 ==> records.contains(Record::SiloUsers)
    &&& run.step > 5 ==> records.contains(Record::SiloUserRoleAssignments)
    &&& run.step > 6 ==> records.contains(Record::FleetCollection)
    &&& run.step == 7 && run.position > 0 ==> records.contains(
        Record::Rack { rack_id: run.rack_id },
    )
    &&& run.step == 7 && run.position > 1 ==> records.contains(
        Record::IpPool { pool: BuiltinPool::Services },
    )
}

/// What observers see at the end of a run for the rack `rack_id` against
/// `store`.
pub open spec fn final_status(store: StoreView, rack_id: u128) -> StatusView {
    if reach(store, rack_id) == baseline_size() {
        StatusView::Done
    } else {
        StatusView::Failed(step_of(store.refused->Some_0).failure_reason_spec(refusal()))
    }
}

/// The store at the end of a run for the rack `rack_id` against `store`: the
/// outage is over, and the store holds what it held and what the run brought.
pub open spec fn final_store(store: StoreView, rack_id: u128) -> StoreView {
    StoreView {
        records: store.records.union(brought(rack_id, reach(store, rack_id))),
        outage: 0,
        ..store
    }
}

/// A run in progress that has left the records of its earlier requests in
/// the store, and has not come to the record that the store refuses, ends as
/// [`final_status`] and [`final_store`] say.
proof fn lemma_drive_ends(run: RunView, store: StoreView)
    requires
        run.well_formed(),
        run.status is NotDone,
        earlier_present(run, store.records),
        run.step + run.position <= reach(store, run.rack_id),
    ensures
        drive(run, store).0.status == final_status(store, run.rack_id),
        drive(run, store).1 == final_store(store, run.rack_id),
    decreases store.outage, registry().len() - run.step, run.requests().len() - run.position,
{
    let rack_id = run.rack_id;
    let (after, answer) = store.answer(run.pending());
    let next = run.next(answer, 0).0;
    let record = run.pending().record_spec();
    crate::laws::lemma_next_well_formed(run, answer, 0);
    assert(place(record, rack_id) == Some(run.step + run.position));
    assert(step_of(record) == run.populator());
    if store.outage > 0 {
        lemma_drive_ends(next, after);
    } else if store.refused == Some(record) {
        assert(next.status == final_status(store, rack_id));
        assert(store.records.union(brought(rack_id, reach(store, rack_id))) =~= store.records);
    } else {
        if run.step == 7 && run.position > 0 {
            assert(store.records.contains(Record::Rack { rack_id }));
            assert(has_rack(store.records));
        }
        assert(record.referents_present(store.records));
        assert(after.records.contains(record));
        assert(run.step + run.position < reach(store, rack_id));
        if next.status.is_terminal() {
            assert(next.status is Done);
            assert(after.records =~= final_store(store, rack_id).records);
        } else {
            lemma_drive_ends(next, after);
            assert(after.records.union(brought(rack_id, reach(store, rack_id))) =~= final_store(
                store,
                rack_id,
            ).records);
        }
    }
}

/// Driven against a store, a run ends, however long the store stays
/// unreachable first, whatever it held before, and whether or not it is
/// strict. It ends as done unless the store refuses one of the baseline's
/// records as malformed; then it ends as failed, with a reason that names the
/// step that brings that record. At the end the store holds what it held and
/// the records that come before the refused one: the run has brought nothing
/// that comes after it.
pub proof fn lemma_run_ends(store: StoreView, rack_id: u128)
    ensures
        drive(RunView::initial(rack_id), store).0.status == final_status(store, rack_id),
        drive(RunView::initial(rack_id), store).1 == final_store(store, rack_id),
{
    lemma_drive_ends(RunView::initial(rack_id), store);
}

/// Driven against a store that refuses none of the baseline's records, a run
/// always ends as done: the order of the registry brings every record after
/// the records that it refers to. At the end the store holds what it held and
/// the whole baseline.
pub proof fn lemma_run_completes(store: StoreView, rack_id: u128)
    requires
        reach(store, rack_id) == baseline_size(),
    ensures
        drive(RunView::initial(rack_id), store).0.status is Done,
        drive(RunView::initial(rack_id), store).1 == (StoreView {
            records: store.records.union(baseline(rack_id)),
            outage: 0,
            ..store
        }),
{
    lemma_run_ends(store, rack_id);
}

/// A run against a store that refuses a record of the baseline ends as
/// failed, and leaves every record from the refused one on as it found it:
/// what comes after the failure is never asked for.
pub proof fn lemma_run_aborts(store: StoreView, rack_id: u128, later: Record)
    requires
        reach(store, rack_id) < baseline_size(),
        place(later, rack_id) is Some,
        place(later, rack_id)->0 >= reach(store, rack_id),
    ensures
        drive(RunView::initial(rack_id), store).0.status is Failed,
        drive(RunView::initial(rack_id), store).1.records.contains(later)
            == store.records.contains(later),
{
    lemma_run_ends(store, rack_id);
}

/// A second run, against the store as a first run for the same rack left it,
/// ends as the first one did and leaves the store as it found it.
pub proof fn lemma_rerun_changes_nothing(store: StoreView, rack_id: u128)
    ensures
        ({
            let (run, once) = drive(RunView::initial(rack_id), store);
            let (rerun, twice) = drive(RunView::initial(rack_id), once);
            &&& rerun.status == run.status
            &&& twice == once
        }),
{
    let once = drive(RunView::initial(rack_id), store).1;
    lemma_run_ends(store, rack_id);
    lemma_run_ends(once, rack_id);
    assert(once.records.union(brought(rack_id, reach(once, rack_id))) =~= once.records);
}

} // verus!
