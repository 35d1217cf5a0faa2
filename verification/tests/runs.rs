use nexus_populate::args::PopulateArgs;
use nexus_populate::backoff::{Backoff, INITIAL_INTERVAL_MS, MAX_INTERVAL_MS};
use nexus_populate::error::{ErrorKind, StoreError};
use nexus_populate::populate::populate;
use nexus_populate::run::{Run, RunAction};
use nexus_populate::status::PopulateStatus;
use nexus_populate::step::{all_populators, BuiltinPool, Populator, StoreRequest};
use nexus_populate::store::{MemoryStore, Record};

const RACK: u128 = 0x6d93bade_bd9f_4e13_8914_9474e1e3567b;

fn baseline() -> Vec<Record> {
    vec![
        Record::BuiltinUsers,
        Record::BuiltinRoles,
        Record::BuiltinRoleAssignments,
        Record::BuiltinSilo,
        Record::SiloUsers,
        Record::SiloUserRoleAssignments,
        Record::FleetCollection,
        Record::Rack { rack_id: RACK },
        Record::IpPool { pool: BuiltinPool::Services },
        Record::IpPool { pool: BuiltinPool::Default },
    ]
}

fn all_requests() -> Vec<StoreRequest> {
    let args = PopulateArgs::new(RACK);
    all_populators().iter().flat_map(|p| p.requests(&args)).collect()
}

/// Drives a run against the store as a caller does that never waits, and
/// returns the requests made, the delays asked for and the status at the end.
fn drive(store: &mut MemoryStore, sample: u64) -> (Vec<StoreRequest>, Vec<u64>, PopulateStatus) {
    let (mut run, mut action) = Run::start(PopulateArgs::new(RACK));
    let mut requests = Vec::new();
    let mut delays = Vec::new();
    loop {
        let request = match action {
            RunAction::Call(request) => request,
            RunAction::Retry { populator, error, delay_ms, request } => {
                assert_eq!(Some(populator), run.populator());
                assert_eq!(error.kind, ErrorKind::ServiceUnavailable);
                delays.push(delay_ms);
                request
            }
            RunAction::Finish(status) => {
                assert_eq!(format!("{:?}", status), format!("{:?}", run.status()));
                return (requests, delays, status);
            }
        };
        assert!(matches!(run.status(), PopulateStatus::NotDone));
        requests.push(request);
        let answer = store.execute(&request);
        action = run.observe(answer, sample);
    }
}

#[test]
fn status_of_a_result() {
    assert!(matches!(PopulateStatus::from_result(Ok(())), PopulateStatus::Done));
    match PopulateStatus::from_result(Err(String::from("no luck"))) {
        PopulateStatus::Failed(reason) => assert_eq!(reason, "no luck"),
        other => panic!("unexpected status {:?}", other),
    }
}

#[test]
fn only_a_run_in_progress_is_not_terminal() {
    assert!(!PopulateStatus::NotDone.is_terminal());
    assert!(PopulateStatus::Done.is_terminal());
    assert!(PopulateStatus::Failed(String::from("why")).is_terminal());
    match PopulateStatus::Failed(String::from("why")).clone() {
        PopulateStatus::Failed(reason) => assert_eq!(reason, "why"),
        other => panic!("unexpected status {:?}", other),
    }
    assert!(matches!(PopulateStatus::NotDone.clone(), PopulateStatus::NotDone));
    assert!(matches!(PopulateStatus::Done.clone(), PopulateStatus::Done));
}

#[test]
fn a_run_starts_with_the_first_request_of_the_first_step() {
    let (run, action) = Run::start(PopulateArgs::new(RACK));
    assert!(matches!(action, RunAction::Call(StoreRequest::LoadBuiltinUsers)));
    assert!(matches!(run.status(), PopulateStatus::NotDone));
    assert_eq!(run.populator(), Some(Populator::BuiltinUsers));
}

#[test]
fn all_steps_succeed_on_an_empty_store() {
    let mut store = MemoryStore::new(false);
    let (requests, delays, status) = drive(&mut store, 0);
    assert!(matches!(status, PopulateStatus::Done));
    assert_eq!(requests, all_requests());
    assert_eq!(requests.len(), 10);
    assert!(delays.is_empty());
    for record in baseline() {
        assert!(store.contains(record));
    }

    // Again, against the store as the first run left it.
    let (requests, delays, status) = drive(&mut store, 0);
    assert!(matches!(status, PopulateStatus::Done));
    assert_eq!(requests, all_requests());
    assert!(delays.is_empty());
    for record in baseline() {
        assert!(store.contains(record));
    }
    assert!(!store.contains(Record::Rack { rack_id: 1 }));
}

#[test]
fn populate_brings_the_baseline_and_can_be_repeated() {
    let args = PopulateArgs::new(RACK);
    for strict in [false, true] {
        let mut store = MemoryStore::new(strict);
        assert_eq!(populate(&mut store, &args), Ok(()));
        for record in baseline() {
            assert!(store.contains(record));
        }
        assert_eq!(populate(&mut store, &args), Ok(()));
        for record in baseline() {
            assert!(store.contains(record));
        }
    }
}

#[test]
fn populate_waits_out_an_outage() {
    let args = PopulateArgs::new(RACK);
    let mut store = MemoryStore::new(true);
    store.execute(&StoreRequest::LoadBuiltinSilos).unwrap();
    store.fail_next(25);
    assert_eq!(populate(&mut store, &args), Ok(()));
    assert_eq!(store.outage(), 0);
    for record in baseline() {
        assert!(store.contains(record));
    }
}

#[test]
fn an_unreachable_store_is_retried_with_growing_delays() {
    let mut store = MemoryStore::new(false);
    store.fail_next(3);
    let (requests, delays, status) = drive(&mut store, 0);
    assert!(matches!(status, PopulateStatus::Done));
    assert_eq!(delays, vec![250, 500, 1000]);
    let mut expected = vec![StoreRequest::LoadBuiltinUsers; 3];
    expected.extend(all_requests());
    assert_eq!(requests, expected);
    for record in baseline() {
        assert!(store.contains(record));
    }
}

#[test]
fn delays_are_shortened_by_the_sample() {
    let mut store = MemoryStore::new(false);
    store.fail_next(3);
    let (_, delays, status) = drive(&mut store, 100);
    assert!(matches!(status, PopulateStatus::Done));
    // 250 - 100 % 126, 500 - 100 % 251, 1000 - 100 % 501
    assert_eq!(delays, vec![150, 400, 900]);
}

#[test]
fn a_retry_starts_the_step_again() {
    let args = PopulateArgs::new(RACK);
    let mut store = MemoryStore::new(false);
    let (mut run, mut action) = Run::start(args);
    // Up to the rack's first pool.
    for _ in 0..8 {
        match action {
            RunAction::Call(request) => action = run.observe(store.execute(&request), 0),
            other => panic!("unexpected action {:?}", other),
        }
    }
    assert!(matches!(
        action,
        RunAction::Call(StoreRequest::IpPoolCreate { pool: BuiltinPool::Services })
    ));
    assert_eq!(run.populator(), Some(Populator::Rack));
    let unavailable = StoreError::new(ErrorKind::ServiceUnavailable, "connection refused");
    match run.observe(Err(unavailable), 7) {
        RunAction::Retry { populator, error, delay_ms, request } => {
            assert_eq!(populator, Populator::Rack);
            assert_eq!(error.describe(), "service unavailable: connection refused");
            assert_eq!(delay_ms, 250 - 7);
            assert_eq!(request, StoreRequest::RackInsert { rack_id: RACK });
        }
        other => panic!("unexpected action {:?}", other),
    }
    assert!(matches!(run.status(), PopulateStatus::NotDone));
    assert_eq!(run.populator(), Some(Populator::Rack));
}

#[test]
fn the_interval_starts_afresh_with_each_step() {
    let mut store = MemoryStore::new(false);
    let (mut run, action) = Run::start(PopulateArgs::new(RACK));
    assert!(matches!(action, RunAction::Call(_)));
    let unavailable = || Err(StoreError::new(ErrorKind::ServiceUnavailable, "down"));
    assert!(matches!(run.observe(unavailable(), 0), RunAction::Retry { delay_ms: 250, .. }));
    assert!(matches!(run.observe(unavailable(), 0), RunAction::Retry { delay_ms: 500, .. }));
    let action = run.observe(store.execute(&StoreRequest::LoadBuiltinUsers), 0);
    assert!(matches!(action, RunAction::Call(StoreRequest::LoadBuiltinRoles)));
    assert!(matches!(
        run.observe(unavailable(), 0),
        RunAction::Retry {
            populator: Populator::BuiltinRoles,
            delay_ms: 250,
            request: StoreRequest::LoadBuiltinRoles,
            ..
        }
    ));
}

#[test]
fn a_permanent_failure_at_the_fifth_step_ends_the_run() {
    let mut store = MemoryStore::new(false);
    let (mut run, mut action) = Run::start(PopulateArgs::new(RACK));
    let mut requests = Vec::new();
    for _ in 0..4 {
        match action {
            RunAction::Call(request) => {
                requests.push(request);
                action = run.observe(store.execute(&request), 0);
            }
            other => panic!("unexpected action {:?}", other),
        }
    }
    assert!(matches!(action, RunAction::Call(StoreRequest::LoadSiloUsers)));
    assert_eq!(run.populator(), Some(Populator::SiloUsers));
    let malformed = StoreError::new(ErrorKind::InvalidRequest, "malformed identifier");
    let expected = "gave up trying to populate built-in PopulateSiloUsers: \
                    invalid request: malformed identifier";
    match run.observe(Err(malformed), 0) {
        RunAction::Finish(PopulateStatus::Failed(reason)) => assert_eq!(reason, expected),
        other => panic!("unexpected action {:?}", other),
    }
    match run.status() {
        PopulateStatus::Failed(reason) => assert_eq!(reason, expected),
        other => panic!("unexpected status {:?}", other),
    }
    assert_eq!(run.populator(), None);

    // Nothing that the run is handed later changes that, and no request of
    // the steps after the fifth is ever asked for.
    for answer in [Ok(()), Err(StoreError::new(ErrorKind::ServiceUnavailable, "down"))] {
        match run.observe(answer, 3) {
            RunAction::Finish(PopulateStatus::Failed(reason)) => assert_eq!(reason, expected),
            other => panic!("unexpected action {:?}", other),
        }
    }
    assert_eq!(
        requests,
        vec![
            StoreRequest::LoadBuiltinUsers,
            StoreRequest::LoadBuiltinRoles,
            StoreRequest::LoadBuiltinRoleAssignments,
            StoreRequest::LoadBuiltinSilos,
        ]
    );
    for record in [Record::SiloUsers, Record::SiloUserRoleAssignments, Record::FleetCollection] {
        assert!(!store.contains(record));
    }
}

#[test]
fn populate_gives_up_at_a_refused_record() {
    let args = PopulateArgs::new(RACK);
    let mut store = MemoryStore::new(true);
    store.refuse(Some(Record::SiloUsers));
    store.fail_next(2);
    assert_eq!(
        populate(&mut store, &args),
        Err(String::from(
            "gave up trying to populate built-in PopulateSiloUsers: \
             invalid request: the store refuses this record"
        ))
    );
    for record in &baseline()[..4] {
        assert!(store.contains(*record));
    }
    for record in &baseline()[4..] {
        assert!(!store.contains(*record));
    }
    assert_eq!(store.outage(), 0);

    // Once the store refuses nothing, the next start brings the rest.
    store.refuse(None);
    assert_eq!(populate(&mut store, &args), Ok(()));
    for record in baseline() {
        assert!(store.contains(record));
    }
}

#[test]
fn populate_names_the_rack_step_for_a_refused_pool() {
    let args = PopulateArgs::new(RACK);
    let mut store = MemoryStore::new(false);
    store.refuse(Some(Record::IpPool { pool: BuiltinPool::Default }));
    assert_eq!(
        populate(&mut store, &args),
        Err(String::from(
            "gave up trying to populate built-in PopulateRack: \
             invalid request: the store refuses this record"
        ))
    );
    assert!(store.contains(Record::IpPool { pool: BuiltinPool::Services }));
    assert!(!store.contains(Record::IpPool { pool: BuiltinPool::Default }));
    // Another rack's record is none of this run's.
    let mut store = MemoryStore::new(false);
    store.refuse(Some(Record::Rack { rack_id: RACK + 1 }));
    assert_eq!(populate(&mut store, &args), Ok(()));
}

#[test]
fn an_existing_pool_does_not_fail_the_run() {
    let (mut run, _) = Run::start(PopulateArgs::new(RACK));
    for _ in 0..8 {
        assert!(matches!(run.observe(Ok(()), 0), RunAction::Call(_)));
    }
    let exists = || Err(StoreError::new(ErrorKind::ObjectAlreadyExists, "oxide-service-pool"));
    assert!(matches!(
        run.observe(exists(), 0),
        RunAction::Call(StoreRequest::IpPoolCreate { pool: BuiltinPool::Default })
    ));
    assert!(matches!(run.observe(exists(), 0), RunAction::Finish(PopulateStatus::Done)));
    assert!(matches!(run.status(), PopulateStatus::Done));
    assert!(matches!(run.observe(Ok(()), 0), RunAction::Finish(PopulateStatus::Done)));
}

#[test]
fn an_unexpected_conflict_fails_the_run() {
    let (mut run, _) = Run::start(PopulateArgs::new(RACK));
    let exists = Err(StoreError::new(ErrorKind::ObjectAlreadyExists, "users"));
    match run.observe(exists, 0) {
        RunAction::Finish(PopulateStatus::Failed(reason)) => assert_eq!(
            reason,
            "gave up trying to populate built-in PopulateBuiltinUsers: \
             object already exists: users"
        ),
        other => panic!("unexpected action {:?}", other),
    }
}

#[test]
fn the_interval_doubles_up_to_an_hour() {
    assert_eq!(INITIAL_INTERVAL_MS, 250);
    assert_eq!(MAX_INTERVAL_MS, 3_600_000);
    let mut backoff = Backoff::new();
    assert_eq!(backoff.interval_ms(), 250);
    let mut expected = 250u64;
    for _ in 0..13 {
        assert_eq!(backoff.next_delay(0), expected);
        expected *= 2;
        assert_eq!(backoff.interval_ms(), expected);
    }
    // 250 * 2^13 = 2_048_000; twice that is over the maximum.
    assert_eq!(backoff.next_delay(0), 2_048_000);
    assert_eq!(backoff.interval_ms(), 3_600_000);
    assert_eq!(backoff.next_delay(0), 3_600_000);
    assert_eq!(backoff.interval_ms(), 3_600_000);
    backoff.reset();
    assert_eq!(backoff.interval_ms(), 250);
}

#[test]
fn a_delay_is_between_half_the_interval_and_the_interval() {
    for sample in [0u64, 1, 125, 126, 127, 251, u64::MAX] {
        let mut backoff = Backoff::new();
        let first = backoff.next_delay(sample);
        assert!(125 <= first && first <= 250);
        assert_eq!(first, 250 - sample % 126);
        let second = backoff.next_delay(sample);
        assert!(250 <= second && second <= 500);
        assert!(first <= second);
    }
    let mut backoff = Backoff::new();
    assert_eq!(backoff.next_delay(125), 125);
    assert_eq!(backoff.next_delay(u64::MAX), 500 - u64::MAX % 251);
}
