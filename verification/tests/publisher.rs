use nexus_populate::args::PopulateArgs;
use nexus_populate::error::{ErrorKind, StoreError};
use nexus_populate::publisher::{Publication, StatusPublisher};
use nexus_populate::run::{Run, RunAction};
use nexus_populate::status::PopulateStatus;
use nexus_populate::store::MemoryStore;

fn failed(reason: &str) -> PopulateStatus {
    PopulateStatus::Failed(String::from(reason))
}

#[test]
fn the_cell_starts_as_not_done() {
    let (publisher, rx) = StatusPublisher::new();
    assert!(!publisher.has_published());
    assert!(matches!(*rx.borrow(), PopulateStatus::NotDone));
    assert!(!rx.has_changed().unwrap());
}

#[test]
fn early_and_late_observers_see_the_same_terminal_status() {
    let (mut publisher, early) = StatusPublisher::new();
    assert_eq!(publisher.publish(PopulateStatus::Done), Publication::Delivered);
    assert!(publisher.has_published());
    let late = early.clone();
    assert!(matches!(*early.borrow(), PopulateStatus::Done));
    assert!(matches!(*late.borrow(), PopulateStatus::Done));
    assert!(early.has_changed().unwrap());
}

#[test]
fn only_the_first_terminal_status_is_written() {
    let (mut publisher, rx) = StatusPublisher::new();
    assert_eq!(publisher.publish(failed("no luck")), Publication::Delivered);
    assert_eq!(publisher.publish(PopulateStatus::Done), Publication::AlreadyPublished);
    assert_eq!(publisher.publish(failed("again")), Publication::AlreadyPublished);
    assert_eq!(publisher.publish(PopulateStatus::NotDone), Publication::AlreadyPublished);
    match &*rx.borrow() {
        PopulateStatus::Failed(reason) => assert_eq!(reason, "no luck"),
        other => panic!("unexpected status {:?}", other),
    };
}

#[test]
fn a_status_of_a_run_in_progress_is_turned_away() {
    let (mut publisher, mut rx) = StatusPublisher::new();
    assert_eq!(publisher.publish(PopulateStatus::NotDone), Publication::NotTerminal);
    assert!(!publisher.has_published());
    assert!(!rx.has_changed().unwrap());
    assert_eq!(publisher.publish(PopulateStatus::Done), Publication::Delivered);
    assert!(matches!(*rx.borrow_and_update(), PopulateStatus::Done));
}

#[test]
fn publishing_to_nobody_is_no_failure() {
    let (mut publisher, rx) = StatusPublisher::new();
    drop(rx);
    assert_eq!(publisher.publish(PopulateStatus::Done), Publication::NobodyWaiting);
    assert!(publisher.has_published());
    assert_eq!(publisher.publish(PopulateStatus::Done), Publication::AlreadyPublished);
    assert_eq!(Publication::of_delivery(true), Publication::Delivered);
    assert_eq!(Publication::of_delivery(false), Publication::NobodyWaiting);
}

/// Runs to the end against the store, then publishes.
fn run_and_publish(store: &mut MemoryStore, publisher: &mut StatusPublisher) -> Publication {
    let (mut run, mut action) = Run::start(PopulateArgs::new(11));
    loop {
        let request = match action {
            RunAction::Call(request) => request,
            RunAction::Retry { request, .. } => request,
            RunAction::Finish(status) => return publisher.publish(status),
        };
        action = run.observe(store.execute(&request), 0);
    }
}

#[test]
fn a_run_publishes_done_once() {
    let mut store = MemoryStore::new(true);
    store.fail_next(4);
    let (mut publisher, rx) = StatusPublisher::new();
    assert!(matches!(*rx.borrow(), PopulateStatus::NotDone));
    assert_eq!(run_and_publish(&mut store, &mut publisher), Publication::Delivered);
    assert!(matches!(*rx.borrow(), PopulateStatus::Done));
    assert!(matches!(*rx.clone().borrow(), PopulateStatus::Done));
    assert_eq!(run_and_publish(&mut store, &mut publisher), Publication::AlreadyPublished);
}

#[test]
fn a_failed_run_publishes_its_reason() {
    let (mut publisher, rx) = StatusPublisher::new();
    let (mut run, _) = Run::start(PopulateArgs::new(11));
    let broken = StoreError::new(ErrorKind::InternalError, "syntax error");
    let publication = match run.observe(Err(broken), 0) {
        RunAction::Finish(status) => publisher.publish(status),
        other => panic!("unexpected action {:?}", other),
    };
    assert_eq!(publication, Publication::Delivered);
    match &*rx.borrow() {
        PopulateStatus::Failed(reason) => assert_eq!(
            reason,
            "gave up trying to populate built-in PopulateBuiltinUsers: \
             internal error: syntax error"
        ),
        other => panic!("unexpected status {:?}", other),
    };
}
