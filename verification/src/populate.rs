//! Steps and whole runs against a store in memory.

use crate::args::PopulateArgs;
use crate::error::{ErrorView, StoreError};
use crate::run::{ActionView, Run, RunAction, RunView};
use crate::status::{PopulateStatus, StatusView};
use crate::step::{answer_view, registry, Populator, StoreRequest};
use crate::store::{MemoryStore, StoreView};
use crate::store_laws::{baseline_size, final_status, final_store, lemma_run_ends, reach};
use vstd::prelude::*;

verus! {

/// The store after the requests from place `from` on were made in order, up
/// to the first failure that its request does not tolerate, and that failure
/// if there was one.
pub open spec fn attempt_from(requests: Seq<StoreRequest>, store: StoreView, from: nat) -> (
    StoreView,
    Result<(), ErrorView>,
)
    decreases requests.len() - from,
{
    if from >= requests.len() {
        (store, Ok(()))
    } else {
        let (after, answer) = store.answer(requests[from as int]);
        match requests[from as int].absorb_spec(answer) {
            Ok(_) => attempt_from(requests, after, from + 1),
            Err(error) => (after, Err(error)),
        }
    }
}

impl Populator {
    /// One attempt of this step against a store: the store after it, and
    /// how it ended.
    pub open spec fn attempt(self, store: StoreView, rack_id: u128) -> (
        StoreView,
        Result<(), ErrorView>,
    ) {
        attempt_from(self.requests_spec(rack_id), store, 0)
    }

    /// Attempts this step once against `store`.
    pub fn populate(self, store: &mut MemoryStore, args: &PopulateArgs) -> (result: Result<
        (),
        StoreError,
    >)
        ensures
            (final(store)@, answer_view(result)) == self.attempt(old(store)@, args.rack()),
    {
        let requests = self.requests(args);
        let mut i: usize = 0;
        while i < requests.len()
            invariant
                i <= requests@.len(),
                requests@ == self.requests_spec(args.rack()),
                attempt_from(requests@, store@, i as nat) == attempt_from(
                    requests@,
                    old(store)@,
                    0,
                ),
            decreases requests@.len() - i,
        {
            let answer = store.execute(&requests[i]);
            match requests[i].absorb(answer) {
                Ok(_) => {},
                Err(error) => {
                    return Err(error);
                },
            }
            i += 1;
        }
        Ok(())
    }
}

/// The end of a run that is driven against a store: its caller makes every
/// request that the run asks for, at once, until the run has ended.
///
/// The first component is the run at its end, the second the store then.
pub open spec fn drive(run: RunView, store: StoreView) -> (RunView, StoreView)
    decreases store.outage, registry().len() - run.step, run.requests().len() - run.position,
{
    if run.status.is_terminal() || !run.well_formed() {
        (run, store)
    } else {
        let (after, answer) = store.answer(run.pending());
        let next = run.next(answer, 0).0;
        if next.status.is_terminal() {
            (next, after)
        } else {
            drive(next, after)
        }
    }
}

/// What a run returns for the status that it ended with.
pub open spec fn result_view(result: Result<(), String>) -> StatusView {
    match result {
        Ok(_) => StatusView::Done,
        Err(reason) => StatusView::Failed(reason@),
    }
}

/// Runs every step of the registry, in order, against `store`, retrying a
/// step for as long as the store is unavailable. Returns the reason if the run
/// was given up.
///
/// Against a store in memory a run is given up only where the store
/// refuses one of the baseline's records as malformed: the store comes back
/// after its outage, and the registry brings every record after the records
/// that it refers to. The store then holds what it held and the records that
/// come before the refused one, or the whole baseline.
pub fn populate(store: &mut MemoryStore, args: &PopulateArgs) -> (result: Result<(), String>)
    ensures
        final(store)@ == drive(RunView::initial(args.rack()), old(store)@).1,
        result_view(result) == drive(RunView::initial(args.rack()), old(store)@).0.status,
        result_view(result) == final_status(old(store)@, args.rack()),
        final(store)@ == final_store(old(store)@, args.rack()),
        result is Ok <==> reach(old(store)@, args.rack()) == baseline_size(),
{
    let (mut run, mut action) = Run::start(*args);
    loop
        invariant
            run@.well_formed(),
            run@.status.is_terminal() ==> action@ == ActionView::Finish(run@.status),
            !run@.status.is_terminal() ==> action@.request() == Some(run@.pending()),
            !run@.status.is_terminal() ==> drive(run@, store@) == drive(
                RunView::initial(args.rack()),
                old(store)@,
            ),
            run@.status.is_terminal() ==> (run@, store@) == drive(
                RunView::initial(args.rack()),
                old(store)@,
            ),
        decreases
                store@.outage,
                registry().len() - run@.step,
                run@.requests().len() - run@.position,
                (if run@.status.is_terminal() { 0int } else { 1int }),
    {
        let request = match action {
            RunAction::Call(request) => request,
            RunAction::Retry { request, .. } => request,
            RunAction::Finish(status) => {
                proof {
                    lemma_run_ends(old(store)@, args.rack());
                }
                return match status {
                    PopulateStatus::Failed(reason) => Err(reason),
                    _ => Ok(()),
                };
            },
        };
        let answer = store.execute(&request);
        action = run.observe(answer, 0);
    }
}

} // verus!
