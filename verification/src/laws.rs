//! What holds of every run, whatever the store answers.

use crate::backoff::{grown, interval_after, jittered, INITIAL_INTERVAL_MS};
use crate::error::{ErrorKind, ErrorView};
use crate::run::{ActionView, RunView};
use crate::status::StatusView;
use crate::step::{registry, Populator};
use vstd::prelude::*;

verus! {

/// What a run is handed each time: the store's answer, and a random sample.
pub type Event = (Result<(), ErrorView>, u64);

impl RunView {
    /// The run after it was handed `events`, one after the other.
    pub open spec fn after(self, events: Seq<Event>) -> RunView
        decreases events.len(),
    {
        if events.len() == 0 {
            self
        } else {
            self.next(events[0].0, events[0].1).0.after(events.drop_first())
        }
    }

    /// What the run asked of its caller when it was handed the last of
    /// `events`.
    pub open spec fn last_action(self, events: Seq<Event>) -> ActionView
        recommends
            events.len() > 0,
    {
        self.after(events.drop_last()).next(events.last().0, events.last().1).1
    }
}

/// A run stays well formed.
pub proof fn lemma_next_well_formed(run: RunView, answer: Result<(), ErrorView>, sample: u64)
    requires
        run.well_formed(),
    ensures
        run.next(answer, sample).0.well_formed(),
        run.next(answer, sample).0.rack_id == run.rack_id,
{
    crate::backoff::lemma_delay_bounded(run.interval, sample);
}

/// A run stays well formed, whatever it is handed.
pub proof fn lemma_after_well_formed(run: RunView, events: Seq<Event>)
    requires
        run.well_formed(),
    ensures
        run.after(events).well_formed(),
        run.after(events).rack_id == run.rack_id,
    decreases events.len(),
{
    if events.len() > 0 {
        lemma_next_well_formed(run, events[0].0, events[0].1);
        lemma_after_well_formed(run.next(events[0].0, events[0].1).0, events.drop_first());
    }
}

/// Handing a run one sequence of events and then another is handing it the
/// two joined.
pub proof fn lemma_after_concat(run: RunView, first: Seq<Event>, second: Seq<Event>)
    ensures
        run.after(first + second) == run.after(first).after(second),
    decreases first.len(),
{
    if first.len() == 0 {
        assert(first + second =~= second);
    } else {
        let next = run.next(first[0].0, first[0].1).0;
        assert((first + second).drop_first() =~= first.drop_first() + second);
        lemma_after_concat(next, first.drop_first(), second);
    }
}

/// Handing a run one more event is taking one more step from where the run
/// was.
pub proof fn lemma_after_push(run: RunView, events: Seq<Event>, last: Event)
    ensures
        run.after(events.push(last)) == run.after(events).next(last.0, last.1).0,
{
    let single = seq![last];
    let before = run.after(events);
    let next = before.next(last.0, last.1).0;
    assert(events.push(last) =~= events + single);
    lemma_after_concat(run, events, single);
    assert(single.len() == 1 && single[0] == last);
    assert(single.drop_first() =~= Seq::<Event>::empty());
    assert(before.after(single) == next.after(single.drop_first()));
    assert(next.after(Seq::<Event>::empty()) == next);
}

/// The status changes once at most: a run that has ended is not changed by
/// anything that it is handed later, and goes on telling its caller to publish
/// the status that it ended with. So an observer that looks as soon as the run
/// has ended and one that looks at any later time see the same status.
pub proof fn lemma_terminal_status_is_final(run: RunView, later: Seq<Event>)
    requires
        run.status.is_terminal(),
    ensures
        run.after(later) == run,
        forall|answer: Result<(), ErrorView>, sample: u64|
            #[trigger] run.after(later).next(answer, sample) == (
                run,
                ActionView::Finish(run.status),
            ),
    decreases later.len(),
{
    if later.len() > 0 {
        lemma_terminal_status_is_final(run, later.drop_first());
    }
}

/// Of two moments of one run, the later one shows the status of the earlier
/// one if the run had ended by then.
pub proof fn lemma_single_terminal_status(run: RunView, before: Seq<Event>, later: Seq<Event>)
    requires
        run.after(before).status.is_terminal(),
    ensures
        run.after(before + later).status == run.after(before).status,
{
    lemma_after_concat(run, before, later);
    lemma_terminal_status_is_final(run.after(before), later);
}

/// A run tells its caller to publish a status exactly when it has ended, and
/// the status is the one that it ended with: done or failed, never the status
/// of a run in progress.
pub proof fn lemma_finish_publishes_status(run: RunView, answer: Result<(), ErrorView>, sample: u64)
    ensures
        run.next(answer, sample).1 is Finish <==> run.next(answer, sample).0.status.is_terminal(),
        run.next(answer, sample).1 is Finish ==> run.next(answer, sample).1
            == ActionView::Finish(run.next(answer, sample).0.status),
        !run.status.is_terminal() && run.next(answer, sample).1 is Finish ==> {
            ||| run.next(answer, sample).0.status is Done
            ||| run.next(answer, sample).0.status is Failed
        },
{
}

/// An answer that the store is unavailable never ends a run. The step in
/// progress starts again from its first request, after a delay taken from the
/// interval, which then grows.
pub proof fn lemma_unavailable_is_retried(run: RunView, message: Seq<char>, sample: u64)
    requires
        run.well_formed(),
        run.status is NotDone,
    ensures
        ({
            let error = ErrorView { kind: ErrorKind::ServiceUnavailable, message };
            let (next, action) = run.next(Err(error), sample);
            &&& next == RunView { position: 0, interval: grown(run.interval), ..run }
            &&& action == ActionView::Retry {
                populator: run.populator(),
                error,
                delay_ms: jittered(run.interval, sample),
                request: run.requests()[0],
            }
        }),
{
}

/// A failure that is not retried ends the run at once: the status is failed,
/// with a reason that names the step in progress and the failure. Whatever the
/// run is handed after that, it is not changed and asks for no request: the
/// steps after the one that failed are never attempted.
pub proof fn lemma_permanent_failure_aborts(
    run: RunView,
    answer: Result<(), ErrorView>,
    sample: u64,
    later: Seq<Event>,
)
    requires
        run.well_formed(),
        run.status is NotDone,
        run.pending().absorb_spec(answer) is Err,
        run.pending().absorb_spec(answer)->Err_0.kind.class_spec() is Permanent,
    ensures
        ({
            let error = run.pending().absorb_spec(answer)->Err_0;
            let failed = StatusView::Failed(run.populator().failure_reason_spec(error));
            let (next, action) = run.next(answer, sample);
            &&& next == RunView { status: failed, ..run }
            &&& action == ActionView::Finish(failed)
            &&& next.after(later) == next
            &&& forall|answer: Result<(), ErrorView>, sample: u64|
                #[trigger] next.after(later).next(answer, sample).1 == ActionView::Finish(failed)
        }),
{
    let next = run.next(answer, sample).0;
    lemma_terminal_status_is_final(next, later);
}

/// The steps run in the order of the registry, none is passed over, and a
/// step starts only when the one before it has succeeded: an answer leaves
/// the run at its step, or moves it to the next one, and it moves only on
/// success of the step's last request. The request that the run asks for then
/// is the one that it awaits.
pub proof fn lemma_steps_in_order(run: RunView, answer: Result<(), ErrorView>, sample: u64)
    requires
        run.well_formed(),
        run.status is NotDone,
    ensures
        ({
            let (next, action) = run.next(answer, sample);
            &&& next.step == run.step || next.step == run.step + 1
            &&& next.step == run.step + 1 ==> {
                &&& run.pending().absorb_spec(answer) is Ok
                &&& run.position + 1 == run.requests().len()
                &&& next.position == 0
            }
            &&& next.status is NotDone ==> action.request() == Some(next.pending())
            &&& next.status is Done ==> {
                &&& run.pending().absorb_spec(answer) is Ok
                &&& run.step + 1 == registry().len()
                &&& run.position + 1 == run.requests().len()
            }
        }),
{
}

/// Whether the event at place `at` of `events` completed the step at place
/// `step` of the registry: the run awaited the answer to the step's last
/// request, and the answer counted as success.
pub open spec fn completes_step(run: RunView, events: Seq<Event>, at: int, step: nat) -> bool {
    let before = run.after(events.take(at));
    &&& 0 <= at < events.len()
    &&& before.status is NotDone
    &&& before.step == step
    &&& before.position + 1 == before.requests().len()
    &&& before.pending().absorb_spec(events[at].0) is Ok
}

/// No step is reached before the steps that stand before it have succeeded:
/// whatever a run was handed since its start, every step before the one that
/// it has come to was completed by one of the answers, and if the run has
/// ended as done so was every step of the registry.
pub proof fn lemma_earlier_steps_succeeded(rack_id: u128, events: Seq<Event>, step: nat)
    requires
        ({
            let run = RunView::initial(rack_id).after(events);
            step < run.step || (run.status is Done && step < registry().len())
        }),
    ensures
        exists|at: int| #[trigger] completes_step(RunView::initial(rack_id), events, at, step),
    decreases events.len(),
{
    let start = RunView::initial(rack_id);
    if events.len() == 0 {
    } else {
        let earlier = events.drop_last();
        let last = events.last();
        let before = start.after(earlier);
        assert(events =~= earlier.push(last));
        lemma_after_push(start, earlier, last);
        lemma_after_well_formed(start, earlier);
        if step < before.step || (before.status is Done && step < registry().len()) {
            lemma_earlier_steps_succeeded(rack_id, earlier, step);
            let at = choose|at: int| #[trigger] completes_step(start, earlier, at, step);
            assert(earlier.take(at) =~= events.take(at));
            assert(completes_step(start, events, at, step));
        } else {
            assert(before.status is NotDone);
            lemma_steps_in_order(before, last.0, last.1);
            let at = events.len() - 1;
            assert(events.take(at) =~= earlier);
            assert(completes_step(start, events, at, step));
        }
    }
}

/// Whether two texts both have a character at place `at`, and not the same.
spec fn differ_at(first: Seq<char>, second: Seq<char>, at: int) -> bool {
    0 <= at < first.len() && at < second.len() && first[at] != second[at]
}

/// The reason of a failed run tells which step failed: two different steps
/// never give the same reason, whatever the failures were.
pub proof fn lemma_reason_tells_step(
    first: Populator,
    second: Populator,
    first_error: ErrorView,
    second_error: ErrorView,
)
    requires
        first != second,
    ensures
        first.failure_reason_spec(first_error) != second.failure_reason_spec(second_error),
{
    reveal_strlit("PopulateBuiltinUsers");
    reveal_strlit("PopulateBuiltinRoles");
    reveal_strlit("PopulateBuiltinRoleAssignments");
    reveal_strlit("PopulateBuiltinSilos");
    reveal_strlit("PopulateSiloUsers");
    reveal_strlit("PopulateSiloUserRoleAssignments");
    reveal_strlit("PopulateFleet");
    reveal_strlit("PopulateRack");
    reveal_strlit("gave up trying to populate built-in ");
    let prefix = "gave up trying to populate built-in "@;
    let a = first.name_spec();
    let b = second.name_spec();
    let at: int = if differ_at(a, b, 8) {
        8
    } else if differ_at(a, b, 15) {
        15
    } else if differ_at(a, b, 16) {
        16
    } else {
        19
    };
    assert(differ_at(a, b, at));
    let first_reason = first.failure_reason_spec(first_error);
    let second_reason = second.failure_reason_spec(second_error);
    assert((prefix + a)[prefix.len() + at] == a[at]);
    assert((prefix + b)[prefix.len() + at] == b[at]);
    assert(first_reason[prefix.len() + at] == a[at]);
    assert(second_reason[prefix.len() + at] == b[at]);
}

/// Whether each of `events` is an answer that the store is unavailable.
pub open spec fn all_unavailable(events: Seq<Event>) -> bool {
    forall|at: int|
        0 <= at < events.len() ==> (#[trigger] events[at]).0 is Err
            && events[at].0->Err_0.kind is ServiceUnavailable
}

/// While the store stays unavailable the run stays at the step that it has
/// just begun, and the interval is the initial one, grown once for each
/// answer: the delays that the caller is asked to wait are taken from longer
/// and longer intervals, up to the longest.
pub proof fn lemma_retries_grow_interval(run: RunView, events: Seq<Event>)
    requires
        run.well_formed(),
        run.status is NotDone,
        run.position == 0,
        run.interval == INITIAL_INTERVAL_MS,
        all_unavailable(events),
    ensures
        run.after(events) == (RunView { interval: interval_after(events.len()), ..run }),
        events.len() > 0 ==> run.last_action(events) == (ActionView::Retry {
            populator: run.populator(),
            error: events.last().0->Err_0,
            delay_ms: jittered(interval_after((events.len() - 1) as nat), events.last().1),
            request: run.requests()[0],
        }),
    decreases events.len(),
{
    if events.len() > 0 {
        let earlier = events.drop_last();
        let last = events.last();
        let before = run.after(earlier);
        lemma_retries_grow_interval(run, earlier);
        assert(events =~= earlier.push(last));
        lemma_after_push(run, earlier, last);
        assert(last == events[events.len() - 1]);
    }
}

} // verus!
