//! One run over the steps: which request comes next, given how the store
//! answered the one before.
//!
//! A [`Run`] never touches the store. Its caller makes each request that the
//! run names, after the delay that it names, and hands back the answer together
//! with a random sample; the run says what to do next. So the caller holds the
//! waiting and the store, and the run holds every decision.

use crate::args::PopulateArgs;
use crate::backoff::{grown, jittered, valid_interval, Backoff, INITIAL_INTERVAL_MS};
use crate::error::{ErrorView, FailureClass, StoreError};
use crate::status::{PopulateStatus, StatusView};
use crate::step::{all_populators, answer_view, registry, Populator, StoreRequest};
use vstd::prelude::*;

verus! {

/// What the caller of a run is to do next.
#[derive(Debug)]
pub enum RunAction {
    /// Make this request now.
    Call(StoreRequest),
    /// The store was unavailable when the step asked it: wait for the delay,
    /// then start the step again with this request. The step and the failure
    /// are there for the caller to report.
    Retry { populator: Populator, error: StoreError, delay_ms: u64, request: StoreRequest },
    /// The run has ended: publish this status.
    Finish(PopulateStatus),
}

/// The mathematical value of a [`RunAction`].
pub enum ActionView {
    Call(StoreRequest),
    Retry { populator: Populator, error: ErrorView, delay_ms: nat, request: StoreRequest },
    Finish(StatusView),
}

impl View for RunAction {
    type V = ActionView;

    open spec fn view(&self) -> ActionView {
        match self {
            RunAction::Call(request) => ActionView::Call(*request),
            RunAction::Retry { populator, error, delay_ms, request } => ActionView::Retry {
                populator: *populator,
                error: error@,
                delay_ms: *delay_ms as nat,
                request: *request,
            },
            RunAction::Finish(status) => ActionView::Finish(status@),
        }
    }
}

impl ActionView {
    /// The request that the action asks for, if it asks for one.
    pub open spec fn request(self) -> Option<StoreRequest> {
        match self {
            ActionView::Call(request) => Some(request),
            ActionView::Retry { request, .. } => Some(request),
            ActionView::Finish(_) => None,
        }
    }
}

/// The mathematical value of a [`Run`].
pub struct RunView {
    /// The rack that the run is for.
    pub rack_id: u128,
    /// The place in the registry of the step in progress.
    pub step: nat,
    /// The place, among the step's requests, of the one whose answer is
    /// awaited.
    pub position: nat,
    /// The interval that the step's next delay is taken from.
    pub interval: nat,
    /// What observers see.
    pub status: StatusView,
}

impl RunView {
    /// A run that has made no request yet.
    pub open spec fn initial(rack_id: u128) -> RunView {
        RunView {
            rack_id,
            step: 0,
            position: 0,
            interval: INITIAL_INTERVAL_MS as nat,
            status: StatusView::NotDone,
        }
    }

    /// While a run has not ended, it awaits the answer to a request of a
    /// step of the registry.
    pub open spec fn well_formed(self) -> bool {
        &&& valid_interval(self.interval)
        &&& self.status is NotDone ==> {
            &&& self.step < registry().len()
            &&& self.position < registry()[self.step as int].requests_spec(self.rack_id).len()
        }
    }

    /// The step in progress.
    pub open spec fn populator(self) -> Populator
        recommends
            self.step < registry().len(),
    {
        registry()[self.step as int]
    }

    /// The requests of the step in progress.
    pub open spec fn requests(self) -> Seq<StoreRequest> {
        self.populator().requests_spec(self.rack_id)
    }

    /// The request whose answer is awaited.
    pub open spec fn pending(self) -> StoreRequest
        recommends
            self.well_formed(),
            self.status is NotDone,
    {
        self.requests()[self.position as int]
    }

    /// The run after an answer, and what its caller is to do then.
    ///
    /// A run that has ended stays as it is. Otherwise the step takes the
    /// answer to its pending request. On success the run goes on to the
    /// step's next request, or to the first request of the next step, where
    /// the interval starts afresh, or ends as done after the last. On a
    /// transient failure the step starts again after a delay, and the
    /// interval grows. On any other failure the run ends as failed, with a
    /// reason that names the step and the failure.
    pub open spec fn next(self, answer: Result<(), ErrorView>, sample: u64) -> (
        RunView,
        ActionView,
    ) {
        if self.status.is_terminal() {
            (self, ActionView::Finish(self.status))
        } else {
            match self.pending().absorb_spec(answer) {
                Ok(_) => if self.position + 1 < self.requests().len() {
                    (
                        RunView { position: self.position + 1, ..self },
                        ActionView::Call(self.requests()[self.position as int + 1]),
                    )
                } else if self.step + 1 < registry().len() {
                    (
                        RunView {
                            step: self.step + 1,
                            position: 0,
                            interval: INITIAL_INTERVAL_MS as nat,
                            ..self
                        },
                        ActionView::Call(
                            registry()[self.step as int + 1].requests_spec(self.rack_id)[0],
                        ),
                    )
                } else {
                    (RunView { status: StatusView::Done, ..self }, ActionView::Finish(StatusView::Done))
                },
                Err(error) => match error.kind.class_spec() {
                    FailureClass::Transient => (
                        RunView { position: 0, interval: grown(self.interval), ..self },
                        ActionView::Retry {
                            populator: self.populator(),
                            error,
                            delay_ms: jittered(self.interval, sample),
                            request: self.requests()[0],
                        },
                    ),
                    FailureClass::Permanent => {
                        let status = StatusView::Failed(self.populator().failure_reason_spec(error));
                        (RunView { status, ..self }, ActionView::Finish(status))
                    },
                },
            }
        }
    }
}

/// One run over the steps of the registry.
#[derive(Debug)]
pub struct Run {
    args: PopulateArgs,
    step: usize,
    position: usize,
    backoff: Backoff,
    status: PopulateStatus,
}

impl View for Run {
    type V = RunView;

    closed spec fn view(&self) -> RunView {
        RunView {
            rack_id: self.args.rack(),
            step: self.step as nat,
            position: self.position as nat,
            interval: self.backoff.interval(),
            status: self.status@,
        }
    }
}

impl Run {
    #[verifier::type_invariant]
    spec fn type_invariant(self) -> bool {
        self@.well_formed()
    }

    /// Starts a run: nothing has been asked of the store yet, and the first
    /// thing to do is the first request of the first step.
    pub fn start(args: PopulateArgs) -> (started: (Run, RunAction))
        ensures
            started.0@ == RunView::initial(args.rack()),
            started.0@.well_formed(),
            started.1@ == ActionView::Call(RunView::initial(args.rack()).pending()),
    {
        let populators = all_populators();
        let requests = populators[0].requests(&args);
        let backoff = Backoff::new();
        let run = Run { args, step: 0, position: 0, backoff, status: PopulateStatus::NotDone };
        (run, RunAction::Call(requests[0]))
    }

    /// What observers of the run see now.
    pub fn status(&self) -> (status: PopulateStatus)
        ensures
            status@ == self@.status,
    {
        self.status.clone()
    }

    /// The step in progress, while the run has not ended.
    pub fn populator(&self) -> (populator: Option<Populator>)
        ensures
            populator == if self@.status is NotDone {
                Some(self@.populator())
            } else {
                None
            },
    {
        proof {
            use_type_invariant(self);
        }
        if self.status.is_terminal() {
            None
        } else {
            let populators = all_populators();
            Some(populators[self.step])
        }
    }

    /// Takes the store's answer to the request that the run asked for last,
    /// with a random sample for the delay, and says what to do next.
    pub fn observe(&mut self, answer: Result<(), StoreError>, sample: u64) -> (action: RunAction)
        ensures
            (final(self)@, action@) == old(self)@.next(answer_view(answer), sample),
            final(self)@.well_formed(),
    {
        proof {
            use_type_invariant(&*self);
        }
        if self.status.is_terminal() {
            return RunAction::Finish(self.status.clone());
        }
        let populators = all_populators();
        let populator = populators[self.step];
        let requests = populator.requests(&self.args);
        let request = requests[self.position];
        match request.absorb(answer) {
            Ok(_) => {
                if self.position + 1 < requests.len() {
                    let position: usize = self.position + 1;
                    *self = Run {
                        args: self.args,
                        step: self.step,
                        position,
                        backoff: self.backoff,
                        status: PopulateStatus::NotDone,
                    };
                    RunAction::Call(requests[position])
                } else if self.step + 1 < populators.len() {
                    let step: usize = self.step + 1;
                    let first = populators[step].requests(&self.args);
                    *self = Run {
                        args: self.args,
                        step,
                        position: 0,
                        backoff: Backoff::new(),
                        status: PopulateStatus::NotDone,
                    };
                    RunAction::Call(first[0])
                } else {
                    *self = Run {
                        args: self.args,
                        step: self.step,
                        position: self.position,
                        backoff: self.backoff,
                        status: PopulateStatus::Done,
                    };
                    RunAction::Finish(PopulateStatus::Done)
                }
            },
            Err(error) => match error.class() {
                FailureClass::Transient => {
                    let mut backoff = self.backoff;
                    let delay_ms: u64 = backoff.next_delay(sample);
                    proof {
                        crate::backoff::lemma_delay_bounded(old(self)@.interval, sample);
                    }
                    *self = Run {
                        args: self.args,
                        step: self.step,
                        position: 0,
                        backoff,
                        status: PopulateStatus::NotDone,
                    };
                    RunAction::Retry { populator, error, delay_ms, request: requests[0] }
                },
                FailureClass::Permanent => {
                    let reason = populator.failure_reason(&error);
                    *self = Run {
                        args: self.args,
                        step: self.step,
                        position: self.position,
                        backoff: self.backoff,
                        status: PopulateStatus::Failed(reason.clone()),
                    };
                    RunAction::Finish(PopulateStatus::Failed(reason))
                },
            },
        }
    }
}

} // verus!
