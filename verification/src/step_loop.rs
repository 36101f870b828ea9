//! The batched step-loop protocol.
//!
//! A worker drives a run: it repeats passes of an inner loop, and each pass
//! either notices that the run's elapsed time already reached the configured
//! maximum, or performs one step.  After a pass the worker may owe the
//! observer a message on the outbound channel.  The decisions of that
//! protocol — what to emit and when the run is over — are pure and are
//! verified here; performing the step, the wall-clock budget measurement and
//! the channel send stay with the driver, which feeds the outcome of each
//! pass in as a `StepEvent` and obeys the returned `Emission`.

use vstd::prelude::*;

verus! {

/// What one pass of the worker's inner loop observed.
#[derive(Clone, Copy, PartialEq, Eq, Structural, Debug)]
pub enum StepEvent {
    /// Before stepping, the run's elapsed hours had already reached the
    /// configured maximum; no step was taken.
    TimeLimitReached,
    /// One step completed and produced telemetry.
    StepCompleted {
        /// The step's telemetry reported deorbit.
        deorbited: bool,
        /// After the step's clock advance, elapsed hours reached the
        /// configured maximum.
        limit_reached: bool,
        /// The pass's wall-clock budget for batching had elapsed, so a
        /// progress message is due.
        budget_spent: bool,
    },
    /// The step failed (propagation or physics-sanity error).
    StepFailed,
}

/// What the worker owes the observer after a pass.
#[derive(Clone, Copy, PartialEq, Eq, Structural, Debug)]
pub enum Emission {
    /// Nothing is sent; the batch continues with another pass.
    Silent,
    /// A progress message is sent and the lock is released; `done` reports
    /// whether the run is over because the time limit was reached during the
    /// batch.
    Progress { done: bool },
    /// The final message: the run reached its maximum time.
    DoneMaxTime,
    /// The final message: the satellite deorbited.
    DoneDeorbited,
    /// The final message: an error is sent.
    Failed,
}

/// The message owed after a pass, in the protocol's order of precedence:
/// the time limit ends the run before any step; a failed step ends it with
/// an error; deorbit ends it before the batching budget is consulted; an
/// exhausted budget emits progress, final exactly when the limit was reached
/// after the step; otherwise the batch continues silently.
pub open spec fn emission_of(e: StepEvent) -> Emission {
    match e {
        StepEvent::TimeLimitReached => Emission::DoneMaxTime,
        StepEvent::StepFailed => Emission::Failed,
        StepEvent::StepCompleted { deorbited, limit_reached, budget_spent } => {
            if deorbited {
                Emission::DoneDeorbited
            } else if budget_spent {
                Emission::Progress { done: limit_reached }
            } else {
                Emission::Silent
            }
        },
    }
}

/// Whether a message ends the run: every final message either carries
/// `done == true` or is an error.
pub open spec fn is_terminal(m: Emission) -> bool {
    match m {
        Emission::Silent => false,
        Emission::Progress { done } => done,
        Emission::DoneMaxTime => true,
        Emission::DoneDeorbited => true,
        Emission::Failed => true,
    }
}

/// A possible history of the worker: passes keep occurring only while no
/// earlier pass produced a terminal emission.
pub open spec fn valid_trace(events: Seq<StepEvent>) -> bool {
    forall|i: int|
        0 <= i < events.len() - 1 ==> !is_terminal(#[trigger] emission_of(events[i]))
}

/// Whether an emission ends the run, decided in executable code.
pub fn emission_is_terminal(m: &Emission) -> (b: bool)
    ensures
        b == is_terminal(*m),
{
    match m {
        Emission::Silent => false,
        Emission::Progress { done } => *done,
        Emission::DoneMaxTime => true,
        Emission::DoneDeorbited => true,
        Emission::Failed => true,
    }
}

/// The worker's protocol state, with the history of passes it has consumed.
pub struct StepLoop {
    /// Whether a terminal emission has been produced; once set, no further
    /// pass is accepted.
    pub finished: bool,
    /// The history of observed passes.
    pub events: Ghost<Seq<StepEvent>>,
}

impl StepLoop {
    /// The history is a possible worker history, and `finished` records
    /// exactly whether its last pass ended the run.
    pub open spec fn wf(self) -> bool {
        &&& valid_trace(self.events@)
        &&& self.finished == (self.events@.len() > 0 && is_terminal(
            emission_of(self.events@.last()),
        ))
    }

    /// A fresh protocol with an empty history.
    pub fn new() -> (s: Self)
        ensures
            s.wf(),
            !s.finished,
            s.events@ == Seq::<StepEvent>::empty(),
    {
        StepLoop { finished: false, events: Ghost(Seq::empty()) }
    }

    /// Consume one pass's observation and return the message the worker owes
    /// the observer.  May only be called while the run is not over; the run
    /// is over afterwards exactly when the returned message is terminal.
    pub fn on_event(&mut self, e: StepEvent) -> (m: Emission)
        requires
            old(self).wf(),
            !old(self).finished,
        ensures
            final(self).wf(),
            m == emission_of(e),
            final(self).events@ == old(self).events@.push(e),
            final(self).finished == is_terminal(m),
    {
        let m = match e {
            StepEvent::TimeLimitReached => Emission::DoneMaxTime,
            StepEvent::StepFailed => Emission::Failed,
            StepEvent::StepCompleted { deorbited, limit_reached, budget_spent } => {
                if deorbited {
                    Emission::DoneDeorbited
                } else if budget_spent {
                    Emission::Progress { done: limit_reached }
                } else {
                    Emission::Silent
                }
            },
        };
        self.finished = emission_is_terminal(&m);
        proof {
            let old_events = self.events@;
            self.events@ = self.events@.push(e);
            assert forall|i: int| 0 <= i < self.events@.len() - 1 implies !is_terminal(
                #[trigger] emission_of(self.events@[i]),
            ) by {
                assert(self.events@[i] == old_events[i]);
            }
        }
        m
    }
}

// -------------------------------------
// The worker's history over a run
// -------------------------------------

/// The outcome of one performed step, as the protocol sees it: the physics
/// either failed, reported deorbit, or left the satellite in orbit, and the
/// step's clock advance either reached the configured time limit or not.
#[derive(Clone, Copy, PartialEq, Eq, Structural, Debug)]
pub enum StepResult {
    Failed,
    Deorbited { limit_reached: bool },
    InOrbit { limit_reached: bool },
}

/// The history a worker produces when it is driven over the given step
/// results.  `limit_before` says whether the run's elapsed time had already
/// reached the maximum before the first pass; `budgets[k]` says whether the
/// wall-clock batching budget had elapsed when step `k` completed.  The
/// history ends with the first terminal emission, or runs out with
/// `outcomes` while the run is still live.
pub open spec fn worker_events(
    limit_before: bool,
    outcomes: Seq<StepResult>,
    budgets: Seq<bool>,
) -> Seq<StepEvent>
    decreases outcomes.len(),
{
    if limit_before {
        seq![StepEvent::TimeLimitReached]
    } else if outcomes.len() == 0 {
        Seq::empty()
    } else {
        match outcomes[0] {
            StepResult::Failed => seq![StepEvent::StepFailed],
            StepResult::Deorbited { limit_reached } => seq![
                StepEvent::StepCompleted {
                    deorbited: true,
                    limit_reached,
                    budget_spent: budgets[0],
                },
            ],
            StepResult::InOrbit { limit_reached } => {
                let e = StepEvent::StepCompleted {
                    deorbited: false,
                    limit_reached,
                    budget_spent: budgets[0],
                };
                if limit_reached && budgets[0] {
                    seq![e]
                } else {
                    seq![e] + worker_events(
                        limit_reached,
                        outcomes.drop_first(),
                        budgets.drop_first(),
                    )
                }
            },
        }
    }
}

/// How many steps a history performed: every pass but a `TimeLimitReached`
/// one stepped the run once.
pub open spec fn num_steps(events: Seq<StepEvent>) -> nat
    decreases events.len(),
{
    if events.len() == 0 {
        0
    } else {
        (if events[0] is TimeLimitReached {
            0nat
        } else {
            1nat
        }) + num_steps(events.drop_first())
    }
}

/// A driven worker only produces possible histories: every pass before the
/// last emits a non-terminal message.
pub proof fn lemma_worker_trace_valid(
    limit_before: bool,
    outcomes: Seq<StepResult>,
    budgets: Seq<bool>,
)
    ensures
        valid_trace(worker_events(limit_before, outcomes, budgets)),
    decreases outcomes.len(),
{
    let events = worker_events(limit_before, outcomes, budgets);
    if !limit_before && outcomes.len() > 0 {
        match outcomes[0] {
            StepResult::Failed => {},
            StepResult::Deorbited { limit_reached } => {},
            StepResult::InOrbit { limit_reached } => {
                if !(limit_reached && budgets[0]) {
                    let e = StepEvent::StepCompleted {
                        deorbited: false,
                        limit_reached,
                        budget_spent: budgets[0],
                    };
                    let rest = worker_events(
                        limit_reached,
                        outcomes.drop_first(),
                        budgets.drop_first(),
                    );
                    lemma_worker_trace_valid(
                        limit_reached,
                        outcomes.drop_first(),
                        budgets.drop_first(),
                    );
                    assert(!is_terminal(emission_of(e)));
                    assert forall|i: int| 0 <= i < events.len() - 1 implies !is_terminal(
                        #[trigger] emission_of(events[i]),
                    ) by {
                        if i > 0 {
                            assert(events[i] == rest[i - 1]);
                        }
                    }
                }
            },
        }
    }
}

/// Batching is invisible to the run itself: however the wall-clock budget
/// flags fall, a worker driven over the same step results performs the same
/// number of steps, so pacing the observer's updates never changes the
/// telemetry the run computes — only how it is grouped into messages.
pub proof fn lemma_batching_preserves_steps(
    limit_before: bool,
    outcomes: Seq<StepResult>,
    b1: Seq<bool>,
    b2: Seq<bool>,
)
    requires
        b1.len() >= outcomes.len(),
        b2.len() >= outcomes.len(),
    ensures
        num_steps(worker_events(limit_before, outcomes, b1)) == num_steps(
            worker_events(limit_before, outcomes, b2),
        ),
    decreases outcomes.len(),
{
    if !limit_before && outcomes.len() > 0 {
        match outcomes[0] {
            StepResult::Failed => {
                lemma_num_steps_single(StepEvent::StepFailed);
            },
            StepResult::Deorbited { limit_reached } => {
                lemma_num_steps_single(
                    StepEvent::StepCompleted {
                        deorbited: true,
                        limit_reached,
                        budget_spent: b1[0],
                    },
                );
                lemma_num_steps_single(
                    StepEvent::StepCompleted {
                        deorbited: true,
                        limit_reached,
                        budget_spent: b2[0],
                    },
                );
            },
            StepResult::InOrbit { limit_reached } => {
                lemma_batching_preserves_steps(
                    limit_reached,
                    outcomes.drop_first(),
                    b1.drop_first(),
                    b2.drop_first(),
                );
                lemma_num_steps_in_orbit(limit_before, outcomes, b1);
                lemma_num_steps_in_orbit(limit_before, outcomes, b2);
                if limit_reached {
                    lemma_num_steps_single(StepEvent::TimeLimitReached);
                    lemma_num_steps_limit_run(outcomes.drop_first(), b1.drop_first());
                    lemma_num_steps_limit_run(outcomes.drop_first(), b2.drop_first());
                }
            },
        }
    }
}

/// Why a run ended.
#[derive(Clone, Copy, PartialEq, Eq, Structural, Debug)]
pub enum RunEnd {
    /// The configured maximum time was reached.
    TimedOut,
    /// The satellite deorbited.
    Deorbited,
    /// A step failed.
    Errored,
}

/// The ending a message reports, if it ends the run.  A progress message
/// with `done == true` reports the same ending as the dedicated maximum-time
/// message: the observer reads both as the run stopping at its time limit.
pub open spec fn end_of_emission(m: Emission) -> Option<RunEnd> {
    match m {
        Emission::Silent => Option::None,
        Emission::Progress { done } => if done {
            Option::Some(RunEnd::TimedOut)
        } else {
            Option::None
        },
        Emission::DoneMaxTime => Option::Some(RunEnd::TimedOut),
        Emission::DoneDeorbited => Option::Some(RunEnd::Deorbited),
        Emission::Failed => Option::Some(RunEnd::Errored),
    }
}

/// How a run over the given step results must end, decided by the physics
/// alone: the first failed or deorbiting step ends it, a reached time limit
/// ends it, and otherwise it is still live.  No batching budget appears
/// here.
pub open spec fn run_end(limit_before: bool, outcomes: Seq<StepResult>) -> Option<RunEnd>
    decreases outcomes.len(),
{
    if limit_before {
        Option::Some(RunEnd::TimedOut)
    } else if outcomes.len() == 0 {
        Option::None
    } else {
        match outcomes[0] {
            StepResult::Failed => Option::Some(RunEnd::Errored),
            StepResult::Deorbited { limit_reached } => Option::Some(RunEnd::Deorbited),
            StepResult::InOrbit { limit_reached } => run_end(
                limit_reached,
                outcomes.drop_first(),
            ),
        }
    }
}

/// Batching never changes why a run ends: the ending reported by the last
/// message of a worker history equals `run_end`, which depends on the step
/// results alone and not on the wall-clock budget flags.
pub proof fn lemma_batching_preserves_ending(
    limit_before: bool,
    outcomes: Seq<StepResult>,
    budgets: Seq<bool>,
)
    requires
        budgets.len() >= outcomes.len(),
    ensures
        ({
            let events = worker_events(limit_before, outcomes, budgets);
            &&& events.len() == 0 ==> run_end(limit_before, outcomes) is None
            &&& events.len() > 0 ==> end_of_emission(emission_of(events.last())) == run_end(
                limit_before,
                outcomes,
            )
        }),
    decreases outcomes.len(),
{
    let events = worker_events(limit_before, outcomes, budgets);
    if limit_before {
        assert(events.last() == StepEvent::TimeLimitReached);
    } else if outcomes.len() == 0 {
    } else {
        match outcomes[0] {
            StepResult::Failed => {
                assert(events.last() == StepEvent::StepFailed);
            },
            StepResult::Deorbited { limit_reached } => {
                let e = StepEvent::StepCompleted {
                    deorbited: true,
                    limit_reached,
                    budget_spent: budgets[0],
                };
                assert(events.last() == e);
            },
            StepResult::InOrbit { limit_reached } => {
                let e = StepEvent::StepCompleted {
                    deorbited: false,
                    limit_reached,
                    budget_spent: budgets[0],
                };
                if limit_reached && budgets[0] {
                    assert(events.last() == e);
                } else {
                    let rest = worker_events(
                        limit_reached,
                        outcomes.drop_first(),
                        budgets.drop_first(),
                    );
                    lemma_batching_preserves_ending(
                        limit_reached,
                        outcomes.drop_first(),
                        budgets.drop_first(),
                    );
                    if rest.len() == 0 {
                        assert(events.last() == e);
                    } else {
                        assert(events.last() == rest.last());
                    }
                }
            },
        }
    }
}

/// A history of one event performs a step exactly when that event is not the
/// time-limit pass.
proof fn lemma_num_steps_single(e: StepEvent)
    ensures
        num_steps(seq![e]) == if e is TimeLimitReached {
            0nat
        } else {
            1nat
        },
{
    assert(seq![e].drop_first() =~= Seq::<StepEvent>::empty());
    assert(num_steps(Seq::<StepEvent>::empty()) == 0);
    assert(seq![e][0] == e);
}

/// A run whose time limit was already reached performs no steps.
proof fn lemma_num_steps_limit_run(outcomes: Seq<StepResult>, budgets: Seq<bool>)
    ensures
        num_steps(worker_events(true, outcomes, budgets)) == 0,
{
    lemma_num_steps_single(StepEvent::TimeLimitReached);
}

/// Unfolding `num_steps` over an in-orbit pass: the pass contributes one
/// step, and the remainder of the history contributes the rest.
proof fn lemma_num_steps_in_orbit(
    limit_before: bool,
    outcomes: Seq<StepResult>,
    budgets: Seq<bool>,
)
    requires
        !limit_before,
        outcomes.len() > 0,
        outcomes[0] is InOrbit,
    ensures
        num_steps(worker_events(limit_before, outcomes, budgets)) == 1 + if (outcomes[0]
            ->InOrbit_limit_reached && budgets[0]) {
            0nat
        } else {
            num_steps(
                worker_events(
                    outcomes[0]->InOrbit_limit_reached,
                    outcomes.drop_first(),
                    budgets.drop_first(),
                ),
            )
        },
{
    let limit_reached = outcomes[0]->InOrbit_limit_reached;
    let e = StepEvent::StepCompleted {
        deorbited: false,
        limit_reached,
        budget_spent: budgets[0],
    };
    if limit_reached && budgets[0] {
        lemma_num_steps_single(e);
    } else {
        let rest = worker_events(limit_reached, outcomes.drop_first(), budgets.drop_first());
        let events = seq![e] + rest;
        assert(events.len() > 0);
        assert(events[0] == e);
        assert(events.drop_first() =~= rest);
    }
}

/// A terminal message is the run's last: in any possible worker history, a
/// pass whose emission ends the run is the final pass, and no other pass
/// emits a terminal message.  In particular, once the deorbit (or any other
/// final) message is sent, no further step is performed and no further
/// message follows.
pub proof fn lemma_terminal_is_last(events: Seq<StepEvent>, i: int)
    requires
        valid_trace(events),
        0 <= i < events.len(),
        is_terminal(emission_of(events[i])),
    ensures
        i == events.len() - 1,
        forall|j: int|
            0 <= j < events.len() && j != i ==> !is_terminal(#[trigger] emission_of(events[j])),
{
}

/// The deorbit terminal condition: if a step reports deorbit, the pass emits
/// the deorbited `done` message, that message is the run's last, and exactly
/// one pass of the history emits a terminal message.
pub proof fn lemma_deorbit_ends_run(events: Seq<StepEvent>, i: int, limit_reached: bool, budget_spent: bool)
    requires
        valid_trace(events),
        0 <= i < events.len(),
        events[i] == (StepEvent::StepCompleted { deorbited: true, limit_reached, budget_spent }),
    ensures
        emission_of(events[i]) == Emission::DoneDeorbited,
        i == events.len() - 1,
        forall|j: int|
            0 <= j < events.len() && j != i ==> !is_terminal(#[trigger] emission_of(events[j])),
{
    lemma_terminal_is_last(events, i);
}

} // verus!
