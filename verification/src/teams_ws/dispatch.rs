//! The dispatch coordinator: one push of the snapshot to the sink, retried
//! after a pause and a reconnect until it succeeds or the attempts run out.
//!
//! The coordinator decides; its caller does the work. Each action names what
//! is to be done next, and the event that reports it done yields the action
//! after it.

use vstd::prelude::*;
use crate::error::Error;

verus! {

/// Attempts that one dispatch may spend on the sink.
pub const MAX_RETRIES: u32 = 3;

/// Seconds to wait between a failed attempt and the reconnect.
pub const RETRY_DELAY_SECS: u64 = 1;

/// What the caller is to do next.
pub enum DispatchAction {
    /// Push the snapshot to the sink.
    Publish,
    /// The attempt failed with `cause`: report it and wait.
    Sleep { seconds: u64, cause: Error },
    /// Have the sink renew its connection.
    Reconnect,
    /// The dispatch is over, with this result.
    Finish(Result<(), Error>),
    /// The event was not the one awaited; nothing is to be done for it.
    Idle,
}

/// What the caller reports back.
pub enum DispatchEvent {
    /// The push returned.
    Published(Result<(), Error>),
    /// The wait is over.
    Slept,
    /// The sink has renewed its connection.
    Reconnected,
}

/// The report that the coordinator waits for.
#[derive(Clone, Copy, Debug, PartialEq, Eq, Structural)]
pub enum Awaiting {
    Published,
    Slept,
    Reconnected,
    Nothing,
}

/// The state of one dispatch.
#[derive(Clone, Copy, Debug, PartialEq, Eq, Structural)]
pub struct RetryState {
    /// Number of the attempt under way, from one.
    pub attempt: u32,
    /// Attempts that may be spent.
    pub max_attempts: u32,
    /// Seconds to wait after a failed attempt.
    pub delay_secs: u64,
    /// The report awaited.
    pub awaiting: Awaiting,
}

/// The state before the first attempt has reported.
pub open spec fn first_attempt() -> RetryState {
    RetryState {
        attempt: 1,
        max_attempts: MAX_RETRIES,
        delay_secs: RETRY_DELAY_SECS,
        awaiting: Awaiting::Published,
    }
}

/// The attempt number after one more attempt.
pub open spec fn following(attempt: u32) -> u32 {
    if attempt < u32::MAX {
        (attempt + 1) as u32
    } else {
        attempt
    }
}

/// The coordinator's rule: the state and the action that follow an event.
///
/// A push that succeeds ends the dispatch. One that fails is followed by a
/// wait, a reconnect and another push while attempts are left; the last
/// failure ends the dispatch with its error. An event that is not the one
/// awaited changes nothing.
pub open spec fn next(state: RetryState, event: DispatchEvent) -> (RetryState, DispatchAction) {
    match (state.awaiting, event) {
        (Awaiting::Published, DispatchEvent::Published(Ok(()))) => (
            RetryState { awaiting: Awaiting::Nothing, ..state },
            DispatchAction::Finish(Ok(())),
        ),
        (Awaiting::Published, DispatchEvent::Published(Err(cause))) => if state.attempt
            < state.max_attempts {
            (
                RetryState { awaiting: Awaiting::Slept, ..state },
                DispatchAction::Sleep { seconds: state.delay_secs, cause },
            )
        } else {
            (RetryState { awaiting: Awaiting::Nothing, ..state }, DispatchAction::Finish(Err(cause)))
        },
        (Awaiting::Slept, DispatchEvent::Slept) => (
            RetryState { awaiting: Awaiting::Reconnected, ..state },
            DispatchAction::Reconnect,
        ),
        (Awaiting::Reconnected, DispatchEvent::Reconnected) => (
            RetryState { attempt: following(state.attempt), awaiting: Awaiting::Published, ..state },
            DispatchAction::Publish,
        ),
        _ => (state, DispatchAction::Idle),
    }
}

impl RetryState {
    /// Begins a dispatch: the state of the first attempt, and the action
    /// that starts it.
    pub fn start() -> (begun: (RetryState, DispatchAction))
        ensures
            begun.0 == first_attempt(),
            begun.1 == DispatchAction::Publish,
    {
        (
            RetryState {
                attempt: 1,
                max_attempts: MAX_RETRIES,
                delay_secs: RETRY_DELAY_SECS,
                awaiting: Awaiting::Published,
            },
            DispatchAction::Publish,
        )
    }

    /// Whether the dispatch is over.
    pub fn is_finished(&self) -> (finished: bool)
        ensures
            finished == (self.awaiting == Awaiting::Nothing),
    {
        match self.awaiting {
            Awaiting::Nothing => true,
            _ => false,
        }
    }

    /// Takes the report of what was done and decides what is to be done
    /// next.
    pub fn step(&mut self, event: DispatchEvent) -> (action: DispatchAction)
        ensures
            (*final(self), action) == next(*old(self), event),
    {
        let state = *self;
        match event {
            DispatchEvent::Published(result) => match state.awaiting {
                Awaiting::Published => match result {
                    Ok(()) => {
                        *self = RetryState { awaiting: Awaiting::Nothing, ..state };
                        DispatchAction::Finish(Ok(()))
                    },
                    Err(cause) => {
                        if state.attempt < state.max_attempts {
                            *self = RetryState { awaiting: Awaiting::Slept, ..state };
                            DispatchAction::Sleep { seconds: state.delay_secs, cause }
                        } else {
                            *self = RetryState { awaiting: Awaiting::Nothing, ..state };
                            DispatchAction::Finish(Err(cause))
                        }
                    },
                },
                _ => DispatchAction::Idle,
            },
            DispatchEvent::Slept => match state.awaiting {
                Awaiting::Slept => {
                    *self = RetryState { awaiting: Awaiting::Reconnected, ..state };
                    DispatchAction::Reconnect
                },
                _ => DispatchAction::Idle,
            },
            DispatchEvent::Reconnected => match state.awaiting {
                Awaiting::Reconnected => {
                    let attempt = if state.attempt < u32::MAX {
                        state.attempt + 1
                    } else {
                        state.attempt
                    };
                    *self = RetryState { attempt, awaiting: Awaiting::Published, ..state };
                    DispatchAction::Publish
                },
                _ => DispatchAction::Idle,
            },
        }
    }
}

/// What a dispatch came to: how often each action was asked for, and the
/// result it ended with, if it ended.
pub struct Tally {
    pub publishes: nat,
    pub sleeps: nat,
    pub reconnects: nat,
    pub outcome: Option<Result<(), Error>>,
}

/// Runs a dispatch from a state and its pending action against a sink whose
/// pushes return `results`, one after the other; every wait and reconnect is
/// reported done. The run stops where the dispatch ends, where the results
/// run out, or after `steps` actions.
pub open spec fn run(
    state: RetryState,
    action: DispatchAction,
    results: Seq<Result<(), Error>>,
    steps: nat,
) -> Tally
    decreases steps,
{
    let idle = Tally { publishes: 0, sleeps: 0, reconnects: 0, outcome: None };
    if steps == 0 {
        idle
    } else {
        match action {
            DispatchAction::Publish => if results.len() == 0 {
                idle
            } else {
                let (after, then) = next(state, DispatchEvent::Published(results[0]));
                let rest = run(after, then, results.skip(1), (steps - 1) as nat);
                Tally { publishes: rest.publishes + 1, ..rest }
            },
            DispatchAction::Sleep { .. } => {
                let (after, then) = next(state, DispatchEvent::Slept);
                let rest = run(after, then, results, (steps - 1) as nat);
                Tally { sleeps: rest.sleeps + 1, ..rest }
            },
            DispatchAction::Reconnect => {
                let (after, then) = next(state, DispatchEvent::Reconnected);
                let rest = run(after, then, results, (steps - 1) as nat);
                Tally { reconnects: rest.reconnects + 1, ..rest }
            },
            DispatchAction::Finish(result) => Tally {
                publishes: 0,
                sleeps: 0,
                reconnects: 0,
                outcome: Some(result),
            },
            DispatchAction::Idle => idle,
        }
    }
}

/// The number of pushes a dispatch makes against given results: it stops at
/// the first success, and at the latest when the attempts are spent.
pub open spec fn pushes(results: Seq<Result<(), Error>>, budget: nat) -> nat
    decreases budget,
{
    if budget == 0 || results.len() == 0 {
        0
    } else if results[0] is Ok || budget == 1 {
        1
    } else {
        1 + pushes(results.skip(1), (budget - 1) as nat)
    }
}

proof fn unit_is_unique(result: Result<(), Error>)
    requires
        result is Ok,
    ensures
        result == Ok::<(), Error>(()),
{
    let value = result->Ok_0;
    assert(value == ());
}

/// The retry bound, from any attempt on. A dispatch that awaits the report
/// of attempt `a` of `n`, against enough results, makes `k` further pushes,
/// where `k` is `pushes(results, n - a + 1)`: up to the first success, at
/// most `n - a + 1`. It waits and reconnects `k - 1` times, once between
/// any two pushes, and ends with the result of its last push.
pub proof fn retry_bound_from(state: RetryState, results: Seq<Result<(), Error>>, steps: nat)
    requires
        state.awaiting == Awaiting::Published,
        1 <= state.attempt <= state.max_attempts,
        results.len() >= state.max_attempts - state.attempt + 1,
        steps >= 3 * (state.max_attempts - state.attempt) + 2,
    ensures
        ({
            let made = pushes(results, (state.max_attempts - state.attempt + 1) as nat);
            let tally = run(state, DispatchAction::Publish, results, steps);
            &&& 1 <= made <= state.max_attempts - state.attempt + 1
            &&& tally.publishes == made
            &&& tally.sleeps == made - 1
            &&& tally.reconnects == made - 1
            &&& tally.outcome == Some(results[made - 1])
            &&& forall|index: int| 0 <= index < made - 1 ==> (#[trigger] results[index]) is Err
            &&& made < state.max_attempts - state.attempt + 1 ==> results[made - 1] is Ok
        }),
    decreases state.max_attempts - state.attempt,
{
    let budget = (state.max_attempts - state.attempt + 1) as nat;
    let (after, then) = next(state, DispatchEvent::Published(results[0]));
    let rest = results.skip(1);
    reveal_with_fuel(run, 5);
    if results[0] is Ok {
        unit_is_unique(results[0]);
        assert(then == DispatchAction::Finish(results[0]));
    } else if state.attempt == state.max_attempts {
        assert(then == DispatchAction::Finish(results[0]));
    } else {
        let (slept, reconnect) = next(after, DispatchEvent::Slept);
        let (again, publish) = next(slept, DispatchEvent::Reconnected);
        assert(publish == DispatchAction::Publish);
        assert(again.attempt == state.attempt + 1);
        retry_bound_from(again, rest, (steps - 3) as nat);
        let made = pushes(rest, (budget - 1) as nat);
        assert(pushes(results, budget) == 1 + made);
        assert(run(state, DispatchAction::Publish, results, steps).publishes == run(
            again,
            DispatchAction::Publish,
            rest,
            (steps - 3) as nat,
        ).publishes + 1);
        assert(rest[made - 1] == results[made as int]);
        assert forall|index: int| 0 <= index < made implies (#[trigger] results[index]) is Err by {
            if index > 0 {
                assert(rest[index - 1] == results[index]);
            }
        }
    }
}

/// The retry bound. A sink that fails every attempt is pushed to exactly
/// `MAX_RETRIES` times and reconnected one time less, with a wait before
/// each reconnect; then the dispatch ends with the error of the last push.
pub proof fn retry_bound(errors: Seq<Error>, steps: nat)
    requires
        errors.len() >= MAX_RETRIES,
        steps >= 3 * MAX_RETRIES,
    ensures
        ({
            let results = errors.map_values(|error: Error| Err::<(), Error>(error));
            let tally = run(first_attempt(), DispatchAction::Publish, results, steps);
            &&& tally.publishes == MAX_RETRIES
            &&& tally.reconnects == MAX_RETRIES - 1
            &&& tally.sleeps == MAX_RETRIES - 1
            &&& tally.outcome == Some(Err::<(), Error>(errors[MAX_RETRIES - 1]))
        }),
{
    let results = errors.map_values(|error: Error| Err::<(), Error>(error));
    retry_bound_from(first_attempt(), results, steps);
    let made = pushes(results, MAX_RETRIES as nat);
    if made < MAX_RETRIES {
        assert(results[made - 1] is Ok);
    }
}

/// A dispatch stops at the first success: if the push of attempt `k + 1`
/// is the first to succeed, the sink has been pushed to `k + 1` times and
/// reconnected `k` times, and the dispatch ends well.
pub proof fn stops_on_first_success(results: Seq<Result<(), Error>>, first: int, steps: nat)
    requires
        0 <= first < MAX_RETRIES,
        results.len() >= MAX_RETRIES,
        results[first] is Ok,
        forall|index: int| 0 <= index < first ==> (#[trigger] results[index]) is Err,
        steps >= 3 * MAX_RETRIES,
    ensures
        ({
            let tally = run(first_attempt(), DispatchAction::Publish, results, steps);
            &&& tally.publishes == first + 1
            &&& tally.reconnects == first
            &&& tally.sleeps == first
            &&& tally.outcome == Some(Ok::<(), Error>(()))
        }),
{
    retry_bound_from(first_attempt(), results, steps);
    let made = pushes(results, MAX_RETRIES as nat);
    if made - 1 < first {
        assert(results[made - 1] is Err);
    } else if made - 1 > first {
        assert(results[first] is Err);
    }
    unit_is_unique(results[first]);
}

} // verus!
