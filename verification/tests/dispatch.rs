use teams_status::error::Error;
use teams_status::teams_ws::dispatch::Awaiting;
use teams_status::teams_ws::dispatch::DispatchAction;
use teams_status::teams_ws::dispatch::DispatchEvent;
use teams_status::teams_ws::dispatch::RetryState;
use teams_status::teams_ws::dispatch::MAX_RETRIES;
use teams_status::teams_ws::dispatch::RETRY_DELAY_SECS;

struct Run {
    publishes: u32,
    reconnects: u32,
    sleeps: u32,
    result: Result<(), String>,
}

fn run(mut results: Vec<Result<(), Error>>) -> Run {
    results.reverse();
    let (mut state, mut action) = RetryState::start();
    let mut run = Run { publishes: 0, reconnects: 0, sleeps: 0, result: Ok(()) };
    for _ in 0..100 {
        action = match action {
            DispatchAction::Publish => {
                run.publishes += 1;
                state.step(DispatchEvent::Published(results.pop().expect("a result for each push")))
            }
            DispatchAction::Sleep { seconds, .. } => {
                assert_eq!(seconds, RETRY_DELAY_SECS);
                run.sleeps += 1;
                state.step(DispatchEvent::Slept)
            }
            DispatchAction::Reconnect => {
                run.reconnects += 1;
                state.step(DispatchEvent::Reconnected)
            }
            DispatchAction::Finish(result) => {
                assert!(state.is_finished());
                run.result = result.map_err(|error| error.to_string());
                return run;
            }
            DispatchAction::Idle => panic!("the coordinator passed an event over"),
        };
    }
    panic!("the dispatch did not end");
}

fn failure(number: u32) -> Result<(), Error> {
    Err(Error::new(format!("failure {}", number)))
}

#[test]
fn constants_are_three_attempts_one_second() {
    assert_eq!(MAX_RETRIES, 3);
    assert_eq!(RETRY_DELAY_SECS, 1);
}

#[test]
fn success_at_once_needs_one_push() {
    let run = run(vec![Ok(())]);
    assert_eq!(run.publishes, 1);
    assert_eq!(run.reconnects, 0);
    assert_eq!(run.sleeps, 0);
    assert_eq!(run.result, Ok(()));
}

#[test]
fn sink_that_always_fails_is_pushed_three_times() {
    let run = run(vec![failure(1), failure(2), failure(3), failure(4)]);
    assert_eq!(run.publishes, 3);
    assert_eq!(run.reconnects, 2);
    assert_eq!(run.sleeps, 2);
    assert_eq!(run.result, Err("failure 3".to_string()));
}

#[test]
fn success_after_one_failure_stops_the_retries() {
    let run = run(vec![failure(1), Ok(()), failure(3)]);
    assert_eq!(run.publishes, 2);
    assert_eq!(run.reconnects, 1);
    assert_eq!(run.sleeps, 1);
    assert_eq!(run.result, Ok(()));
}

#[test]
fn success_at_the_last_attempt_counts() {
    let run = run(vec![failure(1), failure(2), Ok(())]);
    assert_eq!(run.publishes, 3);
    assert_eq!(run.reconnects, 2);
    assert_eq!(run.result, Ok(()));
}

#[test]
fn retry_reports_the_cause_of_the_wait() {
    let (mut state, _) = RetryState::start();
    match state.step(DispatchEvent::Published(failure(7))) {
        DispatchAction::Sleep { seconds, cause } => {
            assert_eq!(seconds, 1);
            assert_eq!(cause.to_string(), "failure 7");
        }
        _ => panic!("expected a wait"),
    }
    assert_eq!(state.awaiting, Awaiting::Slept);
    assert_eq!(state.attempt, 1);
}

#[test]
fn event_out_of_turn_changes_nothing() {
    let (mut state, _) = RetryState::start();
    let before = state;
    assert!(matches!(state.step(DispatchEvent::Slept), DispatchAction::Idle));
    assert!(matches!(state.step(DispatchEvent::Reconnected), DispatchAction::Idle));
    assert_eq!(state, before);
    assert!(matches!(state.step(DispatchEvent::Published(Ok(()))), DispatchAction::Finish(Ok(()))));
    let finished = state;
    assert!(matches!(state.step(DispatchEvent::Published(Ok(()))), DispatchAction::Idle));
    assert!(matches!(state.step(DispatchEvent::Published(failure(1))), DispatchAction::Idle));
    assert_eq!(state, finished);
}
