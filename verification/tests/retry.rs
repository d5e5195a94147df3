use realmkbot::failure::FailureKind;
use realmkbot::retry::{on_failure, CallFailure, RetryDecision, DEFAULT_WAIT_SECONDS, FLOOD_WAIT_CODE};

fn run(script: Vec<Result<&'static str, CallFailure>>) -> (Result<&'static str, CallFailure>, Vec<u64>, usize) {
    let mut slept = Vec::new();
    let mut attempts = 0;
    let mut script = script.into_iter();
    loop {
        attempts += 1;
        match script.next().expect("the script ran out before the call settled") {
            Ok(value) => return (Ok(value), slept, attempts),
            Err(failure) => match on_failure(&failure) {
                RetryDecision::Wait { seconds } => slept.push(seconds),
                RetryDecision::Surface => return (Err(failure), slept, attempts),
            },
        }
    }
}

#[test]
fn throttled_twice_then_succeeds() {
    let throttled = CallFailure::Rpc { code: 420, value: Some(0) };
    let (result, slept, attempts) = run(vec![Err(throttled), Err(throttled), Ok("done")]);
    assert_eq!(result, Ok("done"));
    assert_eq!(slept, vec![0, 0]);
    assert_eq!(attempts, 3);
}

#[test]
fn throttled_call_waits_the_named_time() {
    let failure = CallFailure::Rpc { code: FLOOD_WAIT_CODE, value: Some(31) };
    assert_eq!(on_failure(&failure), RetryDecision::Wait { seconds: 31 });
}

#[test]
fn throttled_call_without_a_time_waits_the_default() {
    let failure = CallFailure::Rpc { code: 420, value: None };
    assert_eq!(on_failure(&failure), RetryDecision::Wait { seconds: 30 });
    assert_eq!(DEFAULT_WAIT_SECONDS, 30);
}

#[test]
fn other_codes_surface_at_once() {
    let failure = CallFailure::Rpc { code: 400, value: Some(5) };
    assert_eq!(on_failure(&failure), RetryDecision::Surface);
    let (result, slept, attempts) = run(vec![Err(failure), Ok("never")]);
    assert_eq!(result, Err(failure));
    assert!(slept.is_empty());
    assert_eq!(attempts, 1);
}

#[test]
fn failures_of_the_transport_surface_at_once() {
    assert_eq!(on_failure(&CallFailure::Other), RetryDecision::Surface);
}

#[test]
fn success_needs_no_decision() {
    let (result, slept, attempts) = run(vec![Ok("first")]);
    assert_eq!(result, Ok("first"));
    assert!(slept.is_empty());
    assert_eq!(attempts, 1);
}

#[test]
fn throttle_then_other_failure_surfaces_the_other() {
    let throttled = CallFailure::Rpc { code: 420, value: Some(7) };
    let (result, slept, _) = run(vec![Err(throttled), Err(CallFailure::Other)]);
    assert_eq!(result, Err(CallFailure::Other));
    assert_eq!(slept, vec![7]);
}

#[test]
fn only_the_throttle_code_is_throttling() {
    assert_eq!(CallFailure::Rpc { code: 420, value: None }.kind(), FailureKind::RateLimited);
    assert_eq!(CallFailure::Rpc { code: 420, value: Some(3) }.kind(), FailureKind::RateLimited);
    assert_eq!(CallFailure::Rpc { code: 500, value: Some(3) }.kind(), FailureKind::Remote);
    assert_eq!(CallFailure::Other.kind(), FailureKind::Remote);
}
