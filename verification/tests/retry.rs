use flexys_core::retrieval::TokenError;
use flexys_core::retry::{
    attempts_for_outcomes, backoff_delay_ms, RetryDecision, RetryPolicy, RetryRun, RetryStep,
};

#[test]
fn retry_makes_at_most_max_retries_plus_one_attempts() {
    let policy = RetryPolicy { max_retries: 3 };
    let all_failures = vec![false; 10];
    assert_eq!(attempts_for_outcomes(&all_failures, &policy), 4);
}

#[test]
fn retry_stops_immediately_on_first_success() {
    let policy = RetryPolicy { max_retries: 3 };
    assert_eq!(attempts_for_outcomes(&vec![true, false, false], &policy), 1);
    assert_eq!(attempts_for_outcomes(&vec![false, true, false], &policy), 2);
    assert_eq!(
        attempts_for_outcomes(&vec![false, false, false, true], &policy),
        4
    );
}

#[test]
fn retry_with_zero_budget_makes_one_attempt() {
    let policy = RetryPolicy { max_retries: 0 };
    assert_eq!(attempts_for_outcomes(&vec![false, false], &policy), 1);
}

#[test]
fn retry_run_doubles_delays_then_gives_up() {
    let policy = RetryPolicy { max_retries: 3 };
    let mut run = RetryRun::new(&policy);

    match run.record_failure() {
        RetryDecision::RetryAfterMillis { delay_ms } => assert_eq!(delay_ms, 1000),
        RetryDecision::GiveUp => panic!("gave up after the first failure"),
    }
    match run.record_failure() {
        RetryDecision::RetryAfterMillis { delay_ms } => assert_eq!(delay_ms, 2000),
        RetryDecision::GiveUp => panic!("gave up after the second failure"),
    }
    match run.record_failure() {
        RetryDecision::RetryAfterMillis { delay_ms } => assert_eq!(delay_ms, 4000),
        RetryDecision::GiveUp => panic!("gave up after the third failure"),
    }
    assert!(matches!(run.record_failure(), RetryDecision::GiveUp));
}

#[test]
fn exhaustion_escalates_the_last_error_wrapped() {
    let policy = RetryPolicy { max_retries: 1 };
    let mut run = RetryRun::new(&policy);

    match run.on_failure(TokenError::TransportError { status: 503 }) {
        RetryStep::RetryAfterMillis { delay_ms } => assert_eq!(delay_ms, 1000),
        RetryStep::Exhausted { .. } => panic!("gave up after the first failure"),
    }
    match run.on_failure(TokenError::TransportError { status: 500 }) {
        RetryStep::Exhausted { error } => match error {
            TokenError::ExhaustedRetries { last_error } => {
                assert!(matches!(
                    *last_error,
                    TokenError::TransportError { status: 500 }
                ));
            }
            other => panic!("expected ExhaustedRetries, got {other:?}"),
        },
        RetryStep::RetryAfterMillis { .. } => panic!("budget was already spent"),
    }
}

#[test]
fn backoff_delays_double_from_one_second_and_cap_at_sixty() {
    assert_eq!(backoff_delay_ms(1), 1000);
    assert_eq!(backoff_delay_ms(2), 2000);
    assert_eq!(backoff_delay_ms(6), 32000);
    assert_eq!(backoff_delay_ms(7), 60000);
    assert_eq!(backoff_delay_ms(8), 60000);
    assert_eq!(backoff_delay_ms(40), 60000);
}
