use mangalib_parser::retry::{run_retry_schedule, MAX_FETCH_ATTEMPTS};

#[test]
fn immediate_success_takes_one_invocation() {
    let outcomes = vec![true, true, true, true, true];
    assert_eq!(run_retry_schedule(&outcomes, MAX_FETCH_ATTEMPTS), (1, true));
}

#[test]
fn three_failures_then_success_takes_four_invocations() {
    let outcomes = vec![false, false, false, true, false];
    assert_eq!(run_retry_schedule(&outcomes, MAX_FETCH_ATTEMPTS), (4, true));
}

#[test]
fn success_on_the_last_allowed_attempt_still_wins() {
    let outcomes = vec![false, false, false, false, true];
    assert_eq!(run_retry_schedule(&outcomes, MAX_FETCH_ATTEMPTS), (5, true));
}

#[test]
fn five_consecutive_failures_take_exactly_five_invocations() {
    let outcomes = vec![false, false, false, false, false, true];
    assert_eq!(run_retry_schedule(&outcomes, MAX_FETCH_ATTEMPTS), (5, false));
}

#[test]
fn a_success_after_the_budget_is_never_reached() {
    let outcomes = vec![false, false, true];
    assert_eq!(run_retry_schedule(&outcomes, 2), (2, false));
}
