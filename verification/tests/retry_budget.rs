use beevulyk_grpc_extensions::retry::{retry_step, RetryBudget, RetryStep};

fn run_attempts(max: usize, outcomes: &[bool]) -> (usize, Option<Result<usize, String>>) {
    let mut budget = RetryBudget::new(max);
    let mut made = 0;
    for (index, ok) in outcomes.iter().enumerate() {
        made += 1;
        let result: Result<usize, String> =
            if *ok { Ok(index) } else { Err(format!("failure {index}")) };
        match retry_step(&mut budget, result) {
            RetryStep::Finished(result) => return (made, Some(result)),
            RetryStep::TryAgain => {}
        }
    }
    (made, None)
}

#[test]
fn fresh_budget_has_no_retries_taken() {
    let budget = RetryBudget::new(3);
    assert_eq!(budget.attempt_no(), 0);
    assert_eq!(budget.max_attempts_amount(), 3);
}

#[test]
fn on_failure_counts_until_budget_is_spent() {
    let mut budget = RetryBudget::new(2);
    assert!(budget.on_failure());
    assert_eq!(budget.attempt_no(), 1);
    assert!(budget.on_failure());
    assert_eq!(budget.attempt_no(), 2);
    assert!(!budget.on_failure());
    assert_eq!(budget.attempt_no(), 2);
    assert!(!budget.on_failure());
}

#[test]
fn zero_retries_gives_up_on_first_failure() {
    let (made, result) = run_attempts(0, &[false, true]);
    assert_eq!(made, 1);
    assert_eq!(result, Some(Err("failure 0".to_string())));
}

#[test]
fn failing_run_makes_one_attempt_more_than_retries() {
    let (made, result) = run_attempts(3, &[false; 10]);
    assert_eq!(made, 4);
    assert_eq!(result, Some(Err("failure 3".to_string())));
}

#[test]
fn first_success_ends_the_run() {
    let (made, result) = run_attempts(5, &[false, false, true, false, true]);
    assert_eq!(made, 3);
    assert_eq!(result, Some(Ok(2)));
}

#[test]
fn success_on_last_allowed_attempt_is_returned() {
    let (made, result) = run_attempts(2, &[false, false, true]);
    assert_eq!(made, 3);
    assert_eq!(result, Some(Ok(2)));
}

#[test]
fn success_does_not_spend_budget() {
    let mut budget = RetryBudget::new(1);
    let step = retry_step::<u8, ()>(&mut budget, Ok(7));
    assert!(matches!(step, RetryStep::Finished(Ok(7))));
    assert_eq!(budget.attempt_no(), 0);
}
