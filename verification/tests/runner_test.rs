use secretcli::runner::{select_attempt, should_retry, RETRY_LIMIT, RETRY_SLEEP_SECS};

#[test]
fn retries_while_stderr_nonempty_below_ceiling() {
    assert!(should_retry(0, false));
    assert!(should_retry(19, false));
}

#[test]
fn stops_at_the_ceiling_of_twenty_retries() {
    assert_eq!(RETRY_LIMIT, 20);
    assert!(!should_retry(20, false));
    assert!(!should_retry(21, false));
}

#[test]
fn empty_stderr_stops_immediately() {
    assert!(!should_retry(0, true));
    assert!(!should_retry(5, true));
}

#[test]
fn retry_ceiling_exhausts_after_twenty_retries() {
    // Replay the runner's loop against a daemon whose stderr is non-empty on
    // every attempt: the initial attempt plus exactly twenty retries happen,
    // and the output of the last attempt is the one used.
    let mut attempts: u64 = 1;
    let mut retries: u64 = 0;
    while should_retry(retries, false) {
        retries += 1;
        attempts += 1;
    }
    assert_eq!(retries, 20);
    assert_eq!(attempts, 21);
}

#[test]
fn first_empty_stderr_ends_the_loop() {
    // A daemon that fails twice and then succeeds is invoked three times.
    let stderr_nonempty = [true, true, false];
    let mut attempt: usize = 0;
    while should_retry(attempt as u64, !stderr_nonempty[attempt]) {
        attempt += 1;
    }
    assert_eq!(attempt, 2);
}

#[test]
fn sleep_interval_is_one_time_unit() {
    assert_eq!(RETRY_SLEEP_SECS, 1);
}

#[test]
fn replay_uses_last_attempt_when_all_fail() {
    let all_nonempty = vec![true; 21];
    assert_eq!(select_attempt(&all_nonempty), 20);
}

#[test]
fn replay_uses_first_attempt_with_empty_stderr() {
    let mut nonempty = vec![true; 21];
    nonempty[3] = false;
    assert_eq!(select_attempt(&nonempty), 3);
    let all_empty = vec![false; 21];
    assert_eq!(select_attempt(&all_empty), 0);
}
