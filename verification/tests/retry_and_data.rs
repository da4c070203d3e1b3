//! Tests of the retry policy, the configuration defaults, the text helpers
//! and the error descriptions.

use chase::{
    thread_namer, trim_trailing_newlines, ChaseError, Chaser, Line, Pos, RetryBudget,
    DEFAULT_NOT_ROTATED_WAIT_MILLIS, DEFAULT_ROTATION_CHECK_WAIT_MILLIS,
};

/// The retry loop a driver runs around a budget: attempt, and on failure
/// retry while the budget allows it.
fn try_until<R, E, F>(mut f: F, max_attempts: Option<usize>) -> Result<R, E>
where
    F: FnMut() -> Result<R, E>,
{
    let mut budget = RetryBudget::new(max_attempts);
    loop {
        let current_try = f();
        match current_try {
            Ok(value) => return Ok(value),
            Err(error) => {
                if !budget.retry_after_failure() {
                    return Err(error);
                }
            }
        }
    }
}

#[test]
fn try_until_test() {
    // success on the first attempt is returned at once, capped or not
    let result_0: Result<i32, ()> = try_until(|| Ok(1), None);
    assert_eq!(result_0, Ok(1));
    let result_1: Result<i32, ()> = try_until(|| Ok(1), Some(1));
    assert_eq!(result_1, Ok(1));

    // a cap of one means exactly one attempt
    let mut tries = 0;
    let result_2: Result<i32, ()> = try_until(
        || {
            tries += 1;
            Err(())
        },
        Some(1),
    );
    assert_eq!(tries, 1);
    assert_eq!(result_2, Err(()));

    // a cap of 999 admits 999 attempts: an operation that succeeds on its
    // 999th try (the shared counter having already reached 1000) still comes
    // back successful
    let result_3: Result<i32, ()> = try_until(
        || {
            tries += 1;
            if tries < 1000 {
                Err(())
            } else {
                Ok(1)
            }
        },
        Some(999),
    );
    assert_eq!(result_3, Ok(1));
    assert_eq!(tries, 1000);
}

#[test]
fn unbounded_budget_never_gives_up() {
    let mut budget = RetryBudget::new(None);
    for _ in 0..10_000 {
        assert!(budget.retry_after_failure());
    }
    assert_eq!(budget.failures, 0);
}

#[test]
fn bounded_budget_counts_failures() {
    let mut budget = RetryBudget::new(Some(3));
    assert!(budget.retry_after_failure());
    assert!(budget.retry_after_failure());
    assert!(!budget.retry_after_failure());
    assert_eq!(budget.failures, 3);
    budget.reset();
    assert_eq!(budget.failures, 0);
    assert_eq!(budget.max_attempts, Some(3));
    assert!(budget.retry_after_failure());
}

#[test]
fn zero_attempt_cap_behaves_as_one() {
    let mut budget = RetryBudget::new(Some(0));
    assert!(!budget.retry_after_failure());
}

#[test]
fn chaser_defaults() {
    let chaser = Chaser::new("/var/log/some.log".to_string());
    assert_eq!(chaser.line, Line(0));
    assert_eq!(chaser.path, "/var/log/some.log".to_string());
    assert_eq!(chaser.initial_no_file_attempts, None);
    assert_eq!(chaser.initial_no_file_wait_millis, DEFAULT_ROTATION_CHECK_WAIT_MILLIS);
    assert_eq!(chaser.rotation_check_attempts, None);
    assert_eq!(chaser.rotation_check_wait_millis, DEFAULT_ROTATION_CHECK_WAIT_MILLIS);
    assert_eq!(chaser.not_rotated_wait_millis, DEFAULT_NOT_ROTATED_WAIT_MILLIS);
    assert_eq!(DEFAULT_ROTATION_CHECK_WAIT_MILLIS, 100);
    assert_eq!(DEFAULT_NOT_ROTATED_WAIT_MILLIS, 50);
}

#[test]
fn trimming_strips_the_delimiter() {
    assert_eq!(trim_trailing_newlines("hello\n"), "hello".to_string());
    assert_eq!(trim_trailing_newlines("hello"), "hello".to_string());
    assert_eq!(trim_trailing_newlines("\n"), "".to_string());
    assert_eq!(trim_trailing_newlines(""), "".to_string());
    assert_eq!(trim_trailing_newlines("a\n\n"), "a".to_string());
    assert_eq!(trim_trailing_newlines("a\nb\n"), "a\nb".to_string());
    assert_eq!(trim_trailing_newlines("héllo\n"), "héllo".to_string());
}

#[test]
fn worker_threads_are_named_for_the_path() {
    assert_eq!(thread_namer("/tmp/x.log"), "chase-thread-/tmp/x.log".to_string());
    assert_eq!(thread_namer(""), "chase-thread-".to_string());
}

#[test]
fn error_messages() {
    let io = ChaseError::IoError { message: "no such file".to_string() };
    assert_eq!(io.message(), "no such file".to_string());
    let channel = ChaseError::ChannelSendError {
        text: "x".to_string(),
        line: Line(0),
        pos: Pos(0),
    };
    assert_eq!(channel.message(), "sending on a closed channel".to_string());
    let stream = ChaseError::StreamSendError {
        text: "x".to_string(),
        line: Line(1),
        pos: Pos(2),
    };
    assert_eq!(stream.message(), "send failed because receiver is gone".to_string());
    assert_eq!(io.duplicate(), io);
    assert_eq!(channel.duplicate(), channel);
}
