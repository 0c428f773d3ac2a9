//! Retries while the database is busy.

use event_sorcery::reactor::{
    backoff_delay_ms, is_busy_extended_code, is_retryable_sqlite_busy, retry_step, ErrorKind,
    ErrorNode, IdempotentReactor, Reactor, RetryOnBusy, RetryStep, RETRY_BASE_DELAY_MS,
    RETRY_MAX_ATTEMPTS, RETRY_MAX_DELAY_MS,
};

/// An error of the driver over what the database reported.
fn sqlx_error_with_code(code: &str) -> ErrorNode {
    ErrorNode {
        kind: ErrorKind::Database(Some(code.to_string())),
        source: Some(Box::new(ErrorNode {
            kind: ErrorKind::Reported(Some(code.to_string())),
            source: None,
        })),
    }
}

fn wrapped(source: ErrorNode) -> ErrorNode {
    ErrorNode {
        kind: ErrorKind::Other,
        source: Some(Box::new(source)),
    }
}

/// A persistence error: its cause is boxed, not its source.
fn persistence(inner: ErrorNode) -> ErrorNode {
    ErrorNode {
        kind: ErrorKind::Persistence(Box::new(inner)),
        source: None,
    }
}

#[test]
fn is_retryable_sqlite_busy_true_for_busy_code() {
    let error = sqlx_error_with_code("5");
    assert!(is_retryable_sqlite_busy(&error));
}

#[test]
fn is_retryable_sqlite_busy_true_for_busy_snapshot_code() {
    let error = sqlx_error_with_code("517");
    assert!(is_retryable_sqlite_busy(&error));
}

#[test]
fn is_retryable_sqlite_busy_true_for_busy_recovery_code() {
    let error = sqlx_error_with_code("261");
    assert!(is_retryable_sqlite_busy(&error));
}

#[test]
fn is_retryable_sqlite_busy_true_for_busy_timeout_code() {
    let error = sqlx_error_with_code("773");
    assert!(is_retryable_sqlite_busy(&error));
}

#[test]
fn is_retryable_sqlite_busy_false_for_other_code() {
    let error = sqlx_error_with_code("19");
    assert!(!is_retryable_sqlite_busy(&error));
}

#[test]
fn is_retryable_sqlite_busy_true_two_levels_deep_via_source_chain() {
    let error = wrapped(wrapped(sqlx_error_with_code("5")));
    assert!(is_retryable_sqlite_busy(&error));
}

#[test]
fn is_retryable_sqlite_busy_true_behind_persistence_error_connection_error() {
    let error = wrapped(persistence(sqlx_error_with_code("517")));
    assert!(is_retryable_sqlite_busy(&error));
}

#[test]
fn is_retryable_sqlite_busy_true_for_projection_error_sqlx_variant() {
    let error = wrapped(sqlx_error_with_code("5"));
    assert!(is_retryable_sqlite_busy(&error));
}

#[test]
fn is_retryable_sqlite_busy_true_for_projection_error_persistence_variant() {
    let error = wrapped(persistence(sqlx_error_with_code("517")));
    assert!(is_retryable_sqlite_busy(&error));
}

#[test]
fn is_retryable_sqlite_busy_fails_closed_behind_unsourced_aggregate_error() {
    let error = ErrorNode {
        kind: ErrorKind::Other,
        source: None,
    };
    assert!(!is_retryable_sqlite_busy(&error));
}

#[test]
fn is_retryable_sqlite_busy_sees_what_the_database_reported() {
    let error = wrapped(ErrorNode {
        kind: ErrorKind::Reported(Some("5".to_string())),
        source: None,
    });
    assert!(is_retryable_sqlite_busy(&error));
}

#[test]
fn busy_codes_are_told_by_their_low_byte() {
    for busy in ["5", "+5", "261", "-251", "1029"] {
        assert!(is_busy_extended_code(Some(busy)), "{busy}");
    }
    for other in ["", "+", "-5", "6", "0", "5x", " 5", "99999999999", "five"] {
        assert!(!is_busy_extended_code(Some(other)), "{other}");
    }
    assert!(!is_busy_extended_code(None));
}

#[test]
fn delays_double_up_to_the_longest() {
    let delays: Vec<u64> = (0..10)
        .map(|attempt| backoff_delay_ms(attempt, RETRY_BASE_DELAY_MS, RETRY_MAX_DELAY_MS))
        .collect();

    assert_eq!(
        delays,
        vec![10, 20, 40, 80, 160, 320, 640, 1000, 1000, 1000]
    );
    assert_eq!(delays.iter().sum::<u64>(), 4270);
    assert_eq!(backoff_delay_ms(63, 1, u64::MAX), 1 << 63);
    assert_eq!(backoff_delay_ms(64, 1, 5), 5);
    assert_eq!(backoff_delay_ms(70, 1, 1), 1);
    assert_eq!(backoff_delay_ms(63, 2, 7), 7);
    assert_eq!(backoff_delay_ms(3, 0, 7), 0);
    assert_eq!(backoff_delay_ms(64, 0, 7), 7);
}

/// Tries until `failures` are used up, as a caller does.
fn tries(failures: &[bool], max_attempts: u32) -> (u32, bool) {
    let mut attempt = 0;
    loop {
        let Some(retryable) = failures.get(attempt as usize) else {
            return (attempt + 1, true);
        };
        match retry_step(attempt, max_attempts, 1, 5, *retryable) {
            RetryStep::RetryAfter(delay_ms) => {
                assert!(delay_ms <= 5);
                attempt += 1;
            }
            RetryStep::GiveUp => return (attempt + 1, false),
        }
    }
}

#[test]
fn retries_end_with_success_a_final_error_or_the_budget() {
    assert_eq!(tries(&[], 3), (1, true));
    assert_eq!(tries(&[true, true], 3), (3, true));
    assert_eq!(tries(&[false], 3), (1, false));
    assert_eq!(tries(&[true; 10], 3), (4, false));
    assert_eq!(tries(&[true; 100], 70), (71, false));
}

struct Busy;

impl Reactor for Busy {
    type Event = ();
    type Error = ErrorNode;

    fn react(&self, _event: ()) -> Result<(), ErrorNode> {
        Err(sqlx_error_with_code("5"))
    }
}

impl IdempotentReactor for Busy {}

#[test]
fn busy_reactors_are_retried() {
    let wrapped = RetryOnBusy { inner: Busy };
    let error = wrapped.inner.react(()).unwrap_err();

    assert_eq!(wrapped.after_failure(0, &error), RetryStep::RetryAfter(10));
    assert_eq!(wrapped.after_failure(9, &error), RetryStep::RetryAfter(1000));
    assert_eq!(
        wrapped.after_failure(RETRY_MAX_ATTEMPTS, &error),
        RetryStep::GiveUp
    );
    assert_eq!(
        wrapped.after_failure(0, &sqlx_error_with_code("19")),
        RetryStep::GiveUp
    );
}
