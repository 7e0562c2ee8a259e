use gallery_dl::config::DOWNLOAD_RETRIES;
use gallery_dl::progress::{Msg, Status, Update};
use gallery_dl::retry::RetryState;
use gallery_dl::task::{TaskPhase, TaskProgress};

/// Two transient failures inside a budget of three, then success: the
/// task is done after exactly three attempts and reports `Done` once.
#[test]
fn transient_failures_then_success() {
    let outcomes = [false, false, true];
    let mut retry = RetryState::new(DOWNLOAD_RETRIES);
    let mut progress = TaskProgress::new(7);
    let mut done_events = 0;

    let mut attempt = 0;
    while retry.should_attempt() {
        progress.begin_resolving();
        let success = outcomes[attempt];
        attempt += 1;
        if success {
            progress.begin_file(String::from("1.jpg"));
            let msg = progress.finish();
            assert!(matches!(msg, Msg::Update(Update { id: 7, status: Status::Done })));
            done_events += 1;
        } else {
            progress.restart();
        }
        retry.record_attempt(success);
    }

    assert!(retry.succeeded());
    assert_eq!(retry.attempts_used(), 3);
    assert_eq!(done_events, 1);
    assert_eq!(progress.phase(), TaskPhase::Finished);
}

/// Success on the first attempt uses exactly one attempt.
#[test]
fn immediate_success() {
    let mut retry = RetryState::new(DOWNLOAD_RETRIES);
    assert!(retry.should_attempt());
    retry.record_attempt(true);
    assert!(retry.succeeded());
    assert!(!retry.should_attempt());
    assert_eq!(retry.attempts_used(), 1);
}

/// A permanently failing download stops after the whole budget, without
/// success.
#[test]
fn budget_exhausted() {
    let mut retry = RetryState::new(DOWNLOAD_RETRIES);
    let mut attempts = 0;
    while retry.should_attempt() {
        retry.record_attempt(false);
        attempts += 1;
    }
    assert!(!retry.succeeded());
    assert_eq!(attempts, DOWNLOAD_RETRIES);
    assert_eq!(retry.attempts_used(), DOWNLOAD_RETRIES);
}

/// The retry budget is the configured number of attempts.
#[test]
fn budget_is_the_configured_constant() {
    assert_eq!(DOWNLOAD_RETRIES, 3);
}
