use xmr_supervisor::error::XmrError;
use xmr_supervisor::retry::{retry_error, Retry, RetryAction};

#[test]
fn retries_until_success() {
    let (mut r, first) = Retry::new(3, 10);
    assert_eq!(first, RetryAction::Run);
    assert_eq!(r.attempted(false), RetryAction::Sleep { ms: 10 });
    assert_eq!(r.next(), RetryAction::Run);
    assert_eq!(r.attempted(true), RetryAction::Succeed);
    assert_eq!(r.attempt, 1);
}

#[test]
fn gives_up_after_the_budget() {
    let (mut r, mut action) = Retry::new(3, 0);
    let mut runs = 0;
    while action == RetryAction::Run {
        runs += 1;
        assert!(matches!(r.attempted(false), RetryAction::Sleep { ms: 0 }));
        action = r.next();
    }
    assert_eq!(runs, 3);
    assert_eq!(action, RetryAction::GiveUp);
    assert_eq!(Retry::new(0, 5).1, RetryAction::GiveUp);
}

#[test]
fn retry_error_message() {
    match retry_error("xmr", 4) {
        XmrError::ExecutionError(m) => assert_eq!(m, "Command 'xmr' failed after 4 retries"),
        other => panic!("unexpected {:?}", other),
    }
}
