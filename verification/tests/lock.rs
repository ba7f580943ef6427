//! The lock.

use ytsync_pi::lock::{acquire, LockAttempt};

#[test]
fn lock_is_held_or_not() {
    assert!(acquire("/l", LockAttempt::Taken).unwrap());
    assert!(!acquire("/l", LockAttempt::WouldBlock).unwrap());
}

#[test]
fn lock_failures_are_told() {
    let told = |attempt: LockAttempt| {
        let e = acquire("/run/l", attempt).unwrap_err();
        (e.message, e.cause)
    };
    assert_eq!(
        told(LockAttempt::DirFailed { dir: "/run".to_string(), cause: "a".to_string() }),
        ("create lock dir /run".to_string(), "a".to_string())
    );
    assert_eq!(
        told(LockAttempt::OpenFailed { cause: "b".to_string() }),
        ("open lock file /run/l".to_string(), "b".to_string())
    );
    assert_eq!(
        told(LockAttempt::LockFailed { cause: "c".to_string() }),
        ("lock /run/l".to_string(), "c".to_string())
    );
}
