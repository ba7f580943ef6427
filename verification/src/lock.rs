//! The lock that keeps two runs apart: what an attempt to take it means.

use vstd::prelude::*;
use vstd::string::*;

verus! {

/// How an attempt to take the lock ended. A cause is what the system said.
pub enum LockAttempt {
    /// The directory of the lock file could not be made.
    DirFailed { dir: String, cause: String },
    /// The lock file could not be opened.
    OpenFailed { cause: String },
    Taken,
    /// Taking it would mean to wait for another run.
    WouldBlock,
    LockFailed { cause: String },
}

/// Why it is not known whether another run is on.
#[derive(Debug)]
pub struct LockError {
    pub message: String,
    pub cause: String,
}

/// The message of an attempt that failed, and its cause.
pub open spec fn lock_failure(path: Seq<char>, attempt: LockAttempt) -> Option<
    (Seq<char>, Seq<char>),
> {
    match attempt {
        LockAttempt::DirFailed { dir, cause } => Some(("create lock dir "@ + dir@, cause@)),
        LockAttempt::OpenFailed { cause } => Some(("open lock file "@ + path, cause@)),
        LockAttempt::Taken => None,
        LockAttempt::WouldBlock => None,
        LockAttempt::LockFailed { cause } => Some(("lock "@ + path, cause@)),
    }
}

/// Adds what it is about to a message.
fn about(what: &str, name: &str) -> (r: String)
    ensures
        r@ == what@ + name@,
{
    let mut m = what.to_owned();
    m.append(name);
    m
}

/// Whether this run holds the lock; it does not where another one does.
pub fn acquire(path: &str, attempt: LockAttempt) -> (r: Result<bool, LockError>)
    ensures
        match r {
            Ok(held) => lock_failure(path@, attempt) is None && held == (attempt is Taken),
            Err(e) => lock_failure(path@, attempt) == Some((e.message@, e.cause@)),
        },
{
    match attempt {
        LockAttempt::DirFailed { dir, cause } => Err(
            LockError { message: about("create lock dir ", dir.as_str()), cause },
        ),
        LockAttempt::OpenFailed { cause } => Err(
            LockError { message: about("open lock file ", path), cause },
        ),
        LockAttempt::Taken => Ok(true),
        LockAttempt::WouldBlock => Ok(false),
        LockAttempt::LockFailed { cause } => Err(LockError { message: about("lock ", path), cause }),
    }
}

/// This run holds the lock just where it took it; another run does where taking it would mean to
/// wait; in any other case the failure is told, with what it is about and the cause.
pub proof fn law_only_a_failed_attempt_is_an_error(path: Seq<char>, dir: String, cause: String)
    ensures
        lock_failure(path, LockAttempt::Taken) is None,
        lock_failure(path, LockAttempt::WouldBlock) is None,
        match lock_failure(path, (LockAttempt::DirFailed { dir, cause })) {
            Some((message, why)) => message == "create lock dir "@ + dir@ && why == cause@,
            None => false,
        },
        match lock_failure(path, (LockAttempt::OpenFailed { cause })) {
            Some((message, why)) => message == "open lock file "@ + path && why == cause@,
            None => false,
        },
        match lock_failure(path, (LockAttempt::LockFailed { cause })) {
            Some((message, why)) => message == "lock "@ + path && why == cause@,
            None => false,
        },
{
}

} // verus!
