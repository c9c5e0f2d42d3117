//! Waiting for the exclusive lock on the lockfile.
use vstd::prelude::*;
use crate::args::Args;
use crate::duration::{Duration, duration_text, duration_text_view, NANOS_PER_MILLI};

verus! {

/// The lock to take before anything is run: the lockfile and how long to
/// wait for it.
#[derive(Debug)]
pub struct LockRequest {
    pub path: String,
    pub timeout: Duration,
}

/// The lock asked for by `args`, if any. Without `--lock_timeout` the wait
/// is zero: a lock held by another process makes the run fail at once.
pub fn lock_request(args: &Args) -> (r: Option<LockRequest>)
    ensures
        match args.lockfile {
            Some(path) => r matches Some(req) && req.path == path && req.timeout.view() == match args.lock_timeout {
                Some(t) => t.view(),
                None => 0,
            },
            None => r is None,
        },
{
    match &args.lockfile {
        Some(path) => {
            let timeout = match &args.lock_timeout {
                Some(t) => *t,
                None => Duration::zero(),
            };
            Some(LockRequest { path: path.clone(), timeout })
        },
        None => None,
    }
}

/// The outcome of one non-blocking attempt to take the lock.
#[derive(Debug)]
pub enum TryLock {
    /// The lock is now held by this process.
    Acquired,
    /// Another process holds the lock.
    Held,
    /// The attempt failed; the text of the error.
    Failed(String),
}

/// What to do after an attempt to take the lock.
#[derive(Debug)]
pub enum LockStep {
    /// The lock is held: go on.
    Locked,
    /// Sleep this long, then try again.
    Retry(Duration),
    /// Give up with this error.
    Fail(String),
}

/// The pause between two attempts to take a held lock: 100 ms.
pub open spec fn lock_poll_interval() -> nat {
    100 * (NANOS_PER_MILLI as nat)
}

/// The error given when the lock could not be taken within `timeout`.
pub open spec fn lock_timeout_message(timeout: Duration) -> Seq<char> {
    "Timeout waiting for lockfile after "@ + duration_text_view(timeout.view())
}

/// Decides the next step after an attempt to take the lock, `elapsed` after
/// the wait began: a held lock is polled again every 100 ms until `elapsed`
/// reaches `timeout`, and then the wait fails.
pub fn lock_step(attempt: TryLock, elapsed: &Duration, timeout: &Duration) -> (step: LockStep)
    ensures
        match attempt {
            TryLock::Acquired => step is Locked,
            TryLock::Held => if elapsed.view() >= timeout.view() {
                step matches LockStep::Fail(e) && e@ == lock_timeout_message(*timeout)
            } else {
                step matches LockStep::Retry(d) && d.view() == lock_poll_interval()
            },
            TryLock::Failed(e) => step matches LockStep::Fail(f) && f == e,
        },
        attempt is Held && timeout.view() == 0 ==> step is Fail,
{
    match attempt {
        TryLock::Acquired => LockStep::Locked,
        TryLock::Held => {
            if elapsed.at_least(timeout) {
                let mut msg = String::from_str("Timeout waiting for lockfile after ");
                let d = duration_text(timeout);
                msg.append(d.as_str());
                LockStep::Fail(msg)
            } else {
                LockStep::Retry(Duration::from_millis(100))
            }
        },
        TryLock::Failed(e) => LockStep::Fail(e),
    }
}

} // verus!
