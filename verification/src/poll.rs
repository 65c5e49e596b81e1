//! Waiting for descriptors to become ready: the timeout handed to the
//! operating system and the reading of what it returns.

use vstd::prelude::*;

verus! {

/// What a wait that did not fail ended with.
#[derive(Debug, Clone, Copy, PartialEq, Eq, Structural)]
pub enum PollResult {
    /// So many descriptors are ready.
    Ready(i32),
    /// The time ran out before any was.
    Timeout,
}

/// Why a wait failed.
#[derive(Debug, Clone, Copy, PartialEq, Eq, Structural)]
pub enum PollError {
    /// The array given as argument was not contained in the calling program's address space.
    EFAULT,
    /// A signal occurred before any requested event.
    EINTR,
    /// The number of descriptors exceeds the limit on open files.
    EINVAL,
    /// There was no space to allocate file descriptor tables.
    ENOMEM,
}

/// The timeout argument of a wait, in milliseconds: the given one, or `-1`
/// to wait without limit.
pub fn poll_timeout(timeout: Option<i32>) -> (argument: i32)
    ensures
        argument == match timeout {
            Some(limit) => limit,
            None => -1i32,
        },
{
    match timeout {
        Some(limit) => limit,
        None => -1,
    }
}

/// Reads the return code of a wait: `-1` is the failure `error`, zero a
/// timeout, and a positive code the number of ready descriptors.
pub fn poll_outcome(retcode: i32, error: PollError) -> (outcome: Result<PollResult, PollError>)
    requires
        retcode >= -1,
    ensures
        outcome == if retcode == -1 {
            Err::<PollResult, PollError>(error)
        } else if retcode == 0 {
            Ok::<PollResult, PollError>(PollResult::Timeout)
        } else {
            Ok::<PollResult, PollError>(PollResult::Ready(retcode))
        },
{
    if retcode == -1 {
        Err(error)
    } else if retcode == 0 {
        Ok(PollResult::Timeout)
    } else {
        Ok(PollResult::Ready(retcode))
    }
}

} // verus!
