//! What the construction of a part of the shell can come to.
//!
//! The host does the constructing; the shell only says what to construct
//! next. Each part is set up step by step: the shell names a step, the host
//! carries it out and reports how it ended, and the shell names the next one.
//! The first failure ends the setup, and with it the start of the
//! application: nothing is requested after it.

use vstd::prelude::*;

verus! {

/// The reason for which the application could not start.
#[derive(Clone, Debug, PartialEq, Eq)]
pub struct InitError {
    /// The host's own description of what went wrong.
    pub message: String,
}

/// Where a setup stands.
#[derive(Clone, Debug, PartialEq, Eq)]
pub enum Progress<S> {
    /// The host is to carry out this step and report back.
    Request(S),
    /// Every step succeeded.
    Ready,
    /// A step failed; the setup is over.
    Failed(InitError),
}

/// Where a setup stands after a step ended as `outcome`, if `next` is what
/// follows the step on success.
pub open spec fn progress_after<S>(outcome: Result<(), String>, next: Progress<S>) -> Progress<S> {
    match outcome {
        Ok(_) => next,
        Err(message) => Progress::Failed(InitError { message }),
    }
}

/// Decides how a setup goes on after a step: with `next` if the step
/// succeeded, and not at all if it failed.
pub fn continue_after<S>(outcome: Result<(), String>, next: Progress<S>) -> (progress: Progress<S>)
    ensures
        progress == progress_after(outcome, next),
{
    match outcome {
        Ok(_) => next,
        Err(message) => Progress::Failed(InitError { message }),
    }
}

} // verus!
