//! What follows from the attempt to start the host.

use vstd::prelude::*;
use crate::directive::Directive;

verus! {

/// The diagnostic with which the shell gives up when the host does not start.
pub const RUN_FAILURE: &'static str = "error while running tauri application";

/// Decides what follows from the attempt to start the host's run loop.
///
/// A start that succeeded asks nothing more of the process. One that failed is
/// fatal: there is no second attempt, and the shell gives up with
/// [`RUN_FAILURE`]. Nothing else can come of it; in particular the decision
/// is never an orderly exit.
pub fn settle(started: bool) -> (directive: Directive)
    ensures
        started ==> directive == Directive::Proceed,
        !started ==> directive == (Directive::Abort { message: RUN_FAILURE }),
{
    if started {
        Directive::Proceed
    } else {
        Directive::Abort { message: RUN_FAILURE }
    }
}

} // verus!
