//! What a decision of the shell asks of the process.

use vstd::prelude::*;

verus! {

/// An instruction for the code that owns the process.
#[derive(Clone, Copy, Debug, PartialEq, Eq)]
pub enum Directive {
    /// Nothing is asked: the host keeps the process.
    Proceed,
    /// End the process through the host, with this exit status.
    Exit { status: i32 },
    /// Give up at once: panic with this diagnostic, so that the process ends
    /// with a failure status.
    Abort { message: &'static str },
}

} // verus!
