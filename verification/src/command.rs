//! The command that the shell registers with the host.

use vstd::prelude::*;
use crate::directive::Directive;

verus! {

/// The exit status that tells the operating system of an orderly end.
pub const EXIT_SUCCESS: i32 = 0;

/// Handles the `close_app` command.
///
/// The command takes nothing from its caller and hands nothing back: whatever
/// the application was doing, the process is to end with [`EXIT_SUCCESS`].
pub fn close_app() -> (directive: Directive)
    ensures
        directive == (Directive::Exit { status: 0 }),
{
    Directive::Exit { status: EXIT_SUCCESS }
}

} // verus!
