//! The decisions of a desktop application shell.
//!
//! The shell offers its front end a single command, which closes the
//! application, and treats a failed start of the host framework as fatal.
//! Windows, the event loop and the dispatch of commands belong to the host;
//! what is decided here is only what becomes of the process. Each decision is
//! a [`directive::Directive`] that the caller carries out.

pub mod command;
pub mod directive;
pub mod startup;
