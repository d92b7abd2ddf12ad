//! Startup sequencing for a desktop GUI shell.
//!
//! The shell's entry operation assembles an application builder, registers the
//! one capability module it depends on, generates the run context and hands
//! control to the framework's run loop. This crate holds the decisions of that
//! sequence as a small state machine: the caller performs each action against
//! the framework and reports back what happened.

pub mod capability;
pub mod diagnostic;
pub mod startup;
pub mod laws;
