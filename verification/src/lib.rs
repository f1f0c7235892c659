//! Decision core of a desktop application shell.
//!
//! The shell wires a GUI runtime together with three plugins (a
//! single-instance guard, deep-link registration, a debug logger) and exposes
//! one invocable command that opens a URL with the system's default handler.
//! The runtime, the plugins and the OS calls live outside this crate; what is
//! here is every decision the shell makes: which setup steps run for a given
//! build, how a delivered event is answered, what the command reports to its
//! caller, and whether startup proceeds or aborts.

pub mod command;
pub mod error;
pub mod events;
pub mod startup;
