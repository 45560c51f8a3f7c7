//! A concurrent command runner's verified core: a registry of launched
//! tasks, the terminal events their workers report, the rule that decides
//! when the watch loop may stop, and the pure rendering of the live status
//! frame and the final output report.
//!
//! The surrounding program supplies what cannot be verified: spawning the
//! child processes, the event channel, the clock, and the terminal writes.
//! Everything it decides with — how an event changes a task, when the loop
//! ends, what bytes a frame holds — is proved here.

pub mod event;
pub mod numfmt;
pub mod registry;
pub mod render;
pub mod source;
pub mod style;
pub mod task;
pub mod watch;
