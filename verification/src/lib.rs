//! A cross-platform terminal launcher.
//!
//! Given a shell command, the library builds a platform-appropriate wrapped
//! command (the original command behind a fixed startup delay), decides which
//! terminal emulator to invoke with which arguments, and folds the outcomes of
//! the spawn attempts into a single success-or-failure response. On Linux a
//! fixed ordered list of terminal emulators is tried in turn, stopping at the
//! first that launches.
//!
//! The process-spawn calls themselves are operating-system I/O and live with
//! the caller; the library supplies the invocations to run and interprets
//! every outcome.

pub mod command;
pub mod session;
