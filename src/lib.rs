//! Supervision of the backend server process behind the desktop shell:
//! where its executable lies, whether and how to start it, when it is ready,
//! and what to do with it when the window closes.
pub mod command;
pub mod launch;
pub mod locate;
pub mod readiness;
pub mod tracker;
