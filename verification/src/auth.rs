//! The authorization code grant: starting a flow and resuming it.

pub mod get;
pub mod resume;
