//! A build-diagnostics dashboard: classification of captured build output,
//! a circular selection model over the visible diagnostics, and the decisions
//! of the interactive render loop.

pub mod selection;
pub mod classify;
pub mod session;
pub mod layout;
