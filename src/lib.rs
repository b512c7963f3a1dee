//! Scripted login and reboot for a Syrotech router's web administration panel.
//!
//! The flows are a verified state machine: given the reply to the last request it
//! names the next request, or finishes with an outcome or an error. Running the
//! requests is left to the caller.

pub mod adapter;
pub mod error;
pub mod firmware;
pub mod flow;
pub mod resolve;
pub mod scrape;
