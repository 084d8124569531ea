//! A daily two-choice poll: the voting ledger that rolls over each day, keeps
//! one vote per client per day and counts the votes of each day, and the
//! catalog of prompts that the poll asks.

pub mod ledger;
pub mod prompts;
pub mod clock;
pub mod laws;
pub mod service;
