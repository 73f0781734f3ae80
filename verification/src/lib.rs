//! Turns bounty change events into prompts for a text-completion service,
//! in small batches, and lays out what is printed for each batch.

pub mod batch;
pub mod catalog;
pub mod decimal;
pub mod event;
pub mod prompt;
pub mod report;
pub mod response;
pub mod session;
