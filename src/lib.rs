//! Moderation-gated catalog of ride events: the status state machine,
//! validation of submissions, filtered and ordered reads, sparse partial
//! updates and the atomic approval of video suggestions.

pub mod status;
pub mod error;
pub mod model;
pub mod validate;
pub mod auth;
pub mod query;
pub mod names;
pub mod patch;
pub mod catalog;
pub mod moderation;
pub mod suggestions;
pub mod laws;
