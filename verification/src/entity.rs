//! The persisted records of the activity timeline.

pub mod event;
pub mod session;
