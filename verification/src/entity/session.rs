//! One continuous run of the observing process.

use crate::timestamp::Timestamp;
use vstd::prelude::*;

verus! {

/// A stored session, anchored to the instant at which the system started.
#[derive(Clone, Copy, Debug, PartialEq, Eq)]
pub struct Model {
    /// Assigned by the store.
    pub id: i32,
    /// Current time minus system uptime, taken when the session was created.
    pub datetime: Timestamp,
}

} // verus!
