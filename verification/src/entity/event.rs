//! One resolved focus change, as it is stored.

use crate::timestamp::Timestamp;
use vstd::prelude::*;

verus! {

/// A stored focus change: which application took the focus, and when.
///
/// Events are only ever appended. Within one session they are ordered by
/// insertion, and `offset` is not expected to decrease along that order.
#[derive(Clone, Debug, PartialEq, Eq)]
pub struct Model {
    /// Assigned by the store.
    pub id: i32,
    /// Path of the executable that owns the focused window.
    pub path: String,
    /// Title of the focused window.
    pub title: String,
    /// Wall-clock time at which the event was stored.
    pub timestamp: Timestamp,
    /// Display title of the application.
    pub app_title: String,
    /// Milliseconds since system boot at which the focus changed.
    pub offset: u32,
    /// The session during which the event was captured.
    pub session_id: i32,
}

/// A focus change that is about to be stored: a [`Model`] that the store has
/// not given an `id` yet.
#[derive(Clone, Debug, PartialEq, Eq)]
pub struct Unsaved {
    /// Path of the executable that owns the focused window.
    pub path: String,
    /// Title of the focused window.
    pub title: String,
    /// Wall-clock time at which the event is stored.
    pub timestamp: Timestamp,
    /// Display title of the application.
    pub app_title: String,
    /// Milliseconds since system boot at which the focus changed.
    pub offset: u32,
    /// The session during which the event was captured.
    pub session_id: i32,
}

} // verus!
