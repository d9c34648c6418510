//! Keeps track of which application holds the input focus, and for how long.
//!
//! A hook reports each change of the foreground window. The change is resolved
//! into the application behind the window and stored as an event of the
//! session, the one run of the tracker; from the events of a session the
//! statistics are computed: how long each application held the focus, and the
//! timeline of visits.
//!
//! This library holds the data of that timeline and every decision taken along
//! the way. It touches neither the operating system nor the store: whoever
//! runs it asks them what the library wants to know, and tells it the answer.
//!
//! - [`timestamp`]: instants on the UTC timeline.
//! - [`entity`]: the stored records, sessions and events.
//! - [`service`]: the capture pipeline, from the hook to the store.
//! - [`server`]: the statistics of a session.
//! - [`logging`]: which log records are let through.

pub mod entity;
pub mod logging;
pub mod server;
pub mod service;
pub mod timestamp;
