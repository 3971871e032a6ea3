//! A pane-lifecycle coordinator: callers ask for a named logical pane to be
//! opened, closed, or toggled, while the actual operations complete
//! asynchronously in a host workspace.  The registry tracks one lifecycle
//! state per identifier, correlates completion notifications with the
//! original request, and decides exactly one terminal response per request.

pub mod messages;
pub mod registry;
pub mod coordinator;
pub mod decode;
pub mod laws;
