//! Native event bridge: turns window-message notifications into typed events
//! and governs the life of the listener that produces them.

pub mod codes;
pub mod composition;
pub mod lifecycle;
pub mod listener;
pub mod powerevents;
pub mod sinks;
