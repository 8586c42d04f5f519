//! Interactive-message engine for a chat bot that files issues.
//!
//! A *page* is a stateful, renderable unit bound to one chat message. This
//! crate holds the pure core of the engine: the page contract and the
//! issue-filing wizard that implements it, the registry of live pages, the
//! idle-timeout supervisor, and the routing decisions that tie them
//! together. Everything here is synchronous and free of I/O; a driver
//! performs the network calls and feeds their outcomes back in as events.

pub mod active;
pub mod commands;
pub mod events;
pub mod util;
