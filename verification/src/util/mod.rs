//! Plain data and text helpers shared by the pages and the routing code.

pub mod builder;
pub mod config;
pub mod interaction;
pub mod text;
