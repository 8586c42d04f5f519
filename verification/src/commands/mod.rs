//! The bot's commands: their flags, the table they are found in, and what
//! `ping` answers.

pub mod flags;
pub mod ping;
pub mod slash;
