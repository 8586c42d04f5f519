//! The `ping` command.

use vstd::prelude::*;
use vstd::string::*;

use crate::util::builder::{MessageBuilder, MessageBuilderView};
use crate::util::text::{decimal, push_decimal};

verus! {

/// The command that answers with the time that an answer takes.
#[derive(Clone, Copy, Debug, PartialEq, Eq, Structural)]
pub struct Ping;

/// What the command answers once the time is known.
pub open spec fn pong_text(elapsed_ms: u128) -> Seq<char> {
    ":ping_pong: Pong! ("@ + decimal(elapsed_ms as nat) + "ms)"@
}

impl Ping {
    /// The first answer, sent before the time is known.
    pub fn first_answer() -> (message: MessageBuilder)
        ensures
            message.deep_view() == (MessageBuilderView {
                content: Some("Pong"@),
                embed: None,
                components: None,
            }),
    {
        MessageBuilder::new().content("Pong")
    }

    /// The answer that replaces the first one, given how many milliseconds
    /// the first answer took.
    pub fn answer(elapsed_ms: u128) -> (message: MessageBuilder)
        ensures
            message.deep_view() == (MessageBuilderView {
                content: Some(pong_text(elapsed_ms)),
                embed: None,
                components: None,
            }),
    {
        let mut content = String::from_str(":ping_pong: Pong! (");
        push_decimal(&mut content, elapsed_ms);
        content.append("ms)");
        MessageBuilder::new().content(content.as_str())
    }
}

} // verus!
