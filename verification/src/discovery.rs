//! Chat discovery: with no prompt sent, every membership change that the
//! backend reports names a chat, and that chat's identifier is shown.
use vstd::prelude::*;

verus! {

/// What the caller is to run for a chat identifier given on the command line.
#[derive(Clone, Copy, Debug, PartialEq, Eq, Structural)]
pub enum Mode {
    /// List chat identifiers until the process is ended.
    Discover,
    /// Ask one prompt in the chat.
    Prompt,
}

/// One event of the discovery stream.
#[derive(Clone, Copy, Debug, PartialEq, Eq, Structural)]
pub enum Update {
    /// The bot's membership in a chat changed.
    Membership { chat_id: i128 },
    /// Any other event.
    Other,
}

/// The chat that an event of the discovery stream names, if it names one.
pub open spec fn named_chat(update: Update) -> Option<i128> {
    match update {
        Update::Membership { chat_id } => Some(chat_id),
        Update::Other => None,
    }
}

/// Chat identifier zero asks for discovery, any other for a prompt there.
pub fn mode_for(chat_id: i128) -> (mode: Mode)
    ensures
        mode == (if chat_id == 0 {
            Mode::Discover
        } else {
            Mode::Prompt
        }),
{
    if chat_id == 0 {
        Mode::Discover
    } else {
        Mode::Prompt
    }
}

/// The chat identifier to show for `update`: that of a membership change,
/// nothing for any other event.
pub fn discovered_chat(update: Update) -> (chat: Option<i128>)
    ensures
        chat == named_chat(update),
{
    match update {
        Update::Membership { chat_id } => Some(chat_id),
        Update::Other => None,
    }
}

} // verus!
