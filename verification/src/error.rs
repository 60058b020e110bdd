//! The ways in which a prompt can fail, and the reason text each one carries.
use vstd::prelude::*;

verus! {

/// What went wrong with a prompt. None of these is retried.
#[derive(Debug, PartialEq, Eq)]
pub enum PromptError {
    /// The message could not be dispatched; holds the backend's words.
    Send(String),
    /// The event stream could not be opened or broke off; holds the backend's words.
    Listen(String),
    /// The event stream ended before any interaction with the sent message.
    NoInteraction,
    /// An identifier that names no button of the keyboard; holds the identifier.
    Decode(String),
    /// The edit of the answered message failed; holds the backend's words.
    Edit(String),
}

/// The text shown for a stream that ended without a matching interaction.
pub open spec fn no_interaction_text() -> Seq<char> {
    "no interaction received"@
}

/// The text that precedes an identifier which names no button.
pub open spec fn decode_prefix() -> Seq<char> {
    "unknown button identifier: "@
}

impl PromptError {
    /// The human-readable reason of this error.
    pub open spec fn reason_text(&self) -> Seq<char> {
        match self {
            PromptError::Send(words) => words@,
            PromptError::Listen(words) => words@,
            PromptError::NoInteraction => no_interaction_text(),
            PromptError::Decode(id) => decode_prefix() + id@,
            PromptError::Edit(words) => words@,
        }
    }

    /// Gives the reason as an owned string.
    pub fn reason(&self) -> (text: String)
        ensures
            text@ == self.reason_text(),
    {
        match self {
            PromptError::Send(words) => words.clone(),
            PromptError::Listen(words) => words.clone(),
            PromptError::NoInteraction => String::from_str("no interaction received"),
            PromptError::Decode(id) => {
                let mut text = String::from_str("unknown button identifier: ");
                text.append(id.as_str());
                text
            },
            PromptError::Edit(words) => words.clone(),
        }
    }
}

} // verus!
