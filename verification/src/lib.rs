//! Single-shot interactive prompts for chat platforms: the keyboard text
//! codec, the button identifier scheme and the session state machine that
//! correlates one interaction with the message that was sent.
pub mod share;
pub mod ident;
pub mod error;
pub mod keyboard;
pub mod session;
pub mod discovery;
pub mod discord;
pub mod telegram;
