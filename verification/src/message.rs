//! Chat messages exchanged with the assistant, as the surrounding
//! application stores and displays them. A finished transcription enters
//! the conversation as one of these.

use vstd::prelude::*;

verus! {

/// Who a chat message came from.
#[derive(Debug, PartialEq, Eq, Structural)]
pub enum AiMessageFrom {
    User,
    System,
    Assistant,
}

/// One chat message: its origin and its text.
#[derive(Debug)]
pub struct AiMessage {
    pub from: AiMessageFrom,
    pub content: String,
}

} // verus!
