//! Conversation history: past conversations by name. Creating the folder
//! the history persists under is file work that belongs to the surrounding
//! application; this module owns the in-memory state.

use std::collections::HashMap;

use vstd::prelude::*;

use crate::message::AiMessage;

verus! {

/// The stored conversations, each a named sequence of messages.
#[derive(Debug)]
pub struct History {
    pub conversations: HashMap<String, Vec<AiMessage>>,
}

/// A fresh, empty history, used until past conversations are loaded.
pub fn get_history() -> (h: History)
    ensures
        h.conversations@ == Map::<String, Vec<AiMessage>>::empty(),
{
    History { conversations: HashMap::new() }
}

} // verus!
