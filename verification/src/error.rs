//! The errors of the library.

use vstd::prelude::*;

verus! {

/// Why an Agent Context operation failed.
#[derive(Debug)]
pub enum AgentContextError {
    /// A message to show as it is.
    Message(String),
    /// A step failed: what was being done, and what went wrong.
    Context { context: String, cause: String },
}

impl AgentContextError {
    /// The text shown for the error: the message, or what was being done.
    pub open spec fn shown(self) -> Seq<char> {
        match self {
            AgentContextError::Message(m) => m@,
            AgentContextError::Context { context, .. } => context@,
        }
    }

    /// The text shown for the error.
    pub fn to_text(&self) -> (r: String)
        ensures
            r@ == self.shown(),
    {
        match self {
            AgentContextError::Message(m) => m.clone(),
            AgentContextError::Context { context, .. } => context.clone(),
        }
    }
}

} // verus!
