//! The events and messages exchanged with a language-model provider.  The
//! network client that produces the events lives outside this crate; the
//! state machine that consumes them is [`streaming`](crate::streaming).

use vstd::prelude::*;

verus! {

/// Events emitted while a response streams in.
#[derive(Debug, Clone)]
pub enum LlmEvent {
    /// Text delta from the streaming response.
    TextDelta(String),
    /// Complete response item.
    ResponseComplete(String),
    /// Reasoning content.
    ReasoningDelta(String),
    /// Stream completed.
    StreamComplete,
    /// Error occurred.
    Error(String),
}

/// One message of the conversation sent to the model.
#[derive(Debug, Clone)]
pub struct LlmMessage {
    /// The speaker: `user`, `assistant` or `system`.
    pub role: String,
    /// The message text.
    pub content: String,
}

} // verus!
