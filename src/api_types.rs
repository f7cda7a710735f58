use vstd::prelude::*;

verus! {

/// One event of a streamed chat completion.
pub struct StreamChunk {
    pub choices: Vec<Choice>,
}

/// A choice of a streamed completion event.
pub struct Choice {
    pub delta: Delta,
}

/// The text a streamed event adds, if any.
pub struct Delta {
    pub content: Option<String>,
}

/// A complete (non-streamed) chat completion.
pub struct ChatCompletionResponse {
    pub choices: Vec<ChatChoice>,
}

/// A choice of a complete chat completion.
pub struct ChatChoice {
    pub message: ChatMessage,
}

/// The message of a complete chat completion.
pub struct ChatMessage {
    pub content: String,
}

} // verus!
