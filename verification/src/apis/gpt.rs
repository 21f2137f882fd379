//! The chat request sent for one step of the chain, and the reading of its
//! answer.

use vstd::prelude::*;

verus! {

/// A chat completion request: a system prompt and one user message.
pub struct ChatRequest {
    pub model: String,
    pub system: String,
    pub user: String,
}

/// Why a step of the chain has no text.
#[derive(PartialEq, Eq, Debug)]
pub enum GptError {
    /// The first choice holds no message text, or there is no choice.
    NoResponse,
}

/// The model the chain asks.
pub open spec fn chain_model() -> Seq<char> {
    "gpt-4o-mini"@
}

/// Builds the request for one step: the prompt file's text as the system
/// message, the input as the user message, for `gpt-4o-mini`.
pub fn generate_from_gpt(system_prompt: String, json_str: &str) -> (r: ChatRequest)
    ensures
        r.model@ == chain_model(),
        r.system@ == system_prompt@,
        r.user@ == json_str@,
{
    ChatRequest { model: String::from_str("gpt-4o-mini"), system: system_prompt, user: String::from_str(json_str) }
}

/// The text of the first choice of an answer, given the message texts of
/// its choices in order.
pub fn first_reply(contents: Vec<Option<String>>) -> (r: Result<String, GptError>)
    ensures
        contents@.len() > 0 && contents@[0] is Some ==> (r matches Ok(t) && t@ == contents@[0]->0@),
        !(contents@.len() > 0 && contents@[0] is Some) ==> r == Err::<String, GptError>(GptError::NoResponse),
{
    let mut contents = contents;
    if contents.len() == 0 {
        return Err(GptError::NoResponse);
    }
    let first = contents.swap_remove(0);
    match first {
        Some(t) => Ok(t),
        None => Err(GptError::NoResponse),
    }
}

} // verus!
