//! Building the one outbound request of an exchange.

use crate::openai::chat_request;
use crate::openai::request_max_tokens;
use crate::openai::request_model;
use crate::openai::request_user_texts;
use crate::openai::user_message;
use crate::prompt::build_instruction;
use crate::prompt::instruction;
use crate::prompt::MAX_TOKENS;
use crate::prompt::MODEL;
use async_openai::types::ChatCompletionRequestMessage;
use async_openai::types::CreateChatCompletionRequest;
use vstd::prelude::*;

verus! {

/// True of the request that summarizes `text`: the fixed model, the fixed token
/// bound, and a single message, the user turn that carries the instruction.
pub open spec fn is_summary_request(request: CreateChatCompletionRequest, text: Seq<char>) -> bool {
    &&& request_model(request) == MODEL@
    &&& request_max_tokens(request) == Some(MAX_TOKENS)
    &&& request_user_texts(request) == seq![Some(instruction(text))]
}

/// Turns a submitted text into the request for the completion API: the
/// summary request for `text`.
pub fn make_request(text: &str) -> (request: CreateChatCompletionRequest)
    ensures
        is_summary_request(request, text@),
{
    let message = user_message(build_instruction(text)).unwrap();
    let mut messages: Vec<ChatCompletionRequestMessage> = Vec::new();
    messages.push(message);
    let request = chat_request(MODEL, MAX_TOKENS, messages).unwrap();
    assert(request_user_texts(request) =~= seq![Some(instruction(text@))]);
    request
}

} // verus!
