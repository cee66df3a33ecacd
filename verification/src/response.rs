//! Reading the answer of the completion API.

use crate::openai::choice_contents;
use crate::openai::into_choice_contents;
use async_openai::types::CreateChatCompletionResponse;
use vstd::prelude::*;

verus! {

/// Why a response that arrived holds no summary.
#[derive(Debug, Clone, Copy, PartialEq, Eq, Structural)]
pub enum ExtractError {
    /// The response lists no choice at all.
    NoChoices,
    /// The first choice is there, but its message has no content.
    NoContent,
}

impl ExtractError {
    /// The diagnostic text of this error, as it is reported to the log.
    pub open spec fn message_text(self) -> Seq<char> {
        match self {
            ExtractError::NoChoices => "no choices in response"@,
            ExtractError::NoContent => "no content in message"@,
        }
    }

    /// Returns the diagnostic text of this error.
    pub fn message(&self) -> (text: &'static str)
        ensures
            text@ == self.message_text(),
    {
        match self {
            ExtractError::NoChoices => "no choices in response",
            ExtractError::NoContent => "no content in message",
        }
    }
}

/// The summary that a list of choice contents yields: the content of the first
/// choice. An empty list and a first choice without content are two distinct
/// errors; what later choices hold never matters.
pub open spec fn first_content_of(contents: Seq<Option<Seq<char>>>) -> Result<
    Seq<char>,
    ExtractError,
> {
    if contents.len() == 0 {
        Err(ExtractError::NoChoices)
    } else {
        match contents[0] {
            Some(text) => Ok(text),
            None => Err(ExtractError::NoContent),
        }
    }
}

/// An extraction result with its text taken as a sequence of characters.
pub open spec fn extracted(result: Result<String, ExtractError>) -> Result<
    Seq<char>,
    ExtractError,
> {
    match result {
        Ok(text) => Ok(text@),
        Err(error) => Err(error),
    }
}

/// Picks the summary out of the contents of a response's choices.
pub fn first_content(contents: Vec<Option<String>>) -> (result: Result<String, ExtractError>)
    ensures
        extracted(result) == first_content_of(contents.deep_view()),
{
    let mut contents = contents;
    if contents.len() == 0 {
        return Err(ExtractError::NoChoices);
    }
    match contents.remove(0) {
        Some(text) => Ok(text),
        None => Err(ExtractError::NoContent),
    }
}

/// Extracts the summary from a response of the completion API: the content of
/// its first choice.
pub fn extract_response(response: CreateChatCompletionResponse) -> (result: Result<
    String,
    ExtractError,
>)
    ensures
        extracted(result) == first_content_of(choice_contents(response)),
{
    first_content(into_choice_contents(response))
}

} // verus!
