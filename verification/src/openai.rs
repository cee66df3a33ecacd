//! The boundary with the `async-openai` crate.
//!
//! The request and response types of that crate are opaque here. What the
//! gateway needs to know of them is named by the spec functions below, and the
//! functions that build or read such values are believed, not proved: their
//! contracts restate what the crate's source shows.

use async_openai::error::OpenAIError;
use async_openai::types::ChatCompletionRequestMessage;
use async_openai::types::ChatCompletionRequestUserMessageArgs;
use async_openai::types::CreateChatCompletionRequest;
use async_openai::types::CreateChatCompletionRequestArgs;
use async_openai::types::CreateChatCompletionResponse;
use vstd::prelude::*;

verus! {

/// `async_openai::types::CreateChatCompletionRequest`, carried as an opaque value.
#[verifier::external_type_specification]
#[verifier::external_body]
pub struct ExCreateChatCompletionRequest(CreateChatCompletionRequest);

/// `async_openai::types::ChatCompletionRequestMessage`, carried as an opaque value.
#[verifier::external_type_specification]
#[verifier::external_body]
pub struct ExChatCompletionRequestMessage(ChatCompletionRequestMessage);

/// `async_openai::types::CreateChatCompletionResponse`, carried as an opaque value.
#[verifier::external_type_specification]
#[verifier::external_body]
pub struct ExCreateChatCompletionResponse(CreateChatCompletionResponse);

/// `async_openai::error::OpenAIError`, carried as an opaque value.
#[verifier::external_type_specification]
#[verifier::external_body]
pub struct ExOpenAIError(OpenAIError);

/// The characters of a request's `model` field.
pub uninterp spec fn request_model(request: CreateChatCompletionRequest) -> Seq<char>;

/// A request's `max_tokens` field.
pub uninterp spec fn request_max_tokens(request: CreateChatCompletionRequest) -> Option<u16>;

/// A request's `messages`, in order, each read by [`user_message_text`].
pub uninterp spec fn request_user_texts(request: CreateChatCompletionRequest) -> Seq<
    Option<Seq<char>>,
>;

/// What a message says as a user turn: the text, where the message is the `User`
/// variant and its content is plain text.
pub uninterp spec fn user_message_text(message: ChatCompletionRequestMessage) -> Option<Seq<char>>;

/// A response's `choices`, in order, each by the `content` of its message.
pub uninterp spec fn choice_contents(response: CreateChatCompletionResponse) -> Seq<
    Option<Seq<char>>,
>;

/// Calls `ChatCompletionRequestUserMessageArgs::default().content(..).build()` and
/// wraps the message in `ChatCompletionRequestMessage::User`.
///
/// Believed: the builder succeeds, and the message is a user turn whose content
/// is exactly `content` as plain text. The builder is derived with a default for
/// every field and without a validation function, so its `build` has no path
/// that returns an error.
#[verifier::external_body]
pub(crate) fn user_message(content: String) -> (built: Result<
    ChatCompletionRequestMessage,
    OpenAIError,
>)
    ensures
        built is Ok,
        built matches Ok(message) ==> user_message_text(message) == Some(content@),
{
    let message = ChatCompletionRequestUserMessageArgs::default().content(content).build()?;
    Ok(message.into())
}

/// Calls `CreateChatCompletionRequestArgs::default()`, its setters `max_tokens`,
/// `model` and `messages`, and `build()`.
///
/// Believed: the builder succeeds, and the request holds the given model, the
/// given bound as `Some`, and the given messages in the given order. The builder
/// is derived with a default for every field and without a validation function,
/// so its `build` has no path that returns an error.
#[verifier::external_body]
pub(crate) fn chat_request(
    model: &str,
    max_tokens: u16,
    messages: Vec<ChatCompletionRequestMessage>,
) -> (built: Result<CreateChatCompletionRequest, OpenAIError>)
    ensures
        built is Ok,
        built matches Ok(request) ==> {
            &&& request_model(request) == model@
            &&& request_max_tokens(request) == Some(max_tokens)
            &&& request_user_texts(request) == messages@.map_values(
                |message: ChatCompletionRequestMessage| user_message_text(message),
            )
        },
{
    CreateChatCompletionRequestArgs::default()
        .max_tokens(max_tokens)
        .model(model)
        .messages(messages)
        .build()
}

/// Reads the public fields `choices`, `message` and `content` of a response.
///
/// Believed: the result lists the content of every choice, in the order of
/// `choices`.
#[verifier::external_body]
pub(crate) fn into_choice_contents(response: CreateChatCompletionResponse) -> (contents: Vec<
    Option<String>,
>)
    ensures
        contents.deep_view() == choice_contents(response),
{
    response.choices.into_iter().map(|choice| choice.message.content).collect()
}

} // verus!
