use async_openai::types::ChatCompletionRequestMessage;
use async_openai::types::ChatCompletionRequestUserMessage;
use async_openai::types::ChatCompletionRequestUserMessageContent;
use async_openai::types::Role;
use summarizer::build_instruction;
use summarizer::make_request;
use summarizer::MAX_TOKENS;
use summarizer::MODEL;
use summarizer::PROMPT_PREFIX;

fn user_turn(text: &str) -> ChatCompletionRequestMessage {
    ChatCompletionRequestMessage::User(ChatCompletionRequestUserMessage {
        content: Some(ChatCompletionRequestUserMessageContent::Text(text.to_string())),
        role: Role::User,
        name: None,
    })
}

#[test]
fn fixed_parts_have_their_values() {
    assert_eq!(PROMPT_PREFIX, "Summarize the following text:\n\n");
    assert_eq!(PROMPT_PREFIX.chars().count(), 31);
    assert_eq!(MODEL, "gpt-3.5-turbo");
    assert_eq!(MAX_TOKENS, 512);
}

#[test]
fn instruction_is_prefix_then_text() {
    assert_eq!(
        build_instruction("The quick brown fox..."),
        "Summarize the following text:\n\nThe quick brown fox..."
    );
}

#[test]
fn instruction_of_empty_text_is_the_prefix() {
    assert_eq!(build_instruction(""), "Summarize the following text:\n\n");
}

#[test]
fn instruction_keeps_the_text_verbatim() {
    let text = "<b>\"quoted\"</b> & 'single'\n\n\ttabs \\ backslash \u{1F98A} na\u{ef}ve {braces} %s";
    let prompt = build_instruction(text);
    assert!(prompt.starts_with(PROMPT_PREFIX));
    assert_eq!(&prompt[PROMPT_PREFIX.len()..], text);
    assert_eq!(prompt.len(), PROMPT_PREFIX.len() + text.len());
}

#[test]
fn instruction_does_not_truncate_long_text() {
    let text = "lorem ipsum ".repeat(20_000);
    let prompt = build_instruction(&text);
    assert_eq!(prompt.len(), PROMPT_PREFIX.len() + text.len());
    assert!(prompt.ends_with(&text));
}

#[test]
fn request_names_the_fixed_model_and_token_bound() {
    let request = make_request("hello");
    assert_eq!(request.model, "gpt-3.5-turbo");
    assert_eq!(request.max_tokens, Some(512));
}

#[test]
fn request_holds_one_user_turn_with_the_instruction() {
    let request = make_request("The quick brown fox...");
    assert_eq!(
        request.messages,
        vec![user_turn("Summarize the following text:\n\nThe quick brown fox...")]
    );
}

#[test]
fn request_for_empty_text_still_holds_the_prefix() {
    let request = make_request("");
    assert_eq!(request.messages, vec![user_turn("Summarize the following text:\n\n")]);
}

#[test]
fn request_leaves_everything_else_unset() {
    let request = make_request("hello");
    assert_eq!(request.stream, None);
    assert_eq!(request.n, None);
    assert_eq!(request.user, None);
    assert!(request.tools.is_none());
}

#[test]
fn request_text_is_not_escaped() {
    let text = "a \"b\" <c> \\n {d}";
    let request = make_request(text);
    assert_eq!(
        request.messages,
        vec![user_turn("Summarize the following text:\n\na \"b\" <c> \\n {d}")]
    );
}
