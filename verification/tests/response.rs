use async_openai::types::ChatChoice;
use async_openai::types::ChatCompletionResponseMessage;
use async_openai::types::CreateChatCompletionResponse;
use async_openai::types::Role;
use summarizer::extract_response;
use summarizer::first_content;
use summarizer::ExtractError;

#[allow(deprecated)]
fn response_with(contents: Vec<Option<&str>>) -> CreateChatCompletionResponse {
    let choices = contents
        .into_iter()
        .enumerate()
        .map(|(index, content)| ChatChoice {
            index: index as u32,
            message: ChatCompletionResponseMessage {
                content: content.map(|text| text.to_string()),
                tool_calls: None,
                role: Role::Assistant,
                function_call: None,
            },
            finish_reason: None,
        })
        .collect();
    CreateChatCompletionResponse {
        id: "chatcmpl-1".to_string(),
        choices,
        created: 0,
        model: "gpt-3.5-turbo".to_string(),
        system_fingerprint: None,
        object: "chat.completion".to_string(),
        usage: None,
    }
}

#[test]
fn first_content_of_no_choices_is_an_error() {
    assert_eq!(first_content(vec![]), Err(ExtractError::NoChoices));
}

#[test]
fn first_content_of_an_absent_content_is_an_error() {
    assert_eq!(first_content(vec![None]), Err(ExtractError::NoContent));
}

#[test]
fn first_content_ignores_later_choices() {
    assert_eq!(
        first_content(vec![Some("first".to_string()), Some("second".to_string())]),
        Ok("first".to_string())
    );
    assert_eq!(
        first_content(vec![None, Some("second".to_string())]),
        Err(ExtractError::NoContent)
    );
    assert_eq!(first_content(vec![Some("only".to_string()), None]), Ok("only".to_string()));
}

#[test]
fn first_content_may_be_empty_text() {
    assert_eq!(first_content(vec![Some(String::new())]), Ok(String::new()));
}

#[test]
fn extract_takes_the_content_of_the_first_choice() {
    let response = response_with(vec![Some("A fox runs."), Some("Another take.")]);
    assert_eq!(extract_response(response), Ok("A fox runs.".to_string()));
}

#[test]
fn extract_reads_every_choice_in_order() {
    let response = response_with(vec![Some("one"), None, Some("three")]);
    assert_eq!(extract_response(response), Ok("one".to_string()));
    let response = response_with(vec![None, Some("two"), Some("three")]);
    assert_eq!(extract_response(response), Err(ExtractError::NoContent));
}

#[test]
fn extract_of_zero_choices_is_no_choices() {
    assert_eq!(extract_response(response_with(vec![])), Err(ExtractError::NoChoices));
}

#[test]
fn extract_of_absent_content_is_no_content() {
    assert_eq!(extract_response(response_with(vec![None])), Err(ExtractError::NoContent));
}

#[test]
fn extract_errors_are_distinct_and_carry_their_texts() {
    assert_ne!(ExtractError::NoChoices, ExtractError::NoContent);
    assert_eq!(ExtractError::NoChoices.message(), "no choices in response");
    assert_eq!(ExtractError::NoContent.message(), "no content in message");
}
