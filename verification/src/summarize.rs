//! The summarization handler as a state machine.
//!
//! The handler itself performs no I/O. It is stepped by whoever owns the
//! connection to the completion API: each step takes the stage the exchange is
//! in and the event that just happened, and answers with the next stage and the
//! action to perform.

use crate::openai::choice_contents;
use crate::reply::server_error;
use crate::reply::success_with;
use crate::reply::Reply;
use crate::request::is_summary_request;
use crate::request::make_request;
use crate::response::extract_response;
use crate::response::first_content_of;
use crate::response::ExtractError;
use async_openai::error::OpenAIError;
use async_openai::types::CreateChatCompletionRequest;
use async_openai::types::CreateChatCompletionResponse;
use vstd::prelude::*;

verus! {

/// The form that a caller submits: the text to summarize, of any length.
#[derive(Debug, Clone, PartialEq, Eq)]
pub struct SummarizeRequest {
    pub text: String,
}

/// Why an exchange failed.
#[derive(Debug)]
pub enum Failure {
    /// The call to the completion API failed.
    Upstream(OpenAIError),
    /// The call returned a response that holds no summary.
    Response(ExtractError),
}

/// Where an exchange stands. `Succeeded` and `Failed` are final.
#[derive(Debug)]
pub enum Stage {
    /// The form has not been looked at yet.
    Received,
    /// The request was handed out; its outcome is awaited.
    Calling,
    /// The summary was sent to the caller.
    Succeeded,
    /// A server error was sent to the caller.
    Failed(Failure),
}

/// What happened since the last step.
#[derive(Debug)]
pub enum Event {
    /// The caller's form arrived.
    Submitted(SummarizeRequest),
    /// The call to the completion API ended, with a response or with an error.
    Completed(Result<CreateChatCompletionResponse, OpenAIError>),
}

/// What the owner of the exchange has to do next.
#[derive(Debug)]
pub enum Action {
    /// Send this request to the completion API, once, and report the outcome.
    Call(CreateChatCompletionRequest),
    /// Send this reply to the caller.
    Respond(Reply),
    /// Do nothing.
    Idle,
}

/// The result of one step.
#[derive(Debug)]
pub struct Step {
    pub stage: Stage,
    pub action: Action,
}

impl Stage {
    /// True of the stages that no event leaves.
    pub open spec fn is_final(self) -> bool {
        self is Succeeded || self is Failed
    }
}

impl Step {
    /// True of a step that ends the exchange in `stage` with the generic server error.
    pub open spec fn fails_with(self, failure: Failure) -> bool {
        &&& self.stage == Stage::Failed(failure)
        &&& self.action matches Action::Respond(reply)
        &&& reply@ == server_error()
    }

    /// True of a step that ends the exchange by sending `summary`.
    pub open spec fn succeeds_with(self, summary: Seq<char>) -> bool {
        &&& self.stage == Stage::Succeeded
        &&& self.action matches Action::Respond(reply)
        &&& reply@ == success_with(summary)
    }
}

/// The steps that the handler may take from `stage` on `event`.
///
/// A submitted form leaves `Received` with the call of the summary request for
/// its text; building the request is part of that step. The outcome of the call
/// leaves `Calling`: with the content of the first choice as the reply's body, or
/// with a server error. An event that does not fit the stage changes nothing and
/// asks for nothing.
pub open spec fn follows(stage: Stage, event: Event, step: Step) -> bool {
    match (stage, event) {
        (Stage::Received, Event::Submitted(form)) => {
            &&& step.stage == Stage::Calling
            &&& step.action matches Action::Call(request)
            &&& is_summary_request(request, form.text@)
        },
        (Stage::Calling, Event::Completed(Ok(response))) => {
            match first_content_of(choice_contents(response)) {
                Ok(summary) => step.succeeds_with(summary),
                Err(error) => step.fails_with(Failure::Response(error)),
            }
        },
        (Stage::Calling, Event::Completed(Err(error))) => {
            step.fails_with(Failure::Upstream(error))
        },
        _ => step.stage == stage && step.action is Idle,
    }
}

/// Maps a failure of the exchange to the reply for the caller: always the
/// generic server error, whatever the failure was.
pub fn openai_error(failure: &Failure) -> (reply: Reply)
    ensures
        reply@ == server_error(),
{
    Reply::failure()
}

/// Takes one step of the summarization handler.
pub fn summarize(stage: Stage, event: Event) -> (step: Step)
    ensures
        follows(stage, event, step),
{
    match (stage, event) {
        (Stage::Received, Event::Submitted(form)) => Step {
            stage: Stage::Calling,
            action: Action::Call(make_request(form.text.as_str())),
        },
        (Stage::Calling, Event::Completed(Ok(response))) => {
            match extract_response(response) {
                Ok(summary) => Step {
                    stage: Stage::Succeeded,
                    action: Action::Respond(Reply::success(summary)),
                },
                Err(error) => fail(Failure::Response(error)),
            }
        },
        (Stage::Calling, Event::Completed(Err(error))) => fail(Failure::Upstream(error)),
        (stage, _) => Step { stage, action: Action::Idle },
    }
}

/// Ends the exchange with `failure`.
fn fail(failure: Failure) -> (step: Step)
    ensures
        step.fails_with(failure),
{
    let reply = openai_error(&failure);
    Step { stage: Stage::Failed(failure), action: Action::Respond(reply) }
}

} // verus!
