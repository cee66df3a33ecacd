//! What holds of the gateway as a whole, proved from the contracts of its parts.

use crate::openai::choice_contents;
use crate::openai::request_max_tokens;
use crate::openai::request_model;
use crate::openai::request_user_texts;
use crate::page::index_reply;
use crate::page::page_of;
use crate::prompt::instruction;
use crate::prompt::MODEL;
use crate::prompt::PROMPT_PREFIX;
use crate::reply::server_error;
use crate::response::ExtractError;
use crate::summarize::follows;
use crate::summarize::Action;
use crate::summarize::Event;
use crate::summarize::Failure;
use crate::summarize::Stage;
use crate::summarize::Step;
use crate::summarize::SummarizeRequest;
use async_openai::error::OpenAIError;
use async_openai::types::CreateChatCompletionResponse;
use vstd::prelude::*;
use vstd::utf8::encode_utf8;
use vstd::utf8::valid_utf8;

verus! {

/// The instruction is the prefix followed by the submitted text, verbatim:
/// nothing is cut off and no character is changed.
pub proof fn law_instruction_is_verbatim(text: Seq<char>)
    ensures
        instruction(text).len() == PROMPT_PREFIX@.len() + text.len(),
        instruction(text).take(PROMPT_PREFIX@.len() as int) == PROMPT_PREFIX@,
        instruction(text).skip(PROMPT_PREFIX@.len() as int) == text,
        PROMPT_PREFIX@.len() == 31,
{
    reveal_strlit("Summarize the following text:\n\n");
    assert(instruction(text).take(PROMPT_PREFIX@.len() as int) =~= PROMPT_PREFIX@);
    assert(instruction(text).skip(PROMPT_PREFIX@.len() as int) =~= text);
}

/// Whatever text is submitted, the handler asks for a call, and the request to
/// be sent holds one message: the user turn whose text is the prefix followed by
/// the submitted text. It names the fixed model and the bound of 512 tokens.
pub proof fn law_submitted_text_is_sent_verbatim(form: SummarizeRequest, step: Step)
    requires
        follows(Stage::Received, Event::Submitted(form), step),
    ensures
        step.action is Call,
        request_user_texts(step.action->Call_0) == seq![Some(PROMPT_PREFIX@ + form.text@)],
        request_model(step.action->Call_0) == MODEL@,
        request_max_tokens(step.action->Call_0) == Some(512u16),
        step.stage == Stage::Calling,
{
}

/// A response whose first choice has content is answered with status 200 and
/// exactly that content as the body.
pub proof fn law_first_content_is_served(response: CreateChatCompletionResponse, step: Step)
    requires
        follows(Stage::Calling, Event::Completed(Ok(response)), step),
        choice_contents(response).len() > 0,
        choice_contents(response)[0] is Some,
    ensures
        step.stage == Stage::Succeeded,
        step.action is Respond,
        (step.action->Respond_0)@.status == 200,
        (step.action->Respond_0)@.body == choice_contents(response)[0]->Some_0,
{
}

/// A response without choices is answered with the server error, never with a
/// success.
pub proof fn law_no_choices_is_server_error(response: CreateChatCompletionResponse, step: Step)
    requires
        follows(Stage::Calling, Event::Completed(Ok(response)), step),
        choice_contents(response).len() == 0,
    ensures
        step.stage == Stage::Failed(Failure::Response(ExtractError::NoChoices)),
        step.action is Respond,
        (step.action->Respond_0)@ == server_error(),
        (step.action->Respond_0)@.status == 500,
{
}

/// A response whose first choice has no content is answered with the server
/// error, whatever the other choices hold.
pub proof fn law_absent_content_is_server_error(response: CreateChatCompletionResponse, step: Step)
    requires
        follows(Stage::Calling, Event::Completed(Ok(response)), step),
        choice_contents(response).len() > 0,
        choice_contents(response)[0] is None,
    ensures
        step.stage == Stage::Failed(Failure::Response(ExtractError::NoContent)),
        step.action is Respond,
        (step.action->Respond_0)@ == server_error(),
        (step.action->Respond_0)@.status == 500,
{
}

/// A failed call is answered with the server error. The step asks for no
/// further call, and the failure's detail stays out of the reply.
pub proof fn law_upstream_failure_is_server_error(error: OpenAIError, step: Step)
    requires
        follows(Stage::Calling, Event::Completed(Err(error)), step),
    ensures
        step.stage == Stage::Failed(Failure::Upstream(error)),
        step.action is Respond,
        (step.action->Respond_0)@ == server_error(),
        (step.action->Respond_0)@.status == 500,
        (step.action->Respond_0)@.body.len() == 0,
{
}

/// A final stage is never left: every event there changes nothing and asks for
/// nothing.
pub proof fn law_final_stage_absorbs(stage: Stage, event: Event, step: Step)
    requires
        stage.is_final(),
        follows(stage, event, step),
    ensures
        step.stage == stage,
        step.action is Idle,
{
}

/// True where `stages`, `events` and `actions` record the steps of one exchange
/// from its start: step `i` is taken in `stages[i]` on `events[i]`, asks for
/// `actions[i]` and leads to `stages[i + 1]`.
pub open spec fn is_run(stages: Seq<Stage>, events: Seq<Event>, actions: Seq<Action>) -> bool {
    &&& stages.len() == events.len() + 1
    &&& actions.len() == events.len()
    &&& stages[0] == Stage::Received
    &&& forall|i: int|
        0 <= i < events.len() ==> follows(
            stages[i],
            #[trigger] events[i],
            Step { stage: stages[i + 1], action: actions[i] },
        )
}

/// The number of calls that `actions` ask for.
pub open spec fn calls(actions: Seq<Action>) -> nat
    decreases actions.len(),
{
    if actions.len() == 0 {
        0
    } else {
        calls(actions.drop_last()) + if actions.last() is Call {
            1nat
        } else {
            0nat
        }
    }
}

/// The number of replies that `actions` ask for.
pub open spec fn replies(actions: Seq<Action>) -> nat
    decreases actions.len(),
{
    if actions.len() == 0 {
        0
    } else {
        replies(actions.drop_last()) + if actions.last() is Respond {
            1nat
        } else {
            0nat
        }
    }
}

/// However an exchange is driven, it asks for at most one call and at most one
/// reply: there is no retry. Before the form is looked at nothing was asked for;
/// while the call is awaited the call is all that was asked for; and once the
/// exchange is over exactly one reply was.
pub proof fn law_one_call_one_reply(stages: Seq<Stage>, events: Seq<Event>, actions: Seq<Action>)
    requires
        is_run(stages, events, actions),
    ensures
        calls(actions) <= 1,
        replies(actions) <= 1,
        stages.last() is Received ==> calls(actions) == 0 && replies(actions) == 0,
        stages.last() is Calling ==> calls(actions) == 1 && replies(actions) == 0,
        stages.last().is_final() ==> replies(actions) == 1,
        stages.last() is Succeeded ==> calls(actions) == 1,
    decreases events.len(),
{
    if events.len() > 0 {
        let n = events.len() - 1;
        let before = stages.drop_last();
        assert(is_run(before, events.drop_last(), actions.drop_last())) by {
            assert forall|i: int| 0 <= i < n implies follows(
                before[i],
                #[trigger] events.drop_last()[i],
                Step { stage: before[i + 1], action: actions.drop_last()[i] },
            ) by {
                assert(follows(
                    stages[i],
                    events[i],
                    Step { stage: stages[i + 1], action: actions[i] },
                ));
            }
        }
        law_one_call_one_reply(before, events.drop_last(), actions.drop_last());
        assert(before.last() == stages[n]);
        assert(follows(
            stages[n],
            events[n],
            Step { stage: stages[n + 1], action: actions[n] },
        ));
    }
}

/// A bundled document that is present and valid UTF-8 is served with status 200,
/// and the body is that document, byte for byte.
pub proof fn law_document_is_served_exactly(bytes: Seq<u8>)
    requires
        valid_utf8(bytes),
    ensures
        index_reply(Some(bytes)).status == 200,
        encode_utf8(index_reply(Some(bytes)).body) == bytes,
        page_of(Some(bytes)) is Ok,
{
    vstd::utf8::decode_utf8_encode_utf8(bytes);
}

/// Without a bundled document, and with one that is not valid UTF-8, the root
/// path is answered with the server error.
pub proof fn law_unusable_document_is_server_error(asset: Option<Seq<u8>>)
    requires
        asset matches Some(bytes) ==> !valid_utf8(bytes),
    ensures
        index_reply(asset) == server_error(),
        index_reply(asset).status == 500,
{
}

} // verus!
