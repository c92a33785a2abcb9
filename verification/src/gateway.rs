//! The course of one chat request through the gateway.
//!
//! A request is decided in three steps, and between them the server does the
//! work that no function here can do. `receive_request` checks the sender, its
//! rate limit and the request, and either answers or asks for the call to the
//! provider. `upstream_returned` takes what came back and either answers or
//! asks for the usage to be recorded. `usage_recorded` takes the outcome of
//! that and answers. Every answer comes with what is to be logged of it.

use vstd::prelude::*;
use crate::diagnostics::{Diagnostic, DiagnosticView};
use crate::limiter::{admits, after_request, RateLimiter};
use crate::reply::{assistant_content, json_document, reply_content};
use crate::request::{
    count_tokens, message_views, total_tokens, validation, ChatRequest, ChatRequestView, Message,
    MessageView, ValidationError,
};
use crate::response::{
    completion, completion_response, invalid_request, invalid_request_response, too_many_requests,
    too_many_requests_response, too_many_requests_text, unknown_client, unknown_client_response,
    unknown_client_text, upstream_failure, upstream_failure_response, upstream_failure_text,
    BodyView, Response, ResponseView,
};
use crate::text::{count_tokens_str, optional_text, token_count};

verus! {

/// The end of a request: the answer, what is logged of it, and whether the
/// answer itself is logged too.
#[derive(Debug, Clone, PartialEq, Eq)]
pub struct Reply {
    pub response: Response,
    pub diagnostic: Diagnostic,
    pub log_body: bool,
}

/// What a `Reply` holds, as mathematical text.
pub struct ReplyView {
    pub response: ResponseView,
    pub diagnostic: DiagnosticView,
    pub log_body: bool,
}

impl View for Reply {
    type V = ReplyView;

    open spec fn view(&self) -> ReplyView {
        ReplyView {
            response: self.response@,
            diagnostic: self.diagnostic@,
            log_body: self.log_body,
        }
    }
}

/// The call to the provider that a request asks for: the model and the
/// messages to send, never streamed, with what is kept of the request until
/// the call returns.
#[derive(Debug, Clone, PartialEq, Eq)]
pub struct UpstreamCall {
    pub client: String,
    pub model: String,
    pub messages: Vec<Message>,
    pub stream: bool,
    pub conversation_id: String,
    pub input_tokens: usize,
}

/// What an `UpstreamCall` holds, as mathematical text.
pub struct UpstreamCallView {
    pub client: Seq<char>,
    pub model: Seq<char>,
    pub messages: Seq<MessageView>,
    pub stream: bool,
    pub conversation_id: Seq<char>,
    pub input_tokens: nat,
}

impl View for UpstreamCall {
    type V = UpstreamCallView;

    open spec fn view(&self) -> UpstreamCallView {
        UpstreamCallView {
            client: self.client@,
            model: self.model@,
            messages: message_views(self.messages@),
            stream: self.stream,
            conversation_id: self.conversation_id@,
            input_tokens: self.input_tokens as nat,
        }
    }
}

/// The usage of a completed call, which is to be recorded for its client
/// before the answer goes out, with what the answer will hold.
#[derive(Debug, Clone, PartialEq, Eq)]
pub struct UsageUpdate {
    pub client: String,
    pub model: String,
    pub conversation_id: String,
    pub content: String,
    pub input_tokens: usize,
    pub output_tokens: usize,
}

/// What a `UsageUpdate` holds, as mathematical text.
pub struct UsageUpdateView {
    pub client: Seq<char>,
    pub model: Seq<char>,
    pub conversation_id: Seq<char>,
    pub content: Seq<char>,
    pub input_tokens: nat,
    pub output_tokens: nat,
}

impl View for UsageUpdate {
    type V = UsageUpdateView;

    open spec fn view(&self) -> UsageUpdateView {
        UsageUpdateView {
            client: self.client@,
            model: self.model@,
            conversation_id: self.conversation_id@,
            content: self.content@,
            input_tokens: self.input_tokens as nat,
            output_tokens: self.output_tokens as nat,
        }
    }
}

/// What follows the arrival of a request.
#[derive(Debug, Clone, PartialEq, Eq)]
pub enum Received {
    /// The request is refused.
    Respond(Reply),
    /// The provider is to be called.
    CallUpstream(UpstreamCall),
}

/// What a `Received` holds, as mathematical text.
pub enum ReceivedView {
    Respond(ReplyView),
    CallUpstream(UpstreamCallView),
}

impl View for Received {
    type V = ReceivedView;

    open spec fn view(&self) -> ReceivedView {
        match self {
            Received::Respond(reply) => ReceivedView::Respond(reply@),
            Received::CallUpstream(call) => ReceivedView::CallUpstream(call@),
        }
    }
}

/// How the call to the provider ended.
#[derive(Debug, Clone, PartialEq, Eq)]
pub enum UpstreamOutcome {
    /// The call did not go through.
    Failed,
    /// The provider replied with this body.
    Replied(Vec<u8>),
}

/// What follows the return of the call to the provider.
#[derive(Debug, Clone, PartialEq, Eq)]
pub enum Returned {
    /// The call failed, and the request ends.
    Respond(Reply),
    /// The call is complete, and its usage is to be recorded.
    RecordUsage(UsageUpdate),
}

/// What a `Returned` holds, as mathematical text.
pub enum ReturnedView {
    Respond(ReplyView),
    RecordUsage(UsageUpdateView),
}

impl View for Returned {
    type V = ReturnedView;

    open spec fn view(&self) -> ReturnedView {
        match self {
            Returned::Respond(reply) => ReturnedView::Respond(reply@),
            Returned::RecordUsage(update) => ReturnedView::RecordUsage(update@),
        }
    }
}

/// What follows the attempt to record the usage.
#[derive(Debug, Clone, PartialEq, Eq)]
pub enum Concluded {
    /// The usage is recorded, and the completion goes out.
    Respond(Reply),
    /// The usage could not be recorded: the request fails without an answer
    /// of its own.
    Fail,
}

/// What a `Concluded` holds, as mathematical text.
pub enum ConcludedView {
    Respond(ReplyView),
    Fail,
}

impl View for Concluded {
    type V = ConcludedView;

    open spec fn view(&self) -> ConcludedView {
        match self {
            Concluded::Respond(reply) => ConcludedView::Respond(reply@),
            Concluded::Fail => ConcludedView::Fail,
        }
    }
}

/// The status that is logged for a completed request.
pub open spec fn completed_text() -> Seq<char> {
    "Ok"@
}

/// The reply to a request that is refused before the provider is called: no
/// tokens are counted and no model is named in the log.
pub open spec fn refusal(
    response: ResponseView,
    client: Option<Seq<char>>,
    status: Seq<char>,
) -> ReplyView {
    ReplyView {
        response,
        diagnostic: DiagnosticView {
            client,
            status,
            input_tokens: 0,
            output_tokens: 0,
            model: Seq::empty(),
        },
        log_body: false,
    }
}

/// What follows the arrival of `request` from `client`, which the rate
/// limiter has admitted or not. A request whose sender is unknown is refused
/// first, then one whose sender is over its limit, then one that breaks a
/// rule. Any other asks for the provider, with its input tokens counted.
pub open spec fn reception(
    client: Option<Seq<char>>,
    admitted: bool,
    request: ChatRequestView,
) -> ReceivedView {
    match client {
        None => ReceivedView::Respond(refusal(unknown_client(), None, unknown_client_text())),
        Some(c) => if !admitted {
            ReceivedView::Respond(refusal(too_many_requests(), Some(c), too_many_requests_text()))
        } else {
            match validation(request) {
                Err(error) => ReceivedView::Respond(
                    refusal(invalid_request(error), Some(c), error.text()),
                ),
                Ok(_) => ReceivedView::CallUpstream(
                    UpstreamCallView {
                        client: c,
                        model: request.model,
                        messages: request.messages,
                        stream: false,
                        conversation_id: request.conversation_id,
                        input_tokens: total_tokens(request.messages),
                    },
                ),
            }
        },
    }
}

/// The reply when the call to the provider failed: the input tokens are
/// logged, and no output.
pub open spec fn failure(call: UpstreamCallView) -> ReplyView {
    ReplyView {
        response: upstream_failure(),
        diagnostic: DiagnosticView {
            client: Some(call.client),
            status: upstream_failure_text(),
            input_tokens: call.input_tokens,
            output_tokens: 0,
            model: call.model,
        },
        log_body: false,
    }
}

/// What follows the return of the call, from which `content` was read: a
/// failure where nothing could be read, else the usage to record, with the
/// output tokens counted.
pub open spec fn completion_of(call: UpstreamCallView, content: Option<Seq<char>>) -> ReturnedView {
    match content {
        None => ReturnedView::Respond(failure(call)),
        Some(text) => ReturnedView::RecordUsage(
            UsageUpdateView {
                client: call.client,
                model: call.model,
                conversation_id: call.conversation_id,
                content: text,
                input_tokens: call.input_tokens,
                output_tokens: token_count(text),
            },
        ),
    }
}

/// The assistant's text in what the provider returned: none where the call
/// failed or the body is no JSON document.
pub open spec fn returned_content(body: Option<Seq<u8>>) -> Option<Seq<char>> {
    match body {
        None => None,
        Some(bytes) => match json_document(bytes) {
            Some(texts) => Some(assistant_content(texts)),
            None => None,
        },
    }
}

/// What follows the attempt to record the usage: the completion, logged as
/// `Ok` with both token counts and the model, and with its body where the
/// call was slow; or failure where the usage was not recorded.
pub open spec fn conclusion(update: UsageUpdateView, recorded: bool, slow: bool) -> ConcludedView {
    if recorded {
        ConcludedView::Respond(
            ReplyView {
                response: completion(
                    update.content,
                    update.conversation_id,
                    update.input_tokens,
                    update.output_tokens,
                ),
                diagnostic: DiagnosticView {
                    client: Some(update.client),
                    status: completed_text(),
                    input_tokens: update.input_tokens,
                    output_tokens: update.output_tokens,
                    model: update.model,
                },
                log_body: slow,
            },
        )
    } else {
        ConcludedView::Fail
    }
}

fn refuse(response: Response, client: Option<&str>, status: String) -> (reply: Reply)
    ensures
        reply@ == refusal(response@, optional_text(client), status@),
{
    let client = match client {
        Some(c) => Some(c.to_owned()),
        None => None,
    };
    Reply {
        response,
        diagnostic: Diagnostic {
            client,
            status,
            input_tokens: 0,
            output_tokens: 0,
            model: String::new(),
        },
        log_body: false,
    }
}

/// Takes a request in. A request from a known client goes to the rate
/// limiter and is counted there if it is admitted, whatever becomes of it
/// afterwards; one from an unknown sender leaves the limiter as it is.
pub fn receive_request(
    limiter: &mut RateLimiter,
    client: Option<&str>,
    request: ChatRequest,
    now: u128,
) -> (next: Received)
    requires
        total_tokens(request@.messages) <= usize::MAX,
    ensures
        final(limiter).limit() == old(limiter).limit(),
        final(limiter).window() == old(limiter).window(),
        final(limiter).windows() == match client {
            Some(c) => old(limiter).windows().insert(
                c@,
                after_request(old(limiter).window_of(c@), old(limiter).limit(), old(limiter).window(), now),
            ),
            None => old(limiter).windows(),
        },
        next@ == reception(
            optional_text(client),
            client matches Some(c) && admits(
                old(limiter).window_of(c@),
                old(limiter).limit(),
                old(limiter).window(),
                now,
            ),
            request@,
        ),
{
    let sender = match client {
        Some(c) => c,
        None => {
            return Received::Respond(
                refuse(unknown_client_response(), None, "Unable to determine client IP".to_owned()),
            );
        },
    };
    if !limiter.check_rate_limit(sender, now) {
        return Received::Respond(
            refuse(too_many_requests_response(), client, "Too Many Requests".to_owned()),
        );
    }
    match request.validate() {
        Err(error) => Received::Respond(
            refuse(invalid_request_response(error), client, error.message()),
        ),
        Ok(_) => {
            let input_tokens = count_tokens(&request.messages);
            Received::CallUpstream(
                UpstreamCall {
                    client: sender.to_owned(),
                    model: request.model,
                    messages: request.messages,
                    stream: false,
                    conversation_id: request.conversation_id,
                    input_tokens,
                },
            )
        },
    }
}

/// Goes on with a call from which `content` was read: `None` where the call
/// failed or its reply could not be read.
pub fn content_returned(call: UpstreamCall, content: Option<String>) -> (next: Returned)
    ensures
        next@ == completion_of(
            call@,
            match content {
                Some(text) => Some(text@),
                None => None,
            },
        ),
{
    match content {
        Some(text) => {
            let output_tokens = count_tokens_str(text.as_str());
            Returned::RecordUsage(
                UsageUpdate {
                    client: call.client,
                    model: call.model,
                    conversation_id: call.conversation_id,
                    content: text,
                    input_tokens: call.input_tokens,
                    output_tokens,
                },
            )
        },
        None => Returned::Respond(
            Reply {
                response: upstream_failure_response(),
                diagnostic: Diagnostic {
                    client: Some(call.client),
                    status: "Internal Server Error".to_owned(),
                    input_tokens: call.input_tokens,
                    output_tokens: 0,
                    model: call.model,
                },
                log_body: false,
            },
        ),
    }
}

/// Goes on after the call to the provider has returned. The assistant's text
/// is read out of the body of the reply; a call that failed, or a reply that
/// is no JSON document, ends the request.
pub fn upstream_returned(call: UpstreamCall, outcome: UpstreamOutcome) -> (next: Returned)
    ensures
        next@ == completion_of(
            call@,
            returned_content(
                match outcome {
                    UpstreamOutcome::Replied(body) => Some(body@),
                    UpstreamOutcome::Failed => None,
                },
            ),
        ),
{
    let content = match outcome {
        UpstreamOutcome::Replied(body) => reply_content(body.as_slice()),
        UpstreamOutcome::Failed => None,
    };
    content_returned(call, content)
}

/// Goes on after the attempt to record the usage. `slow` says whether the
/// request has taken longer than is usual.
pub fn usage_recorded(update: UsageUpdate, recorded: bool, slow: bool) -> (next: Concluded)
    ensures
        next@ == conclusion(update@, recorded, slow),
{
    if !recorded {
        return Concluded::Fail;
    }
    Concluded::Respond(
        Reply {
            response: completion_response(
                update.content,
                update.conversation_id,
                update.input_tokens,
                update.output_tokens,
            ),
            diagnostic: Diagnostic {
                client: Some(update.client),
                status: "Ok".to_owned(),
                input_tokens: update.input_tokens,
                output_tokens: update.output_tokens,
                model: update.model,
            },
            log_body: slow,
        },
    )
}

/// The provider is called for a request exactly when its sender is known and
/// within its limit and the request breaks no rule. Every other request is
/// answered at once: a request that breaks a rule never reaches the provider.
pub proof fn lemma_called_iff_accepted(
    client: Option<Seq<char>>,
    admitted: bool,
    request: ChatRequestView,
)
    ensures
        reception(client, admitted, request) is CallUpstream <==> (client is Some && admitted
            && validation(request) is Ok),
        reception(client, admitted, request) is Respond <==> (client is None || !admitted
            || validation(request) is Err),
{
}

/// A request that breaks a rule, from a sender within its limit, is answered
/// with status 400 and the sentence of the first rule that it breaks.
pub proof fn lemma_invalid_request_is_refused(
    client: Seq<char>,
    request: ChatRequestView,
    error: ValidationError,
)
    requires
        validation(request) == Err::<(), ValidationError>(error),
    ensures
        reception(Some(client), true, request) == ReceivedView::Respond(
            refusal(invalid_request(error), Some(client), error.text()),
        ),
        invalid_request(error).status.spec_code() == 400,
        invalid_request(error).body == (BodyView::Error { error: error.text() }),
{
}

/// A request that breaks no rule, from a sender within its limit, to which
/// the provider replies with a JSON document, runs to its completion: the
/// usage to record and the answer both hold the tokens of all its messages as
/// input and the tokens of the assistant's text as output, and the answer
/// holds that text and the conversation identifier of the request.
pub proof fn lemma_accepted_request_completes(
    client: Seq<char>,
    request: ChatRequestView,
    body: Seq<u8>,
    slow: bool,
)
    requires
        validation(request) is Ok,
        json_document(body) is Some,
    ensures
        ({
            let content = assistant_content(json_document(body)->0);
            let input = total_tokens(request.messages);
            let output = token_count(content);
            &&& reception(Some(client), true, request) matches ReceivedView::CallUpstream(call)
            &&& completion_of(call, returned_content(Some(body))) matches ReturnedView::RecordUsage(
                update,
            )
            &&& update.client == client
            &&& update.input_tokens == input
            &&& update.output_tokens == output
            &&& conclusion(update, true, slow) matches ConcludedView::Respond(reply)
            &&& reply.response == completion(content, request.conversation_id, input, output)
            &&& reply.response.status.spec_code() == 200
            &&& reply.log_body == slow
        }),
{
}

} // verus!
