//! What the gateway answers: a status and a body, which the server writes
//! out as JSON.

use vstd::prelude::*;
use crate::request::ValidationError;

verus! {

/// The status of an answer.
#[derive(Debug, Clone, Copy, PartialEq, Eq, Structural)]
pub enum Status {
    Success,
    BadRequest,
    NotFound,
    TooManyRequests,
    InternalServerError,
}

impl Status {
    /// The status code that goes over the wire.
    pub open spec fn spec_code(self) -> u16 {
        match self {
            Status::Success => 200,
            Status::BadRequest => 400,
            Status::NotFound => 404,
            Status::TooManyRequests => 429,
            Status::InternalServerError => 500,
        }
    }

    /// The status code that goes over the wire.
    #[verifier::when_used_as_spec(spec_code)]
    pub fn code(self) -> (code: u16)
        ensures
            code == self.spec_code(),
    {
        match self {
            Status::Success => 200,
            Status::BadRequest => 400,
            Status::NotFound => 404,
            Status::TooManyRequests => 429,
            Status::InternalServerError => 500,
        }
    }
}

/// One entry of the model catalogue.
#[derive(Debug, Clone, PartialEq, Eq)]
pub struct Model {
    pub id: String,
    pub name: String,
    pub description: String,
}

/// What a `Model` holds, as mathematical text.
pub struct ModelView {
    pub id: Seq<char>,
    pub name: Seq<char>,
    pub description: Seq<char>,
}

impl View for Model {
    type V = ModelView;

    open spec fn view(&self) -> ModelView {
        ModelView { id: self.id@, name: self.name@, description: self.description@ }
    }
}

/// The views of a catalogue, in the same order.
pub open spec fn model_views(models: Seq<Model>) -> Seq<ModelView> {
    models.map_values(|m: Model| m@)
}

/// The body of an answer. Each variant is a JSON object with the members
/// that it names.
#[derive(Debug, Clone, PartialEq, Eq)]
pub enum Body {
    /// `{"message": ..}`
    Message { message: String },
    /// `{"error": ..}`
    Error { error: String },
    /// `{"response": ..}`
    Response { response: String },
    /// `{"models": [..]}`
    Models { models: Vec<Model> },
    /// `{"response": .., "conversation_id": .., "input_tokens": .., "output_tokens": ..}`
    Completion { response: String, conversation_id: String, input_tokens: usize, output_tokens: usize },
}

/// What a `Body` holds, as mathematical text.
pub enum BodyView {
    Message { message: Seq<char> },
    Error { error: Seq<char> },
    Response { response: Seq<char> },
    Models { models: Seq<ModelView> },
    Completion {
        response: Seq<char>,
        conversation_id: Seq<char>,
        input_tokens: nat,
        output_tokens: nat,
    },
}

impl View for Body {
    type V = BodyView;

    open spec fn view(&self) -> BodyView {
        match self {
            Body::Message { message } => BodyView::Message { message: message@ },
            Body::Error { error } => BodyView::Error { error: error@ },
            Body::Response { response } => BodyView::Response { response: response@ },
            Body::Models { models } => BodyView::Models { models: model_views(models@) },
            Body::Completion { response, conversation_id, input_tokens, output_tokens } => {
                BodyView::Completion {
                    response: response@,
                    conversation_id: conversation_id@,
                    input_tokens: *input_tokens as nat,
                    output_tokens: *output_tokens as nat,
                }
            },
        }
    }
}

/// An answer: its status and its body.
#[derive(Debug, Clone, PartialEq, Eq)]
pub struct Response {
    pub status: Status,
    pub body: Body,
}

/// What a `Response` holds, as mathematical text.
pub struct ResponseView {
    pub status: Status,
    pub body: BodyView,
}

impl View for Response {
    type V = ResponseView;

    open spec fn view(&self) -> ResponseView {
        ResponseView { status: self.status, body: self.body@ }
    }
}

/// The sentence for a request whose sender is over its limit.
pub open spec fn too_many_requests_text() -> Seq<char> {
    "Too Many Requests"@
}

/// The sentence for a request whose sender cannot be told.
pub open spec fn unknown_client_text() -> Seq<char> {
    "Unable to determine client IP"@
}

/// The sentence for a call to the provider that failed.
pub open spec fn upstream_failure_text() -> Seq<char> {
    "Internal Server Error"@
}

/// The greeting at the root of the interface.
pub open spec fn greeting() -> ResponseView {
    ResponseView { status: Status::Success, body: BodyView::Message { message: "Hello from luuma!"@ } }
}

/// The answer to a request that no route matches.
pub open spec fn not_found() -> ResponseView {
    ResponseView {
        status: Status::NotFound,
        body: BodyView::Message { message: "The requested resource was not found."@ },
    }
}

/// The answer that lists the catalogue as it is.
pub open spec fn catalogue(models: Seq<ModelView>) -> ResponseView {
    ResponseView { status: Status::Success, body: BodyView::Models { models } }
}

/// The answer to a sender that is over its limit.
pub open spec fn too_many_requests() -> ResponseView {
    ResponseView {
        status: Status::TooManyRequests,
        body: BodyView::Error { error: too_many_requests_text() },
    }
}

/// The answer to a request whose sender cannot be told.
pub open spec fn unknown_client() -> ResponseView {
    ResponseView { status: Status::BadRequest, body: BodyView::Error { error: unknown_client_text() } }
}

/// The answer to a request that breaks a rule.
pub open spec fn invalid_request(error: ValidationError) -> ResponseView {
    ResponseView { status: Status::BadRequest, body: BodyView::Error { error: error.text() } }
}

/// The answer when the call to the provider failed.
pub open spec fn upstream_failure() -> ResponseView {
    ResponseView {
        status: Status::InternalServerError,
        body: BodyView::Response { response: upstream_failure_text() },
    }
}

/// The answer that carries a completion.
pub open spec fn completion(
    response: Seq<char>,
    conversation_id: Seq<char>,
    input_tokens: nat,
    output_tokens: nat,
) -> ResponseView {
    ResponseView {
        status: Status::Success,
        body: BodyView::Completion { response, conversation_id, input_tokens, output_tokens },
    }
}

/// The greeting at the root of the interface.
pub fn index_response() -> (response: Response)
    ensures
        response@ == greeting(),
{
    Response { status: Status::Success, body: Body::Message { message: "Hello from luuma!".to_owned() } }
}

/// The answer to a request that no route matches.
pub fn not_found_response() -> (response: Response)
    ensures
        response@ == not_found(),
{
    Response {
        status: Status::NotFound,
        body: Body::Message { message: "The requested resource was not found.".to_owned() },
    }
}

/// The answer that lists the catalogue as it is.
pub fn models_response(models: Vec<Model>) -> (response: Response)
    ensures
        response@ == catalogue(model_views(models@)),
{
    Response { status: Status::Success, body: Body::Models { models } }
}

/// The answer to a sender that is over its limit.
pub fn too_many_requests_response() -> (response: Response)
    ensures
        response@ == too_many_requests(),
{
    Response {
        status: Status::TooManyRequests,
        body: Body::Error { error: "Too Many Requests".to_owned() },
    }
}

/// The answer to a request whose sender cannot be told.
pub fn unknown_client_response() -> (response: Response)
    ensures
        response@ == unknown_client(),
{
    Response {
        status: Status::BadRequest,
        body: Body::Error { error: "Unable to determine client IP".to_owned() },
    }
}

/// The answer to a request that breaks a rule: it carries the sentence for
/// that rule.
pub fn invalid_request_response(error: ValidationError) -> (response: Response)
    ensures
        response@ == invalid_request(error),
{
    Response { status: Status::BadRequest, body: Body::Error { error: error.message() } }
}

/// The answer when the call to the provider failed.
pub fn upstream_failure_response() -> (response: Response)
    ensures
        response@ == upstream_failure(),
{
    Response {
        status: Status::InternalServerError,
        body: Body::Response { response: "Internal Server Error".to_owned() },
    }
}

/// The answer that carries a completion.
pub fn completion_response(
    response: String,
    conversation_id: String,
    input_tokens: usize,
    output_tokens: usize,
) -> (answer: Response)
    ensures
        answer@ == completion(response@, conversation_id@, input_tokens as nat, output_tokens as nat),
{
    Response {
        status: Status::Success,
        body: Body::Completion { response, conversation_id, input_tokens, output_tokens },
    }
}

} // verus!
