//! The routes of the interface: which request reaches which endpoint.

use vstd::prelude::*;
use crate::text::same_text;

verus! {

/// What a request is for.
#[derive(Debug, Clone, Copy, PartialEq, Eq, Structural)]
pub enum Endpoint {
    /// `GET /v1/`: the greeting.
    Index,
    /// `GET /v1/models`: the model catalogue.
    Models,
    /// `POST /v1/conversations/messages`: a chat completion.
    Messages,
    /// Anything else.
    NotFound,
}

/// The endpoint that the request with this method and path reaches.
pub open spec fn route(method: Seq<char>, path: Seq<char>) -> Endpoint {
    if method == "GET"@ && path == "/v1/"@ {
        Endpoint::Index
    } else if method == "GET"@ && path == "/v1/models"@ {
        Endpoint::Models
    } else if method == "POST"@ && path == "/v1/conversations/messages"@ {
        Endpoint::Messages
    } else {
        Endpoint::NotFound
    }
}

/// Finds the endpoint for a request by its method and its path.
pub fn resolve(method: &str, path: &str) -> (endpoint: Endpoint)
    ensures
        endpoint == route(method@, path@),
{
    if same_text(method, "GET") {
        if same_text(path, "/v1/") {
            Endpoint::Index
        } else if same_text(path, "/v1/models") {
            Endpoint::Models
        } else {
            proof {
                lemma_get_is_not_post();
            }
            Endpoint::NotFound
        }
    } else if same_text(method, "POST") && same_text(path, "/v1/conversations/messages") {
        Endpoint::Messages
    } else {
        Endpoint::NotFound
    }
}

proof fn lemma_get_is_not_post()
    ensures
        "GET"@ != "POST"@,
{
    reveal_strlit("GET");
    reveal_strlit("POST");
    assert("GET"@.len() == 3);
    assert("POST"@.len() == 4);
}

} // verus!
