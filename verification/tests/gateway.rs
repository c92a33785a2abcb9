use luuma::diagnostics::Diagnostic;
use luuma::gateway::{
    content_returned, receive_request, upstream_returned, usage_recorded, Concluded, Received,
    Reply, Returned, UpstreamCall, UpstreamOutcome, UsageUpdate,
};
use luuma::ledger::UsageLedger;
use luuma::limiter::{RateLimiter, NANOS_PER_SECOND};
use luuma::request::{ChatRequest, Message};
use luuma::response::{Body, Response, Status};

fn message(role: &str, content: &str) -> Message {
    Message { role: role.to_string(), content: content.to_string() }
}

fn request(model: &str, messages: Vec<Message>, conversation_id: &str) -> ChatRequest {
    ChatRequest { model: model.to_string(), messages, conversation_id: conversation_id.to_string() }
}

fn valid_request() -> ChatRequest {
    request("llama3-8b-8192", vec![message("user", "what is the time now")], "conv-7")
}

fn refusal(status: Status, error: &str, client: Option<&str>) -> Reply {
    Reply {
        response: Response { status, body: Body::Error { error: error.to_string() } },
        diagnostic: Diagnostic {
            client: client.map(|c| c.to_string()),
            status: error.to_string(),
            input_tokens: 0,
            output_tokens: 0,
            model: String::new(),
        },
        log_body: false,
    }
}

#[test]
fn a_valid_request_runs_to_its_completion() {
    let mut limiter = RateLimiter::new(100, 60);
    let mut ledger = UsageLedger::with_totals(1_000, 2_000);
    ledger.set_client("203.0.113.7".to_string(), 10, 20);

    let call = match receive_request(&mut limiter, Some("203.0.113.7"), valid_request(), 0) {
        Received::CallUpstream(call) => call,
        Received::Respond(reply) => panic!("refused: {:?}", reply),
    };
    assert_eq!(
        call,
        UpstreamCall {
            client: "203.0.113.7".to_string(),
            model: "llama3-8b-8192".to_string(),
            messages: vec![message("user", "what is the time now")],
            stream: false,
            conversation_id: "conv-7".to_string(),
            input_tokens: 5,
        }
    );

    let body = br#"{"choices":[{"message":{"content":"hi there"}}]}"#.to_vec();
    let update = match upstream_returned(call, UpstreamOutcome::Replied(body)) {
        Returned::RecordUsage(update) => update,
        Returned::Respond(reply) => panic!("failed: {:?}", reply),
    };
    assert_eq!(
        update,
        UsageUpdate {
            client: "203.0.113.7".to_string(),
            model: "llama3-8b-8192".to_string(),
            conversation_id: "conv-7".to_string(),
            content: "hi there".to_string(),
            input_tokens: 5,
            output_tokens: 2,
        }
    );

    assert!(ledger.can_record(Some(&update.client), update.input_tokens, update.output_tokens));
    ledger.record(Some(&update.client), update.input_tokens, update.output_tokens);
    assert_eq!(ledger.total_input_tokens(), 1_005);
    assert_eq!(ledger.total_output_tokens(), 2_002);
    assert_eq!(ledger.client_usage("203.0.113.7"), Some((15, 22)));

    let reply = match usage_recorded(update, true, false) {
        Concluded::Respond(reply) => reply,
        Concluded::Fail => panic!("the usage was recorded"),
    };
    assert_eq!(reply.response.status.code(), 200);
    assert_eq!(
        reply,
        Reply {
            response: Response {
                status: Status::Success,
                body: Body::Completion {
                    response: "hi there".to_string(),
                    conversation_id: "conv-7".to_string(),
                    input_tokens: 5,
                    output_tokens: 2,
                },
            },
            diagnostic: Diagnostic {
                client: Some("203.0.113.7".to_string()),
                status: "Ok".to_string(),
                input_tokens: 5,
                output_tokens: 2,
                model: "llama3-8b-8192".to_string(),
            },
            log_body: false,
        }
    );
}

#[test]
fn the_request_after_the_limit_is_refused() {
    let mut limiter = RateLimiter::new(100, 60);
    let mut calls = 0;
    for k in 0..100u128 {
        let now = k * NANOS_PER_SECOND / 2;
        match receive_request(&mut limiter, Some("198.51.100.4"), valid_request(), now) {
            Received::CallUpstream(_) => calls += 1,
            Received::Respond(reply) => panic!("request {} refused: {:?}", k, reply),
        }
    }
    assert_eq!(calls, 100);
    let next = receive_request(&mut limiter, Some("198.51.100.4"), valid_request(), 50 * NANOS_PER_SECOND);
    let expected = refusal(Status::TooManyRequests, "Too Many Requests", Some("198.51.100.4"));
    assert_eq!(expected.response.status.code(), 429);
    // the request ends here: nothing asks for the usage to be recorded
    assert_eq!(next, Received::Respond(expected));
    // another client is not held back
    assert!(matches!(
        receive_request(&mut limiter, Some("198.51.100.5"), valid_request(), 50 * NANOS_PER_SECOND),
        Received::CallUpstream(_)
    ));
    // and the first one is let in again once its window has run out
    assert!(matches!(
        receive_request(&mut limiter, Some("198.51.100.4"), valid_request(), 61 * NANOS_PER_SECOND),
        Received::CallUpstream(_)
    ));
}

#[test]
fn a_request_from_an_unknown_sender_is_refused_and_not_counted() {
    let mut limiter = RateLimiter::new(1, 60);
    let next = receive_request(&mut limiter, None, valid_request(), 0);
    assert_eq!(
        next,
        Received::Respond(refusal(Status::BadRequest, "Unable to determine client IP", None))
    );
    // even an invalid request from an unknown sender is told so first
    let next = receive_request(&mut limiter, None, request("", vec![], ""), 0);
    assert_eq!(
        next,
        Received::Respond(refusal(Status::BadRequest, "Unable to determine client IP", None))
    );
    // nothing was counted anywhere: the single request that is allowed is still to come
    assert!(limiter.check_rate_limit("0.0.0.0", 0));
}

#[test]
fn an_invalid_request_is_refused_before_the_provider_is_called() {
    let cases = vec![
        (request(" ", vec![message("user", "hi")], "c"), "Model cannot be empty."),
        (request("m", vec![], "c"), "Message list cannot be empty."),
        (request("m", vec![message("", "hi")], "c"), "Message role cannot be empty."),
        (request("m", vec![message("user", " ")], "c"), "Message content cannot be empty."),
        (request("m", vec![message("user", "hi")], ""), "Conversation ID cannot be empty."),
    ];
    let mut limiter = RateLimiter::new(100, 60);
    for (invalid, sentence) in cases {
        let next = receive_request(&mut limiter, Some("192.0.2.1"), invalid, 0);
        assert_eq!(
            next,
            Received::Respond(refusal(Status::BadRequest, sentence, Some("192.0.2.1")))
        );
    }
}

#[test]
fn an_invalid_request_still_counts_against_the_limit() {
    let mut limiter = RateLimiter::new(1, 60);
    let next = receive_request(&mut limiter, Some("192.0.2.1"), request("", vec![], ""), 0);
    assert_eq!(
        next,
        Received::Respond(refusal(Status::BadRequest, "Model cannot be empty.", Some("192.0.2.1")))
    );
    let next = receive_request(&mut limiter, Some("192.0.2.1"), valid_request(), 1);
    assert_eq!(
        next,
        Received::Respond(refusal(Status::TooManyRequests, "Too Many Requests", Some("192.0.2.1")))
    );
}

#[test]
fn the_limit_is_checked_before_the_request() {
    let mut limiter = RateLimiter::new(0, 60);
    let next = receive_request(&mut limiter, Some("192.0.2.1"), request("", vec![], ""), 0);
    assert_eq!(
        next,
        Received::Respond(refusal(Status::TooManyRequests, "Too Many Requests", Some("192.0.2.1")))
    );
}

#[test]
fn the_input_tokens_of_all_messages_are_counted() {
    let mut limiter = RateLimiter::new(5, 60);
    let asked = request(
        "m",
        vec![message("system", "be  brief"), message("user", "a b  c"), message("user", "\td\n")],
        "c",
    );
    match receive_request(&mut limiter, Some("192.0.2.1"), asked, 0) {
        Received::CallUpstream(call) => {
            assert_eq!(call.input_tokens, 2 + 3 + 1);
            assert!(!call.stream);
            assert_eq!(call.messages.len(), 3);
        },
        Received::Respond(reply) => panic!("refused: {:?}", reply),
    }
}

fn pending_call() -> UpstreamCall {
    UpstreamCall {
        client: "192.0.2.9".to_string(),
        model: "mixtral".to_string(),
        messages: vec![message("user", "one two three")],
        stream: false,
        conversation_id: "conv-1".to_string(),
        input_tokens: 3,
    }
}

fn failure_reply() -> Reply {
    Reply {
        response: Response {
            status: Status::InternalServerError,
            body: Body::Response { response: "Internal Server Error".to_string() },
        },
        diagnostic: Diagnostic {
            client: Some("192.0.2.9".to_string()),
            status: "Internal Server Error".to_string(),
            input_tokens: 3,
            output_tokens: 0,
            model: "mixtral".to_string(),
        },
        log_body: false,
    }
}

#[test]
fn a_failed_call_ends_the_request_without_a_record() {
    let next = upstream_returned(pending_call(), UpstreamOutcome::Failed);
    assert_eq!(next, Returned::Respond(failure_reply()));
    match next {
        Returned::Respond(reply) => assert_eq!(reply.response.status.code(), 500),
        Returned::RecordUsage(_) => unreachable!(),
    }
}

#[test]
fn a_reply_that_is_no_json_ends_the_request_like_a_failed_call() {
    let body = b"<html>502 Bad Gateway</html>".to_vec();
    let next = upstream_returned(pending_call(), UpstreamOutcome::Replied(body));
    assert_eq!(next, Returned::Respond(failure_reply()));
    assert_eq!(content_returned(pending_call(), None), Returned::Respond(failure_reply()));
}

#[test]
fn a_reply_without_content_is_a_completion_of_no_tokens() {
    let body = br#"{"error":{"message":"rate limited"}}"#.to_vec();
    let next = upstream_returned(pending_call(), UpstreamOutcome::Replied(body));
    assert_eq!(
        next,
        Returned::RecordUsage(UsageUpdate {
            client: "192.0.2.9".to_string(),
            model: "mixtral".to_string(),
            conversation_id: "conv-1".to_string(),
            content: String::new(),
            input_tokens: 3,
            output_tokens: 0,
        })
    );
}

#[test]
fn the_output_tokens_are_those_of_the_content() {
    let next = content_returned(pending_call(), Some("  a b\n\nc d e  ".to_string()));
    match next {
        Returned::RecordUsage(update) => {
            assert_eq!(update.output_tokens, 5);
            assert_eq!(update.input_tokens, 3);
            assert_eq!(update.content, "  a b\n\nc d e  ");
        },
        Returned::Respond(reply) => panic!("failed: {:?}", reply),
    }
}

fn pending_update() -> UsageUpdate {
    UsageUpdate {
        client: "192.0.2.9".to_string(),
        model: "mixtral".to_string(),
        conversation_id: "conv-1".to_string(),
        content: "four".to_string(),
        input_tokens: 3,
        output_tokens: 1,
    }
}

#[test]
fn a_usage_that_was_not_recorded_fails_the_request() {
    assert_eq!(usage_recorded(pending_update(), false, false), Concluded::Fail);
    assert_eq!(usage_recorded(pending_update(), false, true), Concluded::Fail);
}

#[test]
fn the_answer_of_a_slow_call_is_logged() {
    match usage_recorded(pending_update(), true, true) {
        Concluded::Respond(reply) => {
            assert!(reply.log_body);
            assert_eq!(reply.diagnostic.status, "Ok");
            assert_eq!(reply.diagnostic.model, "mixtral");
            assert_eq!(reply.response.status, Status::Success);
        },
        Concluded::Fail => panic!("the usage was recorded"),
    }
    match usage_recorded(pending_update(), true, false) {
        Concluded::Respond(reply) => assert!(!reply.log_body),
        Concluded::Fail => panic!("the usage was recorded"),
    }
}
