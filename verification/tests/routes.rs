use luuma::response::{index_response, models_response, not_found_response, Body, Model, Response, Status};
use luuma::routes::{resolve, Endpoint};

const BASE_URL: &str = "/v1";

fn get(path: &str) -> Response {
    match resolve("GET", path) {
        Endpoint::Index => index_response(),
        Endpoint::Models => models_response(Vec::new()),
        Endpoint::Messages => unreachable!("a chat completion is posted"),
        Endpoint::NotFound => not_found_response(),
    }
}

fn message_of(response: &Response) -> &str {
    match &response.body {
        Body::Message { message } => message,
        other => panic!("no message in {:?}", other),
    }
}

#[test]
fn index() {
    let response = get(&format!("{}/", BASE_URL));
    assert_eq!(response.status, Status::Success);
    assert_eq!(response.status.code(), 200);

    assert_eq!(message_of(&response), "Hello from luuma!");
}

#[test]
fn not_found() {
    let invalid_paths = vec![
        format!("{}/not-found", BASE_URL),
        format!("{}/not-found/", BASE_URL),
        format!("{}/1", BASE_URL),
        "/".to_string(),
        "/test".to_string(),
        "/test/".to_string(),
    ];

    for path in invalid_paths {
        let response = get(&path);
        assert_eq!(response.status, Status::NotFound);
        assert_eq!(response.status.code(), 404);

        assert_eq!(message_of(&response), "The requested resource was not found.");
    }
}

#[test]
fn an_unknown_route_is_not_found() {
    assert_eq!(resolve("GET", "/unknown"), Endpoint::NotFound);
    let response = get("/unknown");
    assert_eq!(response.status.code(), 404);
    assert_eq!(
        response.body,
        Body::Message { message: "The requested resource was not found.".to_string() }
    );
}

#[test]
fn the_three_routes_are_found() {
    assert_eq!(resolve("GET", "/v1/"), Endpoint::Index);
    assert_eq!(resolve("GET", "/v1/models"), Endpoint::Models);
    assert_eq!(resolve("POST", "/v1/conversations/messages"), Endpoint::Messages);
}

#[test]
fn a_route_is_found_by_its_method_too() {
    assert_eq!(resolve("POST", "/v1/"), Endpoint::NotFound);
    assert_eq!(resolve("POST", "/v1/models"), Endpoint::NotFound);
    assert_eq!(resolve("GET", "/v1/conversations/messages"), Endpoint::NotFound);
    assert_eq!(resolve("DELETE", "/v1/"), Endpoint::NotFound);
    assert_eq!(resolve("get", "/v1/"), Endpoint::NotFound);
}

#[test]
fn the_catalogue_is_listed_as_it_is() {
    let models = vec![
        Model {
            id: "llama3-8b-8192".to_string(),
            name: "Llama 3 8B".to_string(),
            description: "A small model.".to_string(),
        },
        Model { id: "mixtral".to_string(), name: "Mixtral".to_string(), description: String::new() },
    ];
    let response = models_response(models.clone());
    assert_eq!(response.status.code(), 200);
    assert_eq!(response.body, Body::Models { models });
}

#[test]
fn each_status_has_its_code() {
    assert_eq!(Status::Success.code(), 200);
    assert_eq!(Status::BadRequest.code(), 400);
    assert_eq!(Status::NotFound.code(), 404);
    assert_eq!(Status::TooManyRequests.code(), 429);
    assert_eq!(Status::InternalServerError.code(), 500);
}
