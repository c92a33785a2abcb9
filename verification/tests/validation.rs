use luuma::request::{
    checked_count_tokens, count_tokens, ChatRequest, Message, ValidationError,
};

fn message(role: &str, content: &str) -> Message {
    Message { role: role.to_string(), content: content.to_string() }
}

fn request(model: &str, messages: Vec<Message>, conversation_id: &str) -> ChatRequest {
    ChatRequest { model: model.to_string(), messages, conversation_id: conversation_id.to_string() }
}

#[test]
fn a_complete_request_is_valid() {
    let r = request("llama3-8b", vec![message("user", "Hello there")], "c-1");
    assert_eq!(r.validate(), Ok(()));
}

#[test]
fn an_empty_model_is_rejected() {
    let r = request("", vec![message("user", "hi")], "c-1");
    assert_eq!(r.validate(), Err(ValidationError::EmptyModel));
    assert_eq!(ValidationError::EmptyModel.message(), "Model cannot be empty.");
}

#[test]
fn a_model_of_whitespace_is_rejected() {
    let r = request(" \t\n", vec![message("user", "hi")], "c-1");
    assert_eq!(r.validate(), Err(ValidationError::EmptyModel));
}

#[test]
fn an_empty_message_list_is_rejected() {
    let r = request("m", vec![], "c-1");
    assert_eq!(r.validate(), Err(ValidationError::NoMessages));
    assert_eq!(ValidationError::NoMessages.message(), "Message list cannot be empty.");
}

#[test]
fn an_empty_role_is_rejected() {
    let r = request("m", vec![message("user", "hi"), message("  ", "there")], "c-1");
    assert_eq!(r.validate(), Err(ValidationError::EmptyRole));
    assert_eq!(ValidationError::EmptyRole.message(), "Message role cannot be empty.");
}

#[test]
fn an_empty_content_is_rejected() {
    let r = request("m", vec![message("user", "hi"), message("assistant", "\u{a0}")], "c-1");
    assert_eq!(r.validate(), Err(ValidationError::EmptyContent));
    assert_eq!(ValidationError::EmptyContent.message(), "Message content cannot be empty.");
}

#[test]
fn an_empty_conversation_id_is_rejected() {
    let r = request("m", vec![message("user", "hi")], "   ");
    assert_eq!(r.validate(), Err(ValidationError::EmptyConversationId));
    assert_eq!(
        ValidationError::EmptyConversationId.message(),
        "Conversation ID cannot be empty."
    );
}

#[test]
fn the_first_broken_rule_is_reported() {
    // everything is wrong: the model comes first
    let r = request(" ", vec![], "");
    assert_eq!(r.validate(), Err(ValidationError::EmptyModel));
    // no messages comes before the conversation identifier
    let r = request("m", vec![], "");
    assert_eq!(r.validate(), Err(ValidationError::NoMessages));
    // a blank role comes before a blank content, wherever they stand
    let r = request("m", vec![message("user", ""), message("", "hi")], "");
    assert_eq!(r.validate(), Err(ValidationError::EmptyRole));
    // a blank content comes before the conversation identifier
    let r = request("m", vec![message("user", "")], "");
    assert_eq!(r.validate(), Err(ValidationError::EmptyContent));
}

#[test]
fn surrounding_whitespace_does_not_make_a_field_empty() {
    let r = request("  m  ", vec![message(" user ", "  hi  ")], " c ");
    assert_eq!(r.validate(), Ok(()));
}

#[test]
fn input_tokens_are_the_sum_over_the_messages() {
    let messages = vec![
        message("system", "You are terse."),
        message("user", "a b  c"),
        message("assistant", "  "),
        message("user", ""),
        message("user", "one\ntwo"),
    ];
    assert_eq!(count_tokens(&messages), 3 + 3 + 0 + 0 + 2);
    assert_eq!(checked_count_tokens(&messages), Some(8));
}

#[test]
fn no_messages_have_no_tokens() {
    assert_eq!(count_tokens(&vec![]), 0);
    assert_eq!(checked_count_tokens(&vec![]), Some(0));
}

#[test]
fn the_role_does_not_count_as_tokens() {
    let messages = vec![message("a role of many words", "two words")];
    assert_eq!(count_tokens(&messages), 2);
}
