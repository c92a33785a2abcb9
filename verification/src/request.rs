//! Inbound chat requests: their shape, their validation and the token count
//! of their messages.

use vstd::prelude::*;
use crate::text::{count_tokens_str, is_blank, is_blank_str, token_count};

verus! {

/// One role/content pair of a conversation.
#[derive(Debug, Clone, PartialEq, Eq)]
pub struct Message {
    pub role: String,
    pub content: String,
}

/// What a `Message` holds, as mathematical text.
pub struct MessageView {
    pub role: Seq<char>,
    pub content: Seq<char>,
}

impl View for Message {
    type V = MessageView;

    open spec fn view(&self) -> MessageView {
        MessageView { role: self.role@, content: self.content@ }
    }
}

/// A chat-completion request as it arrives: a model identifier, the messages
/// in order and a conversation identifier.
#[derive(Debug, Clone, PartialEq, Eq)]
pub struct ChatRequest {
    pub model: String,
    pub messages: Vec<Message>,
    pub conversation_id: String,
}

/// What a `ChatRequest` holds, as mathematical text.
pub struct ChatRequestView {
    pub model: Seq<char>,
    pub messages: Seq<MessageView>,
    pub conversation_id: Seq<char>,
}

/// The views of a sequence of messages, in the same order.
pub open spec fn message_views(messages: Seq<Message>) -> Seq<MessageView> {
    messages.map_values(|m: Message| m@)
}

impl View for ChatRequest {
    type V = ChatRequestView;

    open spec fn view(&self) -> ChatRequestView {
        ChatRequestView {
            model: self.model@,
            messages: message_views(self.messages@),
            conversation_id: self.conversation_id@,
        }
    }
}

/// Why a request was refused. The rules are checked in the order of the
/// variants, and the first one broken is reported.
#[derive(Debug, Clone, Copy, PartialEq, Eq, Structural)]
pub enum ValidationError {
    /// The model identifier is blank.
    EmptyModel,
    /// The request holds no message.
    NoMessages,
    /// Some message has a blank role.
    EmptyRole,
    /// Some message has a blank content.
    EmptyContent,
    /// The conversation identifier is blank.
    EmptyConversationId,
}

impl ValidationError {
    /// The sentence that is sent to the caller for this error.
    pub open spec fn text(self) -> Seq<char> {
        match self {
            ValidationError::EmptyModel => "Model cannot be empty."@,
            ValidationError::NoMessages => "Message list cannot be empty."@,
            ValidationError::EmptyRole => "Message role cannot be empty."@,
            ValidationError::EmptyContent => "Message content cannot be empty."@,
            ValidationError::EmptyConversationId => "Conversation ID cannot be empty."@,
        }
    }

    /// The sentence that is sent to the caller for this error.
    pub fn message(&self) -> (sentence: String)
        ensures
            sentence@ == self.text(),
    {
        match self {
            ValidationError::EmptyModel => "Model cannot be empty.".to_owned(),
            ValidationError::NoMessages => "Message list cannot be empty.".to_owned(),
            ValidationError::EmptyRole => "Message role cannot be empty.".to_owned(),
            ValidationError::EmptyContent => "Message content cannot be empty.".to_owned(),
            ValidationError::EmptyConversationId => "Conversation ID cannot be empty.".to_owned(),
        }
    }
}

/// Some message has a blank role.
pub open spec fn has_blank_role(messages: Seq<MessageView>) -> bool {
    exists|i: int| 0 <= i < messages.len() && is_blank(#[trigger] messages[i].role)
}

/// Some message has a blank content.
pub open spec fn has_blank_content(messages: Seq<MessageView>) -> bool {
    exists|i: int| 0 <= i < messages.len() && is_blank(#[trigger] messages[i].content)
}

/// The verdict on a request: the first rule it breaks, or `Ok` when it breaks
/// none.
pub open spec fn validation(request: ChatRequestView) -> Result<(), ValidationError> {
    if is_blank(request.model) {
        Err(ValidationError::EmptyModel)
    } else if request.messages.len() == 0 {
        Err(ValidationError::NoMessages)
    } else if has_blank_role(request.messages) {
        Err(ValidationError::EmptyRole)
    } else if has_blank_content(request.messages) {
        Err(ValidationError::EmptyContent)
    } else if is_blank(request.conversation_id) {
        Err(ValidationError::EmptyConversationId)
    } else {
        Ok(())
    }
}

/// The tokens of all messages together: the sum of the token counts of their
/// contents.
pub open spec fn total_tokens(messages: Seq<MessageView>) -> nat
    decreases messages.len(),
{
    if messages.len() == 0 {
        0
    } else {
        total_tokens(messages.drop_last()) + token_count(messages.last().content)
    }
}

/// A request is refused exactly when its model or its conversation identifier
/// is blank, it holds no message, or one of its messages has a blank role or
/// a blank content.
pub proof fn lemma_rejected_iff_defective(request: ChatRequestView)
    ensures
        validation(request) is Err <==> {
            ||| is_blank(request.model)
            ||| request.messages.len() == 0
            ||| has_blank_role(request.messages)
            ||| has_blank_content(request.messages)
            ||| is_blank(request.conversation_id)
        },
{
}

/// The tokens of a prefix of the messages are no more than those of all.
pub proof fn lemma_total_tokens_of_prefix(messages: Seq<MessageView>, n: int)
    requires
        0 <= n <= messages.len(),
    ensures
        total_tokens(messages.take(n)) <= total_tokens(messages),
    decreases messages.len(),
{
    if n == messages.len() {
        assert(messages.take(n) =~= messages);
    } else {
        lemma_total_tokens_of_prefix(messages.drop_last(), n);
        assert(messages.drop_last().take(n) =~= messages.take(n));
    }
}

fn some_role_blank(messages: &Vec<Message>) -> (found: bool)
    ensures
        found == has_blank_role(message_views(messages@)),
{
    let ghost views = message_views(messages@);
    for i in 0..messages.len()
        invariant
            views == message_views(messages@),
            forall|j: int| 0 <= j < i ==> !is_blank(#[trigger] views[j].role),
    {
        if is_blank_str(messages[i].role.as_str()) {
            assert(is_blank(views[i as int].role));
            return true;
        }
    }
    false
}

fn some_content_blank(messages: &Vec<Message>) -> (found: bool)
    ensures
        found == has_blank_content(message_views(messages@)),
{
    let ghost views = message_views(messages@);
    for i in 0..messages.len()
        invariant
            views == message_views(messages@),
            forall|j: int| 0 <= j < i ==> !is_blank(#[trigger] views[j].content),
    {
        if is_blank_str(messages[i].content.as_str()) {
            assert(is_blank(views[i as int].content));
            return true;
        }
    }
    false
}

impl ChatRequest {
    /// Checks the request against the rules, in their order, and reports the
    /// first one that it breaks.
    pub fn validate(&self) -> (outcome: Result<(), ValidationError>)
        ensures
            outcome == validation(self@),
    {
        if is_blank_str(self.model.as_str()) {
            return Err(ValidationError::EmptyModel);
        }
        if self.messages.len() == 0 {
            return Err(ValidationError::NoMessages);
        }
        if some_role_blank(&self.messages) {
            return Err(ValidationError::EmptyRole);
        }
        if some_content_blank(&self.messages) {
            return Err(ValidationError::EmptyContent);
        }
        if is_blank_str(self.conversation_id.as_str()) {
            return Err(ValidationError::EmptyConversationId);
        }
        Ok(())
    }
}

/// Counts the tokens of all messages, when the total fits the machine word:
/// `None` when it does not.
pub fn checked_count_tokens(messages: &Vec<Message>) -> (total: Option<usize>)
    ensures
        match total {
            Some(n) => n == total_tokens(message_views(messages@)),
            None => total_tokens(message_views(messages@)) > usize::MAX,
        },
{
    let ghost views = message_views(messages@);
    let mut total: usize = 0;
    for i in 0..messages.len()
        invariant
            views == message_views(messages@),
            total == total_tokens(views.take(i as int)),
    {
        let count = count_tokens_str(messages[i].content.as_str());
        proof {
            assert(views.take(i + 1).drop_last() =~= views.take(i as int));
            assert(views.take(i + 1).last() == views[i as int]);
            lemma_total_tokens_of_prefix(views, i + 1);
        }
        match total.checked_add(count) {
            Some(sum) => {
                total = sum;
            },
            None => {
                return None;
            },
        }
    }
    proof {
        assert(views.take(messages.len() as int) =~= views);
    }
    Some(total)
}

/// Counts the tokens of all messages: the sum of the counts of their contents.
pub fn count_tokens(messages: &Vec<Message>) -> (total: usize)
    requires
        total_tokens(message_views(messages@)) <= usize::MAX,
    ensures
        total == total_tokens(message_views(messages@)),
{
    let ghost views = message_views(messages@);
    let mut total: usize = 0;
    for i in 0..messages.len()
        invariant
            views == message_views(messages@),
            total_tokens(views) <= usize::MAX,
            total == total_tokens(views.take(i as int)),
    {
        let count = count_tokens_str(messages[i].content.as_str());
        proof {
            assert(views.take(i + 1).drop_last() =~= views.take(i as int));
            assert(views.take(i + 1).last() == views[i as int]);
            lemma_total_tokens_of_prefix(views, i + 1);
        }
        total = total + count;
    }
    proof {
        assert(views.take(messages.len() as int) =~= views);
    }
    total
}

} // verus!
