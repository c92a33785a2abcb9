//! The reply of the completion provider: a JSON document in which the
//! assistant's text stands at `choices[0].message.content`.
//!
//! The document is parsed and searched by `serde_json`. What this module
//! knows of a JSON value is the texts in it: for each path that leads to a
//! JSON string, that string.

use vstd::prelude::*;

verus! {

/// One step down into a JSON value: to the member of an object under a key,
/// or to the element of an array at an index.
pub enum JsonStep {
    Member(Seq<char>),
    Element(nat),
}

/// The texts of a JSON value, each under the path that leads to it.
pub type JsonTexts = Map<Seq<JsonStep>, Seq<char>>;

/// `serde_json::Value`, a parsed JSON value. Nothing is known of what is in
/// one but what the functions below say of its texts.
#[verifier::external_type_specification]
#[verifier::external_body]
pub struct ExJsonValue(serde_json::Value);

/// `serde_json::Error`, which says why bytes are no JSON document. Nothing
/// is known of what is in one.
#[verifier::external_type_specification]
#[verifier::external_body]
pub struct ExJsonError(serde_json::Error);

/// The texts in a parsed JSON value: it maps each path at whose end a JSON
/// string stands to that string. A value that is itself a string has it under
/// the empty path; a number, a boolean or null holds no text.
pub uninterp spec fn json_texts(value: serde_json::Value) -> JsonTexts;

/// The texts of the JSON document that `bytes` spell, or `None` where they
/// spell none.
pub uninterp spec fn json_document(bytes: Seq<u8>) -> Option<JsonTexts>;

/// The texts that stand below the first step `step`, each under the rest of
/// its path.
pub open spec fn texts_below(texts: JsonTexts, step: JsonStep) -> JsonTexts {
    Map::new(
        |rest: Seq<JsonStep>| texts.contains_key(seq![step] + rest),
        |rest: Seq<JsonStep>| texts[seq![step] + rest],
    )
}

/// The text under `path`, if there is one.
pub open spec fn text_at(texts: JsonTexts, path: Seq<JsonStep>) -> Option<Seq<char>> {
    if texts.contains_key(path) {
        Some(texts[path])
    } else {
        None
    }
}

/// `serde_json::from_slice::<serde_json::Value>`, which parses a whole JSON
/// document and fails on anything else. The contract claims that the parse is
/// a function of the bytes: it succeeds exactly on the bytes for which
/// `json_document` is `Some`, and the texts of the value are those.
#[verifier::external_body]
fn parse_json(bytes: &[u8]) -> (parsed: Result<serde_json::Value, serde_json::Error>)
    ensures
        match parsed {
            Ok(value) => json_document(bytes@) == Some(json_texts(value)),
            Err(_) => json_document(bytes@) is None,
        },
{
    serde_json::from_slice::<serde_json::Value>(bytes)
}

/// `serde_json::Value::get` with a string index, which gives the member of an
/// object under `key`, and `None` for a value that is no object or has no such
/// member. The contract claims that the texts of the member are those of the
/// value below the step `Member(key)`, and that nothing stands below that step
/// where there is no member.
#[verifier::external_body]
fn json_member<'a>(value: &'a serde_json::Value, key: &str) -> (member: Option<&'a serde_json::Value>)
    ensures
        match member {
            Some(m) => json_texts(*m) == texts_below(json_texts(*value), JsonStep::Member(key@)),
            None => texts_below(json_texts(*value), JsonStep::Member(key@)) == JsonTexts::empty(),
        },
{
    value.get(key)
}

/// `serde_json::Value::get` with a number index, which gives the element of an
/// array at `index`, and `None` for a value that is no array or is shorter. The
/// contract claims that the texts of the element are those of the value below
/// the step `Element(index)`, and that nothing stands below that step where
/// there is no element.
#[verifier::external_body]
fn json_element<'a>(value: &'a serde_json::Value, index: usize) -> (element: Option<&'a serde_json::Value>)
    ensures
        match element {
            Some(e) => json_texts(*e) == texts_below(json_texts(*value), JsonStep::Element(index as nat)),
            None => texts_below(json_texts(*value), JsonStep::Element(index as nat))
                == JsonTexts::empty(),
        },
{
    value.get(index)
}

/// `serde_json::Value::as_str`, which gives the text of a value that is a JSON
/// string and `None` for any other. The contract claims that this is the text
/// under the empty path.
#[verifier::external_body]
fn json_string<'a>(value: &'a serde_json::Value) -> (text: Option<&'a str>)
    ensures
        match text {
            Some(t) => text_at(json_texts(*value), Seq::empty()) == Some(t@),
            None => text_at(json_texts(*value), Seq::empty()) is None,
        },
{
    value.as_str()
}

/// The path to the assistant's text in a reply.
pub open spec fn content_path() -> Seq<JsonStep> {
    seq![
        JsonStep::Member("choices"@),
        JsonStep::Element(0),
        JsonStep::Member("message"@),
        JsonStep::Member("content"@),
    ]
}

/// The assistant's text in a reply with these texts: the JSON string at
/// `choices[0].message.content`, and the empty text where none stands there.
pub open spec fn assistant_content(texts: JsonTexts) -> Seq<char> {
    match text_at(texts, content_path()) {
        Some(text) => text,
        None => Seq::empty(),
    }
}

/// The text that was found, or the empty text where none was.
pub fn content_or_empty(found: Option<&str>) -> (content: String)
    ensures
        content@ == match found {
            Some(text) => text@,
            None => Seq::<char>::empty(),
        },
{
    match found {
        Some(text) => text.to_owned(),
        None => String::new(),
    }
}

/// Looks for the JSON string at `choices[0].message.content`.
fn find_content<'a>(reply: &'a serde_json::Value) -> (found: Option<&'a str>)
    ensures
        match found {
            Some(text) => text_at(json_texts(*reply), content_path()) == Some(text@),
            None => text_at(json_texts(*reply), content_path()) is None,
        },
{
    let ghost all = json_texts(*reply);
    let ghost choices_step = JsonStep::Member("choices"@);
    let ghost first_step = JsonStep::Element(0);
    let ghost message_step = JsonStep::Member("message"@);
    let ghost content_step = JsonStep::Member("content"@);
    proof {
        assert(content_path() =~= seq![choices_step] + (seq![first_step] + (seq![message_step] + (
            seq![content_step] + Seq::<JsonStep>::empty()))));
    }
    let choices = match json_member(reply, "choices") {
        Some(choices) => choices,
        None => {
            assert(!texts_below(all, choices_step).contains_key(
                seq![first_step] + (seq![message_step] + (seq![content_step] + Seq::<JsonStep>::empty())),
            ));
            return None;
        },
    };
    let first = match json_element(choices, 0) {
        Some(first) => first,
        None => {
            assert(!texts_below(json_texts(*choices), first_step).contains_key(
                seq![message_step] + (seq![content_step] + Seq::<JsonStep>::empty()),
            ));
            return None;
        },
    };
    let message = match json_member(first, "message") {
        Some(message) => message,
        None => {
            assert(!texts_below(json_texts(*first), message_step).contains_key(
                seq![content_step] + Seq::<JsonStep>::empty(),
            ));
            return None;
        },
    };
    let content = match json_member(message, "content") {
        Some(content) => content,
        None => {
            assert(!texts_below(json_texts(*message), content_step).contains_key(
                Seq::<JsonStep>::empty(),
            ));
            return None;
        },
    };
    json_string(content)
}

/// Reads the assistant's text out of the body of a reply. The result is
/// `None` exactly when the body is no JSON document; in a document without a
/// JSON string at `choices[0].message.content` the text is empty.
pub fn reply_content(body: &[u8]) -> (content: Option<String>)
    ensures
        match json_document(body@) {
            Some(texts) => content matches Some(text) && text@ == assistant_content(texts),
            None => content is None,
        },
{
    match parse_json(body) {
        Ok(reply) => Some(content_or_empty(find_content(&reply))),
        Err(_) => None,
    }
}

} // verus!
