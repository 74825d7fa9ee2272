//! What is made of a provider's reply: the commit message that is read out of
//! its body, or the failure that stands in its place.

use crate::json;
use crate::json::{json_parse, json_text, json_tree, null_text, JsonTree};
use crate::text::{
    clean_message, cleaned, cleaned_start, is_strippable, lemma_cleaned_is_interior,
    lemma_cleaned_keeps_clean_text,
};
use vstd::prelude::*;

verus! {

/// What the transport reports of one request.
#[derive(Clone, Debug)]
pub enum Reply {
    /// The request was answered, with this body.
    Body(String),
    /// The request could not be made or timed out; the text says why.
    NetworkFailure(String),
    /// The answer's body could not be read; the text says why.
    ReadFailure(String),
}

/// Why a reply gave no commit message. Each carries its diagnostic.
#[derive(Clone, Debug)]
pub enum Failure {
    /// The request could not be made or timed out.
    Network(String),
    /// The answer's body could not be read.
    Read(String),
    /// The answer's body is no JSON document.
    Malformed(String),
}

/// The end of one generation: the commit message, which is empty where there
/// is none, and then the failure that explains it.
#[derive(Clone, Debug)]
pub struct Generation {
    pub message: String,
    pub failure: Option<Failure>,
}

/// The place of the generated text in a provider's answer:
/// `choices[0].message.content`. Where a step of the path is absent, so is
/// the content, and `Null` stands for it.
pub open spec fn content_of(document: JsonTree) -> JsonTree {
    document.member("choices"@).element(0).member("message"@).member("content"@)
}

/// Whether `message` is the commit message that `document` holds. Where the
/// content is a string, it is that string cleaned: its characters as they
/// stand, without the whitespace, then the double quotes and line feeds, at
/// its two ends. Any other content is taken by its JSON text, cleaned; for an
/// absent content that is `null`.
pub open spec fn reads_as(message: Seq<char>, document: JsonTree) -> bool {
    let content = content_of(document);
    match content {
        JsonTree::Text(s) => message == cleaned(s),
        _ => {
            &&& message == cleaned(json_text(content))
            &&& content is Null ==> message == null_text()
        },
    }
}

/// Cleaning leaves the text `null` as it is.
pub proof fn lemma_null_text_is_clean()
    ensures
        cleaned(null_text()) == null_text(),
{
    lemma_cleaned_keeps_clean_text(null_text());
}

/// Where the content of an answer is a string, the message read from the
/// answer is that string cleaned: one stretch of the string as it stands,
/// with nothing but whitespace, double quotes and line feeds dropped before
/// and after it.
pub proof fn lemma_message_of_string_content(
    message: Seq<char>,
    document: JsonTree,
    s: Seq<char>,
)
    requires
        reads_as(message, document),
        content_of(document) == JsonTree::Text(s),
    ensures
        message == cleaned(s),
        cleaned_start(s) + message.len() <= s.len(),
        message == s.subrange(
            cleaned_start(s) as int,
            (cleaned_start(s) + message.len()) as int,
        ),
        forall|i: int| 0 <= i < cleaned_start(s) ==> is_strippable(#[trigger] s[i]),
        forall|i: int|
            cleaned_start(s) + message.len() <= i < s.len() ==> is_strippable(#[trigger] s[i]),
{
    lemma_cleaned_is_interior(s);
}

/// Reads the commit message out of a parsed answer.
pub fn message_from_document(document: &serde_json::Value) -> (r: String)
    ensures
        reads_as(r@, json_tree(*document)),
{
    let choices = json::member(document, "choices");
    let first = json::element(choices, 0);
    let message = json::member(first, "message");
    let content = json::member(message, "content");
    match json::as_text(content) {
        Some(s) => clean_message(s),
        None => {
            let text = json::render(content);
            proof {
                lemma_null_text_is_clean();
            }
            clean_message(text.as_str())
        },
    }
}

/// Reads the commit message out of an answer's body. It fails exactly where
/// the body is no JSON document; an answer of another shape than expected
/// still gives a message, the one of an absent content.
pub fn extract_message(body: &str) -> (r: Result<String, Failure>)
    ensures
        r is Ok <==> json_parse(body@) is Some,
        r matches Ok(m) ==> (json_parse(body@) matches Some(document) && reads_as(m@, document)),
        r matches Err(f) ==> f is Malformed,
{
    match json::parse(body) {
        Ok(document) => Ok(message_from_document(&document)),
        Err(e) => Err(Failure::Malformed(json::describe(&e))),
    }
}

/// Whether `generation` is what `reply` comes to: the message of the body, or
/// an empty message and the failure with its diagnostic.
pub open spec fn concludes(reply: Reply, generation: Generation) -> bool {
    match reply {
        Reply::NetworkFailure(why) => {
            &&& generation.message@ == Seq::<char>::empty()
            &&& generation.failure matches Some(Failure::Network(d)) && d@ == why@
        },
        Reply::ReadFailure(why) => {
            &&& generation.message@ == Seq::<char>::empty()
            &&& generation.failure matches Some(Failure::Read(d)) && d@ == why@
        },
        Reply::Body(body) => match json_parse(body@) {
            Some(document) => {
                &&& reads_as(generation.message@, document)
                &&& generation.failure is None
            },
            None => {
                &&& generation.message@ == Seq::<char>::empty()
                &&& generation.failure matches Some(f) && f is Malformed
            },
        },
    }
}

/// Brings one request to its end. Every failure ends in an empty message, and
/// none is passed on in another way.
pub fn conclude(reply: Reply) -> (r: Generation)
    ensures
        concludes(reply, r),
        r.failure is Some ==> r.message@.len() == 0,
{
    match reply {
        Reply::NetworkFailure(why) => Generation {
            message: String::new(),
            failure: Some(Failure::Network(why)),
        },
        Reply::ReadFailure(why) => Generation {
            message: String::new(),
            failure: Some(Failure::Read(why)),
        },
        Reply::Body(body) => match extract_message(body.as_str()) {
            Ok(message) => Generation { message, failure: None },
            Err(failure) => Generation { message: String::new(), failure: Some(failure) },
        },
    }
}

impl Failure {
    /// The diagnostic of the failure, as a text to show.
    pub fn diagnostic(&self) -> (r: &str)
        ensures
            match *self {
                Failure::Network(d) => r@ == d@,
                Failure::Read(d) => r@ == d@,
                Failure::Malformed(d) => r@ == d@,
            },
    {
        match self {
            Failure::Network(d) => d.as_str(),
            Failure::Read(d) => d.as_str(),
            Failure::Malformed(d) => d.as_str(),
        }
    }
}

} // verus!
