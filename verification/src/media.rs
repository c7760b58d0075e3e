//! Media types: the `type/subtype` pair that a message declares for its body
//! or lists among the types it accepts.

use vstd::prelude::*;
use crate::text::same_text;

verus! {

/// The mathematical value of a media type: its two components as sequences
/// of characters.
pub ghost struct MediaType {
    pub top: Seq<char>,
    pub sub: Seq<char>,
}

impl MediaType {
    /// The standard JSON media type, `application/json`, and nothing else.
    pub open spec fn is_json(self) -> bool {
        self.top == "application"@ && self.sub == "json"@
    }

    /// One of `application/msgpack`, `application/x-msgpack`, `bin/msgpack`
    /// and `bin/x-msgpack`.
    pub open spec fn is_msgpack(self) -> bool {
        (self.top == "application"@ || self.top == "bin"@) && (self.sub == "msgpack"@ || self.sub
            == "x-msgpack"@)
    }
}

/// A media type as found in a `Content-Type` header or in one entry of an
/// `Accept` header. Both components are compared exactly, case included.
#[derive(Clone, Debug, PartialEq, Eq)]
pub struct ContentType {
    top: String,
    sub: String,
}

impl View for ContentType {
    type V = MediaType;

    closed spec fn view(&self) -> MediaType {
        MediaType { top: self.top@, sub: self.sub@ }
    }
}

impl ContentType {
    /// The media type `top/sub`.
    pub fn new(top: &str, sub: &str) -> (content_type: ContentType)
        ensures
            content_type@ == (MediaType { top: top@, sub: sub@ }),
    {
        ContentType { top: top.to_owned(), sub: sub.to_owned() }
    }

    /// `application/json`.
    pub fn json() -> (content_type: ContentType)
        ensures
            content_type@ == (MediaType { top: "application"@, sub: "json"@ }),
            content_type@.is_json(),
    {
        ContentType::new("application", "json")
    }

    /// `application/msgpack`.
    pub fn msgpack() -> (content_type: ContentType)
        ensures
            content_type@ == (MediaType { top: "application"@, sub: "msgpack"@ }),
            content_type@.is_msgpack(),
    {
        ContentType::new("application", "msgpack")
    }

    /// The top-level type, such as `application`.
    pub fn top(&self) -> (top: &str)
        ensures
            top@ == self@.top,
    {
        self.top.as_str()
    }

    /// The subtype, such as `json`.
    pub fn sub(&self) -> (sub: &str)
        ensures
            sub@ == self@.sub,
    {
        self.sub.as_str()
    }

    /// Whether this is the JSON media type.
    pub fn is_json(&self) -> (yes: bool)
        ensures
            yes == self@.is_json(),
    {
        same_text(self.top.as_str(), "application") && same_text(self.sub.as_str(), "json")
    }

    /// Whether this is one of the four MessagePack media types.
    pub fn is_msgpack(&self) -> (yes: bool)
        ensures
            yes == self@.is_msgpack(),
    {
        let top = self.top.as_str();
        let sub = self.sub.as_str();
        (same_text(top, "application") || same_text(top, "bin")) && (same_text(sub, "msgpack")
            || same_text(sub, "x-msgpack"))
    }
}

/// No media type is both JSON and MessagePack.
pub proof fn lemma_json_and_msgpack_are_disjoint(media: MediaType)
    ensures
        !(media.is_json() && media.is_msgpack()),
{
    reveal_strlit("json");
    reveal_strlit("msgpack");
    reveal_strlit("x-msgpack");
    assert("json"@.len() == 4);
    assert("msgpack"@.len() == 7);
    assert("x-msgpack"@.len() == 9);
}

} // verus!
