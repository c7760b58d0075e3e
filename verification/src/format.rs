//! The wire formats and the media types they answer to.

use vstd::prelude::*;
use crate::media::{lemma_json_and_msgpack_are_disjoint, ContentType, MediaType};

verus! {

/// The number of body bytes a format reads unless a registry is told
/// otherwise: one mebibyte, for either format.
pub const DEFAULT_LIMIT: u64 = 1_048_576;

/// A wire format the library can read and write. Where an order among the
/// formats matters, JSON comes before MessagePack.
#[derive(Clone, Copy, Debug, PartialEq, Eq, Structural)]
pub enum Format {
    Json,
    MessagePack,
}

impl Format {
    /// Whether a body declared as `media` is in this format.
    pub open spec fn accepts(self, media: MediaType) -> bool {
        match self {
            Format::Json => media.is_json(),
            Format::MessagePack => media.is_msgpack(),
        }
    }

    /// The media type under which this format's output is sent.
    pub open spec fn canonical(self) -> MediaType {
        match self {
            Format::Json => MediaType { top: "application"@, sub: "json"@ },
            Format::MessagePack => MediaType { top: "application"@, sub: "msgpack"@ },
        }
    }

    /// The cap on body bytes that a registry starts with for this format.
    pub open spec fn default_cap(self) -> u64 {
        DEFAULT_LIMIT
    }

    /// Whether a body declared as `content_type` is in this format.
    pub fn matches(self, content_type: &ContentType) -> (yes: bool)
        ensures
            yes == self.accepts(content_type@),
    {
        match self {
            Format::Json => content_type.is_json(),
            Format::MessagePack => content_type.is_msgpack(),
        }
    }

    /// The media type under which this format's output is sent:
    /// `application/json` or `application/msgpack`.
    pub fn content_type(self) -> (content_type: ContentType)
        ensures
            content_type@ == self.canonical(),
    {
        match self {
            Format::Json => ContentType::json(),
            Format::MessagePack => ContentType::msgpack(),
        }
    }

    /// The cap on body bytes that a registry starts with for this format.
    pub fn default_limit(self) -> (limit: u64)
        ensures
            limit == self.default_cap(),
    {
        DEFAULT_LIMIT
    }
}

/// A format accepts the media type it sends its own output under.
pub proof fn lemma_format_accepts_its_own_type(format: Format)
    ensures
        format.accepts(format.canonical()),
{
}

/// At most one format accepts a given media type.
pub proof fn lemma_one_format_per_type(first: Format, second: Format, media: MediaType)
    requires
        first.accepts(media),
        second.accepts(media),
    ensures
        first == second,
{
    lemma_json_and_msgpack_are_disjoint(media);
}

} // verus!
