//! Inbound negotiation: which format a request is in, how much of its body is
//! read, and what comes of decoding it.

use vstd::prelude::*;
use crate::codec::{decoded, read_payload};
use crate::format::Format;
use crate::media::{ContentType, MediaType};
use crate::outcome::{Failure, Outcome};
use crate::registry::Registry;

verus! {

/// The media type that an optional content type stands for.
pub open spec fn declared(content_type: Option<&ContentType>) -> Option<MediaType> {
    match content_type {
        Some(given) => Some(given@),
        None => None,
    }
}

/// The format in which a request that declares `content_type` is decoded:
/// the claimant of the declared type, and none where nothing is declared.
pub open spec fn decoder_for(content_type: Option<MediaType>, registry: Registry) -> Option<
    Format,
> {
    match content_type {
        Some(media) => registry.claimant(media),
        None => None,
    }
}

/// The part of `body` that is read under `limit`: all of it where it is no
/// longer than `limit`, else its first `limit` bytes.
pub open spec fn bounded(body: Seq<u8>, limit: u64) -> Seq<u8> {
    if body.len() <= limit {
        body
    } else {
        body.take(limit as int)
    }
}

/// What a reading of a claimed body amounts to: the payload that was read,
/// or a bad request where none was.
pub open spec fn outcome_of<P>(read: Option<P>) -> Outcome<P> {
    match read {
        Some(payload) => Outcome::Success(payload),
        None => Outcome::Failure(Failure::BadRequest),
    }
}

/// What decoding `body`, declared as `content_type`, ends in.
pub open spec fn decode_spec(
    content_type: Option<MediaType>,
    body: Seq<u8>,
    registry: Registry,
) -> Outcome<serde_json::Value> {
    match decoder_for(content_type, registry) {
        None => Outcome::Forward,
        Some(format) => outcome_of(decoded(format, bounded(body, registry.cap(format)))),
    }
}

/// Picks the format in which to decode a request: the first enabled format,
/// JSON before MessagePack, that accepts the declared content type. A request
/// that declares none, or one that no enabled format accepts, has no decoder.
pub fn select_decoder(content_type: Option<&ContentType>, registry: &Registry) -> (format: Option<
    Format,
>)
    ensures
        format == decoder_for(declared(content_type), *registry),
        format matches Some(chosen) ==> registry.enabled(chosen),
{
    match content_type {
        Some(given) => registry.claim(given),
        None => None,
    }
}

/// The prefix of `body` that may be read under `limit`.
pub fn bounded_body(body: &[u8], limit: u64) -> (head: &[u8])
    ensures
        head@ == bounded(body@, limit),
        head@.len() <= limit,
{
    let length = body.len();
    if length as u64 <= limit {
        body
    } else {
        let keep = limit as usize;
        vstd::slice::slice_subrange(body, 0, keep)
    }
}

/// Turns a reading of a claimed body into the outcome of the decode: a
/// payload is a success, and no payload is a bad request. This holds of the
/// codec's reading of the bytes, and as well of a later attempt to fit the
/// payload into a narrower type.
pub fn decode_outcome<P>(read: Option<P>) -> (outcome: Outcome<P>)
    ensures
        outcome == outcome_of(read),
{
    match read {
        Some(payload) => Outcome::Success(payload),
        None => Outcome::Failure(Failure::BadRequest),
    }
}

/// Decodes a request body.
///
/// A request whose content type is absent, or accepted by no enabled format,
/// is forwarded. Otherwise exactly one format claims it; at most that
/// format's limit of bytes is read from the front of `body`, and the codec's
/// reading of those bytes decides between success and a bad request.
pub fn decode(
    content_type: Option<&ContentType>,
    body: &[u8],
    registry: &Registry,
) -> (outcome: Outcome<serde_json::Value>)
    ensures
        outcome == decode_spec(declared(content_type), body@, *registry),
        outcome is Forward <==> decoder_for(declared(content_type), *registry) is None,
        outcome matches Outcome::Failure(failure) ==> failure == Failure::BadRequest,
{
    match select_decoder(content_type, registry) {
        None => Outcome::Forward,
        Some(format) => {
            let head = bounded_body(body, registry.limit(format));
            decode_outcome(read_payload(format, head))
        },
    }
}

} // verus!
