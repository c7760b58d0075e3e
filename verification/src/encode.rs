//! Outbound negotiation: which format a response is written in, given the
//! media types that the client accepts, and what comes of encoding it.

use vstd::prelude::*;
use crate::codec::{encoded, write_payload};
use crate::format::Format;
use crate::media::{ContentType, MediaType};
use crate::outcome::Failure;
use crate::registry::Registry;

verus! {

/// The media types that an accept list stands for, in its order.
pub open spec fn offered(accept_list: Seq<ContentType>) -> Seq<MediaType> {
    accept_list.map_values(|entry: ContentType| entry@)
}

/// The format in which a response is written for a client that accepts
/// `accept`, most preferred first: the claimant of the first entry that has
/// one.
pub open spec fn encoder_for(accept: Seq<MediaType>, registry: Registry) -> Option<Format>
    decreases accept.len(),
{
    if accept.len() == 0 {
        None
    } else if registry.claimant(accept[0]) is Some {
        registry.claimant(accept[0])
    } else {
        encoder_for(accept.drop_first(), registry)
    }
}

/// What a codec's writing of a payload in `format` amounts to.
pub open spec fn response_of(format: Format, written: Option<Seq<u8>>) -> Result<
    (MediaType, Seq<u8>),
    Failure,
> {
    match written {
        Some(bytes) => Ok((format.canonical(), bytes)),
        None => Err(Failure::InternalError),
    }
}

/// What encoding `payload` for a client that accepts `accept` ends in.
pub open spec fn encode_spec(
    accept: Seq<MediaType>,
    payload: serde_json::Value,
    registry: Registry,
) -> Result<(MediaType, Seq<u8>), Failure> {
    match encoder_for(accept, registry) {
        None => Err(Failure::NotAcceptable),
        Some(format) => response_of(format, encoded(format, payload)),
    }
}

/// The mathematical value of an encoded response.
pub open spec fn sent(response: Result<(ContentType, Vec<u8>), Failure>) -> Result<
    (MediaType, Seq<u8>),
    Failure,
> {
    match response {
        Ok((content_type, body)) => Ok((content_type@, body@)),
        Err(failure) => Err(failure),
    }
}

/// Picks the format in which to write a response. The accept list is
/// scanned in the client's order of preference; the first entry that some
/// enabled format accepts decides, and among the formats JSON is asked before
/// MessagePack. Where no entry is accepted there is no encoder.
pub fn select_encoder(accept_list: &[ContentType], registry: &Registry) -> (format: Option<
    Format,
>)
    ensures
        format == encoder_for(offered(accept_list@), *registry),
        format matches Some(chosen) ==> registry.enabled(chosen),
{
    let ghost accept = offered(accept_list@);
    let mut i: usize = 0;
    assert(accept.skip(0) =~= accept);
    while i < accept_list.len()
        invariant
            i <= accept_list@.len(),
            accept == offered(accept_list@),
            encoder_for(accept, *registry) == encoder_for(accept.skip(i as int), *registry),
        decreases accept_list@.len() - i,
    {
        let claimed = registry.claim(&accept_list[i]);
        proof {
            let rest = accept.skip(i as int);
            assert(rest[0] == accept_list@[i as int]@);
            assert(rest.drop_first() =~= accept.skip(i + 1));
        }
        if claimed.is_some() {
            return claimed;
        }
        i += 1;
    }
    None
}

/// Turns what a codec wrote into the response: the bytes under the format's
/// own content type, or an internal error where the codec gave up.
pub fn encode_outcome(format: Format, written: Option<Vec<u8>>) -> (response: Result<
    (ContentType, Vec<u8>),
    Failure,
>)
    ensures
        sent(response) == response_of(
            format,
            match written {
                Some(bytes) => Some(bytes@),
                None => None,
            },
        ),
{
    match written {
        Some(bytes) => Ok((format.content_type(), bytes)),
        None => Err(Failure::InternalError),
    }
}

/// Encodes a response payload.
///
/// The format is the one `select_encoder` picks from the accept list. Where
/// it picks none the response is not acceptable; there is no fallback.
/// Otherwise the payload is written in that format and sent under the
/// format's own content type, and a payload that the codec cannot write is an
/// internal error.
pub fn encode(
    accept_list: &[ContentType],
    payload: &serde_json::Value,
    registry: &Registry,
) -> (response: Result<(ContentType, Vec<u8>), Failure>)
    ensures
        sent(response) == encode_spec(offered(accept_list@), *payload, *registry),
        response matches Err(failure) ==> {
            &&& failure != Failure::BadRequest
            &&& failure == Failure::NotAcceptable <==> encoder_for(
                offered(accept_list@),
                *registry,
            ) is None
        },
        response is Ok ==> encoder_for(offered(accept_list@), *registry) is Some,
{
    match select_encoder(accept_list, registry) {
        None => Err(Failure::NotAcceptable),
        Some(format) => encode_outcome(format, write_payload(format, payload)),
    }
}

} // verus!
