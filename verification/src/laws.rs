//! General facts about negotiation, each proved from the definitions that the
//! contracts of `decode` and `encode` are stated over.

use vstd::prelude::*;
use crate::codec::{decoded, encoded};
use crate::decode::{bounded, decode_spec, decoder_for, outcome_of};
use crate::encode::{encode_spec, encoder_for, response_of};
use crate::format::{lemma_format_accepts_its_own_type, Format};
use crate::media::MediaType;
use crate::outcome::{Failure, Outcome};
use crate::registry::{
    lemma_claimant_is_enabled_and_accepts,
    lemma_enabled_format_claims_its_types,
    Registry,
};

verus! {

/// What is written in a format is read in that format: the content type
/// under which a response is sent is claimed, on the way in, by the format
/// whose codec wrote the bytes.
pub proof fn lemma_response_is_claimed_by_its_format(
    registry: Registry,
    accept: Seq<MediaType>,
    payload: serde_json::Value,
    content_type: MediaType,
    bytes: Seq<u8>,
)
    requires
        encode_spec(accept, payload, registry) == Ok::<(MediaType, Seq<u8>), Failure>(
            (content_type, bytes),
        ),
    ensures
        encoder_for(accept, registry) is Some,
        decoder_for(Some(content_type), registry) == encoder_for(accept, registry),
        encoded(encoder_for(accept, registry).unwrap(), payload) == Some(bytes),
{
    lemma_encoder_is_enabled(registry, accept);
    let format = encoder_for(accept, registry).unwrap();
    lemma_format_accepts_its_own_type(format);
    lemma_enabled_format_claims_its_types(registry, format, format.canonical());
}

/// The encoder, where there is one, is an enabled format.
pub proof fn lemma_encoder_is_enabled(registry: Registry, accept: Seq<MediaType>)
    ensures
        encoder_for(accept, registry) matches Some(format) ==> registry.enabled(format),
    decreases accept.len(),
{
    if accept.len() > 0 && registry.claimant(accept[0]) is None {
        lemma_encoder_is_enabled(registry, accept.drop_first());
    }
}

/// Round trip. Take a payload, the bytes that an enabled format's codec
/// writes for it, and suppose that those bytes are valid, that is, the same
/// codec reads the payload back from them, and that they fit under the
/// format's limit. Then a client that accepts a media type of that format
/// first is sent exactly those bytes, under the format's own content type,
/// and decoding them under any media type of that format succeeds with the
/// payload.
pub proof fn lemma_round_trip(
    registry: Registry,
    format: Format,
    media: MediaType,
    payload: serde_json::Value,
    bytes: Seq<u8>,
)
    requires
        registry.enabled(format),
        format.accepts(media),
        encoded(format, payload) == Some(bytes),
        decoded(format, bytes) == Some(payload),
        bytes.len() <= registry.cap(format),
    ensures
        encode_spec(seq![media], payload, registry) == Ok::<(MediaType, Seq<u8>), Failure>(
            (format.canonical(), bytes),
        ),
        decode_spec(Some(media), bytes, registry) == Outcome::<serde_json::Value>::Success(
            payload,
        ),
        decode_spec(Some(format.canonical()), bytes, registry) == Outcome::<
            serde_json::Value,
        >::Success(payload),
{
    lemma_format_accepts_its_own_type(format);
    lemma_enabled_format_claims_its_types(registry, format, media);
    lemma_enabled_format_claims_its_types(registry, format, format.canonical());
    assert(seq![media][0] == media);
}

/// A request is forwarded exactly when no enabled format accepts what it
/// declares, and such a request never fails, whatever its body holds.
pub proof fn lemma_forward_iff_unclaimed(
    registry: Registry,
    content_type: Option<MediaType>,
    body: Seq<u8>,
)
    ensures
        decode_spec(content_type, body, registry) is Forward <==> (content_type matches Some(media)
            ==> forall|format: Format|
            !(registry.enabled(format) && #[trigger] format.accepts(media))),
        decoder_for(content_type, registry) is None ==> decode_spec(content_type, body, registry)
            == Outcome::<serde_json::Value>::Forward,
{
    match content_type {
        None => {},
        Some(media) => {
            lemma_claimant_is_enabled_and_accepts(registry, media);
        },
    }
}

/// A body that claims an enabled format and that the format's codec rejects
/// is a bad request; and a claimed body is a success only with the payload
/// that the codec read from it.
pub proof fn lemma_claimed_body_succeeds_or_is_bad_request(
    registry: Registry,
    media: MediaType,
    body: Seq<u8>,
)
    requires
        registry.claimant(media) is Some,
    ensures
        ({
            let format = registry.claimant(media).unwrap();
            let read = decoded(format, bounded(body, registry.cap(format)));
            &&& read is None ==> decode_spec(Some(media), body, registry) == Outcome::<
                serde_json::Value,
            >::Failure(Failure::BadRequest)
            &&& read matches Some(payload) ==> decode_spec(Some(media), body, registry)
                == Outcome::<serde_json::Value>::Success(payload)
        }),
{
}

/// Decoding depends on the body only through the bytes under the limit: two
/// bodies that agree there end in the same outcome.
pub proof fn lemma_decode_reads_no_further_than_limit(
    registry: Registry,
    content_type: Option<MediaType>,
    body: Seq<u8>,
    other: Seq<u8>,
)
    requires
        decoder_for(content_type, registry) matches Some(format) ==> bounded(
            body,
            registry.cap(format),
        ) == bounded(other, registry.cap(format)),
    ensures
        decode_spec(content_type, body, registry) == decode_spec(content_type, other, registry),
{
}

/// A body as long as the limit, or shorter, is decoded whole; a longer one
/// is decoded as if it ended at the limit.
pub proof fn lemma_limit_boundary(registry: Registry, media: MediaType, body: Seq<u8>)
    requires
        registry.claimant(media) is Some,
    ensures
        ({
            let format = registry.claimant(media).unwrap();
            let limit = registry.cap(format);
            &&& body.len() <= limit ==> decode_spec(Some(media), body, registry) == outcome_of(
                decoded(format, body),
            )
            &&& body.len() > limit ==> decode_spec(Some(media), body, registry) == outcome_of(
                decoded(format, body.take(limit as int)),
            )
        }),
{
}

/// The encoder is the claimant of the first claimed entry of the accept
/// list: entries before it that nothing claims do not matter, and neither
/// does anything after it.
pub proof fn lemma_first_claimed_entry_decides(
    registry: Registry,
    accept: Seq<MediaType>,
    at: int,
)
    requires
        0 <= at < accept.len(),
        registry.claimant(accept[at]) is Some,
        forall|before: int| 0 <= before < at ==> registry.claimant(#[trigger] accept[before])
            is None,
    ensures
        encoder_for(accept, registry) == registry.claimant(accept[at]),
    decreases accept.len(),
{
    if at > 0 {
        let rest = accept.drop_first();
        assert(registry.claimant(accept[0]) is None);
        assert forall|before: int| 0 <= before < at - 1 implies registry.claimant(
            #[trigger] rest[before],
        ) is None by {
            assert(rest[before] == accept[before + 1]);
        }
        assert(rest[at - 1] == accept[at]);
        lemma_first_claimed_entry_decides(registry, rest, at - 1);
    }
}

/// There is no encoder exactly when no entry of the accept list is claimed.
pub proof fn lemma_no_encoder_iff_nothing_claimed(registry: Registry, accept: Seq<MediaType>)
    ensures
        encoder_for(accept, registry) is None <==> forall|at: int|
            0 <= at < accept.len() ==> registry.claimant(#[trigger] accept[at]) is None,
    decreases accept.len(),
{
    if accept.len() > 0 {
        let rest = accept.drop_first();
        lemma_no_encoder_iff_nothing_claimed(registry, rest);
        if registry.claimant(accept[0]) is None {
            if encoder_for(accept, registry) is None {
                assert forall|at: int| 0 <= at < accept.len() implies registry.claimant(
                    #[trigger] accept[at],
                ) is None by {
                    if at > 0 {
                        assert(rest[at - 1] == accept[at]);
                    }
                }
            } else {
                let at = choose|at: int|
                    0 <= at < rest.len() && !(registry.claimant(#[trigger] rest[at]) is None);
                assert(rest[at] == accept[at + 1]);
            }
        }
    }
}

/// A client whose accept list holds no media type that an enabled format
/// accepts gets the not-acceptable failure, whatever the payload; and that
/// failure has no other cause.
pub proof fn lemma_not_acceptable_iff_nothing_accepted(
    registry: Registry,
    accept: Seq<MediaType>,
    payload: serde_json::Value,
)
    ensures
        encode_spec(accept, payload, registry) == Err::<(MediaType, Seq<u8>), Failure>(
            Failure::NotAcceptable,
        ) <==> forall|at: int, format: Format|
            0 <= at < accept.len() ==> !(registry.enabled(format) && #[trigger] format.accepts(
                accept[at],
            )),
{
    lemma_no_encoder_iff_nothing_claimed(registry, accept);
    if encoder_for(accept, registry) is None {
        assert forall|at: int, format: Format| 0 <= at < accept.len() implies !(registry.enabled(
            format,
        ) && #[trigger] format.accepts(accept[at])) by {
            assert(registry.claimant(accept[at]) is None);
            lemma_claimant_is_enabled_and_accepts(registry, accept[at]);
        }
    } else {
        let at = choose|at: int|
            0 <= at < accept.len() && !(registry.claimant(#[trigger] accept[at]) is None);
        lemma_claimant_is_enabled_and_accepts(registry, accept[at]);
        let format = registry.claimant(accept[at]).unwrap();
        assert(registry.enabled(format) && format.accepts(accept[at]));
    }
}

/// The client's order of preference decides, not the registry's: where the
/// first entry of the accept list is accepted by an enabled format, the
/// response is written in that format, whatever follows in the list. With
/// both formats enabled, a list that starts with a MessagePack type and goes
/// on with the JSON type is answered in MessagePack.
pub proof fn lemma_preference_order_decides(
    registry: Registry,
    format: Format,
    first: MediaType,
    rest: Seq<MediaType>,
    payload: serde_json::Value,
)
    requires
        registry.enabled(format),
        format.accepts(first),
    ensures
        encoder_for(seq![first] + rest, registry) == Some(format),
        encode_spec(seq![first] + rest, payload, registry) == response_of(
            format,
            encoded(format, payload),
        ),
{
    lemma_enabled_format_claims_its_types(registry, format, first);
    let accept = seq![first] + rest;
    assert(accept[0] == first);
}

/// A request that fails to decode is answered with a status of the 4xx
/// class: the client sent a body that is not what it claims to be.
pub proof fn lemma_decode_failure_is_the_clients(
    registry: Registry,
    content_type: Option<MediaType>,
    body: Seq<u8>,
)
    ensures
        decode_spec(content_type, body, registry) matches Outcome::Failure(failure) ==> 400
            <= failure.code() < 500,
{
}

/// A response that fails to encode is answered with 406 where the client
/// accepts nothing that is enabled, and else with a status of the 5xx class:
/// the codec could not write the payload.
pub proof fn lemma_encode_failure_is_406_or_the_servers(
    registry: Registry,
    accept: Seq<MediaType>,
    payload: serde_json::Value,
)
    ensures
        encode_spec(accept, payload, registry) matches Err(failure) ==> if encoder_for(
            accept,
            registry,
        ) is None {
            failure.code() == 406
        } else {
            500 <= failure.code() < 600
        },
{
}

} // verus!
