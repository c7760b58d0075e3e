//! The two codecs. JSON is read and written by `serde_json`, MessagePack by
//! `rmp_serde`; this module is the only place where either is called.
//!
//! Neither codec is verified here. What a codec makes of given bytes, or of a
//! given payload, is a value that depends on nothing else, so each of the four
//! calls gets a name, and the contracts of the library are stated over those
//! names.

use vstd::prelude::*;
use crate::format::Format;

verus! {

/// A decoded payload: a tree of maps, arrays, strings, numbers, booleans and
/// nulls. The library carries payloads and never looks into them.
#[verifier::external_type_specification]
#[verifier::external_body]
pub struct ExJsonValue(serde_json::Value);

/// Why `serde_json` could not read or write. The library tells no two of
/// these errors apart.
#[verifier::external_type_specification]
#[verifier::external_body]
pub struct ExJsonError(serde_json::Error);

/// Why `rmp_serde` could not read.
#[verifier::external_type_specification]
#[verifier::external_body]
pub struct ExMsgpackDecodeError(rmp_serde::decode::Error);

/// Why `rmp_serde` could not write.
#[verifier::external_type_specification]
#[verifier::external_body]
pub struct ExMsgpackEncodeError(rmp_serde::encode::Error);

/// The payload that `serde_json::from_slice` reads from `bytes`, or `None`
/// where it reports an error.
pub uninterp spec fn json_decoded(bytes: Seq<u8>) -> Option<serde_json::Value>;

/// The bytes that `serde_json::to_vec` writes for `payload`, or `None` where
/// it reports an error.
pub uninterp spec fn json_encoded(payload: serde_json::Value) -> Option<Seq<u8>>;

/// The payload that `rmp_serde::from_slice` reads from `bytes`, or `None`
/// where it reports an error.
pub uninterp spec fn msgpack_decoded(bytes: Seq<u8>) -> Option<serde_json::Value>;

/// The bytes that `rmp_serde::to_vec` writes for `payload`, or `None` where
/// it reports an error.
pub uninterp spec fn msgpack_encoded(payload: serde_json::Value) -> Option<Seq<u8>>;

/// What `format`'s codec reads from `bytes`.
pub open spec fn decoded(format: Format, bytes: Seq<u8>) -> Option<serde_json::Value> {
    match format {
        Format::Json => json_decoded(bytes),
        Format::MessagePack => msgpack_decoded(bytes),
    }
}

/// What `format`'s codec writes for `payload`.
pub open spec fn encoded(format: Format, payload: serde_json::Value) -> Option<Seq<u8>> {
    match format {
        Format::Json => json_encoded(payload),
        Format::MessagePack => msgpack_encoded(payload),
    }
}

/// Calls `serde_json::from_slice`, asking for a `serde_json::Value`.
///
/// Trusted, not proved. The call parses the whole slice as one JSON text and
/// reports an error on anything else: text that ends early, characters other
/// than whitespace after the value, arrays and objects nested 128 deep. What
/// it returns depends on the bytes alone, and the contract claims no more
/// than that: the outcome is the one named `json_decoded`.
#[verifier::external_body]
fn json_from_slice(bytes: &[u8]) -> (read: Result<serde_json::Value, serde_json::Error>)
    ensures
        match read {
            Ok(payload) => json_decoded(bytes@) == Some(payload),
            Err(_) => json_decoded(bytes@) is None,
        },
{
    serde_json::from_slice::<serde_json::Value>(bytes)
}

/// Calls `serde_json::to_vec`.
///
/// Trusted, not proved. The call writes the payload as compact JSON text
/// into a fresh vector, the fields of an object in the order in which the
/// payload holds them. What it returns depends on the payload alone, and the
/// contract claims no more than that: the outcome is the one named
/// `json_encoded`.
#[verifier::external_body]
fn json_to_vec(payload: &serde_json::Value) -> (written: Result<Vec<u8>, serde_json::Error>)
    ensures
        match written {
            Ok(bytes) => json_encoded(*payload) == Some(bytes@),
            Err(_) => json_encoded(*payload) is None,
        },
{
    serde_json::to_vec(payload)
}

/// Calls `rmp_serde::from_slice`, asking for a `serde_json::Value`.
///
/// Trusted, not proved. The call reads one MessagePack value from the front
/// of the slice and leaves what follows it unread. It reports an error where
/// the slice ends early, where arrays and maps are nested 1024 deep, and
/// where the value holds what a payload cannot: binary data, an extension
/// type, a map key that is no string. What it returns depends on the bytes
/// alone, and the contract claims no more than that: the outcome is the one
/// named `msgpack_decoded`.
#[verifier::external_body]
fn msgpack_from_slice(bytes: &[u8]) -> (read: Result<
    serde_json::Value,
    rmp_serde::decode::Error,
>)
    ensures
        match read {
            Ok(payload) => msgpack_decoded(bytes@) == Some(payload),
            Err(_) => msgpack_decoded(bytes@) is None,
        },
{
    rmp_serde::from_slice::<serde_json::Value>(bytes)
}

/// Calls `rmp_serde::to_vec`.
///
/// Trusted, not proved. The call writes the payload as one MessagePack value
/// into a fresh vector. What it returns depends on the payload alone, and the
/// contract claims no more than that: the outcome is the one named
/// `msgpack_encoded`.
#[verifier::external_body]
fn msgpack_to_vec(payload: &serde_json::Value) -> (written: Result<
    Vec<u8>,
    rmp_serde::encode::Error,
>)
    ensures
        match written {
            Ok(bytes) => msgpack_encoded(*payload) == Some(bytes@),
            Err(_) => msgpack_encoded(*payload) is None,
        },
{
    rmp_serde::to_vec(payload)
}

/// Reads a payload from `bytes` with `format`'s codec. `None` means that the
/// codec rejected the bytes.
pub fn read_payload(format: Format, bytes: &[u8]) -> (payload: Option<serde_json::Value>)
    ensures
        payload == decoded(format, bytes@),
{
    match format {
        Format::Json => match json_from_slice(bytes) {
            Ok(payload) => Some(payload),
            Err(_) => None,
        },
        Format::MessagePack => match msgpack_from_slice(bytes) {
            Ok(payload) => Some(payload),
            Err(_) => None,
        },
    }
}

/// Writes `payload` with `format`'s codec. `None` means that the codec could
/// not serialise the payload.
pub fn write_payload(format: Format, payload: &serde_json::Value) -> (bytes: Option<Vec<u8>>)
    ensures
        match bytes {
            Some(written) => encoded(format, *payload) == Some(written@),
            None => encoded(format, *payload) is None,
        },
{
    match format {
        Format::Json => match json_to_vec(payload) {
            Ok(bytes) => Some(bytes),
            Err(_) => None,
        },
        Format::MessagePack => match msgpack_to_vec(payload) {
            Ok(bytes) => Some(bytes),
            Err(_) => None,
        },
    }
}

} // verus!
