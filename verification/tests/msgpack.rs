use courier::decode::decode;
use courier::encode::encode;
use courier::format::Format;
use courier::media::ContentType;
use courier::outcome::{Failure, Outcome};
use courier::registry::Registry;
use serde_json::Value;

/// A request with the fields `foo` and `bar`, as MessagePack holds a record:
/// the fields in order, without their names.
fn custom_request(foo: &str, bar: usize) -> Value {
    Value::Array(vec![Value::from(foo), Value::from(bar)])
}

/// A response with the one field `baz`.
fn custom_response(baz: u64) -> Value {
    Value::Array(vec![Value::from(baz)])
}

/// What a handler mounted at `/test` does with its `<request>`: it checks
/// what it was handed and answers with `bar` as `baz`.
fn handler(request: &Value) -> Value {
    println!("Received request: {:?}", request);
    assert_eq!(&custom_request("Foo", 10), request);
    custom_response(request[1].as_u64().unwrap())
}

#[test]
fn msgpack_request_response() {
    let registry = Registry::new(true, true).unwrap();
    let body = rmp_serde::to_vec(&("Foo".to_string(), 10usize)).unwrap();
    let header = ContentType::new("application", "msgpack");
    let accept = [ContentType::new("application", "msgpack")];

    let request = match decode(Some(&header), &body, &registry) {
        Outcome::Success(request) => request,
        other => panic!("the request was not decoded: {:?}", other),
    };
    let response = encode(&accept, &handler(&request), &registry);
    assert!(response.is_ok());
    let (_, body) = response.expect("No body in test response");
    let response: (usize,) = rmp_serde::from_slice(&body).expect("Failed to parse response JSON");
    assert_eq!((10,), response);
}

#[test]
fn not_acceptable() {
    let registry = Registry::new(true, true).unwrap();
    let body = rmp_serde::to_vec(&("Foo".to_string(), 10usize)).unwrap();
    let header = ContentType::new("application", "msgpack");

    let request = match decode(Some(&header), &body, &registry) {
        Outcome::Success(request) => request,
        other => panic!("the request was not decoded: {:?}", other),
    };
    let response = encode(&[], &handler(&request), &registry);
    assert_eq!(Err(Failure::NotAcceptable), response);
    assert_eq!(406, Failure::NotAcceptable.status());
}

#[test]
fn msgpack_bytes_are_decoded_to_their_value() {
    let registry = Registry::new(false, true).unwrap();
    let header = ContentType::msgpack();

    // ["Foo", 10]
    let body = [0x92, 0xa3, b'F', b'o', b'o', 0x0a];
    assert_eq!(Outcome::Success(custom_request("Foo", 10)), decode(Some(&header), &body, &registry));

    // {"baz": 10}
    let body = [0x81, 0xa3, b'b', b'a', b'z', 0x0a];
    let mut fields = serde_json::Map::new();
    fields.insert("baz".to_string(), Value::from(10));
    assert_eq!(Outcome::Success(Value::Object(fields)), decode(Some(&header), &body, &registry));
}

#[test]
fn msgpack_payload_is_encoded_to_its_bytes() {
    let registry = Registry::new(false, true).unwrap();
    let accept = [ContentType::new("bin", "x-msgpack")];

    let (content_type, bytes) = encode(&accept, &custom_request("Foo", 10), &registry).unwrap();
    assert_eq!(vec![0x92, 0xa3, b'F', b'o', b'o', 0x0a], bytes);
    // Whatever alias the client accepted, the answer is sent as application/msgpack.
    assert_eq!(ContentType::new("application", "msgpack"), content_type);
}

#[test]
fn msgpack_round_trip() {
    let registry = Registry::new(true, true).unwrap();
    let mut fields = serde_json::Map::new();
    fields.insert("foo".to_string(), Value::from("Foo"));
    fields.insert("bar".to_string(), Value::from(10));
    fields.insert("neg".to_string(), Value::from(-70000));
    fields.insert("none".to_string(), Value::Null);
    fields.insert("list".to_string(), custom_request("x", 1));
    let payload = Value::Object(fields);

    let (content_type, bytes) = encode(&[ContentType::msgpack()], &payload, &registry).unwrap();
    assert_eq!(Outcome::Success(payload), decode(Some(&content_type), &bytes, &registry));
}

#[test]
fn msgpack_body_with_invalid_bytes_is_a_bad_request() {
    let registry = Registry::new(true, true).unwrap();
    let header = ContentType::msgpack();
    let bad_request = Outcome::Failure(Failure::BadRequest);

    // Nothing at all.
    assert_eq!(bad_request, decode(Some(&header), &[], &registry));
    // An array of two with one element.
    assert_eq!(bad_request, decode(Some(&header), &[0x92, 0x01], &registry));
    // The one byte that MessagePack never uses.
    assert_eq!(bad_request, decode(Some(&header), &[0xc1], &registry));
    // Binary data is no payload.
    assert_eq!(bad_request, decode(Some(&header), &[0xc4, 0x01, 0x00], &registry));
    // An extension type is no payload either.
    assert_eq!(bad_request, decode(Some(&header), &[0xd4, 0x01, 0x02], &registry));
    // A map whose key is no string.
    assert_eq!(bad_request, decode(Some(&header), &[0x81, 0x01, 0x02], &registry));
}

#[test]
fn msgpack_body_is_one_value_from_the_front() {
    let registry = Registry::new(true, true).unwrap();
    let header = ContentType::msgpack();

    assert_eq!(Outcome::Success(Value::from(10)), decode(Some(&header), &[0x0a], &registry));
    assert_eq!(Outcome::Success(Value::from(10)), decode(Some(&header), &[0x0a, 0xc1], &registry));
}

#[test]
fn msgpack_body_is_read_up_to_the_limit() {
    let body = rmp_serde::to_vec(&("Foo".to_string(), 10usize)).unwrap();
    let header = ContentType::new("application", "x-msgpack");
    let length = body.len() as u64;

    let exact = Registry::new(true, true).unwrap().with_limit(Format::MessagePack, length);
    assert_eq!(Outcome::Success(custom_request("Foo", 10)), decode(Some(&header), &body, &exact));

    let short = exact.with_limit(Format::MessagePack, length - 1);
    assert_eq!(Outcome::Failure(Failure::BadRequest), decode(Some(&header), &body, &short));

    let none = exact.with_limit(Format::MessagePack, 0);
    assert_eq!(Outcome::Failure(Failure::BadRequest), decode(Some(&header), &body, &none));
}

#[test]
fn msgpack_body_nested_too_deep_is_a_bad_request() {
    let registry = Registry::new(true, true).unwrap();
    let header = ContentType::msgpack();

    // Arrays of one element, one inside the other, around a nil.
    let mut body = vec![0x91u8; 1023];
    body.push(0xc0);
    assert!(matches!(decode(Some(&header), &body, &registry), Outcome::Success(_)));

    let mut body = vec![0x91u8; 1024];
    body.push(0xc0);
    assert_eq!(Outcome::Failure(Failure::BadRequest), decode(Some(&header), &body, &registry));

    let mut body = vec![0x91u8; 100_000];
    body.push(0xc0);
    assert_eq!(Outcome::Failure(Failure::BadRequest), decode(Some(&header), &body, &registry));
}
