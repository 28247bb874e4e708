use soar::channel::HttpHandler;
use soar::channel::TransportOutcome;
use soar::codec::Codec;
use soar::codec::WirePayload;
use soar::codec::encode_decode_round_trip;
use soar::error::SoarError;
use soar::test_helpers::TestMessage;
use soar::test_helpers::TestMessageEmpty;
use soar::test_helpers::TestResponse;
use url::Url;

#[test]
fn json_encoding_is_decimal_digits() {
    assert_eq!(TestMessage(7).encode(Codec::Json), b"7".to_vec());
    assert_eq!(TestMessage(42).encode(Codec::Json), b"42".to_vec());
    assert_eq!(TestMessage(138).encode(Codec::Json), b"138".to_vec());
    assert_eq!(TestResponse(255).encode(Codec::Json), b"255".to_vec());
}

#[test]
fn binary_encoding_is_one_byte() {
    assert_eq!(TestMessage(138).encode(Codec::Binary), vec![138u8]);
    assert_eq!(TestMessage(0).encode(Codec::Binary), vec![0u8]);
}

#[test]
fn empty_payload_encodings() {
    assert_eq!(TestMessageEmpty.encode(Codec::Json), b"null".to_vec());
    assert_eq!(TestMessageEmpty.encode(Codec::Binary), Vec::<u8>::new());
    assert_eq!(encode_decode_round_trip(&TestMessageEmpty, Codec::Json), Ok(TestMessageEmpty));
    assert_eq!(encode_decode_round_trip(&TestMessageEmpty, Codec::Binary), Ok(TestMessageEmpty));
}

#[test]
fn round_trip_preserves_payloads() {
    for x in [0u8, 9, 10, 99, 100, 138, 255] {
        assert_eq!(encode_decode_round_trip(&TestMessage(x), Codec::Json), Ok(TestMessage(x)));
        assert_eq!(encode_decode_round_trip(&TestMessage(x), Codec::Binary), Ok(TestMessage(x)));
        assert_eq!(encode_decode_round_trip(&TestResponse(x), Codec::Json), Ok(TestResponse(x)));
        assert_eq!(encode_decode_round_trip(&TestResponse(x), Codec::Binary), Ok(TestResponse(x)));
    }
}

#[test]
fn garbage_body_is_a_serialization_error() {
    assert_eq!(TestMessage::decode(Codec::Json, b"not a number"), Err(SoarError::Serialization));
    assert_eq!(TestMessage::decode(Codec::Json, b""), Err(SoarError::Serialization));
    assert_eq!(TestMessage::decode(Codec::Binary, b""), Err(SoarError::Serialization));
}

#[test]
fn failed_exchange_is_a_transport_error() {
    let url = Url::parse("http://unreachable.invalid/test").unwrap();
    let handler: HttpHandler<TestMessage> = HttpHandler::new(url, Codec::Json);
    let resp = handler.decode_response(&TransportOutcome::Failed);
    assert_eq!(resp, Err(SoarError::Transport));
}

#[test]
fn undecodable_response_is_a_serialization_error() {
    let url = Url::parse("http://localhost/test").unwrap();
    let handler: HttpHandler<TestMessage> = HttpHandler::new(url, Codec::Json);
    let resp = handler.decode_response(&TransportOutcome::Delivered(b"{".to_vec()));
    assert_eq!(resp, Err(SoarError::Serialization));
}

#[test]
fn channel_test_http_channel() {
    let url = Url::parse("http://localhost/test").unwrap();
    let handler: HttpHandler<TestMessage> = HttpHandler::from(url);
    assert_eq!(handler.codec, Codec::Json);
    let body = handler.encode_request(&TestMessage(138));
    let received = TestMessage::decode(Codec::Json, body.as_slice()).unwrap();
    let reply = TestResponse(received.0).encode(Codec::Json);
    let res = handler.decode_response(&TransportOutcome::Delivered(reply)).unwrap();
    assert_eq!(res.0, 138);
}

#[test]
fn client_test_http_channel() {
    let url = Url::parse("http://localhost/test").unwrap();
    let handler: HttpHandler<TestMessage> = HttpHandler::new(url, Codec::Binary);
    let body = handler.encode_request(&TestMessage(138));
    let received = TestMessage::decode(Codec::Binary, body.as_slice()).unwrap();
    let reply = TestResponse(received.0).encode(Codec::Binary);
    let res = handler.decode_response(&TransportOutcome::Delivered(reply)).unwrap();
    assert_eq!(res.0, 138);
}
