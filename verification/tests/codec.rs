use tarpc::codec::{
    decode_envelope, encode_frame, on_stream_end, split_frame, Config, DEFAULT_MAX_FRAME_LEN,
};
use tarpc::envelope::{Body, Envelope};
use tarpc::errors::{FramingError, ServiceError};

fn request(id: u64, method: &[u8], args: &[u8]) -> Envelope {
    Envelope {
        id,
        body: Body::Request { method: method.to_vec(), args: args.to_vec() },
    }
}

fn response_ok(id: u64, value: &[u8]) -> Envelope {
    Envelope { id, body: Body::Response { result: Ok(value.to_vec()) } }
}

fn response_err(id: u64, detail: &[u8]) -> Envelope {
    Envelope {
        id,
        body: Body::Response { result: Err(ServiceError { detail: detail.to_vec() }) },
    }
}

#[test]
fn default_config_max() {
    let config: Config = Default::default();
    assert_eq!(config.max_frame_len, DEFAULT_MAX_FRAME_LEN);
    assert_eq!(config.max_frame_len, 8 * 1024 * 1024);
}

#[test]
fn request_frame_exact_bytes() {
    let config = Config::new(1024);
    let frame = encode_frame(&request(1, b"hello", b"Mom"), &config).unwrap();
    let mut expected: Vec<u8> = Vec::new();
    expected.extend_from_slice(&[0, 0, 0, 21]); // payload length prefix
    expected.extend_from_slice(&[0, 0, 0, 0, 0, 0, 0, 1]); // correlation id
    expected.push(0); // request discriminator
    expected.extend_from_slice(&[0, 0, 0, 5]); // selector length
    expected.extend_from_slice(b"hello");
    expected.extend_from_slice(b"Mom");
    assert_eq!(frame, expected);
}

#[test]
fn response_frame_exact_bytes() {
    let config = Config::new(1024);
    let frame = encode_frame(&response_ok(1, b"Hello, Mom!"), &config).unwrap();
    let mut expected: Vec<u8> = Vec::new();
    expected.extend_from_slice(&[0, 0, 0, 21]);
    expected.extend_from_slice(&[0, 0, 0, 0, 0, 0, 0, 1]);
    expected.push(1); // response discriminator
    expected.push(0); // success outcome
    expected.extend_from_slice(b"Hello, Mom!");
    assert_eq!(frame, expected);
}

#[test]
fn round_trip_request() {
    let config = Config::new(4096);
    let e = request(7, b"concat", b"\x01\x02\x03");
    let mut buf = encode_frame(&e, &config).unwrap();
    let payload = split_frame(&mut buf, &config).unwrap().unwrap();
    assert!(buf.is_empty());
    let decoded = decode_envelope(&payload).unwrap();
    assert_eq!(decoded, e);
}

#[test]
fn round_trip_response_ok() {
    let config = Config::new(4096);
    let e = response_ok(42, b"value-bytes");
    let mut buf = encode_frame(&e, &config).unwrap();
    let payload = split_frame(&mut buf, &config).unwrap().unwrap();
    let decoded = decode_envelope(&payload).unwrap();
    assert_eq!(decoded, e);
}

#[test]
fn round_trip_response_err() {
    let config = Config::new(4096);
    let e = response_err(42, b"boom");
    let mut buf = encode_frame(&e, &config).unwrap();
    let payload = split_frame(&mut buf, &config).unwrap().unwrap();
    let decoded = decode_envelope(&payload).unwrap();
    assert_eq!(decoded, e);
}

#[test]
fn round_trip_empty_bodies() {
    let config = Config::new(64);
    for e in [request(1, b"", b""), response_ok(2, b""), response_err(3, b"")] {
        let mut buf = encode_frame(&e, &config).unwrap();
        let payload = split_frame(&mut buf, &config).unwrap().unwrap();
        assert_eq!(decode_envelope(&payload).unwrap(), e);
    }
}

#[test]
fn encode_rejects_oversized_payload() {
    let config = Config::new(16);
    let r = encode_frame(&request(1, b"m", &[0u8; 64]), &config);
    assert_eq!(r, Err(FramingError::TooLarge));
    // The boundary: a response payload is 10 bytes plus the value.
    assert!(encode_frame(&response_ok(1, &[9u8; 6]), &config).is_ok());
    assert_eq!(
        encode_frame(&response_ok(1, &[9u8; 7]), &config),
        Err(FramingError::TooLarge)
    );
}

#[test]
fn oversized_declared_length_rejected_before_buffering() {
    let config = Config::new(1024);
    // A prefix declaring ~4 GiB arrives with only a few bytes behind it:
    // the frame is rejected from the prefix alone.
    let mut buf = vec![0xff, 0xff, 0xff, 0xf0, 1, 2, 3];
    let r = split_frame(&mut buf, &config);
    assert_eq!(r, Err(FramingError::TooLarge));
    assert_eq!(buf, vec![0xff, 0xff, 0xff, 0xf0, 1, 2, 3]);
}

#[test]
fn incomplete_frames_wait_for_more() {
    let config = Config::new(1024);
    let mut buf = vec![0, 0];
    assert_eq!(split_frame(&mut buf, &config), Ok(None)); // prefix incomplete
    let mut buf = vec![0, 0, 0, 5, 1, 2];
    assert_eq!(split_frame(&mut buf, &config), Ok(None)); // payload incomplete
    assert_eq!(buf, vec![0, 0, 0, 5, 1, 2]);
}

#[test]
fn split_leaves_following_bytes() {
    let config = Config::new(1024);
    let first = encode_frame(&response_ok(1, b"a"), &config).unwrap();
    let second = encode_frame(&response_ok(2, b"b"), &config).unwrap();
    let mut buf = first;
    buf.extend_from_slice(&second);
    let p1 = split_frame(&mut buf, &config).unwrap().unwrap();
    assert_eq!(decode_envelope(&p1).unwrap(), response_ok(1, b"a"));
    let p2 = split_frame(&mut buf, &config).unwrap().unwrap();
    assert_eq!(decode_envelope(&p2).unwrap(), response_ok(2, b"b"));
    assert!(buf.is_empty());
    assert_eq!(split_frame(&mut buf, &config), Ok(None));
}

#[test]
fn stream_end_mid_frame_is_truncated() {
    let leftover = vec![0, 0, 0, 9, 1, 2];
    assert_eq!(on_stream_end(&leftover), Err(FramingError::Truncated));
    assert_eq!(on_stream_end(&Vec::new()), Ok(()));
}

#[test]
fn malformed_payloads_do_not_decode() {
    assert_eq!(decode_envelope(&[]), None);
    assert_eq!(decode_envelope(&[0, 0, 0, 0, 0, 0, 0, 1]), None); // id only
    // Unknown discriminator.
    assert_eq!(decode_envelope(&[0, 0, 0, 0, 0, 0, 0, 1, 7]), None);
    // Request whose declared selector length overruns the payload.
    assert_eq!(
        decode_envelope(&[0, 0, 0, 0, 0, 0, 0, 1, 0, 0, 0, 0, 9, b'x']),
        None
    );
    // Response with an unknown outcome byte.
    assert_eq!(decode_envelope(&[0, 0, 0, 0, 0, 0, 0, 1, 1, 9]), None);
    // Response cut off before the outcome byte.
    assert_eq!(decode_envelope(&[0, 0, 0, 0, 0, 0, 0, 1, 1]), None);
}
