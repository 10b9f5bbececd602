use envelope_codec::codec::{decode, encode};
use envelope_codec::envelope::{MessageType, Payload};

fn payload(version: u8, request_type: MessageType, data: Vec<u8>) -> Payload {
    Payload {
        version,
        request_type,
        data,
    }
}

#[test]
fn default_tag_is_http_request() {
    assert_eq!(MessageType::default(), MessageType::HttpRequest);
}

#[test]
fn concrete_scenario_encoding() {
    let p = payload(
        222,
        MessageType::default(),
        vec![1, 2, 3, 4, 5, 6, 7, 8, 9, 10],
    );
    let encoded = encode(&p).unwrap();
    assert_eq!(
        encoded,
        vec![1, 2, 3, 4, 5, 6, 7, 8, 9, 10, 0, 0, 244, 255, 255, 255, 10, 0, 0, 0, 222, 1, 0, 0]
    );
}

#[test]
fn round_trip_basic() {
    let p = payload(7, MessageType::HttpResponse, vec![9, 8, 7]);
    let encoded = encode(&p).unwrap();
    let decoded = decode(encoded).unwrap();
    assert_eq!(decoded, p);
}

#[test]
fn round_trip_request() {
    let p = payload(1, MessageType::HttpRequest, vec![0, 255, 0, 255, 42]);
    let decoded = decode(encode(&p).unwrap()).unwrap();
    assert_eq!(decoded, p);
}

#[test]
fn encode_is_deterministic() {
    let p = payload(100, MessageType::HttpRequest, vec![4, 5, 6, 7]);
    assert_eq!(encode(&p).unwrap(), encode(&p.clone()).unwrap());
}

#[test]
fn encoded_length_is_padded_data_plus_trailer() {
    for n in 0..9usize {
        let p = payload(1, MessageType::HttpRequest, vec![0xAB; n]);
        let aligned = (n + 3) / 4 * 4;
        assert_eq!(encode(&p).unwrap().len(), aligned + 12);
    }
}

#[test]
fn tag_byte_one_decodes_to_request() {
    // Canonical envelope with empty data: zero back-offset, zero length,
    // then version, tag, and two pad bytes.
    let b = vec![0, 0, 0, 0, 0, 0, 0, 0, 33, 1, 0, 0];
    let decoded = decode(b).unwrap();
    assert_eq!(decoded.request_type, MessageType::HttpRequest);
    assert_eq!(decoded.version, 33);
    assert_eq!(decoded.data, Vec::<u8>::new());
}

#[test]
fn tag_byte_two_decodes_to_response() {
    let b = vec![0, 0, 0, 0, 0, 0, 0, 0, 33, 2, 0, 0];
    let decoded = decode(b).unwrap();
    assert_eq!(decoded.request_type, MessageType::HttpResponse);
    assert_eq!(decoded.version, 33);
    assert_eq!(decoded.data, Vec::<u8>::new());
}

#[test]
fn undefined_tag_byte_falls_back() {
    // Tag ordinal 3 is not defined, so the whole buffer degrades to the
    // sentinel payload instead of a third variant or an error.
    let b = vec![0, 0, 0, 0, 0, 0, 0, 0, 33, 3, 0, 0];
    let decoded = decode(b.clone()).unwrap();
    assert_eq!(decoded, payload(0, MessageType::HttpResponse, b));
}

#[test]
fn reserved_tag_byte_zero_falls_back() {
    let b = vec![0, 0, 0, 0, 0, 0, 0, 0, 33, 0, 0, 0];
    let decoded = decode(b.clone()).unwrap();
    assert_eq!(decoded, payload(0, MessageType::HttpResponse, b));
}

#[test]
fn short_input_falls_back() {
    let b = vec![10, 20, 30];
    let decoded = decode(b.clone()).unwrap();
    assert_eq!(decoded, payload(0, MessageType::HttpResponse, b));
}

#[test]
fn empty_input_falls_back() {
    let decoded = decode(Vec::new()).unwrap();
    assert_eq!(decoded, payload(0, MessageType::HttpResponse, Vec::new()));
}

#[test]
fn unaligned_length_falls_back() {
    let b = vec![0; 13];
    let decoded = decode(b.clone()).unwrap();
    assert_eq!(decoded, payload(0, MessageType::HttpResponse, b));
}

#[test]
fn garbage_trailer_falls_back() {
    let b = vec![255; 12];
    let decoded = decode(b.clone()).unwrap();
    assert_eq!(decoded, payload(0, MessageType::HttpResponse, b));
}

#[test]
fn wrong_back_offset_falls_back() {
    // A valid 16-byte envelope would carry back-offset -4; this one says -8.
    let b = vec![1, 2, 3, 4, 248, 255, 255, 255, 4, 0, 0, 0, 9, 1, 0, 0];
    let decoded = decode(b.clone()).unwrap();
    assert_eq!(decoded, payload(0, MessageType::HttpResponse, b));
}

#[test]
fn overlong_stored_length_falls_back() {
    // The stored length claims 5 data bytes but only 4 fit before the trailer.
    let b = vec![1, 2, 3, 4, 252, 255, 255, 255, 5, 0, 0, 0, 9, 1, 0, 0];
    let decoded = decode(b.clone()).unwrap();
    assert_eq!(decoded, payload(0, MessageType::HttpResponse, b));
}

#[test]
fn nonzero_data_padding_falls_back() {
    // Three data bytes padded to four: the pad byte must be zero, not 7.
    let b = vec![1, 2, 3, 7, 252, 255, 255, 255, 3, 0, 0, 0, 9, 1, 0, 0];
    let decoded = decode(b.clone()).unwrap();
    assert_eq!(decoded, payload(0, MessageType::HttpResponse, b));
}

#[test]
fn nonzero_trailer_padding_falls_back() {
    let b = vec![0, 0, 0, 0, 0, 0, 0, 0, 33, 1, 0, 1];
    let decoded = decode(b.clone()).unwrap();
    assert_eq!(decoded, payload(0, MessageType::HttpResponse, b));
}

#[test]
fn padded_data_round_trips() {
    let b = vec![1, 2, 3, 0, 252, 255, 255, 255, 3, 0, 0, 0, 9, 1, 0, 0];
    let decoded = decode(b).unwrap();
    assert_eq!(decoded, payload(9, MessageType::HttpRequest, vec![1, 2, 3]));
}

#[test]
fn empty_data_round_trips() {
    let p = payload(5, MessageType::HttpRequest, Vec::new());
    let encoded = encode(&p).unwrap();
    assert_eq!(encoded.len(), 12);
    let decoded = decode(encoded).unwrap();
    assert_eq!(decoded, p);
}

#[test]
fn large_data_round_trips() {
    let mut data = Vec::with_capacity(3 * 1024 * 1024);
    for i in 0..3 * 1024 * 1024usize {
        data.push((i % 251) as u8);
    }
    let p = payload(200, MessageType::HttpResponse, data);
    let encoded = encode(&p).unwrap();
    assert_eq!(encoded.len(), 3 * 1024 * 1024 + 12);
    let decoded = decode(encoded).unwrap();
    assert_eq!(decoded, p);
}

#[test]
fn version_byte_is_round_tripped_opaquely() {
    for version in [0u8, 1, 127, 222, 255] {
        let p = payload(version, MessageType::HttpRequest, vec![1]);
        let decoded = decode(encode(&p).unwrap()).unwrap();
        assert_eq!(decoded.version, version);
    }
}

#[test]
fn payload_equality_is_field_wise() {
    let a = payload(1, MessageType::HttpRequest, vec![1, 2]);
    let b = payload(1, MessageType::HttpRequest, vec![1, 2]);
    let c = payload(1, MessageType::HttpRequest, vec![1, 3]);
    let d = payload(2, MessageType::HttpRequest, vec![1, 2]);
    let e = payload(1, MessageType::HttpResponse, vec![1, 2]);
    assert_eq!(a, b);
    assert_ne!(a, c);
    assert_ne!(a, d);
    assert_ne!(a, e);
}
