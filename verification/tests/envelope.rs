//! The buffered envelope protocol: encoding rule, body codec, and the
//! round-trip behaviour of both body kinds.

use cgid::types::{
    decode_body, encode_body, is_json_content_type, to_http_response, CgidError, EncType,
    ProcessRequest, ProcessResponse,
};

#[test]
fn only_the_json_essence_selects_raw_encoding() {
    assert!(is_json_content_type(&b"application/json".to_vec()));
    assert!(!is_json_content_type(&b"text/plain".to_vec()));
    assert!(!is_json_content_type(&b"application/jso".to_vec()));
    assert!(!is_json_content_type(&b"application/jsonx".to_vec()));
    assert!(!is_json_content_type(&b"".to_vec()));
}

fn headers() -> Vec<(String, String)> {
    vec![
        ("host".to_string(), "example.test".to_string()),
        ("x-two".to_string(), "b".to_string()),
    ]
}

#[test]
fn non_json_body_is_base64() {
    let r = ProcessRequest::from(
        "POST".to_string(),
        "http://example.test/hello".to_string(),
        headers(),
        Some(b"application/octet-stream".to_vec()),
        Some(b"hi".to_vec()),
    )
    .unwrap();
    assert!(matches!(r.encoding, EncType::Base64));
    assert_eq!(r.body, Some(b"aGk=".to_vec()));
}

#[test]
fn json_body_is_reserialized_raw() {
    let r = ProcessRequest::from(
        "POST".to_string(),
        "http://example.test/hello".to_string(),
        headers(),
        Some(b"application/json".to_vec()),
        Some(b"{ \"a\" : 1 }".to_vec()),
    )
    .unwrap();
    assert!(matches!(r.encoding, EncType::Raw));
    assert_eq!(r.body, Some(b"{\"a\":1}".to_vec()));
}

#[test]
fn json_claim_with_bad_body_is_rejected() {
    let r = ProcessRequest::from(
        "POST".to_string(),
        "u".to_string(),
        Vec::new(),
        Some(b"application/json".to_vec()),
        Some(b"not json".to_vec()),
    );
    assert!(matches!(r, Err(CgidError::JsonError)));
}

#[test]
fn empty_body_stays_empty_and_parts_are_kept() {
    let r = ProcessRequest::from(
        "GET".to_string(),
        "http://example.test/hello".to_string(),
        headers(),
        Some(b"application/json".to_vec()),
        None,
    )
    .unwrap();
    assert_eq!(r.method, "GET");
    assert_eq!(r.url, "http://example.test/hello");
    assert_eq!(r.headers, headers());
    assert!(matches!(r.encoding, EncType::Raw));
    assert!(r.body.is_none());
}

#[test]
fn encode_body_without_content_is_none() {
    assert_eq!(encode_body(false, None), Ok(None));
    assert_eq!(encode_body(true, None), Ok(None));
}

#[test]
fn decode_raw_is_verbatim() {
    let r = decode_body(&EncType::Raw, Some(b"anything at all".to_vec()));
    assert_eq!(r, Ok(Some(b"anything at all".to_vec())));
    assert_eq!(decode_body(&EncType::Raw, None), Ok(None));
}

#[test]
fn decode_base64_inverts_encoding() {
    let r = decode_body(&EncType::Base64, Some(b"aGVsbG8=".to_vec()));
    assert_eq!(r, Ok(Some(b"hello".to_vec())));
    assert_eq!(decode_body(&EncType::Base64, None), Ok(None));
}

#[test]
fn decode_malformed_base64_fails() {
    let r = decode_body(&EncType::Base64, Some(b"!!!not base64!!!".to_vec()));
    assert!(matches!(r, Err(CgidError::Base64)));
}

#[test]
fn non_json_body_round_trips_byte_for_byte() {
    let original: Vec<u8> = vec![0, 1, 2, 255, 254, 10, 13, 0];
    let enveloped = ProcessRequest::from(
        "POST".to_string(),
        "u".to_string(),
        Vec::new(),
        None,
        Some(original.clone()),
    )
    .unwrap();
    let delivered = decode_body(&enveloped.encoding, enveloped.body).unwrap();
    assert_eq!(delivered, Some(original));
}

#[test]
fn json_body_round_trips_as_the_same_value() {
    let original = b"{ \"b\" : [1, 2, { \"c\" : null }] }".to_vec();
    let enveloped = ProcessRequest::from(
        "POST".to_string(),
        "u".to_string(),
        headers(),
        Some(b"application/json".to_vec()),
        Some(original.clone()),
    )
    .unwrap();
    assert_eq!(enveloped.headers, headers());
    let delivered = decode_body(&enveloped.encoding, enveloped.body)
        .unwrap()
        .unwrap();
    let original_value: serde_json::Value = serde_json::from_slice(&original).unwrap();
    let delivered_value: serde_json::Value = serde_json::from_slice(&delivered).unwrap();
    assert_eq!(original_value, delivered_value);
}

#[test]
fn response_carries_code_and_headers_and_decodes_body() {
    let p = ProcessResponse {
        code: 201,
        headers: headers(),
        encoding: EncType::Base64,
        body: Some(b"aGk=".to_vec()),
    };
    let h = to_http_response(p).unwrap();
    assert_eq!(h.code, 201);
    assert_eq!(h.headers, headers());
    assert_eq!(h.body, Some(b"hi".to_vec()));
}

#[test]
fn response_with_invalid_header_value_fails() {
    let p = ProcessResponse {
        code: 200,
        headers: vec![("x-bad".to_string(), "line\nbreak".to_string())],
        encoding: EncType::Raw,
        body: None,
    };
    assert!(matches!(to_http_response(p), Err(CgidError::InvalidHeader)));
}

#[test]
fn response_header_values_may_hold_tab_and_high_chars() {
    let p = ProcessResponse {
        code: 200,
        headers: vec![("x-ok".to_string(), "a\tb caf\u{e9}".to_string())],
        encoding: EncType::Raw,
        body: None,
    };
    assert!(to_http_response(p).is_ok());
}

#[test]
fn response_with_bad_base64_fails() {
    let p = ProcessResponse {
        code: 200,
        headers: Vec::new(),
        encoding: EncType::Base64,
        body: Some(b"%%%".to_vec()),
    };
    assert!(matches!(to_http_response(p), Err(CgidError::Base64)));
}

#[test]
fn response_raw_body_is_verbatim() {
    let p = ProcessResponse {
        code: 404,
        headers: Vec::new(),
        encoding: EncType::Raw,
        body: Some(b"missing".to_vec()),
    };
    let h = to_http_response(p).unwrap();
    assert_eq!(h.code, 404);
    assert_eq!(h.body, Some(b"missing".to_vec()));
}
