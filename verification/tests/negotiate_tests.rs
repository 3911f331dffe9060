use craftpath::negotiate::{accepts_proto, body_encoding, is_json, is_protobuf, BodyEncoding};

#[test]
fn test_content_types() {
    assert!(is_protobuf("application/x-protobuf"));
    assert!(is_protobuf("Application/Protobuf; charset=binary"));
    assert!(!is_protobuf("application/json"));
    assert!(is_json(" application/JSON ; charset=utf-8"));
    assert!(!is_json("text/plain"));
}

#[test]
fn test_accepts_proto() {
    assert!(!accepts_proto(None));
    assert!(accepts_proto(Some("application/json, application/x-protobuf;q=0.9")));
    assert!(!accepts_proto(Some("application/json, */*")));
    assert!(!accepts_proto(Some("")));
}

#[test]
fn test_body_encoding() {
    assert_eq!(body_encoding(None), Some(BodyEncoding::Json));
    assert_eq!(body_encoding(Some("application/x-protobuf")), Some(BodyEncoding::Protobuf));
    assert_eq!(body_encoding(Some("application/json")), Some(BodyEncoding::Json));
    assert_eq!(body_encoding(Some("text/plain")), None);
}
