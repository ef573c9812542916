use sonoma_labs_toolkit::network::protocol::{PROTOCOL_VERSION, MAX_CLOCK_SKEW};
use sonoma_labs_toolkit::network::{Message, MessageType, NetworkError, ProtocolFault, ResponseStatus};

fn sample_messages() -> Vec<Message> {
    let mut signed = Message::with_timestamp(MessageType::Pong(9), 1_700_000_000);
    signed.signature = Some(vec![0xde, 0xad, 0xbe, 0xef]);
    vec![
        Message::with_timestamp(
            MessageType::Handshake {
                version: 1,
                timestamp: 42,
                capabilities: vec!["stream".to_string(), "zstd".to_string(), "".to_string()],
            },
            5,
        ),
        Message::with_timestamp(
            MessageType::Request { id: "r-1".to_string(), method: "getSlot".to_string(), params: vec![1, 2, 3] },
            6,
        ),
        Message::with_timestamp(
            MessageType::Response { id: "r-1".to_string(), status: ResponseStatus::Pending, data: vec![] },
            7,
        ),
        Message::with_timestamp(
            MessageType::Error { id: "r-2".to_string(), code: 404, message: "naïve ✓".to_string() },
            8,
        ),
        Message::with_timestamp(MessageType::Ping(u64::MAX), u64::MAX),
        signed,
        Message::with_timestamp(
            MessageType::Notification { topic: "slots".to_string(), data: vec![0; 300] },
            0,
        ),
    ]
}

fn same_type(a: &MessageType, b: &MessageType) -> bool {
    a == b
}

fn same_message(a: &Message, b: &Message) -> bool {
    a.version == b.version
        && same_type(&a.message_type, &b.message_type)
        && a.timestamp == b.timestamp
        && a.signature == b.signature
}

#[test]
fn test_message_creation() {
    let request = Message::request("test-id", "test-method", vec![1, 2, 3]);
    assert_eq!(request.version, PROTOCOL_VERSION);

    if let MessageType::Request { id, method, params } = request.message_type {
        assert_eq!(id, "test-id");
        assert_eq!(method, "test-method");
        assert_eq!(params, vec![1, 2, 3]);
    } else {
        panic!("Unexpected message type");
    }
}

#[test]
fn test_message_validation() {
    let valid_msg = Message::request("test-id", "test-method", vec![]);
    assert!(valid_msg.validate().is_ok());

    let mut invalid_msg = Message::new(MessageType::Request {
        id: "".to_string(),
        method: "test".to_string(),
        params: vec![],
    });
    assert!(invalid_msg.validate().is_err());

    invalid_msg.version = 999;
    assert!(invalid_msg.validate().is_err());
}

#[test]
fn constructors_fill_the_envelope() {
    let r = Message::response("x", ResponseStatus::Success, vec![7]);
    assert_eq!(r.version, PROTOCOL_VERSION);
    assert!(r.signature.is_none());
    assert!(matches!(r.message_type, MessageType::Response { ref id, status: ResponseStatus::Success, ref data } if id == "x" && data == &vec![7]));
    let e = Message::error("y", 500, "boom");
    assert!(matches!(e.message_type, MessageType::Error { ref id, code: 500, ref message } if id == "y" && message == "boom"));
    let n = Message::notification("t", vec![]);
    assert!(matches!(n.message_type, MessageType::Notification { ref topic, .. } if topic == "t"));
}

#[test]
fn round_trip_every_variant() {
    for m in sample_messages() {
        let bytes = m.serialize();
        let back = Message::deserialize(&bytes).expect("decodes");
        assert!(same_message(&m, &back));
        assert_eq!(back.serialize(), bytes);
    }
}

#[test]
fn encoding_layout_of_ping() {
    let m = Message::with_timestamp(MessageType::Ping(7), 0);
    assert_eq!(
        m.serialize(),
        vec![1, 0, 0, 0, 4, 7, 0, 0, 0, 0, 0, 0, 0, 0, 0, 0, 0, 0, 0, 0, 0, 0]
    );
}

#[test]
fn hash_is_sha256_of_encoding() {
    let m = Message::with_timestamp(MessageType::Ping(7), 0);
    let expected: [u8; 32] = [
        52, 231, 10, 75, 41, 168, 226, 165, 75, 16, 191, 162, 3, 94, 91, 188, 158, 186, 169, 17, 171, 160, 253,
        161, 139, 203, 72, 115, 222, 243, 15, 253,
    ];
    assert_eq!(m.hash(), expected);
}

#[test]
fn hash_is_deterministic_and_sees_every_field() {
    let m = Message::with_timestamp(
        MessageType::Request { id: "a".to_string(), method: "m".to_string(), params: vec![1] },
        10,
    );
    assert_eq!(m.hash(), m.hash());
    let mut other = m.clone();
    other.timestamp = 11;
    assert_ne!(m.hash(), other.hash());
    let mut other = m.clone();
    other.signature = Some(vec![]);
    assert_ne!(m.hash(), other.hash());
    let other = Message::with_timestamp(
        MessageType::Request { id: "a".to_string(), method: "n".to_string(), params: vec![1] },
        10,
    );
    assert_ne!(m.hash(), other.hash());
}

#[test]
fn malformed_frames_are_rejected() {
    let good = Message::with_timestamp(MessageType::Ping(1), 2).serialize();
    let malformed = NetworkError::ProtocolError(ProtocolFault::MalformedFrame);
    for bad in [
        vec![],
        good[..good.len() - 1].to_vec(),
        [good.clone(), vec![0]].concat(),
        vec![1, 0, 0, 0, 9],
    ] {
        assert!(matches!(Message::deserialize(&bad), Err(ref e) if format!("{:?}", e) == format!("{:?}", malformed)));
    }
    // a text whose bytes are not UTF-8
    let mut bytes = vec![1, 0, 0, 0, 6];
    bytes.extend_from_slice(&1u64.to_le_bytes());
    bytes.push(0xff);
    bytes.extend_from_slice(&0u64.to_le_bytes());
    bytes.extend_from_slice(&0u64.to_le_bytes());
    bytes.push(0);
    assert!(Message::deserialize(&bytes).is_err());
    bytes[13] = b'a';
    assert!(Message::deserialize(&bytes).is_ok());
    // a length that runs past the end
    let mut long = vec![1, 0, 0, 0, 6];
    long.extend_from_slice(&u64::MAX.to_le_bytes());
    assert!(Message::deserialize(&long).is_err());
}

#[test]
fn wrong_version_is_rejected_whatever_else_holds() {
    let mut m = Message::with_timestamp(MessageType::Ping(1), 100);
    m.version = 2;
    assert!(matches!(
        m.validate_at(100),
        Err(NetworkError::ProtocolError(ProtocolFault::VersionMismatch(2)))
    ));
    assert!(matches!(
        m.validate(),
        Err(NetworkError::ProtocolError(ProtocolFault::VersionMismatch(2)))
    ));
}

#[test]
fn request_fields_must_be_present() {
    let now = 1_000;
    let empty_id = Message::with_timestamp(
        MessageType::Request { id: "".to_string(), method: "m".to_string(), params: vec![] },
        now,
    );
    let empty_method = Message::with_timestamp(
        MessageType::Request { id: "i".to_string(), method: "".to_string(), params: vec![] },
        now,
    );
    let both = Message::with_timestamp(
        MessageType::Request { id: "i".to_string(), method: "m".to_string(), params: vec![] },
        now,
    );
    assert!(matches!(empty_id.validate_at(now), Err(NetworkError::ProtocolError(ProtocolFault::MalformedField))));
    assert!(matches!(empty_method.validate_at(now), Err(NetworkError::ProtocolError(ProtocolFault::MalformedField))));
    assert!(both.validate_at(now).is_ok());
}

#[test]
fn other_variants_need_their_fields() {
    let now = 50;
    let resp = Message::with_timestamp(
        MessageType::Response { id: "".to_string(), status: ResponseStatus::Error, data: vec![] },
        now,
    );
    let err = Message::with_timestamp(
        MessageType::Error { id: "".to_string(), code: 1, message: "".to_string() },
        now,
    );
    let note = Message::with_timestamp(MessageType::Notification { topic: "".to_string(), data: vec![] }, now);
    let hs = Message::with_timestamp(MessageType::Handshake { version: 1, timestamp: 0, capabilities: vec![] }, now);
    assert!(resp.validate_at(now).is_err());
    assert!(err.validate_at(now).is_err());
    assert!(note.validate_at(now).is_err());
    assert!(hs.validate_at(now).is_ok());
}

#[test]
fn clock_skew_limit_is_five_minutes() {
    let now = 10_000;
    let at_limit = Message::with_timestamp(MessageType::Ping(0), now + MAX_CLOCK_SKEW);
    let past_limit = Message::with_timestamp(MessageType::Ping(0), now + MAX_CLOCK_SKEW + 1);
    assert!(at_limit.validate_at(now).is_ok());
    assert!(matches!(
        past_limit.validate_at(now),
        Err(NetworkError::ProtocolError(ProtocolFault::ClockSkew(t))) if t == now + 301
    ));
    let far = Message::with_timestamp(MessageType::Ping(0), u64::MAX);
    assert!(far.validate_at(u64::MAX - 10).is_ok());
    assert!(far.validate().is_err());
}
