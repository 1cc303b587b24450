use crowdllama_app_lib::encode::encode_message;
use crowdllama_app_lib::schema::{classify, default_table, DispatchError, Message, SchemaId};

fn all_sample_messages() -> Vec<Message> {
    vec![
        Message::GenerateRequest {
            model: b"m1".to_vec(),
            prompt: b"hi".to_vec(),
            stream: false,
        },
        Message::GenerateResponse {
            model: b"test-model".to_vec(),
            response: b"Hello back!".to_vec(),
            done: true,
            worker_id: b"worker-123".to_vec(),
        },
        Message::EmptyEnvelope,
        Message::Generic {
            id: b"id-1".to_vec(),
            kind: b"status".to_vec(),
        },
        Message::PingRequest {
            message: b"ping".to_vec(),
        },
        Message::PingResponse {
            message: b"pong".to_vec(),
            latency_ms: 123_456_789,
        },
        Message::HealthCheckRequest {
            service: b"api".to_vec(),
        },
        Message::HealthCheckResponse {
            service: b"api".to_vec(),
            status: 1,
        },
        Message::StatusResponse {
            status: 2,
            message: b"ready".to_vec(),
        },
        Message::Initialize { mode: 1 },
        Message::NetworkStatus {
            state: 3,
            peer_count: 7,
        },
    ]
}

#[test]
fn test_classify_round_trips_every_schema() {
    // Serializing any message and classifying the bytes gives back exactly
    // that message, never another schema's reading of it.
    let table = default_table();
    for m in all_sample_messages() {
        let bytes = encode_message(&m);
        assert_eq!(classify(&bytes, &table), Ok(m));
    }
}

#[test]
fn test_generate_request_wire_form() {
    // Envelope field 1 wraps the nested request: model at field 1, prompt at
    // field 2, the stream flag at field 3.
    let m = Message::GenerateRequest {
        model: b"m1".to_vec(),
        prompt: b"hi".to_vec(),
        stream: false,
    };
    let bytes = encode_message(&m);
    assert_eq!(
        bytes,
        vec![0x0A, 0x0A, 0x0A, 0x02, b'm', b'1', 0x12, 0x02, b'h', b'i', 0x18, 0x00]
    );
}

#[test]
fn test_classify_generate_request_fields() {
    let m = Message::GenerateRequest {
        model: b"m1".to_vec(),
        prompt: b"hi".to_vec(),
        stream: false,
    };
    let bytes = encode_message(&m);
    match classify(&bytes, &default_table()) {
        Ok(Message::GenerateRequest {
            model,
            prompt,
            stream,
        }) => {
            assert_eq!(model, b"m1".to_vec());
            assert_eq!(prompt, b"hi".to_vec());
            assert!(!stream);
        }
        other => panic!("expected a generate request, got {:?}", other),
    }
}

#[test]
fn test_empty_payload_is_the_empty_envelope() {
    // The envelope schema explicitly represents the empty message, so a
    // zero-length payload classifies as that rather than as unknown.
    let empty: Vec<u8> = Vec::new();
    assert_eq!(
        classify(&empty, &default_table()),
        Ok(Message::EmptyEnvelope)
    );
}

#[test]
fn test_unknown_bytes_report_unknown_message_type() {
    let junk = vec![0xFF, 0xFE, 0xFD, 0xFC];
    assert_eq!(
        classify(&junk, &default_table()),
        Err(DispatchError::UnknownMessageType {
            preview: junk.clone()
        })
    );
}

#[test]
fn test_unknown_preview_is_bounded() {
    // 0x07 is a tag with field number 0, which no schema accepts; a long
    // unknown payload is previewed by its first 50 bytes only.
    let junk = vec![0x07u8; 60];
    match classify(&junk, &default_table()) {
        Err(DispatchError::UnknownMessageType { preview }) => {
            assert_eq!(preview.len(), 50);
            assert_eq!(preview, junk[..50].to_vec());
        }
        other => panic!("expected an unknown message, got {:?}", other),
    }
}

#[test]
fn test_stream_flag_must_be_zero_or_one() {
    // The nested request's flag field with value 2 fails the envelope's
    // structural acceptance, and nothing else accepts the payload.
    let bytes = vec![0x0A, 0x06, 0x0A, 0x00, 0x12, 0x00, 0x18, 0x02];
    assert!(classify(&bytes, &default_table()).is_err());
}

#[test]
fn test_table_is_a_configuration_input() {
    // Without its schema in the table, a well-formed ping request is unknown.
    let ping = encode_message(&Message::PingRequest {
        message: b"ping".to_vec(),
    });
    let narrow = vec![SchemaId::Envelope, SchemaId::Generic];
    assert!(classify(&ping, &narrow).is_err());
    let with_ping = vec![SchemaId::PingRequest];
    assert_eq!(
        classify(&ping, &with_ping),
        Ok(Message::PingRequest {
            message: b"ping".to_vec()
        })
    );
}

#[test]
fn test_truncated_field_is_unknown() {
    // A chunk field announcing more bytes than the payload holds.
    let bytes = vec![0x0A, 0x7F, b'x'];
    assert!(classify(&bytes, &default_table()).is_err());
}

#[test]
fn test_long_field_round_trips() {
    // A field longer than 127 bytes forces a multi-byte length varint.
    let m = Message::PingRequest {
        message: vec![b'a'; 200],
    };
    let bytes = encode_message(&m);
    assert_eq!(bytes[0], 0x1A);
    assert_eq!(&bytes[1..3], &[0xC8, 0x01]); // 200 as a varint
    assert_eq!(classify(&bytes, &default_table()), Ok(m));
}

#[test]
fn test_generate_request_with_stream_round_trips() {
    let m = Message::GenerateRequest {
        model: b"model-1".to_vec(),
        prompt: b"Test message 1".to_vec(),
        stream: true,
    };
    let bytes = encode_message(&m);
    assert_eq!(classify(&bytes, &default_table()), Ok(m));
}
