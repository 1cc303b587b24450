use crowdllama_app_lib::bridge::{
    frame_outbound, message_from_json, message_to_json, BridgeError, JsonBaseMessage,
    JsonGenerateRequest, JsonGenerateResponse,
};
use crowdllama_app_lib::schema::Message;

#[test]
fn test_message_from_json_takes_utf8_bytes() {
    let json = JsonBaseMessage::GenerateRequest {
        data: JsonGenerateRequest {
            model: String::from("m1"),
            prompt: String::from("hi"),
            stream: false,
        },
    };
    assert_eq!(
        message_from_json(&json),
        Message::GenerateRequest {
            model: b"m1".to_vec(),
            prompt: b"hi".to_vec(),
            stream: false,
        }
    );
}

#[test]
fn test_frame_outbound_exact_bytes() {
    let json = JsonBaseMessage::GenerateRequest {
        data: JsonGenerateRequest {
            model: String::from("m1"),
            prompt: String::from("hi"),
            stream: false,
        },
    };
    let framed = frame_outbound(&json).unwrap();
    assert_eq!(
        framed,
        vec![
            0, 0, 0, 12, // big-endian length of the enveloped message
            0x0A, 0x0A, 0x0A, 0x02, b'm', b'1', 0x12, 0x02, b'h', b'i', 0x18, 0x00,
        ]
    );
}

#[test]
fn test_message_to_json_round_trip() {
    let m = Message::GenerateResponse {
        model: b"simulated-model".to_vec(),
        response: b"This is a simulated response".to_vec(),
        done: true,
        worker_id: b"worker-sim-123".to_vec(),
    };
    match message_to_json(m) {
        Ok(JsonBaseMessage::GenerateResponse { data }) => {
            assert_eq!(data.model, "simulated-model");
            assert_eq!(data.response, "This is a simulated response");
            assert!(data.done);
            assert_eq!(data.worker_id, "worker-sim-123");
        }
        other => panic!("expected a generate response, got {:?}", other),
    }
}

#[test]
fn test_empty_envelope_has_no_json_form() {
    assert_eq!(
        message_to_json(Message::EmptyEnvelope),
        Err(BridgeError::EmptyMessage)
    );
}

#[test]
fn test_non_envelope_kinds_have_no_json_form() {
    assert_eq!(
        message_to_json(Message::Initialize { mode: 1 }),
        Err(BridgeError::NotAnEnvelope)
    );
}

#[test]
fn test_invalid_utf8_cannot_cross_to_the_ui() {
    let m = Message::GenerateRequest {
        model: vec![0xFF, 0xFE],
        prompt: b"hi".to_vec(),
        stream: true,
    };
    assert_eq!(message_to_json(m), Err(BridgeError::InvalidText));
}

#[test]
fn test_json_conversion_is_lossless_both_ways() {
    let json = JsonBaseMessage::GenerateResponse {
        data: JsonGenerateResponse {
            model: String::from("m"),
            response: String::from("rêsponse"),
            done: false,
            worker_id: String::from("w-1"),
        },
    };
    let wire = message_from_json(&json);
    assert_eq!(message_to_json(wire), Ok(json));
}
