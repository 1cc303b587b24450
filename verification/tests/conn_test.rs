use crowdllama_app_lib::codec::{encode, DEFAULT_MAX_PAYLOAD};
use crowdllama_app_lib::conn::{
    on_length_read, on_payload_read, CloseKind, LengthRead, LengthStep, PayloadRead, PayloadStep,
};
use crowdllama_app_lib::encode::encode_message;
use crowdllama_app_lib::listener::{AcceptOutcome, SocketListener};
use crowdllama_app_lib::schema::{default_table, DispatchError, Message};

fn ping_frame() -> Vec<u8> {
    encode(&encode_message(&Message::PingRequest {
        message: b"ping".to_vec(),
    }))
}

#[test]
fn test_unknown_frame_keeps_connection_open() {
    // One unrecognized payload is reported and the next frame on the same
    // connection is still dispatched.
    let junk = vec![0xFF, 0xFE, 0xFD, 0xFC];
    let mut data = encode(&junk);
    data.extend_from_slice(&ping_frame());
    let listener = SocketListener::new();
    let report = listener.process_connection(&data, true);
    assert_eq!(report.outcomes.len(), 2);
    assert_eq!(
        report.outcomes[0],
        Err(DispatchError::UnknownMessageType {
            preview: junk.clone()
        })
    );
    assert_eq!(
        report.outcomes[1],
        Ok(Message::PingRequest {
            message: b"ping".to_vec()
        })
    );
    assert_eq!(report.close, CloseKind::Normal);
}

#[test]
fn test_huge_length_prefix_closes_without_reading_payload() {
    let data = vec![0xFF, 0xFE, 0xFD, 0xFC];
    let listener = SocketListener::new();
    let report = listener.process_connection(&data, true);
    assert!(report.outcomes.is_empty());
    assert_eq!(report.close, CloseKind::FrameTooLarge);
}

#[test]
fn test_stream_cut_mid_prefix_closes_incomplete() {
    let mut data = ping_frame();
    data.extend_from_slice(&[0, 0]);
    let listener = SocketListener::new();
    let report = listener.process_connection(&data, true);
    assert_eq!(report.outcomes.len(), 1);
    assert_eq!(report.close, CloseKind::IncompleteFrame);
}

#[test]
fn test_clean_end_between_frames_is_normal() {
    let listener = SocketListener::new();
    let report = listener.process_connection(&ping_frame(), true);
    assert_eq!(report.outcomes.len(), 1);
    assert_eq!(report.close, CloseKind::Normal);
}

#[test]
fn test_one_closing_client_does_not_affect_another() {
    // The first client sends a valid frame and then its stream ends inside a
    // length prefix; the second client still sends and has both of its frames
    // received and classified.
    let mut first = ping_frame();
    first.extend_from_slice(&[0, 0]);
    let mut second = ping_frame();
    second.extend_from_slice(&ping_frame());
    let listener = SocketListener::new();
    let sessions = vec![
        AcceptOutcome::Connection {
            data: first,
            clean_end: true,
        },
        AcceptOutcome::Connection {
            data: second,
            clean_end: true,
        },
    ];
    let reports = listener.process_sessions(&sessions);
    assert_eq!(reports.len(), 2);
    let first_report = reports[0].as_ref().unwrap();
    assert_eq!(first_report.close, CloseKind::IncompleteFrame);
    let second_report = reports[1].as_ref().unwrap();
    assert_eq!(second_report.outcomes.len(), 2);
    assert_eq!(second_report.close, CloseKind::Normal);
    assert_eq!(
        second_report.outcomes[0],
        Ok(Message::PingRequest {
            message: b"ping".to_vec()
        })
    );
}

#[test]
fn test_accept_failure_does_not_stop_the_loop() {
    let listener = SocketListener::new();
    let sessions = vec![
        AcceptOutcome::AcceptError,
        AcceptOutcome::Connection {
            data: ping_frame(),
            clean_end: true,
        },
    ];
    let reports = listener.process_sessions(&sessions);
    assert_eq!(reports.len(), 2);
    assert!(reports[0].is_none());
    let report = reports[1].as_ref().unwrap();
    assert_eq!(report.outcomes.len(), 1);
    assert_eq!(report.close, CloseKind::Normal);
}

#[test]
fn test_on_length_read_transitions() {
    assert_eq!(
        on_length_read(&LengthRead::Bytes(vec![0, 0, 0, 2]), DEFAULT_MAX_PAYLOAD),
        LengthStep::ReadPayload(2)
    );
    assert_eq!(
        on_length_read(
            &LengthRead::Bytes(vec![0xFF, 0xFE, 0xFD, 0xFC]),
            DEFAULT_MAX_PAYLOAD
        ),
        LengthStep::Close(CloseKind::FrameTooLarge)
    );
    assert_eq!(
        on_length_read(&LengthRead::CleanEof, DEFAULT_MAX_PAYLOAD),
        LengthStep::Close(CloseKind::Normal)
    );
    assert_eq!(
        on_length_read(&LengthRead::TruncatedEof, DEFAULT_MAX_PAYLOAD),
        LengthStep::Close(CloseKind::IncompleteFrame)
    );
    assert_eq!(
        on_length_read(&LengthRead::IoError, DEFAULT_MAX_PAYLOAD),
        LengthStep::Close(CloseKind::ReadFailed)
    );
}

#[test]
fn test_on_payload_read_transitions() {
    let table = default_table();
    let payload = encode_message(&Message::PingRequest {
        message: b"ping".to_vec(),
    });
    assert_eq!(
        on_payload_read(&PayloadRead::Bytes(payload), &table),
        PayloadStep::Dispatched(Ok(Message::PingRequest {
            message: b"ping".to_vec()
        }))
    );
    assert_eq!(
        on_payload_read(&PayloadRead::TruncatedEof, &table),
        PayloadStep::Close(CloseKind::IncompleteFrame)
    );
    assert_eq!(
        on_payload_read(&PayloadRead::IoError, &table),
        PayloadStep::Close(CloseKind::ReadFailed)
    );
}

#[test]
fn test_error_end_reported_as_read_failure() {
    let listener = SocketListener::new();
    let report = listener.process_connection(&ping_frame(), false);
    assert_eq!(report.outcomes.len(), 1);
    assert_eq!(report.close, CloseKind::ReadFailed);
}
