use crowdllama_app_lib::codec::DEFAULT_MAX_PAYLOAD;
use crowdllama_app_lib::listener::SocketListener;
use crowdllama_app_lib::schema::SchemaId;

#[test]
fn test_socket_listener_new() {
    let listener = SocketListener::new();
    // Just check that the type is constructed
    let _ = listener;
}

#[test]
fn test_socket_listener_creation() {
    let listener = SocketListener::new();
    // Just verify it can be created
    drop(listener);
}

#[test]
fn test_socket_listener_default_config() {
    let listener = SocketListener::new();
    assert_eq!(listener.max_payload, DEFAULT_MAX_PAYLOAD);
    assert_eq!(
        listener.table,
        vec![
            SchemaId::Envelope,
            SchemaId::Generic,
            SchemaId::PingRequest,
            SchemaId::PingResponse,
            SchemaId::HealthCheckRequest,
            SchemaId::HealthCheckResponse,
            SchemaId::StatusResponse,
            SchemaId::Initialize,
            SchemaId::NetworkStatus,
        ]
    );
}

#[test]
fn test_socket_listener_with_config() {
    let listener = SocketListener::with_config(vec![SchemaId::PingRequest], 1024);
    assert_eq!(listener.max_payload, 1024);
    assert_eq!(listener.table, vec![SchemaId::PingRequest]);
}
