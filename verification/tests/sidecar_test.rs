use crowdllama_app_lib::sidecar::{new_sidecar_state, SidecarError, SidecarState};

#[test]
fn test_new_state_tracks_nothing() {
    let state = SidecarState::new();
    assert_eq!(state.process_id, None);
    let state2 = new_sidecar_state();
    assert_eq!(state2.process_id, None);
}

#[test]
fn test_record_spawn_success() {
    let mut state = new_sidecar_state();
    assert_eq!(state.record_spawn(Some(4242)), Ok(4242));
    assert_eq!(state.process_id, Some(4242));
}

#[test]
fn test_failed_spawn_is_spawn_failure() {
    // The outcome of launching a worker from a path with no binary behind it.
    let mut state = new_sidecar_state();
    assert_eq!(state.record_spawn(None), Err(SidecarError::SpawnFailure));
    assert_eq!(state.process_id, None);
}

#[test]
fn test_second_terminate_is_a_no_op() {
    let mut state = new_sidecar_state();
    state.record_spawn(Some(77)).unwrap();
    // The first terminate hands out the recorded id and discards the handle.
    assert_eq!(state.kill_sidecar(), Some(77));
    assert_eq!(state.process_id, None);
    // The second finds nothing recorded: nothing to signal, state unchanged.
    assert_eq!(state.kill_sidecar(), None);
    assert_eq!(state.process_id, None);
}
