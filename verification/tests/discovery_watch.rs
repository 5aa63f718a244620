//! The discovery watcher: validation, idempotent start, idempotent stop.
use lanlink::errors::LinkError;
use lanlink::state::ServerState;

#[test]
fn invalid_service_type_is_rejected() {
    let state = ServerState::new();
    let long_label = "y".repeat(300);
    let r = state.begin_start_discovery(&long_label);
    assert!(matches!(r, Err(LinkError::InvalidServiceParams)));
}

#[test]
fn watch_lifecycle() {
    let mut state = ServerState::new();
    match state.begin_start_discovery("_demo._tcp.local.") {
        Ok(Some(watch)) => {
            let handle = watch.run_in_background(|_event| {});
            state.finish_start_discovery(handle);
            assert!(state.status().discovery_active);
            // Starting again while running restarts nothing.
            assert!(matches!(state.begin_start_discovery("_demo._tcp.local."), Ok(None)));
            match state.stop_discovery() {
                Ok(()) => {}
                Err(e) => assert!(matches!(e, LinkError::ShutdownFailed(_))),
            }
            assert!(!state.status().discovery_active);
        }
        Ok(None) => unreachable!("no watch was running yet"),
        // The network layer may refuse the sockets on this machine; the
        // service type itself must pass validation.
        Err(e) => assert!(matches!(e, LinkError::BuildFailed(_))),
    }
}
