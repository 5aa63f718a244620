//! The command server's slot: idempotent start with a stable port, stop, and
//! cleanup with a real background task.
use lanlink::server::ServerStartPlan;
use lanlink::state::ServerState;

#[test]
fn start_plan_on_fresh_state_spawns() {
    let state = ServerState::new();
    assert_eq!(state.server_start_plan(Some(9100)), ServerStartPlan::Spawn(9100));
    assert_eq!(state.server_start_plan(None), ServerStartPlan::NoPort);
}

#[test]
fn starting_twice_returns_the_same_port() {
    let rt = tokio::runtime::Builder::new_multi_thread().build().unwrap();
    let mut state = ServerState::new();
    let plan = state.server_start_plan(Some(9100));
    assert_eq!(plan, ServerStartPlan::Spawn(9100));
    let task = rt.spawn(async {
        futures_never_end().await;
    });
    state.commit_server_start(9100, task);
    // A second start must come back with the same port and plan no listener.
    assert_eq!(state.server_start_plan(Some(4242)), ServerStartPlan::AlreadyRunning(9100));
    assert_eq!(state.plan_server_start(), ServerStartPlan::AlreadyRunning(9100));
    let status = state.server_status();
    assert!(status.running);
    assert_eq!(status.port, Some(9100));
    state.stop_server();
    let status = state.server_status();
    assert!(!status.running);
    assert_eq!(status.port, None);
}

#[test]
fn stop_server_when_not_running_is_noop() {
    let mut state = ServerState::new();
    state.stop_server();
    assert!(!state.server_status().running);
}

#[test]
fn cleanup_clears_running_server() {
    let rt = tokio::runtime::Builder::new_multi_thread().build().unwrap();
    let mut state = ServerState::new();
    let task = rt.spawn(async {
        futures_never_end().await;
    });
    state.commit_server_start(9100, task);
    let cleaned = state.cleanup();
    assert_eq!(cleaned, 1);
    assert!(!state.server_status().running);
    assert_eq!(state.server_status().port, None);
    // A second cleanup finds nothing left.
    assert_eq!(state.cleanup(), 0);
}

async fn futures_never_end() {
    loop {
        tokio::task::yield_now().await;
    }
}
