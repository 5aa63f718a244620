//! The presence lifecycle: registration records, idempotent stops, the
//! goodbye plan, and the cleanup of the resource slots.
use lanlink::errors::LinkError;
use lanlink::goodbye::{goodbye_plan, GoodbyeStep};
use lanlink::presence::{enhanced_record, UnregisterOutcome};
use lanlink::state::ServerState;

#[test]
fn unregister_when_unregistered_is_noop() {
    let mut state = ServerState::new();
    let r = state.unregister();
    assert!(matches!(r, UnregisterOutcome::NotRegistered));
    let s = state.status();
    assert!(!s.broadcaster_active);
    assert!(!s.discovery_active);
}

#[test]
fn stop_discovery_when_not_running_is_ok() {
    let mut state = ServerState::new();
    assert!(state.stop_discovery().is_ok());
    assert!(!state.status().discovery_active);
}

#[test]
fn cleanup_on_fresh_state_cleans_nothing() {
    let mut state = ServerState::new();
    assert_eq!(state.cleanup(), 0);
    assert_eq!(state.cleanup(), 0);
    let s = state.server_status();
    assert!(!s.running);
    assert_eq!(s.port, None);
}

#[test]
fn register_without_addresses_fails() {
    let mut state = ServerState::new();
    let txt = vec!["role=desktop".to_string()];
    let addresses: Vec<String> = Vec::new();
    let r = state.register_with_addresses("_demo._tcp.local.", "Demo-1", 9000, &txt, &addresses);
    assert_eq!(r, Err(LinkError::NoLocalAddress));
    assert!(!state.status().broadcaster_active);
}

#[test]
fn register_with_invalid_name_fails() {
    let mut state = ServerState::new();
    let txt: Vec<String> = Vec::new();
    let addresses = vec!["192.0.2.1".to_string()];
    let long_label = "x".repeat(300);
    let r = state.register_with_addresses(&long_label, "Demo-1", 9000, &txt, &addresses);
    assert_eq!(r, Err(LinkError::InvalidServiceParams));
    assert!(!state.status().broadcaster_active);
}

#[test]
fn register_with_valid_name_is_not_rejected_as_invalid() {
    let mut state = ServerState::new();
    let txt = vec!["role=desktop".to_string()];
    let addresses = vec!["192.0.2.1".to_string()];
    let r = state.register_with_addresses("_demo._tcp.local.", "Demo-1", 9000, &txt, &addresses);
    // The network layer may refuse the sockets on this machine, but the
    // parameters themselves must pass validation.
    match r {
        Ok(()) => {
            assert!(state.status().broadcaster_active);
            // Registering again replaces the first advertisement; exactly one
            // stays live.
            let again =
                state.register_with_addresses("_demo._tcp.local.", "Demo-2", 9001, &txt, &addresses);
            match again {
                Ok(()) => assert!(state.status().broadcaster_active),
                Err(e) => assert!(matches!(e, LinkError::BuildFailed(_))),
            }
            // Tearing down must leave no live advertisement.
            assert!(state.cleanup() >= 1);
            assert!(!state.status().broadcaster_active);
        }
        Err(e) => assert!(matches!(e, LinkError::BuildFailed(_))),
    }
}

#[test]
fn enhanced_record_appends_socket_port() {
    let txt = vec!["role=desktop".to_string()];
    let r = enhanced_record("_demo._tcp.local.", "Demo-1", 9000, &txt, Some(9100));
    assert_eq!(r.service_type, "_demo._tcp.local.");
    assert_eq!(r.instance_name, "Demo-1");
    assert_eq!(r.port, 9000);
    assert_eq!(r.txt, vec!["role=desktop".to_string(), "socketPort=9100".to_string()]);
}

#[test]
fn enhanced_record_without_server_keeps_txt() {
    let txt = vec!["role=desktop".to_string(), "v=1".to_string()];
    let r = enhanced_record("_demo._tcp.local.", "Demo-1", 9000, &txt, None);
    assert_eq!(r.txt, txt);
}

#[test]
fn goodbye_plan_shape() {
    let plan = goodbye_plan();
    assert_eq!(plan.len(), 16);
    assert_eq!(plan[0], GoodbyeStep::Advertise);
    assert_eq!(plan[1], GoodbyeStep::Wait(100));
    assert_eq!(plan[2], GoodbyeStep::Withdraw);
    assert_eq!(plan[15], GoodbyeStep::Wait(300));
    let advertises = plan.iter().filter(|s| matches!(s, GoodbyeStep::Advertise)).count();
    let withdraws = plan.iter().filter(|s| matches!(s, GoodbyeStep::Withdraw)).count();
    assert_eq!(advertises, 4);
    assert_eq!(withdraws, 4);
    let total_wait: u64 = plan
        .iter()
        .map(|s| if let GoodbyeStep::Wait(ms) = s { *ms } else { 0 })
        .sum();
    assert_eq!(total_wait, 1150);
}

#[test]
fn error_descriptions() {
    assert_eq!(
        LinkError::NoLocalAddress.describe(),
        "no non-loopback local address found"
    );
    assert_eq!(
        LinkError::InvalidServiceParams.describe(),
        "invalid service type or instance name"
    );
    assert_eq!(
        LinkError::BuildFailed("boom".to_string()).describe(),
        "network layer build failed: boom"
    );
    assert_eq!(
        LinkError::ShutdownFailed("late".to_string()).describe(),
        "shutdown failed: late"
    );
    assert_eq!(LinkError::PortUnavailable.describe(), "no unused port available");
}
