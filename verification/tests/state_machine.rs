use mullvad_daemon::policy::{FirewallPolicy, PolicyEnforcer};
use mullvad_daemon::states::{
    ActionAfterDisconnect, ErrorStateCause, TargetState, TransportProtocol, TunnelEndpoint,
    TunnelState, TunnelType,
};
use mullvad_daemon::tunnel_state_machine::{
    PolicyOutcomes, TunnelCommand, TunnelStateMachine, MAX_RETRY_ATTEMPTS,
};

fn endpoint() -> TunnelEndpoint {
    TunnelEndpoint {
        tunnel_type: TunnelType::Wireguard,
        address: "185.65.134.1".to_string(),
        port: 51820,
        protocol: TransportProtocol::Udp,
    }
}

fn tunnel_up() -> TunnelCommand {
    TunnelCommand::TunnelUp { endpoint: endpoint(), interface: "wg0".to_string() }
}

fn all_ok() -> PolicyOutcomes {
    PolicyOutcomes::all_ok()
}

fn connected_machine() -> TunnelStateMachine {
    let mut machine = TunnelStateMachine::new(false);
    machine.handle_event(TunnelCommand::SetTargetState(TargetState::Secured), all_ok());
    machine.handle_event(tunnel_up(), all_ok());
    assert!(matches!(machine.state, TunnelState::Connected { .. }));
    machine
}

#[test]
fn starts_disconnected_and_unsecured() {
    let machine = TunnelStateMachine::new(false);
    assert_eq!(machine.state, TunnelState::Disconnected);
    assert_eq!(machine.target_state(), TargetState::Unsecured);
    assert!(!machine.state.is_in_error_state());
}

#[test]
fn connect_from_disconnected_launches_with_blocking_policy() {
    let mut machine = TunnelStateMachine::new(false);
    let effects = machine.handle_event(
        TunnelCommand::SetTargetState(TargetState::Secured),
        all_ok(),
    );
    assert!(matches!(machine.state, TunnelState::Connecting { .. }));
    assert!(effects.launch_tunnel);
    assert!(!effects.stop_tunnel);
    assert_eq!(effects.applied, Some(FirewallPolicy::BlockAll));
    assert_eq!(effects.published, Some(machine.state.clone()));
}

#[test]
fn tunnel_up_reaches_connected_with_tunnel_only_policy() {
    let mut machine = TunnelStateMachine::new(false);
    machine.handle_event(TunnelCommand::SetTargetState(TargetState::Secured), all_ok());
    let effects = machine.handle_event(tunnel_up(), all_ok());
    match &machine.state {
        TunnelState::Connected { endpoint: e, .. } => {
            assert_eq!(e.address, "185.65.134.1");
            assert_eq!(e.port, 51820);
        }
        other => panic!("expected connected, got {:?}", other),
    }
    assert_eq!(
        effects.applied,
        Some(FirewallPolicy::AllowTunnelOnly { interface: "wg0".to_string() }),
    );
    assert!(machine.enforcer.is_blocking());
}

#[test]
fn tunnel_error_while_connecting_blocks() {
    let mut machine = TunnelStateMachine::new(false);
    machine.handle_event(TunnelCommand::SetTargetState(TargetState::Secured), all_ok());
    let effects = machine.handle_event(
        TunnelCommand::TunnelError(ErrorStateCause::AuthFailed),
        all_ok(),
    );
    match &machine.state {
        TunnelState::Error(error_state) => {
            assert_eq!(error_state.cause, ErrorStateCause::AuthFailed);
            assert!(error_state.is_blocking);
        }
        other => panic!("expected error state, got {:?}", other),
    }
    assert!(!effects.launch_tunnel);
}

// Target `Unsecured -> Secured` while offline: the next published state is
// the offline error, it blocks, and no tunnel process is spawned.
#[test]
fn connect_while_offline_blocks_without_spawning() {
    let mut machine = TunnelStateMachine::new(false);
    let effects = machine.handle_event(TunnelCommand::IsOffline(true), all_ok());
    assert_eq!(effects.published, None);
    let effects = machine.handle_event(
        TunnelCommand::SetTargetState(TargetState::Secured),
        all_ok(),
    );
    match &machine.state {
        TunnelState::Error(error_state) => {
            assert_eq!(error_state.cause, ErrorStateCause::IsOffline);
            assert!(error_state.is_blocking);
        }
        other => panic!("expected offline error, got {:?}", other),
    }
    assert!(!effects.launch_tunnel);
    assert_eq!(effects.published, Some(machine.state.clone()));
}

// `Connected`, the tunnel process reports `TunnelDown` with the target
// still `Secured` and retry budget remaining: the next state is
// `Connecting`, not `Disconnected`.
#[test]
fn tunnel_down_with_budget_reconnects() {
    let mut machine = connected_machine();
    let effects = machine.handle_event(TunnelCommand::TunnelDown, all_ok());
    assert!(matches!(machine.state, TunnelState::Connecting { .. }));
    assert!(effects.launch_tunnel);
    assert_eq!(machine.retry_attempts, 1);
}

#[test]
fn tunnel_down_past_budget_surfaces_error() {
    let mut machine = connected_machine();
    for _ in 0..MAX_RETRY_ATTEMPTS {
        machine.handle_event(TunnelCommand::TunnelDown, all_ok());
        assert!(matches!(machine.state, TunnelState::Connecting { .. }));
    }
    machine.handle_event(TunnelCommand::TunnelDown, all_ok());
    match &machine.state {
        TunnelState::Error(error_state) => {
            assert_eq!(error_state.cause, ErrorStateCause::StartTunnelError);
        }
        other => panic!("expected start tunnel error, got {:?}", other),
    }
}

// `SetTargetState(Unsecured)` issued mid-`Connecting`: the sequence is
// `Connecting -> Disconnecting(Nothing) -> Disconnected`, and the tunnel
// process is torn down exactly once.
#[test]
fn disconnect_mid_connecting_tears_down_once() {
    let mut machine = TunnelStateMachine::new(false);
    machine.handle_event(TunnelCommand::SetTargetState(TargetState::Secured), all_ok());
    assert!(matches!(machine.state, TunnelState::Connecting { .. }));

    let mut stops = 0;
    let effects = machine.handle_event(
        TunnelCommand::SetTargetState(TargetState::Unsecured),
        all_ok(),
    );
    if effects.stop_tunnel {
        stops += 1;
    }
    assert_eq!(
        machine.state,
        TunnelState::Disconnecting(ActionAfterDisconnect::Nothing),
    );

    let effects = machine.handle_event(TunnelCommand::TunnelDown, all_ok());
    if effects.stop_tunnel {
        stops += 1;
    }
    assert_eq!(machine.state, TunnelState::Disconnected);
    assert_eq!(stops, 1);
}

#[test]
fn disconnecting_records_block_action_when_blocking_is_configured() {
    let mut machine = TunnelStateMachine::new(true);
    machine.handle_event(TunnelCommand::SetTargetState(TargetState::Secured), all_ok());
    machine.handle_event(TunnelCommand::SetTargetState(TargetState::Unsecured), all_ok());
    assert_eq!(
        machine.state,
        TunnelState::Disconnecting(ActionAfterDisconnect::Block),
    );
    let effects = machine.handle_event(TunnelCommand::TunnelDown, all_ok());
    assert_eq!(machine.state, TunnelState::Disconnected);
    // the blocking posture was already current, so no firewall call is needed
    assert_eq!(effects.applied, None);
    assert!(machine.enforcer.is_blocking());
}

// A target change while tearing down is queued, not dropped: the last
// writer wins once the process exits.
#[test]
fn target_change_during_teardown_wins() {
    let mut machine = connected_machine();
    machine.handle_event(TunnelCommand::SetTargetState(TargetState::Unsecured), all_ok());
    assert!(matches!(machine.state, TunnelState::Disconnecting(_)));
    machine.handle_event(TunnelCommand::SetTargetState(TargetState::Secured), all_ok());
    assert_eq!(
        machine.state,
        TunnelState::Disconnecting(ActionAfterDisconnect::Reconnect),
    );
    let effects = machine.handle_event(TunnelCommand::TunnelDown, all_ok());
    assert!(matches!(machine.state, TunnelState::Connecting { .. }));
    assert!(effects.launch_tunnel);
}

#[test]
fn reconnect_while_disconnected_and_unsecured_is_noop() {
    let mut machine = TunnelStateMachine::new(false);
    let effects = machine.handle_event(TunnelCommand::Reconnect, all_ok());
    assert_eq!(machine.state, TunnelState::Disconnected);
    assert!(!effects.launch_tunnel && !effects.stop_tunnel);
    assert_eq!(effects.published, None);
}

#[test]
fn offline_while_unsecured_changes_nothing_visible() {
    let mut machine = TunnelStateMachine::new(false);
    let effects = machine.handle_event(TunnelCommand::IsOffline(true), all_ok());
    assert_eq!(machine.state, TunnelState::Disconnected);
    assert_eq!(effects.published, None);
}

#[test]
fn back_online_reconnects_from_offline_error() {
    let mut machine = TunnelStateMachine::new(false);
    machine.handle_event(TunnelCommand::IsOffline(true), all_ok());
    machine.handle_event(TunnelCommand::SetTargetState(TargetState::Secured), all_ok());
    assert!(machine.state.is_in_error_state());
    let effects = machine.handle_event(TunnelCommand::IsOffline(false), all_ok());
    assert!(matches!(machine.state, TunnelState::Connecting { .. }));
    assert!(effects.launch_tunnel);
}

// A non-blocking error state only appears after the blocking posture and
// the fallback deny-all both failed — never as the first outcome.
#[test]
fn leak_is_conceded_only_after_failed_fallback() {
    let mut machine = TunnelStateMachine::new(false);
    let effects = machine.handle_event(
        TunnelCommand::SetTargetState(TargetState::Secured),
        PolicyOutcomes { apply_ok: false, fallback_ok: true },
    );
    match &machine.state {
        TunnelState::Error(error_state) => {
            assert_eq!(error_state.cause, ErrorStateCause::SetFirewallPolicyError);
            assert!(error_state.is_blocking);
        }
        other => panic!("expected error state, got {:?}", other),
    }
    assert!(effects.fallback_attempted);

    let mut machine = TunnelStateMachine::new(false);
    let effects = machine.handle_event(
        TunnelCommand::SetTargetState(TargetState::Secured),
        PolicyOutcomes { apply_ok: false, fallback_ok: false },
    );
    match &machine.state {
        TunnelState::Error(error_state) => {
            assert!(!error_state.is_blocking);
        }
        other => panic!("expected error state, got {:?}", other),
    }
    assert!(effects.fallback_attempted);
    assert!(!machine.enforcer.is_blocking());
}

// Applying the posture that is already current performs no further
// firewall call and changes nothing.
#[test]
fn policy_apply_is_idempotent() {
    let mut enforcer = PolicyEnforcer::new();
    let performed = enforcer.apply(FirewallPolicy::BlockAll, true);
    assert!(performed);
    assert!(enforcer.is_blocking());
    let before = enforcer.clone();
    let performed = enforcer.apply(FirewallPolicy::BlockAll, false);
    assert!(!performed);
    assert_eq!(enforcer, before);
}

#[test]
fn policy_apply_failure_forgets_the_current_posture() {
    let mut enforcer = PolicyEnforcer::new();
    enforcer.apply(FirewallPolicy::AllowAll, true);
    let performed = enforcer.apply(FirewallPolicy::BlockAll, false);
    assert!(performed);
    assert!(!enforcer.is_blocking());
    assert_eq!(*enforcer.current_policy(), None);
    enforcer.record_fallback(true);
    assert!(enforcer.is_blocking());
}

// Driving the target back and forth always converges to a state
// consistent with the last target once the environment cooperates.
#[test]
fn targets_converge_with_cooperative_environment() {
    let mut machine = TunnelStateMachine::new(false);
    let targets = [
        TargetState::Secured,
        TargetState::Unsecured,
        TargetState::Secured,
        TargetState::Secured,
        TargetState::Unsecured,
    ];
    for target in targets {
        machine.handle_event(TunnelCommand::SetTargetState(target), all_ok());
        // cooperative environment: launched tunnels come up, stopped ones exit
        for _ in 0..3 {
            match &machine.state {
                TunnelState::Connecting { .. } => {
                    machine.handle_event(tunnel_up(), all_ok());
                }
                TunnelState::Disconnecting(_) => {
                    machine.handle_event(TunnelCommand::TunnelDown, all_ok());
                }
                _ => {}
            }
        }
        assert!(machine.state.consistent_with(target));
    }
}
