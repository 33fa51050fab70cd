use mullvad_daemon::account::{VoucherError, VoucherSubmission};
use mullvad_daemon::broadcaster::{DaemonEvent, EventBroadcaster};
use mullvad_daemon::command_channel::{
    account_token_from_wire, mssfix_from_wire, mtu_from_wire, rotation_interval_from_wire,
    ApiError, ChannelError, DaemonCommand, DaemonCommandChannel, DaemonResponse,
    NoAccountConfigured, SlotState,
};
use mullvad_daemon::daemon::{process_next, CommandOutcomes, Daemon};
use mullvad_daemon::relay_constraints::{
    BridgeConstraints, BridgeSettings, BridgeState, Constraint, LocalProxySettings,
    ProxySettings, ValidationError,
};
use mullvad_daemon::states::{TargetState, TunnelState};
use mullvad_daemon::tunnel_state_machine::PolicyOutcomes;
use mullvad_daemon::version::AppVersionInfo;
use mullvad_daemon::wireguard::{KeygenEvent, PublicKey};

fn outcomes() -> CommandOutcomes {
    CommandOutcomes {
        policy: PolicyOutcomes::all_ok(),
        keygen: KeygenEvent::GenerationFailure,
        key_is_valid: false,
        new_account: Err(ApiError),
        voucher: Err(VoucherError::RpcError),
    }
}

#[test]
fn connect_without_account_is_refused() {
    let mut daemon = Daemon::new();
    let (result, effects) = daemon.set_target_state(
        TargetState::Secured,
        PolicyOutcomes::all_ok(),
    );
    assert_eq!(result, Err(NoAccountConfigured));
    assert!(!effects.launch_tunnel);
    assert_eq!(daemon.get_state(), TunnelState::Disconnected);
}

#[test]
fn connect_with_account_starts_connecting() {
    let mut daemon = Daemon::new();
    daemon.set_account(Some("1234567890".to_string()));
    let (result, effects) = daemon.set_target_state(
        TargetState::Secured,
        PolicyOutcomes::all_ok(),
    );
    assert_eq!(result, Ok(()));
    assert!(effects.launch_tunnel);
    assert!(matches!(daemon.get_state(), TunnelState::Connecting { .. }));
}

// Every published tunnel-state event equals what `GetState` returns right
// after it, for single-writer interleavings.
#[test]
fn published_state_matches_get_state() {
    let mut daemon = Daemon::new();
    daemon.set_account(Some("1234567890".to_string()));
    let (_, effects) = daemon.set_target_state(TargetState::Secured, PolicyOutcomes::all_ok());
    let published = effects.published.expect("a transition must be published");
    assert_eq!(published, daemon.get_state());
}

#[test]
fn disconnecting_works_without_account() {
    let mut daemon = Daemon::new();
    let (result, _) = daemon.set_target_state(
        TargetState::Unsecured,
        PolicyOutcomes::all_ok(),
    );
    assert_eq!(result, Ok(()));
}

#[test]
fn settings_commands_do_not_touch_the_tunnel_state() {
    let mut daemon = Daemon::new();
    daemon.set_allow_lan(true);
    daemon.set_block_when_disconnected(true);
    daemon.set_auto_connect(true);
    daemon.set_show_beta_releases(true);
    daemon.set_enable_ipv6(true);
    daemon.set_openvpn_mssfix(Some(1380));
    daemon.set_wireguard_mtu(Some(1420));
    daemon.set_wireguard_rotation_interval(Some(24));
    let settings = daemon.get_settings();
    assert!(settings.allow_lan);
    assert!(settings.block_when_disconnected);
    assert!(settings.auto_connect);
    assert!(settings.show_beta_releases);
    assert!(settings.tunnel_options.enable_ipv6);
    assert_eq!(settings.tunnel_options.openvpn_mssfix, Some(1380));
    assert_eq!(settings.tunnel_options.wireguard_mtu, Some(1420));
    assert_eq!(settings.tunnel_options.wireguard_rotation_interval, Some(24));
    assert_eq!(daemon.get_state(), TunnelState::Disconnected);
}

#[test]
fn rejected_bridge_settings_change_nothing() {
    let mut daemon = Daemon::new();
    let before = daemon.get_settings();
    let invalid = BridgeSettings::Custom(ProxySettings::Local(LocalProxySettings {
        port: 0,
        peer_address: "10.0.0.1".to_string(),
        peer_port: 1080,
    }));
    let result = daemon.set_bridge_settings(invalid);
    assert_eq!(result, Err(ValidationError::InvalidPort));
    assert_eq!(daemon.get_settings(), before);
}

#[test]
fn accepted_bridge_settings_are_stored() {
    let mut daemon = Daemon::new();
    let valid = BridgeSettings::Normal(BridgeConstraints { location: Constraint::Any });
    assert_eq!(daemon.set_bridge_settings(valid.clone()), Ok(()));
    assert_eq!(daemon.get_settings().bridge_settings, valid);
    assert_eq!(daemon.set_bridge_state(BridgeState::On), Ok(()));
    assert_eq!(daemon.get_settings().bridge_state, BridgeState::On);
}

#[test]
fn generated_key_is_held_and_returned() {
    let mut daemon = Daemon::new();
    let key = PublicKey { key: vec![7u8; 32], created_unix: 1_600_000_000 };
    let event = daemon.generate_wireguard_key(KeygenEvent::NewKey(key.clone()));
    assert_eq!(event, KeygenEvent::NewKey(key.clone()));
    assert_eq!(daemon.get_wireguard_key(), Some(key));
    let event = daemon.generate_wireguard_key(KeygenEvent::TooManyKeys);
    assert_eq!(event, KeygenEvent::TooManyKeys);
}

#[test]
fn voucher_reply_reaches_the_caller_unchanged() {
    let mut daemon = Daemon::new();
    let submission = VoucherSubmission { time_added: 2_592_000, new_expiry_unix: 1_700_000_000 };
    assert_eq!(daemon.submit_voucher(Ok(submission)), Ok(submission));
    assert_eq!(
        daemon.submit_voucher(Err(VoucherError::VoucherUsed)),
        Err(VoucherError::VoucherUsed),
    );
}

#[test]
fn account_history_records_each_token_once() {
    let mut daemon = Daemon::new();
    daemon.set_account(Some("1111".to_string()));
    daemon.set_account(Some("2222".to_string()));
    daemon.set_account(Some("1111".to_string()));
    daemon.set_account(None);
    assert_eq!(
        daemon.get_account_history(),
        vec!["1111".to_string(), "2222".to_string()],
    );
}

#[test]
fn account_history_forgets_a_token() {
    let mut daemon = Daemon::new();
    daemon.set_account(Some("1111".to_string()));
    daemon.set_account(Some("2222".to_string()));
    assert!(daemon.remove_account_from_history("1111"));
    assert!(!daemon.remove_account_from_history("1111"));
    assert_eq!(daemon.get_account_history(), vec!["2222".to_string()]);
    let (response, _) = daemon.handle_command(
        DaemonCommand::RemoveAccountFromHistory("2222".to_string()),
        outcomes(),
    );
    assert_eq!(response, DaemonResponse::Unit);
    assert_eq!(daemon.get_account_history(), Vec::<String>::new());
}

#[test]
fn created_account_joins_the_history() {
    let mut daemon = Daemon::new();
    let result = daemon.create_new_account(Ok("3333".to_string()));
    assert_eq!(result, Ok("3333".to_string()));
    assert_eq!(daemon.get_settings().account_token, Some("3333".to_string()));
    assert_eq!(daemon.get_account_history(), vec!["3333".to_string()]);
    assert_eq!(daemon.create_new_account(Err(ApiError)), Err(ApiError));
    assert_eq!(daemon.get_account_history(), vec!["3333".to_string()]);
}

#[test]
fn account_history_can_be_cleared() {
    let mut daemon = Daemon::new();
    daemon.set_account(Some("1111".to_string()));
    daemon.clear_account_history();
    assert_eq!(daemon.get_account_history(), Vec::<String>::new());
}

#[test]
fn handle_command_dispatches() {
    let mut daemon = Daemon::new();
    let (response, _) = daemon.handle_command(DaemonCommand::GetState, outcomes());
    assert_eq!(response, DaemonResponse::State(TunnelState::Disconnected));

    let (response, _) = daemon.handle_command(
        DaemonCommand::SetAccount(Some("1234567890".to_string())),
        outcomes(),
    );
    assert_eq!(response, DaemonResponse::Unit);

    let (response, effects) = daemon.handle_command(
        DaemonCommand::SetTargetState(TargetState::Secured),
        outcomes(),
    );
    assert_eq!(response, DaemonResponse::TargetState(Ok(())));
    assert!(effects.launch_tunnel);

    let (response, _) = daemon.handle_command(DaemonCommand::Shutdown, outcomes());
    assert_eq!(response, DaemonResponse::Unit);
    assert!(daemon.shutdown_requested);
}

#[test]
fn channel_keeps_arrival_order() {
    let mut channel = DaemonCommandChannel::new();
    let first = channel.send(DaemonCommand::GetState).unwrap();
    let second = channel.send(DaemonCommand::Reconnect).unwrap();
    assert_ne!(first, second);

    let queued = channel.recv().expect("first command");
    assert_eq!(queued.command, DaemonCommand::GetState);
    assert_eq!(queued.slot, first);
    let queued = channel.recv().expect("second command");
    assert_eq!(queued.command, DaemonCommand::Reconnect);
    assert_eq!(queued.slot, second);
    assert_eq!(channel.recv(), None);
}

#[test]
fn channel_slots_are_single_use() {
    let mut channel = DaemonCommandChannel::new();
    let slot = channel.send(DaemonCommand::GetState).unwrap();
    let queued = channel.recv().unwrap();
    assert_eq!(queued.slot, slot);
    assert_eq!(
        channel.resolve(slot, DaemonResponse::State(TunnelState::Disconnected)),
        Ok(()),
    );
    assert_eq!(
        channel.resolve(slot, DaemonResponse::Unit),
        Err(ChannelError::BadSlot),
    );
    assert_eq!(channel.resolve(99, DaemonResponse::Unit), Err(ChannelError::BadSlot));
}

#[test]
fn queued_slot_cannot_be_resolved_early() {
    let mut channel = DaemonCommandChannel::new();
    let slot = channel.send(DaemonCommand::GetState).unwrap();
    assert_eq!(
        channel.resolve(slot, DaemonResponse::Unit),
        Err(ChannelError::BadSlot),
    );
}

// Closing the channel resolves every outstanding slot with the
// channel-closed error; none stays pending.
#[test]
fn close_resolves_every_outstanding_slot() {
    let mut channel = DaemonCommandChannel::new();
    let queued_slot = channel.send(DaemonCommand::GetState).unwrap();
    let taken_slot = channel.send(DaemonCommand::Reconnect).unwrap();
    let answered_slot = channel.send(DaemonCommand::Shutdown).unwrap();
    channel.recv().unwrap();
    channel.recv().unwrap();
    channel.recv().unwrap();
    channel.resolve(answered_slot, DaemonResponse::Unit).unwrap();

    channel.close();
    assert_eq!(channel.slots[queued_slot], SlotState::ChannelClosed);
    assert_eq!(channel.slots[taken_slot], SlotState::ChannelClosed);
    assert_eq!(channel.slots[answered_slot], SlotState::Fulfilled(DaemonResponse::Unit));
    assert_eq!(channel.send(DaemonCommand::GetState), Err(ChannelError::Closed));
}

#[test]
fn subscribers_get_fresh_ids() {
    let mut broadcaster = EventBroadcaster::new();
    let a = broadcaster.subscribe();
    let b = broadcaster.subscribe();
    assert_ne!(a, b);
    assert_eq!(broadcaster.current_subscribers(), vec![a, b]);
    assert!(broadcaster.unsubscribe(a));
    assert!(!broadcaster.unsubscribe(a));
    assert_eq!(broadcaster.current_subscribers(), vec![b]);
}

#[test]
fn broadcaster_accepts_every_event_kind() {
    let mut broadcaster = EventBroadcaster::new();
    broadcaster.subscribe();
    broadcaster.notify_new_state(TunnelState::Disconnected);
    broadcaster.notify_app_version(AppVersionInfo {
        supported: true,
        latest_stable: "2020.7".to_string(),
        latest_beta: "2020.8-beta1".to_string(),
        suggested_upgrade: None,
    });
    broadcaster.notify_key_event(KeygenEvent::TooManyKeys);
    broadcaster.publish(DaemonEvent::WireguardKey(KeygenEvent::GenerationFailure));
}

#[test]
fn processing_answers_each_command_in_its_slot() {
    let mut channel = DaemonCommandChannel::new();
    let mut daemon = Daemon::new();
    let first = channel.send(DaemonCommand::GetState).unwrap();
    let second = channel
        .send(DaemonCommand::SetAccount(Some("1234567890".to_string())))
        .unwrap();

    let effects = process_next(&mut channel, &mut daemon, outcomes());
    assert!(effects.is_some());
    assert_eq!(
        channel.slots[first],
        SlotState::Fulfilled(DaemonResponse::State(TunnelState::Disconnected)),
    );
    let effects = process_next(&mut channel, &mut daemon, outcomes());
    assert!(effects.is_some());
    assert_eq!(channel.slots[second], SlotState::Fulfilled(DaemonResponse::Unit));
    assert_eq!(process_next(&mut channel, &mut daemon, outcomes()), None);
    assert_eq!(daemon.get_settings().account_token, Some("1234567890".to_string()));
}

#[test]
fn wire_zero_means_unset() {
    assert_eq!(mssfix_from_wire(0), None);
    assert_eq!(mssfix_from_wire(1380), Some(1380));
    assert_eq!(mtu_from_wire(0), None);
    assert_eq!(mtu_from_wire(1420), Some(1420));
    assert_eq!(rotation_interval_from_wire(0), None);
    assert_eq!(rotation_interval_from_wire(24), Some(24));
    assert_eq!(account_token_from_wire(String::new()), None);
    assert_eq!(
        account_token_from_wire("1234567890".to_string()),
        Some("1234567890".to_string()),
    );
}
