use mullvad_daemon::account::{map_rest_account_error, normalize_voucher, Account, VoucherError};
use mullvad_daemon::location::{
    city_code_validator, country_code_validator, get_constraint, ConstraintError,
};
use mullvad_daemon::rpc_address_file;
use mullvad_daemon::states::{
    ErrorState, ErrorStateCause, GenerationError, TargetState, TransportProtocol,
    TunnelEndpoint, TunnelState, TunnelType,
};
use mullvad_daemon::status::{error_state_to_string, tunnel_parameter_error_to_string, Status};

fn error_state(cause: ErrorStateCause) -> ErrorState {
    ErrorState::new(cause, true)
}

// `SubmitVoucher("AB##12-34")`: non-alphanumeric characters are stripped
// before submission.
#[test]
fn voucher_code_is_stripped_of_separators() {
    assert_eq!(normalize_voucher("AB##12-34"), "AB1234");
    assert_eq!(normalize_voucher("1234-5678-9012-3456"), "1234567890123456");
    assert_eq!(normalize_voucher(""), "");
    assert_eq!(normalize_voucher(" !?#"), "");
    assert_eq!(normalize_voucher("abcd"), "abcd");
}

#[test]
fn voucher_error_codes_map_to_errors() {
    assert_eq!(VoucherError::from_rpc_error_code(-400), VoucherError::InvalidVoucher);
    assert_eq!(VoucherError::from_rpc_error_code(-401), VoucherError::VoucherUsed);
    assert_eq!(VoucherError::from_rpc_error_code(-999), VoucherError::RpcError);
}

#[test]
fn durations_show_their_largest_whole_unit() {
    assert_eq!(Account::format_duration(259_200), "3 days");
    assert_eq!(Account::format_duration(86_400), "1 days");
    assert_eq!(Account::format_duration(7_200), "2 hours");
    assert_eq!(Account::format_duration(120), "2 minutes");
    assert_eq!(Account::format_duration(59), "59 seconds");
    assert_eq!(Account::format_duration(0), "0 seconds");
    assert_eq!(Account::format_duration(90_061), "1 days");
}

#[test]
fn error_messages_match_their_causes() {
    assert_eq!(
        error_state_to_string(&error_state(ErrorStateCause::Ipv6Unavailable)),
        "Failed to configure IPv6 because it's disabled in the platform",
    );
    assert_eq!(
        error_state_to_string(&error_state(ErrorStateCause::SetFirewallPolicyError)),
        "Failed to set firewall policy",
    );
    assert_eq!(
        error_state_to_string(&error_state(ErrorStateCause::SetDnsError)),
        "Failed to set system DNS server",
    );
    assert_eq!(
        error_state_to_string(&error_state(ErrorStateCause::StartTunnelError)),
        "Failed to start connection to remote server",
    );
    assert_eq!(
        error_state_to_string(&error_state(ErrorStateCause::IsOffline)),
        "This device is offline, no tunnels can be established",
    );
    assert_eq!(
        error_state_to_string(&error_state(ErrorStateCause::TapAdapterProblem)),
        "A problem with the TAP adapter has been detected",
    );
    assert_eq!(
        error_state_to_string(&error_state(ErrorStateCause::VpnPermissionDenied)),
        "The Android VPN permission was denied when creating the tunnel",
    );
}

#[test]
fn auth_failure_message_carries_the_reason() {
    assert_eq!(
        error_state_to_string(&error_state(ErrorStateCause::AuthFailed)),
        "Authentication with remote server failed",
    );
    let mut with_reason = error_state(ErrorStateCause::AuthFailed);
    with_reason.auth_fail_reason = "EXPIRED_ACCOUNT".to_string();
    assert_eq!(
        error_state_to_string(&with_reason),
        "Authentication with remote server failed: EXPIRED_ACCOUNT",
    );
}

#[test]
fn parameter_error_message_names_the_generation_step() {
    assert_eq!(
        tunnel_parameter_error_to_string(GenerationError::NoMatchingRelay),
        "Failure to select a matching tunnel relay",
    );
    assert_eq!(
        tunnel_parameter_error_to_string(GenerationError::NoMatchingBridgeRelay),
        "Failure to select a matching bridge relay",
    );
    assert_eq!(
        tunnel_parameter_error_to_string(GenerationError::NoWireguardKey),
        "No wireguard key available",
    );
    assert_eq!(
        tunnel_parameter_error_to_string(GenerationError::CustomTunnelHostResolutionError),
        "Can't resolve hostname for custom tunnel host",
    );
    let mut state = error_state(ErrorStateCause::TunnelParameterError);
    state.parameter_error = GenerationError::NoWireguardKey;
    assert_eq!(
        error_state_to_string(&state),
        "Failure to generate tunnel parameters: No wireguard key available",
    );
}

#[test]
fn state_lines_render_each_state() {
    assert_eq!(Status::format_state(&TunnelState::Disconnected), "Disconnected");
    let endpoint = TunnelEndpoint {
        tunnel_type: TunnelType::OpenVpn,
        address: "185.65.134.1".to_string(),
        port: 443,
        protocol: TransportProtocol::Tcp,
    };
    assert_eq!(
        Status::format_state(&TunnelState::Connected {
            endpoint: endpoint.clone(),
            location: None,
        }),
        "Connected to 185.65.134.1:443",
    );
    assert_eq!(
        Status::format_state(&TunnelState::Connecting { endpoint: None, location: None }),
        "Connecting...",
    );
    assert_eq!(
        Status::format_state(&TunnelState::Connecting {
            endpoint: Some(endpoint),
            location: None,
        }),
        "Connecting to 185.65.134.1:443...",
    );
    assert_eq!(
        Status::format_state(&TunnelState::Error(error_state(ErrorStateCause::IsOffline))),
        "Blocked: This device is offline, no tunnels can be established",
    );
}

#[test]
fn location_parts_are_lowercased() {
    let got = Some("GOT");
    let host = Some("se-got-101");
    assert_eq!(
        get_constraint("SE", got, None),
        Ok(vec!["se".to_string(), "got".to_string()]),
    );
    assert_eq!(
        get_constraint("SE", got, host),
        Ok(vec!["se".to_string(), "got".to_string(), "se-got-101".to_string()]),
    );
    assert_eq!(get_constraint("DE", None, None), Ok(vec!["de".to_string()]));
    assert_eq!(get_constraint("any", None, None), Ok(Vec::new()));
    assert_eq!(
        get_constraint("any", got, None),
        Err(ConstraintError::CityWithAnyCountry),
    );
    assert_eq!(
        get_constraint("SE", None, host),
        Err(ConstraintError::InvalidCombination),
    );
}

#[test]
fn code_validators_accept_the_documented_shapes() {
    assert_eq!(country_code_validator("se".to_string()), Ok(()));
    assert_eq!(country_code_validator("any".to_string()), Ok(()));
    assert!(country_code_validator("sweden".to_string()).is_err());
    assert_eq!(
        country_code_validator("x".to_string()),
        Err("Country codes must be two letters, or 'any'.".to_string()),
    );
    assert_eq!(city_code_validator("got".to_string()), Ok(()));
    assert_eq!(
        city_code_validator("gothenburg".to_string()),
        Err("City codes must be three letters".to_string()),
    );
}

#[test]
fn rpc_address_file_holds_address_and_secret() {
    assert_eq!(
        rpc_address_file::write("/var/run/mullvad-vpn", "SECRET-REDACTED"),
        "/var/run/mullvad-vpn\nSECRET-REDACTED\n",
    );
}

#[test]
fn consistency_matches_target() {
    assert!(TunnelState::Disconnected.consistent_with(TargetState::Unsecured));
    assert!(!TunnelState::Disconnected.consistent_with(TargetState::Secured));
    let connected = TunnelState::Connected {
        endpoint: TunnelEndpoint {
            tunnel_type: TunnelType::Wireguard,
            address: "10.0.0.1".to_string(),
            port: 51820,
            protocol: TransportProtocol::Udp,
        },
        location: None,
    };
    assert!(connected.consistent_with(TargetState::Secured));
    assert!(connected.consistent_with(TargetState::Secured));
    assert!(TunnelState::Error(error_state(ErrorStateCause::IsOffline)).is_in_error_state());
}

#[test]
fn rest_account_errors_map_to_codes() {
    assert_eq!(map_rest_account_error(401), -200);
    assert_eq!(map_rest_account_error(403), -200);
    assert_eq!(map_rest_account_error(500), -32603);
}
