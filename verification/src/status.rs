//! Rendering the tunnel state for the user: one line for the state, and
//! the exact message for each error cause.

use vstd::prelude::*;
use vstd::string::StringExecFns;

use crate::fmt::{push_decimal, spec_decimal_digits};
use crate::states::{ErrorState, ErrorStateCause, GenerationError, TunnelState};

verus! {

/// The message shown for each way tunnel parameter generation can fail.
pub open spec fn spec_tunnel_parameter_error_message(parameter_error: GenerationError) -> Seq<
    char,
> {
    match parameter_error {
        GenerationError::NoMatchingRelay => "Failure to select a matching tunnel relay"@,
        GenerationError::NoMatchingBridgeRelay => "Failure to select a matching bridge relay"@,
        GenerationError::NoWireguardKey => "No wireguard key available"@,
        GenerationError::CustomTunnelHostResolutionError =>
            "Can't resolve hostname for custom tunnel host"@,
    }
}

/// The message shown for each way tunnel parameter generation can fail.
pub fn tunnel_parameter_error_to_string(parameter_error: GenerationError) -> (r: &'static str)
    ensures
        r@ == spec_tunnel_parameter_error_message(parameter_error),
{
    match parameter_error {
        GenerationError::NoMatchingRelay => "Failure to select a matching tunnel relay",
        GenerationError::NoMatchingBridgeRelay => "Failure to select a matching bridge relay",
        GenerationError::NoWireguardKey => "No wireguard key available",
        GenerationError::CustomTunnelHostResolutionError =>
            "Can't resolve hostname for custom tunnel host",
    }
}

/// The message shown for an error state: a fixed text per cause, with
/// the server's reason appended for an authentication failure and the
/// generation error spelled out for a parameter failure.
pub open spec fn spec_error_state_message(error_state: crate::states::ErrorStateView) -> Seq<
    char,
> {
    match error_state.cause {
        ErrorStateCause::AuthFailed => if error_state.auth_fail_reason.len() == 0 {
            "Authentication with remote server failed"@
        } else {
            "Authentication with remote server failed: "@ + error_state.auth_fail_reason
        },
        ErrorStateCause::Ipv6Unavailable =>
            "Failed to configure IPv6 because it's disabled in the platform"@,
        ErrorStateCause::SetFirewallPolicyError => "Failed to set firewall policy"@,
        ErrorStateCause::SetDnsError => "Failed to set system DNS server"@,
        ErrorStateCause::StartTunnelError => "Failed to start connection to remote server"@,
        ErrorStateCause::TunnelParameterError => "Failure to generate tunnel parameters: "@
            + spec_tunnel_parameter_error_message(error_state.parameter_error),
        ErrorStateCause::IsOffline => "This device is offline, no tunnels can be established"@,
        ErrorStateCause::TapAdapterProblem =>
            "A problem with the TAP adapter has been detected"@,
        ErrorStateCause::VpnPermissionDenied =>
            "The Android VPN permission was denied when creating the tunnel"@,
    }
}

/// The message shown for an error state.
pub fn error_state_to_string(error_state: &ErrorState) -> (r: String)
    ensures
        r@ == spec_error_state_message(error_state@),
{
    match error_state.cause {
        ErrorStateCause::AuthFailed => {
            if error_state.auth_fail_reason.as_str().is_empty() {
                "Authentication with remote server failed".to_owned()
            } else {
                let mut message = "Authentication with remote server failed: ".to_owned();
                message.append(error_state.auth_fail_reason.as_str());
                message
            }
        },
        ErrorStateCause::Ipv6Unavailable =>
            "Failed to configure IPv6 because it's disabled in the platform".to_owned(),
        ErrorStateCause::SetFirewallPolicyError => "Failed to set firewall policy".to_owned(),
        ErrorStateCause::SetDnsError => "Failed to set system DNS server".to_owned(),
        ErrorStateCause::StartTunnelError =>
            "Failed to start connection to remote server".to_owned(),
        ErrorStateCause::TunnelParameterError => {
            let mut message = "Failure to generate tunnel parameters: ".to_owned();
            message.append(tunnel_parameter_error_to_string(error_state.parameter_error));
            message
        },
        ErrorStateCause::IsOffline =>
            "This device is offline, no tunnels can be established".to_owned(),
        ErrorStateCause::TapAdapterProblem =>
            "A problem with the TAP adapter has been detected".to_owned(),
        ErrorStateCause::VpnPermissionDenied =>
            "The Android VPN permission was denied when creating the tunnel".to_owned(),
    }
}

/// The one-line rendering of a tunnel state.
pub open spec fn spec_state_line(state: crate::states::TunnelStateView) -> Seq<char> {
    match state {
        crate::states::TunnelStateView::Disconnected => "Disconnected"@,
        crate::states::TunnelStateView::Connecting { endpoint, .. } => match endpoint {
            Some(e) => "Connecting to "@ + e.address + ":"@ + spec_decimal_digits(
                e.port as nat,
            ) + "..."@,
            None => "Connecting..."@,
        },
        crate::states::TunnelStateView::Connected { endpoint, .. } => "Connected to "@
            + endpoint.address + ":"@ + spec_decimal_digits(endpoint.port as nat),
        crate::states::TunnelStateView::Disconnecting(_) => "Disconnecting..."@,
        crate::states::TunnelStateView::Error(error_state) => "Blocked: "@
            + spec_error_state_message(error_state),
    }
}

/// The status command surface; what it can render without talking to the
/// daemon lives here.
pub struct Status;

impl Status {
    /// Renders a tunnel state on one line, as the status command prints
    /// it.
    pub fn format_state(state: &TunnelState) -> (r: String)
        ensures
            r@ == spec_state_line(state@),
    {
        match state {
            TunnelState::Disconnected => "Disconnected".to_owned(),
            TunnelState::Connecting { endpoint, .. } => match endpoint {
                Some(e) => {
                    let mut line = "Connecting to ".to_owned();
                    line.append(e.address.as_str());
                    line.append(":");
                    push_decimal(&mut line, e.port as u64);
                    line.append("...");
                    line
                },
                None => "Connecting...".to_owned(),
            },
            TunnelState::Connected { endpoint, .. } => {
                let mut line = "Connected to ".to_owned();
                line.append(endpoint.address.as_str());
                line.append(":");
                push_decimal(&mut line, endpoint.port as u64);
                line
            },
            TunnelState::Disconnecting(_) => "Disconnecting...".to_owned(),
            TunnelState::Error(error_state) => {
                let mut line = "Blocked: ".to_owned();
                line.append(error_state_to_string(error_state).as_str());
                line
            },
        }
    }
}

} // verus!
