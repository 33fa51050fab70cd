//! Plain data types for the tunnel lifecycle: the user's target state, the
//! observable tunnel state, and the error states a tunnel can fall into.

use vstd::prelude::*;

verus! {

/// Represents the state the client strives towards. When in `Secured`, the
/// client should keep the computer from leaking and try to establish a VPN
/// tunnel if it is not up.
#[derive(Clone, Copy, Debug, PartialEq, Eq, Structural, Hash)]
pub enum TargetState {
    Unsecured,
    Secured,
}

/// What the state machine does once a tear-down in progress completes.
#[derive(Clone, Copy, Debug, PartialEq, Eq, Structural)]
pub enum ActionAfterDisconnect {
    Nothing,
    Block,
    Reconnect,
}

/// Why tunnel parameter generation failed.
#[derive(Clone, Copy, Debug, PartialEq, Eq, Structural)]
pub enum GenerationError {
    NoMatchingRelay,
    NoMatchingBridgeRelay,
    NoWireguardKey,
    CustomTunnelHostResolutionError,
}

/// The cause of an error state.
#[derive(Clone, Copy, Debug, PartialEq, Eq, Structural)]
pub enum ErrorStateCause {
    AuthFailed,
    Ipv6Unavailable,
    SetFirewallPolicyError,
    SetDnsError,
    StartTunnelError,
    TunnelParameterError,
    IsOffline,
    TapAdapterProblem,
    VpnPermissionDenied,
}

/// The tunnel could not reach, or remain in, the state the target asked for.
/// `is_blocking` records whether the policy enforcer nevertheless managed to
/// block leaks.
#[derive(Debug, PartialEq)]
pub struct ErrorState {
    pub cause: ErrorStateCause,
    pub is_blocking: bool,
    /// Reason string reported by the remote server when `cause` is
    /// `AuthFailed`; empty otherwise.
    pub auth_fail_reason: String,
    /// Which parameter generation step failed when `cause` is
    /// `TunnelParameterError`; ignored otherwise.
    pub parameter_error: GenerationError,
}

impl ErrorState {
    pub fn new(cause: ErrorStateCause, is_blocking: bool) -> (r: ErrorState)
        ensures
            r.cause == cause,
            r.is_blocking == is_blocking,
            r.auth_fail_reason@ == Seq::<char>::empty(),
            r.parameter_error == GenerationError::NoMatchingRelay,
    {
        ErrorState {
            cause,
            is_blocking,
            auth_fail_reason: String::new(),
            parameter_error: GenerationError::NoMatchingRelay,
        }
    }
}

/// Transport protocol of a tunnel or proxy endpoint.
#[derive(Clone, Copy, Debug, PartialEq, Eq, Structural)]
pub enum TransportProtocol {
    Udp,
    Tcp,
}

/// Kind of tunnel protocol in use.
#[derive(Clone, Copy, Debug, PartialEq, Eq, Structural)]
pub enum TunnelType {
    OpenVpn,
    Wireguard,
}

/// The remote endpoint a tunnel connects to.
#[derive(Debug, PartialEq)]
pub struct TunnelEndpoint {
    pub tunnel_type: TunnelType,
    pub address: String,
    pub port: u16,
    pub protocol: TransportProtocol,
}

/// Location data for the host as perceived by the public internet.
/// Coordinates are carried in microdegrees so they stay exact integers.
#[derive(Debug, PartialEq)]
pub struct GeoIpLocation {
    pub ipv4: String,
    pub ipv6: String,
    pub country: String,
    pub city: String,
    pub hostname: String,
    pub bridge_hostname: String,
    pub mullvad_exit_ip: bool,
    pub latitude_microdeg: i64,
    pub longitude_microdeg: i64,
}

/// Represents the state the client tunnel is in. Exactly one variant is
/// active at any instant; it is mutated only by the state machine.
#[derive(Debug, PartialEq)]
pub enum TunnelState {
    Disconnected,
    Connecting { endpoint: Option<TunnelEndpoint>, location: Option<GeoIpLocation> },
    Connected { endpoint: TunnelEndpoint, location: Option<GeoIpLocation> },
    Disconnecting(ActionAfterDisconnect),
    Error(ErrorState),
}

impl Clone for ErrorState {
    fn clone(&self) -> (r: Self)
        ensures
            r == *self,
    {
        ErrorState {
            cause: self.cause,
            is_blocking: self.is_blocking,
            auth_fail_reason: self.auth_fail_reason.clone(),
            parameter_error: self.parameter_error,
        }
    }
}

impl Clone for TunnelEndpoint {
    fn clone(&self) -> (r: Self)
        ensures
            r == *self,
    {
        TunnelEndpoint {
            tunnel_type: self.tunnel_type,
            address: self.address.clone(),
            port: self.port,
            protocol: self.protocol,
        }
    }
}

impl Clone for GeoIpLocation {
    fn clone(&self) -> (r: Self)
        ensures
            r == *self,
    {
        GeoIpLocation {
            ipv4: self.ipv4.clone(),
            ipv6: self.ipv6.clone(),
            country: self.country.clone(),
            city: self.city.clone(),
            hostname: self.hostname.clone(),
            bridge_hostname: self.bridge_hostname.clone(),
            mullvad_exit_ip: self.mullvad_exit_ip,
            latitude_microdeg: self.latitude_microdeg,
            longitude_microdeg: self.longitude_microdeg,
        }
    }
}

impl Clone for TunnelState {
    fn clone(&self) -> (r: Self)
        ensures
            r == *self,
    {
        match self {
            TunnelState::Disconnected => TunnelState::Disconnected,
            TunnelState::Connecting { endpoint, location } => TunnelState::Connecting {
                endpoint: match endpoint {
                    Some(e) => Some(e.clone()),
                    None => None,
                },
                location: match location {
                    Some(l) => Some(l.clone()),
                    None => None,
                },
            },
            TunnelState::Connected { endpoint, location } => TunnelState::Connected {
                endpoint: endpoint.clone(),
                location: match location {
                    Some(l) => Some(l.clone()),
                    None => None,
                },
            },
            TunnelState::Disconnecting(action) => TunnelState::Disconnecting(*action),
            TunnelState::Error(error_state) => TunnelState::Error(error_state.clone()),
        }
    }
}

/// Mathematical model of an [`ErrorState`].
pub struct ErrorStateView {
    pub cause: ErrorStateCause,
    pub is_blocking: bool,
    pub auth_fail_reason: Seq<char>,
    pub parameter_error: GenerationError,
}

impl View for ErrorState {
    type V = ErrorStateView;

    open spec fn view(&self) -> ErrorStateView {
        ErrorStateView {
            cause: self.cause,
            is_blocking: self.is_blocking,
            auth_fail_reason: self.auth_fail_reason@,
            parameter_error: self.parameter_error,
        }
    }
}

impl DeepView for ErrorState {
    type V = ErrorStateView;

    open spec fn deep_view(&self) -> ErrorStateView {
        self.view()
    }
}

/// Mathematical model of a [`TunnelEndpoint`].
pub struct TunnelEndpointView {
    pub tunnel_type: TunnelType,
    pub address: Seq<char>,
    pub port: u16,
    pub protocol: TransportProtocol,
}

impl View for TunnelEndpoint {
    type V = TunnelEndpointView;

    open spec fn view(&self) -> TunnelEndpointView {
        TunnelEndpointView {
            tunnel_type: self.tunnel_type,
            address: self.address@,
            port: self.port,
            protocol: self.protocol,
        }
    }
}

impl DeepView for TunnelEndpoint {
    type V = TunnelEndpointView;

    open spec fn deep_view(&self) -> TunnelEndpointView {
        self.view()
    }
}

/// Mathematical model of a [`GeoIpLocation`].
pub struct GeoIpLocationView {
    pub ipv4: Seq<char>,
    pub ipv6: Seq<char>,
    pub country: Seq<char>,
    pub city: Seq<char>,
    pub hostname: Seq<char>,
    pub bridge_hostname: Seq<char>,
    pub mullvad_exit_ip: bool,
    pub latitude_microdeg: i64,
    pub longitude_microdeg: i64,
}

impl View for GeoIpLocation {
    type V = GeoIpLocationView;

    open spec fn view(&self) -> GeoIpLocationView {
        GeoIpLocationView {
            ipv4: self.ipv4@,
            ipv6: self.ipv6@,
            country: self.country@,
            city: self.city@,
            hostname: self.hostname@,
            bridge_hostname: self.bridge_hostname@,
            mullvad_exit_ip: self.mullvad_exit_ip,
            latitude_microdeg: self.latitude_microdeg,
            longitude_microdeg: self.longitude_microdeg,
        }
    }
}

impl DeepView for GeoIpLocation {
    type V = GeoIpLocationView;

    open spec fn deep_view(&self) -> GeoIpLocationView {
        self.view()
    }
}

/// Mathematical model of a [`TunnelState`].
pub enum TunnelStateView {
    Disconnected,
    Connecting { endpoint: Option<TunnelEndpointView>, location: Option<GeoIpLocationView> },
    Connected { endpoint: TunnelEndpointView, location: Option<GeoIpLocationView> },
    Disconnecting(ActionAfterDisconnect),
    Error(ErrorStateView),
}

impl View for TunnelState {
    type V = TunnelStateView;

    open spec fn view(&self) -> TunnelStateView {
        match self {
            TunnelState::Disconnected => TunnelStateView::Disconnected,
            TunnelState::Connecting { endpoint, location } => TunnelStateView::Connecting {
                endpoint: endpoint.deep_view(),
                location: location.deep_view(),
            },
            TunnelState::Connected { endpoint, location } => TunnelStateView::Connected {
                endpoint: endpoint@,
                location: location.deep_view(),
            },
            TunnelState::Disconnecting(action) => TunnelStateView::Disconnecting(*action),
            TunnelState::Error(error_state) => TunnelStateView::Error(error_state@),
        }
    }
}

impl DeepView for TunnelState {
    type V = TunnelStateView;

    open spec fn deep_view(&self) -> TunnelStateView {
        self.view()
    }
}

impl TunnelStateView {
    /// True when this state is the one the given target asks for.
    pub open spec fn consistent_with(self, target: TargetState) -> bool {
        match target {
            TargetState::Secured => self is Connected,
            TargetState::Unsecured => self is Disconnected,
        }
    }
}

impl TunnelState {
    /// Returns true if the tunnel state is in the error state.
    pub fn is_in_error_state(&self) -> (r: bool)
        ensures
            r == (self is Error),
    {
        match self {
            TunnelState::Error(_) => true,
            _ => false,
        }
    }

    /// Executable mirror of [`TunnelStateView::consistent_with`].
    pub fn consistent_with(&self, target: TargetState) -> (r: bool)
        ensures
            r == self@.consistent_with(target),
    {
        match (self, target) {
            (TunnelState::Connected { .. }, TargetState::Secured) => true,
            (TunnelState::Disconnected, TargetState::Unsecured) => true,
            _ => false,
        }
    }
}

} // verus!
