//! Process-wide daemon configuration: owned by the daemon, read by the
//! state machine when computing policy, mutated only through command
//! handlers.

use vstd::prelude::*;

use crate::relay_constraints::{
    BridgeConstraints, BridgeSettings, BridgeState, Constraint, RelayConstraints, RelaySettings,
};

verus! {

/// Per-protocol tunnel options. A `None` means the protocol default.
#[derive(Clone, Copy, Debug, PartialEq)]
pub struct TunnelOptions {
    pub openvpn_mssfix: Option<u16>,
    pub wireguard_mtu: Option<u16>,
    /// Automatic key rotation interval in hours; `None` means the default.
    pub wireguard_rotation_interval: Option<u32>,
    pub enable_ipv6: bool,
}

/// All daemon settings.
#[derive(Debug, PartialEq)]
pub struct Settings {
    pub account_token: Option<String>,
    pub relay_settings: RelaySettings,
    pub bridge_settings: BridgeSettings,
    pub bridge_state: BridgeState,
    pub allow_lan: bool,
    pub block_when_disconnected: bool,
    pub auto_connect: bool,
    pub show_beta_releases: bool,
    pub tunnel_options: TunnelOptions,
}

impl Clone for Settings {
    fn clone(&self) -> (r: Self)
        ensures
            r == *self,
    {
        Settings {
            account_token: match &self.account_token {
                Some(token) => Some(token.clone()),
                None => None,
            },
            relay_settings: self.relay_settings.clone(),
            bridge_settings: self.bridge_settings.clone(),
            bridge_state: self.bridge_state,
            allow_lan: self.allow_lan,
            block_when_disconnected: self.block_when_disconnected,
            auto_connect: self.auto_connect,
            show_beta_releases: self.show_beta_releases,
            tunnel_options: self.tunnel_options,
        }
    }
}

impl Default for Settings {
    /// The settings a fresh installation starts with: no account, no
    /// constraints, nothing blocked, automatic bridges, protocol defaults.
    fn default() -> (r: Settings)
        ensures
            r.account_token is None,
            r.relay_settings == RelaySettings::Normal(
                RelayConstraints { location: Constraint::Any },
            ),
            r.bridge_settings == BridgeSettings::Normal(
                BridgeConstraints { location: Constraint::Any },
            ),
            r.bridge_state == BridgeState::Auto,
            !r.allow_lan,
            !r.block_when_disconnected,
            !r.auto_connect,
            !r.show_beta_releases,
            r.tunnel_options == (TunnelOptions {
                openvpn_mssfix: None::<u16>,
                wireguard_mtu: None::<u16>,
                wireguard_rotation_interval: None::<u32>,
                enable_ipv6: false,
            }),
    {
        Settings {
            account_token: None,
            relay_settings: RelaySettings::Normal(RelayConstraints { location: Constraint::Any }),
            bridge_settings: BridgeSettings::Normal(
                BridgeConstraints { location: Constraint::Any },
            ),
            bridge_state: BridgeState::Auto,
            allow_lan: false,
            block_when_disconnected: false,
            auto_connect: false,
            show_beta_releases: false,
            tunnel_options: TunnelOptions {
                openvpn_mssfix: None,
                wireguard_mtu: None,
                wireguard_rotation_interval: None,
                enable_ipv6: false,
            },
        }
    }
}

impl Settings {
    /// The configured account token, if any.
    pub fn get_account_token(&self) -> (r: Option<String>)
        ensures
            r == self.account_token,
    {
        match &self.account_token {
            Some(token) => Some(token.clone()),
            None => None,
        }
    }

    /// The current relay selection constraints.
    pub fn get_relay_settings(&self) -> (r: RelaySettings)
        ensures
            r == self.relay_settings,
    {
        self.relay_settings.clone()
    }

    /// Whether bridges are in use.
    pub fn get_bridge_state(&self) -> (r: BridgeState)
        ensures
            r == self.bridge_state,
    {
        self.bridge_state
    }
}

} // verus!
