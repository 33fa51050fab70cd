//! Core of a VPN client daemon: the tunnel state machine, the daemon command
//! channel, the policy enforcer model, and the event broadcaster, together
//! with the plain data types they exchange.

pub mod account;
pub mod broadcaster;
pub mod command_channel;
pub mod daemon;
pub mod fmt;
pub mod location;
pub mod offline;
pub mod policy;
pub mod relay_constraints;
pub mod relay_list;
pub mod rpc_address_file;
pub mod settings;
pub mod split_tunnel;
pub mod states;
pub mod status;
pub mod text;
pub mod tunnel_state_machine;
pub mod version;
pub mod wireguard;
