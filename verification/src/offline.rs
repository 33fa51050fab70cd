//! Connectivity monitoring: deciding, from the number of usable network
//! interfaces a path update reports, whether the host went offline or
//! came back — and saying so only on the change, never on every update,
//! so that interface flaps that do not change reachability cause no
//! transition storm.

use vstd::prelude::*;

use crate::tunnel_state_machine::TunnelCommand;

verus! {

/// The connectivity monitor's own state: how many interfaces currently
/// provide connectivity. The platform watcher feeds it every path
/// update; this type decides what the update means.
pub struct MonitorHandle {
    pub num_valid_interfaces: u32,
}

/// Whether a count of usable interfaces means the host is offline.
pub open spec fn spec_is_offline(num_interfaces: u32) -> bool {
    num_interfaces < 1
}

impl MonitorHandle {
    /// A monitor that starts from the given interface count; the
    /// platform's first route lookup supplies it. A failed lookup counts
    /// as one interface: monitoring fails open, so that a broken query
    /// never blocks traffic by itself.
    pub fn new(initial_num_interfaces: u32) -> (r: MonitorHandle)
        ensures
            r.num_valid_interfaces == initial_num_interfaces,
    {
        MonitorHandle { num_valid_interfaces: initial_num_interfaces }
    }

    /// Host is considered to be offline if there are no active
    /// interfaces that could provide connectivity.
    pub fn is_offline(&self) -> (r: bool)
        ensures
            r == spec_is_offline(self.num_valid_interfaces),
    {
        self.num_valid_interfaces < 1
    }

    /// Consumes one path update: records the new interface count, and
    /// reports a command for the state machine exactly when the answer
    /// to "is this host offline" changed.
    pub fn path_update(&mut self, num_interfaces: u32) -> (r: Option<TunnelCommand>)
        ensures
            final(self).num_valid_interfaces == num_interfaces,
            r == if spec_is_offline(num_interfaces) != spec_is_offline(
                old(self).num_valid_interfaces,
            ) {
                Some(TunnelCommand::IsOffline(spec_is_offline(num_interfaces)))
            } else {
                None::<TunnelCommand>
            },
    {
        let was_offline = self.num_valid_interfaces < 1;
        self.num_valid_interfaces = num_interfaces;
        let is_offline = num_interfaces < 1;
        if is_offline != was_offline {
            Some(TunnelCommand::IsOffline(is_offline))
        } else {
            None
        }
    }
}

} // verus!
