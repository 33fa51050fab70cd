//! The daemon command channel: the single ingestion point that turns
//! concurrent callers into one ordered stream of commands, consumed by
//! exactly one state-machine task. Each command carries a response slot,
//! fulfilled at most once; when the channel closes, every outstanding
//! slot resolves to a channel-closed error rather than staying pending.

use vstd::prelude::*;

use crate::account::{VoucherError, VoucherSubmission};
use crate::relay_constraints::{BridgeSettings, BridgeState, RelaySettingsUpdate, ValidationError};
use crate::settings::Settings;
use crate::states::{TargetState, TunnelState};
use crate::wireguard::{KeygenEvent, PublicKey};

verus! {

/// A command a caller submits to the daemon.
#[derive(Debug, PartialEq)]
pub enum DaemonCommand {
    /// Ask the daemon to drive the tunnel toward the given target state.
    SetTargetState(TargetState),
    /// Tear the tunnel down and reconnect without changing the target.
    Reconnect,
    /// Read the current tunnel state.
    GetState,
    /// Configure the account token, or remove it.
    SetAccount(Option<String>),
    /// Apply a partial update of the relay constraints.
    UpdateRelaySettings(RelaySettingsUpdate),
    /// Replace the bridge configuration.
    SetBridgeSettings(BridgeSettings),
    /// Switch bridges off, on, or to automatic.
    SetBridgeState(BridgeState),
    SetAllowLan(bool),
    SetBlockWhenDisconnected(bool),
    SetAutoConnect(bool),
    SetShowBetaReleases(bool),
    SetEnableIpv6(bool),
    SetOpenVpnMssfix(Option<u16>),
    SetWireguardMtu(Option<u16>),
    SetWireguardRotationInterval(Option<u32>),
    /// Ask the server for a new WireGuard key.
    GenerateWireguardKey,
    /// Read the WireGuard key the daemon holds.
    GetWireguardKey,
    /// Check the held key against the server.
    VerifyWireguardKey,
    /// Read the current settings.
    GetSettings,
    /// Ask the server to create a new account.
    CreateNewAccount,
    /// Redeem a voucher code that has already been normalized.
    SubmitVoucher(String),
    /// Forget all accounts previously used.
    ClearAccountHistory,
    /// Read the accounts previously used.
    GetAccountHistory,
    /// Forget one account.
    RemoveAccountFromHistory(String),
    /// Stop the daemon.
    Shutdown,
    /// Stop the daemon so that the system can restart it.
    PrepareRestart,
}

/// The daemon could not comply because no account is configured.
#[derive(Clone, Copy, Debug, PartialEq, Eq, Structural)]
pub struct NoAccountConfigured;

/// The server could not be reached or rejected the request.
#[derive(Clone, Copy, Debug, PartialEq, Eq, Structural)]
pub struct ApiError;

/// What the daemon answers to one command.
#[derive(Debug, PartialEq)]
pub enum DaemonResponse {
    /// Done; nothing further to say.
    Unit,
    /// Answer to `SetTargetState`.
    TargetState(Result<(), NoAccountConfigured>),
    /// Answer to `GetState`.
    State(TunnelState),
    /// Answer to `GetSettings`.
    Settings(Settings),
    /// Answer to `SetBridgeSettings` and `SetBridgeState`.
    Validation(Result<(), ValidationError>),
    /// Answer to `GenerateWireguardKey`.
    Keygen(KeygenEvent),
    /// Answer to `GetWireguardKey`.
    WireguardKey(Option<PublicKey>),
    /// Answer to `VerifyWireguardKey`.
    KeyValid(bool),
    /// Answer to `CreateNewAccount`.
    NewAccount(Result<String, ApiError>),
    /// Answer to `SubmitVoucher`.
    Voucher(Result<VoucherSubmission, VoucherError>),
    /// Answer to `GetAccountHistory`.
    AccountHistory(Vec<String>),
}

/// The state of one response slot.
#[derive(Debug, PartialEq)]
pub enum SlotState {
    /// The command has not been answered yet.
    Pending,
    /// The command was answered.
    Fulfilled(DaemonResponse),
    /// The channel closed before the command was answered.
    ChannelClosed,
}

/// A command waiting in the channel, with the slot its answer goes to.
#[derive(Debug, PartialEq)]
pub struct QueuedCommand {
    pub command: DaemonCommand,
    pub slot: usize,
}

/// The channel could not accept the call.
#[derive(Clone, Copy, Debug, PartialEq, Eq, Structural)]
pub enum ChannelError {
    /// The channel is closed; the daemon is shutting down.
    Closed,
    /// No such slot, or the slot is no longer pending.
    BadSlot,
}

/// The serialization point: commands queue in arrival order, are taken
/// out in exactly that order, and each has a single-use response slot.
pub struct DaemonCommandChannel {
    pub queue: Vec<QueuedCommand>,
    pub slots: Vec<SlotState>,
    pub closed: bool,
}

impl DaemonCommandChannel {
    /// Every queued command points at a pending slot, no two queued
    /// commands share a slot, and a closed channel holds no queue and no
    /// pending slot.
    pub open spec fn wf(self) -> bool {
        &&& forall|i: int|
            0 <= i < self.queue@.len() ==> (#[trigger] self.queue@[i].slot) < self.slots@.len()
                && self.slots@[self.queue@[i].slot as int] is Pending
        &&& forall|i: int, j: int|
            0 <= i < j < self.queue@.len() ==> self.queue@[i].slot != self.queue@[j].slot
        &&& self.closed ==> self.queue@.len() == 0
        &&& self.closed ==> forall|i: int|
            0 <= i < self.slots@.len() ==> !(#[trigger] self.slots@[i] is Pending)
    }

    /// An open channel with nothing queued.
    pub fn new() -> (r: DaemonCommandChannel)
        ensures
            r.wf(),
            r.queue@.len() == 0,
            r.slots@.len() == 0,
            !r.closed,
    {
        DaemonCommandChannel { queue: Vec::new(), slots: Vec::new(), closed: false }
    }

    /// Submits a command. It joins the back of the queue — commands are
    /// processed strictly in arrival order — and gets a fresh pending
    /// slot, whose index is returned so the caller can await the answer.
    /// A closed channel accepts nothing.
    pub fn send(&mut self, command: DaemonCommand) -> (r: Result<usize, ChannelError>)
        requires
            old(self).wf(),
        ensures
            final(self).wf(),
            final(self).closed == old(self).closed,
            match r {
                Ok(slot) => {
                    &&& !old(self).closed
                    &&& slot == old(self).slots@.len()
                    &&& final(self).slots@ == old(self).slots@.push(SlotState::Pending)
                    &&& final(self).queue@ == old(self).queue@.push(
                        QueuedCommand { command, slot },
                    )
                },
                Err(e) => {
                    &&& e == ChannelError::Closed
                    &&& old(self).closed
                    &&& final(self).slots@ == old(self).slots@
                    &&& final(self).queue@ == old(self).queue@
                },
            },
    {
        if self.closed {
            Err(ChannelError::Closed)
        } else {
            let slot = self.slots.len();
            self.slots.push(SlotState::Pending);
            self.queue.push(QueuedCommand { command, slot });
            proof {
                assert forall|i: int| 0 <= i < self.queue@.len() implies (
                #[trigger] self.queue@[i].slot) < self.slots@.len() && self.slots@[self.queue@[
                    i
                ].slot as int] is Pending by {
                    if i < old(self).queue@.len() {
                        assert(old(self).queue@[i].slot < old(self).slots@.len());
                    }
                }
            }
            Ok(slot)
        }
    }

    /// Takes the oldest queued command out, in strict arrival order.
    pub fn recv(&mut self) -> (r: Option<QueuedCommand>)
        requires
            old(self).wf(),
        ensures
            final(self).wf(),
            final(self).slots@ == old(self).slots@,
            final(self).closed == old(self).closed,
            match r {
                Some(queued) => old(self).queue@.len() > 0 && queued == old(self).queue@[0]
                    && final(self).queue@ == old(self).queue@.skip(1),
                None => old(self).queue@.len() == 0 && final(self).queue@ == old(self).queue@,
            },
    {
        if self.queue.len() == 0 {
            None
        } else {
            let queued = self.queue.remove(0);
            proof {
                assert(self.queue@ =~= old(self).queue@.skip(1));
            }
            Some(queued)
        }
    }

    /// Answers the command that was given this slot. A slot takes exactly
    /// one answer: answering it again, or answering an unknown slot, is
    /// refused.
    pub fn resolve(&mut self, slot: usize, response: DaemonResponse) -> (r: Result<
        (),
        ChannelError,
    >)
        requires
            old(self).wf(),
        ensures
            final(self).wf(),
            final(self).queue@ == old(self).queue@,
            final(self).closed == old(self).closed,
            match r {
                Ok(()) => {
                    &&& slot < old(self).slots@.len()
                    &&& old(self).slots@[slot as int] is Pending
                    &&& !old(self).queue_holds_slot(slot as int)
                    &&& final(self).slots@ == old(self).slots@.update(
                        slot as int,
                        SlotState::Fulfilled(response),
                    )
                },
                Err(e) => {
                    &&& e == ChannelError::BadSlot
                    &&& final(self).slots@ == old(self).slots@
                    &&& !(slot < old(self).slots@.len() && old(self).slots@[slot as int] is Pending
                        && !old(self).queue_holds_slot(slot as int))
                },
            },
    {
        if slot >= self.slots.len() {
            return Err(ChannelError::BadSlot);
        }
        let pending = match &self.slots[slot] {
            SlotState::Pending => true,
            _ => false,
        };
        if !pending {
            return Err(ChannelError::BadSlot);
        }
        if self.slot_is_queued(slot) {
            return Err(ChannelError::BadSlot);
        }
        self.slots.set(slot, SlotState::Fulfilled(response));
        proof {
            assert forall|i: int| 0 <= i < self.queue@.len() implies (
            #[trigger] self.queue@[i].slot) < self.slots@.len() && self.slots@[self.queue@[
                i
            ].slot as int] is Pending by {
                assert(old(self).queue@[i].slot != slot);
            }
        }
        Ok(())
    }

    /// Whether some queued command's answer would go to this slot.
    pub open spec fn queue_holds_slot(self, slot: int) -> bool {
        exists|i: int| 0 <= i < self.queue@.len() && (#[trigger] self.queue@[i].slot) == slot
    }

    /// Executable mirror of [`Self::queue_holds_slot`]: the slot still
    /// belongs to a command that has not been taken out yet.
    fn slot_is_queued(&self, slot: usize) -> (r: bool)
        ensures
            r == self.queue_holds_slot(slot as int),
    {
        let mut i: usize = 0;
        while i < self.queue.len()
            invariant
                i <= self.queue@.len(),
                forall|k: int| 0 <= k < i ==> (#[trigger] self.queue@[k].slot) != slot,
            decreases self.queue@.len() - i,
        {
            if self.queue[i].slot == slot {
                return true;
            }
            i = i + 1;
        }
        false
    }

    /// Closes the channel: nothing further is accepted, the queue is
    /// dropped, and every slot still pending — queued or taken out but
    /// unanswered — resolves to the channel-closed error. No slot is
    /// left pending.
    pub fn close(&mut self)
        ensures
            final(self).wf(),
            final(self).closed,
            final(self).queue@.len() == 0,
            final(self).slots@.len() == old(self).slots@.len(),
            forall|i: int|
                0 <= i < old(self).slots@.len() ==> #[trigger] final(self).slots@[i] == (
                if old(self).slots@[i] is Pending {
                    SlotState::ChannelClosed
                } else {
                    old(self).slots@[i]
                }),
    {
        self.closed = true;
        self.queue.clear();
        let ghost old_slots = self.slots@;
        let mut closed_slots: Vec<SlotState> = Vec::new();
        while self.slots.len() > 0
            invariant
                self.closed,
                self.queue@.len() == 0,
                closed_slots@.len() + self.slots@.len() == old_slots.len(),
                self.slots@ == old_slots.skip(closed_slots@.len() as int),
                forall|i: int|
                    0 <= i < closed_slots@.len() ==> #[trigger] closed_slots@[i] == (
                    if old_slots[i] is Pending {
                        SlotState::ChannelClosed
                    } else {
                        old_slots[i]
                    }),
            decreases self.slots@.len(),
        {
            let ghost done = closed_slots@.len();
            let slot_state = self.slots.remove(0);
            let replacement = match slot_state {
                SlotState::Pending => SlotState::ChannelClosed,
                other => other,
            };
            closed_slots.push(replacement);
            proof {
                assert(old_slots.skip(done as int)[0] == old_slots[done as int]);
                assert(self.slots@ =~= old_slots.skip(done as int + 1));
            }
        }
        self.slots = closed_slots;
    }
}


/// Reads the wire encoding of an optional mssfix value: zero means
/// unset, anything else is taken in the low sixteen bits, as the wire
/// format defines them.
pub fn mssfix_from_wire(value: u32) -> (r: Option<u16>)
    ensures
        r == if value == 0 {
            None::<u16>
        } else {
            Some((value % 0x10000) as u16)
        },
{
    if value != 0 {
        Some((value % 0x10000) as u16)
    } else {
        None
    }
}

/// Reads the wire encoding of an optional MTU: zero means unset.
pub fn mtu_from_wire(value: u32) -> (r: Option<u16>)
    ensures
        r == if value == 0 {
            None::<u16>
        } else {
            Some((value % 0x10000) as u16)
        },
{
    if value != 0 {
        Some((value % 0x10000) as u16)
    } else {
        None
    }
}

/// Reads the wire encoding of an optional key rotation interval in
/// hours: zero means unset.
pub fn rotation_interval_from_wire(value: u32) -> (r: Option<u32>)
    ensures
        r == if value == 0 {
            None::<u32>
        } else {
            Some(value)
        },
{
    if value != 0 {
        Some(value)
    } else {
        None
    }
}

/// Reads the wire encoding of an account token: the empty string means
/// no account.
pub fn account_token_from_wire(token: String) -> (r: Option<String>)
    ensures
        match r {
            Some(t) => token@.len() > 0 && t == token,
            None => token@.len() == 0,
        },
{
    if token.as_str().is_empty() {
        None
    } else {
        Some(token)
    }
}

} // verus!
