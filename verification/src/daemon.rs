//! The daemon: owns the tunnel state machine, the settings and the event
//! broadcaster, and answers every command of the management interface.
//! All outside work — firewall calls, server round trips — is injected as
//! plain outcome values, so every decision in here is checked.

use vstd::prelude::*;

use crate::account::{VoucherError, VoucherSubmission};
use crate::broadcaster::{DaemonEvent, EventBroadcaster};
use crate::command_channel::{ApiError, DaemonCommand, DaemonResponse, NoAccountConfigured, SlotState};
use crate::relay_constraints::{
    BridgeSettings, BridgeState, RelaySettingsUpdate, ValidationError,
    spec_bridge_settings_valid, validate_bridge_settings,
};
use crate::relay_list::RelayList;
use crate::settings::{Settings, TunnelOptions};
use crate::states::{TargetState, TunnelState, TunnelStateView};
use crate::tunnel_state_machine::{
    Effects, EffectsView, PolicyOutcomes, TunnelCommand, TunnelStateMachine,
};
use crate::version::AppVersionInfo;
use crate::wireguard::{KeygenEvent, PublicKey};

verus! {

/// Everything the world may have answered while one command was being
/// handled: the firewall outcomes, and the server's reply where the
/// command asks the server something.
pub struct CommandOutcomes {
    pub policy: PolicyOutcomes,
    pub keygen: KeygenEvent,
    pub key_is_valid: bool,
    pub new_account: Result<String, ApiError>,
    pub voucher: Result<VoucherSubmission, VoucherError>,
}

/// The daemon state: the single-writer home of the tunnel state machine,
/// the settings, and the broadcaster.
pub struct Daemon {
    pub tunnel_state_machine: TunnelStateMachine,
    pub settings: Settings,
    pub broadcaster: EventBroadcaster,
    pub account_history: Vec<String>,
    pub wireguard_key: Option<PublicKey>,
    pub shutdown_requested: bool,
}

/// How one tunnel transition shows up in the published history: nothing,
/// or exactly one tunnel-state event carrying the published state.
pub open spec fn published_tunnel_event(
    pre: Seq<DaemonEvent>,
    post: Seq<DaemonEvent>,
    published: Option<TunnelStateView>,
) -> bool {
    match published {
        None => post == pre,
        Some(state_view) => {
            &&& post.len() == pre.len() + 1
            &&& post.subrange(0, pre.len() as int) == pre
            &&& match post.last() {
                DaemonEvent::TunnelState(s) => s@ == state_view,
                _ => false,
            }
        },
    }
}

/// What every daemon step leaves alone in the broadcaster: who is
/// subscribed and from when.
pub open spec fn same_subscribers(pre: EventBroadcaster, post: EventBroadcaster) -> bool {
    &&& post.subscriber_ids@ == pre.subscriber_ids@
    &&& post.next_id == pre.next_id
    &&& post.since@ == pre.since@
}

/// Whether the account history already holds this token.
pub open spec fn spec_history_contains(history: Seq<String>, token: Seq<char>) -> bool {
    exists|i: int| 0 <= i < history.len() && (#[trigger] history[i])@ == token
}

/// The history after recording a token: appended once, never repeated.
pub open spec fn spec_history_recorded(
    pre: Seq<String>,
    post: Seq<String>,
    token: String,
) -> bool {
    post == if spec_history_contains(pre, token@) {
        pre
    } else {
        pre.push(token)
    }
}

/// The history after forgetting a token: its first occurrence is taken
/// out; a token that was not there leaves the history as it was.
pub open spec fn spec_history_removed(
    pre: Seq<String>,
    post: Seq<String>,
    token: Seq<char>,
) -> bool {
    if spec_history_contains(pre, token) {
        exists|k: int|
            0 <= k < pre.len() && (#[trigger] pre[k])@ == token && (forall|j: int|
                0 <= j < k ==> (#[trigger] pre[j])@ != token) && post == pre.remove(k)
    } else {
        post == pre
    }
}

/// What answering one command means: how the daemon afterwards relates
/// to the daemon before, given the command and the injected outside
/// outcomes, and which response and effects come back.
/// [`Daemon::handle_command`] returns a pair satisfying this relation,
/// and [`process_next`] fulfils the command's slot with a response
/// satisfying it. Configuration commands never touch the tunnel state,
/// and every tunnel-state event published during the step carries the
/// state the machine is in when the step is over.
pub open spec fn spec_command_handled(
    pre: Daemon,
    post: Daemon,
    cmd: DaemonCommand,
    outcomes: CommandOutcomes,
    response: DaemonResponse,
    effects: EffectsView,
) -> bool {
    &&& same_subscribers(pre.broadcaster, post.broadcaster)
    &&& pre.broadcaster.published@.is_prefix_of(post.broadcaster.published@)
    &&& forall|k: int|
        pre.broadcaster.published@.len() <= k < post.broadcaster.published@.len() ==> (
        match #[trigger] post.broadcaster.published@[k] {
            DaemonEvent::TunnelState(s) => s@ == post.tunnel_state_machine@.state,
            _ => true,
        })
    &&& match cmd {
        DaemonCommand::SetTargetState(t) => {
            let refused = pre.settings.account_token is None && t == TargetState::Secured;
            if refused {
                &&& response == DaemonResponse::TargetState(
                    Err::<(), NoAccountConfigured>(NoAccountConfigured),
                )
                &&& post == pre
                &&& effects == EffectsView::none()
            } else {
                &&& response == DaemonResponse::TargetState(Ok::<(), NoAccountConfigured>(()))
                &&& (post.tunnel_state_machine@, effects)
                    == pre.tunnel_state_machine@.step(
                    crate::tunnel_state_machine::TunnelCommandView::SetTargetState(t),
                    outcomes.policy,
                )
                &&& post.settings == pre.settings
                &&& post.account_history@ == pre.account_history@
                &&& post.wireguard_key == pre.wireguard_key
                &&& post.shutdown_requested == pre.shutdown_requested
            }
        },
        DaemonCommand::Reconnect => {
            &&& response == DaemonResponse::Unit
            &&& (post.tunnel_state_machine@, effects) == pre.tunnel_state_machine@.step(
                crate::tunnel_state_machine::TunnelCommandView::Reconnect,
                outcomes.policy,
            )
            &&& post.settings == pre.settings
            &&& post.account_history@ == pre.account_history@
            &&& post.wireguard_key == pre.wireguard_key
            &&& post.shutdown_requested == pre.shutdown_requested
        },
        DaemonCommand::GetState => response == DaemonResponse::State(
            post.tunnel_state_machine.state,
        ) && post == pre && effects == EffectsView::none(),
        DaemonCommand::GetSettings => response == DaemonResponse::Settings(post.settings)
            && post == pre && effects == EffectsView::none(),
        DaemonCommand::SetAccount(token) => {
            &&& response == DaemonResponse::Unit
            &&& post.settings == (Settings { account_token: token, ..pre.settings })
            &&& post.tunnel_state_machine == pre.tunnel_state_machine
            &&& match token {
                Some(t) => spec_history_recorded(
                    pre.account_history@,
                    post.account_history@,
                    t,
                ),
                None => post.account_history@ == pre.account_history@,
            }
            &&& effects == EffectsView::none()
        },
        DaemonCommand::UpdateRelaySettings(update) => response == DaemonResponse::Unit
            && post.settings == (Settings {
            relay_settings: pre.settings.relay_settings.spec_updated(update),
            ..pre.settings
        }) && post.tunnel_state_machine == pre.tunnel_state_machine && effects
            == EffectsView::none(),
        DaemonCommand::SetBridgeSettings(bridge_settings) => response
            == DaemonResponse::Validation(spec_bridge_settings_valid(bridge_settings))
            && post.tunnel_state_machine == pre.tunnel_state_machine && (
        match spec_bridge_settings_valid(bridge_settings) {
            Ok(()) => post.settings == (Settings { bridge_settings, ..pre.settings }),
            Err(_) => post.settings == pre.settings,
        }) && effects == EffectsView::none(),
        DaemonCommand::SetBridgeState(bridge_state) => response == DaemonResponse::Validation(
            Ok::<(), ValidationError>(()),
        ) && post.settings == (Settings { bridge_state, ..pre.settings })
            && post.tunnel_state_machine == pre.tunnel_state_machine && effects
            == EffectsView::none(),
        DaemonCommand::SetAllowLan(allow_lan) => response == DaemonResponse::Unit
            && post.settings == (Settings { allow_lan, ..pre.settings })
            && post.tunnel_state_machine == pre.tunnel_state_machine && effects
            == EffectsView::none(),
        DaemonCommand::SetBlockWhenDisconnected(block) => response == DaemonResponse::Unit
            && post.settings == (Settings {
            block_when_disconnected: block,
            ..pre.settings
        }) && post.tunnel_state_machine@ == (
        crate::tunnel_state_machine::TunnelStateMachineView {
            block_when_disconnected: block,
            ..pre.tunnel_state_machine@
        }) && effects == EffectsView::none(),
        DaemonCommand::SetAutoConnect(auto_connect) => response == DaemonResponse::Unit
            && post.settings == (Settings { auto_connect, ..pre.settings })
            && post.tunnel_state_machine == pre.tunnel_state_machine && effects
            == EffectsView::none(),
        DaemonCommand::SetShowBetaReleases(show) => response == DaemonResponse::Unit
            && post.settings == (Settings { show_beta_releases: show, ..pre.settings })
            && post.tunnel_state_machine == pre.tunnel_state_machine && effects
            == EffectsView::none(),
        DaemonCommand::SetEnableIpv6(enable_ipv6) => response == DaemonResponse::Unit
            && post.settings == (Settings {
            tunnel_options: TunnelOptions { enable_ipv6, ..pre.settings.tunnel_options },
            ..pre.settings
        }) && post.tunnel_state_machine == pre.tunnel_state_machine && effects
            == EffectsView::none(),
        DaemonCommand::SetOpenVpnMssfix(mssfix) => response == DaemonResponse::Unit
            && post.settings == (Settings {
            tunnel_options: TunnelOptions {
                openvpn_mssfix: mssfix,
                ..pre.settings.tunnel_options
            },
            ..pre.settings
        }) && post.tunnel_state_machine == pre.tunnel_state_machine && effects
            == EffectsView::none(),
        DaemonCommand::SetWireguardMtu(mtu) => response == DaemonResponse::Unit
            && post.settings == (Settings {
            tunnel_options: TunnelOptions {
                wireguard_mtu: mtu,
                ..pre.settings.tunnel_options
            },
            ..pre.settings
        }) && post.tunnel_state_machine == pre.tunnel_state_machine && effects
            == EffectsView::none(),
        DaemonCommand::SetWireguardRotationInterval(interval) => response
            == DaemonResponse::Unit && post.settings == (Settings {
            tunnel_options: TunnelOptions {
                wireguard_rotation_interval: interval,
                ..pre.settings.tunnel_options
            },
            ..pre.settings
        }) && post.tunnel_state_machine == pre.tunnel_state_machine && effects
            == EffectsView::none(),
        DaemonCommand::GenerateWireguardKey => response == DaemonResponse::Keygen(
            outcomes.keygen,
        ) && post.settings == pre.settings && post.tunnel_state_machine
            == pre.tunnel_state_machine && (match outcomes.keygen {
            KeygenEvent::NewKey(k) => match post.wireguard_key {
                Some(held) => held.key@ == k.key@ && held.created_unix == k.created_unix,
                None => false,
            },
            _ => post.wireguard_key == pre.wireguard_key,
        }) && effects == EffectsView::none(),
        DaemonCommand::GetWireguardKey => post == pre && (match response {
            DaemonResponse::WireguardKey(key) => match (key, pre.wireguard_key) {
                (Some(a), Some(b)) => a.key@ == b.key@ && a.created_unix == b.created_unix,
                (None, None) => true,
                _ => false,
            },
            _ => false,
        }) && effects == EffectsView::none(),
        DaemonCommand::VerifyWireguardKey => response == DaemonResponse::KeyValid(
            outcomes.key_is_valid,
        ) && post == pre && effects == EffectsView::none(),
        DaemonCommand::CreateNewAccount => response == DaemonResponse::NewAccount(
            outcomes.new_account,
        ) && post.tunnel_state_machine == pre.tunnel_state_machine && (
        match outcomes.new_account {
            Ok(token) => post.settings == (Settings {
                account_token: Some(token),
                ..pre.settings
            }) && spec_history_recorded(pre.account_history@, post.account_history@, token),
            Err(_) => post.settings == pre.settings && post.account_history@
                == pre.account_history@,
        }) && effects == EffectsView::none(),
        DaemonCommand::SubmitVoucher(_) => response == DaemonResponse::Voucher(
            outcomes.voucher,
        ) && post == pre && effects == EffectsView::none(),
        DaemonCommand::ClearAccountHistory => response == DaemonResponse::Unit
            && post.account_history@.len() == 0 && post.settings == pre.settings
            && post.tunnel_state_machine == pre.tunnel_state_machine && effects
            == EffectsView::none(),
        DaemonCommand::GetAccountHistory => post == pre && (match response {
            DaemonResponse::AccountHistory(history) => history@ == pre.account_history@,
            _ => false,
        }) && effects == EffectsView::none(),
        DaemonCommand::RemoveAccountFromHistory(token) => {
            &&& response == DaemonResponse::Unit
            &&& post.settings == pre.settings
            &&& post.tunnel_state_machine == pre.tunnel_state_machine
            &&& post.broadcaster == pre.broadcaster
            &&& post.wireguard_key == pre.wireguard_key
            &&& post.shutdown_requested == pre.shutdown_requested
            &&& spec_history_removed(pre.account_history@, post.account_history@, token@)
            &&& effects == EffectsView::none()
        },
        DaemonCommand::Shutdown => response == DaemonResponse::Unit && post.shutdown_requested
            && post.settings == pre.settings && post.tunnel_state_machine
            == pre.tunnel_state_machine && effects == EffectsView::none(),
        DaemonCommand::PrepareRestart => response == DaemonResponse::Unit
            && post.shutdown_requested && post.settings == pre.settings
            && post.tunnel_state_machine == pre.tunnel_state_machine && effects
            == EffectsView::none(),
    }
}

impl Daemon {
    /// The broadcaster's books are in shape and the machine's enforcer
    /// never contradicts itself.
    pub open spec fn wf(self) -> bool {
        &&& self.broadcaster.wf()
        &&& self.tunnel_state_machine@.wf()
    }

    /// A daemon as it starts: disconnected, default settings, no
    /// subscribers, no history.
    pub fn new() -> (r: Daemon)
        ensures
            r.wf(),
            r.tunnel_state_machine@.state == TunnelStateView::Disconnected,
            r.tunnel_state_machine@.target == TargetState::Unsecured,
            r.settings.account_token is None,
            r.broadcaster.published@.len() == 0,
            r.account_history@.len() == 0,
            r.wireguard_key is None,
            !r.shutdown_requested,
    {
        let settings = Settings::default();
        Daemon {
            tunnel_state_machine: TunnelStateMachine::new(settings.block_when_disconnected),
            settings,
            broadcaster: EventBroadcaster::new(),
            account_history: Vec::new(),
            wireguard_key: None,
            shutdown_requested: false,
        }
    }

    /// The current tunnel state, as a subscriber would see it.
    pub fn get_state(&self) -> (r: TunnelState)
        ensures
            r == self.tunnel_state_machine.state,
    {
        self.tunnel_state_machine.state.clone()
    }

    /// Feeds one command or event into the state machine and publishes
    /// the transition, if there was one. Everything but the machine and
    /// the published history stays as it was.
    pub fn step_tunnel(&mut self, cmd: TunnelCommand, out: PolicyOutcomes) -> (e: Effects)
        requires
            old(self).wf(),
        ensures
            final(self).wf(),
            (final(self).tunnel_state_machine@, e@) == old(self).tunnel_state_machine@.step(
                cmd@,
                out,
            ),
            final(self).settings == old(self).settings,
            final(self).account_history@ == old(self).account_history@,
            final(self).wireguard_key == old(self).wireguard_key,
            final(self).shutdown_requested == old(self).shutdown_requested,
            same_subscribers(old(self).broadcaster, final(self).broadcaster),
            published_tunnel_event(
                old(self).broadcaster.published@,
                final(self).broadcaster.published@,
                e@.published,
            ),
    {
        proof {
            crate::tunnel_state_machine::lemma_step_preserves_wf(
                old(self).tunnel_state_machine@,
                cmd@,
                out,
            );
        }
        let effects = self.tunnel_state_machine.handle_event(cmd, out);
        match &effects.published {
            Some(state) => {
                self.broadcaster.notify_new_state(state.clone());
                proof {
                    assert(final(self).broadcaster.published@.subrange(
                        0,
                        old(self).broadcaster.published@.len() as int,
                    ) =~= old(self).broadcaster.published@);
                }
            },
            None => {},
        }
        effects
    }

    /// Drives the tunnel toward the given target. Without an account
    /// configured, a secured target is refused and nothing happens;
    /// otherwise the machine transitions exactly as its table says.
    pub fn set_target_state(&mut self, target: TargetState, out: PolicyOutcomes) -> (r: (
        Result<(), NoAccountConfigured>,
        Effects,
    ))
        requires
            old(self).wf(),
        ensures
            final(self).wf(),
            final(self).settings == old(self).settings,
            final(self).account_history@ == old(self).account_history@,
            final(self).wireguard_key == old(self).wireguard_key,
            final(self).shutdown_requested == old(self).shutdown_requested,
            ({
                let refused = old(self).settings.account_token is None && target
                    == TargetState::Secured;
                if refused {
                    &&& r.0 == Err::<(), NoAccountConfigured>(NoAccountConfigured)
                    &&& r.1@ == EffectsView::none()
                    &&& *final(self) == *old(self)
                } else {
                    &&& r.0 == Ok::<(), NoAccountConfigured>(())
                    &&& (final(self).tunnel_state_machine@, r.1@) == old(self).tunnel_state_machine@.step(
                        crate::tunnel_state_machine::TunnelCommandView::SetTargetState(target),
                        out,
                    )
                    &&& same_subscribers(old(self).broadcaster, final(self).broadcaster)
                    &&& published_tunnel_event(
                        old(self).broadcaster.published@,
                        final(self).broadcaster.published@,
                        r.1@.published,
                    )
                }
            }),
    {
        let has_account = match &self.settings.account_token {
            Some(_) => true,
            None => false,
        };
        if !has_account && matches!(target, TargetState::Secured) {
            (Err(NoAccountConfigured), Effects::none())
        } else {
            let effects = self.step_tunnel(TunnelCommand::SetTargetState(target), out);
            (Ok(()), effects)
        }
    }

    /// Tears the tunnel down and reconnects, without changing the target.
    pub fn reconnect(&mut self, out: PolicyOutcomes) -> (e: Effects)
        requires
            old(self).wf(),
        ensures
            final(self).wf(),
            final(self).settings == old(self).settings,
            final(self).account_history@ == old(self).account_history@,
            final(self).wireguard_key == old(self).wireguard_key,
            final(self).shutdown_requested == old(self).shutdown_requested,
            (final(self).tunnel_state_machine@, e@) == old(self).tunnel_state_machine@.step(
                crate::tunnel_state_machine::TunnelCommandView::Reconnect,
                out,
            ),
            same_subscribers(old(self).broadcaster, final(self).broadcaster),
            published_tunnel_event(
                old(self).broadcaster.published@,
                final(self).broadcaster.published@,
                e@.published,
            ),
    {
        self.step_tunnel(TunnelCommand::Reconnect, out)
    }

    /// Publishes the current settings to all subscribers. Every settings
    /// change goes through here, so subscribers always learn the value
    /// the daemon now holds.
    fn publish_settings(&mut self)
        requires
            old(self).wf(),
        ensures
            final(self).wf(),
            final(self).tunnel_state_machine == old(self).tunnel_state_machine,
            final(self).settings == old(self).settings,
            final(self).account_history@ == old(self).account_history@,
            final(self).wireguard_key == old(self).wireguard_key,
            final(self).shutdown_requested == old(self).shutdown_requested,
            same_subscribers(old(self).broadcaster, final(self).broadcaster),
            final(self).broadcaster.published@ == old(self).broadcaster.published@.push(
                DaemonEvent::Settings(old(self).settings),
            ),
    {
        let settings = self.settings.clone();
        self.broadcaster.notify_settings(settings);
    }

    /// Whether an account token stands in the history of accounts used.
    fn history_contains(&self, token: &str) -> (r: bool)
        ensures
            r == spec_history_contains(self.account_history@, token@),
    {
        let mut i: usize = 0;
        while i < self.account_history.len()
            invariant
                i <= self.account_history@.len(),
                forall|k: int| 0 <= k < i ==> (#[trigger] self.account_history@[k])@ != token@,
            decreases self.account_history@.len() - i,
        {
            if self.account_history[i].as_str().eq(token) {
                proof {
                    assert(self.account_history@[i as int]@ == token@);
                }
                return true;
            }
            i = i + 1;
        }
        proof {
            if spec_history_contains(self.account_history@, token@) {
                let k = choose|k: int|
                    0 <= k < self.account_history@.len() && (#[trigger] self.account_history@[
                        k
                    ])@ == token@;
                assert(self.account_history@[k]@ != token@);
            }
        }
        false
    }

    /// Records an account in the history of accounts previously used; a
    /// token already there is not repeated.
    fn record_account_history(&mut self, account_token: &String)
        ensures
            final(self).settings == old(self).settings,
            final(self).tunnel_state_machine == old(self).tunnel_state_machine,
            final(self).broadcaster == old(self).broadcaster,
            final(self).wireguard_key == old(self).wireguard_key,
            final(self).shutdown_requested == old(self).shutdown_requested,
            spec_history_recorded(
                old(self).account_history@,
                final(self).account_history@,
                *account_token,
            ),
    {
        if !self.history_contains(account_token.as_str()) {
            self.account_history.push(account_token.clone());
        }
    }

    /// Configures the account token, or removes it. A new token joins the
    /// account history; the tunnel is not touched; subscribers are told
    /// the new settings.
    pub fn set_account(&mut self, account_token: Option<String>)
        requires
            old(self).wf(),
        ensures
            final(self).wf(),
            final(self).settings == (Settings {
                account_token,
                ..old(self).settings
            }),
            final(self).tunnel_state_machine == old(self).tunnel_state_machine,
            same_subscribers(old(self).broadcaster, final(self).broadcaster),
            final(self).broadcaster.published@ == old(self).broadcaster.published@.push(
                DaemonEvent::Settings(final(self).settings),
            ),
            match account_token {
                Some(token) => spec_history_recorded(
                    old(self).account_history@,
                    final(self).account_history@,
                    token,
                ),
                None => final(self).account_history@ == old(self).account_history@,
            },
            final(self).wireguard_key == old(self).wireguard_key,
            final(self).shutdown_requested == old(self).shutdown_requested,
    {
        match &account_token {
            Some(token) => self.record_account_history(token),
            None => {},
        }
        self.settings.account_token = account_token;
        self.publish_settings();
    }

    /// Forgets one account: takes the token's first occurrence out of the
    /// history; reports whether it was there. Nothing else changes.
    #[verifier::loop_isolation(false)]
    pub fn remove_account_from_history(&mut self, account_token: &str) -> (removed: bool)
        requires
            old(self).wf(),
        ensures
            final(self).wf(),
            final(self).settings == old(self).settings,
            final(self).tunnel_state_machine == old(self).tunnel_state_machine,
            final(self).broadcaster == old(self).broadcaster,
            final(self).wireguard_key == old(self).wireguard_key,
            final(self).shutdown_requested == old(self).shutdown_requested,
            removed == spec_history_contains(old(self).account_history@, account_token@),
            spec_history_removed(
                old(self).account_history@,
                final(self).account_history@,
                account_token@,
            ),
    {
        let ghost old_history = self.account_history@;
        let mut i: usize = 0;
        while i < self.account_history.len()
            invariant
                i <= self.account_history@.len(),
                self.account_history@ == old_history,
                self.settings == old(self).settings,
                self.tunnel_state_machine == old(self).tunnel_state_machine,
                self.broadcaster == old(self).broadcaster,
                self.wireguard_key == old(self).wireguard_key,
                self.shutdown_requested == old(self).shutdown_requested,
                forall|k: int| 0 <= k < i ==> (#[trigger] old_history[k])@ != account_token@,
            decreases self.account_history@.len() - i,
        {
            if self.account_history[i].as_str().eq(account_token) {
                self.account_history.remove(i);
                proof {
                    assert(old_history[i as int]@ == account_token@);
                    assert(spec_history_contains(old_history, account_token@));
                    assert(self.account_history@ =~= old_history.remove(i as int));
                }
                return true;
            }
            i = i + 1;
        }
        proof {
            if spec_history_contains(old_history, account_token@) {
                let k = choose|k: int|
                    0 <= k < old_history.len() && (#[trigger] old_history[k])@
                        == account_token@;
                assert(old_history[k]@ != account_token@);
            }
        }
        false
    }

    /// Applies a partial update of the relay constraints and tells the
    /// subscribers.
    pub fn update_relay_settings(&mut self, update: RelaySettingsUpdate)
        requires
            old(self).wf(),
        ensures
            final(self).wf(),
            final(self).settings == (Settings {
                relay_settings: old(self).settings.relay_settings.spec_updated(update),
                ..old(self).settings
            }),
            final(self).tunnel_state_machine == old(self).tunnel_state_machine,
            same_subscribers(old(self).broadcaster, final(self).broadcaster),
            final(self).broadcaster.published@ == old(self).broadcaster.published@.push(
                DaemonEvent::Settings(final(self).settings),
            ),
    {
        let current = self.settings.relay_settings.clone();
        self.settings.relay_settings = current.updated(update);
        self.publish_settings();
    }

    /// Replaces the bridge configuration if it passes validation; a
    /// rejected configuration changes nothing at all.
    pub fn set_bridge_settings(&mut self, bridge_settings: BridgeSettings) -> (r: Result<
        (),
        ValidationError,
    >)
        requires
            old(self).wf(),
        ensures
            final(self).wf(),
            r == spec_bridge_settings_valid(bridge_settings),
            final(self).tunnel_state_machine == old(self).tunnel_state_machine,
            same_subscribers(old(self).broadcaster, final(self).broadcaster),
            match r {
                Ok(()) => final(self).settings == (Settings {
                    bridge_settings,
                    ..old(self).settings
                }) && final(self).broadcaster.published@ == old(self).broadcaster.published@.push(
                    DaemonEvent::Settings(final(self).settings),
                ),
                Err(_) => final(self).settings == old(self).settings
                    && final(self).broadcaster.published@ == old(self).broadcaster.published@,
            },
    {
        match validate_bridge_settings(&bridge_settings) {
            Ok(()) => {
                self.settings.bridge_settings = bridge_settings;
                self.publish_settings();
                Ok(())
            },
            Err(e) => Err(e),
        }
    }

    /// Switches bridges off, on, or to automatic.
    pub fn set_bridge_state(&mut self, bridge_state: BridgeState) -> (r: Result<
        (),
        ValidationError,
    >)
        requires
            old(self).wf(),
        ensures
            final(self).wf(),
            r == Ok::<(), ValidationError>(()),
            final(self).settings == (Settings { bridge_state, ..old(self).settings }),
            final(self).tunnel_state_machine == old(self).tunnel_state_machine,
            same_subscribers(old(self).broadcaster, final(self).broadcaster),
            final(self).broadcaster.published@ == old(self).broadcaster.published@.push(
                DaemonEvent::Settings(final(self).settings),
            ),
    {
        self.settings.bridge_state = bridge_state;
        self.publish_settings();
        Ok(())
    }

    /// Turns local network sharing on or off.
    pub fn set_allow_lan(&mut self, allow_lan: bool)
        requires
            old(self).wf(),
        ensures
            final(self).wf(),
            final(self).settings == (Settings { allow_lan, ..old(self).settings }),
            final(self).tunnel_state_machine == old(self).tunnel_state_machine,
            same_subscribers(old(self).broadcaster, final(self).broadcaster),
            final(self).broadcaster.published@ == old(self).broadcaster.published@.push(
                DaemonEvent::Settings(final(self).settings),
            ),
    {
        self.settings.allow_lan = allow_lan;
        self.publish_settings();
    }

    /// Decides whether traffic stays blocked while no tunnel is wanted.
    /// The machine uses the new value from its next transition on.
    pub fn set_block_when_disconnected(&mut self, block_when_disconnected: bool)
        requires
            old(self).wf(),
        ensures
            final(self).wf(),
            final(self).settings == (Settings {
                block_when_disconnected,
                ..old(self).settings
            }),
            final(self).tunnel_state_machine@ == (
            crate::tunnel_state_machine::TunnelStateMachineView {
                block_when_disconnected,
                ..old(self).tunnel_state_machine@
            }),
            same_subscribers(old(self).broadcaster, final(self).broadcaster),
            final(self).broadcaster.published@ == old(self).broadcaster.published@.push(
                DaemonEvent::Settings(final(self).settings),
            ),
    {
        self.settings.block_when_disconnected = block_when_disconnected;
        self.tunnel_state_machine.block_when_disconnected = block_when_disconnected;
        self.publish_settings();
    }

    /// Turns connecting at daemon start on or off.
    pub fn set_auto_connect(&mut self, auto_connect: bool)
        requires
            old(self).wf(),
        ensures
            final(self).wf(),
            final(self).settings == (Settings { auto_connect, ..old(self).settings }),
            final(self).tunnel_state_machine == old(self).tunnel_state_machine,
            same_subscribers(old(self).broadcaster, final(self).broadcaster),
            final(self).broadcaster.published@ == old(self).broadcaster.published@.push(
                DaemonEvent::Settings(final(self).settings),
            ),
    {
        self.settings.auto_connect = auto_connect;
        self.publish_settings();
    }

    /// Decides whether beta releases count as upgrades.
    pub fn set_show_beta_releases(&mut self, show_beta_releases: bool)
        requires
            old(self).wf(),
        ensures
            final(self).wf(),
            final(self).settings == (Settings { show_beta_releases, ..old(self).settings }),
            final(self).tunnel_state_machine == old(self).tunnel_state_machine,
            same_subscribers(old(self).broadcaster, final(self).broadcaster),
            final(self).broadcaster.published@ == old(self).broadcaster.published@.push(
                DaemonEvent::Settings(final(self).settings),
            ),
    {
        self.settings.show_beta_releases = show_beta_releases;
        self.publish_settings();
    }

    /// Turns IPv6 in the tunnel on or off.
    pub fn set_enable_ipv6(&mut self, enable_ipv6: bool)
        requires
            old(self).wf(),
        ensures
            final(self).wf(),
            final(self).settings == (Settings {
                tunnel_options: TunnelOptions {
                    enable_ipv6,
                    ..old(self).settings.tunnel_options
                },
                ..old(self).settings
            }),
            final(self).tunnel_state_machine == old(self).tunnel_state_machine,
            same_subscribers(old(self).broadcaster, final(self).broadcaster),
            final(self).broadcaster.published@ == old(self).broadcaster.published@.push(
                DaemonEvent::Settings(final(self).settings),
            ),
    {
        self.settings.tunnel_options.enable_ipv6 = enable_ipv6;
        self.publish_settings();
    }

    /// Sets or clears the OpenVPN mssfix option.
    pub fn set_openvpn_mssfix(&mut self, mssfix: Option<u16>)
        requires
            old(self).wf(),
        ensures
            final(self).wf(),
            final(self).settings == (Settings {
                tunnel_options: TunnelOptions {
                    openvpn_mssfix: mssfix,
                    ..old(self).settings.tunnel_options
                },
                ..old(self).settings
            }),
            final(self).tunnel_state_machine == old(self).tunnel_state_machine,
            same_subscribers(old(self).broadcaster, final(self).broadcaster),
            final(self).broadcaster.published@ == old(self).broadcaster.published@.push(
                DaemonEvent::Settings(final(self).settings),
            ),
    {
        self.settings.tunnel_options.openvpn_mssfix = mssfix;
        self.publish_settings();
    }

    /// Sets or clears the WireGuard tunnel MTU.
    pub fn set_wireguard_mtu(&mut self, mtu: Option<u16>)
        requires
            old(self).wf(),
        ensures
            final(self).wf(),
            final(self).settings == (Settings {
                tunnel_options: TunnelOptions {
                    wireguard_mtu: mtu,
                    ..old(self).settings.tunnel_options
                },
                ..old(self).settings
            }),
            final(self).tunnel_state_machine == old(self).tunnel_state_machine,
            same_subscribers(old(self).broadcaster, final(self).broadcaster),
            final(self).broadcaster.published@ == old(self).broadcaster.published@.push(
                DaemonEvent::Settings(final(self).settings),
            ),
    {
        self.settings.tunnel_options.wireguard_mtu = mtu;
        self.publish_settings();
    }

    /// Sets or clears the automatic key rotation interval, in hours.
    pub fn set_wireguard_rotation_interval(&mut self, interval: Option<u32>)
        requires
            old(self).wf(),
        ensures
            final(self).wf(),
            final(self).settings == (Settings {
                tunnel_options: TunnelOptions {
                    wireguard_rotation_interval: interval,
                    ..old(self).settings.tunnel_options
                },
                ..old(self).settings
            }),
            final(self).tunnel_state_machine == old(self).tunnel_state_machine,
            same_subscribers(old(self).broadcaster, final(self).broadcaster),
            final(self).broadcaster.published@ == old(self).broadcaster.published@.push(
                DaemonEvent::Settings(final(self).settings),
            ),
    {
        self.settings.tunnel_options.wireguard_rotation_interval = interval;
        self.publish_settings();
    }

    /// Records the server's answer to a key generation request: a new
    /// key replaces the held one and every subscriber hears of the
    /// event; a refusal changes nothing but is still broadcast.
    pub fn generate_wireguard_key(&mut self, outcome: KeygenEvent) -> (r: KeygenEvent)
        requires
            old(self).wf(),
        ensures
            final(self).wf(),
            r == outcome,
            final(self).settings == old(self).settings,
            final(self).tunnel_state_machine == old(self).tunnel_state_machine,
            same_subscribers(old(self).broadcaster, final(self).broadcaster),
            match outcome {
                KeygenEvent::NewKey(k) => match final(self).wireguard_key {
                    Some(held) => held.key@ == k.key@ && held.created_unix == k.created_unix,
                    None => false,
                },
                _ => final(self).wireguard_key == old(self).wireguard_key,
            },
            final(self).broadcaster.published@.len() == old(self).broadcaster.published@.len()
                + 1,
            final(self).broadcaster.published@.subrange(
                0,
                old(self).broadcaster.published@.len() as int,
            ) == old(self).broadcaster.published@,
            match final(self).broadcaster.published@.last() {
                DaemonEvent::WireguardKey(ev) => match (ev, outcome) {
                    (KeygenEvent::NewKey(a), KeygenEvent::NewKey(b)) => a.key@ == b.key@
                        && a.created_unix == b.created_unix,
                    (KeygenEvent::TooManyKeys, KeygenEvent::TooManyKeys) => true,
                    (KeygenEvent::GenerationFailure, KeygenEvent::GenerationFailure) => true,
                    _ => false,
                },
                _ => false,
            },
    {
        match &outcome {
            KeygenEvent::NewKey(public_key) => {
                self.wireguard_key = Some(public_key.clone());
            },
            _ => {},
        }
        let event = outcome.clone();
        self.broadcaster.notify_key_event(event);
        proof {
            assert(final(self).broadcaster.published@.subrange(
                0,
                old(self).broadcaster.published@.len() as int,
            ) =~= old(self).broadcaster.published@);
        }
        outcome
    }

    /// The WireGuard key the daemon holds, if any.
    pub fn get_wireguard_key(&self) -> (r: Option<PublicKey>)
        ensures
            match (&r, &self.wireguard_key) {
                (Some(a), Some(b)) => a.key@ == b.key@ && a.created_unix == b.created_unix,
                (None, None) => true,
                _ => false,
            },
    {
        match &self.wireguard_key {
            Some(public_key) => Some(public_key.clone()),
            None => None,
        }
    }

    /// Reports the server's verdict on the held key.
    pub fn verify_wireguard_key(&self, key_is_valid: bool) -> (r: bool)
        ensures
            r == key_is_valid,
    {
        key_is_valid
    }

    /// Records the server's answer to an account creation request: a new
    /// account token becomes the configured account and joins the
    /// history.
    pub fn create_new_account(&mut self, outcome: Result<String, ApiError>) -> (r: Result<
        String,
        ApiError,
    >)
        requires
            old(self).wf(),
        ensures
            final(self).wf(),
            r == outcome,
            final(self).tunnel_state_machine == old(self).tunnel_state_machine,
            same_subscribers(old(self).broadcaster, final(self).broadcaster),
            final(self).wireguard_key == old(self).wireguard_key,
            final(self).shutdown_requested == old(self).shutdown_requested,
            match outcome {
                Ok(token) => final(self).settings == (Settings {
                    account_token: Some(token),
                    ..old(self).settings
                }) && final(self).broadcaster.published@ == old(self).broadcaster.published@.push(
                    DaemonEvent::Settings(final(self).settings),
                ) && spec_history_recorded(
                    old(self).account_history@,
                    final(self).account_history@,
                    token,
                ),
                Err(_) => final(self).settings == old(self).settings
                    && final(self).broadcaster.published@ == old(self).broadcaster.published@
                    && final(self).account_history@ == old(self).account_history@,
            },
    {
        match &outcome {
            Ok(token) => {
                self.record_account_history(token);
                self.settings.account_token = Some(token.clone());
                self.publish_settings();
            },
            Err(_) => {},
        }
        outcome
    }

    /// Hands the server's answer to a voucher submission back to the
    /// caller. Vouchers never change the daemon's own state.
    pub fn submit_voucher(&mut self, outcome: Result<VoucherSubmission, VoucherError>) -> (r:
        Result<VoucherSubmission, VoucherError>)
        requires
            old(self).wf(),
        ensures
            final(self).wf(),
            r == outcome,
            *final(self) == *old(self),
    {
        outcome
    }

    /// Forgets every account previously used.
    pub fn clear_account_history(&mut self)
        requires
            old(self).wf(),
        ensures
            final(self).wf(),
            final(self).account_history@.len() == 0,
            final(self).settings == old(self).settings,
            final(self).tunnel_state_machine == old(self).tunnel_state_machine,
            same_subscribers(old(self).broadcaster, final(self).broadcaster),
            final(self).broadcaster.published@ == old(self).broadcaster.published@,
    {
        self.account_history = Vec::new();
    }

    /// The accounts previously used, oldest first.
    pub fn get_account_history(&self) -> (r: Vec<String>)
        ensures
            r@ == self.account_history@,
    {
        let mut out: Vec<String> = Vec::new();
        let mut i: usize = 0;
        while i < self.account_history.len()
            invariant
                i <= self.account_history@.len(),
                out@ == self.account_history@.subrange(0, i as int),
            decreases self.account_history@.len() - i,
        {
            out.push(self.account_history[i].clone());
            proof {
                assert(out@ =~= self.account_history@.subrange(0, i + 1));
            }
            i = i + 1;
        }
        proof {
            assert(self.account_history@.subrange(0, self.account_history@.len() as int)
                =~= self.account_history@);
        }
        out
    }

    /// Stops the daemon.
    pub fn shutdown(&mut self)
        requires
            old(self).wf(),
        ensures
            final(self).wf(),
            final(self).shutdown_requested,
            final(self).settings == old(self).settings,
            final(self).tunnel_state_machine == old(self).tunnel_state_machine,
            same_subscribers(old(self).broadcaster, final(self).broadcaster),
            final(self).broadcaster.published@ == old(self).broadcaster.published@,
    {
        self.shutdown_requested = true;
    }

    /// Stops the daemon so the system can restart it.
    pub fn prepare_restart(&mut self)
        requires
            old(self).wf(),
        ensures
            final(self).wf(),
            final(self).shutdown_requested,
            final(self).settings == old(self).settings,
            final(self).tunnel_state_machine == old(self).tunnel_state_machine,
            same_subscribers(old(self).broadcaster, final(self).broadcaster),
            final(self).broadcaster.published@ == old(self).broadcaster.published@,
    {
        self.shutdown_requested = true;
    }

    /// The current settings, as a caller receives them.
    pub fn get_settings(&self) -> (r: Settings)
        ensures
            r == self.settings,
    {
        self.settings.clone()
    }

    /// Publishes a new relay list to every subscriber.
    pub fn notify_relay_list(&mut self, relay_list: RelayList)
        requires
            old(self).wf(),
        ensures
            final(self).wf(),
            final(self).settings == old(self).settings,
            final(self).tunnel_state_machine == old(self).tunnel_state_machine,
            same_subscribers(old(self).broadcaster, final(self).broadcaster),
            final(self).broadcaster.published@ == old(self).broadcaster.published@.push(
                DaemonEvent::RelayList(relay_list),
            ),
    {
        self.broadcaster.notify_relay_list(relay_list);
    }

    /// Publishes new app version information to every subscriber.
    pub fn notify_app_version(&mut self, app_version_info: AppVersionInfo)
        requires
            old(self).wf(),
        ensures
            final(self).wf(),
            final(self).settings == old(self).settings,
            final(self).tunnel_state_machine == old(self).tunnel_state_machine,
            same_subscribers(old(self).broadcaster, final(self).broadcaster),
            final(self).broadcaster.published@ == old(self).broadcaster.published@.push(
                DaemonEvent::AppVersionInfo(app_version_info),
            ),
    {
        self.broadcaster.notify_app_version(app_version_info);
    }

    /// Answers one command from the channel: the response is what the
    /// matching handler returns, the effects are what the runtime must
    /// perform, and together with the daemon before and after they
    /// satisfy [`spec_command_handled`].
    #[verifier::rlimit(100)]
    #[verifier::spinoff_prover]
    pub fn handle_command(&mut self, cmd: DaemonCommand, outcomes: CommandOutcomes) -> (r: (
        DaemonResponse,
        Effects,
    ))
        requires
            old(self).wf(),
        ensures
            final(self).wf(),
            spec_command_handled(*old(self), *final(self), cmd, outcomes, r.0, r.1@),
    {
        match cmd {
            DaemonCommand::SetTargetState(target) => {
                proof {
                    crate::tunnel_state_machine::lemma_published_state_is_current(
                        old(self).tunnel_state_machine@,
                        crate::tunnel_state_machine::TunnelCommandView::SetTargetState(target),
                        outcomes.policy,
                    );
                }
                let (result, effects) = self.set_target_state(target, outcomes.policy);
                (DaemonResponse::TargetState(result), effects)
            },
            DaemonCommand::Reconnect => {
                proof {
                    crate::tunnel_state_machine::lemma_published_state_is_current(
                        old(self).tunnel_state_machine@,
                        crate::tunnel_state_machine::TunnelCommandView::Reconnect,
                        outcomes.policy,
                    );
                }
                let effects = self.reconnect(outcomes.policy);
                (DaemonResponse::Unit, effects)
            },
            DaemonCommand::GetState => (DaemonResponse::State(self.get_state()), Effects::none()),
            DaemonCommand::GetSettings => (
                DaemonResponse::Settings(self.get_settings()),
                Effects::none(),
            ),
            DaemonCommand::SetAccount(token) => {
                self.set_account(token);
                (DaemonResponse::Unit, Effects::none())
            },
            DaemonCommand::UpdateRelaySettings(update) => {
                self.update_relay_settings(update);
                (DaemonResponse::Unit, Effects::none())
            },
            DaemonCommand::SetBridgeSettings(bridge_settings) => {
                let result = self.set_bridge_settings(bridge_settings);
                (DaemonResponse::Validation(result), Effects::none())
            },
            DaemonCommand::SetBridgeState(bridge_state) => {
                let result = self.set_bridge_state(bridge_state);
                (DaemonResponse::Validation(result), Effects::none())
            },
            DaemonCommand::SetAllowLan(allow_lan) => {
                self.set_allow_lan(allow_lan);
                (DaemonResponse::Unit, Effects::none())
            },
            DaemonCommand::SetBlockWhenDisconnected(block) => {
                self.set_block_when_disconnected(block);
                (DaemonResponse::Unit, Effects::none())
            },
            DaemonCommand::SetAutoConnect(auto_connect) => {
                self.set_auto_connect(auto_connect);
                (DaemonResponse::Unit, Effects::none())
            },
            DaemonCommand::SetShowBetaReleases(show) => {
                self.set_show_beta_releases(show);
                (DaemonResponse::Unit, Effects::none())
            },
            DaemonCommand::SetEnableIpv6(enable_ipv6) => {
                self.set_enable_ipv6(enable_ipv6);
                (DaemonResponse::Unit, Effects::none())
            },
            DaemonCommand::SetOpenVpnMssfix(mssfix) => {
                self.set_openvpn_mssfix(mssfix);
                (DaemonResponse::Unit, Effects::none())
            },
            DaemonCommand::SetWireguardMtu(mtu) => {
                self.set_wireguard_mtu(mtu);
                (DaemonResponse::Unit, Effects::none())
            },
            DaemonCommand::SetWireguardRotationInterval(interval) => {
                self.set_wireguard_rotation_interval(interval);
                (DaemonResponse::Unit, Effects::none())
            },
            DaemonCommand::GenerateWireguardKey => {
                let event = self.generate_wireguard_key(outcomes.keygen);
                (DaemonResponse::Keygen(event), Effects::none())
            },
            DaemonCommand::GetWireguardKey => (
                DaemonResponse::WireguardKey(self.get_wireguard_key()),
                Effects::none(),
            ),
            DaemonCommand::VerifyWireguardKey => (
                DaemonResponse::KeyValid(self.verify_wireguard_key(outcomes.key_is_valid)),
                Effects::none(),
            ),
            DaemonCommand::CreateNewAccount => {
                let result = self.create_new_account(outcomes.new_account);
                (DaemonResponse::NewAccount(result), Effects::none())
            },
            DaemonCommand::SubmitVoucher(_) => {
                let result = self.submit_voucher(outcomes.voucher);
                (DaemonResponse::Voucher(result), Effects::none())
            },
            DaemonCommand::ClearAccountHistory => {
                self.clear_account_history();
                (DaemonResponse::Unit, Effects::none())
            },
            DaemonCommand::GetAccountHistory => (
                DaemonResponse::AccountHistory(self.get_account_history()),
                Effects::none(),
            ),
            DaemonCommand::RemoveAccountFromHistory(token) => {
                self.remove_account_from_history(token.as_str());
                (DaemonResponse::Unit, Effects::none())
            },
            DaemonCommand::Shutdown => {
                self.shutdown();
                (DaemonResponse::Unit, Effects::none())
            },
            DaemonCommand::PrepareRestart => {
                self.prepare_restart();
                (DaemonResponse::Unit, Effects::none())
            },
        }
    }
}


/// One turn of the state-machine task, the only consumer of the channel:
/// take the oldest queued command, answer it, and fulfil its response
/// slot. An empty queue is reported as `None`. When a command is taken,
/// the daemon transitions and answers exactly as [`spec_command_handled`]
/// says for that command, the returned effects are that relation's
/// effects, and the command's own slot — never refused: a queued command
/// always holds a pending slot — is fulfilled with that relation's
/// response. So no command is dropped, no response is lost, and a caller
/// awaiting the slot gets the outcome of its own command.
pub fn process_next(
    channel: &mut crate::command_channel::DaemonCommandChannel,
    daemon: &mut Daemon,
    outcomes: CommandOutcomes,
) -> (r: Option<Effects>)
    requires
        old(channel).wf(),
        old(daemon).wf(),
    ensures
        final(channel).wf(),
        final(daemon).wf(),
        final(channel).queue@ == if old(channel).queue@.len() > 0 {
            old(channel).queue@.skip(1)
        } else {
            old(channel).queue@
        },
        match r {
            Some(effects) => old(channel).queue@.len() > 0 && exists|response: DaemonResponse|
                {
                    &&& #[trigger] spec_command_handled(
                        *old(daemon),
                        *final(daemon),
                        old(channel).queue@[0].command,
                        outcomes,
                        response,
                        effects@,
                    )
                    &&& final(channel).slots@ == old(channel).slots@.update(
                        old(channel).queue@[0].slot as int,
                        SlotState::Fulfilled(response),
                    )
                },
            None => old(channel).queue@.len() == 0 && *final(daemon) == *old(daemon) && final(channel).slots@ == old(channel).slots@,
        },
{
    match channel.recv() {
        Some(queued) => {
            let ghost taken_command = queued.command;
            let slot = queued.slot;
            let (response, effects) = daemon.handle_command(queued.command, outcomes);
            let ghost sent_response = response;
            proof {
                assert(!channel.queue_holds_slot(slot as int)) by {
                    if channel.queue_holds_slot(slot as int) {
                        let i = choose|i: int|
                            0 <= i < channel.queue@.len() && channel.queue@[i].slot == slot;
                        assert(old(channel).queue@[i + 1].slot == old(channel).queue@[0].slot);
                    }
                }
            }
            let resolved = channel.resolve(slot, response);
            proof {
                assert(resolved is Ok);
                assert(spec_command_handled(
                    *old(daemon),
                    *daemon,
                    taken_command,
                    outcomes,
                    sent_response,
                    effects@,
                ));
                assert(channel.slots@ == old(channel).slots@.update(
                    old(channel).queue@[0].slot as int,
                    SlotState::Fulfilled(sent_response),
                ));
            }
            Some(effects)
        },
        None => None,
    }
}

} // verus!
