//! The tunnel state machine: the single authority that owns the observable
//! [`TunnelState`], consumes commands and events, drives the policy
//! enforcer, and reports every transition together with the side effects
//! (launch or stop the tunnel process) the caller must perform.
//!
//! Platform work is injected: the outcome of each firewall apply arrives as
//! a [`PolicyOutcomes`] value, and the returned [`Effects`] say what the
//! surrounding runtime has to do. The transition function itself is total
//! and deterministic; its meaning is the spec function
//! [`TunnelStateMachineView::step`].

use vstd::prelude::*;

use crate::policy::{FirewallPolicy, FirewallPolicyView, PolicyEnforcer, PolicyEnforcerView};
use crate::states::{
    ActionAfterDisconnect, ErrorState, ErrorStateCause, ErrorStateView, GenerationError,
    TargetState, TunnelEndpoint, TunnelEndpointView, TunnelState, TunnelStateView,
};

verus! {

/// How many times a dead tunnel process is relaunched before the failure
/// is surfaced as an error state.
pub const MAX_RETRY_ATTEMPTS: u32 = 3;

/// A command or event consumed by the state machine. All sources
/// (user intents, the tunnel launcher, the connectivity monitor) feed this
/// one type, in arrival order.
#[derive(Debug, PartialEq)]
pub enum TunnelCommand {
    /// The user's desired end state changed.
    SetTargetState(TargetState),
    /// The tunnel process reports the tunnel is fully established.
    TunnelUp { endpoint: TunnelEndpoint, interface: String },
    /// The tunnel process exited, expectedly or not.
    TunnelDown,
    /// The tunnel process reports a fatal error.
    TunnelError(ErrorStateCause),
    /// The connectivity monitor reports whether the host is offline.
    IsOffline(bool),
    /// Result of relay selection and tunnel parameter generation.
    GeneratedTunnelParameters(Result<TunnelEndpoint, GenerationError>),
    /// Tear the tunnel down and restart it without changing the target.
    Reconnect,
}

/// Mathematical model of a [`TunnelCommand`].
pub enum TunnelCommandView {
    SetTargetState(TargetState),
    TunnelUp { endpoint: TunnelEndpointView, interface: Seq<char> },
    TunnelDown,
    TunnelError(ErrorStateCause),
    IsOffline(bool),
    GeneratedTunnelParameters(Result<TunnelEndpointView, GenerationError>),
    Reconnect,
}

impl View for TunnelCommand {
    type V = TunnelCommandView;

    open spec fn view(&self) -> TunnelCommandView {
        match self {
            TunnelCommand::SetTargetState(t) => TunnelCommandView::SetTargetState(*t),
            TunnelCommand::TunnelUp { endpoint, interface } => TunnelCommandView::TunnelUp {
                endpoint: endpoint@,
                interface: interface@,
            },
            TunnelCommand::TunnelDown => TunnelCommandView::TunnelDown,
            TunnelCommand::TunnelError(cause) => TunnelCommandView::TunnelError(*cause),
            TunnelCommand::IsOffline(offline) => TunnelCommandView::IsOffline(*offline),
            TunnelCommand::GeneratedTunnelParameters(r) => {
                TunnelCommandView::GeneratedTunnelParameters(
                    match r {
                        Ok(endpoint) => Ok(endpoint@),
                        Err(e) => Err(*e),
                    },
                )
            },
            TunnelCommand::Reconnect => TunnelCommandView::Reconnect,
        }
    }
}

/// The outcome of the platform firewall calls a single transition may need:
/// one apply of the wanted posture, and, should that fail, one fallback
/// attempt at a crude deny-all rule set.
#[derive(Clone, Copy, Debug, PartialEq, Eq, Structural)]
pub struct PolicyOutcomes {
    pub apply_ok: bool,
    pub fallback_ok: bool,
}

impl PolicyOutcomes {
    /// Both firewall calls would succeed.
    pub fn all_ok() -> (r: PolicyOutcomes)
        ensures
            r == (PolicyOutcomes { apply_ok: true, fallback_ok: true }),
    {
        PolicyOutcomes { apply_ok: true, fallback_ok: true }
    }
}

/// What the runtime has to do after a transition, and what it was told.
#[derive(Debug, PartialEq)]
pub struct Effects {
    /// Start the tunnel process (generate parameters and spawn).
    pub launch_tunnel: bool,
    /// Stop the tunnel process.
    pub stop_tunnel: bool,
    /// The posture that was handed to the platform firewall during this
    /// transition, or `None` when no firewall call was needed.
    pub applied: Option<FirewallPolicy>,
    /// Whether a fallback deny-all attempt was made after a failed apply.
    pub fallback_attempted: bool,
    /// The state transition to publish to subscribers, if any.
    pub published: Option<TunnelState>,
}

/// Mathematical model of [`Effects`].
pub struct EffectsView {
    pub launch_tunnel: bool,
    pub stop_tunnel: bool,
    pub applied: Option<FirewallPolicyView>,
    pub fallback_attempted: bool,
    pub published: Option<TunnelStateView>,
}

impl View for Effects {
    type V = EffectsView;

    open spec fn view(&self) -> EffectsView {
        EffectsView {
            launch_tunnel: self.launch_tunnel,
            stop_tunnel: self.stop_tunnel,
            applied: self.applied.deep_view(),
            fallback_attempted: self.fallback_attempted,
            published: self.published.deep_view(),
        }
    }
}

impl EffectsView {
    /// A transition with nothing for the runtime to do.
    pub open spec fn none() -> EffectsView {
        EffectsView {
            launch_tunnel: false,
            stop_tunnel: false,
            applied: None,
            fallback_attempted: false,
            published: None,
        }
    }
}

/// Mathematical model of a [`TunnelStateMachine`].
pub struct TunnelStateMachineView {
    pub state: TunnelStateView,
    pub target: TargetState,
    pub offline: bool,
    pub retry_attempts: u32,
    pub block_when_disconnected: bool,
    pub enforcer: PolicyEnforcerView,
}

/// The single authoritative holder of the tunnel state. Created at daemon
/// start as `Disconnected`, mutated exclusively through
/// [`TunnelStateMachine::handle_event`].
#[derive(Debug, PartialEq)]
pub struct TunnelStateMachine {
    pub state: TunnelState,
    pub target: TargetState,
    pub offline: bool,
    pub retry_attempts: u32,
    pub block_when_disconnected: bool,
    pub enforcer: PolicyEnforcer,
}

impl View for TunnelStateMachine {
    type V = TunnelStateMachineView;

    open spec fn view(&self) -> TunnelStateMachineView {
        TunnelStateMachineView {
            state: self.state@,
            target: self.target,
            offline: self.offline,
            retry_attempts: self.retry_attempts,
            block_when_disconnected: self.block_when_disconnected,
            enforcer: self.enforcer@,
        }
    }
}

/// The posture that belongs to the disconnected state.
pub open spec fn disconnected_policy(block_when_disconnected: bool) -> FirewallPolicyView {
    if block_when_disconnected {
        FirewallPolicyView::BlockAll
    } else {
        FirewallPolicyView::AllowAll
    }
}

/// An error state as the machine constructs it: the authentication failure
/// reason is not carried by [`TunnelCommand`], so it is always empty here.
pub open spec fn error_state_view(
    cause: ErrorStateCause,
    is_blocking: bool,
    parameter_error: GenerationError,
) -> ErrorStateView {
    ErrorStateView {
        cause,
        is_blocking,
        auth_fail_reason: Seq::<char>::empty(),
        parameter_error,
    }
}

impl TunnelStateMachineView {
    /// The enforcer never claims a posture is current unless the recorded
    /// leak protection matches that posture.
    pub open spec fn wf(self) -> bool {
        match self.enforcer.current {
            Some(p) => self.enforcer.blocking == p.blocks_leaks(),
            None => true,
        }
    }

    /// Enter the error state with the given cause: ask the enforcer for a
    /// full block, fall back to a crude deny-all when that fails, and only
    /// then concede `is_blocking == false`.
    pub open spec fn enter_error(
        self,
        cause: ErrorStateCause,
        parameter_error: GenerationError,
        stop_tunnel: bool,
        out: PolicyOutcomes,
    ) -> (TunnelStateMachineView, EffectsView) {
        let (enforcer, performed) = self.enforcer.apply(FirewallPolicyView::BlockAll, out.apply_ok);
        let fallback_attempted = performed && !out.apply_ok;
        let enforcer = if fallback_attempted {
            enforcer.record_fallback(out.fallback_ok)
        } else {
            enforcer
        };
        let state = TunnelStateView::Error(
            error_state_view(cause, enforcer.blocking, parameter_error),
        );
        (
            TunnelStateMachineView { state, retry_attempts: 0, enforcer, ..self },
            EffectsView {
                launch_tunnel: false,
                stop_tunnel,
                applied: if performed { Some(FirewallPolicyView::BlockAll) } else { None },
                fallback_attempted,
                published: Some(state),
            },
        )
    }

    /// Start connecting: refuse to launch while offline, otherwise apply
    /// the leak-proof negotiation posture and launch the tunnel process.
    pub open spec fn start_connecting(self, out: PolicyOutcomes) -> (TunnelStateMachineView, EffectsView) {
        if self.offline {
            self.enter_error(ErrorStateCause::IsOffline, GenerationError::NoMatchingRelay, false, out)
        } else {
            let (enforcer, performed) = self.enforcer.apply(
                FirewallPolicyView::BlockAll,
                out.apply_ok,
            );
            if performed && !out.apply_ok {
                let enforcer = enforcer.record_fallback(out.fallback_ok);
                let state = TunnelStateView::Error(
                    error_state_view(
                        ErrorStateCause::SetFirewallPolicyError,
                        enforcer.blocking,
                        GenerationError::NoMatchingRelay,
                    ),
                );
                (
                    TunnelStateMachineView { state, retry_attempts: 0, enforcer, ..self },
                    EffectsView {
                        launch_tunnel: false,
                        stop_tunnel: false,
                        applied: Some(FirewallPolicyView::BlockAll),
                        fallback_attempted: true,
                        published: Some(state),
                    },
                )
            } else {
                let state = TunnelStateView::Connecting { endpoint: None, location: None };
                (
                    TunnelStateMachineView { state, enforcer, ..self },
                    EffectsView {
                        launch_tunnel: true,
                        stop_tunnel: false,
                        applied: if performed { Some(FirewallPolicyView::BlockAll) } else { None },
                        fallback_attempted: false,
                        published: Some(state),
                    },
                )
            }
        }
    }

    /// Begin tearing the tunnel down; the posture is resolved once the
    /// process has exited.
    pub open spec fn start_disconnecting(
        self,
        action: ActionAfterDisconnect,
    ) -> (TunnelStateMachineView, EffectsView) {
        let state = TunnelStateView::Disconnecting(action);
        (
            TunnelStateMachineView { state, ..self },
            EffectsView {
                launch_tunnel: false,
                stop_tunnel: true,
                applied: None,
                fallback_attempted: false,
                published: Some(state),
            },
        )
    }

    /// Become disconnected: apply the posture the settings ask for when no
    /// tunnel is wanted.
    pub open spec fn become_disconnected(self, out: PolicyOutcomes) -> (TunnelStateMachineView, EffectsView) {
        let (enforcer, performed) = self.enforcer.apply(
            disconnected_policy(self.block_when_disconnected),
            out.apply_ok,
        );
        if performed && !out.apply_ok {
            let enforcer = enforcer.record_fallback(out.fallback_ok);
            let state = TunnelStateView::Error(
                error_state_view(
                    ErrorStateCause::SetFirewallPolicyError,
                    enforcer.blocking,
                    GenerationError::NoMatchingRelay,
                ),
            );
            (
                TunnelStateMachineView { state, retry_attempts: 0, enforcer, ..self },
                EffectsView {
                    launch_tunnel: false,
                    stop_tunnel: false,
                    applied: Some(disconnected_policy(self.block_when_disconnected)),
                    fallback_attempted: true,
                    published: Some(state),
                },
            )
        } else {
            let state = TunnelStateView::Disconnected;
            (
                TunnelStateMachineView { state, retry_attempts: 0, enforcer, ..self },
                EffectsView {
                    launch_tunnel: false,
                    stop_tunnel: false,
                    applied: if performed {
                        Some(disconnected_policy(self.block_when_disconnected))
                    } else {
                        None
                    },
                    fallback_attempted: false,
                    published: Some(state),
                },
            )
        }
    }

    /// The action recorded while disconnecting when the user target is
    /// `Unsecured`.
    pub open spec fn unsecured_action(self) -> ActionAfterDisconnect {
        if self.block_when_disconnected {
            ActionAfterDisconnect::Block
        } else {
            ActionAfterDisconnect::Nothing
        }
    }

    /// Handle a change of the user's target state.
    pub open spec fn step_set_target(
        self,
        t: TargetState,
        out: PolicyOutcomes,
    ) -> (TunnelStateMachineView, EffectsView) {
        let m = TunnelStateMachineView { target: t, ..self };
        match t {
            TargetState::Secured => match m.state {
                TunnelStateView::Connected { .. } => (m, EffectsView::none()),
                TunnelStateView::Connecting { .. } => (m, EffectsView::none()),
                TunnelStateView::Disconnecting(_) => {
                    let state = TunnelStateView::Disconnecting(ActionAfterDisconnect::Reconnect);
                    (
                        TunnelStateMachineView { state, ..m },
                        EffectsView { published: Some(state), ..EffectsView::none() },
                    )
                },
                TunnelStateView::Disconnected => {
                    TunnelStateMachineView { retry_attempts: 0, ..m }.start_connecting(out)
                },
                TunnelStateView::Error(_) => {
                    TunnelStateMachineView { retry_attempts: 0, ..m }.start_connecting(out)
                },
            },
            TargetState::Unsecured => match m.state {
                TunnelStateView::Disconnected => (m, EffectsView::none()),
                TunnelStateView::Connecting { .. } => m.start_disconnecting(m.unsecured_action()),
                TunnelStateView::Connected { .. } => m.start_disconnecting(m.unsecured_action()),
                TunnelStateView::Disconnecting(_) => {
                    let state = TunnelStateView::Disconnecting(m.unsecured_action());
                    (
                        TunnelStateMachineView { state, ..m },
                        EffectsView { published: Some(state), ..EffectsView::none() },
                    )
                },
                TunnelStateView::Error(_) => m.become_disconnected(out),
            },
        }
    }

    /// Handle the tunnel process having exited.
    pub open spec fn step_tunnel_down(self, out: PolicyOutcomes) -> (TunnelStateMachineView, EffectsView) {
        match self.state {
            TunnelStateView::Disconnecting(action) => {
                if action is Reconnect || self.target is Secured {
                    if self.offline {
                        self.enter_error(
                            ErrorStateCause::IsOffline,
                            GenerationError::NoMatchingRelay,
                            false,
                            out,
                        )
                    } else {
                        TunnelStateMachineView { retry_attempts: 0, ..self }.start_connecting(out)
                    }
                } else {
                    self.become_disconnected(out)
                }
            },
            TunnelStateView::Connecting { .. } | TunnelStateView::Connected { .. } => {
                if self.target is Secured {
                    if self.offline {
                        self.enter_error(
                            ErrorStateCause::IsOffline,
                            GenerationError::NoMatchingRelay,
                            false,
                            out,
                        )
                    } else if self.retry_attempts < MAX_RETRY_ATTEMPTS {
                        TunnelStateMachineView {
                            retry_attempts: (self.retry_attempts + 1) as u32,
                            ..self
                        }.start_connecting(out)
                    } else {
                        self.enter_error(
                            ErrorStateCause::StartTunnelError,
                            GenerationError::NoMatchingRelay,
                            false,
                            out,
                        )
                    }
                } else {
                    self.become_disconnected(out)
                }
            },
            _ => (self, EffectsView::none()),
        }
    }

    /// Handle a connectivity change reported by the monitor.
    pub open spec fn step_is_offline(self, offline: bool, out: PolicyOutcomes) -> (TunnelStateMachineView, EffectsView) {
        let m = TunnelStateMachineView { offline, ..self };
        if offline {
            match m.state {
                TunnelStateView::Disconnecting(_) => (m, EffectsView::none()),
                TunnelStateView::Error(es) => {
                    if es.cause is IsOffline {
                        (m, EffectsView::none())
                    } else if m.target is Secured {
                        m.enter_error(
                            ErrorStateCause::IsOffline,
                            GenerationError::NoMatchingRelay,
                            false,
                            out,
                        )
                    } else {
                        (m, EffectsView::none())
                    }
                },
                TunnelStateView::Connecting { .. } | TunnelStateView::Connected { .. } => {
                    if m.target is Secured {
                        m.enter_error(
                            ErrorStateCause::IsOffline,
                            GenerationError::NoMatchingRelay,
                            true,
                            out,
                        )
                    } else {
                        (m, EffectsView::none())
                    }
                },
                TunnelStateView::Disconnected => {
                    if m.target is Secured {
                        m.enter_error(
                            ErrorStateCause::IsOffline,
                            GenerationError::NoMatchingRelay,
                            false,
                            out,
                        )
                    } else {
                        (m, EffectsView::none())
                    }
                },
            }
        } else {
            match m.state {
                TunnelStateView::Error(es) => {
                    if es.cause is IsOffline && m.target is Secured {
                        TunnelStateMachineView { retry_attempts: 0, ..m }.start_connecting(out)
                    } else {
                        (m, EffectsView::none())
                    }
                },
                _ => (m, EffectsView::none()),
            }
        }
    }

    /// The transition function: the next machine and the side effects, for
    /// any current machine, command and platform outcome.
    pub open spec fn step(self, cmd: TunnelCommandView, out: PolicyOutcomes) -> (TunnelStateMachineView, EffectsView) {
        match cmd {
            TunnelCommandView::SetTargetState(t) => self.step_set_target(t, out),
            TunnelCommandView::TunnelUp { endpoint, interface } => {
                match self.state {
                    TunnelStateView::Connecting { endpoint: _, location } => {
                        if self.target is Secured {
                            let (enforcer, performed) = self.enforcer.apply(
                                FirewallPolicyView::AllowTunnelOnly { interface },
                                out.apply_ok,
                            );
                            if performed && !out.apply_ok {
                                let enforcer = enforcer.record_fallback(out.fallback_ok);
                                let state = TunnelStateView::Error(
                                    error_state_view(
                                        ErrorStateCause::SetFirewallPolicyError,
                                        enforcer.blocking,
                                        GenerationError::NoMatchingRelay,
                                    ),
                                );
                                (
                                    TunnelStateMachineView { state, retry_attempts: 0, enforcer, ..self },
                                    EffectsView {
                                        launch_tunnel: false,
                                        stop_tunnel: true,
                                        applied: Some(
                                            FirewallPolicyView::AllowTunnelOnly { interface },
                                        ),
                                        fallback_attempted: true,
                                        published: Some(state),
                                    },
                                )
                            } else {
                                let state = TunnelStateView::Connected { endpoint, location };
                                (
                                    TunnelStateMachineView { state, retry_attempts: 0, enforcer, ..self },
                                    EffectsView {
                                        launch_tunnel: false,
                                        stop_tunnel: false,
                                        applied: if performed {
                                            Some(FirewallPolicyView::AllowTunnelOnly { interface })
                                        } else {
                                            None
                                        },
                                        fallback_attempted: false,
                                        published: Some(state),
                                    },
                                )
                            }
                        } else {
                            (self, EffectsView::none())
                        }
                    },
                    _ => (self, EffectsView::none()),
                }
            },
            TunnelCommandView::TunnelDown => self.step_tunnel_down(out),
            TunnelCommandView::TunnelError(cause) => {
                match self.state {
                    TunnelStateView::Connecting { .. } | TunnelStateView::Connected { .. } => {
                        self.enter_error(cause, GenerationError::NoMatchingRelay, false, out)
                    },
                    _ => (self, EffectsView::none()),
                }
            },
            TunnelCommandView::IsOffline(offline) => self.step_is_offline(offline, out),
            TunnelCommandView::GeneratedTunnelParameters(r) => {
                match self.state {
                    TunnelStateView::Connecting { endpoint: _, location } => {
                        if self.target is Secured {
                            match r {
                                Ok(endpoint) => {
                                    let state = TunnelStateView::Connecting {
                                        endpoint: Some(endpoint),
                                        location,
                                    };
                                    (
                                        TunnelStateMachineView { state, ..self },
                                        EffectsView {
                                            published: Some(state),
                                            ..EffectsView::none()
                                        },
                                    )
                                },
                                Err(generation_error) => {
                                    self.enter_error(
                                        ErrorStateCause::TunnelParameterError,
                                        generation_error,
                                        false,
                                        out,
                                    )
                                },
                            }
                        } else {
                            (self, EffectsView::none())
                        }
                    },
                    _ => (self, EffectsView::none()),
                }
            },
            TunnelCommandView::Reconnect => {
                if self.target is Secured {
                    match self.state {
                        TunnelStateView::Connecting { .. } | TunnelStateView::Connected { .. } => {
                            self.start_disconnecting(ActionAfterDisconnect::Reconnect)
                        },
                        TunnelStateView::Disconnecting(_) => {
                            let state = TunnelStateView::Disconnecting(
                                ActionAfterDisconnect::Reconnect,
                            );
                            (
                                TunnelStateMachineView { state, ..self },
                                EffectsView { published: Some(state), ..EffectsView::none() },
                            )
                        },
                        TunnelStateView::Disconnected | TunnelStateView::Error(_) => {
                            TunnelStateMachineView { retry_attempts: 0, ..self }.start_connecting(out)
                        },
                    }
                } else {
                    (self, EffectsView::none())
                }
            },
        }
    }
}

impl Effects {
    /// A transition with nothing for the runtime to do.
    pub fn none() -> (r: Effects)
        ensures
            r@ == EffectsView::none(),
    {
        Effects {
            launch_tunnel: false,
            stop_tunnel: false,
            applied: None,
            fallback_attempted: false,
            published: None,
        }
    }
}

impl TunnelStateMachine {
    /// A machine as it exists at daemon start: disconnected, target
    /// unsecured, online until the monitor says otherwise, nothing applied.
    pub fn new(block_when_disconnected: bool) -> (r: TunnelStateMachine)
        ensures
            r@.state == TunnelStateView::Disconnected,
            r@.target == TargetState::Unsecured,
            !r@.offline,
            r@.retry_attempts == 0,
            r@.block_when_disconnected == block_when_disconnected,
            r@.enforcer == (PolicyEnforcerView {
                current: None::<FirewallPolicyView>,
                blocking: false,
            }),
    {
        TunnelStateMachine {
            state: TunnelState::Disconnected,
            target: TargetState::Unsecured,
            offline: false,
            retry_attempts: 0,
            block_when_disconnected,
            enforcer: PolicyEnforcer::new(),
        }
    }

    /// The current observable tunnel state.
    pub fn state(&self) -> (r: &TunnelState)
        ensures
            r@ == self@.state,
    {
        &self.state
    }

    /// The user's current target state.
    pub fn target_state(&self) -> (r: TargetState)
        ensures
            r == self@.target,
    {
        self.target
    }

    /// Mirrors [`TunnelStateMachineView::enter_error`].
    fn set_error_state(
        &mut self,
        cause: ErrorStateCause,
        parameter_error: GenerationError,
        stop_tunnel: bool,
        out: PolicyOutcomes,
    ) -> (e: Effects)
        ensures
            (final(self)@, e@) == old(self)@.enter_error(cause, parameter_error, stop_tunnel, out),
    {
        let performed = self.enforcer.apply(FirewallPolicy::BlockAll, out.apply_ok);
        let fallback_attempted = performed && !out.apply_ok;
        if fallback_attempted {
            self.enforcer.record_fallback(out.fallback_ok);
        }
        self.state = TunnelState::Error(
            ErrorState {
                cause,
                is_blocking: self.enforcer.blocking,
                auth_fail_reason: String::new(),
                parameter_error,
            },
        );
        self.retry_attempts = 0;
        Effects {
            launch_tunnel: false,
            stop_tunnel,
            applied: if performed { Some(FirewallPolicy::BlockAll) } else { None },
            fallback_attempted,
            published: Some(self.state.clone()),
        }
    }

    /// Mirrors [`TunnelStateMachineView::start_connecting`].
    fn do_start_connecting(&mut self, out: PolicyOutcomes) -> (e: Effects)
        ensures
            (final(self)@, e@) == old(self)@.start_connecting(out),
    {
        if self.offline {
            self.set_error_state(
                ErrorStateCause::IsOffline,
                GenerationError::NoMatchingRelay,
                false,
                out,
            )
        } else {
            let performed = self.enforcer.apply(FirewallPolicy::BlockAll, out.apply_ok);
            if performed && !out.apply_ok {
                self.enforcer.record_fallback(out.fallback_ok);
                self.state = TunnelState::Error(
                    ErrorState {
                        cause: ErrorStateCause::SetFirewallPolicyError,
                        is_blocking: self.enforcer.blocking,
                        auth_fail_reason: String::new(),
                        parameter_error: GenerationError::NoMatchingRelay,
                    },
                );
                self.retry_attempts = 0;
                Effects {
                    launch_tunnel: false,
                    stop_tunnel: false,
                    applied: Some(FirewallPolicy::BlockAll),
                    fallback_attempted: true,
                    published: Some(self.state.clone()),
                }
            } else {
                self.state = TunnelState::Connecting { endpoint: None, location: None };
                Effects {
                    launch_tunnel: true,
                    stop_tunnel: false,
                    applied: if performed { Some(FirewallPolicy::BlockAll) } else { None },
                    fallback_attempted: false,
                    published: Some(self.state.clone()),
                }
            }
        }
    }

    /// Mirrors [`TunnelStateMachineView::start_disconnecting`].
    fn do_start_disconnecting(&mut self, action: ActionAfterDisconnect) -> (e: Effects)
        ensures
            (final(self)@, e@) == old(self)@.start_disconnecting(action),
    {
        self.state = TunnelState::Disconnecting(action);
        Effects {
            launch_tunnel: false,
            stop_tunnel: true,
            applied: None,
            fallback_attempted: false,
            published: Some(self.state.clone()),
        }
    }

    /// Mirrors [`TunnelStateMachineView::become_disconnected`].
    fn do_become_disconnected(&mut self, out: PolicyOutcomes) -> (e: Effects)
        ensures
            (final(self)@, e@) == old(self)@.become_disconnected(out),
    {
        let policy = if self.block_when_disconnected {
            FirewallPolicy::BlockAll
        } else {
            FirewallPolicy::AllowAll
        };
        let requested = policy.clone();
        let performed = self.enforcer.apply(policy, out.apply_ok);
        if performed && !out.apply_ok {
            self.enforcer.record_fallback(out.fallback_ok);
            self.state = TunnelState::Error(
                ErrorState {
                    cause: ErrorStateCause::SetFirewallPolicyError,
                    is_blocking: self.enforcer.blocking,
                    auth_fail_reason: String::new(),
                    parameter_error: GenerationError::NoMatchingRelay,
                },
            );
            self.retry_attempts = 0;
            Effects {
                launch_tunnel: false,
                stop_tunnel: false,
                applied: Some(requested),
                fallback_attempted: true,
                published: Some(self.state.clone()),
            }
        } else {
            self.state = TunnelState::Disconnected;
            self.retry_attempts = 0;
            Effects {
                launch_tunnel: false,
                stop_tunnel: false,
                applied: if performed { Some(requested) } else { None },
                fallback_attempted: false,
                published: Some(self.state.clone()),
            }
        }
    }

    /// The action recorded while disconnecting when the target is
    /// `Unsecured`.
    fn current_unsecured_action(&self) -> (r: ActionAfterDisconnect)
        ensures
            r == self@.unsecured_action(),
    {
        if self.block_when_disconnected {
            ActionAfterDisconnect::Block
        } else {
            ActionAfterDisconnect::Nothing
        }
    }

    /// Consumes one command or event and performs the matching transition.
    /// `out` carries the outcome of the platform firewall calls the
    /// transition needs; the returned effects say what the runtime must do.
    /// The meaning is exactly [`TunnelStateMachineView::step`].
    pub fn handle_event(&mut self, cmd: TunnelCommand, out: PolicyOutcomes) -> (e: Effects)
        ensures
            (final(self)@, e@) == old(self)@.step(cmd@, out),
    {
        match cmd {
            TunnelCommand::SetTargetState(t) => {
                self.target = t;
                match t {
                    TargetState::Secured => {
                        match &self.state {
                            TunnelState::Connected { .. } => Effects::none(),
                            TunnelState::Connecting { .. } => Effects::none(),
                            TunnelState::Disconnecting(_) => {
                                self.state = TunnelState::Disconnecting(
                                    ActionAfterDisconnect::Reconnect,
                                );
                                Effects {
                                    published: Some(self.state.clone()),
                                    ..Effects::none()
                                }
                            },
                            TunnelState::Disconnected | TunnelState::Error(_) => {
                                self.retry_attempts = 0;
                                self.do_start_connecting(out)
                            },
                        }
                    },
                    TargetState::Unsecured => {
                        match &self.state {
                            TunnelState::Disconnected => Effects::none(),
                            TunnelState::Connecting { .. } | TunnelState::Connected { .. } => {
                                let action = self.current_unsecured_action();
                                self.do_start_disconnecting(action)
                            },
                            TunnelState::Disconnecting(_) => {
                                self.state = TunnelState::Disconnecting(
                                    self.current_unsecured_action(),
                                );
                                Effects {
                                    published: Some(self.state.clone()),
                                    ..Effects::none()
                                }
                            },
                            TunnelState::Error(_) => self.do_become_disconnected(out),
                        }
                    },
                }
            },
            TunnelCommand::TunnelUp { endpoint, interface } => {
                let connecting_location: Option<Option<crate::states::GeoIpLocation>> =
                    match &self.state {
                        TunnelState::Connecting { endpoint: _, location } => Some(
                            match location {
                                Some(l) => Some(l.clone()),
                                None => None,
                            },
                        ),
                        _ => None,
                    };
                match connecting_location {
                    Some(location) => {
                        if self.target == TargetState::Secured {
                            let policy = FirewallPolicy::AllowTunnelOnly { interface };
                            let requested = policy.clone();
                            let performed = self.enforcer.apply(policy, out.apply_ok);
                            if performed && !out.apply_ok {
                                self.enforcer.record_fallback(out.fallback_ok);
                                self.state = TunnelState::Error(
                                    ErrorState {
                                        cause: ErrorStateCause::SetFirewallPolicyError,
                                        is_blocking: self.enforcer.blocking,
                                        auth_fail_reason: String::new(),
                                        parameter_error: GenerationError::NoMatchingRelay,
                                    },
                                );
                                self.retry_attempts = 0;
                                Effects {
                                    launch_tunnel: false,
                                    stop_tunnel: true,
                                    applied: Some(requested),
                                    fallback_attempted: true,
                                    published: Some(self.state.clone()),
                                }
                            } else {
                                self.state = TunnelState::Connected { endpoint, location };
                                self.retry_attempts = 0;
                                Effects {
                                    launch_tunnel: false,
                                    stop_tunnel: false,
                                    applied: if performed { Some(requested) } else { None },
                                    fallback_attempted: false,
                                    published: Some(self.state.clone()),
                                }
                            }
                        } else {
                            Effects::none()
                        }
                    },
                    None => Effects::none(),
                }
            },
            TunnelCommand::TunnelDown => {
                match &self.state {
                    TunnelState::Disconnecting(action) => {
                        let reconnect = matches!(action, ActionAfterDisconnect::Reconnect)
                            || self.target == TargetState::Secured;
                        if reconnect {
                            if self.offline {
                                self.set_error_state(
                                    ErrorStateCause::IsOffline,
                                    GenerationError::NoMatchingRelay,
                                    false,
                                    out,
                                )
                            } else {
                                self.retry_attempts = 0;
                                self.do_start_connecting(out)
                            }
                        } else {
                            self.do_become_disconnected(out)
                        }
                    },
                    TunnelState::Connecting { .. } | TunnelState::Connected { .. } => {
                        if self.target == TargetState::Secured {
                            if self.offline {
                                self.set_error_state(
                                    ErrorStateCause::IsOffline,
                                    GenerationError::NoMatchingRelay,
                                    false,
                                    out,
                                )
                            } else if self.retry_attempts < MAX_RETRY_ATTEMPTS {
                                self.retry_attempts = self.retry_attempts + 1;
                                self.do_start_connecting(out)
                            } else {
                                self.set_error_state(
                                    ErrorStateCause::StartTunnelError,
                                    GenerationError::NoMatchingRelay,
                                    false,
                                    out,
                                )
                            }
                        } else {
                            self.do_become_disconnected(out)
                        }
                    },
                    _ => Effects::none(),
                }
            },
            TunnelCommand::TunnelError(cause) => {
                match &self.state {
                    TunnelState::Connecting { .. } | TunnelState::Connected { .. } => {
                        self.set_error_state(cause, GenerationError::NoMatchingRelay, false, out)
                    },
                    _ => Effects::none(),
                }
            },
            TunnelCommand::IsOffline(offline) => {
                self.offline = offline;
                if offline {
                    match &self.state {
                        TunnelState::Disconnecting(_) => Effects::none(),
                        TunnelState::Error(error_state) => {
                            if matches!(error_state.cause, ErrorStateCause::IsOffline) {
                                Effects::none()
                            } else if self.target == TargetState::Secured {
                                self.set_error_state(
                                    ErrorStateCause::IsOffline,
                                    GenerationError::NoMatchingRelay,
                                    false,
                                    out,
                                )
                            } else {
                                Effects::none()
                            }
                        },
                        TunnelState::Connecting { .. } | TunnelState::Connected { .. } => {
                            if self.target == TargetState::Secured {
                                self.set_error_state(
                                    ErrorStateCause::IsOffline,
                                    GenerationError::NoMatchingRelay,
                                    true,
                                    out,
                                )
                            } else {
                                Effects::none()
                            }
                        },
                        TunnelState::Disconnected => {
                            if self.target == TargetState::Secured {
                                self.set_error_state(
                                    ErrorStateCause::IsOffline,
                                    GenerationError::NoMatchingRelay,
                                    false,
                                    out,
                                )
                            } else {
                                Effects::none()
                            }
                        },
                    }
                } else {
                    let reconnect = match &self.state {
                        TunnelState::Error(error_state) => {
                            matches!(error_state.cause, ErrorStateCause::IsOffline)
                                && self.target == TargetState::Secured
                        },
                        _ => false,
                    };
                    if reconnect {
                        self.retry_attempts = 0;
                        self.do_start_connecting(out)
                    } else {
                        Effects::none()
                    }
                }
            },
            TunnelCommand::GeneratedTunnelParameters(r) => {
                let connecting_location: Option<Option<crate::states::GeoIpLocation>> =
                    match &self.state {
                        TunnelState::Connecting { endpoint: _, location } => Some(
                            match location {
                                Some(l) => Some(l.clone()),
                                None => None,
                            },
                        ),
                        _ => None,
                    };
                match connecting_location {
                    Some(location) => {
                        if self.target == TargetState::Secured {
                            match r {
                                Ok(endpoint) => {
                                    self.state = TunnelState::Connecting {
                                        endpoint: Some(endpoint),
                                        location,
                                    };
                                    Effects {
                                        published: Some(self.state.clone()),
                                        ..Effects::none()
                                    }
                                },
                                Err(generation_error) => {
                                    self.set_error_state(
                                        ErrorStateCause::TunnelParameterError,
                                        generation_error,
                                        false,
                                        out,
                                    )
                                },
                            }
                        } else {
                            Effects::none()
                        }
                    },
                    None => Effects::none(),
                }
            },
            TunnelCommand::Reconnect => {
                if self.target == TargetState::Secured {
                    match &self.state {
                        TunnelState::Connecting { .. } | TunnelState::Connected { .. } => {
                            self.do_start_disconnecting(ActionAfterDisconnect::Reconnect)
                        },
                        TunnelState::Disconnecting(_) => {
                            self.state = TunnelState::Disconnecting(
                                ActionAfterDisconnect::Reconnect,
                            );
                            Effects {
                                published: Some(self.state.clone()),
                                ..Effects::none()
                            }
                        },
                        TunnelState::Disconnected | TunnelState::Error(_) => {
                            self.retry_attempts = 0;
                            self.do_start_connecting(out)
                        },
                    }
                } else {
                    Effects::none()
                }
            },
        }
    }
}

/// Every step keeps the machine well formed: the enforcer never claims a
/// posture is current with leak protection recorded that contradicts it.
pub proof fn lemma_step_preserves_wf(
    m: TunnelStateMachineView,
    cmd: TunnelCommandView,
    out: PolicyOutcomes,
)
    requires
        m.wf(),
    ensures
        m.step(cmd, out).0.wf(),
{
}

/// An error state that does not block is never the first outcome: when a
/// step publishes `Error` with `is_blocking == false`, the enforcer was
/// first asked for the blocking posture and then for the fallback deny-all
/// rules, and only because both failed is the leak conceded.
pub proof fn lemma_unblocked_error_only_after_failed_fallback(
    m: TunnelStateMachineView,
    cmd: TunnelCommandView,
    out: PolicyOutcomes,
)
    requires
        m.wf(),
    ensures
        ({
            let (m2, eff) = m.step(cmd, out);
            forall|es: ErrorStateView|
                eff.published == Some(TunnelStateView::Error(es)) && !es.is_blocking ==> {
                    &&& eff.applied is Some
                    &&& eff.fallback_attempted
                    &&& !out.apply_ok
                    &&& !out.fallback_ok
                }
        }),
{
}

/// Whatever a step publishes is exactly the state the machine is in when
/// the step is over: a reader that asks for the state right after seeing a
/// published transition sees the same value.
pub proof fn lemma_published_state_is_current(
    m: TunnelStateMachineView,
    cmd: TunnelCommandView,
    out: PolicyOutcomes,
)
    ensures
        ({
            let (m2, eff) = m.step(cmd, out);
            eff.published is Some ==> eff.published == Some(m2.state)
        }),
{
}

/// Asking for a secured target while offline never spawns a tunnel
/// process. From a state with no tunnel under way, the machine publishes
/// the offline error next, and that error blocks unless the enforcer
/// performed both the blocking apply and the fallback and the platform
/// failed both — it cannot be non-blocking on any first attempt that
/// succeeded, nor while the blocking posture is already in force.
pub proof fn lemma_connect_while_offline_blocks(m: TunnelStateMachineView, out: PolicyOutcomes)
    requires
        m.wf(),
        m.offline,
    ensures
        ({
            let (m2, eff) = m.step(
                TunnelCommandView::SetTargetState(TargetState::Secured),
                out,
            );
            &&& !eff.launch_tunnel
            &&& (m.state is Disconnected || m.state is Error) ==> {
                &&& eff.published == Some(m2.state)
                &&& match m2.state {
                    TunnelStateView::Error(es) => {
                        &&& es.cause == ErrorStateCause::IsOffline
                        &&& (out.apply_ok || out.fallback_ok) ==> es.is_blocking
                    },
                    _ => false,
                }
            }
        }),
{
}

/// A tunnel that dies while the target is still secured and the retry
/// budget remains is relaunched, not abandoned: the machine never drops
/// to `Disconnected`, and whenever the blocking posture can be applied
/// (or already is in force) the next state is `Connecting` with a launch.
pub proof fn lemma_tunnel_down_retries(m: TunnelStateMachineView, out: PolicyOutcomes)
    requires
        m.state is Connected,
        m.target is Secured,
        !m.offline,
        m.retry_attempts < MAX_RETRY_ATTEMPTS,
    ensures
        ({
            let (m2, eff) = m.step(TunnelCommandView::TunnelDown, out);
            &&& !(m2.state is Disconnected)
            &&& (out.apply_ok || m.enforcer.current == Some(FirewallPolicyView::BlockAll))
                ==> m2.state is Connecting && eff.launch_tunnel && m2.retry_attempts
                == m.retry_attempts + 1 && eff.published == Some(m2.state)
        }),
{
}

/// Asking for an unsecured target mid-`Connecting` tears the tunnel down
/// exactly once: the first step goes to `Disconnecting(Nothing)` with one
/// stop, whatever the platform answers, and the process exit then stops
/// nothing further and reaches `Disconnected` whenever the disconnected
/// posture can be applied (or already is in force).
pub proof fn lemma_disconnect_mid_connecting(
    m: TunnelStateMachineView,
    out1: PolicyOutcomes,
    out2: PolicyOutcomes,
)
    requires
        m.state is Connecting,
        !m.block_when_disconnected,
    ensures
        ({
            let (m1, e1) = m.step(
                TunnelCommandView::SetTargetState(TargetState::Unsecured),
                out1,
            );
            &&& m1.state == TunnelStateView::Disconnecting(ActionAfterDisconnect::Nothing)
            &&& e1.stop_tunnel && !e1.launch_tunnel
            &&& e1.published == Some(m1.state)
            &&& ({
                let (m2, e2) = m1.step(TunnelCommandView::TunnelDown, out2);
                &&& !e2.stop_tunnel && !e2.launch_tunnel
                &&& (out2.apply_ok || m.enforcer.current == Some(FirewallPolicyView::AllowAll))
                    ==> m2.state is Disconnected && e2.published == Some(
                    TunnelStateView::Disconnected,
                )
            })
        }),
{
}

/// Stale events are ignored: a tunnel-up report reaching a machine that
/// is not connecting, or a tunnel-down report reaching one with no
/// tunnel, changes nothing and asks for nothing. Ordering across sources
/// is arrival order; this is what makes that safe.
pub proof fn lemma_stale_events_ignored(
    m: TunnelStateMachineView,
    endpoint: TunnelEndpointView,
    interface: Seq<char>,
    out: PolicyOutcomes,
)
    ensures
        !(m.state is Connecting) ==> m.step(
            TunnelCommandView::TunnelUp { endpoint, interface },
            out,
        ) == (m, EffectsView::none()),
        m.state is Disconnected || m.state is Error ==> m.step(
            TunnelCommandView::TunnelDown,
            out,
        ) == (m, EffectsView::none()),
        !(m.state is Connecting) ==> m.step(
            TunnelCommandView::GeneratedTunnelParameters(Ok(endpoint)),
            out,
        ) == (m, EffectsView::none()),
{
}

/// The event a cooperative environment would produce for the machine's
/// current state: a launching tunnel comes up, a stopping tunnel exits.
pub open spec fn cooperative_event(
    m: TunnelStateMachineView,
    endpoint: TunnelEndpointView,
    interface: Seq<char>,
) -> Option<TunnelCommandView> {
    match m.state {
        TunnelStateView::Connecting { .. } => Some(
            TunnelCommandView::TunnelUp { endpoint, interface },
        ),
        TunnelStateView::Disconnecting(_) => Some(TunnelCommandView::TunnelDown),
        _ => None,
    }
}

/// One step of the cooperative environment: deliver the expected event
/// with all platform calls succeeding, or leave the machine alone when it
/// is not waiting for the environment.
pub open spec fn settle(
    m: TunnelStateMachineView,
    endpoint: TunnelEndpointView,
    interface: Seq<char>,
) -> TunnelStateMachineView {
    match cooperative_event(m, endpoint, interface) {
        Some(event) => m.step(event, PolicyOutcomes { apply_ok: true, fallback_ok: true }).0,
        None => m,
    }
}

/// Convergence: after any `SetTargetState` command, however the machine
/// got where it is, three cooperative environment steps suffice to reach a
/// state consistent with that target, provided the host is online, the
/// tunnel process is controllable (it comes up when launched and exits
/// when stopped) and the firewall calls succeed.
pub proof fn lemma_set_target_converges(
    m: TunnelStateMachineView,
    t: TargetState,
    endpoint: TunnelEndpointView,
    interface: Seq<char>,
)
    requires
        !m.offline,
    ensures
        ({
            let all_ok = PolicyOutcomes { apply_ok: true, fallback_ok: true };
            let m1 = m.step(TunnelCommandView::SetTargetState(t), all_ok).0;
            settle(
                settle(settle(m1, endpoint, interface), endpoint, interface),
                endpoint,
                interface,
            ).state.consistent_with(t)
        }),
{
}

} // verus!


