//! Model of the policy enforcer: the firewall posture that is currently
//! applied, and whether the host is known to be protected from leaks.
//!
//! The enforcer itself only records outcomes and decides whether an OS call
//! is needed at all; performing the platform firewall call is the caller's
//! business, and its success or failure is handed in as a plain boolean.

use vstd::prelude::*;

verus! {

/// A firewall posture the enforcer can be asked to establish.
#[derive(Debug, PartialEq)]
pub enum FirewallPolicy {
    /// No restrictions.
    AllowAll,
    /// Deny everything; used while negotiating and in error states.
    BlockAll,
    /// Allow traffic only through the named tunnel interface.
    AllowTunnelOnly { interface: String },
}

impl Clone for FirewallPolicy {
    fn clone(&self) -> (r: Self)
        ensures
            r == *self,
    {
        match self {
            FirewallPolicy::AllowAll => FirewallPolicy::AllowAll,
            FirewallPolicy::BlockAll => FirewallPolicy::BlockAll,
            FirewallPolicy::AllowTunnelOnly { interface } => FirewallPolicy::AllowTunnelOnly {
                interface: interface.clone(),
            },
        }
    }
}

/// Mathematical model of a [`FirewallPolicy`].
pub enum FirewallPolicyView {
    AllowAll,
    BlockAll,
    AllowTunnelOnly { interface: Seq<char> },
}

impl View for FirewallPolicy {
    type V = FirewallPolicyView;

    open spec fn view(&self) -> FirewallPolicyView {
        match self {
            FirewallPolicy::AllowAll => FirewallPolicyView::AllowAll,
            FirewallPolicy::BlockAll => FirewallPolicyView::BlockAll,
            FirewallPolicy::AllowTunnelOnly { interface } => FirewallPolicyView::AllowTunnelOnly {
                interface: interface@,
            },
        }
    }
}

impl DeepView for FirewallPolicy {
    type V = FirewallPolicyView;

    open spec fn deep_view(&self) -> FirewallPolicyView {
        self.view()
    }
}

impl FirewallPolicyView {
    /// Whether this posture keeps traffic from leaking outside the tunnel.
    pub open spec fn blocks_leaks(self) -> bool {
        !(self is AllowAll)
    }
}

impl FirewallPolicy {
    /// Executable mirror of [`FirewallPolicyView::blocks_leaks`].
    pub fn is_blocking_policy(&self) -> (r: bool)
        ensures
            r == self@.blocks_leaks(),
    {
        match self {
            FirewallPolicy::AllowAll => false,
            _ => true,
        }
    }

    /// Whether the two postures are the same rule set.
    pub fn same_policy(&self, other: &FirewallPolicy) -> (r: bool)
        ensures
            r == (self@ == other@),
    {
        match (self, other) {
            (FirewallPolicy::AllowAll, FirewallPolicy::AllowAll) => true,
            (FirewallPolicy::BlockAll, FirewallPolicy::BlockAll) => true,
            (
                FirewallPolicy::AllowTunnelOnly { interface: a },
                FirewallPolicy::AllowTunnelOnly { interface: b },
            ) => *a == *b,
            _ => false,
        }
    }
}

/// Mathematical model of a [`PolicyEnforcer`].
pub struct PolicyEnforcerView {
    pub current: Option<FirewallPolicyView>,
    pub blocking: bool,
}

/// Records the posture last applied successfully and whether the host is
/// known to be protected from leaks. `current` is `None` while the firewall
/// is in an unknown state (before the first apply, or after a failed one).
#[derive(Debug, PartialEq)]
pub struct PolicyEnforcer {
    pub current: Option<FirewallPolicy>,
    pub blocking: bool,
}

impl Clone for PolicyEnforcer {
    fn clone(&self) -> (r: Self)
        ensures
            r == *self,
    {
        PolicyEnforcer {
            current: match &self.current {
                Some(policy) => Some(policy.clone()),
                None => None,
            },
            blocking: self.blocking,
        }
    }
}

impl View for PolicyEnforcer {
    type V = PolicyEnforcerView;

    open spec fn view(&self) -> PolicyEnforcerView {
        PolicyEnforcerView { current: self.current.deep_view(), blocking: self.blocking }
    }
}

impl DeepView for PolicyEnforcer {
    type V = PolicyEnforcerView;

    open spec fn deep_view(&self) -> PolicyEnforcerView {
        self.view()
    }
}

impl PolicyEnforcerView {
    /// One apply step: returns the next enforcer state and whether an OS
    /// call was performed. Applying the posture that is already current is
    /// a no-op success; otherwise the outcome of the OS call decides.
    pub open spec fn apply(self, policy: FirewallPolicyView, os_ok: bool) -> (PolicyEnforcerView, bool) {
        if self.current == Some(policy) {
            (self, false)
        } else if os_ok {
            (PolicyEnforcerView { current: Some(policy), blocking: policy.blocks_leaks() }, true)
        } else {
            (PolicyEnforcerView { current: None, blocking: false }, true)
        }
    }

    /// Records the outcome of a fallback deny-all attempt made after a
    /// failed apply. The firewall state stays unknown; only whether leaks
    /// are blocked is learned.
    pub open spec fn record_fallback(self, os_ok: bool) -> PolicyEnforcerView {
        PolicyEnforcerView { current: self.current, blocking: os_ok }
    }
}

impl PolicyEnforcer {
    /// A fresh enforcer: no posture applied, nothing known to be blocked.
    pub fn new() -> (r: PolicyEnforcer)
        ensures
            r@ == (PolicyEnforcerView { current: None::<FirewallPolicyView>, blocking: false }),
    {
        PolicyEnforcer { current: None, blocking: false }
    }

    /// Last-known enforcement success: true when the enforcer believes
    /// traffic cannot leak.
    pub fn is_blocking(&self) -> (r: bool)
        ensures
            r == self@.blocking,
    {
        self.blocking
    }

    /// The posture applied last, if the firewall is in a known state.
    pub fn current_policy(&self) -> (r: &Option<FirewallPolicy>)
        ensures
            r.deep_view() == self@.current,
    {
        &self.current
    }

    /// Applies a posture given the outcome `os_ok` of the platform firewall
    /// call, and reports whether such a call was needed at all. Asking for
    /// the posture that is already current performs nothing and succeeds.
    pub fn apply(&mut self, policy: FirewallPolicy, os_ok: bool) -> (performed: bool)
        ensures
            (final(self)@, performed) == old(self)@.apply(policy@, os_ok),
    {
        let already = match &self.current {
            Some(cur) => cur.same_policy(&policy),
            None => false,
        };
        if already {
            false
        } else {
            if os_ok {
                self.blocking = policy.is_blocking_policy();
                self.current = Some(policy);
            } else {
                self.current = None;
                self.blocking = false;
            }
            true
        }
    }

    /// Records the outcome of a fallback deny-all attempt.
    pub fn record_fallback(&mut self, os_ok: bool)
        ensures
            final(self)@ == old(self)@.record_fallback(os_ok),
    {
        self.blocking = os_ok;
    }
}

/// Applying a posture is idempotent: once a posture has been applied
/// successfully, applying the same posture again changes nothing and
/// performs no further OS call, whatever the OS would have answered.
pub proof fn lemma_apply_idempotent(e: PolicyEnforcerView, policy: FirewallPolicyView, os_ok: bool)
    ensures
        ({
            let (e1, performed1) = e.apply(policy, true);
            let (e2, performed2) = e1.apply(policy, os_ok);
            e2 == e1 && !performed2
        }),
{
}

} // verus!
