//! Fan-out of daemon events to subscribers. The broadcaster hands every
//! event published after a subscription to that subscriber, in publish
//! order; a new subscriber sees nothing that was published before it
//! arrived, and there is no replay.
//!
//! Delivery itself (writing to each subscriber's connection) is the
//! surrounding runtime's business; the broadcaster is the bookkeeping
//! that fixes who is sent what, and in which order.

use vstd::prelude::*;

use crate::relay_list::RelayList;
use crate::settings::Settings;
use crate::states::TunnelState;
use crate::version::AppVersionInfo;
use crate::wireguard::KeygenEvent;

verus! {

/// An event published to all current subscribers.
#[derive(Debug, PartialEq)]
pub enum DaemonEvent {
    /// The tunnel state machine performed a transition.
    TunnelState(TunnelState),
    /// The settings changed.
    Settings(Settings),
    /// A new relay list is available.
    RelayList(RelayList),
    /// New information about app versions is available.
    AppVersionInfo(AppVersionInfo),
    /// A WireGuard key event happened.
    WireguardKey(KeygenEvent),
}

/// Fan-out bookkeeping: the current subscriber ids, the full sequence of
/// published events, and for each subscriber how many events had already
/// been published when it arrived.
pub struct EventBroadcaster {
    pub subscriber_ids: Vec<u64>,
    pub next_id: u64,
    /// Every event published so far, oldest first.
    pub published: Ghost<Seq<DaemonEvent>>,
    /// For each current subscriber, the length `published` had when it
    /// subscribed.
    pub since: Ghost<Map<u64, nat>>,
}

impl EventBroadcaster {
    /// Basic shape: ids are unique, each is below `next_id`, and each
    /// subscription point lies within the published history.
    pub open spec fn wf(self) -> bool {
        &&& forall|i: int|
            0 <= i < self.subscriber_ids@.len() ==> #[trigger] self.subscriber_ids@[i]
                < self.next_id
        &&& forall|i: int, j: int|
            0 <= i < j < self.subscriber_ids@.len() ==> self.subscriber_ids@[i]
                != self.subscriber_ids@[j]
        &&& forall|i: int|
            0 <= i < self.subscriber_ids@.len() ==> self.since@.dom().contains(
                #[trigger] self.subscriber_ids@[i],
            )
        &&& forall|id: u64|
            self.since@.dom().contains(id) ==> #[trigger] self.since@[id]
                <= self.published@.len()
    }

    /// Whether `id` is a current subscriber.
    pub open spec fn has_subscriber(self, id: u64) -> bool {
        self.subscriber_ids@.contains(id)
    }

    /// The events this subscriber has been handed: everything published
    /// since it subscribed, oldest first.
    pub open spec fn received(self, id: u64) -> Seq<DaemonEvent> {
        self.published@.skip(self.since@[id] as int)
    }

    /// A broadcaster with no subscribers and no history.
    pub fn new() -> (r: EventBroadcaster)
        ensures
            r.wf(),
            r.subscriber_ids@.len() == 0,
            r.published@.len() == 0,
            r.next_id == 0,
    {
        EventBroadcaster {
            subscriber_ids: Vec::new(),
            next_id: 0,
            published: Ghost(Seq::empty()),
            since: Ghost(Map::empty()),
        }
    }

    /// Accepts a new subscriber and returns its id. The new subscriber
    /// has received nothing: it only sees events published from now on.
    pub fn subscribe(&mut self) -> (id: u64)
        requires
            old(self).wf(),
            old(self).next_id < u64::MAX,
        ensures
            final(self).wf(),
            id == old(self).next_id,
            !old(self).has_subscriber(id),
            final(self).has_subscriber(id),
            final(self).subscriber_ids@ == old(self).subscriber_ids@.push(id),
            final(self).published@ == old(self).published@,
            final(self).received(id) == Seq::<DaemonEvent>::empty(),
            forall|other: u64|
                old(self).has_subscriber(other) ==> #[trigger] final(self).received(other)
                    == old(self).received(other),
    {
        let id = self.next_id;
        self.subscriber_ids.push(id);
        self.next_id = self.next_id + 1;
        proof {
            self.since@ = self.since@.insert(id, self.published@.len());
            assert(self.subscriber_ids@[old(self).subscriber_ids@.len() as int] == id);
            assert(self.has_subscriber(id));
            assert(self.published@.skip(self.published@.len() as int)
                =~= Seq::<DaemonEvent>::empty());
            assert forall|other: u64| old(self).has_subscriber(other)
                implies #[trigger] self.received(other) == old(self).received(other) by {
                let k = choose|k: int|
                    0 <= k < old(self).subscriber_ids@.len() && old(self).subscriber_ids@[k]
                        == other;
                assert(old(self).subscriber_ids@[k] < old(self).next_id);
            }
        }
        id
    }

    /// The position of a subscriber id, if it is current.
    fn find_subscriber(&self, id: u64) -> (r: Option<usize>)
        ensures
            match r {
                Some(k) => k < self.subscriber_ids@.len() && self.subscriber_ids@[k as int] == id,
                None => !self.has_subscriber(id),
            },
    {
        let mut i: usize = 0;
        while i < self.subscriber_ids.len()
            invariant
                i <= self.subscriber_ids@.len(),
                forall|k: int| 0 <= k < i ==> self.subscriber_ids@[k] != id,
            decreases self.subscriber_ids@.len() - i,
        {
            if self.subscriber_ids[i] == id {
                return Some(i);
            }
            i = i + 1;
        }
        proof {
            if self.subscriber_ids@.contains(id) {
                let k = choose|k: int|
                    0 <= k < self.subscriber_ids@.len() && self.subscriber_ids@[k] == id;
                assert(self.subscriber_ids@[k] != id);
            }
        }
        None
    }

    /// Removes a subscriber; reports whether it was known. A removed
    /// subscriber is sent nothing further; everyone else keeps receiving
    /// exactly what they would have, since only the removed entry leaves
    /// the books.
    pub fn unsubscribe(&mut self, id: u64) -> (found: bool)
        requires
            old(self).wf(),
        ensures
            final(self).wf(),
            found == old(self).has_subscriber(id),
            !final(self).has_subscriber(id),
            final(self).published@ == old(self).published@,
            final(self).next_id == old(self).next_id,
            final(self).since@ == if found {
                old(self).since@.remove(id)
            } else {
                old(self).since@
            },
            found ==> exists|k: int|
                0 <= k < old(self).subscriber_ids@.len() && old(self).subscriber_ids@[k] == id
                    && final(self).subscriber_ids@ == old(self).subscriber_ids@.remove(k),
            !found ==> final(self).subscriber_ids@ == old(self).subscriber_ids@,
    {
        let ghost old_ids = self.subscriber_ids@;
        match self.find_subscriber(id) {
            Some(k) => {
                self.subscriber_ids.remove(k);
                proof {
                    self.since@ = self.since@.remove(id);
                    let new_ids = self.subscriber_ids@;
                    assert(new_ids =~= old_ids.remove(k as int));
                    assert(old(self).has_subscriber(id)) by {
                        assert(old_ids[k as int] == id);
                    }
                    assert(!self.has_subscriber(id)) by {
                        if new_ids.contains(id) {
                            let j = choose|j: int| 0 <= j < new_ids.len() && new_ids[j] == id;
                            if j < k {
                                assert(old_ids[j] == id && old_ids[k as int] == id);
                            } else {
                                assert(old_ids[j + 1] == id && old_ids[k as int] == id);
                            }
                        }
                    }
                }
                true
            },
            None => false,
        }
    }

    /// Publishes one event: every current subscriber is handed it, after
    /// everything it was handed before. Subscribers that arrive later
    /// will not see it.
    pub fn publish(&mut self, event: DaemonEvent)
        requires
            old(self).wf(),
        ensures
            final(self).wf(),
            final(self).subscriber_ids@ == old(self).subscriber_ids@,
            final(self).next_id == old(self).next_id,
            final(self).since@ == old(self).since@,
            final(self).published@ == old(self).published@.push(event),
            forall|id: u64|
                old(self).has_subscriber(id) ==> #[trigger] final(self).received(id) == old(
                    self,
                ).received(id).push(event),
    {
        proof {
            self.published@ = self.published@.push(event);
            assert forall|id: u64| old(self).has_subscriber(id)
                implies #[trigger] self.received(id)
                    == old(self).received(id).push(event) by {
                let k = choose|k: int|
                    0 <= k < old(self).subscriber_ids@.len() && old(self).subscriber_ids@[k] == id;
                assert(old(self).since@.dom().contains(id));
                assert(self.received(id) =~= old(self).received(id).push(event));
            }
        }
    }

    /// The current subscriber ids, oldest subscription first.
    pub fn current_subscribers(&self) -> (r: Vec<u64>)
        ensures
            r@ == self.subscriber_ids@,
    {
        let mut out: Vec<u64> = Vec::new();
        let mut i: usize = 0;
        while i < self.subscriber_ids.len()
            invariant
                i <= self.subscriber_ids@.len(),
                out@ == self.subscriber_ids@.subrange(0, i as int),
            decreases self.subscriber_ids@.len() - i,
        {
            out.push(self.subscriber_ids[i]);
            proof {
                assert(out@ =~= self.subscriber_ids@.subrange(0, i + 1));
            }
            i = i + 1;
        }
        proof {
            assert(self.subscriber_ids@.subrange(0, self.subscriber_ids@.len() as int)
                =~= self.subscriber_ids@);
        }
        out
    }
}

impl EventBroadcaster {
    /// Sends a new tunnel state to all subscribers.
    pub fn notify_new_state(&mut self, new_state: TunnelState)
        requires
            old(self).wf(),
        ensures
            final(self).wf(),
            final(self).subscriber_ids@ == old(self).subscriber_ids@,
            final(self).next_id == old(self).next_id,
            final(self).since@ == old(self).since@,
            final(self).published@ == old(self).published@.push(
                DaemonEvent::TunnelState(new_state),
            ),
    {
        self.publish(DaemonEvent::TunnelState(new_state));
    }

    /// Sends new settings to all subscribers.
    pub fn notify_settings(&mut self, settings: Settings)
        requires
            old(self).wf(),
        ensures
            final(self).wf(),
            final(self).subscriber_ids@ == old(self).subscriber_ids@,
            final(self).next_id == old(self).next_id,
            final(self).since@ == old(self).since@,
            final(self).published@ == old(self).published@.push(DaemonEvent::Settings(settings)),
    {
        self.publish(DaemonEvent::Settings(settings));
    }

    /// Sends a new relay list to all subscribers.
    pub fn notify_relay_list(&mut self, relay_list: RelayList)
        requires
            old(self).wf(),
        ensures
            final(self).wf(),
            final(self).subscriber_ids@ == old(self).subscriber_ids@,
            final(self).next_id == old(self).next_id,
            final(self).since@ == old(self).since@,
            final(self).published@ == old(self).published@.push(
                DaemonEvent::RelayList(relay_list),
            ),
    {
        self.publish(DaemonEvent::RelayList(relay_list));
    }

    /// Sends new app version information to all subscribers.
    pub fn notify_app_version(&mut self, app_version_info: AppVersionInfo)
        requires
            old(self).wf(),
        ensures
            final(self).wf(),
            final(self).subscriber_ids@ == old(self).subscriber_ids@,
            final(self).next_id == old(self).next_id,
            final(self).since@ == old(self).since@,
            final(self).published@ == old(self).published@.push(
                DaemonEvent::AppVersionInfo(app_version_info),
            ),
    {
        self.publish(DaemonEvent::AppVersionInfo(app_version_info));
    }

    /// Sends a WireGuard key event to all subscribers.
    pub fn notify_key_event(&mut self, key_event: KeygenEvent)
        requires
            old(self).wf(),
        ensures
            final(self).wf(),
            final(self).subscriber_ids@ == old(self).subscriber_ids@,
            final(self).next_id == old(self).next_id,
            final(self).since@ == old(self).since@,
            final(self).published@ == old(self).published@.push(
                DaemonEvent::WireguardKey(key_event),
            ),
    {
        self.publish(DaemonEvent::WireguardKey(key_event));
    }
}

/// Subscribers see a suffix of the published history: everything
/// published since they subscribed, in publish order, nothing twice,
/// nothing from before they arrived.
pub proof fn lemma_subscriber_sees_published_suffix(b: EventBroadcaster, id: u64)
    requires
        b.wf(),
        b.has_subscriber(id),
    ensures
        b.received(id).len() == b.published@.len() - b.since@[id],
        forall|k: int|
            0 <= k < b.received(id).len() ==> b.received(id)[k] == b.published@[b.since@[id] + k],
{
    let i = choose|i: int| 0 <= i < b.subscriber_ids@.len() && b.subscriber_ids@[i] == id;
    assert(b.since@.dom().contains(id));
}

} // verus!
