//! The hub's two tables as mathematical maps, and what each event does to
//! them. The executable server is specified against these transitions.
use vstd::prelude::*;
use crate::groups::{members_in, with_member, without_member};
use crate::message::{ClientId, Envelope};
use crate::server::{Connect, Disconnect, Event};

verus! {

/// Abstract state of the hub: the session directory and the group table.
#[verifier::ext_equal]
pub struct HubState<H> {
    /// The handle registered for each connected client.
    pub sessions: Map<ClientId, H>,
    /// The members recorded for each host that has a group.
    pub groups: Map<ClientId, Set<ClientId>>,
}

impl<H> HubState<H> {
    /// No sessions and no groups.
    pub open spec fn empty() -> Self {
        HubState { sessions: Map::empty(), groups: Map::empty() }
    }

    /// The members of the group of `host`; empty where `host` has no group.
    pub open spec fn members_of(self, host: ClientId) -> Set<ClientId> {
        members_in(self.groups, host)
    }

    /// The handle through which an envelope addressed to `to` leaves the
    /// hub; `None` where `to` has no session and the envelope is dropped.
    pub open spec fn handle_for(self, to: ClientId) -> Option<H> {
        if self.sessions.contains_key(to) {
            Some(self.sessions[to])
        } else {
            None
        }
    }

    /// The state once `id` has connected with `handle`.
    pub open spec fn after_connect(self, id: ClientId, handle: H) -> Self {
        HubState { sessions: self.sessions.insert(id, handle), groups: self.groups }
    }

    /// The state once `client_id` has disconnected. Its session goes in any
    /// case. Its membership goes from the group of `host_id` alone, and only
    /// where a host is named and has a group.
    pub open spec fn after_disconnect(self, client_id: ClientId, host_id: Option<ClientId>) -> Self {
        HubState {
            sessions: self.sessions.remove(client_id),
            groups: without_member(self.groups, client_id, host_id),
        }
    }

    /// Who is told that `client_id` has disconnected: the members that remain
    /// in the group of `host_id` and still have a session.
    pub open spec fn notified_of_disconnect(self, client_id: ClientId, host_id: Option<ClientId>) -> Set<ClientId> {
        match host_id {
            Some(host) => self.members_of(host).remove(client_id).intersect(self.sessions.dom()),
            None => Set::empty(),
        }
    }

    /// The state once `envelope` has passed the hub. Only a successful join
    /// result changes anything: its recipient becomes a member of its
    /// sender's group.
    pub open spec fn after_envelope(self, envelope: Envelope) -> Self {
        HubState {
            sessions: self.sessions,
            groups: match envelope.join_host() {
                Some(host) => with_member(self.groups, host, envelope.to),
                None => self.groups,
            },
        }
    }

    /// The state once `event` has been handled.
    pub open spec fn after(self, event: Event<H>) -> Self {
        match event {
            Event::Connect(Connect(id, handle)) => self.after_connect(id, handle),
            Event::Disconnect(Disconnect { client_id, host_id }) => self.after_disconnect(client_id, host_id),
            Event::Envelope(envelope) => self.after_envelope(envelope),
        }
    }

    /// The state once `events` have been handled one after the other.
    pub open spec fn after_all(self, events: Seq<Event<H>>) -> Self
        decreases events.len(),
    {
        if events.len() == 0 {
            self
        } else {
            self.after_all(events.drop_last()).after(events.last())
        }
    }
}

/// The clients that connect somewhere in `events`.
pub open spec fn ever_connected<H>(events: Seq<Event<H>>) -> Set<ClientId> {
    Set::new(|id: ClientId| exists|i: int| 0 <= i < events.len() && (#[trigger] events[i]).connected() == Some(id))
}

/// Every successful join result in `events` is addressed to a client that
/// has connected earlier in `events`.
pub open spec fn joins_reach_known_clients<H>(events: Seq<Event<H>>) -> bool {
    forall|i: int|
        0 <= i < events.len() ==> match (#[trigger] events[i]).joined() {
            Some((_, member)) => ever_connected(events.take(i)).contains(member),
            None => true,
        }
}

} // verus!
