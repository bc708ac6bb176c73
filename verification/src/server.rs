//! The signaling router: owner of both tables, reacting to one event at a
//! time.
use vstd::prelude::*;
use crate::directory::SessionDirectory;
use crate::groups::GroupTable;
use crate::message::{ClientId, Envelope};
use crate::model::HubState;

verus! {

/// A peer has connected: its identifier and the handle that reaches it.
pub struct Connect<H>(pub ClientId, pub H);

/// A peer's link is gone.
#[derive(Clone, Copy, Debug, PartialEq, Eq)]
pub struct Disconnect {
    /// The peer that has gone.
    pub client_id: ClientId,
    /// The host whose group the peer had joined, if the transport knows one.
    pub host_id: Option<ClientId>,
}

/// What the hub reacts to. Events are handled one at a time, in the order in
/// which they arrive.
pub enum Event<H> {
    Connect(Connect<H>),
    Disconnect(Disconnect),
    Envelope(Envelope),
}

impl<H> Event<H> {
    /// The client that this event gives a session: the one named by a
    /// connect.
    pub open spec fn connected(self) -> Option<ClientId> {
        match self {
            Event::Connect(msg) => Some(msg.0),
            _ => None,
        }
    }

    /// The host and the member of the membership that this event
    /// establishes: sender and recipient of a successful join result.
    pub open spec fn joined(self) -> Option<(ClientId, ClientId)> {
        match self {
            Event::Envelope(msg) => match msg.join_host() {
                Some(host) => Some((host, msg.to)),
                None => None,
            },
            _ => None,
        }
    }
}

/// One envelope to push, and the handle to push it through. The hub decides
/// deliveries; carrying them out, and ignoring their failure, is the caller's
/// part.
pub struct Delivery<'a, H> {
    /// The recipient's handle, as the directory holds it.
    pub handle: &'a H,
    /// What to push through it.
    pub envelope: Envelope,
}

impl<'a, H> Delivery<'a, H> {
    /// This delivery pushes `envelope` through the handle that `state` holds
    /// for `target`.
    pub open spec fn carries(self, state: HubState<H>, target: ClientId, envelope: Envelope) -> bool {
        &&& state.handle_for(target) == Some(*self.handle)
        &&& self.envelope == envelope
    }
}

/// The recipients of `deliveries`, in order.
pub open spec fn recipients<'a, H>(deliveries: Seq<Delivery<'a, H>>) -> Seq<ClientId> {
    deliveries.map_values(|delivery: Delivery<'a, H>| delivery.envelope.to)
}

/// `deliveries` are the `Offline` notices owed when `client_id` disconnects
/// under `host_id` in state `before`: one to each member that
/// [`HubState::notified_of_disconnect`] names, through that member's handle,
/// in any order.
pub open spec fn offline_notices<'a, H>(
    before: HubState<H>,
    client_id: ClientId,
    host_id: Option<ClientId>,
    deliveries: Seq<Delivery<'a, H>>,
) -> bool {
    &&& forall|i: int|
        0 <= i < deliveries.len() ==> (#[trigger] deliveries[i]).carries(
            before.after_disconnect(client_id, host_id),
            deliveries[i].envelope.to,
            Envelope::offline(deliveries[i].envelope.to, client_id),
        )
    &&& recipients(deliveries).no_duplicates()
    &&& recipients(deliveries).to_set() == before.notified_of_disconnect(client_id, host_id)
}

/// `deliveries` are what the hub owes for `event` arriving in state
/// `before`: nothing for a connect, the `Offline` notices for a disconnect,
/// and for an envelope the envelope itself if its recipient has a session.
pub open spec fn owed<'a, H>(before: HubState<H>, event: Event<H>, deliveries: Seq<Delivery<'a, H>>) -> bool {
    match event {
        Event::Connect(_) => deliveries.len() == 0,
        Event::Disconnect(msg) => offline_notices(before, msg.client_id, msg.host_id, deliveries),
        Event::Envelope(msg) => match before.after_envelope(msg).handle_for(msg.to) {
            Some(_) => deliveries.len() == 1 && deliveries[0].carries(before.after_envelope(msg), msg.to, msg),
            None => deliveries.len() == 0,
        },
    }
}

/// The routing core. All changes go through `&mut self`, so each event sees
/// the tables as the previous event left them.
pub struct SignalServer<H> {
    sessions: SessionDirectory<H>,
    groups: GroupTable,
}

impl<H> View for SignalServer<H> {
    type V = HubState<H>;

    closed spec fn view(&self) -> HubState<H> {
        HubState { sessions: self.sessions@, groups: self.groups@ }
    }
}

impl<H> Default for SignalServer<H> {
    /// A hub without sessions and without groups.
    fn default() -> (server: Self)
        ensures
            server@ == HubState::<H>::empty(),
    {
        SignalServer { sessions: SessionDirectory::new(), groups: GroupTable::new() }
    }
}

impl<H> SignalServer<H> {
    /// The session directory, for reading.
    pub fn sessions(&self) -> (directory: &SessionDirectory<H>)
        ensures
            directory@ == self@.sessions,
    {
        &self.sessions
    }

    /// The group table, for reading.
    pub fn groups(&self) -> (table: &GroupTable)
        ensures
            table@ == self@.groups,
    {
        &self.groups
    }

    /// Pairs `msg` with the handle of `target`. Without a session for
    /// `target` there is nothing to push and `msg` is dropped.
    pub fn send_to_target(&self, msg: Envelope, target: ClientId) -> (out: Option<Delivery<'_, H>>)
        ensures
            (match out {
                Some(delivery) => delivery.carries(self@, target, msg),
                None => self@.handle_for(target) is None,
            }),
    {
        match self.sessions.lookup(target) {
            Some(handle) => Some(Delivery { handle, envelope: msg }),
            None => None,
        }
    }

    /// Registers the session of a connecting peer. A peer that is already
    /// registered gets the new handle.
    pub fn handle_connect(&mut self, msg: Connect<H>)
        ensures
            final(self)@ == old(self)@.after_connect(msg.0, msg.1),
    {
        let Connect(client_id, handle) = msg;
        self.sessions.register(client_id, handle);
    }

    /// The `Offline` notices that tell `members` that `client_id` has gone:
    /// one for each of them that has a session, through its handle.
    fn notices_for(&self, members: &Vec<ClientId>, client_id: ClientId) -> (out: Vec<Delivery<'_, H>>)
        requires
            members@.no_duplicates(),
        ensures
            forall|i: int| 0 <= i < out@.len() ==> (#[trigger] out@[i]).carries(
                self@,
                out@[i].envelope.to,
                Envelope::offline(out@[i].envelope.to, client_id),
            ),
            recipients(out@).no_duplicates(),
            recipients(out@).to_set() == members@.to_set().intersect(self@.sessions.dom()),
    {
        let mut out: Vec<Delivery<'_, H>> = Vec::new();
        let mut i: usize = 0;
        while i < members.len()
            invariant
                0 <= i <= members@.len(),
                members@.no_duplicates(),
                forall|j: int| 0 <= j < out@.len() ==> (#[trigger] out@[j]).carries(
                    self@,
                    out@[j].envelope.to,
                    Envelope::offline(out@[j].envelope.to, client_id),
                ),
                forall|j: int| 0 <= j < out@.len() ==> exists|k: int| 0 <= k < i && members@[k] == (#[trigger] out@[j]).envelope.to,
                forall|k: int| 0 <= k < i && self@.sessions.contains_key(#[trigger] members@[k]) ==> recipients(out@).contains(members@[k]),
                recipients(out@).no_duplicates(),
            decreases members@.len() - i,
        {
            let member = members[i];
            let ghost before = out@;
            match self.sessions.lookup(member) {
                Some(handle) => {
                    out.push(Delivery { handle, envelope: Envelope::offline(member, client_id) });
                    proof {
                        assert(recipients(out@) =~= recipients(before).push(member));
                        assert forall|j: int| 0 <= j < before.len() implies recipients(before)[j] != member by {
                            let k = choose|k: int| 0 <= k < i && members@[k] == before[j].envelope.to;
                            assert(members@[k] != members@[i as int]);
                        }
                        assert forall|k: int| 0 <= k < i + 1 && self@.sessions.contains_key(#[trigger] members@[k])
                            implies recipients(out@).contains(members@[k]) by {
                            if k < i {
                                let j = choose|j: int| 0 <= j < recipients(before).len() && recipients(before)[j] == members@[k];
                                assert(recipients(out@)[j] == members@[k]);
                            } else {
                                assert(recipients(out@)[before.len() as int] == member);
                            }
                        }
                    }
                },
                None => {},
            }
            i += 1;
        }
        out
    }

    /// Forgets a disconnected peer and tells its group. The peer's session is
    /// removed; where a host is named, the peer leaves that host's group and
    /// every remaining member that still has a session gets one `Offline`
    /// notice. The result lists those notices, in no particular order.
    pub fn handle_disconnect(&mut self, msg: Disconnect) -> (out: Vec<Delivery<'_, H>>)
        ensures
            final(self)@ == old(self)@.after_disconnect(msg.client_id, msg.host_id),
            offline_notices(old(self)@, msg.client_id, msg.host_id, out@),
    {
        self.sessions.remove(msg.client_id);
        let remaining = self.groups.remove_member_everywhere(msg.client_id, msg.host_id);
        let out = self.notices_for(&remaining, msg.client_id);
        assert(recipients(out@).to_set() =~= old(self)@.notified_of_disconnect(msg.client_id, msg.host_id));
        out
    }

    /// Routes one envelope. A successful join result makes its recipient a
    /// member of its sender's group. Whatever the payload, the envelope is
    /// then forwarded unchanged to its recipient if that peer has a session,
    /// and dropped if not.
    pub fn handle_envelope(&mut self, msg: Envelope) -> (out: Option<Delivery<'_, H>>)
        ensures
            final(self)@ == old(self)@.after_envelope(msg),
            (match out {
                Some(delivery) => delivery.carries(final(self)@, msg.to, msg),
                None => final(self)@.handle_for(msg.to) is None,
            }),
    {
        match msg.join_host() {
            Some(host) => {
                self.groups.add_member(host, msg.to);
            },
            None => {},
        }
        let target = msg.to;
        self.send_to_target(msg, target)
    }

    /// Handles one event of any kind: changes the tables as the event asks
    /// and returns the deliveries it causes.
    pub fn handle(&mut self, event: Event<H>) -> (out: Vec<Delivery<'_, H>>)
        ensures
            final(self)@ == old(self)@.after(event),
            owed(old(self)@, event, out@),
    {
        match event {
            Event::Connect(msg) => {
                self.handle_connect(msg);
                Vec::new()
            },
            Event::Disconnect(msg) => self.handle_disconnect(msg),
            Event::Envelope(msg) => {
                let mut out: Vec<Delivery<'_, H>> = Vec::new();
                match self.handle_envelope(msg) {
                    Some(delivery) => {
                        out.push(delivery);
                    },
                    None => {},
                }
                out
            },
        }
    }
}

} // verus!
