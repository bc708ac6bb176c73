//! Laws of the hub's transitions, proved over the abstract state that the
//! server's contracts speak of.
use vstd::prelude::*;
use crate::message::{ClientId, Envelope};
use crate::model::{ever_connected, joins_reach_known_clients, HubState};
use crate::server::{offline_notices, recipients, Delivery, Event};

verus! {

/// Connecting the same client twice with different handles leaves the state
/// that the second connect alone would have produced, and envelopes for that
/// client leave through the second handle.
pub proof fn lemma_connect_last_wins<H>(state: HubState<H>, id: ClientId, first: H, second: H)
    ensures
        state.after_connect(id, first).after_connect(id, second) == state.after_connect(id, second),
        state.after_connect(id, first).after_connect(id, second).handle_for(id) == Some(second),
{
}

/// Disconnecting `client_id` under `host` takes exactly that client out of
/// the host's group and out of the directory. The notice goes to the members
/// that remain and have a session, and never to the client that left.
pub proof fn lemma_disconnect_cleans_group<H>(state: HubState<H>, client_id: ClientId, host: ClientId)
    ensures
        state.after_disconnect(client_id, Some(host)).members_of(host) == state.members_of(host).remove(client_id),
        state.after_disconnect(client_id, Some(host)).handle_for(client_id) is None,
        !state.notified_of_disconnect(client_id, Some(host)).contains(client_id),
        forall|member: ClientId|
            #[trigger] state.notified_of_disconnect(client_id, Some(host)).contains(member) <==> (
                member != client_id
                && state.members_of(host).contains(member)
                && state.after_disconnect(client_id, Some(host)).handle_for(member) is Some
            ),
{
}

/// Of the notices owed for a disconnect under `host`, none goes to the client
/// that left, and every member that remains in the group and has a session is
/// the recipient of exactly one.
pub proof fn lemma_one_notice_for_each_remaining_member<'a, H>(
    before: HubState<H>,
    client_id: ClientId,
    host: ClientId,
    deliveries: Seq<Delivery<'a, H>>,
    member: ClientId,
)
    requires
        offline_notices(before, client_id, Some(host), deliveries),
    ensures
        forall|i: int| 0 <= i < deliveries.len() ==> (#[trigger] deliveries[i]).envelope.to != client_id,
        member != client_id && before.members_of(host).contains(member) && before.sessions.contains_key(member)
            ==> (exists|i: int|
                0 <= i < deliveries.len()
                && (#[trigger] deliveries[i]).envelope == Envelope::offline(member, client_id)
                && (forall|j: int|
                    0 <= j < deliveries.len() && (#[trigger] deliveries[j]).envelope.to == member ==> j == i)
            ),
{
    let to = recipients(deliveries);
    assert forall|i: int| 0 <= i < deliveries.len() implies (#[trigger] deliveries[i]).envelope.to != client_id by {
        assert(to.to_set().contains(to[i]));
    }
    if member != client_id && before.members_of(host).contains(member) && before.sessions.contains_key(member) {
        assert(to.to_set().contains(member));
        let i = choose|i: int| 0 <= i < to.len() && to[i] == member;
        assert(deliveries[i].envelope == Envelope::offline(member, client_id));
        assert forall|j: int| 0 <= j < deliveries.len() && (#[trigger] deliveries[j]).envelope.to == member implies j
            == i by {
            assert(to[j] == to[i]);
        }
    }
}

/// A successful join result from `host` makes its recipient a member of the
/// group of `host`, leaves every other group and every session as it was, and
/// is forwarded to its recipient exactly where that peer has a session.
pub proof fn lemma_join_establishes_membership<H>(state: HubState<H>, envelope: Envelope, host: ClientId)
    requires
        envelope.join_host() == Some(host),
    ensures
        state.after_envelope(envelope).members_of(host) == state.members_of(host).insert(envelope.to),
        state.after_envelope(envelope).members_of(host).contains(envelope.to),
        forall|other: ClientId| other != host ==> #[trigger] state.after_envelope(envelope).members_of(other) == state.members_of(other),
        state.after_envelope(envelope).sessions == state.sessions,
        state.after_envelope(envelope).handle_for(envelope.to) == state.handle_for(envelope.to),
{
}

/// An envelope that is no successful join result changes neither table.
pub proof fn lemma_other_envelopes_change_nothing<H>(state: HubState<H>, envelope: Envelope)
    requires
        envelope.join_host() is None,
    ensures
        state.after_envelope(envelope) == state,
{
}

/// A join result that is handled twice leaves the state that handling it
/// once has produced.
pub proof fn lemma_join_is_idempotent<H>(state: HubState<H>, envelope: Envelope)
    ensures
        state.after_envelope(envelope).after_envelope(envelope) == state.after_envelope(envelope),
{
    let once = state.after_envelope(envelope);
    assert(once.after_envelope(envelope).groups =~~= once.groups);
}

/// An envelope addressed to a client without a session is dropped: no handle
/// is found for it, whether the client has no session yet or has lost it by
/// a disconnect.
pub proof fn lemma_unknown_recipient_is_dropped<H>(
    state: HubState<H>,
    envelope: Envelope,
    host_id: Option<ClientId>,
)
    ensures
        !state.sessions.contains_key(envelope.to) ==> state.after_envelope(envelope).handle_for(envelope.to) is None,
        state.after_disconnect(envelope.to, host_id).after_envelope(envelope).handle_for(envelope.to) is None,
{
}

/// Disconnecting without naming a host leaves every group as it was, also the
/// groups that the client is a member of, and notifies nobody.
pub proof fn lemma_disconnect_without_host_keeps_groups<H>(state: HubState<H>, client_id: ClientId)
    ensures
        state.after_disconnect(client_id, None).groups == state.groups,
        state.notified_of_disconnect(client_id, None) == Set::<ClientId>::empty(),
{
}

/// Two disconnects lead to the same tables in either order.
pub proof fn lemma_disconnects_commute<H>(
    state: HubState<H>,
    first: ClientId,
    first_host: Option<ClientId>,
    second: ClientId,
    second_host: Option<ClientId>,
)
    ensures
        state.after_disconnect(first, first_host).after_disconnect(second, second_host)
            == state.after_disconnect(second, second_host).after_disconnect(first, first_host),
{
    let one = state.after_disconnect(first, first_host).after_disconnect(second, second_host);
    let other = state.after_disconnect(second, second_host).after_disconnect(first, first_host);
    assert(one.groups =~~= other.groups);
}

/// A disconnect that is repeated changes nothing the second time; and
/// disconnecting a client without session, naming no host, changes nothing
/// at all.
pub proof fn lemma_disconnect_is_idempotent<H>(state: HubState<H>, client_id: ClientId, host_id: Option<ClientId>)
    ensures
        state.after_disconnect(client_id, host_id).after_disconnect(client_id, host_id)
            == state.after_disconnect(client_id, host_id),
        !state.sessions.contains_key(client_id) ==> state.after_disconnect(client_id, None) == state,
{
    let once = state.after_disconnect(client_id, host_id);
    let twice = once.after_disconnect(client_id, host_id);
    assert(twice.groups =~~= once.groups);
    if !state.sessions.contains_key(client_id) {
        assert(state.sessions.remove(client_id) =~= state.sessions);
    }
}

/// Membership comes from successful join results alone: whenever an event
/// makes `member` a member of the group of `host`, the event is a successful
/// join result sent by `host` to `member`.
pub proof fn lemma_members_added_only_by_join<H>(state: HubState<H>, event: Event<H>, host: ClientId, member: ClientId)
    requires
        !state.members_of(host).contains(member),
        state.after(event).members_of(host).contains(member),
    ensures
        event.joined() == Some((host, member)),
{
}

/// A session exists only for clients that have connected: after any run of
/// events from the empty state, every client with a session has connected
/// somewhere in the run.
pub proof fn lemma_sessions_were_connected<H>(events: Seq<Event<H>>, id: ClientId)
    requires
        HubState::<H>::empty().after_all(events).sessions.contains_key(id),
    ensures
        ever_connected(events).contains(id),
    decreases events.len(),
{
    if events.len() > 0 {
        let earlier = events.drop_last();
        if events.last().connected() != Some(id) {
            lemma_sessions_were_connected(earlier, id);
            let i = choose|i: int| 0 <= i < earlier.len() && (#[trigger] earlier[i]).connected() == Some(id);
            assert(events[i].connected() == Some(id));
        }
    }
}

/// An envelope addressed to a client that has never connected is dropped,
/// whatever has happened before.
pub proof fn lemma_never_connected_is_never_reached<H>(events: Seq<Event<H>>, envelope: Envelope)
    requires
        !ever_connected(events).contains(envelope.to),
    ensures
        HubState::<H>::empty().after_all(events).after_envelope(envelope).handle_for(envelope.to) is None,
{
    if HubState::<H>::empty().after_all(events).sessions.contains_key(envelope.to) {
        lemma_sessions_were_connected(events, envelope.to);
    }
}

/// Where join results are only ever addressed to clients that have
/// connected before, every member of every group is a client that has
/// connected at some point, though it may have disconnected since.
pub proof fn lemma_members_were_connected<H>(events: Seq<Event<H>>, host: ClientId, member: ClientId)
    requires
        joins_reach_known_clients(events),
        HubState::<H>::empty().after_all(events).members_of(host).contains(member),
    ensures
        ever_connected(events).contains(member),
    decreases events.len(),
{
    if events.len() > 0 {
        let earlier = events.drop_last();
        let last = events.len() - 1;
        let before = HubState::<H>::empty().after_all(earlier);
        assert(earlier =~= events.take(last));
        if before.members_of(host).contains(member) {
            assert forall|i: int| 0 <= i < earlier.len() implies match (#[trigger] earlier[i]).joined() {
                Some((_, joiner)) => ever_connected(earlier.take(i)).contains(joiner),
                None => true,
            } by {
                assert(earlier.take(i) =~= events.take(i));
            }
            lemma_members_were_connected(earlier, host, member);
        } else {
            lemma_members_added_only_by_join(before, events.last(), host, member);
        }
        let i = choose|i: int| 0 <= i < earlier.len() && (#[trigger] earlier[i]).connected() == Some(member);
        assert(events[i].connected() == Some(member));
    }
}

} // verus!
