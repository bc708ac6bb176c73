//! The addressed message unit and the payloads the hub looks into.
use vstd::prelude::*;

verus! {

/// Opaque 128-bit token naming one connected peer session.
pub type ClientId = u128;

/// What an envelope carries.
///
/// The hub reads `JoinResult` and produces `Offline`. Everything else is
/// negotiation traffic between peers and travels as opaque bytes.
#[derive(Clone, Debug, PartialEq, Eq)]
pub enum Payload {
    /// Answer of a host to a join attempt.
    JoinResult { ok: bool },
    /// Notice from the hub that a peer has gone.
    Offline { client_id: ClientId },
    /// Negotiation payload (offer, answer, candidate, ...) that the hub does
    /// not interpret.
    Signal { body: Vec<u8> },
}

/// One message on its way to a single recipient.
#[derive(Clone, Debug, PartialEq, Eq)]
pub struct Envelope {
    /// Originating session; `None` for notices that the hub itself emits.
    pub from: Option<ClientId>,
    /// The one intended recipient.
    pub to: ClientId,
    /// What the message says.
    pub content: Payload,
}

impl Envelope {
    /// The host whose group the recipient joins when this envelope passes the
    /// hub: the sender of a successful join result. `None` for a failed join,
    /// a join result without sender, and every other payload.
    pub open spec fn spec_join_host(&self) -> Option<ClientId> {
        match (self.content, self.from) {
            (Payload::JoinResult { ok: true }, Some(host)) => Some(host),
            _ => None,
        }
    }

    /// The notice that tells `to` that `client_id` has disconnected. It has
    /// no sender: the hub itself emits it.
    pub open spec fn spec_offline(to: ClientId, client_id: ClientId) -> Envelope {
        Envelope { from: None, to, content: Payload::Offline { client_id } }
    }

    /// The host whose group the recipient of this envelope joins, if the
    /// envelope is a successful join result with a sender.
    #[verifier::when_used_as_spec(spec_join_host)]
    pub fn join_host(&self) -> (host: Option<ClientId>)
        ensures
            host == self.spec_join_host(),
    {
        match self.content {
            Payload::JoinResult { ok: true } => self.from,
            _ => None,
        }
    }

    /// Builds the notice that tells `to` that `client_id` has disconnected.
    #[verifier::when_used_as_spec(spec_offline)]
    pub fn offline(to: ClientId, client_id: ClientId) -> (notice: Envelope)
        ensures
            notice == Envelope::spec_offline(to, client_id),
    {
        Envelope { from: None, to, content: Payload::Offline { client_id } }
    }
}

} // verus!
