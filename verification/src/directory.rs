//! The session directory: which delivery handle belongs to which client.
use vstd::prelude::*;
use std::collections::HashMap;
use crate::message::ClientId;

verus! {

broadcast use vstd::std_specs::hash::group_hash_axioms;

/// Maps each registered client to the handle through which envelopes reach
/// it. `H` is whatever capability the transport hands over on accept; the
/// directory stores it and hands out references, nothing more.
pub struct SessionDirectory<H> {
    handles: HashMap<ClientId, H>,
}

impl<H> View for SessionDirectory<H> {
    type V = Map<ClientId, H>;

    closed spec fn view(&self) -> Map<ClientId, H> {
        self.handles@
    }
}

impl<H> SessionDirectory<H> {
    /// A directory without sessions.
    pub fn new() -> (dir: Self)
        ensures
            dir@ == Map::<ClientId, H>::empty(),
    {
        SessionDirectory { handles: HashMap::new() }
    }

    /// Inserts the session of `id`, replacing an earlier one: the last
    /// registration wins.
    pub fn register(&mut self, id: ClientId, handle: H)
        ensures
            final(self)@ == old(self)@.insert(id, handle),
    {
        self.handles.insert(id, handle);
    }

    /// Deletes the session of `id` if there is one.
    pub fn remove(&mut self, id: ClientId)
        ensures
            final(self)@ == old(self)@.remove(id),
    {
        self.handles.remove(&id);
    }

    /// The handle registered for `id`, if any.
    pub fn lookup(&self, id: ClientId) -> (handle: Option<&H>)
        ensures
            handle == (if self@.contains_key(id) {
                Some(&self@[id])
            } else {
                None
            }),
    {
        self.handles.get(&id)
    }
}

} // verus!
