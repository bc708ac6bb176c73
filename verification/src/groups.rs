//! The group membership table: which clients have joined which host.
use vstd::prelude::*;
use std::collections::hash_map::Entry;
use std::collections::HashMap;
use std::collections::HashSet;
use vstd::std_specs::iter::IteratorSpec;
use crate::message::ClientId;

verus! {

broadcast use vstd::std_specs::hash::group_hash_axioms;

/// Maps a host to the set of clients that joined it. A group comes into
/// being with its first member and is kept, possibly empty, once its members
/// have left.
pub struct GroupTable {
    groups: HashMap<ClientId, HashSet<ClientId>>,
}

impl View for GroupTable {
    type V = Map<ClientId, Set<ClientId>>;

    closed spec fn view(&self) -> Map<ClientId, Set<ClientId>> {
        Map::new(|host: ClientId| self.groups@.contains_key(host), |host: ClientId| self.groups@[host]@)
    }
}

/// The members recorded for `host` in `groups`; empty where `host` has no
/// group.
pub open spec fn members_in(groups: Map<ClientId, Set<ClientId>>, host: ClientId) -> Set<ClientId> {
    if groups.contains_key(host) {
        groups[host]
    } else {
        Set::empty()
    }
}

/// `groups` once `member` has joined the group of `host`. The group is
/// created where `host` had none.
pub open spec fn with_member(groups: Map<ClientId, Set<ClientId>>, host: ClientId, member: ClientId) -> Map<
    ClientId,
    Set<ClientId>,
> {
    groups.insert(host, members_in(groups, host).insert(member))
}

/// `groups` once `member` has left the group of `scoped_host`. Nothing
/// changes where no host is named or the host has no group, and no other
/// group is touched.
pub open spec fn without_member(
    groups: Map<ClientId, Set<ClientId>>,
    member: ClientId,
    scoped_host: Option<ClientId>,
) -> Map<ClientId, Set<ClientId>> {
    match scoped_host {
        Some(host) if groups.contains_key(host) => groups.insert(host, groups[host].remove(member)),
        _ => groups,
    }
}

/// Copies the elements of `set` into a vector, each once, in the order in
/// which the set yields them.
fn collect_members(set: &HashSet<ClientId>) -> (members: Vec<ClientId>)
    ensures
        members@.no_duplicates(),
        members@.to_set() == set@,
{
    let mut members: Vec<ClientId> = Vec::new();
    let ghost keys: Seq<ClientId> = set.iter().remaining().unref();
    assert(keys.no_duplicates()) by {
        let refs = set.iter().remaining();
        assert forall|i: int, j: int| 0 <= i < keys.len() && 0 <= j < keys.len() && i != j implies keys[i] != keys[j] by {
            assert(refs[i] != refs[j]);
        }
    }
    for member in it: set.iter()
        invariant
            it.seq().unref() == keys,
            members@ == keys.take(it.index()),
    {
        members.push(*member);
    }
    assert(members@ == keys);
    members
}

impl GroupTable {
    /// A table without groups.
    pub fn new() -> (table: Self)
        ensures
            table@ == Map::<ClientId, Set<ClientId>>::empty(),
    {
        GroupTable { groups: HashMap::new() }
    }

    /// Makes `member` a member of the group of `host`, creating the group if
    /// need be. Adding a member twice changes nothing.
    pub fn add_member(&mut self, host: ClientId, member: ClientId)
        ensures
            final(self)@ == with_member(old(self)@, host, member),
    {
        let set = self.groups.entry(host).or_insert(HashSet::new());
        set.insert(member);
    }

    /// Takes `member` out of the group of `scoped_host` and returns the
    /// members that remain there, each once. Without a host, or with a host
    /// that has no group, nothing changes and nothing is returned: other
    /// groups are never searched.
    pub fn remove_member_everywhere(&mut self, member: ClientId, scoped_host: Option<ClientId>) -> (remaining: Vec<ClientId>)
        ensures
            final(self)@ == without_member(old(self)@, member, scoped_host),
            remaining@.no_duplicates(),
            remaining@.to_set() == (match scoped_host {
                Some(host) => members_in(old(self)@, host).remove(member),
                None => Set::<ClientId>::empty(),
            }),
    {
        match scoped_host {
            Some(host) => match self.groups.entry(host) {
                Entry::Occupied(mut group) => {
                    let set = group.get_mut();
                    set.remove(&member);
                    collect_members(set)
                },
                Entry::Vacant(_) => Vec::new(),
            },
            None => Vec::new(),
        }
    }

    /// The members of the group of `host`, each once; empty where `host` has
    /// no group.
    pub fn members_of(&self, host: ClientId) -> (members: Vec<ClientId>)
        ensures
            members@.no_duplicates(),
            members@.to_set() == members_in(self@, host),
    {
        match self.groups.get(&host) {
            Some(set) => collect_members(set),
            None => Vec::new(),
        }
    }
}

} // verus!
