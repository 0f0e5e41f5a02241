//! Peers, and what is known of them.

use crate::primitives::PeerId;
use vstd::prelude::*;

verus! {

/// A network of the node.
#[derive(Clone, Copy, Debug, PartialEq, Eq, Structural)]
pub enum NetworkId {
    /// The network of the validators.
    Validator,
    /// The network between a validator and its own fullnode.
    Vfn,
    /// The public network.
    Public,
}

/// The role of a peer.
#[derive(Clone, Copy, Debug, PartialEq, Eq, Structural)]
pub enum PeerRole {
    /// A validator.
    Validator,
    /// A peer that is preferred over unknown ones.
    PreferredUpstream,
    /// A peer to get data from.
    Upstream,
    /// The fullnode of a validator.
    ValidatorFullNode,
    /// A peer to give data to.
    Downstream,
    /// A peer that is known from the configuration.
    Known,
    /// Any other peer.
    Unknown,
}

/// Who opened a connection.
#[derive(Clone, Copy, Debug, PartialEq, Eq, Structural)]
pub enum ConnectionOrigin {
    /// The peer.
    Inbound,
    /// This node.
    Outbound,
}

/// Whether a connection is up.
#[derive(Clone, Copy, Debug, PartialEq, Eq, Structural)]
pub enum ConnectionState {
    /// It is up.
    Connected,
    /// It is being closed.
    Disconnecting,
    /// It is down.
    Disconnected,
}

/// A peer in a network.
#[derive(Clone, Copy, Debug)]
pub struct PeerNetworkId {
    /// The network.
    pub network_id: NetworkId,
    /// The peer.
    pub peer_id: PeerId,
}

impl PartialEq for PeerNetworkId {
    fn eq(&self, other: &PeerNetworkId) -> (result: bool) {
        self.network_id == other.network_id && self.peer_id == other.peer_id
    }
}

impl vstd::std_specs::cmp::PartialEqSpecImpl for PeerNetworkId {
    open spec fn obeys_eq_spec() -> bool {
        true
    }

    open spec fn eq_spec(&self, other: &PeerNetworkId) -> bool {
        *self == *other
    }
}

impl PeerNetworkId {
    /// Names a peer in a network.
    pub fn new(network_id: NetworkId, peer_id: PeerId) -> (result: PeerNetworkId)
        ensures
            result == (PeerNetworkId { network_id, peer_id }),
    {
        PeerNetworkId { network_id, peer_id }
    }
}

/// What is known of the connection to a peer.
#[derive(Clone, Copy, Debug)]
pub struct PeerMetadata {
    /// Whether the connection is up.
    pub connection_state: ConnectionState,
    /// The peer at the other end.
    pub remote_peer_id: PeerId,
    /// Who opened the connection.
    pub origin: ConnectionOrigin,
    /// The role of the peer.
    pub role: PeerRole,
    /// Whether the peer takes monitoring requests.
    pub monitoring_supported: bool,
}

impl PartialEq for PeerMetadata {
    fn eq(&self, other: &PeerMetadata) -> (result: bool) {
        self.connection_state == other.connection_state && self.remote_peer_id
            == other.remote_peer_id && self.origin == other.origin && self.role == other.role
            && self.monitoring_supported == other.monitoring_supported
    }
}

impl vstd::std_specs::cmp::PartialEqSpecImpl for PeerMetadata {
    open spec fn obeys_eq_spec() -> bool {
        true
    }

    open spec fn eq_spec(&self, other: &PeerMetadata) -> bool {
        *self == *other
    }
}

/// A map from peers to what is known of them. Of several entries for a peer, the last one counts.
pub struct PeerMap<V> {
    entries: Vec<(PeerNetworkId, V)>,
}

/// The map that a list of entries stands for.
pub open spec fn map_of<V>(entries: Seq<(PeerNetworkId, V)>) -> Map<PeerNetworkId, V>
    decreases entries.len(),
{
    if entries.len() == 0 {
        Map::empty()
    } else {
        map_of(entries.drop_last()).insert(entries.last().0, entries.last().1)
    }
}

/// Exactly the peers with an entry are in the map.
proof fn lemma_domain<V>(entries: Seq<(PeerNetworkId, V)>)
    ensures
        forall|peer: PeerNetworkId|
            #[trigger] map_of(entries).dom().contains(peer) <==> exists|i: int|
                0 <= i < entries.len() && (#[trigger] entries[i]).0 == peer,
    decreases entries.len(),
{
    if entries.len() > 0 {
        let rest = entries.drop_last();
        lemma_domain(rest);
        assert forall|peer: PeerNetworkId| #[trigger]
            map_of(entries).dom().contains(peer) <==> exists|i: int|
                0 <= i < entries.len() && (#[trigger] entries[i]).0 == peer by {
            if map_of(entries).dom().contains(peer) {
                if peer == entries.last().0 {
                    assert(entries[entries.len() - 1].0 == peer);
                } else {
                    assert(map_of(rest).dom().contains(peer));
                    let i = choose|i: int| 0 <= i < rest.len() && (#[trigger] rest[i]).0 == peer;
                    assert(entries[i].0 == peer);
                }
            }
            if exists|i: int| 0 <= i < entries.len() && (#[trigger] entries[i]).0 == peer {
                let i = choose|i: int| 0 <= i < entries.len() && (#[trigger] entries[i]).0 == peer;
                if i < entries.len() - 1 {
                    assert(rest[i].0 == peer);
                    assert(map_of(rest).dom().contains(peer));
                }
            }
        }
    }
}

/// Entries after the last one for a peer make no difference to it.
proof fn lemma_last_entry_counts<V>(entries: Seq<(PeerNetworkId, V)>, at: int)
    requires
        0 <= at < entries.len(),
        forall|i: int| at < i < entries.len() ==> (#[trigger] entries[i]).0 != entries[at].0,
    ensures
        map_of(entries).dom().contains(entries[at].0),
        map_of(entries)[entries[at].0] == entries[at].1,
    decreases entries.len(),
{
    if at < entries.len() - 1 {
        assert(entries[entries.len() - 1].0 != entries[at].0);
        let rest = entries.drop_last();
        assert forall|i: int| at < i < rest.len() implies (#[trigger] rest[i]).0 != rest[at].0 by {
            assert(entries[i].0 != entries[at].0);
        }
        lemma_last_entry_counts(rest, at);
    }
}

/// Replacing the last entry for a peer replaces what the map says of it.
proof fn lemma_replace_last_entry<V>(entries: Seq<(PeerNetworkId, V)>, at: int, value: V)
    requires
        0 <= at < entries.len(),
        forall|i: int| at < i < entries.len() ==> (#[trigger] entries[i]).0 != entries[at].0,
    ensures
        map_of(entries.update(at, (entries[at].0, value))) =~= map_of(entries).insert(
            entries[at].0,
            value,
        ),
    decreases entries.len(),
{
    let replaced = entries.update(at, (entries[at].0, value));
    let rest = entries.drop_last();
    if at < entries.len() - 1 {
        assert(entries[entries.len() - 1].0 != entries[at].0);
        assert forall|i: int| at < i < rest.len() implies (#[trigger] rest[i]).0 != rest[at].0 by {
            assert(entries[i].0 != entries[at].0);
        }
        lemma_replace_last_entry(rest, at, value);
        assert(replaced.drop_last() =~= rest.update(at, (rest[at].0, value)));
    } else {
        assert(replaced.drop_last() =~= rest);
    }
}

impl<V> View for PeerMap<V> {
    type V = Map<PeerNetworkId, V>;

    closed spec fn view(&self) -> Map<PeerNetworkId, V> {
        map_of(self.entries@)
    }
}

impl<V> PeerMap<V> {
    /// Makes a map without entries.
    pub fn new() -> (result: PeerMap<V>)
        ensures
            result@ == Map::<PeerNetworkId, V>::empty(),
    {
        PeerMap { entries: Vec::new() }
    }

    /// Returns whether nothing is known of any peer.
    pub fn is_empty(&self) -> (result: bool)
        ensures
            result == (self@ == Map::<PeerNetworkId, V>::empty()),
    {
        proof {
            lemma_domain(self.entries@);
            if self.entries@.len() > 0 {
                let first = self.entries@[0].0;
                assert(map_of(self.entries@).dom().contains(first));
                assert(!Map::<PeerNetworkId, V>::empty().dom().contains(first));
            }
        }
        self.entries.len() == 0
    }

    /// Returns the index of the last entry for a peer.
    fn position(&self, peer: &PeerNetworkId) -> (result: Option<usize>)
        ensures
            match result {
                Some(index) => {
                    &&& index < self.entries@.len()
                    &&& self.entries@[index as int].0 == *peer
                    &&& forall|i: int|
                        index < i < self.entries@.len() ==> (#[trigger] self.entries@[i]).0 != *peer
                },
                None => forall|i: int|
                    0 <= i < self.entries@.len() ==> (#[trigger] self.entries@[i]).0 != *peer,
            },
    {
        let mut index: usize = self.entries.len();
        while index > 0
            invariant
                0 <= index <= self.entries@.len(),
                forall|i: int|
                    index <= i < self.entries@.len() ==> (#[trigger] self.entries@[i]).0 != *peer,
            decreases index,
        {
            index = index - 1;
            if self.entries[index].0 == *peer {
                return Some(index);
            }
        }
        None
    }

    /// Records what is known of a peer, in place of what was known before.
    pub fn insert(&mut self, peer: PeerNetworkId, value: V)
        ensures
            final(self)@ == old(self)@.insert(peer, value),
    {
        match self.position(&peer) {
            Some(index) => {
                proof {
                    lemma_replace_last_entry(self.entries@, index as int, value);
                }
                self.entries[index] = (peer, value);
            },
            None => {
                self.entries.push((peer, value));
                assert(self.entries@.drop_last() =~= old(self).entries@);
            },
        }
    }

    /// Returns what is known of a peer.
    pub fn get(&self, peer: &PeerNetworkId) -> (result: Option<&V>)
        ensures
            match result {
                Some(value) => self@.dom().contains(*peer) && *value == self@[*peer],
                None => !self@.dom().contains(*peer),
            },
    {
        match self.position(peer) {
            Some(index) => {
                proof {
                    lemma_last_entry_counts(self.entries@, index as int);
                }
                Some(&self.entries[index].1)
            },
            None => {
                proof {
                    lemma_domain(self.entries@);
                }
                None
            },
        }
    }
}

impl PeerMap<PeerMetadata> {
    /// Returns whether all that this map says, `other` says as well.
    fn agrees_with(&self, other: &PeerMap<PeerMetadata>) -> (result: bool)
        ensures
            result == (forall|peer: PeerNetworkId|
                #[trigger] self@.dom().contains(peer) ==> other@.dom().contains(peer)
                    && other@[peer] == self@[peer]),
    {
        proof {
            lemma_domain(self.entries@);
        }
        let mut index: usize = 0;
        while index < self.entries.len()
            invariant
                0 <= index <= self.entries@.len(),
                forall|peer: PeerNetworkId|
                    #[trigger] self@.dom().contains(peer) <==> exists|i: int|
                        0 <= i < self.entries@.len() && (#[trigger] self.entries@[i]).0 == peer,
                forall|i: int|
                    #![trigger self.entries@[i]]
                    0 <= i < index ==> other@.dom().contains(self.entries@[i].0)
                        && other@[self.entries@[i].0] == self@[self.entries@[i].0],
            decreases self.entries@.len() - index,
        {
            let peer: PeerNetworkId = self.entries[index].0;
            assert(self@.dom().contains(self.entries@[index as int].0));
            match (self.get(&peer), other.get(&peer)) {
                (Some(mine), Some(theirs)) => {
                    if *mine != *theirs {
                        return false;
                    }
                },
                _ => {
                    return false;
                },
            }
            index = index + 1;
        }
        true
    }

    /// Returns whether two maps say the same.
    pub fn same_as(&self, other: &PeerMap<PeerMetadata>) -> (result: bool)
        ensures
            result == (self@ == other@),
    {
        let result: bool = self.agrees_with(other) && other.agrees_with(self);
        proof {
            if result {
                assert forall|peer: PeerNetworkId| #[trigger]
                    self@.dom().contains(peer) <==> other@.dom().contains(peer) by {}
                assert(self@ =~= other@);
            }
        }
        result
    }

    /// Returns a map that says the same.
    pub fn duplicate(&self) -> (result: PeerMap<PeerMetadata>)
        ensures
            result@ == self@,
    {
        let mut entries: Vec<(PeerNetworkId, PeerMetadata)> = Vec::new();
        let mut index: usize = 0;
        while index < self.entries.len()
            invariant
                0 <= index <= self.entries@.len(),
                entries@ =~= self.entries@.take(index as int),
            decreases self.entries@.len() - index,
        {
            entries.push((self.entries[index].0, self.entries[index].1));
            index = index + 1;
        }
        assert(entries@ =~= self.entries@);
        PeerMap { entries }
    }
}

} // verus!
