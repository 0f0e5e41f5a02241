//! What has been learned of the peers, and checks of it.

use crate::monitoring::messages::NetworkInformationResponse;
use crate::monitoring::peers::{PeerMap, PeerMetadata, PeerNetworkId};
use crate::monitoring::request_tracker::RequestTracker;
use crate::primitives::Instant;
use vstd::prelude::*;

verus! {

/// The kinds of state that are kept for a peer.
#[derive(Clone, Copy, Debug, PartialEq, Eq, Structural)]
pub enum PeerStateKey {
    /// The latency of the peer.
    LatencyInfo,
    /// The network of the peer.
    NetworkInfo,
}

impl PeerStateKey {
    /// Returns all kinds of state.
    pub fn get_all_keys() -> (result: Vec<PeerStateKey>)
        ensures
            result@ == seq![PeerStateKey::LatencyInfo, PeerStateKey::NetworkInfo],
    {
        let mut keys: Vec<PeerStateKey> = Vec::new();
        keys.push(PeerStateKey::LatencyInfo);
        keys.push(PeerStateKey::NetworkInfo);
        assert(keys@ =~= seq![PeerStateKey::LatencyInfo, PeerStateKey::NetworkInfo]);
        keys
    }
}

/// What is known of the latency of a peer.
pub struct LatencyInfoState<C> {
    /// The number of latency pings that are on record.
    pub num_recorded_latency_pings: usize,
    /// The tracker of the latency pings.
    pub request_tracker: RequestTracker<C>,
}

/// What is known of the network of a peer.
pub struct NetworkInfoState<C> {
    /// The last information that the peer gave.
    pub latest_network_info_response: Option<NetworkInformationResponse>,
    /// The tracker of the requests for information.
    pub request_tracker: RequestTracker<C>,
}

/// What is known of a peer.
pub struct PeerState<C> {
    /// What is known of its latency.
    pub latency_info_state: Option<LatencyInfoState<C>>,
    /// What is known of its network.
    pub network_info_state: Option<NetworkInfoState<C>>,
}

impl<C> PeerState<C> {
    /// The tracker of the requests for a kind of state.
    pub open spec fn tracker(self, key: PeerStateKey) -> Option<RequestTracker<C>> {
        match key {
            PeerStateKey::LatencyInfo => match self.latency_info_state {
                Some(state) => Some(state.request_tracker),
                None => None,
            },
            PeerStateKey::NetworkInfo => match self.network_info_state {
                Some(state) => Some(state.request_tracker),
                None => None,
            },
        }
    }

    /// Returns the tracker of the requests for a kind of state.
    pub fn get_request_tracker(&self, key: PeerStateKey) -> (result: Option<&RequestTracker<C>>)
        ensures
            match result {
                Some(tracker) => self.tracker(key) == Some(*tracker),
                None => self.tracker(key) is None,
            },
    {
        match key {
            PeerStateKey::LatencyInfo => match &self.latency_info_state {
                Some(state) => Some(&state.request_tracker),
                None => None,
            },
            PeerStateKey::NetworkInfo => match &self.network_info_state {
                Some(state) => Some(&state.request_tracker),
                None => None,
            },
        }
    }
}

/// What is known of all peers.
pub struct PeerMonitorState<C> {
    /// What is known of each peer.
    pub peer_states: PeerMap<PeerState<C>>,
}

impl<C> PeerMonitorState<C> {
    /// What is known of a peer.
    pub open spec fn state_of(self, peer: PeerNetworkId) -> Option<PeerState<C>> {
        if self.peer_states@.dom().contains(peer) {
            Some(self.peer_states@[peer])
        } else {
            None
        }
    }

    /// The tracker of the requests to a peer for a kind of state.
    pub open spec fn tracker_of(self, peer: PeerNetworkId, key: PeerStateKey) -> Option<
        RequestTracker<C>,
    > {
        match self.state_of(peer) {
            Some(state) => state.tracker(key),
            None => None,
        }
    }

    /// Makes a state in which nothing is known of any peer.
    pub fn new() -> (result: PeerMonitorState<C>)
        ensures
            result.peer_states@ == Map::<PeerNetworkId, PeerState<C>>::empty(),
    {
        PeerMonitorState { peer_states: PeerMap::new() }
    }

    fn get_request_tracker(&self, peer: &PeerNetworkId, key: PeerStateKey) -> (result: Option<
        &RequestTracker<C>,
    >)
        ensures
            match result {
                Some(tracker) => self.tracker_of(*peer, key) == Some(*tracker),
                None => self.tracker_of(*peer, key) is None,
            },
    {
        match self.peer_states.get(peer) {
            Some(state) => state.get_request_tracker(key),
            None => None,
        }
    }
}

/// Verifies that nothing is known of any peer.
pub fn verify_empty_peer_states<C>(peer_monitor_state: &PeerMonitorState<C>) -> (result: bool)
    ensures
        result == (forall|peer: PeerNetworkId| peer_monitor_state.state_of(peer) is None),
        result == (peer_monitor_state.peer_states@ == Map::<PeerNetworkId, PeerState<C>>::empty()),
{
    let result: bool = peer_monitor_state.peer_states.is_empty();
    proof {
        if forall|peer: PeerNetworkId| peer_monitor_state.state_of(peer) is None {
            assert forall|peer: PeerNetworkId|
                !peer_monitor_state.peer_states@.dom().contains(peer) by {
                assert(peer_monitor_state.state_of(peer) is None);
            }
            assert(peer_monitor_state.peer_states@ =~= Map::empty());
        }
    }
    result
}

/// The latency of `peer` is known, with this number of pings on record and this number of
/// failures since the last one.
pub open spec fn latency_state_is<C>(
    peer_monitor_state: PeerMonitorState<C>,
    peer: PeerNetworkId,
    num_recorded_latency_pings: int,
    num_consecutive_failures: int,
) -> bool {
    &&& peer_monitor_state.state_of(peer) matches Some(state)
    &&& state.latency_info_state matches Some(latency)
    &&& latency.num_recorded_latency_pings == num_recorded_latency_pings
    &&& latency.request_tracker@.num_consecutive_failures == num_consecutive_failures
}

/// Verifies the latency state of a peer.
pub fn verify_peer_latency_state<C>(
    peer_monitor_state: &PeerMonitorState<C>,
    peer_network_id: &PeerNetworkId,
    expected_num_recorded_latency_pings: u64,
    expected_num_consecutive_failures: u64,
) -> (result: bool)
    ensures
        result == latency_state_is(
            *peer_monitor_state,
            *peer_network_id,
            expected_num_recorded_latency_pings as int,
            expected_num_consecutive_failures as int,
        ),
{
    match peer_monitor_state.peer_states.get(peer_network_id) {
        Some(state) => match &state.latency_info_state {
            Some(latency) => latency.num_recorded_latency_pings as u64
                == expected_num_recorded_latency_pings
                && latency.request_tracker.get_num_consecutive_failures()
                == expected_num_consecutive_failures,
            None => false,
        },
        None => false,
    }
}

/// The last information that `peer` gave of its network is this.
pub open spec fn network_state_is<C>(
    peer_monitor_state: PeerMonitorState<C>,
    peer: PeerNetworkId,
    connected_peers_and_metadata: Map<PeerNetworkId, PeerMetadata>,
    distance_from_validators: int,
) -> bool {
    &&& peer_monitor_state.state_of(peer) matches Some(state)
    &&& state.network_info_state matches Some(network)
    &&& network.latest_network_info_response matches Some(response)
    &&& response@.connected_peers_and_metadata == connected_peers_and_metadata
    &&& response@.distance_from_validators == distance_from_validators
}

/// Verifies the network state of a peer.
pub fn verify_peer_network_state<C>(
    peer_monitor_state: &PeerMonitorState<C>,
    peer_network_id: &PeerNetworkId,
    expected_connected_peers_and_metadata: &PeerMap<PeerMetadata>,
    expected_distance_from_validators: u64,
) -> (result: bool)
    ensures
        result == network_state_is(
            *peer_monitor_state,
            *peer_network_id,
            expected_connected_peers_and_metadata@,
            expected_distance_from_validators as int,
        ),
{
    match peer_monitor_state.peer_states.get(peer_network_id) {
        Some(state) => match &state.network_info_state {
            Some(network) => match &network.latest_network_info_response {
                Some(response) => response.connected_peers_and_metadata.same_as(
                    expected_connected_peers_and_metadata,
                ) && response.distance_from_validators == expected_distance_from_validators,
                None => false,
            },
            None => false,
        },
        None => false,
    }
}

/// Verifies all that is known of a peer, after a latency ping that did not fail.
pub fn verify_peer_monitor_state<C>(
    peer_monitor_state: &PeerMonitorState<C>,
    peer_network_id: &PeerNetworkId,
    expected_connected_peers_and_metadata: &PeerMap<PeerMetadata>,
    expected_distance_from_validators: u64,
    expected_num_recorded_latency_pings: u64,
) -> (result: bool)
    ensures
        result == (latency_state_is(
            *peer_monitor_state,
            *peer_network_id,
            expected_num_recorded_latency_pings as int,
            0,
        ) && network_state_is(
            *peer_monitor_state,
            *peer_network_id,
            expected_connected_peers_and_metadata@,
            expected_distance_from_validators as int,
        )),
{
    verify_peer_latency_state(
        peer_monitor_state,
        peer_network_id,
        expected_num_recorded_latency_pings,
        0,
    ) && verify_peer_network_state(
        peer_monitor_state,
        peer_network_id,
        expected_connected_peers_and_metadata,
        expected_distance_from_validators,
    )
}

/// Returns whether the latency pings to a peer have failed this many times in a row, or nothing
/// where no latency pings to the peer are tracked.
pub fn latency_ping_failures_reached<C>(
    peer_monitor_state: &PeerMonitorState<C>,
    peer_network_id: &PeerNetworkId,
    num_expected_consecutive_failures: u64,
) -> (result: Option<bool>)
    ensures
        result == (match peer_monitor_state.tracker_of(
            *peer_network_id,
            PeerStateKey::LatencyInfo,
        ) {
            Some(tracker) => Some(
                tracker@.num_consecutive_failures == num_expected_consecutive_failures,
            ),
            None => None,
        }),
{
    match peer_monitor_state.get_request_tracker(peer_network_id, PeerStateKey::LatencyInfo) {
        Some(tracker) => Some(
            tracker.get_num_consecutive_failures() == num_expected_consecutive_failures,
        ),
        None => None,
    }
}

impl<C> PeerMonitorState<C> {
    /// Whether a peer has responded to a request for a kind of state after a moment, or nothing
    /// where no such requests to the peer are tracked.
    pub open spec fn updated_since(
        self,
        time_before_update: Instant,
        peer: PeerNetworkId,
        key: PeerStateKey,
    ) -> Option<bool> {
        match self.tracker_of(peer, key) {
            Some(tracker) => Some(
                tracker@.last_response_time matches Some(last_response_time)
                    && last_response_time.nanos > time_before_update.nanos,
            ),
            None => None,
        }
    }
}

impl<C> PeerMonitorState<C> {
    /// A peer has responded to requests for all these kinds of state after a moment.
    pub open spec fn all_updated_since(
        self,
        time_before_update: Instant,
        peer: PeerNetworkId,
        keys: Seq<PeerStateKey>,
    ) -> bool {
        forall|i: int|
            0 <= i < keys.len() ==> self.updated_since(time_before_update, peer, #[trigger] keys[i])
                == Some(true)
    }

    /// From the key at `from` on, after keys to which the peer has responded after a moment, a key
    /// comes for which no requests to the peer are tracked.
    pub open spec fn comes_to_untracked(
        self,
        time_before_update: Instant,
        peer: PeerNetworkId,
        keys: Seq<PeerStateKey>,
        from: int,
    ) -> bool {
        exists|next: int|
            {
                &&& from <= next < keys.len()
                &&& self.all_updated_since(time_before_update, peer, keys.subrange(from, next))
                &&& self.updated_since(time_before_update, peer, #[trigger] keys[next]) is None
            }
    }
}

/// Returns whether a peer has responded to a request for a kind of state after a moment, or
/// nothing where no such requests to the peer are tracked.
pub fn peer_state_updated_since<C>(
    time_before_update: Instant,
    peer_monitor_state: &PeerMonitorState<C>,
    peer_network_id: &PeerNetworkId,
    peer_state_key: PeerStateKey,
) -> (result: Option<bool>)
    ensures
        result == peer_monitor_state.updated_since(
            time_before_update,
            *peer_network_id,
            peer_state_key,
        ),
{
    match peer_monitor_state.get_request_tracker(peer_network_id, peer_state_key) {
        Some(tracker) => match tracker.get_last_response_time() {
            Some(last_response_time) => Some(last_response_time.nanos > time_before_update.nanos),
            None => Some(false),
        },
        None => None,
    }
}

/// From the key at `from` on, returns where the first key is whose state has not been updated since
/// a moment, or the number of the keys where all have been; or nothing where, before that, a key
/// comes for which no requests to the peer are tracked.
pub fn first_key_not_updated<C>(
    time_before_update: Instant,
    peer_monitor_state: &PeerMonitorState<C>,
    peer_network_id: &PeerNetworkId,
    peer_state_keys: &Vec<PeerStateKey>,
    from: usize,
) -> (result: Option<usize>)
    requires
        from <= peer_state_keys.len(),
    ensures
        match result {
            Some(next) => {
                &&& from <= next <= peer_state_keys.len()
                &&& peer_monitor_state.all_updated_since(
                    time_before_update,
                    *peer_network_id,
                    peer_state_keys@.subrange(from as int, next as int),
                )
                &&& next < peer_state_keys.len() ==> peer_monitor_state.updated_since(
                    time_before_update,
                    *peer_network_id,
                    peer_state_keys@[next as int],
                ) == Some(false)
            },
            None => peer_monitor_state.comes_to_untracked(
                time_before_update,
                *peer_network_id,
                peer_state_keys@,
                from as int,
            ),
        },
{
    let mut next: usize = from;
    while next < peer_state_keys.len()
        invariant
            from <= next <= peer_state_keys.len(),
            peer_monitor_state.all_updated_since(
                time_before_update,
                *peer_network_id,
                peer_state_keys@.subrange(from as int, next as int),
            ),
        decreases peer_state_keys.len() - next,
    {
        let ghost passed = peer_state_keys@.subrange(from as int, next as int);
        let ghost key = peer_state_keys@[next as int];
        match peer_state_updated_since(
            time_before_update,
            peer_monitor_state,
            peer_network_id,
            peer_state_keys[next],
        ) {
            None => {
                return None;
            },
            Some(false) => {
                return Some(next);
            },
            Some(true) => {
                next = next + 1;
                assert(peer_state_keys@.subrange(from as int, next as int) =~= passed.push(key));
            },
        }
    }
    Some(next)
}

} // verus!
