//! What the checks of the peers' states and the stand-in for the peers answer, told from their
//! arguments alone.

use crate::monitoring::messages::{
    LatencyPingRequest, NetworkInformationResponse, PeerMonitoringServiceMessage,
    PeerMonitoringServiceRequest, PeerMonitoringServiceResponse,
};
use crate::monitoring::mock_server::{
    verify_latency_request_and_respond, verify_network_info_request_and_respond,
    MockMonitoringServer, MockServerFault, NetworkRequest, PeerManagerRequest, RequestRound,
};
use crate::monitoring::peer_states::{
    first_key_not_updated, latency_ping_failures_reached, peer_state_updated_since,
    verify_empty_peer_states, verify_peer_latency_state, verify_peer_monitor_state,
    verify_peer_network_state, PeerMonitorState, PeerState, PeerStateKey,
};
use crate::monitoring::peers::{
    ConnectionOrigin, ConnectionState, NetworkId, PeerMap, PeerMetadata, PeerNetworkId, PeerRole,
};
use crate::monitoring::request_tracker::RequestTracker;
use crate::primitives::{Instant, PeerId};
use vstd::prelude::*;

verus! {

/// The latency of the peer is known, with so many pings on record and so many failures since the
/// last response.
pub open spec fn latency_is_known<C>(
    state: PeerMonitorState<C>,
    peer: PeerNetworkId,
    pings: int,
    failures: int,
) -> bool {
    &&& state.peer_states@.dom().contains(peer)
    &&& state.peer_states@[peer].latency_info_state matches Some(latency)
    &&& latency.num_recorded_latency_pings == pings
    &&& latency.request_tracker@.num_consecutive_failures == failures
}

/// The network of the peer is known, with these connected peers and at this distance from the
/// validators.
pub open spec fn network_is_known<C>(
    state: PeerMonitorState<C>,
    peer: PeerNetworkId,
    connected: Map<PeerNetworkId, PeerMetadata>,
    distance: int,
) -> bool {
    &&& state.peer_states@.dom().contains(peer)
    &&& state.peer_states@[peer].network_info_state matches Some(network)
    &&& network.latest_network_info_response matches Some(response)
    &&& response.connected_peers_and_metadata@ == connected
    &&& response.distance_from_validators == distance
}

/// The checks of the states accept exactly the expected ones, with every part of them compared.
pub proof fn checks_accept_the_expected_states_only<C>(
    state: PeerMonitorState<C>,
    peer: PeerNetworkId,
    connected: PeerMap<PeerMetadata>,
    distance: u64,
    pings: u64,
    failures: u64,
    empty: bool,
    latency_checked: bool,
    network_checked: bool,
    all_checked: bool,
)
    requires
        call_ensures(verify_empty_peer_states::<C>, (&state,), empty),
        call_ensures(
            verify_peer_latency_state::<C>,
            (&state, &peer, pings, failures),
            latency_checked,
        ),
        call_ensures(
            verify_peer_network_state::<C>,
            (&state, &peer, &connected, distance),
            network_checked,
        ),
        call_ensures(
            verify_peer_monitor_state::<C>,
            (&state, &peer, &connected, distance, pings),
            all_checked,
        ),
    ensures
        empty <==> (forall|other: PeerNetworkId|
            !#[trigger] state.peer_states@.dom().contains(other)),
        latency_checked <==> latency_is_known(state, peer, pings as int, failures as int),
        network_checked <==> network_is_known(state, peer, connected@, distance as int),
        all_checked <==> latency_is_known(state, peer, pings as int, 0) && network_is_known(
            state,
            peer,
            connected@,
            distance as int,
        ),
{
    if forall|other: PeerNetworkId| !#[trigger] state.peer_states@.dom().contains(other) {
        assert(state.peer_states@ =~= Map::empty());
    }
}

/// The tracker of a kind of state is the one that stands with that state.
pub proof fn each_kind_of_state_has_its_own_tracker<C>(
    state: PeerState<C>,
    key: PeerStateKey,
    tracker: Option<&RequestTracker<C>>,
)
    requires
        call_ensures(PeerState::<C>::get_request_tracker, (&state, key), tracker),
    ensures
        key == PeerStateKey::LatencyInfo ==> match state.latency_info_state {
            Some(latency) => tracker matches Some(found) && *found == latency.request_tracker,
            None => tracker is None,
        },
        key == PeerStateKey::NetworkInfo ==> match state.network_info_state {
            Some(network) => tracker matches Some(found) && *found == network.request_tracker,
            None => tracker is None,
        },
{
}

/// All kinds of state are the latency and the network, each once.
pub proof fn there_are_two_kinds_of_state(keys: Vec<PeerStateKey>)
    requires
        call_ensures(PeerStateKey::get_all_keys, (), keys),
    ensures
        keys@.len() == 2,
        keys@[0] == PeerStateKey::LatencyInfo,
        keys@[1] == PeerStateKey::NetworkInfo,
{
}

/// The tracker of the requests to the peer for a kind of state, as it stands in the fields.
pub open spec fn tracker_in<C>(
    state: PeerMonitorState<C>,
    peer: PeerNetworkId,
    key: PeerStateKey,
) -> Option<RequestTracker<C>> {
    if !state.peer_states@.dom().contains(peer) {
        None
    } else {
        match key {
            PeerStateKey::LatencyInfo => match state.peer_states@[peer].latency_info_state {
                Some(latency) => Some(latency.request_tracker),
                None => None,
            },
            PeerStateKey::NetworkInfo => match state.peer_states@[peer].network_info_state {
                Some(network) => Some(network.request_tracker),
                None => None,
            },
        }
    }
}

/// A wait for failures is over exactly when the tracker of the latency pings has seen so many since
/// the last response, and a wait for an update exactly when the tracker of that kind of state has
/// seen a response after the moment. Without a tracker there is no answer.
pub proof fn waits_go_by_the_trackers<C>(
    state: PeerMonitorState<C>,
    peer: PeerNetworkId,
    failures: u64,
    reached: Option<bool>,
    before: Instant,
    key: PeerStateKey,
    updated: Option<bool>,
)
    requires
        call_ensures(latency_ping_failures_reached::<C>, (&state, &peer, failures), reached),
        call_ensures(peer_state_updated_since::<C>, (before, &state, &peer, key), updated),
    ensures
        match tracker_in(state, peer, PeerStateKey::LatencyInfo) {
            Some(tracker) => reached == Some(tracker@.num_consecutive_failures == failures),
            None => reached is None,
        },
        match tracker_in(state, peer, key) {
            Some(tracker) => match tracker@.last_response_time {
                Some(response) => updated == Some(response.nanos > before.nanos),
                None => updated == Some(false),
            },
            None => updated is None,
        },
{
}

/// The tracker of that kind of state has seen a response after the moment.
pub open spec fn responded_after<C>(
    state: PeerMonitorState<C>,
    peer: PeerNetworkId,
    key: PeerStateKey,
    before: Instant,
) -> bool {
    &&& tracker_in(state, peer, key) matches Some(tracker)
    &&& tracker@.last_response_time matches Some(response)
    &&& response.nanos > before.nanos
}

/// A wait for the updates of several kinds of state goes through them in their order: it passes
/// over those whose tracker has seen a response after the moment, and comes to rest at the first
/// that has not. Where that one has no tracker, there is no answer.
pub proof fn wait_rests_at_the_first_missing_update<C>(
    before: Instant,
    state: PeerMonitorState<C>,
    peer: PeerNetworkId,
    keys: Vec<PeerStateKey>,
    from: usize,
    rest: int,
    result: Option<usize>,
)
    requires
        call_ensures(first_key_not_updated::<C>, (before, &state, &peer, &keys, from), result),
        from <= rest <= keys@.len(),
        forall|i: int| from <= i < rest ==> responded_after(state, peer, #[trigger] keys@[i], before),
        rest < keys@.len() ==> !responded_after(state, peer, keys@[rest], before),
    ensures
        rest == keys@.len() || tracker_in(state, peer, keys@[rest]) is Some ==> (
        result matches Some(next) && next == rest),
        rest < keys@.len() && tracker_in(state, peer, keys@[rest]) is None ==> result is None,
{
    match result {
        Some(next) => {
            if next < rest {
                assert(responded_after(state, peer, keys@[next as int], before));
            }
            if rest < next {
                let passed = keys@.subrange(from as int, next as int);
                assert(passed[rest - from] == keys@[rest]);
            }
        },
        None => {
            let next = choose|next: int|
                {
                    &&& from <= next < keys@.len()
                    &&& state.all_updated_since(before, peer, keys@.subrange(from as int, next))
                    &&& state.updated_since(before, peer, #[trigger] keys@[next]) is None
                };
            if next < rest {
                assert(responded_after(state, peer, keys@[next], before));
            }
            if rest < next {
                let passed = keys@.subrange(from as int, next);
                assert(passed[rest - from] == keys@[rest]);
            }
        },
    }
}

/// A latency ping is answered exactly if it has the expected counter: with its own counter, or with
/// the counter 1010101, or with the protocol version 999, as asked, or not at all. Any other ping
/// is reported with both counters, and any other request as it is.
pub proof fn latency_ping_is_answered_as_asked(
    request: PeerMonitoringServiceRequest,
    expected: u64,
    invalid_counter: bool,
    invalid_message: bool,
    skip: bool,
    result: Result<Option<PeerMonitoringServiceResponse>, MockServerFault>,
)
    requires
        call_ensures(
            verify_latency_request_and_respond,
            (request, expected, invalid_counter, invalid_message, skip),
            result,
        ),
    ensures
        result is Ok <==> request == PeerMonitoringServiceRequest::LatencyPing(
            LatencyPingRequest { ping_counter: expected },
        ),
        result matches Ok(answer) ==> (answer is None <==> skip),
        result matches Ok(Some(response)) ==> {
            &&& invalid_counter ==> (response matches PeerMonitoringServiceResponse::LatencyPing(
                pong,
            ) && pong.ping_counter == 1010101)
            &&& !invalid_counter && invalid_message ==> (
            response matches PeerMonitoringServiceResponse::ServerProtocolVersion(answer)
                && answer.version == 999)
            &&& !invalid_counter && !invalid_message ==> (
            response matches PeerMonitoringServiceResponse::LatencyPing(pong) && pong.ping_counter
                == expected)
        },
        result matches Err(fault) ==> match request {
            PeerMonitoringServiceRequest::LatencyPing(ping) => fault
                == (MockServerFault::WrongPingCounter { expected, actual: ping.ping_counter }),
            _ => fault == MockServerFault::UnexpectedRequest(request),
        },
{
}

/// A request for network information is answered with just the given information, and any other
/// request is reported as it is.
pub proof fn network_information_is_handed_out(
    request: PeerMonitoringServiceRequest,
    information: NetworkInformationResponse,
    result: Result<PeerMonitoringServiceResponse, MockServerFault>,
)
    requires
        call_ensures(verify_network_info_request_and_respond, (request, &information), result),
    ensures
        match result {
            Ok(response) => {
                &&& request is GetNetworkInformation
                &&& response matches PeerMonitoringServiceResponse::NetworkInformation(answer)
                &&& answer.connected_peers_and_metadata@ == information.connected_peers_and_metadata@
                &&& answer.distance_from_validators == information.distance_from_validators
            },
            Err(fault) => request !is GetNetworkInformation && fault
                == MockServerFault::UnexpectedRequest(request),
        },
{
}

/// A round starts with two requests expected and none received. A request that is answered is one
/// less to expect and one more of its kind, and the other kind stays; a ping is answered with its
/// own counter, and a request for information with the given one. A request of another kind is
/// reported as it is.
pub proof fn round_counts_each_request_once(
    start: RequestRound,
    round: RequestRound,
    request: PeerMonitoringServiceRequest,
    information: NetworkInformationResponse,
    result: Result<(RequestRound, PeerMonitoringServiceResponse), MockServerFault>,
)
    requires
        call_ensures(RequestRound::new, (), start),
        round.num_expected_requests > 0,
        round.num_expected_requests + round.num_received_latency_pings
            + round.num_received_network_requests == 2,
        call_ensures(RequestRound::respond, (round, request, &information), result),
    ensures
        start.num_expected_requests == 2,
        start.num_received_latency_pings == 0,
        start.num_received_network_requests == 0,
        round.wf(),
        match request {
            PeerMonitoringServiceRequest::LatencyPing(ping) => {
                &&& result matches Ok((next, response))
                &&& next.num_expected_requests == round.num_expected_requests - 1
                &&& next.num_received_latency_pings == round.num_received_latency_pings + 1
                &&& next.num_received_network_requests == round.num_received_network_requests
                &&& response matches PeerMonitoringServiceResponse::LatencyPing(pong)
                &&& pong.ping_counter == ping.ping_counter
            },
            PeerMonitoringServiceRequest::GetNetworkInformation => {
                &&& result matches Ok((next, response))
                &&& next.num_expected_requests == round.num_expected_requests - 1
                &&& next.num_received_latency_pings == round.num_received_latency_pings
                &&& next.num_received_network_requests == round.num_received_network_requests + 1
                &&& response matches PeerMonitoringServiceResponse::NetworkInformation(answer)
                &&& answer.connected_peers_and_metadata@ == information.connected_peers_and_metadata@
                &&& answer.distance_from_validators == information.distance_from_validators
            },
            _ => result matches Err(fault) && fault == MockServerFault::UnexpectedRequest(request),
        },
{
}

/// A round is passed exactly if one latency ping and one request for network information were
/// received.
pub proof fn round_is_passed_by_one_of_each(
    round: RequestRound,
    result: Result<(), MockServerFault>,
)
    requires
        call_ensures(RequestRound::verify_all_requests, (&round,), result),
    ensures
        result is Ok <==> round.num_received_latency_pings == 1
            && round.num_received_network_requests == 1,
        result matches Err(fault) ==> fault == MockServerFault::NotExactlyOnce,
{
}

/// A stand-in is set up for the given networks, or else for all three, and uses the given network,
/// or else that of the validators. It makes up peers that are connected, that this node connected
/// to, and that take monitoring requests, with the given identity, network and role.
pub proof fn stand_in_is_set_up_as_asked(
    all_networks: Option<Vec<NetworkId>>,
    client_network: Option<NetworkId>,
    server: MockMonitoringServer,
    peer_id: PeerId,
    network_id: NetworkId,
    role: PeerRole,
    peer: PeerNetworkId,
    metadata: PeerMetadata,
)
    requires
        call_ensures(MockMonitoringServer::new, (all_networks, client_network), server),
        call_ensures(
            MockMonitoringServer::add_peer_with_network_id,
            (peer_id, network_id, role),
            (peer, metadata),
        ),
    ensures
        all_networks matches Some(networks) ==> server.networks@ == networks@,
        all_networks is None ==> {
            &&& server.networks@.len() == 3
            &&& server.networks@[0] == NetworkId::Validator
            &&& server.networks@[1] == NetworkId::Vfn
            &&& server.networks@[2] == NetworkId::Public
        },
        client_network matches Some(network) ==> server.network_id == network,
        client_network is None ==> server.network_id == NetworkId::Validator,
        peer.network_id == network_id,
        peer.peer_id == peer_id,
        metadata.remote_peer_id == peer_id,
        metadata.role == role,
        metadata.connection_state == ConnectionState::Connected,
        metadata.origin == ConnectionOrigin::Outbound,
        metadata.monitoring_supported,
{
}

/// A request that the monitor sends is read as it is, under the network of the stand-in; nothing is
/// read where nothing was sent; and what is not a request is reported.
pub proof fn requests_are_read_as_they_are(
    server: MockMonitoringServer,
    received: Option<PeerManagerRequest>,
    result: Result<Option<NetworkRequest>, MockServerFault>,
)
    requires
        call_ensures(MockMonitoringServer::next_request, (&server, received), result),
    ensures
        received is None <==> (result matches Ok(read) && read is None),
        received matches Some(PeerManagerRequest::SendDirectSend) ==> (result matches Err(fault)
            && fault == MockServerFault::UnexpectedDirectSend),
        received matches Some(PeerManagerRequest::SendRpc { peer_id, protocol_id, message }) ==> {
            match message {
                Some(PeerMonitoringServiceMessage::Request(request)) => {
                    &&& result matches Ok(Some(read))
                    &&& read.peer_network_id.network_id == server.network_id
                    &&& read.peer_network_id.peer_id == peer_id
                    &&& read.protocol_id == protocol_id
                    &&& read.peer_monitoring_service_request == request
                },
                Some(PeerMonitoringServiceMessage::Response) => result matches Err(fault) && fault
                    == MockServerFault::UnexpectedMessage,
                None => result matches Err(fault) && fault == MockServerFault::UnreadableMessage,
            }
        },
{
}

/// What is new is empty: a map holds nothing, and a state knows of no peer. A peer in a network is
/// named by just these two.
pub proof fn new_maps_and_states_are_empty<C>(
    map: PeerMap<PeerMetadata>,
    state: PeerMonitorState<C>,
    network_id: NetworkId,
    peer_id: PeerId,
    peer: PeerNetworkId,
    other: PeerNetworkId,
)
    requires
        call_ensures(PeerMap::<PeerMetadata>::new, (), map),
        call_ensures(PeerMonitorState::<C>::new, (), state),
        call_ensures(PeerNetworkId::new, (network_id, peer_id), peer),
    ensures
        !map@.dom().contains(other),
        !state.peer_states@.dom().contains(other),
        peer.network_id == network_id,
        peer.peer_id == peer_id,
{
}

/// What is put into a map for a peer is what the map holds of it then; what it holds of every other
/// peer stays.
pub proof fn insertion_changes_one_peer<V>(
    map: &mut PeerMap<V>,
    peer: PeerNetworkId,
    value: V,
    other: PeerNetworkId,
)
    requires
        call_ensures(PeerMap::<V>::insert, (map, peer, value), ()),
    ensures
        final(map)@.dom().contains(peer),
        final(map)@[peer] == value,
        other != peer ==> final(map)@.dom().contains(other) == old(map)@.dom().contains(other),
        other != peer ==> final(map)@[other] == old(map)@[other],
{
}

/// A map returns what it holds of a peer and nothing for any other; two maps are the same exactly
/// if they hold the same of every peer; and the copy of a map holds the same.
pub proof fn maps_tell_what_they_hold(
    map: PeerMap<PeerMetadata>,
    other: PeerMap<PeerMetadata>,
    peer: PeerNetworkId,
    found: Option<&PeerMetadata>,
    empty: bool,
    same: bool,
    copy: PeerMap<PeerMetadata>,
)
    requires
        call_ensures(PeerMap::<PeerMetadata>::get, (&map, &peer), found),
        call_ensures(PeerMap::<PeerMetadata>::is_empty, (&map,), empty),
        call_ensures(PeerMap::<PeerMetadata>::same_as, (&map, &other), same),
        call_ensures(PeerMap::<PeerMetadata>::duplicate, (&map,), copy),
    ensures
        found is Some <==> map@.dom().contains(peer),
        found matches Some(value) ==> *value == map@[peer],
        empty <==> (forall|p: PeerNetworkId| !#[trigger] map@.dom().contains(p)),
        same <==> (forall|p: PeerNetworkId|
            {
                &&& #[trigger] map@.dom().contains(p) <==> other@.dom().contains(p)
                &&& map@.dom().contains(p) ==> map@[p] == other@[p]
            }),
        copy@ == map@,
{
    if forall|p: PeerNetworkId| !#[trigger] map@.dom().contains(p) {
        assert(map@ =~= Map::empty());
    }
    if forall|p: PeerNetworkId|
        {
            &&& #[trigger] map@.dom().contains(p) <==> other@.dom().contains(p)
            &&& map@.dom().contains(p) ==> map@[p] == other@[p]
        } {
        assert(map@ =~= other@);
    }
}

} // verus!
