use aptos_node_services::monitoring::messages::{
    LatencyPingRequest, NetworkInformationResponse, PeerMonitoringServiceMessage,
    PeerMonitoringServiceRequest, PeerMonitoringServiceResponse,
};
use aptos_node_services::monitoring::mock_server::{
    verify_latency_request_and_respond, verify_network_info_request_and_respond,
    MockMonitoringServer, MockServerFault, PeerManagerRequest, RequestRound,
};
use aptos_node_services::monitoring::peer_states::{
    first_key_not_updated, latency_ping_failures_reached, peer_state_updated_since,
    verify_empty_peer_states, verify_peer_latency_state, verify_peer_monitor_state, verify_peer_network_state,
    LatencyInfoState, NetworkInfoState, PeerMonitorState, PeerState, PeerStateKey,
};
use aptos_node_services::monitoring::peers::{
    ConnectionOrigin, ConnectionState, NetworkId, PeerMap, PeerMetadata, PeerNetworkId, PeerRole,
};
use aptos_node_services::monitoring::request_tracker::RequestTracker;
use aptos_node_services::primitives::{Instant, PeerId};

type Clock = fn() -> Instant;

fn clock() -> Instant {
    Instant { nanos: 1000 }
}

fn tracker() -> RequestTracker<Clock> {
    RequestTracker::new(100, clock as Clock)
}

fn peer(byte: u8) -> PeerNetworkId {
    PeerNetworkId::new(NetworkId::Validator, PeerId { bytes: [byte; 32] })
}

fn metadata(byte: u8, state: ConnectionState) -> PeerMetadata {
    PeerMetadata {
        connection_state: state,
        remote_peer_id: PeerId { bytes: [byte; 32] },
        origin: ConnectionOrigin::Inbound,
        role: PeerRole::Unknown,
        monitoring_supported: false,
    }
}

fn connected(bytes: &[u8]) -> PeerMap<PeerMetadata> {
    let mut map = PeerMap::new();
    for byte in bytes {
        map.insert(peer(*byte), metadata(*byte, ConnectionState::Connected));
    }
    map
}

fn ping(ping_counter: u64) -> PeerMonitoringServiceRequest {
    PeerMonitoringServiceRequest::LatencyPing(LatencyPingRequest { ping_counter })
}

fn information(bytes: &[u8]) -> NetworkInformationResponse {
    NetworkInformationResponse {
        connected_peers_and_metadata: connected(bytes),
        distance_from_validators: 3,
    }
}

#[test]
fn peer_map_keeps_the_last_entry() {
    let mut map: PeerMap<u8> = PeerMap::new();
    assert!(map.is_empty());
    assert_eq!(map.get(&peer(1)), None);
    map.insert(peer(1), 10);
    map.insert(peer(2), 20);
    map.insert(peer(1), 11);
    assert!(!map.is_empty());
    assert_eq!(map.get(&peer(1)), Some(&11));
    assert_eq!(map.get(&peer(2)), Some(&20));
    assert_eq!(map.get(&peer(3)), None);
    let public = PeerNetworkId::new(NetworkId::Public, PeerId { bytes: [1; 32] });
    assert_eq!(map.get(&public), None);
}

#[test]
fn peer_maps_are_compared_as_maps() {
    assert!(connected(&[1, 2]).same_as(&connected(&[2, 1])));
    assert!(connected(&[1, 2, 1]).same_as(&connected(&[2, 1])));
    assert!(!connected(&[1]).same_as(&connected(&[2, 1])));
    assert!(!connected(&[1, 2]).same_as(&connected(&[2])));
    assert!(connected(&[]).same_as(&connected(&[])));
    let mut changed = connected(&[1, 2]);
    changed.insert(peer(2), metadata(2, ConnectionState::Disconnected));
    assert!(!changed.same_as(&connected(&[1, 2])));
    assert!(changed.duplicate().same_as(&changed));
}

#[test]
fn empty_states_are_recognised() {
    let mut state: PeerMonitorState<Clock> = PeerMonitorState::new();
    assert!(verify_empty_peer_states(&state));
    let known = PeerState { latency_info_state: None, network_info_state: None };
    state.peer_states.insert(peer(1), known);
    assert!(!verify_empty_peer_states(&state));
}

fn known_peer(failures: u64) -> PeerMonitorState<Clock> {
    let mut latency_tracker = tracker();
    latency_tracker.record_response_success();
    for _ in 0..failures {
        latency_tracker.record_response_failure();
    }
    let mut state = PeerMonitorState::new();
    state.peer_states.insert(
        peer(1),
        PeerState {
            latency_info_state: Some(LatencyInfoState {
                num_recorded_latency_pings: 2,
                request_tracker: latency_tracker,
            }),
            network_info_state: Some(NetworkInfoState {
                latest_network_info_response: Some(information(&[7, 8])),
                request_tracker: tracker(),
            }),
        },
    );
    state
}

#[test]
fn latency_state_is_verified() {
    let state = known_peer(5);
    assert!(verify_peer_latency_state(&state, &peer(1), 2, 5));
    assert!(!verify_peer_latency_state(&state, &peer(1), 3, 5));
    assert!(!verify_peer_latency_state(&state, &peer(1), 2, 0));
    assert!(!verify_peer_latency_state(&state, &peer(2), 2, 5));
}

#[test]
fn network_state_is_verified() {
    let state = known_peer(0);
    assert!(verify_peer_network_state(&state, &peer(1), &connected(&[8, 7]), 3));
    assert!(!verify_peer_network_state(&state, &peer(1), &connected(&[8]), 3));
    assert!(!verify_peer_network_state(&state, &peer(1), &connected(&[8, 7]), 0));
    assert!(!verify_peer_network_state(&state, &peer(2), &connected(&[8, 7]), 3));
}

#[test]
fn whole_state_is_verified() {
    let expected = connected(&[7, 8]);
    assert!(verify_peer_monitor_state(&known_peer(0), &peer(1), &expected, 3, 2));
    assert!(!verify_peer_monitor_state(&known_peer(1), &peer(1), &expected, 3, 2));
    assert!(!verify_peer_monitor_state(&known_peer(0), &peer(1), &expected, 4, 2));
}

#[test]
fn updates_are_recognised() {
    let state = known_peer(4);
    assert_eq!(latency_ping_failures_reached(&state, &peer(1), 4), Some(true));
    assert_eq!(latency_ping_failures_reached(&state, &peer(1), 5), Some(false));
    assert_eq!(latency_ping_failures_reached(&state, &peer(2), 4), None);

    let before = Instant { nanos: 999 };
    let latency = PeerStateKey::LatencyInfo;
    let network = PeerStateKey::NetworkInfo;
    assert_eq!(peer_state_updated_since(before, &state, &peer(1), latency), Some(true));
    assert_eq!(peer_state_updated_since(clock(), &state, &peer(1), latency), Some(false));
    assert_eq!(peer_state_updated_since(before, &state, &peer(1), network), Some(false));
    assert_eq!(peer_state_updated_since(before, &state, &peer(2), network), None);
    assert_eq!(PeerStateKey::get_all_keys(), vec![latency, network]);

    let next = |keys: &Vec<PeerStateKey>, from| {
        first_key_not_updated(before, &state, &peer(1), keys, from)
    };
    assert_eq!(next(&vec![latency, network], 0), Some(1));
    assert_eq!(next(&vec![network, latency], 0), Some(0));
    assert_eq!(next(&vec![network, latency], 1), Some(2));
    assert_eq!(next(&vec![latency, latency], 0), Some(2));
    assert_eq!(next(&vec![], 0), Some(0));
    assert_eq!(first_key_not_updated(clock(), &state, &peer(1), &vec![latency], 0), Some(0));
    assert_eq!(first_key_not_updated(before, &state, &peer(2), &vec![latency], 0), None);
    assert_eq!(first_key_not_updated(before, &state, &peer(2), &vec![latency], 1), Some(1));
}

fn answer(
    counter: u64,
    expected: u64,
    invalid_counter: bool,
    invalid_message: bool,
) -> PeerMonitoringServiceResponse {
    verify_latency_request_and_respond(ping(counter), expected, invalid_counter, invalid_message, false)
        .ok()
        .unwrap()
        .unwrap()
}

#[test]
fn latency_pings_are_answered_as_asked() {
    match answer(11, 11, false, false) {
        PeerMonitoringServiceResponse::LatencyPing(response) => {
            assert_eq!(response.ping_counter, 11)
        },
        _ => panic!("not a ping response"),
    }
    match answer(11, 11, true, false) {
        PeerMonitoringServiceResponse::LatencyPing(response) => {
            assert_eq!(response.ping_counter, 1010101)
        },
        _ => panic!("not a ping response"),
    }
    match answer(11, 11, false, true) {
        PeerMonitoringServiceResponse::ServerProtocolVersion(response) => {
            assert_eq!(response.version, 999)
        },
        _ => panic!("not a version response"),
    }
    let skipped = verify_latency_request_and_respond(ping(11), 11, false, false, true);
    assert!(matches!(skipped, Ok(None)));
}

#[test]
fn unexpected_latency_requests_are_faults() {
    let wrong = verify_latency_request_and_respond(ping(10), 11, false, false, true);
    assert_eq!(
        wrong.err(),
        Some(MockServerFault::WrongPingCounter { expected: 11, actual: 10 })
    );
    let request = PeerMonitoringServiceRequest::GetServerProtocolVersion;
    let unexpected = verify_latency_request_and_respond(request, 11, false, false, false);
    assert_eq!(unexpected.err(), Some(MockServerFault::UnexpectedRequest(request)));
}

#[test]
fn network_information_is_given() {
    let request = PeerMonitoringServiceRequest::GetNetworkInformation;
    match verify_network_info_request_and_respond(request, &information(&[4])) {
        Ok(PeerMonitoringServiceResponse::NetworkInformation(response)) => {
            assert!(response.connected_peers_and_metadata.same_as(&connected(&[4])));
            assert_eq!(response.distance_from_validators, 3);
        },
        _ => panic!("no network information"),
    }
    let unexpected = verify_network_info_request_and_respond(ping(1), &information(&[4]));
    assert_eq!(unexpected.err(), Some(MockServerFault::UnexpectedRequest(ping(1))));
}

fn round(requests: [PeerMonitoringServiceRequest; 2]) -> Result<(), MockServerFault> {
    let mut round = RequestRound::new();
    for request in requests {
        assert!(round.num_expected_requests > 0);
        let (next, _) = round.respond(request, &information(&[4]))?;
        round = next;
    }
    assert_eq!(round.num_expected_requests, 0);
    round.verify_all_requests()
}

#[test]
fn round_takes_one_request_of_each_kind() {
    let network = PeerMonitoringServiceRequest::GetNetworkInformation;
    let version = PeerMonitoringServiceRequest::GetServerProtocolVersion;
    assert_eq!(round([ping(1), network]), Ok(()));
    assert_eq!(round([network, ping(1)]), Ok(()));
    assert_eq!(round([ping(1), ping(2)]), Err(MockServerFault::NotExactlyOnce));
    assert_eq!(round([network, network]), Err(MockServerFault::NotExactlyOnce));
    assert_eq!(round([ping(1), version]), Err(MockServerFault::UnexpectedRequest(version)));
    match RequestRound::new().respond(ping(6), &information(&[])) {
        Ok((_, PeerMonitoringServiceResponse::LatencyPing(response))) => {
            assert_eq!(response.ping_counter, 6)
        },
        _ => panic!("not a ping response"),
    }
}

#[test]
fn mock_server_has_defaults() {
    let server = MockMonitoringServer::new(None, None);
    assert_eq!(server.network_id, NetworkId::Validator);
    assert_eq!(server.networks, vec![NetworkId::Validator, NetworkId::Vfn, NetworkId::Public]);
    let server = MockMonitoringServer::new(Some(vec![NetworkId::Vfn]), Some(NetworkId::Public));
    assert_eq!(server.network_id, NetworkId::Public);
    assert_eq!(server.networks, vec![NetworkId::Vfn]);
}

#[test]
fn mock_server_makes_up_peers() {
    let id = PeerId { bytes: [3; 32] };
    let (peer_network_id, known) =
        MockMonitoringServer::add_peer_with_network_id(id, NetworkId::Vfn, PeerRole::Validator);
    assert!(peer_network_id == PeerNetworkId::new(NetworkId::Vfn, id));
    assert_eq!(known.connection_state, ConnectionState::Connected);
    assert_eq!(known.origin, ConnectionOrigin::Outbound);
    assert_eq!(known.role, PeerRole::Validator);
    assert!(known.monitoring_supported);
    assert!(known.remote_peer_id == id);
}

#[test]
fn mock_server_reads_requests() {
    let server = MockMonitoringServer::new(None, Some(NetworkId::Vfn));
    let peer_id = PeerId { bytes: [3; 32] };
    let rpc = |message| Some(PeerManagerRequest::SendRpc { peer_id, protocol_id: 9, message });
    let request = server
        .next_request(rpc(Some(PeerMonitoringServiceMessage::Request(ping(2)))))
        .unwrap()
        .unwrap();
    assert!(request.peer_network_id == PeerNetworkId::new(NetworkId::Vfn, peer_id));
    assert_eq!(request.protocol_id, 9);
    assert_eq!(request.peer_monitoring_service_request, ping(2));
    assert!(matches!(server.next_request(None), Ok(None)));
    assert_eq!(
        server.next_request(rpc(Some(PeerMonitoringServiceMessage::Response))).err(),
        Some(MockServerFault::UnexpectedMessage)
    );
    assert_eq!(server.next_request(rpc(None)).err(), Some(MockServerFault::UnreadableMessage));
    assert_eq!(
        server.next_request(Some(PeerManagerRequest::SendDirectSend)).err(),
        Some(MockServerFault::UnexpectedDirectSend)
    );
}
