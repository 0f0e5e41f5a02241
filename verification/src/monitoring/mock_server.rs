//! A stand-in for the peers: it checks the requests that the monitor sends, and answers them, well
//! or badly.

use crate::monitoring::messages::{
    LatencyPingResponse, NetworkInformationModel, NetworkInformationResponse,
    PeerMonitoringServiceMessage, PeerMonitoringServiceRequest, PeerMonitoringServiceResponse,
    ResponseModel, ServerProtocolVersionResponse,
};
use crate::monitoring::peer_states::PeerStateKey;
use crate::monitoring::peers::{
    ConnectionOrigin, ConnectionState, NetworkId, PeerMetadata, PeerNetworkId, PeerRole,
};
use crate::primitives::PeerId;
use vstd::prelude::*;

verus! {

/// The ping counter of a bad answer.
pub const INVALID_PING_COUNTER: u64 = 1010101;

/// The protocol version of an answer of the wrong kind.
pub const INVALID_MESSAGE_VERSION: u64 = 999;

/// What is wrong with what the monitor sent.
#[derive(Clone, Copy, Debug, PartialEq, Eq, Structural)]
pub enum MockServerFault {
    /// A request of another kind was expected.
    UnexpectedRequest(PeerMonitoringServiceRequest),
    /// A ping with another counter was expected.
    WrongPingCounter {
        /// The expected counter.
        expected: u64,
        /// The counter of the ping.
        actual: u64,
    },
    /// The requests were not received exactly once.
    NotExactlyOnce,
    /// The data of a request cannot be read.
    UnreadableMessage,
    /// A response was sent in place of a request.
    UnexpectedMessage,
    /// A message was sent that asks for no answer.
    UnexpectedDirectSend,
}

/// What the monitor hands to the network.
#[derive(Clone, Copy, Debug)]
pub enum PeerManagerRequest {
    /// A message that asks for an answer.
    SendRpc {
        /// The peer that the message is for.
        peer_id: PeerId,
        /// The number of the protocol.
        protocol_id: u8,
        /// The message, if it can be read.
        message: Option<PeerMonitoringServiceMessage>,
    },
    /// A message that asks for no answer.
    SendDirectSend,
}

/// A request of the monitor.
#[derive(Clone, Copy, Debug)]
pub struct NetworkRequest {
    /// The peer that it is for.
    pub peer_network_id: PeerNetworkId,
    /// The number of the protocol.
    pub protocol_id: u8,
    /// The request.
    pub peer_monitoring_service_request: PeerMonitoringServiceRequest,
}

/// A simple mock of the peer monitoring server.
pub struct MockMonitoringServer {
    /// The network that the monitor uses.
    pub network_id: NetworkId,
    /// All networks of the node.
    pub networks: Vec<NetworkId>,
}

impl MockMonitoringServer {
    /// Makes a mock, by default for the validator network of a node that is in all networks.
    pub fn new(
        all_network_ids: Option<Vec<NetworkId>>,
        client_network_id: Option<NetworkId>,
    ) -> (result: MockMonitoringServer)
        ensures
            match all_network_ids {
                Some(networks) => result.networks == networks,
                None => result.networks@ == seq![
                    NetworkId::Validator,
                    NetworkId::Vfn,
                    NetworkId::Public,
                ],
            },
            match client_network_id {
                Some(network_id) => result.network_id == network_id,
                None => result.network_id == NetworkId::Validator,
            },
    {
        let networks: Vec<NetworkId> = match all_network_ids {
            Some(networks) => networks,
            None => vec![NetworkId::Validator, NetworkId::Vfn, NetworkId::Public],
        };
        assert(all_network_ids is None ==> networks@ =~= seq![
            NetworkId::Validator,
            NetworkId::Vfn,
            NetworkId::Public,
        ]);
        let network_id: NetworkId = match client_network_id {
            Some(network_id) => network_id,
            None => NetworkId::Validator,
        };
        MockMonitoringServer { network_id, networks }
    }

    /// Makes up a new peer: one that the node has connected to and that takes monitoring requests.
    pub fn add_peer_with_network_id(
        peer_id: PeerId,
        network_id: NetworkId,
        role: PeerRole,
    ) -> (result: (PeerNetworkId, PeerMetadata))
        ensures
            result.0 == (PeerNetworkId { network_id, peer_id }),
            result.1 == (PeerMetadata {
                connection_state: ConnectionState::Connected,
                remote_peer_id: peer_id,
                origin: ConnectionOrigin::Outbound,
                role,
                monitoring_supported: true,
            }),
    {
        (
            PeerNetworkId::new(network_id, peer_id),
            PeerMetadata {
                connection_state: ConnectionState::Connected,
                remote_peer_id: peer_id,
                origin: ConnectionOrigin::Outbound,
                role,
                monitoring_supported: true,
            },
        )
    }

    /// Reads what the monitor handed to the network, if it handed over anything.
    pub fn next_request(&self, received: Option<PeerManagerRequest>) -> (result: Result<
        Option<NetworkRequest>,
        MockServerFault,
    >)
        ensures
            match received {
                None => result == Ok::<_, MockServerFault>(None::<NetworkRequest>),
                Some(PeerManagerRequest::SendDirectSend) => result == Err::<
                    Option<NetworkRequest>,
                    _,
                >(MockServerFault::UnexpectedDirectSend),
                Some(PeerManagerRequest::SendRpc { peer_id, protocol_id, message }) => result == (
                match message {
                    Some(PeerMonitoringServiceMessage::Request(request)) => Ok(
                        Some(
                            NetworkRequest {
                                peer_network_id: PeerNetworkId {
                                    network_id: self.network_id,
                                    peer_id,
                                },
                                protocol_id,
                                peer_monitoring_service_request: request,
                            },
                        ),
                    ),
                    Some(PeerMonitoringServiceMessage::Response) => Err(
                        MockServerFault::UnexpectedMessage,
                    ),
                    None => Err(MockServerFault::UnreadableMessage),
                }),
            },
    {
        match received {
            Some(PeerManagerRequest::SendRpc { peer_id, protocol_id, message }) => match message {
                Some(PeerMonitoringServiceMessage::Request(request)) => Ok(
                    Some(
                        NetworkRequest {
                            peer_network_id: PeerNetworkId::new(self.network_id, peer_id),
                            protocol_id,
                            peer_monitoring_service_request: request,
                        },
                    ),
                ),
                Some(PeerMonitoringServiceMessage::Response) => Err(
                    MockServerFault::UnexpectedMessage,
                ),
                None => Err(MockServerFault::UnreadableMessage),
            },
            Some(PeerManagerRequest::SendDirectSend) => Err(MockServerFault::UnexpectedDirectSend),
            None => Ok(None),
        }
    }
}

/// The answer to a latency ping, well or badly.
pub open spec fn latency_answer(
    request: PeerMonitoringServiceRequest,
    expected_ping_counter: u64,
    respond_with_invalid_counter: bool,
    respond_with_invalid_message: bool,
) -> Result<ResponseModel, MockServerFault> {
    match request {
        PeerMonitoringServiceRequest::LatencyPing(latency_ping) => if latency_ping.ping_counter
            != expected_ping_counter {
            Err(
                MockServerFault::WrongPingCounter {
                    expected: expected_ping_counter,
                    actual: latency_ping.ping_counter,
                },
            )
        } else if respond_with_invalid_counter {
            Ok(
                ResponseModel::LatencyPing(
                    LatencyPingResponse { ping_counter: INVALID_PING_COUNTER },
                ),
            )
        } else if respond_with_invalid_message {
            Ok(
                ResponseModel::ServerProtocolVersion(
                    ServerProtocolVersionResponse { version: INVALID_MESSAGE_VERSION },
                ),
            )
        } else {
            Ok(
                ResponseModel::LatencyPing(
                    LatencyPingResponse { ping_counter: expected_ping_counter },
                ),
            )
        },
        _ => Err(MockServerFault::UnexpectedRequest(request)),
    }
}

/// Verifies that a request is the expected latency ping, and answers it as the parameters say:
/// with an invalid counter, with a message of the wrong kind, not at all, or well.
pub fn verify_latency_request_and_respond(
    request: PeerMonitoringServiceRequest,
    expected_ping_counter: u64,
    respond_with_invalid_counter: bool,
    respond_with_invalid_message: bool,
    skip_sending_a_response: bool,
) -> (result: Result<Option<PeerMonitoringServiceResponse>, MockServerFault>)
    ensures
        match latency_answer(
            request,
            expected_ping_counter,
            respond_with_invalid_counter,
            respond_with_invalid_message,
        ) {
            Ok(answer) => match result {
                Ok(Some(response)) => !skip_sending_a_response && response@ == answer,
                Ok(None) => skip_sending_a_response,
                Err(_) => false,
            },
            Err(fault) => result matches Err(error) && error == fault,
        },
{
    match request {
        PeerMonitoringServiceRequest::LatencyPing(latency_ping) => {
            // Verify the ping counter
            if latency_ping.ping_counter != expected_ping_counter {
                return Err(
                    MockServerFault::WrongPingCounter {
                        expected: expected_ping_counter,
                        actual: latency_ping.ping_counter,
                    },
                );
            }
            // Create the response
            let response: PeerMonitoringServiceResponse = if respond_with_invalid_counter {
                // Respond with an invalid ping counter
                PeerMonitoringServiceResponse::LatencyPing(
                    LatencyPingResponse { ping_counter: INVALID_PING_COUNTER },
                )
            } else if respond_with_invalid_message {
                // Respond with the wrong message type
                PeerMonitoringServiceResponse::ServerProtocolVersion(
                    ServerProtocolVersionResponse { version: INVALID_MESSAGE_VERSION },
                )
            } else {
                // Send a valid response
                PeerMonitoringServiceResponse::LatencyPing(
                    LatencyPingResponse { ping_counter: latency_ping.ping_counter },
                )
            };
            if skip_sending_a_response {
                Ok(None)
            } else {
                Ok(Some(response))
            }
        },
        request => Err(MockServerFault::UnexpectedRequest(request)),
    }
}

/// Verifies that a request is one for network information, and answers it.
pub fn verify_network_info_request_and_respond(
    request: PeerMonitoringServiceRequest,
    network_information: &NetworkInformationResponse,
) -> (result: Result<PeerMonitoringServiceResponse, MockServerFault>)
    ensures
        match result {
            Ok(response) => request is GetNetworkInformation && response@
                == ResponseModel::NetworkInformation(network_information@),
            Err(fault) => request !is GetNetworkInformation && fault
                == MockServerFault::UnexpectedRequest(request),
        },
{
    match request {
        PeerMonitoringServiceRequest::GetNetworkInformation => Ok(
            PeerMonitoringServiceResponse::NetworkInformation(network_information.duplicate()),
        ),
        request => Err(MockServerFault::UnexpectedRequest(request)),
    }
}

/// A round in which one request of each kind is expected.
#[derive(Clone, Copy, Debug, PartialEq, Eq, Structural)]
pub struct RequestRound {
    /// How many requests are still expected.
    pub num_expected_requests: usize,
    /// How many latency pings were received.
    pub num_received_latency_pings: usize,
    /// How many requests for network information were received.
    pub num_received_network_requests: usize,
}

impl RequestRound {
    /// The start of a round: a request is expected for each kind of state.
    pub open spec fn start() -> RequestRound {
        RequestRound {
            num_expected_requests: 2,
            num_received_latency_pings: 0,
            num_received_network_requests: 0,
        }
    }

    /// As many requests have been received as are no longer expected.
    pub open spec fn wf(self) -> bool {
        self.num_expected_requests + self.num_received_latency_pings
            + self.num_received_network_requests == 2
    }

    /// The round after a request, and the answer to it.
    pub open spec fn after(
        self,
        request: PeerMonitoringServiceRequest,
        network_information: NetworkInformationModel,
    ) -> Result<(RequestRound, ResponseModel), MockServerFault> {
        match request {
            PeerMonitoringServiceRequest::GetNetworkInformation => Ok(
                (
                    RequestRound {
                        num_expected_requests: (self.num_expected_requests - 1) as usize,
                        num_received_network_requests: (self.num_received_network_requests
                            + 1) as usize,
                        ..self
                    },
                    ResponseModel::NetworkInformation(network_information),
                ),
            ),
            PeerMonitoringServiceRequest::LatencyPing(latency_ping) => Ok(
                (
                    RequestRound {
                        num_expected_requests: (self.num_expected_requests - 1) as usize,
                        num_received_latency_pings: (self.num_received_latency_pings + 1) as usize,
                        ..self
                    },
                    ResponseModel::LatencyPing(
                        LatencyPingResponse { ping_counter: latency_ping.ping_counter },
                    ),
                ),
            ),
            _ => Err(MockServerFault::UnexpectedRequest(request)),
        }
    }

    /// Each request was received exactly once.
    pub open spec fn passed(self) -> bool {
        self.num_received_latency_pings == 1 && self.num_received_network_requests == 1
    }

    /// Starts a round.
    pub fn new() -> (result: RequestRound)
        ensures
            result == RequestRound::start(),
            result.wf(),
    {
        // We expect a request to be sent for each peer state type
        RequestRound {
            num_expected_requests: PeerStateKey::get_all_keys().len(),
            num_received_latency_pings: 0,
            num_received_network_requests: 0,
        }
    }

    /// Takes in a request and answers it.
    pub fn respond(
        self,
        request: PeerMonitoringServiceRequest,
        network_information: &NetworkInformationResponse,
    ) -> (result: Result<(RequestRound, PeerMonitoringServiceResponse), MockServerFault>)
        requires
            self.wf(),
            self.num_expected_requests > 0,
        ensures
            match result {
                Ok((round, response)) => {
                    &&& self.after(request, network_information@) == Ok::<_, MockServerFault>(
                        (round, response@),
                    )
                    &&& round.wf()
                },
                Err(fault) => self.after(request, network_information@) == Err::<
                    (RequestRound, ResponseModel),
                    _,
                >(fault),
            },
    {
        match request {
            PeerMonitoringServiceRequest::GetNetworkInformation => Ok(
                (
                    RequestRound {
                        num_expected_requests: self.num_expected_requests - 1,
                        num_received_network_requests: self.num_received_network_requests + 1,
                        ..self
                    },
                    PeerMonitoringServiceResponse::NetworkInformation(
                        network_information.duplicate(),
                    ),
                ),
            ),
            PeerMonitoringServiceRequest::LatencyPing(latency_ping) => Ok(
                (
                    RequestRound {
                        num_expected_requests: self.num_expected_requests - 1,
                        num_received_latency_pings: self.num_received_latency_pings + 1,
                        ..self
                    },
                    PeerMonitoringServiceResponse::LatencyPing(
                        LatencyPingResponse { ping_counter: latency_ping.ping_counter },
                    ),
                ),
            ),
            request => Err(MockServerFault::UnexpectedRequest(request)),
        }
    }

    /// Verifies that each request was received exactly once.
    pub fn verify_all_requests(&self) -> (result: Result<(), MockServerFault>)
        ensures
            match result {
                Ok(_) => self.passed(),
                Err(fault) => !self.passed() && fault == MockServerFault::NotExactlyOnce,
            },
    {
        if self.num_received_latency_pings != 1 || self.num_received_network_requests != 1 {
            return Err(MockServerFault::NotExactlyOnce);
        }
        Ok(())
    }
}

/// The two requests of a round are answered, and the round is passed, exactly when one of them is
/// a latency ping and the other one asks for network information, in either order.
pub proof fn round_is_passed_by_one_request_of_each_kind(
    first: PeerMonitoringServiceRequest,
    second: PeerMonitoringServiceRequest,
    network_information: NetworkInformationModel,
)
    ensures
        ({
            &&& RequestRound::start().after(first, network_information) matches Ok((round, _))
            &&& round.after(second, network_information) matches Ok((last, _))
            &&& last.num_expected_requests == 0
            &&& last.passed()
        }) <==> {
            ||| first is LatencyPing && second is GetNetworkInformation
            ||| first is GetNetworkInformation && second is LatencyPing
        },
{
}

/// A good answer to a latency ping has the counter of the ping; the two kinds of bad answer do not
/// say that the ping was received, unless its counter is the invalid one.
pub proof fn bad_answers_differ_from_the_good_one(
    request: PeerMonitoringServiceRequest,
    expected_ping_counter: u64,
)
    requires
        request matches PeerMonitoringServiceRequest::LatencyPing(ping) && ping.ping_counter
            == expected_ping_counter,
        expected_ping_counter != INVALID_PING_COUNTER,
    ensures
        latency_answer(request, expected_ping_counter, true, false) != latency_answer(
            request,
            expected_ping_counter,
            false,
            false,
        ),
        latency_answer(request, expected_ping_counter, false, true) != latency_answer(
            request,
            expected_ping_counter,
            false,
            false,
        ),
{
}

} // verus!
