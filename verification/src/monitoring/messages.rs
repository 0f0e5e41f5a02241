//! The messages of the peer monitoring service.

use crate::monitoring::peers::{PeerMap, PeerMetadata, PeerNetworkId};
use vstd::prelude::*;

verus! {

/// A latency ping.
#[derive(Clone, Copy, Debug, PartialEq, Eq, Structural)]
pub struct LatencyPingRequest {
    /// The number of the ping.
    pub ping_counter: u64,
}

/// A request to a peer.
#[derive(Clone, Copy, Debug, PartialEq, Eq, Structural)]
pub enum PeerMonitoringServiceRequest {
    /// Asks for information on the peer's network.
    GetNetworkInformation,
    /// Asks for the version of the protocol.
    GetServerProtocolVersion,
    /// Asks for a sign of life.
    LatencyPing(LatencyPingRequest),
}

/// The answer to a latency ping.
#[derive(Clone, Copy, Debug, PartialEq, Eq, Structural)]
pub struct LatencyPingResponse {
    /// The number of the ping that is answered.
    pub ping_counter: u64,
}

/// The version of the protocol.
#[derive(Clone, Copy, Debug, PartialEq, Eq, Structural)]
pub struct ServerProtocolVersionResponse {
    /// The version.
    pub version: u64,
}

/// Information on a peer's network.
pub struct NetworkInformationResponse {
    /// The peers that the peer is connected to.
    pub connected_peers_and_metadata: PeerMap<PeerMetadata>,
    /// How far the peer is from the validators.
    pub distance_from_validators: u64,
}

/// The mathematical content of a [`NetworkInformationResponse`].
#[verifier::ext_equal]
pub struct NetworkInformationModel {
    /// The peers that the peer is connected to.
    pub connected_peers_and_metadata: Map<PeerNetworkId, PeerMetadata>,
    /// How far the peer is from the validators.
    pub distance_from_validators: u64,
}

impl View for NetworkInformationResponse {
    type V = NetworkInformationModel;

    open spec fn view(&self) -> NetworkInformationModel {
        NetworkInformationModel {
            connected_peers_and_metadata: self.connected_peers_and_metadata@,
            distance_from_validators: self.distance_from_validators,
        }
    }
}

impl NetworkInformationResponse {
    /// Returns the same information once more.
    pub fn duplicate(&self) -> (result: NetworkInformationResponse)
        ensures
            result@ == self@,
    {
        NetworkInformationResponse {
            connected_peers_and_metadata: self.connected_peers_and_metadata.duplicate(),
            distance_from_validators: self.distance_from_validators,
        }
    }
}

/// A response of a peer.
pub enum PeerMonitoringServiceResponse {
    /// The answer to a latency ping.
    LatencyPing(LatencyPingResponse),
    /// Information on the peer's network.
    NetworkInformation(NetworkInformationResponse),
    /// The version of the protocol.
    ServerProtocolVersion(ServerProtocolVersionResponse),
}

/// The mathematical content of a [`PeerMonitoringServiceResponse`].
#[verifier::ext_equal]
pub enum ResponseModel {
    /// The answer to a latency ping.
    LatencyPing(LatencyPingResponse),
    /// Information on the peer's network.
    NetworkInformation(NetworkInformationModel),
    /// The version of the protocol.
    ServerProtocolVersion(ServerProtocolVersionResponse),
}

impl View for PeerMonitoringServiceResponse {
    type V = ResponseModel;

    open spec fn view(&self) -> ResponseModel {
        match *self {
            PeerMonitoringServiceResponse::LatencyPing(response) => ResponseModel::LatencyPing(
                response,
            ),
            PeerMonitoringServiceResponse::NetworkInformation(response) => {
                ResponseModel::NetworkInformation(response@)
            },
            PeerMonitoringServiceResponse::ServerProtocolVersion(response) => {
                ResponseModel::ServerProtocolVersion(response)
            },
        }
    }
}

/// A message of the service, as it is read on the side that answers.
#[derive(Clone, Copy, Debug, PartialEq, Eq, Structural)]
pub enum PeerMonitoringServiceMessage {
    /// A request.
    Request(PeerMonitoringServiceRequest),
    /// A response, which has no business there.
    Response,
}

} // verus!
