//! The configuration of the peer monitor: how often it does what.

use crate::monitoring::request_tracker::TrackerModel;
use crate::primitives::Instant;
use vstd::prelude::*;

verus! {

/// How the latency of peers is monitored.
#[derive(Clone, Copy, Debug, PartialEq, Eq, Structural)]
pub struct LatencyMonitoringConfig {
    /// The interval between latency pings, in milliseconds.
    pub latency_ping_interval_ms: u64,
    /// How many latency pings to keep on record.
    pub max_num_latency_pings_to_retain: usize,
}

/// How the networks of peers are monitored.
#[derive(Clone, Copy, Debug, PartialEq, Eq, Structural)]
pub struct NetworkMonitoringConfig {
    /// The interval between requests for information, in milliseconds.
    pub network_info_request_interval_ms: u64,
}

/// How peers are monitored.
#[derive(Clone, Copy, Debug, PartialEq, Eq, Structural)]
pub struct PeerMonitoringServiceConfig {
    /// How their latency is monitored.
    pub latency_monitoring: LatencyMonitoringConfig,
    /// How their networks are monitored.
    pub network_monitoring: NetworkMonitoringConfig,
    /// The interval of the monitoring loop, in milliseconds.
    pub peer_monitor_interval_ms: u64,
}

/// An interval so long that it does not pass, in milliseconds.
pub const UNREALISTICALLY_HIGH_INTERVAL_MS: u64 = 1_000_000_000;

impl PeerMonitoringServiceConfig {
    /// Returns the milliseconds to elapse for a latency ping to be due.
    pub fn elapse_latency_update_interval(&self) -> (result: u64)
        requires
            self.latency_monitoring.latency_ping_interval_ms < u64::MAX,
        ensures
            result == self.latency_monitoring.latency_ping_interval_ms + 1,
    {
        self.latency_monitoring.latency_ping_interval_ms + 1
    }

    /// Returns the milliseconds to elapse for a request for network information to be due.
    pub fn elapse_network_info_update_interval(&self) -> (result: u64)
        requires
            self.network_monitoring.network_info_request_interval_ms < u64::MAX,
        ensures
            result == self.network_monitoring.network_info_request_interval_ms + 1,
    {
        self.network_monitoring.network_info_request_interval_ms + 1
    }

    /// Returns the milliseconds to elapse for the monitoring loop to execute.
    pub fn elapse_peer_monitor_interval(&self) -> (result: u64)
        requires
            self.peer_monitor_interval_ms < u64::MAX,
        ensures
            result == self.peer_monitor_interval_ms + 1,
    {
        self.peer_monitor_interval_ms + 1
    }

    /// Returns this configuration, but such that latency pings don't refresh.
    pub fn get_config_without_latency_pings(&self) -> (result: PeerMonitoringServiceConfig)
        ensures
            result == (PeerMonitoringServiceConfig {
                latency_monitoring: LatencyMonitoringConfig {
                    latency_ping_interval_ms: UNREALISTICALLY_HIGH_INTERVAL_MS,
                    ..self.latency_monitoring
                },
                ..*self
            }),
    {
        PeerMonitoringServiceConfig {
            latency_monitoring: LatencyMonitoringConfig {
                latency_ping_interval_ms: UNREALISTICALLY_HIGH_INTERVAL_MS,
                ..self.latency_monitoring
            },
            ..*self
        }
    }

    /// Returns this configuration, but such that network info requests don't refresh.
    pub fn get_config_without_network_info_requests(&self) -> (result: PeerMonitoringServiceConfig)
        ensures
            result == (PeerMonitoringServiceConfig {
                network_monitoring: NetworkMonitoringConfig {
                    network_info_request_interval_ms: UNREALISTICALLY_HIGH_INTERVAL_MS,
                },
                ..*self
            }),
    {
        PeerMonitoringServiceConfig {
            network_monitoring: NetworkMonitoringConfig {
                network_info_request_interval_ms: UNREALISTICALLY_HIGH_INTERVAL_MS,
            },
            ..*self
        }
    }
}

/// One millisecond more than the interval of a tracker is enough time for its next request to be
/// due, and the interval alone is not.
pub proof fn interval_and_a_millisecond_is_enough(
    tracker: TrackerModel,
    started: Instant,
    now: Instant,
)
    ensures
        now.nanos - started.nanos == (tracker.request_interval_ms + 1) * 1_000_000
            ==> tracker.started(started).completed().request_required(now),
        now.nanos - started.nanos <= tracker.request_interval_ms * 1_000_000
            ==> !tracker.started(started).completed().request_required(now),
{
}

/// `millis` is the first whole number of milliseconds after whose passing a tracker with the
/// `interval` requires its next request.
pub open spec fn first_enough(interval: u64, millis: int) -> bool {
    forall|tracker: TrackerModel, started: Instant, now: Instant|
        tracker.request_interval_ms == interval ==> (
        #[trigger] tracker.started(started).completed().request_required(now) <==> now.nanos
            - started.nanos > (millis - 1) * 1_000_000)
}

/// The time to elapse for a latency ping, for a request for network information or for the
/// monitoring loop is the interval of just that and one millisecond more, which is the first whole
/// number of milliseconds that is enough.
pub proof fn elapsed_time_is_just_enough(
    config: PeerMonitoringServiceConfig,
    latency: u64,
    network: u64,
    monitor: u64,
)
    requires
        call_ensures(
            PeerMonitoringServiceConfig::elapse_latency_update_interval,
            (&config,),
            latency,
        ),
        call_ensures(
            PeerMonitoringServiceConfig::elapse_network_info_update_interval,
            (&config,),
            network,
        ),
        call_ensures(
            PeerMonitoringServiceConfig::elapse_peer_monitor_interval,
            (&config,),
            monitor,
        ),
    ensures
        latency - config.latency_monitoring.latency_ping_interval_ms == 1,
        network - config.network_monitoring.network_info_request_interval_ms == 1,
        monitor - config.peer_monitor_interval_ms == 1,
        first_enough(config.latency_monitoring.latency_ping_interval_ms, latency as int),
        first_enough(config.network_monitoring.network_info_request_interval_ms, network as int),
        first_enough(config.peer_monitor_interval_ms, monitor as int),
{
}

/// A configuration without latency pings, or without requests for network information, has an
/// interval of a million seconds in that place, and is the same in all others.
pub proof fn only_the_named_interval_is_raised(
    config: PeerMonitoringServiceConfig,
    without_pings: PeerMonitoringServiceConfig,
    without_requests: PeerMonitoringServiceConfig,
)
    requires
        call_ensures(
            PeerMonitoringServiceConfig::get_config_without_latency_pings,
            (&config,),
            without_pings,
        ),
        call_ensures(
            PeerMonitoringServiceConfig::get_config_without_network_info_requests,
            (&config,),
            without_requests,
        ),
    ensures
        without_pings.latency_monitoring.latency_ping_interval_ms == 1_000_000_000,
        without_pings.latency_monitoring.max_num_latency_pings_to_retain
            == config.latency_monitoring.max_num_latency_pings_to_retain,
        without_pings.network_monitoring == config.network_monitoring,
        without_pings.peer_monitor_interval_ms == config.peer_monitor_interval_ms,
        without_requests.network_monitoring.network_info_request_interval_ms == 1_000_000_000,
        without_requests.latency_monitoring == config.latency_monitoring,
        without_requests.peer_monitor_interval_ms == config.peer_monitor_interval_ms,
{
}

} // verus!
