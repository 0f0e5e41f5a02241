use aptos_node_services::monitoring::config::{
    LatencyMonitoringConfig, NetworkMonitoringConfig, PeerMonitoringServiceConfig,
};
use aptos_node_services::monitoring::request_tracker::RequestTracker;
use aptos_node_services::primitives::Instant;
use std::cell::Cell;
use std::rc::Rc;

const INTERVAL_MS: u64 = 100;

fn at(millis: u64) -> Instant {
    Instant { nanos: millis as u128 * 1_000_000 }
}

/// A clock that is moved by hand.
fn mock_time(now: &Rc<Cell<u64>>) -> impl Fn() -> Instant {
    let now = now.clone();
    move || at(now.get())
}

#[test]
fn new_tracker_requires_a_request() {
    let now = Rc::new(Cell::new(0));
    let tracker = RequestTracker::new(INTERVAL_MS, mock_time(&now));
    assert_eq!(tracker.get_last_request_time(), None);
    assert_eq!(tracker.get_last_response_time(), None);
    assert_eq!(tracker.get_num_consecutive_failures(), 0);
    assert!(!tracker.in_flight_request());
    assert!(tracker.new_request_required());
}

#[test]
fn request_in_flight_excludes_another() {
    let now = Rc::new(Cell::new(5));
    let mut tracker = RequestTracker::new(INTERVAL_MS, mock_time(&now));
    tracker.request_started();
    assert!(tracker.in_flight_request());
    assert_eq!(tracker.get_last_request_time(), Some(at(5)));
    now.set(1_000_000);
    assert!(!tracker.new_request_required());
    tracker.request_completed();
    assert!(!tracker.in_flight_request());
    assert!(tracker.new_request_required());
}

#[test]
fn next_request_is_due_after_the_interval() {
    let now = Rc::new(Cell::new(5));
    let mut tracker = RequestTracker::new(INTERVAL_MS, mock_time(&now));
    tracker.request_started();
    tracker.request_completed();
    assert!(!tracker.new_request_required());
    now.set(105);
    assert!(!tracker.new_request_required());
    assert!(!tracker.new_request_required_at(at(105)));
    assert!(tracker.new_request_required_at(Instant { nanos: 105_000_001 }));
    now.set(106);
    assert!(tracker.new_request_required());
    now.set(1_000);
    assert!(tracker.new_request_required());
    // A clock that is behind requires nothing.
    now.set(0);
    assert!(!tracker.new_request_required());
}

#[test]
fn interval_may_be_of_any_length() {
    let mut tracker = RequestTracker::new(u64::MAX, || at(0));
    tracker.request_started_at(Instant { nanos: u128::MAX - 1 });
    tracker.request_completed();
    assert!(!tracker.new_request_required_at(Instant { nanos: u128::MAX }));
    let mut tracker = RequestTracker::new(u64::MAX, || at(0));
    tracker.request_started_at(at(0));
    tracker.request_completed();
    assert!(!tracker.new_request_required_at(at(u64::MAX)));
    assert!(tracker.new_request_required_at(Instant { nanos: at(u64::MAX).nanos + 1 }));
}

#[test]
fn failures_are_counted_until_a_response() {
    let now = Rc::new(Cell::new(0));
    let mut tracker = RequestTracker::new(INTERVAL_MS, mock_time(&now));
    tracker.record_response_success();
    // Ten bad responses, then a good one.
    for i in 0..10 {
        assert_eq!(tracker.get_num_consecutive_failures(), i);
        tracker.record_response_failure();
    }
    assert_eq!(tracker.get_num_consecutive_failures(), 10);
    assert_eq!(tracker.get_last_response_time(), Some(at(0)));
    now.set(50);
    tracker.record_response_success();
    assert_eq!(tracker.get_num_consecutive_failures(), 0);
    assert_eq!(tracker.get_last_response_time(), Some(at(50)));
    // Five requests without responses, then a good one.
    for _ in 0..5 {
        tracker.record_response_failure();
    }
    assert_eq!(tracker.get_num_consecutive_failures(), 5);
    tracker.record_response_success_at(at(70));
    assert_eq!(tracker.get_num_consecutive_failures(), 0);
    assert_eq!(tracker.get_last_response_time(), Some(at(70)));
}

#[test]
fn outcomes_leave_the_request_alone() {
    let now = Rc::new(Cell::new(5));
    let mut tracker = RequestTracker::new(INTERVAL_MS, mock_time(&now));
    tracker.request_started();
    now.set(10);
    tracker.record_response_success();
    tracker.record_response_failure();
    assert!(tracker.in_flight_request());
    assert_eq!(tracker.get_last_request_time(), Some(at(5)));
    tracker.request_completed();
    assert!(tracker.new_request_required_at(at(106)));
    assert!(!tracker.new_request_required_at(at(105)));
}

fn service_config() -> PeerMonitoringServiceConfig {
    PeerMonitoringServiceConfig {
        latency_monitoring: LatencyMonitoringConfig {
            latency_ping_interval_ms: 30_000,
            max_num_latency_pings_to_retain: 10,
        },
        network_monitoring: NetworkMonitoringConfig { network_info_request_interval_ms: 60_000 },
        peer_monitor_interval_ms: 1000,
    }
}

#[test]
fn elapsed_intervals_are_long_enough() {
    let config = service_config();
    assert_eq!(config.elapse_latency_update_interval(), 30_001);
    assert_eq!(config.elapse_network_info_update_interval(), 60_001);
    assert_eq!(config.elapse_peer_monitor_interval(), 1001);

    let now = Rc::new(Cell::new(7));
    let interval = config.latency_monitoring.latency_ping_interval_ms;
    let mut tracker = RequestTracker::new(interval, mock_time(&now));
    tracker.request_started();
    tracker.request_completed();
    now.set(now.get() + config.elapse_latency_update_interval());
    assert!(tracker.new_request_required());
    tracker.request_started();
    tracker.request_completed();
    now.set(now.get() + interval);
    assert!(!tracker.new_request_required());
}

#[test]
fn configs_can_leave_out_requests() {
    let config = service_config().get_config_without_latency_pings();
    assert_eq!(config.latency_monitoring.latency_ping_interval_ms, 1_000_000_000);
    assert_eq!(config.latency_monitoring.max_num_latency_pings_to_retain, 10);
    assert_eq!(config.network_monitoring, service_config().network_monitoring);
    assert_eq!(config.peer_monitor_interval_ms, 1000);
    let config = service_config().get_config_without_network_info_requests();
    assert_eq!(config.network_monitoring.network_info_request_interval_ms, 1_000_000_000);
    assert_eq!(config.latency_monitoring, service_config().latency_monitoring);
}
