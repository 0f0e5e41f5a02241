//! When to send the next request to a peer.

use crate::primitives::Instant;
use vstd::prelude::*;

verus! {

/// The number of nanoseconds in a millisecond.
pub const NANOS_PER_MILLI: u128 = 1_000_000;

impl Instant {
    /// The moment `millis` milliseconds after this one, as a number of nanoseconds.
    pub open spec fn nanos_after(self, millis: int) -> int {
        self.nanos + millis * NANOS_PER_MILLI
    }

    /// Returns whether this moment is more than `millis` milliseconds after `earlier`.
    pub fn is_later_than(&self, earlier: &Instant, millis: u64) -> (result: bool)
        ensures
            result == (self.nanos > earlier.nanos_after(millis as int)),
            result == (self.nanos - earlier.nanos > millis * 1_000_000),
    {
        self.nanos > earlier.nanos && self.nanos - earlier.nanos > (millis as u128)
            * NANOS_PER_MILLI
    }
}

/// The mathematical content of a [`RequestTracker`], without its clock.
#[verifier::ext_equal]
pub struct TrackerModel {
    /// Whether a request is currently in flight.
    pub in_flight_request: bool,
    /// The most recent request time.
    pub last_request_time: Option<Instant>,
    /// The most recent response time.
    pub last_response_time: Option<Instant>,
    /// The number of consecutive request failures.
    pub num_consecutive_failures: nat,
    /// The interval between requests, in milliseconds.
    pub request_interval_ms: nat,
}

impl TrackerModel {
    /// A tracker that has seen nothing yet.
    pub open spec fn fresh(request_interval_ms: nat) -> TrackerModel {
        TrackerModel {
            in_flight_request: false,
            last_request_time: None,
            last_response_time: None,
            num_consecutive_failures: 0,
            request_interval_ms,
        }
    }

    /// The state after the start of a request.
    pub open spec fn started(self, now: Instant) -> TrackerModel {
        TrackerModel { in_flight_request: true, last_request_time: Some(now), ..self }
    }

    /// The state after the completion of a request.
    pub open spec fn completed(self) -> TrackerModel {
        TrackerModel { in_flight_request: false, ..self }
    }

    /// The state after a successful response.
    pub open spec fn succeeded(self, now: Instant) -> TrackerModel {
        TrackerModel { last_response_time: Some(now), num_consecutive_failures: 0, ..self }
    }

    /// The state after a failure.
    pub open spec fn failed(self) -> TrackerModel {
        TrackerModel { num_consecutive_failures: self.num_consecutive_failures + 1, ..self }
    }

    /// Whether a new request should be sent at `now`: none is in flight, and none has been sent
    /// within the interval.
    pub open spec fn request_required(self, now: Instant) -> bool {
        &&& !self.in_flight_request
        &&& self.last_request_time matches Some(last_request_time) ==> now.nanos
            > last_request_time.nanos_after(self.request_interval_ms as int)
    }
}

/// A simple container that tracks request and response states. `time_service` tells the time.
#[derive(Clone, Debug)]
pub struct RequestTracker<C> {
    in_flight_request: bool,
    last_request_time: Option<Instant>,
    last_response_time: Option<Instant>,
    num_consecutive_request_failures: u64,
    request_interval_ms: u64,
    time_service: C,
}

impl<C> View for RequestTracker<C> {
    type V = TrackerModel;

    closed spec fn view(&self) -> TrackerModel {
        TrackerModel {
            in_flight_request: self.in_flight_request,
            last_request_time: self.last_request_time,
            last_response_time: self.last_response_time,
            num_consecutive_failures: self.num_consecutive_request_failures as nat,
            request_interval_ms: self.request_interval_ms as nat,
        }
    }
}

impl<C> RequestTracker<C> {
    /// The clock.
    pub closed spec fn clock(self) -> C {
        self.time_service
    }

    /// Makes a tracker that has seen nothing yet.
    pub fn new(request_interval_ms: u64, time_service: C) -> (result: RequestTracker<C>)
        ensures
            result@ == TrackerModel::fresh(request_interval_ms as nat),
            result.clock() == time_service,
    {
        RequestTracker {
            in_flight_request: false,
            last_request_time: None,
            last_response_time: None,
            num_consecutive_request_failures: 0,
            request_interval_ms,
            time_service,
        }
    }

    /// Returns the last request time.
    pub fn get_last_request_time(&self) -> (result: Option<Instant>)
        ensures
            result == self@.last_request_time,
    {
        self.last_request_time
    }

    /// Returns the last response time.
    pub fn get_last_response_time(&self) -> (result: Option<Instant>)
        ensures
            result == self@.last_response_time,
    {
        self.last_response_time
    }

    /// Returns the number of consecutive failures.
    pub fn get_num_consecutive_failures(&self) -> (result: u64)
        ensures
            result == self@.num_consecutive_failures,
    {
        self.num_consecutive_request_failures
    }

    /// Returns true iff there is a request currently in flight.
    pub fn in_flight_request(&self) -> (result: bool)
        ensures
            result == self@.in_flight_request,
    {
        self.in_flight_request
    }

    /// Updates the state to mark a request as having started at `now`.
    pub fn request_started_at(&mut self, now: Instant)
        ensures
            final(self)@ == old(self)@.started(now),
            final(self)@.in_flight_request,
            final(self)@.last_request_time == Some(now),
            final(self)@.last_response_time == old(self)@.last_response_time,
            final(self)@.num_consecutive_failures == old(self)@.num_consecutive_failures,
            final(self)@.request_interval_ms == old(self)@.request_interval_ms,
            final(self).clock() == old(self).clock(),
    {
        // Mark the request as in-flight
        self.in_flight_request = true;

        // Update the last request time
        self.last_request_time = Some(now);
    }

    /// Updates the state to mark a request as having completed.
    pub fn request_completed(&mut self)
        ensures
            final(self)@ == old(self)@.completed(),
            !final(self)@.in_flight_request,
            final(self)@.last_request_time == old(self)@.last_request_time,
            final(self)@.last_response_time == old(self)@.last_response_time,
            final(self)@.num_consecutive_failures == old(self)@.num_consecutive_failures,
            final(self)@.request_interval_ms == old(self)@.request_interval_ms,
            final(self).clock() == old(self).clock(),
    {
        self.in_flight_request = false;
    }

    /// Returns true iff a new request should be sent at `now`.
    pub fn new_request_required_at(&self, now: Instant) -> (result: bool)
        ensures
            result == self@.request_required(now),
            result == (!self@.in_flight_request && (self@.last_request_time matches Some(
                last_request_time,
            ) ==> now.nanos - last_request_time.nanos > self@.request_interval_ms * 1_000_000)),
    {
        // There's already an in-flight request. A new one should not be sent.
        if self.in_flight_request() {
            return false;
        }
        // Otherwise, check the last request time for freshness
        match self.last_request_time {
            Some(last_request_time) => now.is_later_than(
                &last_request_time,
                self.request_interval_ms,
            ),
            None => true,  // A request should be sent immediately
        }
    }

    /// Records a successful response for the request at `now`.
    pub fn record_response_success_at(&mut self, now: Instant)
        ensures
            final(self)@ == old(self)@.succeeded(now),
            final(self)@.last_response_time == Some(now),
            final(self)@.num_consecutive_failures == 0,
            final(self)@.in_flight_request == old(self)@.in_flight_request,
            final(self)@.last_request_time == old(self)@.last_request_time,
            final(self)@.request_interval_ms == old(self)@.request_interval_ms,
            final(self).clock() == old(self).clock(),
    {
        // Update the last response time
        self.last_response_time = Some(now);

        // Reset the number of consecutive failures
        self.num_consecutive_request_failures = 0;
    }

    /// Records a failure for the request.
    pub fn record_response_failure(&mut self)
        requires
            old(self)@.num_consecutive_failures < u64::MAX,
        ensures
            final(self)@ == old(self)@.failed(),
            final(self)@.num_consecutive_failures == old(self)@.num_consecutive_failures + 1,
            final(self)@.in_flight_request == old(self)@.in_flight_request,
            final(self)@.last_request_time == old(self)@.last_request_time,
            final(self)@.last_response_time == old(self)@.last_response_time,
            final(self)@.request_interval_ms == old(self)@.request_interval_ms,
            final(self).clock() == old(self).clock(),
    {
        self.num_consecutive_request_failures = self.num_consecutive_request_failures + 1;
    }
}

impl<C: Fn() -> Instant> RequestTracker<C> {
    /// Updates the state to mark a request as having started.
    pub fn request_started(&mut self)
        requires
            call_requires(old(self).clock(), ()),
        ensures
            exists|now: Instant|
                #[trigger] call_ensures(old(self).clock(), (), now) && final(self)@ == old(
                    self,
                )@.started(now),
            final(self).clock() == old(self).clock(),
    {
        let now: Instant = (self.time_service)();
        self.request_started_at(now);
    }

    /// Returns true iff a new request should be sent (based on the latest request time).
    pub fn new_request_required(&self) -> (result: bool)
        requires
            call_requires(self.clock(), ()),
        ensures
            exists|now: Instant|
                #[trigger] call_ensures(self.clock(), (), now) && result == self@.request_required(
                    now,
                ),
    {
        let now: Instant = (self.time_service)();
        self.new_request_required_at(now)
    }

    /// Records a successful response for the request.
    pub fn record_response_success(&mut self)
        requires
            call_requires(old(self).clock(), ()),
        ensures
            exists|now: Instant|
                #[trigger] call_ensures(old(self).clock(), (), now) && final(self)@ == old(
                    self,
                )@.succeeded(now),
            final(self).clock() == old(self).clock(),
    {
        let now: Instant = (self.time_service)();
        self.record_response_success_at(now);
    }
}

} // verus!
