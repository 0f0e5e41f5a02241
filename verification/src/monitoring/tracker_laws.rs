//! What holds of every history of a
//! [`RequestTracker`](crate::monitoring::request_tracker::RequestTracker).

use crate::monitoring::request_tracker::{RequestTracker, TrackerModel};
use crate::primitives::Instant;
use vstd::prelude::*;

verus! {

/// What can happen to a tracker.
pub enum TrackerEvent {
    /// A request started.
    Started(Instant),
    /// A request was completed.
    Completed,
    /// A response came in.
    Succeeded(Instant),
    /// A request failed.
    Failed,
}

impl TrackerModel {
    /// The state after `event`.
    pub open spec fn after(self, event: TrackerEvent) -> TrackerModel {
        match event {
            TrackerEvent::Started(now) => self.started(now),
            TrackerEvent::Completed => self.completed(),
            TrackerEvent::Succeeded(now) => self.succeeded(now),
            TrackerEvent::Failed => self.failed(),
        }
    }

    /// The state after `events`, in their order.
    pub open spec fn run(self, events: Seq<TrackerEvent>) -> TrackerModel
        decreases events.len(),
    {
        if events.len() == 0 {
            self
        } else {
            self.run(events.drop_last()).after(events.last())
        }
    }
}

/// The number of failures since the last response.
pub open spec fn failures_since_response(events: Seq<TrackerEvent>) -> nat
    decreases events.len(),
{
    if events.len() == 0 {
        0
    } else {
        match events.last() {
            TrackerEvent::Failed => failures_since_response(events.drop_last()) + 1,
            TrackerEvent::Succeeded(_) => 0,
            _ => failures_since_response(events.drop_last()),
        }
    }
}

/// The time of the last start of a request.
pub open spec fn last_start(events: Seq<TrackerEvent>) -> Option<Instant>
    decreases events.len(),
{
    if events.len() == 0 {
        None
    } else {
        match events.last() {
            TrackerEvent::Started(now) => Some(now),
            _ => last_start(events.drop_last()),
        }
    }
}

/// The time of the last response.
pub open spec fn last_success(events: Seq<TrackerEvent>) -> Option<Instant>
    decreases events.len(),
{
    if events.len() == 0 {
        None
    } else {
        match events.last() {
            TrackerEvent::Succeeded(now) => Some(now),
            _ => last_success(events.drop_last()),
        }
    }
}

/// Whether a request was started and not completed since.
pub open spec fn request_open(events: Seq<TrackerEvent>) -> bool
    decreases events.len(),
{
    events.len() > 0 && match events.last() {
        TrackerEvent::Started(_) => true,
        TrackerEvent::Completed => false,
        _ => request_open(events.drop_last()),
    }
}

/// A tracker reports its history: the last request time, the last response time, the number of
/// failures since the last response, and whether a request is still open.
pub proof fn tracker_reports_its_history(request_interval_ms: nat, events: Seq<TrackerEvent>)
    ensures
        TrackerModel::fresh(request_interval_ms).run(events) == (TrackerModel {
            in_flight_request: request_open(events),
            last_request_time: last_start(events),
            last_response_time: last_success(events),
            num_consecutive_failures: failures_since_response(events),
            request_interval_ms,
        }),
    decreases events.len(),
{
    if events.len() > 0 {
        tracker_reports_its_history(request_interval_ms, events.drop_last());
    }
}

/// A tracker that has seen nothing yet requires a request immediately.
pub proof fn first_request_is_required_immediately(request_interval_ms: nat, now: Instant)
    ensures
        TrackerModel::fresh(request_interval_ms).request_required(now),
{
}

/// While a request is in flight, no other is required, however late it is.
pub proof fn no_request_while_one_is_in_flight(
    tracker: TrackerModel,
    started: Instant,
    now: Instant,
)
    ensures
        !tracker.started(started).request_required(now),
{
}

/// Once a request is completed, the next one is required exactly when more than the interval has
/// passed since it started, in nanoseconds of which a million make a millisecond.
pub proof fn requests_are_an_interval_apart(
    tracker: TrackerModel,
    started: Instant,
    now: Instant,
)
    ensures
        tracker.started(started).completed().request_required(now) <==> now.nanos - started.nanos
            > tracker.request_interval_ms * 1_000_000,
{
}

/// A moment is later than another by more than some milliseconds exactly if more than a million
/// times as many nanoseconds lie between them.
pub proof fn moments_are_compared_by_their_distance(
    earlier: Instant,
    later: Instant,
    millis: u64,
    result: bool,
)
    requires
        call_ensures(Instant::is_later_than, (&later, &earlier, millis), result),
    ensures
        result <==> later.nanos - earlier.nanos > millis * 1_000_000,
{
}

/// Only the distance of two moments counts: where one pair of them is more than some milliseconds
/// apart, so is every pair that is as far apart or farther.
pub proof fn only_the_distance_of_moments_counts(
    earlier: Instant,
    later: Instant,
    moved_earlier: Instant,
    moved_later: Instant,
    millis: u64,
    result: bool,
    moved_result: bool,
)
    requires
        call_ensures(Instant::is_later_than, (&later, &earlier, millis), result),
        call_ensures(Instant::is_later_than, (&moved_later, &moved_earlier, millis), moved_result),
        later.nanos - earlier.nanos <= moved_later.nanos - moved_earlier.nanos,
    ensures
        result ==> moved_result,
{
}

/// A new request is required of a tracker exactly if none is in flight, and none was ever started
/// or more than the interval has passed since the last one was: the difference of the two moments
/// in nanoseconds is more than a million times the interval in milliseconds.
pub proof fn request_is_required_after_the_interval<C>(
    tracker: RequestTracker<C>,
    now: Instant,
    required: bool,
)
    requires
        call_ensures(RequestTracker::<C>::new_request_required_at, (&tracker, now), required),
    ensures
        tracker@.in_flight_request ==> !required,
        !tracker@.in_flight_request && tracker@.last_request_time is None ==> required,
        !tracker@.in_flight_request ==> (tracker@.last_request_time matches Some(started) ==> (
        required <==> now.nanos - started.nanos > tracker@.request_interval_ms * 1_000_000)),
{
}

/// Whether a new request is required is decided by a moment that the clock of the tracker gave.
pub proof fn requirement_goes_by_the_clock<C: Fn() -> Instant>(
    tracker: RequestTracker<C>,
    required: bool,
)
    requires
        call_ensures(RequestTracker::<C>::new_request_required, (&tracker,), required),
    ensures
        exists|now: Instant|
            {
                &&& #[trigger] call_ensures(tracker.clock(), (), now)
                &&& required <==> !tracker@.in_flight_request && (
                tracker@.last_request_time matches Some(started) ==> now.nanos - started.nanos
                    > tracker@.request_interval_ms * 1_000_000)
            },
{
    let now = choose|now: Instant|
        #[trigger] call_ensures(tracker.clock(), (), now) && required
            == tracker@.request_required(now);
    assert(call_ensures(tracker.clock(), (), now));
}

/// A new tracker has the given interval and clock and has seen nothing; and what a tracker has seen
/// is what its getters return.
pub proof fn new_tracker_has_seen_nothing<C>(
    request_interval_ms: u64,
    time_service: C,
    tracker: RequestTracker<C>,
    last_request_time: Option<Instant>,
    last_response_time: Option<Instant>,
    failures: u64,
    in_flight: bool,
)
    requires
        call_ensures(RequestTracker::<C>::new, (request_interval_ms, time_service), tracker),
        call_ensures(RequestTracker::<C>::get_last_request_time, (&tracker,), last_request_time),
        call_ensures(RequestTracker::<C>::get_last_response_time, (&tracker,), last_response_time),
        call_ensures(RequestTracker::<C>::get_num_consecutive_failures, (&tracker,), failures),
        call_ensures(RequestTracker::<C>::in_flight_request, (&tracker,), in_flight),
    ensures
        last_request_time is None,
        last_response_time is None,
        failures == 0,
        !in_flight,
        tracker@.request_interval_ms == request_interval_ms,
        tracker.clock() == time_service,
{
}

/// The getters of a tracker return what it has seen, each its own part of it.
pub proof fn getters_tell_what_was_seen<C>(
    tracker: RequestTracker<C>,
    last_request_time: Option<Instant>,
    last_response_time: Option<Instant>,
    failures: u64,
    in_flight: bool,
)
    requires
        call_ensures(RequestTracker::<C>::get_last_request_time, (&tracker,), last_request_time),
        call_ensures(RequestTracker::<C>::get_last_response_time, (&tracker,), last_response_time),
        call_ensures(RequestTracker::<C>::get_num_consecutive_failures, (&tracker,), failures),
        call_ensures(RequestTracker::<C>::in_flight_request, (&tracker,), in_flight),
    ensures
        last_request_time == tracker@.last_request_time,
        last_response_time == tracker@.last_response_time,
        failures == tracker@.num_consecutive_failures,
        in_flight == tracker@.in_flight_request,
{
}

/// Each event changes only what it is about: a start the time of the last request and that one is
/// in flight; a completion that none is; a response the time of the last response and the failures,
/// which it resets; and a failure the failures, to which it adds one. The interval never changes.
pub proof fn events_change_only_what_they_are_about(tracker: TrackerModel, now: Instant)
    ensures
        tracker.started(now) == (TrackerModel {
            in_flight_request: true,
            last_request_time: Some(now),
            last_response_time: tracker.last_response_time,
            num_consecutive_failures: tracker.num_consecutive_failures,
            request_interval_ms: tracker.request_interval_ms,
        }),
        tracker.completed() == (TrackerModel {
            in_flight_request: false,
            last_request_time: tracker.last_request_time,
            last_response_time: tracker.last_response_time,
            num_consecutive_failures: tracker.num_consecutive_failures,
            request_interval_ms: tracker.request_interval_ms,
        }),
        tracker.succeeded(now) == (TrackerModel {
            in_flight_request: tracker.in_flight_request,
            last_request_time: tracker.last_request_time,
            last_response_time: Some(now),
            num_consecutive_failures: 0,
            request_interval_ms: tracker.request_interval_ms,
        }),
        tracker.failed() == (TrackerModel {
            in_flight_request: tracker.in_flight_request,
            last_request_time: tracker.last_request_time,
            last_response_time: tracker.last_response_time,
            num_consecutive_failures: tracker.num_consecutive_failures + 1,
            request_interval_ms: tracker.request_interval_ms,
        }),
{
}

/// A start leaves a request in flight that started then, and nothing else changes.
pub proof fn start_is_recorded<C>(tracker: &mut RequestTracker<C>, now: Instant)
    requires
        call_ensures(RequestTracker::<C>::request_started_at, (tracker, now), ()),
    ensures
        final(tracker)@.in_flight_request,
        final(tracker)@.last_request_time == Some(now),
        final(tracker)@.last_response_time == old(tracker)@.last_response_time,
        final(tracker)@.num_consecutive_failures == old(tracker)@.num_consecutive_failures,
        final(tracker)@.request_interval_ms == old(tracker)@.request_interval_ms,
        final(tracker).clock() == old(tracker).clock(),
{
}

/// A completion leaves no request in flight, and nothing else changes.
pub proof fn completion_is_recorded<C>(tracker: &mut RequestTracker<C>)
    requires
        call_ensures(RequestTracker::<C>::request_completed, (tracker,), ()),
    ensures
        !final(tracker)@.in_flight_request,
        final(tracker)@.last_request_time == old(tracker)@.last_request_time,
        final(tracker)@.last_response_time == old(tracker)@.last_response_time,
        final(tracker)@.num_consecutive_failures == old(tracker)@.num_consecutive_failures,
        final(tracker)@.request_interval_ms == old(tracker)@.request_interval_ms,
        final(tracker).clock() == old(tracker).clock(),
{
}

/// A response leaves its time and no failures, and nothing else changes.
pub proof fn response_is_recorded<C>(tracker: &mut RequestTracker<C>, now: Instant)
    requires
        call_ensures(RequestTracker::<C>::record_response_success_at, (tracker, now), ()),
    ensures
        final(tracker)@.last_response_time == Some(now),
        final(tracker)@.num_consecutive_failures == 0,
        final(tracker)@.in_flight_request == old(tracker)@.in_flight_request,
        final(tracker)@.last_request_time == old(tracker)@.last_request_time,
        final(tracker)@.request_interval_ms == old(tracker)@.request_interval_ms,
        final(tracker).clock() == old(tracker).clock(),
{
}

/// A failure leaves one failure more, and nothing else changes.
pub proof fn failure_is_recorded<C>(tracker: &mut RequestTracker<C>)
    requires
        call_ensures(RequestTracker::<C>::record_response_failure, (tracker,), ()),
    ensures
        final(tracker)@.num_consecutive_failures - old(tracker)@.num_consecutive_failures == 1,
        final(tracker)@.in_flight_request == old(tracker)@.in_flight_request,
        final(tracker)@.last_request_time == old(tracker)@.last_request_time,
        final(tracker)@.last_response_time == old(tracker)@.last_response_time,
        final(tracker)@.request_interval_ms == old(tracker)@.request_interval_ms,
        final(tracker).clock() == old(tracker).clock(),
{
}

/// A start by the clock is one at a moment that the clock gave.
pub proof fn start_is_recorded_by_the_clock<C: Fn() -> Instant>(tracker: &mut RequestTracker<C>)
    requires
        call_ensures(RequestTracker::<C>::request_started, (tracker,), ()),
    ensures
        final(tracker)@.in_flight_request,
        final(tracker)@.last_request_time matches Some(now) && call_ensures(
            old(tracker).clock(),
            (),
            now,
        ),
        final(tracker)@.last_response_time == old(tracker)@.last_response_time,
        final(tracker)@.num_consecutive_failures == old(tracker)@.num_consecutive_failures,
        final(tracker)@.request_interval_ms == old(tracker)@.request_interval_ms,
        final(tracker).clock() == old(tracker).clock(),
{
}

/// A response by the clock is one at a moment that the clock gave.
pub proof fn response_is_recorded_by_the_clock<C: Fn() -> Instant>(tracker: &mut RequestTracker<C>)
    requires
        call_ensures(RequestTracker::<C>::record_response_success, (tracker,), ()),
    ensures
        final(tracker)@.last_response_time matches Some(now) && call_ensures(
            old(tracker).clock(),
            (),
            now,
        ),
        final(tracker)@.num_consecutive_failures == 0,
        final(tracker)@.in_flight_request == old(tracker)@.in_flight_request,
        final(tracker)@.last_request_time == old(tracker)@.last_request_time,
        final(tracker)@.request_interval_ms == old(tracker)@.request_interval_ms,
        final(tracker).clock() == old(tracker).clock(),
{
}

/// A request that is required stays required until one is started.
pub proof fn requirement_is_lasting(tracker: TrackerModel, now: Instant, later: Instant)
    requires
        tracker.request_required(now),
        now.nanos <= later.nanos,
    ensures
        tracker.request_required(later),
{
}

/// What comes of a request neither ends it nor moves the time of the next one.
pub proof fn outcomes_do_not_move_requests(
    tracker: TrackerModel,
    response: Instant,
    now: Instant,
)
    ensures
        tracker.succeeded(response).request_required(now) == tracker.request_required(now),
        tracker.failed().request_required(now) == tracker.request_required(now),
        tracker.succeeded(response).in_flight_request == tracker.in_flight_request,
        tracker.failed().in_flight_request == tracker.in_flight_request,
{
}

/// A response resets the number of consecutive failures, however many there were; a failure
/// leaves the last response time alone.
pub proof fn response_resets_failures(tracker: TrackerModel, response: Instant)
    ensures
        tracker.succeeded(response).num_consecutive_failures == 0,
        tracker.failed().last_response_time == tracker.last_response_time,
{
}

/// A tracker can be made with any interval and asked at any moment, and asked by the clock wherever
/// the clock can be read.
pub proof fn tracker_can_always_be_asked<C: Fn() -> Instant>(
    tracker: RequestTracker<C>,
    now: Instant,
    earlier: Instant,
    millis: u64,
    clock: C,
)
    ensures
        call_requires(Instant::is_later_than, (&now, &earlier, millis)),
        call_requires(RequestTracker::<C>::new, (millis, clock)),
        call_requires(RequestTracker::<C>::new_request_required_at, (&tracker, now)),
        call_requires(tracker.clock(), ()) ==> call_requires(
            RequestTracker::<C>::new_request_required,
            (&tracker,),
        ),
{
}

/// A failure can be recorded as long as it can be counted.
pub proof fn failures_can_be_counted<C>(tracker: &mut RequestTracker<C>)
    requires
        old(tracker)@.num_consecutive_failures < u64::MAX,
    ensures
        call_requires(RequestTracker::<C>::record_response_failure, (tracker,)),
{
}

} // verus!
