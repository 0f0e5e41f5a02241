//! What holds of every run of a [`DatastreamSession`](crate::indexer::service::DatastreamSession),
//! whatever the cache, the file store and the response channel answer.

use crate::indexer::datastream::{DatastreamResponseModel, RawDatastreamModel, TransactionOutput};
use crate::indexer::service::{
    CacheBatchGetStatus, DatastreamSession, Room, SendOutcome, ServeActionModel, ServeEvent,
    ServePhase, MAX_RESPONSE_CHANNEL_SIZE,
};
use vstd::prelude::*;

verus! {

impl DatastreamSession {
    /// The state after `events`, in their order.
    pub open spec fn run(self, events: Seq<ServeEvent>) -> DatastreamSession
        decreases events.len(),
    {
        if events.len() == 0 {
            self
        } else {
            self.run(events.drop_last()).next(events.last()).0
        }
    }

    /// Each of the `events` answers the outside work that the session waits for at that point.
    pub open spec fn answers(self, events: Seq<ServeEvent>) -> bool
        decreases events.len(),
    {
        events.len() > 0 ==> {
            &&& self.answers(events.drop_last())
            &&& self.run(events.drop_last()).expects_event(events.last())
        }
    }

    /// The transactions that are on their way into the channel after `events`.
    pub open spec fn in_flight(self, events: Seq<ServeEvent>) -> Seq<TransactionOutput> {
        if events.len() == 0 {
            Seq::empty()
        } else {
            match self.run(events.drop_last()).next(events.last()).1 {
                ServeActionModel::Send(response) => match response.response {
                    Some(DatastreamResponseModel::Data(transactions)) => transactions,
                    _ => Seq::empty(),
                },
                _ => Seq::empty(),
            }
        }
    }

    /// The transactions that the channel has taken, in the order in which it took them.
    pub open spec fn delivered(self, events: Seq<ServeEvent>) -> Seq<TransactionOutput>
        decreases events.len(),
    {
        if events.len() == 0 {
            Seq::empty()
        } else if events.last() == ServeEvent::ResponseSent(SendOutcome::Sent) {
            self.delivered(events.drop_last()) + self.in_flight(events.drop_last())
        } else {
            self.delivered(events.drop_last())
        }
    }
}

/// `transactions` have the versions from `version` on, one after the other.
pub open spec fn consecutive(transactions: Seq<TransactionOutput>, version: int) -> bool {
    forall|i: int|
        0 <= i < transactions.len() ==> (#[trigger] transactions[i]).version == version + i
}

/// A client gets the versions from the one that it asked for on, one after the other, without a
/// gap and without a repetition; and the session asks next for the version after the last one
/// that was delivered.
pub proof fn delivery_is_gapless(session: DatastreamSession, events: Seq<ServeEvent>)
    requires
        session.phase !is Sending,
        session.answers(events),
    ensures
        consecutive(session.delivered(events), session.current_version as int),
        session.run(events).phase !is Ended ==> session.run(events).current_version
            == session.current_version + session.delivered(events).len(),
        session.run(events).phase matches ServePhase::Sending { batch_size } ==> {
            &&& session.in_flight(events).len() == batch_size
            &&& consecutive(
                session.in_flight(events),
                session.current_version + session.delivered(events).len(),
            )
        },
    decreases events.len(),
{
    if events.len() > 0 {
        delivery_is_gapless(session, events.drop_last());
        match events.last() {
            ServeEvent::CacheAnswered(Ok(CacheBatchGetStatus::Ready(encoded))) => {
                assert(encoded.len() == encoded@.len());
            },
            ServeEvent::FileStoreAnswered(Ok(encoded)) => {
                assert(encoded.len() == encoded@.len());
            },
            _ => {},
        }
    }
}

/// Whatever a session asks the cache or the file store for, it asks for it from the current
/// version on.
pub proof fn fetches_are_from_the_current_version(session: DatastreamSession, event: ServeEvent)
    requires
        session.expects_event(event),
    ensures
        match session.next(event).1 {
            ServeActionModel::FetchFromCache { starting_version } => starting_version
                == session.next(event).0.current_version,
            ServeActionModel::FetchFromFileStore { starting_version } => starting_version
                == session.next(event).0.current_version,
            _ => true,
        },
{
}

/// The cache is asked for data only right after the channel was seen to have room, and the file
/// store only right after the cache was asked.
pub proof fn nothing_is_fetched_without_room(session: DatastreamSession, event: ServeEvent)
    requires
        session.expects_event(event),
    ensures
        session.next(event).1 is FetchFromCache ==> event == ServeEvent::RoomChecked(Room::Free),
        session.next(event).1 is FetchFromFileStore ==> session.phase is FetchingFromCache,
{
}

/// The session asks the cache or the file store for data as its answer to the last of the `events`.
pub open spec fn ends_in_fetch(session: DatastreamSession, events: Seq<ServeEvent>) -> bool {
    let action = session.run(events.drop_last()).next(events.last()).1;
    action is FetchFromCache || action is FetchFromFileStore
}

/// While the channel is full nothing is fetched: once a session has come to look at the channel or
/// to wait, it asks neither the cache nor the file store for anything until the channel is seen to
/// have room, however long that takes. Until then it delivers nothing, and the version that it
/// goes on with stays the same.
pub proof fn full_channel_stops_fetching(session: DatastreamSession, events: Seq<ServeEvent>)
    requires
        session.phase is CheckingRoom || session.phase is Sleeping,
        session.answers(events),
        forall|i: int|
            0 <= i < events.len() ==> #[trigger] events[i] != ServeEvent::RoomChecked(Room::Free),
    ensures
        forall|n: int|
            0 < n <= events.len() ==> !ends_in_fetch(session, #[trigger] events.take(n)),
        session.delivered(events) == Seq::<TransactionOutput>::empty(),
        session.run(events).current_version == session.current_version,
        ({
            let phase = session.run(events).phase;
            phase is CheckingRoom || phase is Sleeping || phase is Ended
        }),
    decreases events.len(),
{
    if events.len() > 0 {
        let before = events.drop_last();
        assert forall|i: int| 0 <= i < before.len() implies #[trigger] before[i]
            != ServeEvent::RoomChecked(Room::Free) by {
            assert(before[i] == events[i]);
        }
        full_channel_stops_fetching(session, before);
        assert(events[events.len() - 1] == events.last());
        assert forall|n: int| 0 < n <= events.len() implies !ends_in_fetch(
            session,
            #[trigger] events.take(n),
        ) by {
            if n < events.len() {
                assert(events.take(n) =~= before.take(n));
            } else {
                assert(events.take(n) =~= events);
            }
        }
    }
}

/// The number of responses that the channel has taken.
pub open spec fn sent(events: Seq<ServeEvent>) -> nat
    decreases events.len(),
{
    if events.len() == 0 {
        0
    } else if events.last() == ServeEvent::ResponseSent(SendOutcome::Sent) {
        sent(events.drop_last()) + 1
    } else {
        sent(events.drop_last())
    }
}

/// What happens to a session and to its channel.
pub enum Moment {
    /// The session is told what its outside work came to.
    Served(ServeEvent),
    /// The client reads a response from the channel.
    ResponseRead,
}

/// What the session was told, in its order.
pub open spec fn served(moments: Seq<Moment>) -> Seq<ServeEvent>
    decreases moments.len(),
{
    if moments.len() == 0 {
        Seq::empty()
    } else {
        match moments.last() {
            Moment::Served(event) => served(moments.drop_last()).push(event),
            Moment::ResponseRead => served(moments.drop_last()),
        }
    }
}

/// The number of responses that the client has read.
pub open spec fn read(moments: Seq<Moment>) -> nat
    decreases moments.len(),
{
    if moments.len() == 0 {
        0
    } else if moments.last() is ResponseRead {
        read(moments.drop_last()) + 1
    } else {
        read(moments.drop_last())
    }
}

/// The number of responses that are in the channel: those that it has taken and that the client has
/// not read.
pub open spec fn unread(moments: Seq<Moment>) -> int {
    sent(served(moments)) - read(moments)
}

/// The channel is of size [`MAX_RESPONSE_CHANNEL_SIZE`] and empty at first; the client stays and
/// reads only what is there; and a look at the channel shows what the responses in it leave of it.
pub open spec fn looks_are_true(moments: Seq<Moment>) -> bool
    decreases moments.len(),
{
    moments.len() > 0 ==> {
        let before = moments.drop_last();
        &&& looks_are_true(before)
        &&& match moments.last() {
            Moment::Served(ServeEvent::RoomChecked(room)) => room == Room::of(
                false,
                (MAX_RESPONSE_CHANNEL_SIZE - unread(before)) as nat,
            ),
            Moment::Served(_) => true,
            Moment::ResponseRead => unread(before) > 0,
        }
    }
}

/// Besides, the channel takes a response exactly when it has room for it.
pub open spec fn channel_is_open(moments: Seq<Moment>) -> bool
    decreases moments.len(),
{
    &&& looks_are_true(moments)
    &&& moments.len() > 0 ==> {
        let before = moments.drop_last();
        &&& channel_is_open(before)
        &&& moments.last() matches Moment::Served(ServeEvent::ResponseSent(outcome)) ==> outcome
            == if unread(before) < MAX_RESPONSE_CHANNEL_SIZE {
            SendOutcome::Sent
        } else {
            SendOutcome::Full
        }
    }
}

/// At no moment are there more unread responses than the channel can hold, however the client
/// reads; and whenever data is fetched or a response is sent there is room for it.
pub proof fn unread_responses_are_bounded(session: DatastreamSession, moments: Seq<Moment>)
    requires
        session.phase is CheckingRoom,
        session.answers(served(moments)),
        looks_are_true(moments),
    ensures
        forall|n: int|
            0 <= n <= moments.len() ==> sent(served(#[trigger] moments.take(n))) <= read(
                moments.take(n),
            ) + MAX_RESPONSE_CHANNEL_SIZE,
        0 <= unread(moments) <= MAX_RESPONSE_CHANNEL_SIZE,
        ({
            let phase = session.run(served(moments)).phase;
            phase is FetchingFromCache || phase is FetchingFromFileStore || phase is Sending
                ==> unread(moments) < MAX_RESPONSE_CHANNEL_SIZE
        }),
    decreases moments.len(),
{
    assert(moments.take(moments.len() as int) =~= moments);
    if moments.len() > 0 {
        let before = moments.drop_last();
        if let Moment::Served(event) = moments.last() {
            assert(served(moments).drop_last() =~= served(before));
        }
        unread_responses_are_bounded(session, before);
        assert forall|n: int| 0 <= n <= moments.len() implies sent(
            served(#[trigger] moments.take(n)),
        ) <= read(moments.take(n)) + MAX_RESPONSE_CHANNEL_SIZE by {
            if n < moments.len() {
                assert(moments.take(n) =~= before.take(n));
            }
        }
    }
}

/// Room that was found stays until a response is sent: an open channel refuses none.
pub proof fn open_channel_refuses_nothing(session: DatastreamSession, moments: Seq<Moment>)
    requires
        session.phase is CheckingRoom,
        session.answers(served(moments)),
        channel_is_open(moments),
    ensures
        forall|i: int|
            0 <= i < moments.len() ==> #[trigger] moments[i] != Moment::Served(
                ServeEvent::ResponseSent(SendOutcome::Full),
            ) && moments[i] != Moment::Served(ServeEvent::ResponseSent(SendOutcome::Closed)),
    decreases moments.len(),
{
    if moments.len() > 0 {
        let before = moments.drop_last();
        if let Moment::Served(event) = moments.last() {
            assert(served(moments).drop_last() =~= served(before));
        }
        unread_responses_are_bounded(session, before);
        open_channel_refuses_nothing(session, before);
        assert forall|i: int| 0 <= i < moments.len() implies #[trigger] moments[i]
            != Moment::Served(ServeEvent::ResponseSent(SendOutcome::Full)) && moments[i]
            != Moment::Served(ServeEvent::ResponseSent(SendOutcome::Closed)) by {
            if i < before.len() {
                assert(before[i] == moments[i]);
            } else {
                assert(moments[i] == moments.last());
            }
        }
    }
}

/// The batches that the cache and the file store have handed out, in their order.
pub open spec fn batches(events: Seq<ServeEvent>) -> Seq<Seq<String>>
    decreases events.len(),
{
    if events.len() == 0 {
        Seq::empty()
    } else {
        match handed_out(events.last()) {
            Some(batch) => batches(events.drop_last()).push(batch),
            None => batches(events.drop_last()),
        }
    }
}

/// The number of transactions in `batches`.
pub open spec fn total(batches: Seq<Seq<String>>) -> nat
    decreases batches.len(),
{
    if batches.len() == 0 {
        0
    } else {
        total(batches.drop_last()) + batches.last().len()
    }
}

/// Every fetch succeeds: the cache hands out a batch that is not empty, or has dropped it, and then
/// the file store hands out one that is not empty.
pub open spec fn every_fetch_succeeds(events: Seq<ServeEvent>) -> bool
    decreases events.len(),
{
    events.len() > 0 ==> {
        &&& every_fetch_succeeds(events.drop_last())
        &&& match events.last() {
            ServeEvent::CacheAnswered(Ok(CacheBatchGetStatus::Ready(encoded))) => encoded@.len()
                > 0,
            ServeEvent::CacheAnswered(Ok(CacheBatchGetStatus::EvictedFromCache)) => true,
            ServeEvent::CacheAnswered(_) => false,
            ServeEvent::FileStoreAnswered(Ok(encoded)) => encoded@.len() > 0,
            ServeEvent::FileStoreAnswered(Err(_)) => false,
            _ => true,
        }
    }
}

/// The responses that carry `batches` to a client, in their order: one for each, with the versions
/// from `version` on.
pub open spec fn responses_for(
    batches: Seq<Seq<String>>,
    version: int,
    chain_id: u32,
) -> Seq<RawDatastreamModel>
    decreases batches.len(),
{
    if batches.len() == 0 {
        Seq::empty()
    } else {
        responses_for(batches.drop_last(), version, chain_id).push(
            crate::indexer::service::response_of(
                crate::indexer::service::with_versions(
                    batches.last(),
                    version + total(batches.drop_last()),
                ),
                chain_id,
            ),
        )
    }
}

impl DatastreamSession {
    /// The responses that the channel has taken, in the order in which it took them.
    pub open spec fn responses(self, events: Seq<ServeEvent>) -> Seq<RawDatastreamModel>
        decreases events.len(),
    {
        if events.len() == 0 {
            Seq::empty()
        } else if events.last() == ServeEvent::ResponseSent(SendOutcome::Sent) {
            self.responses(events.drop_last()).push(self.last_action(events.drop_last())->Send_0)
        } else {
            self.responses(events.drop_last())
        }
    }

    /// The answer of the session to the last of the `events`.
    pub open spec fn last_action(self, events: Seq<ServeEvent>) -> ServeActionModel {
        self.run(events.drop_last()).next(events.last()).1
    }
}

/// All batches but one that is on its way into the channel are in the responses, and the session
/// stands at the version after them.
spec fn batches_are_sent(session: DatastreamSession, events: Seq<ServeEvent>) -> bool {
    let now = session.run(events);
    let all = batches(events);
    let done = if now.phase is Sending {
        all.drop_last()
    } else {
        all
    };
    &&& now.phase !is Ended
    &&& now.chain_id == session.chain_id
    &&& done.len() == sent(events)
    &&& session.responses(events) == responses_for(
        done,
        session.current_version as int,
        session.chain_id,
    )
    &&& now.current_version == session.current_version + total(done)
    &&& now.phase matches ServePhase::Sending { batch_size } ==> {
        &&& all.len() > 0
        &&& events.len() > 0
        &&& batch_size == all.last().len()
        &&& session.last_action(events) == ServeActionModel::Send(
            crate::indexer::service::response_of(
                crate::indexer::service::with_versions(
                    all.last(),
                    session.current_version + total(done),
                ),
                session.chain_id,
            ),
        )
    }
}

proof fn lemma_batches_are_sent(session: DatastreamSession, moments: Seq<Moment>)
    requires
        session.phase is CheckingRoom,
        session.answers(served(moments)),
        channel_is_open(moments),
        every_fetch_succeeds(served(moments)),
        session.current_version + total(batches(served(moments))) <= u64::MAX,
    ensures
        batches_are_sent(session, served(moments)),
    decreases moments.len(),
{
    if moments.len() > 0 {
        let before = moments.drop_last();
        let events = served(moments);
        if let Moment::Served(event) = moments.last() {
            assert(events.drop_last() =~= served(before));
            if let Some(batch) = handed_out(event) {
                assert(batches(events).drop_last() =~= batches(served(before)));
            }
            lemma_batches_are_sent(session, before);
            open_channel_refuses_nothing(session, moments);
            assert(moments[moments.len() - 1] == moments.last());
            match event {
                ServeEvent::CacheAnswered(Ok(CacheBatchGetStatus::Ready(encoded))) => {
                    assert(encoded.len() == encoded@.len());
                },
                ServeEvent::FileStoreAnswered(Ok(encoded)) => {
                    assert(encoded.len() == encoded@.len());
                },
                _ => {},
            }
        } else {
            lemma_batches_are_sent(session, before);
        }
    }
}

/// Where every fetch succeeds and the client stays, the channel takes one response for each batch
/// that is handed out, in their order and with the versions from the first one on; at most one
/// batch is still on its way into it.
pub proof fn every_batch_is_sent_once(session: DatastreamSession, moments: Seq<Moment>)
    requires
        session.phase is CheckingRoom,
        session.answers(served(moments)),
        channel_is_open(moments),
        every_fetch_succeeds(served(moments)),
        session.current_version + total(batches(served(moments))) <= u64::MAX,
    ensures
        ({
            let events = served(moments);
            let count = sent(events) as int;
            &&& count == batches(events).len() || count + 1 == batches(events).len()
            &&& session.responses(events) == responses_for(
                batches(events).take(count),
                session.current_version as int,
                session.chain_id,
            )
        }),
{
    let events = served(moments);
    lemma_batches_are_sent(session, moments);
    if session.run(events).phase is Sending {
        assert(batches(events).take(sent(events) as int) =~= batches(events).drop_last());
    } else {
        assert(batches(events).take(sent(events) as int) =~= batches(events));
    }
}

/// How many steps the session is into the next response, at most.
spec fn steps_into_response(phase: ServePhase) -> int {
    match phase {
        ServePhase::CheckingRoom => 0,
        ServePhase::FetchingFromCache => 1,
        ServePhase::FetchingFromFileStore => 2,
        _ => 3,
    }
}

proof fn lemma_unread_channel_fills(session: DatastreamSession, moments: Seq<Moment>)
    requires
        session.phase is CheckingRoom,
        session.answers(served(moments)),
        channel_is_open(moments),
        read(moments) == 0,
        every_fetch_succeeds(served(moments)),
        session.current_version + total(batches(served(moments))) <= u64::MAX,
    ensures
        ({
            let events = served(moments);
            let phase = session.run(events).phase;
            sent(events) < MAX_RESPONSE_CHANNEL_SIZE ==> {
                &&& phase !is Sleeping
                &&& events.len() <= 4 * sent(events) + steps_into_response(phase)
            }
        }),
    decreases moments.len(),
{
    if moments.len() > 0 {
        let before = moments.drop_last();
        let events = served(moments);
        assert(moments.last() is Served);
        assert(events.drop_last() =~= served(before));
        assert(session.current_version + total(batches(served(before))) <= u64::MAX) by {
            if handed_out(events.last()) is Some {
                assert(batches(events).drop_last() =~= batches(served(before)));
            }
        }
        lemma_unread_channel_fills(session, before);
        lemma_batches_are_sent(session, before);
        unread_responses_are_bounded(session, before);
        open_channel_refuses_nothing(session, moments);
        assert(moments[moments.len() - 1] == moments.last());
    }
}

/// A client that stays and reads nothing gets exactly as many responses as the channel can hold,
/// where every fetch succeeds: after at most four steps for each of them the channel is full, and
/// it holds the first batches that were handed out, in their order, with the versions from the
/// first one on; and no other batch has been fetched.
pub proof fn unread_channel_fills(session: DatastreamSession, moments: Seq<Moment>)
    requires
        session.phase is CheckingRoom,
        session.answers(served(moments)),
        channel_is_open(moments),
        read(moments) == 0,
        every_fetch_succeeds(served(moments)),
        session.current_version + total(batches(served(moments))) <= u64::MAX,
        served(moments).len() >= 4 * MAX_RESPONSE_CHANNEL_SIZE,
    ensures
        ({
            let events = served(moments);
            &&& sent(events) == MAX_RESPONSE_CHANNEL_SIZE
            &&& batches(events).len() == MAX_RESPONSE_CHANNEL_SIZE
            &&& session.responses(events) == responses_for(
                batches(events),
                session.current_version as int,
                session.chain_id,
            )
            &&& session.responses(events).len() == MAX_RESPONSE_CHANNEL_SIZE
        }),
{
    let events = served(moments);
    lemma_unread_channel_fills(session, moments);
    lemma_batches_are_sent(session, moments);
    unread_responses_are_bounded(session, moments);
    lemma_one_response_for_each(
        batches(events),
        session.current_version as int,
        session.chain_id,
    );
}

proof fn lemma_one_response_for_each(batches: Seq<Seq<String>>, version: int, chain_id: u32)
    ensures
        responses_for(batches, version, chain_id).len() == batches.len(),
    decreases batches.len(),
{
    if batches.len() > 0 {
        lemma_one_response_for_each(batches.drop_last(), version, chain_id);
    }
}

/// A response for which the channel had no room is not lost: after a wait and a look at the
/// channel that shows room, its version is fetched again.
pub proof fn refused_response_is_fetched_again(session: DatastreamSession)
    requires
        session.phase is Sending,
    ensures
        ({
            let (waiting, wait) = session.next(ServeEvent::ResponseSent(SendOutcome::Full));
            let (checking, check) = waiting.next(ServeEvent::Slept);
            let (retrying, fetch) = checking.next(ServeEvent::RoomChecked(Room::Free));
            &&& wait is Sleep
            &&& waiting.expects_event(ServeEvent::Slept)
            &&& check is CheckRoom
            &&& checking.expects_event(ServeEvent::RoomChecked(Room::Free))
            &&& retrying == session.in_phase(ServePhase::FetchingFromCache)
            &&& fetch == (ServeActionModel::FetchFromCache {
                starting_version: session.current_version,
            })
        }),
{
}

/// A response carries exactly the transactions that the cache or the file store has just handed
/// out, in their order, under the versions from the current one on and marked with the chain.
pub proof fn responses_carry_what_was_fetched(session: DatastreamSession, event: ServeEvent)
    requires
        session.expects_event(event),
        session.next(event).1 is Send,
    ensures
        ({
            let response = session.next(event).1->Send_0;
            &&& response.chain_id == session.chain_id
            &&& response.response matches Some(DatastreamResponseModel::Data(transactions))
            &&& handed_out(event) matches Some(encoded)
            &&& transactions.len() == encoded.len()
            &&& forall|i: int|
                0 <= i < encoded.len() ==> {
                    &&& (#[trigger] transactions[i]).encoded_proto_data == encoded[i]
                    &&& transactions[i].version == session.current_version + i
                    &&& transactions[i].timestamp is None
                }
        }),
{
}

/// Where the channel has room, a batch that is fetched from the cache and taken by the channel
/// moves the session on by its size, and is delivered in full.
pub proof fn fetched_batch_is_delivered(session: DatastreamSession, encoded: Vec<String>)
    requires
        session.phase is CheckingRoom,
        session.current_version + encoded.len() <= u64::MAX,
    ensures
        ({
            let free = ServeEvent::RoomChecked(Room::Free);
            let fetched = ServeEvent::CacheAnswered(Ok(CacheBatchGetStatus::Ready(encoded)));
            let sent = ServeEvent::ResponseSent(SendOutcome::Sent);
            let events = seq![free, fetched, sent];
            &&& session.answers(events)
            &&& session.delivered(events) == encoded@.map(
                |i: int, one: String|
                    TransactionOutput {
                        encoded_proto_data: one,
                        version: (session.current_version + i) as u64,
                        timestamp: None,
                    },
            )
            &&& session.run(events) == (DatastreamSession {
                current_version: (session.current_version + encoded.len()) as u64,
                ..session
            })
        }),
{
    let free = ServeEvent::RoomChecked(Room::Free);
    let fetched = ServeEvent::CacheAnswered(Ok(CacheBatchGetStatus::Ready(encoded)));
    let sent = ServeEvent::ResponseSent(SendOutcome::Sent);
    let events = seq![free, fetched, sent];
    reveal_with_fuel(DatastreamSession::run, 4);
    reveal_with_fuel(DatastreamSession::answers, 4);
    reveal_with_fuel(DatastreamSession::delivered, 4);
    assert(events.drop_last() =~= seq![free, fetched]);
    assert(seq![free, fetched].drop_last() =~= seq![free]);
    assert(seq![free].drop_last() =~= Seq::empty());
}

/// The encoded transactions that the cache or the file store handed out.
pub open spec fn handed_out(event: ServeEvent) -> Option<Seq<String>> {
    match event {
        ServeEvent::CacheAnswered(Ok(CacheBatchGetStatus::Ready(encoded))) => Some(encoded@),
        ServeEvent::FileStoreAnswered(Ok(encoded)) => Some(encoded@),
        _ => None,
    }
}

/// `event` is the report of the file store that it has no file with the data.
pub open spec fn reports_missing_file(event: ServeEvent) -> bool {
    &&& event matches ServeEvent::FileStoreAnswered(Err(error))
    &&& crate::indexer::service::occurs_in(
        crate::indexer::service::file_not_found_text(),
        error@,
    )
}

/// A session ends for three reasons: the file store lacks data that the cache has dropped, the
/// client is gone, or there are more transactions than versions. Any other error of the cache or
/// of the file store is followed by a wait.
pub proof fn errors_do_not_end_a_session(session: DatastreamSession, event: ServeEvent)
    requires
        session.expects_event(event),
    ensures
        session.next(event).0.phase is Ended <==> {
            ||| reports_missing_file(event)
            ||| event == ServeEvent::ResponseSent(SendOutcome::Closed)
            ||| handed_out(event) matches Some(encoded) && session.current_version + encoded.len()
                > u64::MAX + 1
            ||| session.phase matches ServePhase::Sending { batch_size } && event
                == ServeEvent::ResponseSent(SendOutcome::Sent) && session.current_version
                + batch_size > u64::MAX
        },
        session.next(event).0.phase is Ended <==> session.next(event).1 is Stop,
        (event matches ServeEvent::CacheAnswered(Err(_))) ==> session.next(event).1 is Sleep,
        (event matches ServeEvent::FileStoreAnswered(Err(_))) && !reports_missing_file(event)
            ==> session.next(event).1 is Sleep,
{
}

/// No outside work follows the end of a session.
pub proof fn nothing_follows_the_end(
    session: DatastreamSession,
    events: Seq<ServeEvent>,
    more: Seq<ServeEvent>,
)
    requires
        session.answers(events + more),
        session.run(events).phase is Ended,
    ensures
        more.len() == 0,
    decreases more.len(),
{
    if more.len() > 0 {
        assert((events + more).drop_last() =~= events + more.drop_last());
        nothing_follows_the_end(session, events, more.drop_last());
        assert(events + more.drop_last() =~= events);
    }
}

} // verus!
