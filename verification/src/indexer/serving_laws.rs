//! What the data service makes of the answers of the cache, of the file store and of the response
//! channel, told from the answers and from the session's own fields alone.

use crate::indexer::config::{ConfigError, IndexerGrpcConfig};
use crate::indexer::datastream::{DatastreamResponse, RawDatastreamResponse};
use crate::indexer::service::{
    build_protobuf_encoded_transaction_wrappers, data_fetch, data_fetch_from_file_store,
    raw_datastream_response_builder, CacheBatchGetStatus, DataFetch, DatastreamServer,
    DatastreamSession, EncodedTransactionWithVersion, Room, SendOutcome, ServeAction, ServeEnd,
    ServeEvent, ServePhase, TransactionsDataStatus,
};
use vstd::prelude::*;

verus! {

/// The i-th of the `wrappers` holds the i-th of the `encoded` transactions under the i-th version
/// after `version`.
pub open spec fn numbered_from(
    wrappers: Seq<EncodedTransactionWithVersion>,
    encoded: Seq<String>,
    version: int,
) -> bool {
    &&& wrappers.len() == encoded.len()
    &&& forall|i: int|
        0 <= i < encoded.len() ==> (#[trigger] wrappers[i]).0 == encoded[i] && wrappers[i].1
            == version + i
}

/// `response` is a data frame of the chain with the `encoded` transactions in their order, the i-th
/// under the i-th version after `version`, all without a time.
pub open spec fn carries(
    response: RawDatastreamResponse,
    encoded: Seq<String>,
    version: int,
    chain_id: u32,
) -> bool {
    &&& response.chain_id == chain_id
    &&& response.response matches Some(DatastreamResponse::Data(data))
    &&& data.transactions@.len() == encoded.len()
    &&& forall|i: int|
        0 <= i < encoded.len() ==> {
            &&& (#[trigger] data.transactions@[i]).encoded_proto_data == encoded[i]
            &&& data.transactions@[i].version == version + i
            &&& data.transactions@[i].timestamp is None
        }
}

/// The text says somewhere that the file with the transactions was not found.
pub open spec fn says_not_found(text: Seq<char>) -> bool {
    let words = "Transactions file not found"@;
    exists|i: int|
        0 <= i && i + words.len() <= text.len() && #[trigger] text.subrange(i, i + words.len())
            == words
}

proof fn lemma_says_not_found(text: Seq<char>)
    ensures
        says_not_found(text) <==> crate::indexer::service::occurs_in(
            crate::indexer::service::file_not_found_text(),
            text,
        ),
{
    let words = "Transactions file not found"@;
    if says_not_found(text) {
        let i = choose|i: int|
            0 <= i && i + words.len() <= text.len() && #[trigger] text.subrange(i, i + words.len())
                == words;
        assert(crate::indexer::service::occurs_at(words, text, i));
    }
    if crate::indexer::service::occurs_in(crate::indexer::service::file_not_found_text(), text) {
        let i = choose|i: int| #[trigger] crate::indexer::service::occurs_at(words, text, i);
        assert(text.subrange(i, i + words.len()) == words);
    }
}

/// Encoded transactions are numbered from the starting version on, without a gap and in their
/// order.
pub proof fn transactions_are_numbered_in_order(
    encoded: Vec<String>,
    starting_version: u64,
    wrappers: Vec<EncodedTransactionWithVersion>,
)
    requires
        starting_version + encoded@.len() <= u64::MAX + 1,
        call_ensures(
            build_protobuf_encoded_transaction_wrappers,
            (encoded, starting_version),
            wrappers,
        ),
    ensures
        numbered_from(wrappers@, encoded@, starting_version as int),
{
}

/// A response carries each transaction as it is: its data, its version, and no time; in their
/// order, and under the given chain.
pub proof fn response_carries_each_transaction(
    data: Vec<EncodedTransactionWithVersion>,
    chain_id: u32,
    response: RawDatastreamResponse,
)
    requires
        call_ensures(raw_datastream_response_builder, (data, chain_id), response),
    ensures
        response.chain_id == chain_id,
        response.response matches Some(DatastreamResponse::Data(body)) && {
            &&& body.transactions@.len() == data@.len()
            &&& forall|i: int|
                0 <= i < data@.len() ==> {
                    let transaction = #[trigger] body.transactions@[i];
                    &&& transaction.encoded_proto_data == data@[i].0
                    &&& transaction.version == data@[i].1
                    &&& transaction.timestamp is None
                }
        },
{
}

/// What is fetched is handed out under the versions from the starting version on, or there are not
/// enough versions for it.
pub open spec fn hands_out(result: DataFetch, encoded: Seq<String>, starting_version: u64) -> bool {
    if starting_version + encoded.len() <= u64::MAX + 1 {
        &&& result matches DataFetch::Done(TransactionsDataStatus::Success(data))
        &&& numbered_from(data@, encoded, starting_version as int)
    } else {
        result == DataFetch::VersionOverflow
    }
}

/// Each answer of the cache has its own consequence, at every version: data is handed out, data
/// that is not there yet is waited for, data that was there once is asked of the file store, and an
/// error is passed on. So the file store is asked exactly when the cache has dropped the data.
pub proof fn cache_answers_are_told_apart(
    starting_version: u64,
    answer: Result<CacheBatchGetStatus, String>,
    result: DataFetch,
)
    requires
        call_ensures(data_fetch, (starting_version, answer), result),
    ensures
        match answer {
            Ok(CacheBatchGetStatus::Ready(encoded)) => hands_out(
                result,
                encoded@,
                starting_version,
            ),
            Ok(CacheBatchGetStatus::NotReady) => result == DataFetch::Done(
                TransactionsDataStatus::AheadOfCache,
            ),
            Ok(CacheBatchGetStatus::EvictedFromCache) => result == DataFetch::AskFileStore,
            Err(error) => result == DataFetch::Failed(error),
        },
        result == DataFetch::AskFileStore <==> answer == Ok::<CacheBatchGetStatus, String>(
            CacheBatchGetStatus::EvictedFromCache,
        ),
        result == DataFetch::Done(TransactionsDataStatus::AheadOfCache) <==> answer == Ok::<
            CacheBatchGetStatus,
            String,
        >(CacheBatchGetStatus::NotReady),
{
}

/// Each answer of the file store has its own consequence, at every version: data is handed out, a
/// file that was not found is a gap, and any other error is passed on.
pub proof fn file_store_answers_are_told_apart(
    starting_version: u64,
    answer: Result<Vec<String>, String>,
    result: DataFetch,
)
    requires
        call_ensures(data_fetch_from_file_store, (starting_version, answer), result),
    ensures
        match answer {
            Ok(encoded) => hands_out(result, encoded@, starting_version),
            Err(error) => if says_not_found(error@) {
                result == DataFetch::Done(TransactionsDataStatus::DataGap)
            } else {
                result == DataFetch::Failed(error)
            },
        },
{
    if let Err(error) = answer {
        lemma_says_not_found(error@);
    }
}

/// The channel is full exactly if the client is there and it can take no more responses.
pub proof fn channel_is_full_at_capacity(is_closed: bool, capacity: usize, room: Room)
    requires
        call_ensures(Room::of_channel, (is_closed, capacity), room),
    ensures
        room == Room::Full <==> !is_closed && capacity == 0,
        room == Room::Free <==> is_closed || capacity > 0,
{
}

/// The session took in `event`, and came to `next` and `action`.
pub open spec fn serves(
    session: DatastreamSession,
    event: ServeEvent,
    next: DatastreamSession,
    action: ServeAction,
) -> bool {
    call_ensures(DatastreamSession::raw_datastream, (session, event), (next, action))
}

/// The session goes on in `phase`, for the same chain and at the same version.
pub open spec fn stays(
    session: DatastreamSession,
    next: DatastreamSession,
    phase: ServePhase,
) -> bool {
    &&& next.phase == phase
    &&& next.chain_id == session.chain_id
    &&& next.current_version == session.current_version
}

/// A session starts with a look at the channel, at the version that was asked for, and for the
/// chain of the cache, of which the lower 32 bits count.
pub proof fn session_starts_at_the_requested_version(
    starting_version: u64,
    chain_id: u64,
    session: DatastreamSession,
    action: ServeAction,
)
    requires
        call_ensures(DatastreamSession::new, (starting_version, chain_id), (session, action)),
    ensures
        session.current_version == starting_version,
        session.chain_id == chain_id % 4294967296,
        session.phase == ServePhase::CheckingRoom,
        action == ServeAction::CheckRoom,
{
}

/// With room in the channel the cache is asked for the current version; without, the session waits
/// for a second. In both cases it stays at its version.
pub proof fn room_decides_on_the_fetch(
    session: DatastreamSession,
    room: Room,
    next: DatastreamSession,
    action: ServeAction,
)
    requires
        session.phase == ServePhase::CheckingRoom,
        serves(session, ServeEvent::RoomChecked(room), next, action),
    ensures
        room == Room::Free ==> action == (ServeAction::FetchFromCache {
            starting_version: session.current_version,
        }) && stays(session, next, ServePhase::FetchingFromCache),
        room == Room::Full ==> action == (ServeAction::Sleep { millis: 1000 }) && stays(
            session,
            next,
            ServePhase::Sleeping,
        ),
{
}

/// What was fetched is sent in full, or the session ends because there are not enough versions.
pub open spec fn sends(
    session: DatastreamSession,
    encoded: Seq<String>,
    next: DatastreamSession,
    action: ServeAction,
) -> bool {
    if session.current_version + encoded.len() <= u64::MAX + 1 {
        &&& action matches ServeAction::Send(response)
        &&& carries(response, encoded, session.current_version as int, session.chain_id)
        &&& next.phase matches ServePhase::Sending { batch_size }
        &&& batch_size == encoded.len()
        &&& next.chain_id == session.chain_id
        &&& next.current_version == session.current_version
    } else {
        action == ServeAction::Stop(ServeEnd::VersionOverflow) && next.phase == ServePhase::Ended
    }
}

/// What a session does with an answer of the cache: data is sent in full; data that is not there
/// yet is waited for, for a fifth of a second; data that was there once is asked of the file store,
/// for the same version; and after an error the session waits for a second.
pub proof fn cache_answers_are_acted_on(
    session: DatastreamSession,
    answer: Result<CacheBatchGetStatus, String>,
    next: DatastreamSession,
    action: ServeAction,
)
    requires
        session.phase == ServePhase::FetchingFromCache,
        serves(session, ServeEvent::CacheAnswered(answer), next, action),
    ensures
        match answer {
            Ok(CacheBatchGetStatus::Ready(encoded)) => sends(session, encoded@, next, action),
            Ok(CacheBatchGetStatus::NotReady) => action == (ServeAction::Sleep { millis: 200 })
                && stays(session, next, ServePhase::Sleeping),
            Ok(CacheBatchGetStatus::EvictedFromCache) => action
                == (ServeAction::FetchFromFileStore { starting_version: session.current_version })
                && stays(session, next, ServePhase::FetchingFromFileStore),
            Err(_) => action == (ServeAction::Sleep { millis: 1000 }) && stays(
                session,
                next,
                ServePhase::Sleeping,
            ),
        },
        action is FetchFromFileStore <==> answer == Ok::<CacheBatchGetStatus, String>(
            CacheBatchGetStatus::EvictedFromCache,
        ),
{
    if let Ok(CacheBatchGetStatus::Ready(encoded)) = answer {
        assert(encoded.len() == encoded@.len());
    }
}

/// What a session does with an answer of the file store: data is sent in full; a file that was not
/// found ends the session, as a gap; after any other error the session waits for a second.
pub proof fn file_store_answers_are_acted_on(
    session: DatastreamSession,
    answer: Result<Vec<String>, String>,
    next: DatastreamSession,
    action: ServeAction,
)
    requires
        session.phase == ServePhase::FetchingFromFileStore,
        serves(session, ServeEvent::FileStoreAnswered(answer), next, action),
    ensures
        match answer {
            Ok(encoded) => sends(session, encoded@, next, action),
            Err(error) => if says_not_found(error@) {
                action == ServeAction::Stop(ServeEnd::DataGap) && next.phase == ServePhase::Ended
            } else {
                action == (ServeAction::Sleep { millis: 1000 }) && stays(
                    session,
                    next,
                    ServePhase::Sleeping,
                )
            },
        },
{
    match answer {
        Ok(encoded) => {
            assert(encoded.len() == encoded@.len());
        },
        Err(error) => {
            lemma_says_not_found(error@);
        },
    }
}

/// What follows a response: one that the channel took moves the session on by exactly its
/// transactions, to another look at the channel; one for which there was no room leaves it where it
/// is, to wait for a second; and without a client the session ends.
pub proof fn sending_decides_on_the_version(
    session: DatastreamSession,
    batch_size: u64,
    outcome: SendOutcome,
    next: DatastreamSession,
    action: ServeAction,
)
    requires
        session.phase == (ServePhase::Sending { batch_size }),
        serves(session, ServeEvent::ResponseSent(outcome), next, action),
    ensures
        outcome == SendOutcome::Sent && session.current_version + batch_size <= u64::MAX ==> {
            &&& action == ServeAction::CheckRoom
            &&& next.phase == ServePhase::CheckingRoom
            &&& next.chain_id == session.chain_id
            &&& next.current_version - session.current_version == batch_size
        },
        outcome == SendOutcome::Sent && session.current_version + batch_size > u64::MAX ==> action
            == ServeAction::Stop(ServeEnd::VersionOverflow) && next.phase == ServePhase::Ended,
        outcome == SendOutcome::Full ==> action == (ServeAction::Sleep { millis: 1000 }) && stays(
            session,
            next,
            ServePhase::Sleeping,
        ),
        outcome == SendOutcome::Closed ==> action == ServeAction::Stop(
            ServeEnd::ClientDisconnected,
        ) && next.phase == ServePhase::Ended,
{
}

/// After every wait the session looks at the channel again, at the same version.
pub proof fn wait_is_followed_by_a_look(
    session: DatastreamSession,
    next: DatastreamSession,
    action: ServeAction,
)
    requires
        session.phase == ServePhase::Sleeping,
        serves(session, ServeEvent::Slept, next, action),
    ensures
        action == ServeAction::CheckRoom,
        stays(session, next, ServePhase::CheckingRoom),
{
}

/// A client that has caught up is kept: when the cache does not have the current version yet, the
/// session waits for a fifth of a second and then, with room in the channel, asks the cache for the
/// same version again. The file store is not asked, and the session does not end.
pub proof fn caught_up_client_is_kept(
    session: DatastreamSession,
    waiting: DatastreamSession,
    wait: ServeAction,
    looking: DatastreamSession,
    look: ServeAction,
    fetching: DatastreamSession,
    fetch: ServeAction,
)
    requires
        session.phase == ServePhase::FetchingFromCache,
        serves(
            session,
            ServeEvent::CacheAnswered(Ok(CacheBatchGetStatus::NotReady)),
            waiting,
            wait,
        ),
        serves(waiting, ServeEvent::Slept, looking, look),
        serves(looking, ServeEvent::RoomChecked(Room::Free), fetching, fetch),
    ensures
        wait == (ServeAction::Sleep { millis: 200 }),
        look == ServeAction::CheckRoom,
        fetch == (ServeAction::FetchFromCache { starting_version: session.current_version }),
        fetching == session,
{
}

/// Each phase waits for its own kind of event, and a session that is over for none.
pub proof fn each_phase_waits_for_its_event(
    session: DatastreamSession,
    event: ServeEvent,
    expected: bool,
)
    requires
        call_ensures(DatastreamSession::expects, (&session, &event), expected),
    ensures
        session.phase is CheckingRoom ==> expected == (event is RoomChecked),
        session.phase is FetchingFromCache ==> expected == (event is CacheAnswered),
        session.phase is FetchingFromFileStore ==> expected == (event is FileStoreAnswered),
        session.phase is Sending ==> expected == (event is ResponseSent),
        session.phase is Sleeping ==> expected == (event is Slept),
        session.phase is Ended ==> !expected,
        expected == session.expects_event(event),
{
}

/// A server keeps its configuration, and its redis client is the one for the configured address.
pub proof fn server_goes_by_its_config(config: IndexerGrpcConfig, server: DatastreamServer)
    requires
        call_ensures(DatastreamServer::new, (config,), server),
    ensures
        server.server_config == config,
        crate::indexer::config::redis_client_opened("redis://"@ + config.redis_address@) == Some(
            *server.redis_client,
        ),
{
}

/// A server is set up exactly if its redis address is valid.
pub proof fn server_is_set_up_if_it_can_be(
    config: IndexerGrpcConfig,
    result: Result<DatastreamServer, ConfigError>,
)
    requires
        call_ensures(DatastreamServer::try_new, (config,), result),
    ensures
        match crate::indexer::config::redis_client_opened("redis://"@ + config.redis_address@) {
            Some(client) => result matches Ok(server) && *server.redis_client == client
                && server.server_config == config,
            None => result matches Err(error) && error == ConfigError::InvalidRedisAddress,
        },
{
}

/// A frame is told by its view: frames with the same view are of the same chain, and have the same
/// signal, the same transactions, or no body.
pub proof fn frame_is_told_by_its_view(one: RawDatastreamResponse, other: RawDatastreamResponse)
    requires
        one@ == other@,
    ensures
        one.chain_id == other.chain_id,
        match (one.response, other.response) {
            (None, None) => true,
            (
                Some(DatastreamResponse::Status(status)),
                Some(DatastreamResponse::Status(other_status)),
            ) => status == other_status,
            (Some(DatastreamResponse::Data(data)), Some(DatastreamResponse::Data(other_data))) => {
                data.transactions@ == other_data.transactions@
            },
            _ => false,
        },
{
}

/// Every answer can be taken in, at every version, and a session takes in every event that its
/// phase waits for.
pub proof fn every_answer_is_taken_in(
    starting_version: u64,
    cache_answer: Result<CacheBatchGetStatus, String>,
    file_store_answer: Result<Vec<String>, String>,
    encoded: Vec<String>,
    data: Vec<EncodedTransactionWithVersion>,
    chain_id: u32,
    session: DatastreamSession,
    event: ServeEvent,
)
    requires
        starting_version + encoded@.len() <= u64::MAX + 1,
        match session.phase {
            ServePhase::CheckingRoom => event is RoomChecked,
            ServePhase::FetchingFromCache => event is CacheAnswered,
            ServePhase::FetchingFromFileStore => event is FileStoreAnswered,
            ServePhase::Sending { .. } => event is ResponseSent,
            ServePhase::Sleeping => event is Slept,
            ServePhase::Ended => false,
        },
    ensures
        call_requires(data_fetch, (starting_version, cache_answer)),
        call_requires(data_fetch_from_file_store, (starting_version, file_store_answer)),
        call_requires(build_protobuf_encoded_transaction_wrappers, (encoded, starting_version)),
        call_requires(raw_datastream_response_builder, (data, chain_id)),
        call_requires(DatastreamSession::raw_datastream, (session, event)),
{
}

/// Any valid configuration sets up a server, and `try_new` takes any.
pub proof fn any_valid_config_sets_up_a_server(config: IndexerGrpcConfig)
    ensures
        call_requires(DatastreamServer::try_new, (config,)),
        crate::indexer::config::redis_client_opened("redis://"@ + config.redis_address@) is Some
            ==> call_requires(DatastreamServer::new, (config,)),
{
}

} // verus!
