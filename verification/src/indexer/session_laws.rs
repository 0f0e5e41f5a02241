//! What a [`StreamSession`] answers to each event, told from the fields of the event and of the
//! session's progress alone.

use crate::indexer::datastream::{DatastreamResponse, RawDatastreamResponse, TransactionOutput};
use crate::indexer::worker::{
    CacheUpdate, FatalError, FileStoreMetadata, Progress, SessionModel, SessionPhase, StopReason,
    StreamAction, StreamActionModel, StreamEvent, StreamItem, StreamSession,
};
use vstd::prelude::*;

verus! {

/// The session took in `event`, and came to `next` and `action`.
pub open spec fn takes_in(
    session: StreamSession,
    event: StreamEvent,
    next: StreamSession,
    action: StreamAction,
) -> bool {
    call_ensures(StreamSession::process_streaming_response, (session, event), (next, action))
}

/// The session is over because of `error`.
pub open spec fn crashes(next: StreamSession, action: StreamAction, error: FatalError) -> bool {
    next@.phase is Ended && action == StreamAction::Crash(error)
}

/// The start of a stream, from its first frame to the second: the session has the cache prepared,
/// has the cache's chain compared with that of the frame, and asks for the next frame exactly if
/// the chains agree and the file store agrees on chain and version, or there is no file store and
/// the cache was empty. It then stands at the version of the file store, or at zero, with nothing
/// counted. Otherwise it crashes, and the error says why.
pub proof fn agreed_start_is_followed(
    file_store_metadata: Option<FileStoreMetadata>,
    frame: RawDatastreamResponse,
    number: i32,
    first: u64,
    was_empty: bool,
    agrees: bool,
    opened: StreamSession,
    setting_up: StreamSession,
    set_up: StreamAction,
    verifying: StreamSession,
    verify: StreamAction,
    started: StreamSession,
    action: StreamAction,
)
    requires
        frame.response matches Some(DatastreamResponse::Status(status)) && status.status_type
            == number && status.start_version == first,
        number == 0,
        call_ensures(StreamSession::new, (file_store_metadata,), opened),
        takes_in(opened, StreamEvent::Received(StreamItem::Frame(frame)), setting_up, set_up),
        takes_in(setting_up, StreamEvent::CacheSetUp { was_empty }, verifying, verify),
        takes_in(verifying, StreamEvent::ChainIdVerified { agrees }, started, action),
    ensures
        set_up == StreamAction::SetUpCache,
        verify matches StreamAction::VerifyChainId { chain_id } && chain_id == frame.chain_id,
        action == StreamAction::Receive <==> agrees && match file_store_metadata {
            Some(metadata) => metadata.version == first && metadata.chain_id == frame.chain_id,
            None => was_empty,
        },
        action == StreamAction::Receive ==> {
            &&& started@.phase matches SessionPhase::Streaming { progress }
            &&& progress.chain_id == frame.chain_id
            &&& progress.transaction_count == 0
            &&& file_store_metadata matches Some(metadata) ==> progress.current_version
                == metadata.version
            &&& file_store_metadata is None ==> progress.current_version == 0
            &&& started@.file_store_metadata == file_store_metadata
        },
        !agrees ==> crashes(started, action, FatalError::CacheChainIdMismatch),
        agrees ==> match file_store_metadata {
            Some(metadata) => {
                &&& metadata.version != first ==> crashes(
                    started,
                    action,
                    FatalError::FileStoreVersionMismatch,
                )
                &&& metadata.version == first && metadata.chain_id != frame.chain_id ==> crashes(
                    started,
                    action,
                    FatalError::FileStoreChainIdMismatch,
                )
            },
            None => !was_empty ==> crashes(started, action, FatalError::CacheNotEmpty),
        },
{
}

/// A stream whose first item is not the signal of its start crashes the session at once, and the
/// error says what came instead.
pub proof fn other_first_items_crash(
    file_store_metadata: Option<FileStoreMetadata>,
    item: StreamItem,
    opened: StreamSession,
    next: StreamSession,
    action: StreamAction,
)
    requires
        call_ensures(StreamSession::new, (file_store_metadata,), opened),
        takes_in(opened, StreamEvent::Received(item), next, action),
    ensures
        item is Failed || item is Finished ==> crashes(next, action, FatalError::NoResponse),
        item matches StreamItem::Frame(frame) ==> match frame.response {
            None => crashes(next, action, FatalError::MissingResponse),
            Some(DatastreamResponse::Data(_)) => crashes(
                next,
                action,
                FatalError::FirstFrameNotSignal,
            ),
            Some(DatastreamResponse::Status(status)) => status.status_type != 0 ==> crashes(
                next,
                action,
                FatalError::FirstFrameNotInit,
            ),
        },
        action is Crash <==> !(item matches StreamItem::Frame(frame) && frame.response matches Some(
            DatastreamResponse::Status(status),
        ) && status.status_type == 0),
{
}

/// A stream that ends or fails while it is followed stops the session.
pub proof fn lost_stream_stops_the_session(
    session: StreamSession,
    progress: Progress,
    item: StreamItem,
    next: StreamSession,
    action: StreamAction,
)
    requires
        session@.phase == (SessionPhase::Streaming { progress }),
        item !is Frame,
        takes_in(session, StreamEvent::Received(item), next, action),
    ensures
        next@.phase is Ended,
        item is Finished ==> action == StreamAction::Stop(StopReason::StreamFinished),
        item is Failed ==> action == StreamAction::Stop(StopReason::StreamFailed),
{
}

/// A frame of another chain crashes a session that follows its stream, whatever the frame brings;
/// no frame of the same chain is taken for one of another.
pub proof fn frame_of_another_chain_crashes(
    session: StreamSession,
    progress: Progress,
    frame: RawDatastreamResponse,
    next: StreamSession,
    action: StreamAction,
)
    requires
        session@.phase == (SessionPhase::Streaming { progress }),
        takes_in(session, StreamEvent::Received(StreamItem::Frame(frame)), next, action),
    ensures
        frame.chain_id != progress.chain_id <==> action == StreamAction::Crash(
            FatalError::StreamChainIdMismatch,
        ),
        frame.chain_id != progress.chain_id ==> next@.phase is Ended,
        frame.chain_id == progress.chain_id && frame.response is None ==> crashes(
            next,
            action,
            FatalError::MissingResponse,
        ),
{
}

/// A data frame of the stream has its first transaction written, as it is; the others are left to
/// be written in their order, and the progress is not moved before they are. An empty one crashes
/// the session.
pub proof fn data_frame_is_begun(
    session: StreamSession,
    progress: Progress,
    frame: RawDatastreamResponse,
    transactions: Seq<TransactionOutput>,
    next: StreamSession,
    action: StreamAction,
)
    requires
        session@.phase == (SessionPhase::Streaming { progress }),
        frame.chain_id == progress.chain_id,
        frame.response matches Some(DatastreamResponse::Data(data)) && data.transactions@
            == transactions,
        takes_in(session, StreamEvent::Received(StreamItem::Frame(frame)), next, action),
    ensures
        transactions.len() == 0 ==> crashes(next, action, FatalError::EmptyChunk),
        transactions.len() > 0 ==> {
            &&& action matches StreamAction::CacheTransaction(update)
            &&& crate::indexer::frame_laws::records(update, transactions[0])
            &&& next@.phase matches SessionPhase::CachingChunk { progress: kept, size, pending }
            &&& kept == progress
            &&& size == transactions.len()
            &&& pending.len() == transactions.len() - 1
            &&& forall|i: int|
                0 <= i < pending.len() ==> crate::indexer::frame_laws::records(
                    #[trigger] pending[i],
                    transactions[i + 1],
                )
            &&& next@.file_store_metadata == session@.file_store_metadata
        },
{
    if let Some(DatastreamResponse::Data(data)) = frame.response {
        assert(data.transactions.len() == transactions.len());
    }
}

/// When the cache has taken a transaction, the next one of the chunk is written; when it was the
/// last one, the current version and the transaction count both move on by the size of the chunk,
/// the chain stays, and the next frame is asked for. Versions that run out crash the session.
pub proof fn taken_transaction_is_followed_by_the_next(
    session: StreamSession,
    progress: Progress,
    size: u64,
    pending: Seq<CacheUpdate>,
    next: StreamSession,
    action: StreamAction,
)
    requires
        session@.phase == (SessionPhase::CachingChunk { progress, size, pending }),
        session@.phase.wf(),
        takes_in(session, StreamEvent::TransactionCached(Ok(())), next, action),
    ensures
        pending.len() > 0 ==> {
            &&& action == StreamAction::CacheTransaction(pending[0])
            &&& next@.phase matches SessionPhase::CachingChunk {
                progress: kept,
                size: kept_size,
                pending: left,
            }
            &&& kept == progress
            &&& kept_size == size
            &&& seq![pending[0]] + left == pending
        },
        pending.len() == 0 && progress.current_version + size <= u64::MAX ==> {
            &&& action == StreamAction::Receive
            &&& next@.phase matches SessionPhase::Streaming { progress: moved }
            &&& moved.chain_id == progress.chain_id
            &&& moved.current_version - progress.current_version == size
            &&& moved.transaction_count - progress.transaction_count == size
        },
        pending.len() == 0 && progress.current_version + size > u64::MAX ==> crashes(
            next,
            action,
            FatalError::VersionOverflow,
        ),
{
    if pending.len() > 0 {
        assert(seq![pending[0]] + pending.drop_first() =~= pending);
    }
}

/// When the cache refuses a transaction, the session stops with the error of the cache.
pub proof fn refused_transaction_is_reported(
    session: StreamSession,
    error: String,
    next: StreamSession,
    action: StreamAction,
)
    requires
        session@.phase is CachingChunk,
        takes_in(session, StreamEvent::TransactionCached(Err(error)), next, action),
    ensures
        next@.phase is Ended,
        action matches StreamAction::Stop(StopReason::TransactionNotCached(text)) && text@
            == "Update cache with version failed: "@ + error@,
{
}

/// A signal of the session's chain, by its number. A second start stops the session. The end of a
/// batch whose last version comes right before the current version has the cache told both
/// counters, each in its place: the number of transactions since the last such end, and the current
/// version. Any other end stops the session, but one at the last version of all crashes it, as does
/// an end that encloses no versions, or one without a last version. So does any other number.
pub proof fn signal_is_answered_by_its_number(
    session: StreamSession,
    progress: Progress,
    frame: RawDatastreamResponse,
    number: i32,
    first: u64,
    last: Option<u64>,
    next: StreamSession,
    action: StreamAction,
)
    requires
        session@.phase == (SessionPhase::Streaming { progress }),
        frame.chain_id == progress.chain_id,
        frame.response matches Some(DatastreamResponse::Status(status)) && status.status_type
            == number && status.start_version == first && status.end_version == last,
        takes_in(session, StreamEvent::Received(StreamItem::Frame(frame)), next, action),
    ensures
        number == 0 ==> next@.phase is Ended && action == StreamAction::Stop(
            StopReason::InitReceivedTwice,
        ),
        number != 0 && number != 1 ==> crashes(next, action, FatalError::InvalidStatusType),
        number == 1 && last is None ==> crashes(next, action, FatalError::MissingEndVersion),
        number == 1 ==> (last matches Some(end) ==> {
            &&& end < first || (first == 0 && end == u64::MAX) ==> crashes(
                next,
                action,
                FatalError::InvalidBatchBounds,
            )
            &&& first <= end && first > 0 && end == u64::MAX ==> crashes(
                next,
                action,
                FatalError::VersionOverflow,
            )
            &&& first <= end && end < u64::MAX && end + 1 != progress.current_version ==> {
                &&& next@.phase is Ended
                &&& action == StreamAction::Stop(StopReason::WrongBatchEnd)
            }
            &&& first <= end && end + 1 == progress.current_version ==> {
                &&& action matches StreamAction::CacheLatestVersion {
                    num_of_transactions,
                    version,
                }
                &&& num_of_transactions == progress.transaction_count
                &&& version == progress.current_version
                &&& next@.phase == (SessionPhase::EndingBatch { progress })
            }
        }),
        action is CacheLatestVersion <==> number == 1 && (last matches Some(end) && first <= end
            && end + 1 == progress.current_version),
{
}

/// When the cache has taken the latest version, the next frame is asked for, the current version
/// and the chain stay, and the count starts again at zero. When it has not, the session crashes.
pub proof fn ended_batch_is_followed_by_the_next(
    session: StreamSession,
    progress: Progress,
    succeeded: bool,
    next: StreamSession,
    action: StreamAction,
)
    requires
        session@.phase == (SessionPhase::EndingBatch { progress }),
        takes_in(session, StreamEvent::LatestVersionCached { succeeded }, next, action),
    ensures
        succeeded ==> {
            &&& action == StreamAction::Receive
            &&& next@.phase matches SessionPhase::Streaming { progress: kept }
            &&& kept.chain_id == progress.chain_id
            &&& kept.current_version == progress.current_version
            &&& kept.transaction_count == 0
        },
        !succeeded ==> crashes(next, action, FatalError::LatestVersionNotCached),
{
}

/// The file store's knowledge that a session was opened with stays with it, whatever happens.
pub proof fn metadata_stays_with_the_session(
    session: StreamSession,
    event: StreamEvent,
    next: StreamSession,
    action: StreamAction,
)
    requires
        takes_in(session, event, next, action),
    ensures
        next@.file_store_metadata == session@.file_store_metadata,
{
}

/// Each phase waits for its own kind of event, and for every event of that kind: items of the
/// stream, the preparation of the cache, the comparison of the chains, the write of a transaction,
/// and the write of a latest version. A session that is over waits for nothing.
pub proof fn each_phase_waits_for_its_event(
    session: StreamSession,
    event: StreamEvent,
    expected: bool,
)
    requires
        call_ensures(StreamSession::expects, (&session, &event), expected),
    ensures
        session@.phase is AwaitingInit || session@.phase is Streaming ==> expected == (event
            is Received),
        session@.phase is SettingUpCache ==> expected == (event is CacheSetUp),
        session@.phase is VerifyingChainId ==> expected == (event is ChainIdVerified),
        session@.phase is CachingChunk ==> expected == (event is TransactionCached),
        session@.phase is EndingBatch ==> expected == (event is LatestVersionCached),
        session@.phase is Ended ==> !expected,
        expected == session@.phase.expects(event),
{
}

/// Whatever the stream and the cache answer, no more transactions are counted since the last batch
/// than there are versions.
pub proof fn every_run_is_well_formed(
    file_store_metadata: Option<FileStoreMetadata>,
    events: Seq<StreamEvent>,
)
    requires
        SessionModel::opened(file_store_metadata).answers(events),
    ensures
        SessionModel::opened(file_store_metadata).run(events).phase.wf(),
{
    crate::indexer::worker_laws::progress_counts_cached_transactions(file_store_metadata, events);
}

/// A session that is opened waits for the first item of the stream, and is to be followed from the
/// version of the file store, or from zero.
pub proof fn opened_session_waits_for_the_stream(
    file_store_metadata: Option<FileStoreMetadata>,
    opened: StreamSession,
)
    requires
        call_ensures(StreamSession::new, (file_store_metadata,), opened),
    ensures
        opened@.phase is AwaitingInit,
        opened@.file_store_metadata == file_store_metadata,
        file_store_metadata matches Some(metadata) ==> opened@.origin() == metadata.version,
        file_store_metadata is None ==> opened@.origin() == 0,
        opened@ == SessionModel::opened(file_store_metadata),
{
}

/// The transactions that a chunk has written are those of its frame, in their order: the i-th write
/// has the version, the data and the time of the i-th transaction.
pub proof fn chunk_writes_the_transactions_of_its_frame(
    session: SessionModel,
    progress: Progress,
    chunk: RawDatastreamResponse,
    transactions: Seq<TransactionOutput>,
    i: int,
)
    requires
        session.phase == (SessionPhase::Streaming { progress }),
        chunk.chain_id == progress.chain_id,
        chunk.response matches Some(DatastreamResponse::Data(data)) && data.transactions@
            == transactions,
        0 <= i < transactions.len(),
        progress.current_version + transactions.len() <= u64::MAX,
    ensures
        ({
            let events = chunk.delivery(transactions.len());
            &&& session.run(events.take(i)).next(events[i]).1
                matches StreamActionModel::CacheTransaction(update)
            &&& crate::indexer::frame_laws::records(update, transactions[i])
        }),
        ({
            let after = session.run(chunk.delivery(transactions.len()));
            &&& after.phase matches SessionPhase::Streaming { progress: moved }
            &&& moved.current_version == progress.current_version + transactions.len()
        }),
{
    let size = transactions.len();
    assert(chunk.updates().len() == size);
    crate::indexer::worker_laws::chunk_is_copied(session, progress, chunk);
    let events = chunk.delivery(size);
    assert(session.run(events.take(i)).next(events[i]).1 == StreamActionModel::CacheTransaction(
        chunk.updates()[i],
    ));
}

/// A session takes in every event that its phase waits for: nothing more is asked of it than that
/// it has counted no more transactions than there are versions.
pub proof fn awaited_event_is_taken_in(session: StreamSession, event: StreamEvent)
    requires
        match session@.phase {
            SessionPhase::AwaitingInit | SessionPhase::Streaming { .. } => event is Received,
            SessionPhase::SettingUpCache { .. } => event is CacheSetUp,
            SessionPhase::VerifyingChainId { .. } => event is ChainIdVerified,
            SessionPhase::CachingChunk { .. } => event is TransactionCached,
            SessionPhase::EndingBatch { .. } => event is LatestVersionCached,
            SessionPhase::Ended => false,
        },
        match session@.phase {
            SessionPhase::Streaming { progress } => progress.transaction_count
                <= progress.current_version,
            SessionPhase::CachingChunk { progress, .. } => progress.transaction_count
                <= progress.current_version,
            SessionPhase::EndingBatch { progress } => progress.transaction_count
                <= progress.current_version,
            _ => true,
        },
    ensures
        call_requires(StreamSession::process_streaming_response, (session, event)),
{
}

} // verus!
