//! What holds of every run of a [`StreamSession`](crate::indexer::worker::StreamSession),
//! whatever the stream and the cache answer.

use crate::indexer::datastream::{
    DatastreamResponse, RawDatastreamResponse, StatusType, StreamStatus,
};
use crate::indexer::worker::{
    CacheUpdate, ChainID, FileStoreMetadata, Progress, SessionModel, SessionPhase, StopReasonModel,
    StreamActionModel, StreamEvent, StreamItem,
};
use vstd::prelude::*;

verus! {

impl SessionModel {
    /// The state after `events`, in their order.
    pub open spec fn run(self, events: Seq<StreamEvent>) -> SessionModel
        decreases events.len(),
    {
        if events.len() == 0 {
            self
        } else {
            self.run(events.drop_last()).after(events.last())
        }
    }

    /// Each of the `events` answers the outside work that the session waits for at that point.
    pub open spec fn answers(self, events: Seq<StreamEvent>) -> bool
        decreases events.len(),
    {
        events.len() > 0 ==> {
            &&& self.answers(events.drop_last())
            &&& self.run(events.drop_last()).phase.expects(events.last())
        }
    }
}

/// `event` is the report that the cache has taken a transaction.
pub open spec fn takes_transaction(event: StreamEvent) -> bool {
    event matches StreamEvent::TransactionCached(Ok(_))
}

/// The number of transactions that the cache has taken.
pub open spec fn cached(events: Seq<StreamEvent>) -> nat
    decreases events.len(),
{
    if events.len() == 0 {
        0
    } else if takes_transaction(events.last()) {
        cached(events.drop_last()) + 1
    } else {
        cached(events.drop_last())
    }
}

/// The number of transactions that the cache has taken since it last took a latest version.
pub open spec fn cached_since_batch(events: Seq<StreamEvent>) -> nat
    decreases events.len(),
{
    if events.len() == 0 {
        0
    } else if events.last() == (StreamEvent::LatestVersionCached { succeeded: true }) {
        0
    } else if takes_transaction(events.last()) {
        cached_since_batch(events.drop_last()) + 1
    } else {
        cached_since_batch(events.drop_last())
    }
}

/// The counters of a session agree with what the cache has taken.
pub open spec fn counts_agree(session: SessionModel, events: Seq<StreamEvent>) -> bool {
    match session.phase {
        SessionPhase::Streaming { progress } | SessionPhase::EndingBatch { progress } => {
            &&& progress.current_version == session.origin() + cached(events)
            &&& progress.transaction_count == cached_since_batch(events)
            &&& progress.transaction_count <= progress.current_version
        },
        SessionPhase::CachingChunk { progress, size, pending } => {
            &&& pending.len() < size
            &&& progress.current_version + (size - pending.len() - 1) == session.origin() + cached(
                events,
            )
            &&& progress.transaction_count + (size - pending.len() - 1) == cached_since_batch(
                events,
            )
            &&& progress.transaction_count <= progress.current_version
        },
        SessionPhase::Ended => true,
        _ => cached(events) == 0 && cached_since_batch(events) == 0,
    }
}

/// At every point of a session, the current version is the version that the stream is followed
/// from plus the number of transactions in the cache, and the transaction count is the number of
/// transactions in the cache since the last complete batch. (Within a chunk, the part of it that
/// is already written is not yet counted.)
pub proof fn progress_counts_cached_transactions(
    file_store_metadata: Option<FileStoreMetadata>,
    events: Seq<StreamEvent>,
)
    requires
        SessionModel::opened(file_store_metadata).answers(events),
    ensures
        counts_agree(SessionModel::opened(file_store_metadata).run(events), events),
        SessionModel::opened(file_store_metadata).run(events).file_store_metadata
            == file_store_metadata,
    decreases events.len(),
{
    if events.len() > 0 {
        progress_counts_cached_transactions(file_store_metadata, events.drop_last());
    }
}

/// `event` is the arrival of the signal that a batch is complete up to `end_version`.
pub open spec fn ends_batch(event: StreamEvent, end_version: int) -> bool {
    &&& event matches StreamEvent::Received(StreamItem::Frame(frame))
    &&& frame.response matches Some(DatastreamResponse::Status(status))
    &&& StatusType::of_number(status.status_type as int) == Some(StatusType::BatchEnd)
    &&& status.end_version matches Some(end)
    &&& end == end_version
}

/// A latest version is written to the cache only at the end of a batch. It is the version after
/// the last one of the batch; the cache has taken as many transactions as there are versions from
/// the one that the stream is followed from up to it; and the number that goes with it is that of
/// the transactions taken since the last such write.
pub proof fn latest_version_agrees_with_the_count(
    file_store_metadata: Option<FileStoreMetadata>,
    events: Seq<StreamEvent>,
    event: StreamEvent,
    num_of_transactions: u64,
    version: u64,
)
    requires
        SessionModel::opened(file_store_metadata).answers(events.push(event)),
        SessionModel::opened(file_store_metadata).run(events).next(event).1
            == (StreamActionModel::CacheLatestVersion { num_of_transactions, version }),
    ensures
        version == SessionModel::opened(file_store_metadata).origin() + cached(events),
        num_of_transactions == cached_since_batch(events),
        ends_batch(event, version - 1),
{
    assert(events.push(event).drop_last() =~= events);
    progress_counts_cached_transactions(file_store_metadata, events);
}

/// The end of a batch whose versions have all been copied is written to the cache, and the count
/// of the next batch starts at zero.
pub proof fn complete_batch_is_recorded(
    session: SessionModel,
    progress: Progress,
    frame: RawDatastreamResponse,
    status: StreamStatus,
    end_version: u64,
)
    requires
        session.phase == (SessionPhase::Streaming { progress }),
        frame.chain_id == progress.chain_id,
        frame.response == Some(DatastreamResponse::Status(status)),
        StatusType::of_number(status.status_type as int) == Some(StatusType::BatchEnd),
        status.end_version == Some(end_version),
        status.start_version <= end_version,
        end_version + 1 == progress.current_version,
    ensures
        ({
            let end = StreamEvent::Received(StreamItem::Frame(frame));
            let recorded = StreamEvent::LatestVersionCached { succeeded: true };
            &&& session.next(end).1 == (StreamActionModel::CacheLatestVersion {
                num_of_transactions: progress.transaction_count,
                version: progress.current_version,
            })
            &&& session.after(end).phase.expects(recorded)
            &&& session.after(end).after(recorded).phase == (SessionPhase::Streaming {
                progress: Progress { transaction_count: 0, ..progress },
            })
        }),
{
}

/// A session ends exactly when it stops or crashes.
pub proof fn session_ends_with_stop_or_crash(session: SessionModel, event: StreamEvent)
    requires
        session.phase.expects(event),
    ensures
        session.after(event).phase is Ended <==> (session.next(event).1 is Stop || session.next(
            event,
        ).1 is Crash),
{
}

/// No outside work follows the end of a session.
pub proof fn nothing_follows_the_end(
    session: SessionModel,
    events: Seq<StreamEvent>,
    more: Seq<StreamEvent>,
)
    requires
        session.answers(events + more),
        session.run(events).phase is Ended,
    ensures
        more.len() == 0,
    decreases more.len(),
{
    if more.len() > 0 {
        assert((events + more).drop_last() =~= events + more.drop_last());
        nothing_follows_the_end(session, events, more.drop_last());
        assert(events + more.drop_last() =~= events);
    }
}

impl SessionPhase {
    /// The chain that a session has been told of.
    pub open spec fn chain_id(self) -> Option<ChainID> {
        match self {
            SessionPhase::SettingUpCache { chain_id, .. } => Some(chain_id),
            SessionPhase::VerifyingChainId { chain_id, .. } => Some(chain_id),
            _ => match self.progress() {
                Some(progress) => Some(progress.chain_id),
                None => None,
            },
        }
    }
}

/// All frames of a session that is not over are of one chain.
pub proof fn frames_are_of_one_chain(
    file_store_metadata: Option<FileStoreMetadata>,
    events: Seq<StreamEvent>,
)
    requires
        SessionModel::opened(file_store_metadata).answers(events),
        SessionModel::opened(file_store_metadata).run(events).phase !is Ended,
    ensures
        forall|i: int|
            0 <= i < events.len() ==> (#[trigger] events[i] matches StreamEvent::Received(
                StreamItem::Frame(frame),
            ) ==> SessionModel::opened(file_store_metadata).run(events).phase.chain_id() == Some(
                frame.chain_id,
            )),
        events.len() > 0 ==> events[0] matches StreamEvent::Received(StreamItem::Frame(_)),
    decreases events.len(),
{
    if events.len() > 0 {
        frames_are_of_one_chain(file_store_metadata, events.drop_last());
        assert(forall|i: int|
            0 <= i < events.len() - 1 ==> events.drop_last()[i] == #[trigger] events[i]);
        if events.len() > 1 {
            assert(events.drop_last()[0] == events[0]);
        } else {
            assert(events.drop_last() =~= Seq::empty());
        }
    }
}

/// What must have happened before a stream is followed: the first frame announced its chain and
/// version, the cache was prepared and agreed on the chain, and either the file store knew of
/// itself that it is of that chain and ends at that version, or it knew nothing of itself and the
/// cache was empty.
pub open spec fn properly_started(
    file_store_metadata: Option<FileStoreMetadata>,
    events: Seq<StreamEvent>,
) -> bool {
    &&& events.len() >= 3
    &&& events[0] matches StreamEvent::Received(StreamItem::Frame(init_signal))
    &&& init_signal.response matches Some(DatastreamResponse::Status(status))
    &&& StatusType::of_number(status.status_type as int) == Some(StatusType::Init)
    &&& events[1] matches StreamEvent::CacheSetUp { was_empty }
    &&& events[2] == (StreamEvent::ChainIdVerified { agrees: true })
    &&& match file_store_metadata {
        Some(metadata) => metadata.version == status.start_version && metadata.chain_id
            == init_signal.chain_id,
        None => was_empty,
    }
}

/// A stream is followed only when it was properly started.
pub proof fn streaming_is_properly_started(
    file_store_metadata: Option<FileStoreMetadata>,
    events: Seq<StreamEvent>,
)
    requires
        SessionModel::opened(file_store_metadata).answers(events),
        SessionModel::opened(file_store_metadata).run(events).phase.progress() is Some,
    ensures
        properly_started(file_store_metadata, events),
{
    lemma_start(file_store_metadata, events);
}

proof fn lemma_start(file_store_metadata: Option<FileStoreMetadata>, events: Seq<StreamEvent>)
    requires
        SessionModel::opened(file_store_metadata).answers(events),
    ensures
        SessionModel::opened(file_store_metadata).run(events).file_store_metadata
            == file_store_metadata,
        match SessionModel::opened(file_store_metadata).run(events).phase {
            SessionPhase::AwaitingInit => events.len() == 0,
            SessionPhase::SettingUpCache { chain_id, starting_version } => {
                &&& events.len() == 1
                &&& events[0] matches StreamEvent::Received(StreamItem::Frame(init_signal))
                &&& crate::indexer::worker::init_signal_content(init_signal) == Ok::<
                    (ChainID, u64),
                    crate::indexer::worker::FatalError,
                >((chain_id, starting_version))
            },
            SessionPhase::VerifyingChainId { chain_id, starting_version, cache_was_empty } => {
                &&& events.len() == 2
                &&& events[0] matches StreamEvent::Received(StreamItem::Frame(init_signal))
                &&& crate::indexer::worker::init_signal_content(init_signal) == Ok::<
                    (ChainID, u64),
                    crate::indexer::worker::FatalError,
                >((chain_id, starting_version))
                &&& events[1] == (StreamEvent::CacheSetUp { was_empty: cache_was_empty })
            },
            SessionPhase::Ended => true,
            _ => properly_started(file_store_metadata, events),
        },
    decreases events.len(),
{
    if events.len() > 0 {
        lemma_start(file_store_metadata, events.drop_last());
        assert(forall|i: int|
            0 <= i < events.len() - 1 ==> events.drop_last()[i] == #[trigger] events[i]);
    }
}

impl RawDatastreamResponse {
    /// The transactions of a data frame, as they are written to the cache.
    pub open spec fn updates(self) -> Seq<CacheUpdate> {
        match self.response {
            Some(DatastreamResponse::Data(data)) => data.transactions@.map_values(
                |transaction| crate::indexer::worker::cache_update_of(transaction),
            ),
            _ => Seq::empty(),
        }
    }

    /// The events by which the frame arrives and `count` writes succeed.
    pub open spec fn delivery(self, count: nat) -> Seq<StreamEvent> {
        seq![StreamEvent::Received(StreamItem::Frame(self))] + Seq::new(
            count,
            |i: int| StreamEvent::TransactionCached(Ok(())),
        )
    }
}

/// A data frame of the session's chain has all its transactions written to the cache, in their
/// order, and moves the session on by their number.
pub proof fn chunk_is_copied(
    session: SessionModel,
    progress: Progress,
    chunk: RawDatastreamResponse,
)
    requires
        session.phase == (SessionPhase::Streaming { progress }),
        chunk.chain_id == progress.chain_id,
        0 < chunk.updates().len(),
        progress.current_version + chunk.updates().len() <= u64::MAX,
    ensures
        ({
            let size = chunk.updates().len();
            let events = chunk.delivery(size);
            &&& session.answers(events)
            &&& forall|i: int|
                0 <= i < size ==> #[trigger] session.run(events.take(i)).next(events[i]).1
                    == StreamActionModel::CacheTransaction(chunk.updates()[i])
            &&& session.run(events) == (SessionModel {
                phase: SessionPhase::Streaming { progress: progress.after_chunk(size as int) },
                ..session
            })
        }),
{
    let updates = chunk.updates();
    let size = updates.len();
    let events = chunk.delivery(size);
    assert forall|i: int| 0 <= i < size implies #[trigger] session.run(events.take(i)).next(
        events[i],
    ).1 == StreamActionModel::CacheTransaction(updates[i]) by {
        chunk_is_left_in_part(session, progress, chunk, i);
        if i == 0 {
            assert(events.take(0) =~= Seq::empty());
        } else {
            chunk_is_left_in_part(session, progress, chunk, i - 1);
            assert(updates.skip(i).first() == updates[i]);
        }
    }
    chunk_is_left_in_part(session, progress, chunk, size - 1);
    assert(events.drop_last() =~= events.take(size as int));
    assert(updates.skip(size as int).len() == 0);
}

/// Within a chunk, when the cache has taken `written` transactions and the next one is on its way,
/// exactly those after it are left.
pub proof fn chunk_is_left_in_part(
    session: SessionModel,
    progress: Progress,
    chunk: RawDatastreamResponse,
    written: int,
)
    requires
        session.phase == (SessionPhase::Streaming { progress }),
        chunk.chain_id == progress.chain_id,
        0 <= written < chunk.updates().len(),
    ensures
        ({
            let updates = chunk.updates();
            let events = chunk.delivery(updates.len()).take(written + 1);
            &&& session.answers(events)
            &&& updates.len() <= u64::MAX
            &&& session.run(events) == (SessionModel {
                phase: SessionPhase::CachingChunk {
                    progress,
                    size: updates.len() as u64,
                    pending: updates.skip(written + 1),
                },
                ..session
            })
        }),
    decreases written,
{
    let updates = chunk.updates();
    let all = chunk.delivery(updates.len());
    let events = all.take(written + 1);
    assert(chunk.response matches Some(DatastreamResponse::Data(data))
        && data.transactions.len() == updates.len());
    if written == 0 {
        assert(events.drop_last() =~= Seq::empty());
        assert(session.answers(events.drop_last()));
        assert(updates.drop_first() =~= updates.skip(1));
    } else {
        chunk_is_left_in_part(session, progress, chunk, written - 1);
        assert(events.drop_last() =~= all.take(written));
        assert(updates.skip(written).drop_first() =~= updates.skip(written + 1));
    }
}

/// When the cache refuses a transaction of a chunk, the transactions before it have been written,
/// and the session stops with the error of the cache, without another write.
pub proof fn refused_transaction_stops_the_session(
    session: SessionModel,
    progress: Progress,
    chunk: RawDatastreamResponse,
    written: int,
    error: String,
)
    requires
        session.phase == (SessionPhase::Streaming { progress }),
        chunk.chain_id == progress.chain_id,
        0 <= written < chunk.updates().len(),
    ensures
        ({
            let events = chunk.delivery(written as nat);
            let refused = StreamEvent::TransactionCached(Err(error));
            &&& session.answers(events.push(refused))
            &&& forall|i: int|
                0 <= i <= written ==> #[trigger] session.run(events.take(i)).next(events[i]).1
                    == StreamActionModel::CacheTransaction(chunk.updates()[i])
            &&& session.run(events).next(refused).1 == StreamActionModel::Stop(
                StopReasonModel::TransactionNotCached(
                    "Update cache with version failed: "@ + error@,
                ),
            )
            &&& session.run(events.push(refused)).phase is Ended
        }),
{
    let updates = chunk.updates();
    let all = chunk.delivery(updates.len());
    let events = chunk.delivery(written as nat);
    let refused = StreamEvent::TransactionCached(Err(error));
    chunk_is_left_in_part(session, progress, chunk, written);
    assert(events =~= all.take(written + 1));
    assert(events.push(refused).drop_last() =~= events);
    assert forall|i: int| 0 <= i <= written implies #[trigger] session.run(events.take(i)).next(
        events[i],
    ).1 == StreamActionModel::CacheTransaction(updates[i]) by {
        assert(events.take(i) =~= all.take(i));
        assert(events[i] == all[i]);
        chunk_is_left_in_part(session, progress, chunk, i);
        if i == 0 {
            assert(all.take(0) =~= Seq::empty());
        } else {
            chunk_is_left_in_part(session, progress, chunk, i - 1);
            assert(updates.skip(i).first() == updates[i]);
        }
    }
}

/// A run can be cut in two.
pub proof fn run_is_compositional(
    session: SessionModel,
    first: Seq<StreamEvent>,
    second: Seq<StreamEvent>,
)
    ensures
        session.run(first + second) == session.run(first).run(second),
        session.answers(first + second) <==> session.answers(first) && session.run(first).answers(
            second,
        ),
    decreases second.len(),
{
    if second.len() == 0 {
        assert(first + second =~= first);
    } else {
        assert((first + second).drop_last() =~= first + second.drop_last());
        run_is_compositional(session, first, second.drop_last());
    }
}

} // verus!
