//! The chunks of a batch may arrive out of order: what a session does with a stream does not depend
//! on the order of the chunks between two signals.

use crate::indexer::datastream::{DatastreamResponse, RawDatastreamResponse};
use crate::indexer::worker::{
    CacheUpdate, ChainID, FatalError, FileStoreMetadata, Progress, SessionModel, SessionPhase,
    StreamActionModel, StreamEvent, StreamItem,
};
use vstd::multiset::Multiset;
use vstd::prelude::*;

verus! {

/// What the cache has to say of itself when a stream is started.
pub struct CacheState {
    /// It holds no data.
    pub was_empty: bool,
    /// It is of the chain of the fullnode, or of none yet.
    pub agrees: bool,
}

impl SessionModel {
    /// The latest versions that the session writes to the cache in answer to `events`, in their
    /// order: the number of transactions and the version of each.
    pub open spec fn latest_versions(self, events: Seq<StreamEvent>) -> Seq<(u64, u64)>
        decreases events.len(),
    {
        if events.len() == 0 {
            Seq::empty()
        } else {
            let before = self.latest_versions(events.drop_last());
            match self.last_action(events) {
                StreamActionModel::CacheLatestVersion { num_of_transactions, version } => {
                    before.push((num_of_transactions, version))
                },
                _ => before,
            }
        }
    }

    /// The transactions that the session writes to the cache in answer to `events`, each as often
    /// as it is written.
    pub open spec fn written(self, events: Seq<StreamEvent>) -> Multiset<CacheUpdate>
        decreases events.len(),
    {
        if events.len() == 0 {
            Multiset::empty()
        } else {
            let before = self.written(events.drop_last());
            match self.last_action(events) {
                StreamActionModel::CacheTransaction(update) => before.insert(update),
                _ => before,
            }
        }
    }

    /// The answer of the session to the last of the `events`.
    pub open spec fn last_action(self, events: Seq<StreamEvent>) -> StreamActionModel {
        self.run(events.drop_last()).next(events.last()).1
    }

    /// The events by which `frame` arrives and the cache does what the session then asks of it.
    pub open spec fn frame_events(
        self,
        cache: CacheState,
        frame: RawDatastreamResponse,
    ) -> Seq<StreamEvent> {
        let arrival = StreamEvent::Received(StreamItem::Frame(frame));
        match self.next(arrival).1 {
            StreamActionModel::SetUpCache => seq![
                arrival,
                StreamEvent::CacheSetUp { was_empty: cache.was_empty },
                StreamEvent::ChainIdVerified { agrees: cache.agrees },
            ],
            StreamActionModel::CacheTransaction(_) => frame.delivery(frame.updates().len()),
            StreamActionModel::CacheLatestVersion { .. } => seq![
                arrival,
                StreamEvent::LatestVersionCached { succeeded: true },
            ],
            _ => seq![arrival],
        }
    }

    /// The events by which `frames` arrive one after the other, until the session is over.
    pub open spec fn frames_events(
        self,
        cache: CacheState,
        frames: Seq<RawDatastreamResponse>,
    ) -> Seq<StreamEvent>
        decreases frames.len(),
    {
        if frames.len() == 0 {
            Seq::empty()
        } else {
            let before = self.frames_events(cache, frames.drop_last());
            let session = self.run(before);
            if session.phase is Ended {
                before
            } else {
                before + session.frame_events(cache, frames.last())
            }
        }
    }

    /// The events by which a stream of `frames` is followed to its end, or to that of the session.
    pub open spec fn stream_events(
        self,
        cache: CacheState,
        frames: Seq<RawDatastreamResponse>,
    ) -> Seq<StreamEvent> {
        let events = self.frames_events(cache, frames);
        if self.run(events).phase is Ended {
            events
        } else {
            events.push(StreamEvent::Received(StreamItem::Finished))
        }
    }
}

/// `frame` is a chunk of transactions.
pub open spec fn is_chunk(frame: RawDatastreamResponse) -> bool {
    frame.response matches Some(DatastreamResponse::Data(_))
}

/// All `frames` are of one chain, and no chunk among them is empty.
pub open spec fn fit(frames: Seq<RawDatastreamResponse>, chain_id: ChainID) -> bool {
    forall|i: int|
        0 <= i < frames.len() ==> {
            &&& (#[trigger] frames[i]).chain_id == chain_id
            &&& is_chunk(frames[i]) ==> frames[i].updates().len() > 0
        }
}

/// The two streams differ at most in the order of the chunks between their other frames: where
/// one of them has a frame that is no chunk, the other has it too, and before it they have the same
/// frames, up to their order.
pub open spec fn same_but_for_chunk_order(
    one: Seq<RawDatastreamResponse>,
    other: Seq<RawDatastreamResponse>,
) -> bool {
    &&& one.to_multiset() == other.to_multiset()
    &&& forall|i: int|
        0 <= i < one.len() && (!is_chunk(one[i]) || !is_chunk(other[i])) ==> {
            &&& #[trigger] one[i] == #[trigger] other[i]
            &&& one.take(i).to_multiset() == other.take(i).to_multiset()
        }
}

/// The number of transactions in `chunks`.
pub open spec fn total_size(chunks: Seq<RawDatastreamResponse>) -> nat
    decreases chunks.len(),
{
    if chunks.len() == 0 {
        0
    } else {
        total_size(chunks.drop_last()) + chunks.last().updates().len()
    }
}

/// The transactions of `chunks`, as they are written to the cache, each as often as it occurs.
pub open spec fn all_updates(chunks: Seq<RawDatastreamResponse>) -> Multiset<CacheUpdate>
    decreases chunks.len(),
{
    if chunks.len() == 0 {
        Multiset::empty()
    } else {
        all_updates(chunks.drop_last()).add(chunks.last().updates().to_multiset())
    }
}

proof fn lemma_without_one(chunks: Seq<RawDatastreamResponse>, i: int)
    requires
        0 <= i < chunks.len(),
    ensures
        total_size(chunks) == total_size(chunks.remove(i)) + chunks[i].updates().len(),
        all_updates(chunks) == all_updates(chunks.remove(i)).add(
            chunks[i].updates().to_multiset(),
        ),
    decreases chunks.len(),
{
    if i == chunks.len() - 1 {
        assert(chunks.remove(i) =~= chunks.drop_last());
    } else {
        lemma_without_one(chunks.drop_last(), i);
        assert(chunks.remove(i).drop_last() =~= chunks.drop_last().remove(i));
        assert(chunks.remove(i).last() == chunks.last());
    }
}

/// The size and the transactions of chunks do not depend on the order of the chunks.
proof fn lemma_sums_of_permutations(
    one: Seq<RawDatastreamResponse>,
    other: Seq<RawDatastreamResponse>,
)
    requires
        one.to_multiset() == other.to_multiset(),
    ensures
        total_size(one) == total_size(other),
        all_updates(one) == all_updates(other),
    decreases one.len(),
{
    one.to_multiset_ensures();
    other.to_multiset_ensures();
    if one.len() > 0 {
        let last = one.last();
        assert(one.contains(last));
        assert(other.to_multiset().count(last) > 0);
        let i = choose|i: int| 0 <= i < other.len() && other[i] == last;
        assert(one.remove(one.len() - 1) =~= one.drop_last());
        lemma_sums_of_permutations(one.drop_last(), other.remove(i));
        lemma_without_one(other, i);
    }
}

/// What is written in answer to two runs of events, one after the other.
proof fn lemma_writes_add_up(
    session: SessionModel,
    first: Seq<StreamEvent>,
    second: Seq<StreamEvent>,
)
    ensures
        session.latest_versions(first + second) == session.latest_versions(first) + session.run(
            first,
        ).latest_versions(second),
        session.written(first + second) == session.written(first).add(
            session.run(first).written(second),
        ),
        second.len() > 0 ==> session.last_action(first + second) == session.run(first).last_action(
            second,
        ),
    decreases second.len(),
{
    if second.len() == 0 {
        assert(first + second =~= first);
    } else {
        assert((first + second).drop_last() =~= first + second.drop_last());
        lemma_writes_add_up(session, first, second.drop_last());
        crate::indexer::worker_laws::run_is_compositional(session, first, second.drop_last());
    }
}

/// A prefix of the events of a chunk has the transactions written that go with it.
proof fn lemma_chunk_written(
    session: SessionModel,
    progress: Progress,
    chunk: RawDatastreamResponse,
    count: int,
)
    requires
        session.phase == (SessionPhase::Streaming { progress }),
        chunk.chain_id == progress.chain_id,
        0 <= count <= chunk.updates().len(),
    ensures
        ({
            let updates = chunk.updates();
            let events = chunk.delivery(updates.len()).take(count);
            &&& session.written(events) == updates.take(count).to_multiset()
            &&& session.latest_versions(events) == Seq::<(u64, u64)>::empty()
        }),
    decreases count,
{
    let updates = chunk.updates();
    let all = chunk.delivery(updates.len());
    let events = all.take(count);
    if count == 0 {
        assert(updates.take(0) =~= Seq::empty());
        updates.take(0).to_multiset_ensures();
        assert(updates.take(0).to_multiset() =~= Multiset::empty());
    } else {
        lemma_chunk_written(session, progress, chunk, count - 1);
        assert(events.drop_last() =~= all.take(count - 1));
        crate::indexer::worker_laws::chunk_is_left_in_part(session, progress, chunk, count - 1);
        if count == 1 {
            assert(all.take(0) =~= Seq::empty());
        } else {
            crate::indexer::worker_laws::chunk_is_left_in_part(
                session,
                progress,
                chunk,
                count - 2,
            );
            assert(updates.skip(count - 1).first() == updates[count - 1]);
        }
        assert(session.last_action(events) == StreamActionModel::CacheTransaction(
            updates[count - 1],
        ));
        assert(updates.take(count) =~= updates.take(count - 1).push(updates[count - 1]));
        updates.take(count - 1).to_multiset_ensures();
    }
}

/// What a session does with a chunk: all its transactions are written, and the session moves on by
/// their number or, when the versions run out, crashes.
proof fn lemma_chunk(
    session: SessionModel,
    progress: Progress,
    cache: CacheState,
    chunk: RawDatastreamResponse,
)
    requires
        session.phase == (SessionPhase::Streaming { progress }),
        chunk.chain_id == progress.chain_id,
        is_chunk(chunk),
        0 < chunk.updates().len(),
    ensures
        ({
            let updates = chunk.updates();
            let events = session.frame_events(cache, chunk);
            let next = progress.after_chunk(updates.len() as int);
            &&& session.answers(events)
            &&& session.written(events) == updates.to_multiset()
            &&& session.latest_versions(events) == Seq::<(u64, u64)>::empty()
            &&& events.len() > 0
            &&& events.last() is TransactionCached
            &&& session.run(events) == (SessionModel {
                phase: if progress.current_version + updates.len() <= u64::MAX {
                    SessionPhase::Streaming { progress: next }
                } else {
                    SessionPhase::Ended
                },
                ..session
            })
            &&& session.last_action(events) == if progress.current_version + updates.len()
                <= u64::MAX {
                StreamActionModel::Receive
            } else {
                StreamActionModel::Crash(FatalError::VersionOverflow)
            }
        }),
{
    let updates = chunk.updates();
    let size = updates.len();
    let all = chunk.delivery(size);
    crate::indexer::worker_laws::chunk_is_left_in_part(session, progress, chunk, 0);
    assert(session.next(StreamEvent::Received(StreamItem::Frame(chunk))).1 is CacheTransaction) by {
        assert(all.take(1).drop_last() =~= Seq::empty());
    }
    assert(session.frame_events(cache, chunk) == all);
    crate::indexer::worker_laws::chunk_is_left_in_part(session, progress, chunk, size - 1);
    lemma_chunk_written(session, progress, chunk, size as int);
    assert(all.drop_last() =~= all.take(size as int));
    assert(updates.skip(size as int).len() == 0);
    assert(updates.take(size as int) =~= updates);
}

/// The session waits for a frame of the chain, or is over.
pub open spec fn between_frames(session: SessionModel, chain_id: ChainID) -> bool {
    match session.phase {
        SessionPhase::AwaitingInit => true,
        SessionPhase::Streaming { progress } => {
            &&& progress.chain_id == chain_id
            &&& progress.transaction_count <= progress.current_version
        },
        SessionPhase::Ended => true,
        _ => false,
    }
}

/// A frame brings a session to the next one, or to its end.
proof fn lemma_frame(session: SessionModel, cache: CacheState, frame: RawDatastreamResponse)
    requires
        between_frames(session, frame.chain_id),
        session.phase !is Ended,
        is_chunk(frame) ==> 0 < frame.updates().len(),
    ensures
        ({
            let events = session.frame_events(cache, frame);
            &&& events.len() > 0
            &&& session.answers(events)
            &&& between_frames(session.run(events), frame.chain_id)
            &&& session.run(events).phase !is AwaitingInit
        }),
{
    let arrival = StreamEvent::Received(StreamItem::Frame(frame));
    let events = session.frame_events(cache, frame);
    reveal_with_fuel(SessionModel::run, 4);
    reveal_with_fuel(SessionModel::answers, 4);
    match session.next(arrival).1 {
        StreamActionModel::CacheTransaction(_) => {
            let progress = session.phase->Streaming_progress;
            lemma_chunk(session, progress, cache, frame);
        },
        StreamActionModel::SetUpCache => {
            let set_up = StreamEvent::CacheSetUp { was_empty: cache.was_empty };
            assert(events.drop_last() =~= seq![arrival, set_up]);
            assert(seq![arrival, set_up].drop_last() =~= seq![arrival]);
            assert(seq![arrival].drop_last() =~= Seq::empty());
        },
        StreamActionModel::CacheLatestVersion { .. } => {
            assert(events.drop_last() =~= seq![arrival]);
            assert(seq![arrival].drop_last() =~= Seq::empty());
        },
        _ => {
            assert(events.drop_last() =~= Seq::empty());
        },
    }
}

/// A stream can be cut in two.
proof fn lemma_frames_split(
    session: SessionModel,
    cache: CacheState,
    first: Seq<RawDatastreamResponse>,
    second: Seq<RawDatastreamResponse>,
)
    ensures
        session.frames_events(cache, first + second) == session.frames_events(cache, first)
            + session.run(session.frames_events(cache, first)).frames_events(cache, second),
    decreases second.len(),
{
    let before = session.frames_events(cache, first);
    let middle = session.run(before);
    if second.len() == 0 {
        assert(first + second =~= first);
        assert(before + middle.frames_events(cache, second) =~= before);
    } else {
        lemma_frames_split(session, cache, first, second.drop_last());
        assert((first + second).drop_last() =~= first + second.drop_last());
        let some = middle.frames_events(cache, second.drop_last());
        crate::indexer::worker_laws::run_is_compositional(session, before, some);
        let rest = middle.run(some).frame_events(cache, second.last());
        assert(before + (some + rest) =~= (before + some) + rest);
    }
}

/// Frames of one chain bring a session to the next one, or to its end.
proof fn lemma_frames(
    session: SessionModel,
    cache: CacheState,
    frames: Seq<RawDatastreamResponse>,
    chain_id: ChainID,
)
    requires
        between_frames(session, chain_id),
        fit(frames, chain_id),
    ensures
        ({
            let events = session.frames_events(cache, frames);
            &&& session.answers(events)
            &&& between_frames(session.run(events), chain_id)
            &&& session.phase is Ended ==> events.len() == 0
            &&& session.phase !is Ended && frames.len() > 0 ==> events.len() > 0
        }),
    decreases frames.len(),
{
    if frames.len() > 0 {
        assert(fit(frames.drop_last(), chain_id)) by {
            assert forall|i: int| 0 <= i < frames.len() - 1 implies frames.drop_last()[i]
                == frames[i] by {}
        }
        lemma_frames(session, cache, frames.drop_last(), chain_id);
        let before = session.frames_events(cache, frames.drop_last());
        let middle = session.run(before);
        if middle.phase !is Ended {
            assert(frames[frames.len() - 1] == frames.last());
            lemma_frame(middle, cache, frames.last());
            crate::indexer::worker_laws::run_is_compositional(
                session,
                before,
                middle.frame_events(cache, frames.last()),
            );
        }
    }
}

/// All `frames` are chunks.
pub open spec fn all_chunks(frames: Seq<RawDatastreamResponse>) -> bool {
    forall|i: int| 0 <= i < frames.len() ==> is_chunk(#[trigger] frames[i])
}

/// What a session does with chunks, one after the other.
proof fn lemma_chunks(
    session: SessionModel,
    progress: Progress,
    cache: CacheState,
    chunks: Seq<RawDatastreamResponse>,
)
    requires
        session.phase == (SessionPhase::Streaming { progress }),
        progress.transaction_count <= progress.current_version,
        fit(chunks, progress.chain_id),
        all_chunks(chunks),
    ensures
        ({
            let events = session.frames_events(cache, chunks);
            let size = total_size(chunks);
            &&& session.answers(events)
            &&& session.latest_versions(events) == Seq::<(u64, u64)>::empty()
            &&& chunks.len() > 0 ==> events.len() > 0 && events.last() is TransactionCached
            &&& if progress.current_version + size <= u64::MAX {
                &&& session.written(events) == all_updates(chunks)
                &&& session.run(events) == (SessionModel {
                    phase: SessionPhase::Streaming { progress: progress.after_chunk(size as int) },
                    ..session
                })
                &&& chunks.len() > 0 ==> session.last_action(events) is Receive
            } else {
                &&& session.run(events) == (SessionModel { phase: SessionPhase::Ended, ..session })
                &&& session.last_action(events) == StreamActionModel::Crash(
                    FatalError::VersionOverflow,
                )
            }
        }),
    decreases chunks.len(),
{
    if chunks.len() > 0 {
        let some = chunks.drop_last();
        assert forall|i: int| 0 <= i < some.len() implies #[trigger] some[i] == chunks[i] by {}
        assert(fit(some, progress.chain_id));
        assert(all_chunks(some));
        lemma_chunks(session, progress, cache, some);
        let before = session.frames_events(cache, some);
        if progress.current_version + total_size(some) <= u64::MAX {
            let middle = session.run(before);
            let last = chunks.last();
            assert(chunks[chunks.len() - 1] == last);
            let reached = progress.after_chunk(total_size(some) as int);
            lemma_chunk(middle, reached, cache, last);
            let events = middle.frame_events(cache, last);
            crate::indexer::worker_laws::run_is_compositional(session, before, events);
            lemma_writes_add_up(session, before, events);
            assert(session.frames_events(cache, chunks) == before + events);
            assert((before + events).last() == events.last());
        }
    }
}

/// A stream that starts with a chunk is not followed.
proof fn lemma_leading_chunk(
    session: SessionModel,
    cache: CacheState,
    chunks: Seq<RawDatastreamResponse>,
)
    requires
        session.phase is AwaitingInit,
        chunks.len() > 0,
        is_chunk(chunks[0]),
    ensures
        ({
            let events = session.frames_events(cache, chunks);
            &&& events.len() == 1
            &&& events.last() is Received
            &&& session.run(events) == (SessionModel { phase: SessionPhase::Ended, ..session })
            &&& session.last_action(events) == StreamActionModel::Crash(
                FatalError::FirstFrameNotSignal,
            )
            &&& session.latest_versions(events) == Seq::<(u64, u64)>::empty()
            &&& session.written(events) == Multiset::<CacheUpdate>::empty()
        }),
    decreases chunks.len(),
{
    reveal_with_fuel(SessionModel::frames_events, 2);
    reveal_with_fuel(SessionModel::latest_versions, 2);
    reveal_with_fuel(SessionModel::written, 2);
    reveal_with_fuel(SessionModel::run, 2);
    if chunks.len() > 1 {
        assert(chunks.drop_last()[0] == chunks[0]);
        lemma_leading_chunk(session, cache, chunks.drop_last());
    } else {
        let arrival = StreamEvent::Received(StreamItem::Frame(chunks[0]));
        assert(chunks.drop_last() =~= Seq::empty());
        assert(session.frames_events(cache, chunks) =~= seq![arrival]);
        assert(seq![arrival].drop_last() =~= Seq::<StreamEvent>::empty());
    }
}

/// The versions run out within a chunk: the session is over after the write of a transaction,
/// although the cache took it.
pub open spec fn runs_out(session: SessionModel, events: Seq<StreamEvent>) -> bool {
    &&& events.len() > 0
    &&& events.last() is TransactionCached
    &&& session.run(events).phase is Ended
}

/// The session comes to the same by both runs of events: it is in the same state, it has given the
/// same last answer and has written the same latest versions in the same order; and it has written
/// the same transactions, unless the versions ran out in both.
pub open spec fn comes_to_the_same(
    session: SessionModel,
    one: Seq<StreamEvent>,
    other: Seq<StreamEvent>,
) -> bool {
    &&& session.run(one) == session.run(other)
    &&& one.len() == 0 <==> other.len() == 0
    &&& one.len() > 0 ==> session.last_action(one) == session.last_action(other)
    &&& session.latest_versions(one) == session.latest_versions(other)
    &&& runs_out(session, one) <==> runs_out(session, other)
    &&& !runs_out(session, one) ==> session.written(one) == session.written(other)
}

proof fn lemma_chunks_in_any_order(
    session: SessionModel,
    cache: CacheState,
    one: Seq<RawDatastreamResponse>,
    other: Seq<RawDatastreamResponse>,
    chain_id: ChainID,
)
    requires
        between_frames(session, chain_id),
        one.to_multiset() == other.to_multiset(),
        fit(one, chain_id),
        fit(other, chain_id),
        all_chunks(one),
        all_chunks(other),
    ensures
        comes_to_the_same(
            session,
            session.frames_events(cache, one),
            session.frames_events(cache, other),
        ),
{
    one.to_multiset_ensures();
    other.to_multiset_ensures();
    assert(one.len() == other.len());
    lemma_frames(session, cache, one, chain_id);
    lemma_frames(session, cache, other, chain_id);
    if one.len() == 0 {
        assert(one =~= other);
    } else {
        match session.phase {
            SessionPhase::AwaitingInit => {
                lemma_leading_chunk(session, cache, one);
                lemma_leading_chunk(session, cache, other);
            },
            SessionPhase::Streaming { progress } => {
                lemma_sums_of_permutations(one, other);
                lemma_chunks(session, progress, cache, one);
                lemma_chunks(session, progress, cache, other);
            },
            _ => {
                assert(session.frames_events(cache, one) =~= session.frames_events(cache, other));
            },
        }
    }
}

proof fn lemma_runs_join(
    session: SessionModel,
    one: Seq<StreamEvent>,
    other: Seq<StreamEvent>,
    one_more: Seq<StreamEvent>,
    other_more: Seq<StreamEvent>,
)
    requires
        comes_to_the_same(session, one, other),
        comes_to_the_same(session.run(one), one_more, other_more),
        session.run(one).phase is Ended ==> one_more.len() == 0,
    ensures
        comes_to_the_same(session, one + one_more, other + other_more),
{
    lemma_writes_add_up(session, one, one_more);
    lemma_writes_add_up(session, other, other_more);
    crate::indexer::worker_laws::run_is_compositional(session, one, one_more);
    crate::indexer::worker_laws::run_is_compositional(session, other, other_more);
    if one_more.len() == 0 {
        assert(one + one_more =~= one);
        assert(other + other_more =~= other);
    } else {
        assert((one + one_more).last() == one_more.last());
        assert((other + other_more).last() == other_more.last());
    }
}

/// Where the chunks start that end before the frame `n`.
spec fn chunks_start(frames: Seq<RawDatastreamResponse>, n: int) -> int
    decreases n,
{
    if n <= 0 || !is_chunk(frames[n - 1]) {
        n
    } else {
        chunks_start(frames, n - 1)
    }
}

proof fn lemma_chunks_start(frames: Seq<RawDatastreamResponse>, n: int)
    requires
        0 <= n <= frames.len(),
    ensures
        ({
            let start = chunks_start(frames, n);
            &&& 0 <= start <= n
            &&& start > 0 ==> !is_chunk(frames[start - 1])
            &&& forall|i: int| start <= i < n ==> is_chunk(#[trigger] frames[i])
        }),
    decreases n,
{
    if n > 0 && is_chunk(frames[n - 1]) {
        lemma_chunks_start(frames, n - 1);
    }
}

proof fn lemma_fit_permutation(
    one: Seq<RawDatastreamResponse>,
    other: Seq<RawDatastreamResponse>,
    chain_id: ChainID,
)
    requires
        one.to_multiset() == other.to_multiset(),
        fit(one, chain_id),
    ensures
        one.len() == other.len(),
        fit(other, chain_id),
{
    one.to_multiset_ensures();
    other.to_multiset_ensures();
    assert forall|i: int| 0 <= i < other.len() implies {
        &&& (#[trigger] other[i]).chain_id == chain_id
        &&& is_chunk(other[i]) ==> other[i].updates().len() > 0
    } by {
        assert(other.contains(other[i]));
        assert(one.to_multiset().count(other[i]) > 0);
        let j = choose|j: int| 0 <= j < one.len() && one[j] == other[i];
        assert(one[j].chain_id == chain_id);
    }
}

/// Up to a point before which the streams have the same frames, the session comes to the same.
proof fn lemma_prefixes(
    session: SessionModel,
    cache: CacheState,
    one: Seq<RawDatastreamResponse>,
    other: Seq<RawDatastreamResponse>,
    chain_id: ChainID,
    n: int,
)
    requires
        between_frames(session, chain_id),
        one.len() == other.len(),
        fit(one, chain_id),
        fit(other, chain_id),
        same_but_for_chunk_order(one, other),
        0 <= n <= one.len(),
        one.take(n).to_multiset() == other.take(n).to_multiset(),
    ensures
        comes_to_the_same(
            session,
            session.frames_events(cache, one.take(n)),
            session.frames_events(cache, other.take(n)),
        ),
    decreases n,
{
    let start = chunks_start(one, n);
    lemma_chunks_start(one, n);
    let one_head = one.take(start);
    let other_head = other.take(start);
    let one_events = session.frames_events(cache, one_head);
    let other_events = session.frames_events(cache, other_head);
    assert(fit(one_head, chain_id)) by {
        assert forall|i: int| 0 <= i < start implies one_head[i] == one[i] by {}
    }
    // The frames up to the last one that is no chunk.
    if start > 0 {
        let signal = one[start - 1];
        assert(other[start - 1] == signal);
        lemma_prefixes(session, cache, one, other, chain_id, start - 1);
        assert(one_head.drop_last() =~= one.take(start - 1));
        assert(other_head.drop_last() =~= other.take(start - 1));
        assert(one_head =~= one.take(start - 1).push(signal));
        assert(other_head =~= other.take(start - 1).push(signal));
        one.take(start - 1).to_multiset_ensures();
        other.take(start - 1).to_multiset_ensures();
        assert(one_head.to_multiset() == other_head.to_multiset());
        let one_before = session.frames_events(cache, one.take(start - 1));
        let other_before = session.frames_events(cache, other.take(start - 1));
        let middle = session.run(one_before);
        if middle.phase !is Ended {
            let events = middle.frame_events(cache, signal);
            assert(one_events == one_before + events);
            assert(other_events == other_before + events);
            lemma_runs_join(session, one_before, other_before, events, events);
        } else {
            assert(one_events == one_before);
            assert(other_events == other_before);
        }
    } else {
        assert(one_head =~= Seq::empty());
        assert(other_head =~= Seq::empty());
    }
    // The chunks after it.
    let one_tail = one.subrange(start, n);
    let other_tail = other.subrange(start, n);
    assert(one.take(n) =~= one_head + one_tail);
    assert(other.take(n) =~= other_head + other_tail);
    vstd::seq_lib::lemma_multiset_commutative(one_head, one_tail);
    vstd::seq_lib::lemma_multiset_commutative(other_head, other_tail);
    assert(one_tail.to_multiset() =~= one.take(n).to_multiset().sub(one_head.to_multiset()));
    assert(other_tail.to_multiset() =~= other.take(n).to_multiset().sub(other_head.to_multiset()));
    assert forall|i: int| 0 <= i < n - start implies one_tail[i] == one[start + i] && other_tail[i]
        == other[start + i] && is_chunk(one[start + i]) && is_chunk(other[start + i]) by {
        if !is_chunk(other[start + i]) {
            assert(one[start + i] == other[start + i]);
        }
    }
    assert(fit(one_tail, chain_id));
    assert(fit(other_tail, chain_id));
    assert(all_chunks(one_tail));
    assert(all_chunks(other_tail));
    lemma_frames(session, cache, one_head, chain_id);
    let middle = session.run(one_events);
    lemma_chunks_in_any_order(middle, cache, one_tail, other_tail, chain_id);
    lemma_frames(middle, cache, one_tail, chain_id);
    lemma_frames_split(session, cache, one_head, one_tail);
    lemma_frames_split(session, cache, other_head, other_tail);
    lemma_runs_join(
        session,
        one_events,
        other_events,
        middle.frames_events(cache, one_tail),
        middle.frames_events(cache, other_tail),
    );
}

/// The chunks of a batch may come in any order: two permutations of them bring a session to the
/// same state, in which the same latest version is written at the end of the batch, and have the
/// same transactions written to the cache.
pub proof fn order_of_chunks_is_immaterial(
    session: SessionModel,
    progress: Progress,
    cache: CacheState,
    one: Seq<RawDatastreamResponse>,
    other: Seq<RawDatastreamResponse>,
    end: RawDatastreamResponse,
)
    requires
        session.phase == (SessionPhase::Streaming { progress }),
        session.phase.wf(),
        fit(one, progress.chain_id),
        all_chunks(one),
        one.to_multiset() == other.to_multiset(),
        progress.current_version + total_size(one) <= u64::MAX,
    ensures
        ({
            let one_events = session.frames_events(cache, one);
            let other_events = session.frames_events(cache, other);
            let arrival = StreamEvent::Received(StreamItem::Frame(end));
            &&& session.answers(one_events)
            &&& session.answers(other_events)
            &&& session.run(one_events) == (SessionModel {
                phase: SessionPhase::Streaming {
                    progress: progress.after_chunk(total_size(one) as int),
                },
                ..session
            })
            &&& session.run(other_events) == session.run(one_events)
            &&& session.last_action(one_events.push(arrival)) == session.last_action(
                other_events.push(arrival),
            )
            &&& session.written(one_events) == all_updates(one)
            &&& session.written(other_events) == session.written(one_events)
        }),
{
    lemma_fit_permutation(one, other, progress.chain_id);
    one.to_multiset_ensures();
    other.to_multiset_ensures();
    assert forall|i: int| 0 <= i < other.len() implies is_chunk(#[trigger] other[i]) by {
        assert(other.contains(other[i]));
        assert(one.to_multiset().count(other[i]) > 0);
        let j = choose|j: int| 0 <= j < one.len() && one[j] == other[i];
        assert(is_chunk(one[j]));
    }
    lemma_sums_of_permutations(one, other);
    lemma_chunks(session, progress, cache, one);
    lemma_chunks(session, progress, cache, other);
    let one_events = session.frames_events(cache, one);
    let other_events = session.frames_events(cache, other);
    let arrival = StreamEvent::Received(StreamItem::Frame(end));
    assert(one_events.push(arrival).drop_last() =~= one_events);
    assert(other_events.push(arrival).drop_last() =~= other_events);
}

/// Two streams of one chain that differ at most in the order of the chunks between their signals
/// come to the same, from the first frame to the end: the session ends for the same reason, writes
/// the same latest versions in the same order, and writes the same transactions. (When the versions
/// run out within a chunk, they do so for both streams, but the order of the chunks decides which
/// transactions were written before.)
pub proof fn chunk_order_of_a_stream_is_immaterial(
    file_store_metadata: Option<FileStoreMetadata>,
    cache: CacheState,
    one: Seq<RawDatastreamResponse>,
    other: Seq<RawDatastreamResponse>,
    chain_id: ChainID,
)
    requires
        fit(one, chain_id),
        same_but_for_chunk_order(one, other),
    ensures
        ({
            let session = SessionModel::opened(file_store_metadata);
            let one_events = session.stream_events(cache, one);
            let other_events = session.stream_events(cache, other);
            &&& session.answers(one_events)
            &&& session.answers(other_events)
            &&& session.run(one_events).phase is Ended
            &&& session.run(other_events).phase is Ended
            &&& one_events.len() > 0
            &&& other_events.len() > 0
            &&& session.last_action(one_events) == session.last_action(other_events)
            &&& session.latest_versions(one_events) == session.latest_versions(other_events)
            &&& runs_out(session, one_events) <==> runs_out(session, other_events)
            &&& !runs_out(session, one_events) ==> session.written(one_events) == session.written(
                other_events,
            )
        }),
{
    let session = SessionModel::opened(file_store_metadata);
    lemma_fit_permutation(one, other, chain_id);
    assert(one.take(one.len() as int) =~= one);
    assert(other.take(one.len() as int) =~= other);
    lemma_prefixes(session, cache, one, other, chain_id, one.len() as int);
    lemma_frames(session, cache, one, chain_id);
    lemma_frames(session, cache, other, chain_id);
    let one_events = session.frames_events(cache, one);
    let other_events = session.frames_events(cache, other);
    let finished = StreamEvent::Received(StreamItem::Finished);
    assert(one_events.push(finished).drop_last() =~= one_events);
    assert(other_events.push(finished).drop_last() =~= other_events);
}

} // verus!
