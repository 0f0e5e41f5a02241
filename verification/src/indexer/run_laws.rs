//! What holds of every run of a worker's main loop, whatever its outside work comes to.

use crate::indexer::config::{ConfigError, IndexerGrpcConfig};
use crate::indexer::worker::{
    FileStoreMetadata, RunAction, RunActionModel, RunEvent, RunModel, SessionModel,
    StopReason, StreamAction, StreamActionModel, StreamEvent, StreamPlan, StreamSession, Worker,
    WorkerRun,
};
use vstd::prelude::*;

verus! {

impl RunModel {
    /// The state after `events`, in their order.
    pub open spec fn after_all(self, worker: Worker, events: Seq<RunEvent>) -> RunModel
        decreases events.len(),
    {
        if events.len() == 0 {
            self
        } else {
            self.after_all(worker, events.drop_last()).next(worker, events.last()).0
        }
    }

    /// Each of the `events` answers the outside work that the main loop waits for at that point.
    pub open spec fn answers(self, worker: Worker, events: Seq<RunEvent>) -> bool
        decreases events.len(),
    {
        events.len() > 0 ==> {
            &&& self.answers(worker, events.drop_last())
            &&& self.after_all(worker, events.drop_last()).expects(events.last())
        }
    }
}

/// What the file store last knew of itself.
pub open spec fn last_metadata(events: Seq<RunEvent>) -> Option<FileStoreMetadata>
    decreases events.len(),
{
    if events.len() == 0 {
        None
    } else {
        match events.last() {
            RunEvent::MetadataRead(file_store_metadata) => file_store_metadata,
            _ => last_metadata(events.drop_last()),
        }
    }
}

/// The main loop ends only with a crash, and it crashes only when a session does: whatever else
/// its outside work comes to, another piece of outside work follows.
pub proof fn only_a_crash_ends_the_run(worker: Worker, run: RunModel, event: RunEvent)
    requires
        run.expects(event),
    ensures
        run.next(worker, event).0 is Crashed <==> run.next(worker, event).1 is Crash,
        run.next(worker, event).0 is Crashed <==> {
            &&& run matches RunModel::Following { session }
            &&& event matches RunEvent::Streamed(streamed)
            &&& session.next(streamed).1 is Crash
        },
{
}

/// A session that stops, for whatever reason, is followed by a new round: the worker connects
/// again, asks the file store again what it knows of itself, and requests the stream from the
/// version of the file store on, or from zero on if there is none, whatever the last stream had
/// reached. The new session knows nothing of the last one.
pub proof fn stopped_session_is_followed_by_a_round(
    worker: Worker,
    session: SessionModel,
    event: StreamEvent,
    file_store_metadata: Option<FileStoreMetadata>,
)
    requires
        session.phase.expects(event),
        session.next(event).1 is Stop,
    ensures
        ({
            let run = RunModel::Following { session };
            let stopped = RunEvent::Streamed(event);
            let (connecting, connect) = run.next(worker, stopped);
            let (reading, read) = connecting.next(worker, RunEvent::Connected);
            let metadata_read = RunEvent::MetadataRead(file_store_metadata);
            let (opening, open) = reading.next(worker, metadata_read);
            let (following, _) = opening.next(worker, RunEvent::StreamOpened);
            &&& run.expects(stopped)
            &&& connect == (RunActionModel::Connect {
                fullnode_grpc_address: worker.fullnode_url(),
                lost: Some(session.next(event).1->Stop_0),
            })
            &&& connecting.expects(RunEvent::Connected)
            &&& read == (RunActionModel::ReadMetadata { file_store_bucket_name: worker.bucket() })
            &&& reading.expects(metadata_read)
            &&& open == RunActionModel::OpenStream(StreamPlan::of(file_store_metadata))
            &&& open->OpenStream_0.starting_version == match file_store_metadata {
                Some(metadata) => metadata.version,
                None => 0,
            }
            &&& opening.expects(RunEvent::StreamOpened)
            &&& following == (RunModel::Following {
                session: SessionModel::opened(file_store_metadata),
            })
        }),
{
}

/// A stream is requested only right after the file store was asked what it knows of itself, and as
/// the answer says.
pub proof fn streams_are_requested_by_the_metadata(worker: Worker, run: RunModel, event: RunEvent)
    requires
        run.expects(event),
        run.next(worker, event).1 is OpenStream,
    ensures
        event matches RunEvent::MetadataRead(file_store_metadata) && run.next(worker, event).1
            == RunActionModel::OpenStream(StreamPlan::of(file_store_metadata)),
{
}

/// At every point of a run, the session that is under way, or about to be opened, goes by what the
/// file store last knew of itself; and it is requested from the version that it is followed from.
pub proof fn sessions_go_by_the_last_metadata(worker: Worker, events: Seq<RunEvent>)
    requires
        RunModel::Connecting.answers(worker, events),
    ensures
        match RunModel::Connecting.after_all(worker, events) {
            RunModel::OpeningStream { file_store_metadata } => file_store_metadata
                == last_metadata(events),
            RunModel::Following { session } => {
                &&& session.file_store_metadata == last_metadata(events)
                &&& session.origin() == StreamPlan::of(last_metadata(events)).starting_version
            },
            _ => true,
        },
    decreases events.len(),
{
    if events.len() > 0 {
        sessions_go_by_the_last_metadata(worker, events.drop_last());
    }
}

/// What the session that is under way was told, since its stream was opened.
pub open spec fn session_events(events: Seq<RunEvent>) -> Seq<StreamEvent>
    decreases events.len(),
{
    if events.len() == 0 {
        Seq::empty()
    } else {
        match events.last() {
            RunEvent::Streamed(event) => session_events(events.drop_last()).push(event),
            _ => Seq::empty(),
        }
    }
}

/// At every point of a run, the session that is under way is what its own events have made of it,
/// since it was opened with what the file store last knew of itself.
pub proof fn session_is_made_by_its_own_events(worker: Worker, events: Seq<RunEvent>)
    requires
        RunModel::Connecting.answers(worker, events),
    ensures
        RunModel::Connecting.after_all(worker, events) matches RunModel::Following { session } ==> {
            let opened = SessionModel::opened(last_metadata(events));
            &&& opened.answers(session_events(events))
            &&& session == opened.run(session_events(events))
        },
    decreases events.len(),
{
    if events.len() > 0 {
        let before = events.drop_last();
        session_is_made_by_its_own_events(worker, before);
        sessions_go_by_the_last_metadata(worker, before);
        if let RunEvent::Streamed(event) = events.last() {
            assert(session_events(events).drop_last() =~= session_events(before));
        }
    }
}

/// What a session asks for is handed on as it is, unless the session is over; and the run goes on
/// with the session.
pub proof fn session_is_handed_on_unchanged(
    worker: Worker,
    session: SessionModel,
    event: StreamEvent,
)
    requires
        session.phase.expects(event),
        session.next(event).1 !is Stop,
        session.next(event).1 !is Crash,
    ensures
        ({
            let (next, action) = (RunModel::Following { session }).next(
                worker,
                RunEvent::Streamed(event),
            );
            &&& action == RunActionModel::Stream(session.next(event).1)
            &&& next == (RunModel::Following { session: session.after(event) })
        }),
{
}

/// Whatever a session answers, the run of its worker does the same: the run hands on an action as
/// it is, connects again after a stop, with its reason, and crashes with the same error.
pub proof fn run_follows_its_session(
    worker: Worker,
    run: WorkerRun,
    session: StreamSession,
    event: StreamEvent,
    session_next: StreamSession,
    session_action: StreamAction,
    next: WorkerRun,
    action: RunAction,
)
    requires
        run@ == (RunModel::Following { session: session@ }),
        session@.phase.expects(event),
        call_ensures(
            StreamSession::process_streaming_response,
            (session, event),
            (session_next, session_action),
        ),
        call_ensures(Worker::run, (&worker, run, RunEvent::Streamed(event)), (next, action)),
    ensures
        match session_action {
            StreamAction::Stop(reason) => {
                &&& next@ is Connecting
                &&& action matches RunAction::Connect { fullnode_grpc_address, lost: Some(lost) }
                &&& fullnode_grpc_address@ == worker.fullnode_url()
                &&& match (reason, lost) {
                    (StopReason::StreamFinished, StopReason::StreamFinished) => true,
                    (StopReason::StreamFailed, StopReason::StreamFailed) => true,
                    (StopReason::InitReceivedTwice, StopReason::InitReceivedTwice) => true,
                    (StopReason::WrongBatchEnd, StopReason::WrongBatchEnd) => true,
                    (
                        StopReason::TransactionNotCached(text),
                        StopReason::TransactionNotCached(lost_text),
                    ) => text@ == lost_text@,
                    _ => false,
                }
            },
            StreamAction::Crash(error) => next@ is Crashed && action == RunAction::Crash(error),
            handed_on => {
                &&& next@ == (RunModel::Following { session: session_next@ })
                &&& action == RunAction::Stream(handed_on)
            },
        },
{
}

/// Every latest version that the cache is told in a run is the version that the file store had when
/// the stream was opened, or zero, plus the number of transactions that the cache has taken since;
/// and the number that goes with it is that of the transactions since the last such write. It comes
/// right after the last version of the batch whose end has just been signalled.
pub proof fn latest_versions_of_a_run_agree_with_the_count(
    worker: Worker,
    events: Seq<RunEvent>,
    event: StreamEvent,
    num_of_transactions: u64,
    version: u64,
)
    requires
        RunModel::Connecting.answers(worker, events.push(RunEvent::Streamed(event))),
        RunModel::Connecting.after_all(worker, events).next(worker, RunEvent::Streamed(event)).1
            == RunActionModel::Stream(
            StreamActionModel::CacheLatestVersion { num_of_transactions, version },
        ),
    ensures
        ({
            let origin = match last_metadata(events) {
                Some(metadata) => metadata.version as int,
                None => 0,
            };
            version == origin + crate::indexer::worker_laws::cached(session_events(events))
        }),
        num_of_transactions == crate::indexer::worker_laws::cached_since_batch(
            session_events(events),
        ),
        crate::indexer::worker_laws::ends_batch(event, version - 1),
{
    assert(events.push(RunEvent::Streamed(event)).drop_last() =~= events);
    session_is_made_by_its_own_events(worker, events);
    let told = session_events(events);
    assert(told.push(event).drop_last() =~= told);
    crate::indexer::worker_laws::latest_version_agrees_with_the_count(
        last_metadata(events),
        told,
        event,
        num_of_transactions,
        version,
    );
}

/// The steps of a round up to the stream: connect, ask the file store, request a stream, and ask
/// the stream for its first item. The stream is requested from the version of the file store on,
/// and the worker stays; or, when the file store knows nothing of itself, from zero on, and the
/// worker exits after sixty seconds.
pub proof fn round_is_opened_by_the_file_store(
    worker: Worker,
    file_store_metadata: Option<FileStoreMetadata>,
    connecting: WorkerRun,
    reading: WorkerRun,
    read: RunAction,
    opening: WorkerRun,
    open: RunAction,
    following: WorkerRun,
    first: RunAction,
)
    requires
        connecting@ is Connecting,
        call_ensures(Worker::run, (&worker, connecting, RunEvent::Connected), (reading, read)),
        call_ensures(
            Worker::run,
            (&worker, reading, RunEvent::MetadataRead(file_store_metadata)),
            (opening, open),
        ),
        call_ensures(Worker::run, (&worker, opening, RunEvent::StreamOpened), (following, first)),
    ensures
        read matches RunAction::ReadMetadata { file_store_bucket_name } && file_store_bucket_name@
            == worker.bucket(),
        open matches RunAction::OpenStream(plan) && match file_store_metadata {
            Some(metadata) => plan.starting_version == metadata.version && plan.exit_after_secs
                is None,
            None => plan.starting_version == 0 && plan.exit_after_secs == Some(60u64),
        },
        first == RunAction::Stream(StreamAction::Receive),
        following@ matches RunModel::Following { session } && session == SessionModel::opened(
            file_store_metadata,
        ),
{
}

/// A plan requests the version of the file store and lets the worker stay, or requests version zero
/// and has the worker exit after sixty seconds.
pub proof fn plan_goes_by_the_file_store(
    file_store_metadata: Option<FileStoreMetadata>,
    plan: StreamPlan,
)
    requires
        call_ensures(StreamPlan::from_metadata, (file_store_metadata,), plan),
    ensures
        file_store_metadata matches Some(metadata) ==> plan.starting_version == metadata.version
            && plan.exit_after_secs is None,
        file_store_metadata is None ==> plan.starting_version == 0 && plan.exit_after_secs == Some(
            60u64,
        ),
{
}

/// Each state of the main loop waits for its own kind of event, and a crashed one for none.
pub proof fn each_state_waits_for_its_event(run: WorkerRun, event: RunEvent, expected: bool)
    requires
        call_ensures(WorkerRun::expects, (&run, &event), expected),
    ensures
        run@ is Connecting ==> expected == (event is Connected),
        run@ is ReadingMetadata ==> expected == (event is MetadataRead),
        run@ is OpeningStream ==> expected == (event is StreamOpened),
        run@ matches RunModel::Following { session } ==> expected == (event
            matches RunEvent::Streamed(streamed) && session.phase.expects(streamed)),
        run@ is Crashed ==> !expected,
        expected == run@.expects(event),
{
}

/// A worker that is set up goes by its configuration: its main loop starts with connecting to the
/// configured fullnode over HTTP, nothing having been lost; it asks the file store in the
/// configured bucket; and its redis client is the one for the configured address.
pub proof fn worker_goes_by_its_config(
    config: IndexerGrpcConfig,
    worker: Worker,
    run: WorkerRun,
    action: RunAction,
    url: &str,
    client: &redis::Client,
)
    requires
        config.fullnode_grpc_address is Some,
        call_ensures(Worker::new, (config,), worker),
        call_ensures(Worker::start, (&worker,), (run, action)),
        call_ensures(Worker::fullnode_grpc_address, (&worker,), url),
        call_ensures(Worker::redis_client, (&worker,), client),
    ensures
        run@ is Connecting,
        action matches RunAction::Connect { fullnode_grpc_address, lost } && lost is None
            && fullnode_grpc_address@ == "http://"@ + config.fullnode_grpc_address->0@,
        url@ == "http://"@ + config.fullnode_grpc_address->0@,
        worker.fullnode_url() == url@,
        worker.bucket() == config.file_store_bucket_name@,
        crate::indexer::config::redis_client_opened("redis://"@ + config.redis_address@) == Some(
            *client,
        ),
{
}

/// A worker is set up exactly if its redis address is valid and it has a fullnode address;
/// otherwise the error says which is missing, the redis address first. A worker that is set up is
/// the one that the configuration asks for.
pub proof fn worker_is_set_up_if_it_can_be(
    config: IndexerGrpcConfig,
    result: Result<Worker, ConfigError>,
)
    requires
        call_ensures(Worker::try_new, (config,), result),
    ensures
        ({
            let client = crate::indexer::config::redis_client_opened(
                "redis://"@ + config.redis_address@,
            );
            match result {
                Ok(worker) => {
                    &&& client == Some(worker.client())
                    &&& config.fullnode_grpc_address matches Some(address)
                    &&& worker.fullnode_url() == "http://"@ + address@
                    &&& worker.bucket() == config.file_store_bucket_name@
                },
                Err(ConfigError::InvalidRedisAddress) => client is None,
                Err(ConfigError::MissingFullnodeAddress) => client is Some
                    && config.fullnode_grpc_address is None,
            }
        }),
{
}

/// A redis client is opened for the configured address, under the scheme of redis, exactly if there
/// is one for it.
pub proof fn redis_client_is_that_of_the_address(
    config: IndexerGrpcConfig,
    result: Result<redis::Client, ConfigError>,
)
    requires
        call_ensures(IndexerGrpcConfig::open_redis_client, (&config,), result),
    ensures
        match crate::indexer::config::redis_client_opened("redis://"@ + config.redis_address@) {
            Some(client) => result matches Ok(opened) && opened == client,
            None => result matches Err(error) && error == ConfigError::InvalidRedisAddress,
        },
{
}

/// The main loop takes in every event that it waits for: nothing more is asked of it than that the
/// session under way has counted no more transactions than there are versions.
pub proof fn awaited_event_is_taken_in(worker: Worker, run: WorkerRun, event: RunEvent)
    requires
        match run@ {
            RunModel::Connecting => event is Connected,
            RunModel::ReadingMetadata => event is MetadataRead,
            RunModel::OpeningStream { .. } => event is StreamOpened,
            RunModel::Following { session } => {
                &&& event matches RunEvent::Streamed(streamed)
                &&& session.phase.expects(streamed)
                &&& session.phase.progress() matches Some(progress) ==> progress.transaction_count
                    <= progress.current_version
            },
            RunModel::Crashed => false,
        },
    ensures
        call_requires(Worker::run, (&worker, run, event)),
{
}

/// Setting up a worker or starting its main loop asks for nothing but a valid configuration, and
/// `try_new` not even for that.
pub proof fn any_valid_config_sets_up_a_worker(config: IndexerGrpcConfig, worker: Worker)
    ensures
        call_requires(Worker::try_new, (config,)),
        call_requires(Worker::start, (&worker,)),
        config.fullnode_grpc_address is Some && crate::indexer::config::redis_client_opened(
            "redis://"@ + config.redis_address@,
        ) is Some ==> call_requires(Worker::new, (config,)),
{
}

} // verus!
