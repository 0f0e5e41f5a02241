use aptos_node_services::indexer::config::{ConfigError, IndexerGrpcConfig};
use aptos_node_services::indexer::datastream::{
    DatastreamResponse, RawDatastreamResponse, StatusType, StreamStatus, Timestamp,
    TransactionOutput, TransactionsOutput,
};
use aptos_node_services::indexer::worker::{
    process_raw_datastream_response, setup_cache_with_init_signal, starting_point, CacheUpdate,
    FatalError, FileStoreMetadata, GrpcDataStatus, RunAction, RunEvent, StopReason, StreamAction,
    StreamEvent, StreamItem, StreamPlan, StreamSession, Worker, WorkerRun,
};

const CHAIN: u32 = 4;

fn status_frame(status_type: i32, start_version: u64, end_version: Option<u64>) -> RawDatastreamResponse {
    RawDatastreamResponse {
        response: Some(DatastreamResponse::Status(StreamStatus {
            status_type,
            start_version,
            end_version,
        })),
        chain_id: CHAIN,
    }
}

fn transaction(version: u64, seconds: Option<i64>) -> TransactionOutput {
    TransactionOutput {
        encoded_proto_data: format!("txn{}", version),
        version,
        timestamp: seconds.map(|seconds| Timestamp { seconds, nanos: 7 }),
    }
}

fn data_frame(versions: &[u64]) -> RawDatastreamResponse {
    RawDatastreamResponse {
        response: Some(DatastreamResponse::Data(TransactionsOutput {
            transactions: versions.iter().map(|v| transaction(*v, Some(*v as i64))).collect(),
        })),
        chain_id: CHAIN,
    }
}

fn update(version: u64) -> CacheUpdate {
    CacheUpdate {
        version,
        encoded_proto_data: format!("txn{}", version),
        timestamp_in_seconds: version,
    }
}

fn frame(frame: RawDatastreamResponse) -> StreamEvent {
    StreamEvent::Received(StreamItem::Frame(frame))
}

fn step(session: StreamSession, event: StreamEvent) -> (StreamSession, StreamAction) {
    assert!(session.expects(&event));
    session.process_streaming_response(event)
}

/// Opens a session at version 100, which the file store and the fullnode agree on.
fn streaming() -> StreamSession {
    let session = StreamSession::new(Some(FileStoreMetadata { chain_id: CHAIN as u64, version: 100 }));
    let (session, action) = step(session, frame(status_frame(0, 100, None)));
    assert_eq!(action, StreamAction::SetUpCache);
    let (session, action) = step(session, StreamEvent::CacheSetUp { was_empty: false });
    assert_eq!(action, StreamAction::VerifyChainId { chain_id: 4 });
    let (session, action) = step(session, StreamEvent::ChainIdVerified { agrees: true });
    assert_eq!(action, StreamAction::Receive);
    session
}

fn copy_chunk(session: StreamSession, versions: &[u64]) -> StreamSession {
    let (mut session, mut action) = step(session, frame(data_frame(versions)));
    for version in versions {
        assert_eq!(action, StreamAction::CacheTransaction(update(*version)));
        let (next, following) = step(session, StreamEvent::TransactionCached(Ok(())));
        session = next;
        action = following;
    }
    assert_eq!(action, StreamAction::Receive);
    session
}

fn ended(session: &StreamSession) -> bool {
    !session.expects(&StreamEvent::Received(StreamItem::Finished))
        && !session.expects(&StreamEvent::CacheSetUp { was_empty: true })
        && !session.expects(&StreamEvent::ChainIdVerified { agrees: true })
        && !session.expects(&StreamEvent::TransactionCached(Ok(())))
        && !session.expects(&StreamEvent::LatestVersionCached { succeeded: true })
}

#[test]
fn status_types_are_read() {
    assert_eq!(StatusType::from_i32(0), Some(StatusType::Init));
    assert_eq!(StatusType::from_i32(1), Some(StatusType::BatchEnd));
    assert_eq!(StatusType::from_i32(2), None);
    assert_eq!(StatusType::from_i32(-1), None);
}

#[test]
fn transactions_are_prepared_for_the_cache() {
    let with_time = CacheUpdate::from_transaction(transaction(9, Some(1234)));
    assert_eq!(with_time.version, 9);
    assert_eq!(with_time.encoded_proto_data, "txn9");
    assert_eq!(with_time.timestamp_in_seconds, 1234);
    let genesis = CacheUpdate::from_transaction(transaction(0, None));
    assert_eq!(genesis.timestamp_in_seconds, 0);
    let negative = CacheUpdate::from_transaction(transaction(1, Some(-1)));
    assert_eq!(negative.timestamp_in_seconds, u64::MAX);
}

#[test]
fn frames_are_read() {
    let chunk = process_raw_datastream_response(data_frame(&[7, 8, 9])).unwrap();
    assert_eq!(
        chunk.status,
        GrpcDataStatus::ChunkDataOk { start_version: 7, num_of_transactions: 3 }
    );
    assert_eq!(chunk.updates.into_iter().collect::<Vec<_>>(), vec![update(7), update(8), update(9)]);
    let init = process_raw_datastream_response(status_frame(0, 5, None)).unwrap();
    assert_eq!(init.status, GrpcDataStatus::StreamInit(5));
    assert!(init.updates.is_empty());
    // The end version is inclusive.
    let end = process_raw_datastream_response(status_frame(1, 5, Some(14))).unwrap();
    assert_eq!(end.status, GrpcDataStatus::BatchEnd { start_version: 5, num_of_transactions: 10 });
}

#[test]
fn malformed_frames_are_fatal() {
    let fatal = |response| process_raw_datastream_response(response).unwrap_err();
    assert_eq!(
        fatal(RawDatastreamResponse { response: None, chain_id: CHAIN }),
        FatalError::MissingResponse
    );
    assert_eq!(fatal(status_frame(2, 5, Some(6))), FatalError::InvalidStatusType);
    assert_eq!(fatal(status_frame(1, 5, None)), FatalError::MissingEndVersion);
    assert_eq!(fatal(status_frame(1, 5, Some(4))), FatalError::InvalidBatchBounds);
    assert_eq!(fatal(status_frame(1, 0, Some(u64::MAX))), FatalError::InvalidBatchBounds);
    assert_eq!(fatal(data_frame(&[])), FatalError::EmptyChunk);
}

#[test]
fn init_signal_is_read() {
    assert_eq!(setup_cache_with_init_signal(status_frame(0, 42, None)), Ok((CHAIN, 42)));
    assert_eq!(
        setup_cache_with_init_signal(status_frame(1, 42, Some(43))),
        Err(FatalError::FirstFrameNotInit)
    );
    assert_eq!(
        setup_cache_with_init_signal(status_frame(9, 42, None)),
        Err(FatalError::FirstFrameNotInit)
    );
    assert_eq!(
        setup_cache_with_init_signal(data_frame(&[1])),
        Err(FatalError::FirstFrameNotSignal)
    );
    assert_eq!(
        setup_cache_with_init_signal(RawDatastreamResponse { response: None, chain_id: 1 }),
        Err(FatalError::MissingResponse)
    );
}

#[test]
fn starting_point_follows_the_file_store() {
    let metadata = Some(FileStoreMetadata { chain_id: 4, version: 100 });
    assert_eq!(starting_point(metadata, false, 4, 100), Ok(100));
    assert_eq!(starting_point(metadata, true, 4, 100), Ok(100));
    assert_eq!(starting_point(metadata, true, 4, 99), Err(FatalError::FileStoreVersionMismatch));
    assert_eq!(starting_point(metadata, true, 5, 100), Err(FatalError::FileStoreChainIdMismatch));
    assert_eq!(starting_point(metadata, true, 5, 99), Err(FatalError::FileStoreVersionMismatch));
    assert_eq!(starting_point(None, true, 4, 0), Ok(0));
    assert_eq!(starting_point(None, false, 4, 0), Err(FatalError::CacheNotEmpty));
}

#[test]
fn batch_is_copied_and_recorded() {
    let session = streaming();
    let session = copy_chunk(session, &[100, 101, 102]);
    let session = copy_chunk(session, &[103, 104]);
    let (session, action) = step(session, frame(status_frame(1, 100, Some(104))));
    assert_eq!(
        action,
        StreamAction::CacheLatestVersion { num_of_transactions: 5, version: 105 }
    );
    let (session, action) = step(session, StreamEvent::LatestVersionCached { succeeded: true });
    assert_eq!(action, StreamAction::Receive);
    // The next batch is counted from zero.
    let session = copy_chunk(session, &[105]);
    let (_, action) = step(session, frame(status_frame(1, 105, Some(105))));
    assert_eq!(
        action,
        StreamAction::CacheLatestVersion { num_of_transactions: 1, version: 106 }
    );
}

#[test]
fn chunks_may_be_out_of_order() {
    let session = copy_chunk(copy_chunk(streaming(), &[102, 103, 104]), &[100, 101]);
    let (_, action) = step(session, frame(status_frame(1, 100, Some(104))));
    assert_eq!(
        action,
        StreamAction::CacheLatestVersion { num_of_transactions: 5, version: 105 }
    );
}

/// Follows a stream to its end: the latest versions, the written transactions in the order of their
/// versions, and the last action.
fn follow(frames: Vec<RawDatastreamResponse>) -> (Vec<(u64, u64)>, Vec<u64>, StreamAction) {
    let mut frames = frames.into_iter();
    let mut session = streaming();
    let mut action = StreamAction::Receive;
    let mut latest_versions = vec![];
    let mut written = vec![];
    loop {
        let event = match action {
            StreamAction::Receive => StreamEvent::Received(match frames.next() {
                Some(frame) => StreamItem::Frame(frame),
                None => StreamItem::Finished,
            }),
            StreamAction::CacheTransaction(update) => {
                written.push(update.version);
                StreamEvent::TransactionCached(Ok(()))
            },
            StreamAction::CacheLatestVersion { num_of_transactions, version } => {
                latest_versions.push((num_of_transactions, version));
                StreamEvent::LatestVersionCached { succeeded: true }
            },
            last => {
                written.sort();
                return (latest_versions, written, last);
            },
        };
        (session, action) = step(session, event);
    }
}

#[test]
fn chunk_order_of_a_stream_does_not_matter() {
    let one = vec![
        data_frame(&[100, 101]),
        data_frame(&[102]),
        data_frame(&[103, 104, 105]),
        status_frame(1, 100, Some(105)),
        data_frame(&[106]),
        data_frame(&[107]),
        status_frame(1, 106, Some(107)),
    ];
    let other = vec![
        data_frame(&[103, 104, 105]),
        data_frame(&[100, 101]),
        data_frame(&[102]),
        status_frame(1, 100, Some(105)),
        data_frame(&[107]),
        data_frame(&[106]),
        status_frame(1, 106, Some(107)),
    ];
    let expected = (
        vec![(6, 106), (2, 108)],
        vec![100, 101, 102, 103, 104, 105, 106, 107],
        StreamAction::Stop(StopReason::StreamFinished),
    );
    assert_eq!(follow(one), expected);
    assert_eq!(follow(other), expected);
    // A wrong end of a batch comes to the same, too.
    let wrong = |first: &[u64], second: &[u64]| {
        follow(vec![
            data_frame(first),
            data_frame(second),
            status_frame(1, 100, Some(103)),
            data_frame(&[104]),
        ])
    };
    let expected =
        (vec![], vec![100, 101, 102], StreamAction::Stop(StopReason::WrongBatchEnd));
    assert_eq!(wrong(&[100, 101], &[102]), expected);
    assert_eq!(wrong(&[102], &[100, 101]), expected);
}

#[test]
fn wrong_batch_end_stops_the_session() {
    let session = copy_chunk(streaming(), &[100, 101]);
    let (session, action) = step(session, frame(status_frame(1, 100, Some(102))));
    assert_eq!(action, StreamAction::Stop(StopReason::WrongBatchEnd));
    assert!(ended(&session));
}

#[test]
fn second_init_stops_the_session() {
    let (session, action) = step(streaming(), frame(status_frame(0, 100, None)));
    assert_eq!(action, StreamAction::Stop(StopReason::InitReceivedTwice));
    assert!(ended(&session));
}

#[test]
fn stream_end_and_stream_error_stop_the_session() {
    let (_, action) = step(streaming(), StreamEvent::Received(StreamItem::Finished));
    assert_eq!(action, StreamAction::Stop(StopReason::StreamFinished));
    let (_, action) = step(streaming(), StreamEvent::Received(StreamItem::Failed));
    assert_eq!(action, StreamAction::Stop(StopReason::StreamFailed));
}

#[test]
fn failed_write_stops_the_session() {
    let (session, action) = step(streaming(), frame(data_frame(&[100, 101])));
    assert_eq!(action, StreamAction::CacheTransaction(update(100)));
    let (session, action) = step(session, StreamEvent::TransactionCached(Ok(())));
    assert_eq!(action, StreamAction::CacheTransaction(update(101)));
    let (session, action) =
        step(session, StreamEvent::TransactionCached(Err("out of memory".to_string())));
    assert_eq!(
        action,
        StreamAction::Stop(StopReason::TransactionNotCached(
            "Update cache with version failed: out of memory".to_string()
        ))
    );
    assert!(ended(&session));
}

#[test]
fn session_crashes_before_the_first_frame() {
    for item in [StreamItem::Failed, StreamItem::Finished] {
        let (session, action) = step(StreamSession::new(None), StreamEvent::Received(item));
        assert_eq!(action, StreamAction::Crash(FatalError::NoResponse));
        assert!(ended(&session));
    }
    let (_, action) = step(StreamSession::new(None), frame(data_frame(&[1])));
    assert_eq!(action, StreamAction::Crash(FatalError::FirstFrameNotSignal));
}

#[test]
fn session_crashes_on_other_chains() {
    let session = StreamSession::new(None);
    let (session, _) = step(session, frame(status_frame(0, 0, None)));
    let (session, _) = step(session, StreamEvent::CacheSetUp { was_empty: true });
    let (_, action) = step(session, StreamEvent::ChainIdVerified { agrees: false });
    assert_eq!(action, StreamAction::Crash(FatalError::CacheChainIdMismatch));

    let mut other = data_frame(&[100]);
    other.chain_id = CHAIN + 1;
    let (_, action) = step(streaming(), frame(other));
    assert_eq!(action, StreamAction::Crash(FatalError::StreamChainIdMismatch));
}

#[test]
fn session_without_metadata_needs_an_empty_cache() {
    let session = StreamSession::new(None);
    let (session, _) = step(session, frame(status_frame(0, 0, None)));
    let (session, _) = step(session, StreamEvent::CacheSetUp { was_empty: false });
    let (_, action) = step(session, StreamEvent::ChainIdVerified { agrees: true });
    assert_eq!(action, StreamAction::Crash(FatalError::CacheNotEmpty));

    let session = StreamSession::new(None);
    let (session, _) = step(session, frame(status_frame(0, 0, None)));
    let (session, _) = step(session, StreamEvent::CacheSetUp { was_empty: true });
    let (session, action) = step(session, StreamEvent::ChainIdVerified { agrees: true });
    assert_eq!(action, StreamAction::Receive);
    let session = copy_chunk(session, &[0, 1]);
    let (_, action) = step(session, frame(status_frame(1, 0, Some(1))));
    assert_eq!(
        action,
        StreamAction::CacheLatestVersion { num_of_transactions: 2, version: 2 }
    );
}

#[test]
fn session_crashes_when_the_latest_version_is_not_cached() {
    let session = copy_chunk(streaming(), &[100]);
    let (session, _) = step(session, frame(status_frame(1, 100, Some(100))));
    let (session, action) = step(session, StreamEvent::LatestVersionCached { succeeded: false });
    assert_eq!(action, StreamAction::Crash(FatalError::LatestVersionNotCached));
    assert!(ended(&session));
}

#[test]
fn session_crashes_when_versions_run_out() {
    let (_, action) = step(streaming(), frame(status_frame(1, 100, Some(u64::MAX))));
    assert_eq!(action, StreamAction::Crash(FatalError::VersionOverflow));

    let metadata = FileStoreMetadata { chain_id: CHAIN as u64, version: u64::MAX };
    let session = StreamSession::new(Some(metadata));
    let (session, _) = step(session, frame(status_frame(0, u64::MAX, None)));
    let (session, _) = step(session, StreamEvent::CacheSetUp { was_empty: false });
    let (session, _) = step(session, StreamEvent::ChainIdVerified { agrees: true });
    let (session, _) = step(session, frame(data_frame(&[u64::MAX])));
    let (_, action) = step(session, StreamEvent::TransactionCached(Ok(())));
    assert_eq!(action, StreamAction::Crash(FatalError::VersionOverflow));
}

#[test]
fn fatal_errors_have_texts() {
    assert_eq!(
        FatalError::NoResponse.message(),
        "[Indexer Cache] Streaming error: no response."
    );
    assert_eq!(FatalError::MissingResponse.message(), "Response type not exists.");
    assert_eq!(
        FatalError::StreamChainIdMismatch.message(),
        "[Indexer Cache] Chain id mismatch happens during data streaming."
    );
    assert_eq!(FatalError::InvalidStatusType.message(), "[Indexer Cache] Invalid status type.");
}

fn config(redis_address: &str, fullnode_grpc_address: Option<&str>) -> IndexerGrpcConfig {
    IndexerGrpcConfig {
        fullnode_grpc_address: fullnode_grpc_address.map(|address| address.to_string()),
        redis_address: redis_address.to_string(),
        file_store_bucket_name: "bucket".to_string(),
    }
}

#[test]
fn worker_is_set_up_from_its_config() {
    let worker = Worker::try_new(config("127.0.0.1:6380/3", Some("localhost:50051"))).ok().unwrap();
    assert_eq!(worker.fullnode_grpc_address(), "http://localhost:50051");
    assert_eq!(worker.file_store_bucket_name, "bucket");
    let info = worker.redis_client().get_connection_info();
    assert_eq!(info.addr, redis::ConnectionAddr::Tcp("127.0.0.1".to_string(), 6380));
    assert_eq!(info.redis.db, 3);

    let worker = Worker::new(config("cache.example", Some("[::1]:1")));
    let info = worker.redis_client().get_connection_info();
    assert_eq!(info.addr, redis::ConnectionAddr::Tcp("cache.example".to_string(), 6379));
}

#[test]
fn worker_rejects_bad_configs() {
    assert_eq!(
        Worker::try_new(config("", Some("localhost:50051"))).err(),
        Some(ConfigError::InvalidRedisAddress)
    );
    assert_eq!(
        Worker::try_new(config("127.0.0.1:6379/notadb", Some("localhost:50051"))).err(),
        Some(ConfigError::InvalidRedisAddress)
    );
    assert_eq!(Worker::try_new(config("", None)).err(), Some(ConfigError::InvalidRedisAddress));
    assert_eq!(
        Worker::try_new(config("127.0.0.1:6379", None)).err(),
        Some(ConfigError::MissingFullnodeAddress)
    );
}

fn advance(worker: &Worker, run: WorkerRun, event: RunEvent) -> (WorkerRun, RunAction) {
    assert!(run.expects(&event));
    worker.run(run, event)
}

/// Goes through a round up to the first frame.
fn open_round(
    worker: &Worker,
    run: WorkerRun,
    metadata: Option<FileStoreMetadata>,
) -> (WorkerRun, StreamPlan) {
    let (run, action) = advance(worker, run, RunEvent::Connected);
    assert_eq!(action, RunAction::ReadMetadata { file_store_bucket_name: "bucket".to_string() });
    let (run, action) = advance(worker, run, RunEvent::MetadataRead(metadata));
    let plan = match action {
        RunAction::OpenStream(plan) => plan,
        _ => panic!("no stream"),
    };
    let (run, action) = advance(worker, run, RunEvent::StreamOpened);
    assert_eq!(action, RunAction::Stream(StreamAction::Receive));
    (run, plan)
}

#[test]
fn worker_requests_the_version_of_the_file_store() {
    assert_eq!(
        StreamPlan::from_metadata(Some(FileStoreMetadata { chain_id: 4, version: 100 })),
        StreamPlan { starting_version: 100, exit_after_secs: None }
    );
    assert_eq!(
        StreamPlan::from_metadata(None),
        StreamPlan { starting_version: 0, exit_after_secs: Some(60) }
    );
}

#[test]
fn worker_connects_again_when_the_stream_is_lost() {
    let worker = Worker::new(config("127.0.0.1:6379", Some("localhost:50051")));
    let (run, action) = worker.start();
    let connect = |lost| RunAction::Connect {
        fullnode_grpc_address: "http://localhost:50051".to_string(),
        lost,
    };
    assert_eq!(action, connect(None));
    let metadata = |version| Some(FileStoreMetadata { chain_id: CHAIN as u64, version });
    let (run, plan) = open_round(&worker, run, metadata(100));
    assert_eq!(plan, StreamPlan { starting_version: 100, exit_after_secs: None });
    let (run, action) = advance(&worker, run, RunEvent::Streamed(frame(status_frame(0, 100, None))));
    assert_eq!(action, RunAction::Stream(StreamAction::SetUpCache));
    let set_up = StreamEvent::CacheSetUp { was_empty: false };
    let (run, _) = advance(&worker, run, RunEvent::Streamed(set_up));
    let agreed = StreamEvent::ChainIdVerified { agrees: true };
    let (run, _) = advance(&worker, run, RunEvent::Streamed(agreed));
    let (run, _) = advance(&worker, run, RunEvent::Streamed(frame(data_frame(&[100]))));
    let cached = StreamEvent::TransactionCached(Ok(()));
    let (run, _) = advance(&worker, run, RunEvent::Streamed(cached));
    let finished = StreamEvent::Received(StreamItem::Finished);
    let (run, action) = advance(&worker, run, RunEvent::Streamed(finished));
    assert_eq!(action, connect(Some(StopReason::StreamFinished)));
    // The next round goes by the file store, not by what the stream had reached.
    let (run, plan) = open_round(&worker, run, metadata(70));
    assert_eq!(plan, StreamPlan { starting_version: 70, exit_after_secs: None });
    let failed = StreamEvent::Received(StreamItem::Failed);
    let (run, action) = advance(&worker, run, RunEvent::Streamed(failed));
    assert_eq!(action, RunAction::Crash(FatalError::NoResponse));
    assert!(!run.expects(&RunEvent::Connected));
}

#[test]
fn worker_without_metadata_starts_from_zero() {
    let worker = Worker::new(config("127.0.0.1:6379", Some("localhost:50051")));
    let (run, _) = worker.start();
    assert!(!run.expects(&RunEvent::StreamOpened));
    let (_, plan) = open_round(&worker, run, None);
    assert_eq!(plan, StreamPlan { starting_version: 0, exit_after_secs: Some(60) });
}
