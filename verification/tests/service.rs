use aptos_node_services::indexer::config::{ConfigError, IndexerGrpcConfig};
use aptos_node_services::indexer::datastream::{
    DatastreamResponse, RawDatastreamResponse, TransactionOutput, TransactionsOutput,
};
use aptos_node_services::indexer::service::{
    build_protobuf_encoded_transaction_wrappers, data_fetch, data_fetch_from_file_store,
    raw_datastream_response_builder, CacheBatchGetStatus, DataFetch, DatastreamServer,
    DatastreamSession, Room, SendOutcome, ServeAction, ServeEnd, ServeEvent, TransactionsDataStatus,
    MAX_RESPONSE_CHANNEL_SIZE,
};

fn strings(texts: &[&str]) -> Vec<String> {
    texts.iter().map(|text| text.to_string()).collect()
}

fn response(texts: &[&str], start: u64, chain_id: u32) -> RawDatastreamResponse {
    RawDatastreamResponse {
        response: Some(DatastreamResponse::Data(TransactionsOutput {
            transactions: texts
                .iter()
                .enumerate()
                .map(|(i, text)| TransactionOutput {
                    encoded_proto_data: text.to_string(),
                    version: start + i as u64,
                    timestamp: None,
                })
                .collect(),
        })),
        chain_id,
    }
}

fn ready(texts: &[&str]) -> ServeEvent {
    ServeEvent::CacheAnswered(Ok(CacheBatchGetStatus::Ready(strings(texts))))
}

fn serve(session: DatastreamSession, event: ServeEvent) -> (DatastreamSession, ServeAction) {
    assert!(session.expects(&event));
    session.raw_datastream(event)
}

fn room(room: Room) -> ServeEvent {
    ServeEvent::RoomChecked(room)
}

/// Opens a session whose channel has room, so that it asks the cache.
fn fetching(starting_version: u64, chain_id: u64) -> DatastreamSession {
    let (session, action) = DatastreamSession::new(starting_version, chain_id);
    assert_eq!(action, ServeAction::CheckRoom);
    let (session, action) = serve(session, room(Room::Free));
    assert_eq!(action, ServeAction::FetchFromCache { starting_version });
    session
}

#[test]
fn versions_are_consecutive() {
    assert_eq!(
        build_protobuf_encoded_transaction_wrappers(strings(&["a", "b", "c"]), 10),
        vec![("a".to_string(), 10), ("b".to_string(), 11), ("c".to_string(), 12)]
    );
    assert_eq!(
        build_protobuf_encoded_transaction_wrappers(strings(&["z"]), u64::MAX),
        vec![("z".to_string(), u64::MAX)]
    );
    assert!(build_protobuf_encoded_transaction_wrappers(vec![], 10).is_empty());
}

#[test]
fn responses_are_built() {
    let data = vec![("a".to_string(), 10), ("b".to_string(), 99)];
    let built = raw_datastream_response_builder(data, 7);
    assert_eq!(built.chain_id, 7);
    match built.response {
        Some(DatastreamResponse::Data(data)) => {
            assert_eq!(data.transactions.len(), 2);
            assert_eq!(data.transactions[0].encoded_proto_data, "a");
            assert_eq!(data.transactions[0].version, 10);
            assert_eq!(data.transactions[0].timestamp, None);
            assert_eq!(data.transactions[1].version, 99);
        },
        _ => panic!("no data"),
    }
}

#[test]
fn cache_answers_are_taken_in() {
    assert_eq!(
        data_fetch(5, Ok(CacheBatchGetStatus::NotReady)),
        DataFetch::Done(TransactionsDataStatus::AheadOfCache)
    );
    assert_eq!(
        data_fetch(5, Ok(CacheBatchGetStatus::Ready(strings(&["a", "b"])))),
        DataFetch::Done(TransactionsDataStatus::Success(vec![
            ("a".to_string(), 5),
            ("b".to_string(), 6)
        ]))
    );
    assert_eq!(
        data_fetch(5, Ok(CacheBatchGetStatus::EvictedFromCache)),
        DataFetch::AskFileStore
    );
    assert_eq!(data_fetch(5, Err("down".to_string())), DataFetch::Failed("down".to_string()));
    assert_eq!(
        data_fetch(u64::MAX, Ok(CacheBatchGetStatus::Ready(strings(&["a", "b"])))),
        DataFetch::VersionOverflow
    );
}

#[test]
fn file_store_answers_are_taken_in() {
    assert_eq!(
        data_fetch_from_file_store(5, Ok(strings(&["a"]))),
        DataFetch::Done(TransactionsDataStatus::Success(vec![("a".to_string(), 5)]))
    );
    assert_eq!(
        data_fetch_from_file_store(5, Err("[x] Transactions file not found: 5".to_string())),
        DataFetch::Done(TransactionsDataStatus::DataGap)
    );
    assert_eq!(
        data_fetch_from_file_store(5, Err("Transactions file not found".to_string())),
        DataFetch::Done(TransactionsDataStatus::DataGap)
    );
    assert_eq!(
        data_fetch_from_file_store(5, Err("transactions file not found".to_string())),
        DataFetch::Failed("transactions file not found".to_string())
    );
    assert_eq!(
        data_fetch_from_file_store(5, Err(String::new())),
        DataFetch::Failed(String::new())
    );
}

#[test]
fn batches_follow_each_other() {
    let session = fetching(10, 4);
    let (session, action) = serve(session, ready(&["a", "b"]));
    assert_eq!(action, ServeAction::Send(response(&["a", "b"], 10, 4)));
    let (session, action) = serve(session, ServeEvent::ResponseSent(SendOutcome::Sent));
    assert_eq!(action, ServeAction::CheckRoom);
    let (session, action) = serve(session, room(Room::Free));
    assert_eq!(action, ServeAction::FetchFromCache { starting_version: 12 });
    let (session, action) =
        serve(session, ServeEvent::CacheAnswered(Ok(CacheBatchGetStatus::EvictedFromCache)));
    assert_eq!(action, ServeAction::FetchFromFileStore { starting_version: 12 });
    let (session, action) = serve(session, ServeEvent::FileStoreAnswered(Ok(strings(&["c"]))));
    assert_eq!(action, ServeAction::Send(response(&["c"], 12, 4)));
    let (session, action) = serve(session, ServeEvent::ResponseSent(SendOutcome::Sent));
    assert_eq!(action, ServeAction::CheckRoom);
    let (_, action) = serve(session, room(Room::Free));
    assert_eq!(action, ServeAction::FetchFromCache { starting_version: 13 });
}

#[test]
fn channels_are_judged() {
    assert_eq!(Room::of_channel(false, 1), Room::Free);
    assert_eq!(Room::of_channel(false, MAX_RESPONSE_CHANNEL_SIZE), Room::Free);
    assert_eq!(Room::of_channel(false, 0), Room::Full);
    assert_eq!(Room::of_channel(true, 0), Room::Free);
    assert_eq!(Room::of_channel(true, 3), Room::Free);
}

#[test]
fn nothing_is_fetched_while_the_channel_is_full() {
    let (mut session, action) = DatastreamSession::new(10, 4);
    assert_eq!(action, ServeAction::CheckRoom);
    for _ in 0..5 {
        let (waiting, action) = serve(session, room(Room::Full));
        assert_eq!(action, ServeAction::Sleep { millis: 1000 });
        let (checking, action) = serve(waiting, ServeEvent::Slept);
        assert_eq!(action, ServeAction::CheckRoom);
        session = checking;
    }
    let (_, action) = serve(session, room(Room::Free));
    assert_eq!(action, ServeAction::FetchFromCache { starting_version: 10 });
}

#[test]
fn departed_client_is_noticed_by_a_response() {
    let (tx, rx) = tokio::sync::mpsc::channel(1);
    assert!(tx.try_send(response(&["z"], 9, 4)).is_ok());
    drop(rx);
    let (session, action) = DatastreamSession::new(10, 4);
    assert_eq!(action, ServeAction::CheckRoom);
    let (session, action) = serve(session, room(Room::of_channel(tx.is_closed(), tx.capacity())));
    assert_eq!(action, ServeAction::FetchFromCache { starting_version: 10 });
    // As long as there is nothing to send, the session goes on.
    let (session, action) =
        serve(session, ServeEvent::CacheAnswered(Ok(CacheBatchGetStatus::NotReady)));
    assert_eq!(action, ServeAction::Sleep { millis: 200 });
    let (session, _) = serve(session, ServeEvent::Slept);
    let (session, _) = serve(session, room(Room::of_channel(tx.is_closed(), tx.capacity())));
    let (session, action) = serve(session, ready(&["a"]));
    match action {
        ServeAction::Send(response) => assert!(tx.try_send(response).is_err()),
        _ => panic!("nothing to send"),
    }
    let (_, action) = serve(session, ServeEvent::ResponseSent(SendOutcome::Closed));
    assert_eq!(action, ServeAction::Stop(ServeEnd::ClientDisconnected));
}

#[test]
fn reading_makes_room() {
    let (tx, mut rx) = tokio::sync::mpsc::channel(MAX_RESPONSE_CHANNEL_SIZE);
    let (mut session, mut action) = DatastreamSession::new(7, 4);
    let mut fetches: u64 = 0;
    let mut read: u64 = 0;
    // The last steps are left for the session to take in the last read.
    for step in 0..2050 {
        let event = match action {
            ServeAction::CheckRoom => room(Room::of_channel(tx.is_closed(), tx.capacity())),
            ServeAction::FetchFromCache { .. } => {
                fetches += 1;
                ready(&["a", "b"])
            },
            ServeAction::Send(response) => {
                assert!(tx.try_send(response).is_ok());
                ServeEvent::ResponseSent(SendOutcome::Sent)
            },
            ServeAction::Sleep { .. } => ServeEvent::Slept,
            _ => panic!("unexpected action"),
        };
        (session, action) = serve(session, event);
        if step % 100 == 99 {
            let got: RawDatastreamResponse = rx.try_recv().ok().unwrap();
            assert_eq!(got, response(&["a", "b"], 7 + 2 * read, 4));
            read += 1;
        }
        assert!(fetches <= read + 40);
    }
    assert_eq!(read, 20);
    assert_eq!(fetches, 60);
    assert_eq!(session.current_version, 7 + 2 * 60);
}

#[test]
fn client_that_reads_nothing_fills_the_channel_once() {
    let (tx, mut rx) = tokio::sync::mpsc::channel(MAX_RESPONSE_CHANNEL_SIZE);
    let (mut session, mut action) = DatastreamSession::new(0, 4);
    let mut fetches = 0;
    for _ in 0..1000 {
        let event = match action {
            ServeAction::CheckRoom => room(Room::of_channel(tx.is_closed(), tx.capacity())),
            ServeAction::FetchFromCache { starting_version } => {
                assert_eq!(starting_version, fetches);
                fetches += 1;
                ready(&["a"])
            },
            ServeAction::Send(response) => {
                assert!(tx.try_send(response).is_ok());
                ServeEvent::ResponseSent(SendOutcome::Sent)
            },
            ServeAction::Sleep { .. } => ServeEvent::Slept,
            _ => panic!("unexpected action"),
        };
        (session, action) = serve(session, event);
    }
    assert_eq!(fetches, 40);
    assert_eq!(session.current_version, 40);
    for version in 0..40 {
        assert_eq!(rx.try_recv().ok(), Some(response(&["a"], version, 4)));
    }
    assert!(rx.try_recv().is_err());
}

#[test]
fn full_channel_is_backed_off() {
    let (session, _) = serve(fetching(10, 4), ready(&["a", "b"]));
    let (session, action) = serve(session, ServeEvent::ResponseSent(SendOutcome::Full));
    assert_eq!(action, ServeAction::Sleep { millis: 1000 });
    let (session, action) = serve(session, ServeEvent::Slept);
    assert_eq!(action, ServeAction::CheckRoom);
    let (_, action) = serve(session, room(Room::Free));
    assert_eq!(action, ServeAction::FetchFromCache { starting_version: 10 });
}

#[test]
fn waits_depend_on_the_reason() {
    let session = fetching(10, 4);
    let (_, action) =
        serve(session, ServeEvent::CacheAnswered(Ok(CacheBatchGetStatus::NotReady)));
    assert_eq!(action, ServeAction::Sleep { millis: 200 });
    let (_, action) = serve(session, ServeEvent::CacheAnswered(Err("down".to_string())));
    assert_eq!(action, ServeAction::Sleep { millis: 1000 });
    let (session, _) =
        serve(session, ServeEvent::CacheAnswered(Ok(CacheBatchGetStatus::EvictedFromCache)));
    let (session, action) = serve(session, ServeEvent::FileStoreAnswered(Err("down".to_string())));
    assert_eq!(action, ServeAction::Sleep { millis: 1000 });
    let (session, action) = serve(session, ServeEvent::Slept);
    assert_eq!(action, ServeAction::CheckRoom);
    let (_, action) = serve(session, room(Room::Free));
    assert_eq!(action, ServeAction::FetchFromCache { starting_version: 10 });
}

#[test]
fn gap_and_disconnection_end_a_session() {
    let session = fetching(10, 4);
    let (asking, _) =
        serve(session, ServeEvent::CacheAnswered(Ok(CacheBatchGetStatus::EvictedFromCache)));
    let missing = "Transactions file not found".to_string();
    let (ended, action) = serve(asking, ServeEvent::FileStoreAnswered(Err(missing)));
    assert_eq!(action, ServeAction::Stop(ServeEnd::DataGap));
    assert!(!ended.expects(&ServeEvent::Slept));

    let (sending, _) = serve(session, ready(&["a"]));
    let (ended, action) = serve(sending, ServeEvent::ResponseSent(SendOutcome::Closed));
    assert_eq!(action, ServeAction::Stop(ServeEnd::ClientDisconnected));
    assert!(!ended.expects(&ServeEvent::Slept));
}

#[test]
fn last_version_ends_a_session() {
    let session = fetching(u64::MAX, 4);
    let (_, action) = serve(session, ready(&["a", "b"]));
    assert_eq!(action, ServeAction::Stop(ServeEnd::VersionOverflow));
    let (session, action) = serve(session, ready(&["a"]));
    assert_eq!(action, ServeAction::Send(response(&["a"], u64::MAX, 4)));
    let (_, action) = serve(session, ServeEvent::ResponseSent(SendOutcome::Sent));
    assert_eq!(action, ServeAction::Stop(ServeEnd::VersionOverflow));
}

#[test]
fn chain_id_is_cut_down() {
    let session = fetching(0, 0x5_0000_0003);
    assert_eq!(session.chain_id, 3);
    let (_, action) = serve(session, ready(&["a"]));
    assert_eq!(action, ServeAction::Send(response(&["a"], 0, 3)));
}

#[test]
fn events_must_answer_the_work() {
    let session = fetching(0, 1);
    assert!(!session.expects(&ServeEvent::Slept));
    assert!(!session.expects(&room(Room::Free)));
    assert!(!session.expects(&ServeEvent::ResponseSent(SendOutcome::Sent)));
    assert!(!session.expects(&ServeEvent::FileStoreAnswered(Ok(vec![]))));
}

fn server_config(redis_address: &str) -> IndexerGrpcConfig {
    IndexerGrpcConfig {
        fullnode_grpc_address: None,
        redis_address: redis_address.to_string(),
        file_store_bucket_name: "bucket".to_string(),
    }
}

#[test]
fn server_is_set_up_from_its_config() {
    let server = DatastreamServer::try_new(server_config("10.0.0.1:7000")).ok().unwrap();
    assert_eq!(server.server_config, server_config("10.0.0.1:7000"));
    let info = server.redis_client.get_connection_info();
    assert_eq!(info.addr, redis::ConnectionAddr::Tcp("10.0.0.1".to_string(), 7000));
    assert_eq!(
        DatastreamServer::try_new(server_config("host:notaport")).err(),
        Some(ConfigError::InvalidRedisAddress)
    );
    let server = DatastreamServer::new(server_config("user:secret@10.0.0.1"));
    let info = server.redis_client.get_connection_info();
    assert_eq!(info.redis.username, Some("user".to_string()));
    assert_eq!(MAX_RESPONSE_CHANNEL_SIZE, 40);
}
