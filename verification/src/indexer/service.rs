//! The data service: it streams transactions to a client, from the cache or, where the cache has
//! dropped them, from the file store.
//!
//! A [`DatastreamSession`] serves one request. It is told what the last piece of outside work came
//! to and answers with the next one.

use crate::indexer::config::{ConfigError, IndexerGrpcConfig};
use crate::indexer::datastream::{
    DatastreamResponse, DatastreamResponseModel, RawDatastreamModel, RawDatastreamResponse,
    TransactionOutput, TransactionsOutput,
};
use std::sync::Arc;
use vstd::prelude::*;

verus! {

/// How long to wait for the cache to catch up with a request.
pub const AHEAD_OF_CACHE_RETRY_SLEEP_DURATION_MS: u64 = 200;

/// How long to wait after an error of the cache or of the file store.
pub const TRANSIENT_DATA_ERROR_RETRY_SLEEP_DURATION_MS: u64 = 1000;

/// How long to wait for room in the response channel. No more data is fetched from the cache and
/// from the file store until there is some.
pub const RESPONSE_CHANNEL_FULL_BACKOFF_DURATION_MS: u64 = 1000;

/// How many responses can be buffered in the response channel. While it is full, no more data is
/// fetched from the cache and from the file store.
pub const MAX_RESPONSE_CHANNEL_SIZE: usize = 40;

/// An encoded transaction and its version.
pub type EncodedTransactionWithVersion = (String, u64);

/// The server that handles raw datastream requests from cache and file store.
pub struct DatastreamServer {
    /// The client of the redis server that holds the cache.
    pub redis_client: Arc<redis::Client>,
    /// The configuration of the server.
    pub server_config: IndexerGrpcConfig,
}

impl DatastreamServer {
    /// Sets up a server whose redis address is valid.
    pub fn new(config: IndexerGrpcConfig) -> (result: DatastreamServer)
        requires
            config.redis_client() is Some,
        ensures
            Some(*result.redis_client) == config.redis_client(),
            result.server_config == config,
    {
        match config.open_redis_client() {
            Ok(client) => DatastreamServer {
                redis_client: Arc::new(client),
                server_config: config,
            },
            Err(_) => vstd::pervasive::unreached(),
        }
    }

    /// Sets up a server, unless its redis address is invalid.
    pub fn try_new(config: IndexerGrpcConfig) -> (result: Result<DatastreamServer, ConfigError>)
        ensures
            match result {
                Ok(server) => Some(*server.redis_client) == config.redis_client()
                    && server.server_config == config,
                Err(error) => config.redis_client() is None && error
                    == ConfigError::InvalidRedisAddress,
            },
    {
        match config.open_redis_client() {
            Ok(_) => Ok(DatastreamServer::new(config)),
            Err(error) => Err(error),
        }
    }
}

/// `encoded_transactions` with the versions from `starting_version` on.
pub open spec fn with_versions(encoded_transactions: Seq<String>, starting_version: int) -> Seq<
    EncodedTransactionWithVersion,
> {
    Seq::new(
        encoded_transactions.len(),
        |i: int| (encoded_transactions[i], (starting_version + i) as u64),
    )
}

/// The versions from `starting_version` on suffice for `count` transactions.
pub open spec fn versions_suffice(starting_version: u64, count: nat) -> bool {
    starting_version + count <= u64::MAX + 1
}

/// Gives consecutive versions to encoded transactions.
pub fn build_protobuf_encoded_transaction_wrappers(
    encoded_transactions: Vec<String>,
    starting_version: u64,
) -> (result: Vec<EncodedTransactionWithVersion>)
    requires
        versions_suffice(starting_version, encoded_transactions@.len()),
    ensures
        result@ == with_versions(encoded_transactions@, starting_version as int),
{
    let ghost all = encoded_transactions@;
    let mut result: Vec<EncodedTransactionWithVersion> = Vec::new();
    for encoded in iter: encoded_transactions
        invariant
            iter.seq() == all,
            versions_suffice(starting_version, all.len()),
            result@ =~= with_versions(all, starting_version as int).take(iter.index() as int),
    {
        let index: u64 = result.len() as u64;
        result.push((encoded, starting_version + index));
    }
    result
}

/// A transaction as it is sent to a client.
pub open spec fn transaction_output_of(data: EncodedTransactionWithVersion) -> TransactionOutput {
    TransactionOutput { encoded_proto_data: data.0, version: data.1, timestamp: None }
}

/// The response that carries `data` to a client.
pub open spec fn response_of(
    data: Seq<EncodedTransactionWithVersion>,
    chain_id: u32,
) -> RawDatastreamModel {
    RawDatastreamModel {
        response: Some(
            DatastreamResponseModel::Data(
                data.map_values(
                    |one: EncodedTransactionWithVersion| transaction_output_of(one),
                ),
            ),
        ),
        chain_id,
    }
}

/// Builds the response for the raw datastream request. A partial batch is fine.
pub fn raw_datastream_response_builder(
    data: Vec<EncodedTransactionWithVersion>,
    chain_id: u32,
) -> (result: RawDatastreamResponse)
    ensures
        result@ == response_of(data@, chain_id),
{
    let ghost all = data@;
    let mut transactions: Vec<TransactionOutput> = Vec::new();
    for one in iter: data
        invariant
            iter.seq() == all,
            transactions@ =~= all.take(iter.index() as int).map_values(
                |one: EncodedTransactionWithVersion| transaction_output_of(one),
            ),
    {
        let (encoded, version) = one;
        transactions.push(
            TransactionOutput { encoded_proto_data: encoded, version, timestamp: None },
        );
    }
    assert(all.take(all.len() as int) =~= all);
    RawDatastreamResponse {
        response: Some(DatastreamResponse::Data(TransactionsOutput { transactions })),
        chain_id,
    }
}

/// What the cache answers to a request for the transactions from a version on.
#[derive(Debug, PartialEq, Eq)]
pub enum CacheBatchGetStatus {
    /// The encoded transactions.
    Ready(Vec<String>),
    /// The cache held the transactions once.
    EvictedFromCache,
    /// The cache does not hold the transactions yet.
    NotReady,
}

/// The status of the data fetching.
#[derive(Debug, PartialEq, Eq)]
pub enum TransactionsDataStatus {
    /// Data fetching is successful.
    Success(Vec<EncodedTransactionWithVersion>),
    /// Ahead of current head of cache.
    AheadOfCache,
    /// Fatal error when gap detected between cache and file store.
    DataGap,
}

/// Where the data fetching stands after an answer of the cache or of the file store.
#[derive(Debug, PartialEq, Eq)]
pub enum DataFetch {
    /// It is done.
    Done(TransactionsDataStatus),
    /// The file store has to be asked.
    AskFileStore,
    /// It failed with this error.
    Failed(String),
    /// There are more transactions than versions.
    VersionOverflow,
}

/// The mathematical content of a [`DataFetch`].
#[verifier::ext_equal]
pub enum DataFetchModel {
    /// The data.
    Success(Seq<EncodedTransactionWithVersion>),
    /// Ahead of current head of cache.
    AheadOfCache,
    /// A gap between cache and file store.
    DataGap,
    /// The file store has to be asked.
    AskFileStore,
    /// An error.
    Failed(String),
    /// There are more transactions than versions.
    VersionOverflow,
}

impl View for DataFetch {
    type V = DataFetchModel;

    open spec fn view(&self) -> DataFetchModel {
        match *self {
            DataFetch::Done(TransactionsDataStatus::Success(data)) => DataFetchModel::Success(
                data@,
            ),
            DataFetch::Done(TransactionsDataStatus::AheadOfCache) => DataFetchModel::AheadOfCache,
            DataFetch::Done(TransactionsDataStatus::DataGap) => DataFetchModel::DataGap,
            DataFetch::AskFileStore => DataFetchModel::AskFileStore,
            DataFetch::Failed(error) => DataFetchModel::Failed(error),
            DataFetch::VersionOverflow => DataFetchModel::VersionOverflow,
        }
    }
}

/// The outcome of having fetched `encoded_transactions` from `starting_version` on.
pub open spec fn fetched(
    encoded_transactions: Seq<String>,
    starting_version: u64,
) -> DataFetchModel {
    if versions_suffice(starting_version, encoded_transactions.len()) {
        DataFetchModel::Success(with_versions(encoded_transactions, starting_version as int))
    } else {
        DataFetchModel::VersionOverflow
    }
}

/// What an answer of the cache means for the data fetching.
pub open spec fn fetched_from_cache(
    starting_version: u64,
    answer: Result<CacheBatchGetStatus, String>,
) -> DataFetchModel {
    match answer {
        Ok(CacheBatchGetStatus::NotReady) => DataFetchModel::AheadOfCache,
        Ok(CacheBatchGetStatus::Ready(encoded_transactions)) => fetched(
            encoded_transactions@,
            starting_version,
        ),
        Ok(CacheBatchGetStatus::EvictedFromCache) => DataFetchModel::AskFileStore,
        Err(error) => DataFetchModel::Failed(error),
    }
}

/// `needle` is the part of `haystack` that starts at `index`.
pub open spec fn occurs_at(needle: Seq<char>, haystack: Seq<char>, index: int) -> bool {
    &&& 0 <= index
    &&& index + needle.len() <= haystack.len()
    &&& haystack.subrange(index, index + needle.len()) == needle
}

/// `needle` occurs in `haystack`.
pub open spec fn occurs_in(needle: Seq<char>, haystack: Seq<char>) -> bool {
    exists|index: int| #[trigger] occurs_at(needle, haystack, index)
}

/// Calls `str::contains` with a string as the pattern: it returns whether the pattern matches a
/// part of the string.
#[verifier::external_body]
fn str_contains(haystack: &str, needle: &str) -> (result: bool)
    ensures
        result == occurs_in(needle@, haystack@),
{
    haystack.contains(needle)
}

/// What the file store says of a file that it does not have.
pub open spec fn file_not_found_text() -> Seq<char> {
    "Transactions file not found"@
}

/// What an answer of the file store means for the data fetching.
pub open spec fn fetched_from_file_store(
    starting_version: u64,
    answer: Result<Vec<String>, String>,
) -> DataFetchModel {
    match answer {
        Ok(encoded_transactions) => fetched(encoded_transactions@, starting_version),
        Err(error) => if occurs_in(file_not_found_text(), error@) {
            DataFetchModel::DataGap
        } else {
            DataFetchModel::Failed(error)
        },
    }
}

fn data_fetched(encoded_transactions: Vec<String>, starting_version: u64) -> (result: DataFetch)
    ensures
        result@ == fetched(encoded_transactions@, starting_version),
{
    let count: u64 = encoded_transactions.len() as u64;
    if count > 0 && count - 1 > u64::MAX - starting_version {
        return DataFetch::VersionOverflow;
    }
    DataFetch::Done(
        TransactionsDataStatus::Success(
            build_protobuf_encoded_transaction_wrappers(encoded_transactions, starting_version),
        ),
    )
}

/// Takes in what the cache answered for the data from `starting_version` on.
pub fn data_fetch(
    starting_version: u64,
    batch_get_result: Result<CacheBatchGetStatus, String>,
) -> (result: DataFetch)
    ensures
        result@ == fetched_from_cache(starting_version, batch_get_result),
{
    match batch_get_result {
        // Data is not ready yet in the cache.
        Ok(CacheBatchGetStatus::NotReady) => DataFetch::Done(TransactionsDataStatus::AheadOfCache),
        Ok(CacheBatchGetStatus::Ready(encoded_transactions)) => data_fetched(
            encoded_transactions,
            starting_version,
        ),
        // Data is evicted from the cache. Fetch from file store.
        Ok(CacheBatchGetStatus::EvictedFromCache) => DataFetch::AskFileStore,
        Err(error) => DataFetch::Failed(error),
    }
}

/// Takes in what the file store answered for the data from `starting_version` on.
pub fn data_fetch_from_file_store(
    starting_version: u64,
    file_store_batch_get_result: Result<Vec<String>, String>,
) -> (result: DataFetch)
    ensures
        result@ == fetched_from_file_store(starting_version, file_store_batch_get_result),
{
    match file_store_batch_get_result {
        Ok(encoded_transactions) => data_fetched(encoded_transactions, starting_version),
        Err(error) => {
            if str_contains(error.as_str(), "Transactions file not found") {
                DataFetch::Done(TransactionsDataStatus::DataGap)
            } else {
                DataFetch::Failed(error)
            }
        },
    }
}

/// What became of a response that was put into the response channel.
#[derive(Clone, Copy, Debug, PartialEq, Eq, Structural)]
pub enum SendOutcome {
    /// The channel took it.
    Sent,
    /// The channel has no room for it.
    Full,
    /// The client is gone.
    Closed,
}

/// What a look at the response channel showed.
#[derive(Clone, Copy, Debug, PartialEq, Eq, Structural)]
pub enum Room {
    /// There is room for another response, or the client is gone, as the next response will show.
    Free,
    /// The channel holds as many responses as it can.
    Full,
}

impl Room {
    /// What a look at the channel shows, when the client is gone from it or it can take `capacity`
    /// more responses. Where the client is gone there is nothing to wait for.
    pub open spec fn of(is_closed: bool, capacity: nat) -> Room {
        if !is_closed && capacity == 0 {
            Room::Full
        } else {
            Room::Free
        }
    }

    /// Judges the channel by whether the client is gone and by how many more responses it can take.
    pub fn of_channel(is_closed: bool, capacity: usize) -> (result: Room)
        ensures
            result == Room::of(is_closed, capacity as nat),
    {
        if !is_closed && capacity == 0 {
            Room::Full
        } else {
            Room::Free
        }
    }
}

/// What a piece of outside work came to.
#[derive(Debug, PartialEq, Eq)]
pub enum ServeEvent {
    /// The channel was looked at.
    RoomChecked(Room),
    /// The cache was asked for data.
    CacheAnswered(Result<CacheBatchGetStatus, String>),
    /// The file store was asked for data.
    FileStoreAnswered(Result<Vec<String>, String>),
    /// A response was put into the channel.
    ResponseSent(SendOutcome),
    /// The wait is over.
    Slept,
}

/// Why a request is not served any longer.
#[derive(Clone, Copy, Debug, PartialEq, Eq, Structural)]
pub enum ServeEnd {
    /// There is a gap between cache and file store.
    DataGap,
    /// The client is gone.
    ClientDisconnected,
    /// There is no version left.
    VersionOverflow,
}

/// The next piece of outside work.
#[derive(Debug, PartialEq, Eq)]
pub enum ServeAction {
    /// Look whether the channel has room for a response.
    CheckRoom,
    /// Ask the cache for the data from this version on.
    FetchFromCache { starting_version: u64 },
    /// Ask the file store for the data from this version on.
    FetchFromFileStore { starting_version: u64 },
    /// Put a response into the channel.
    Send(RawDatastreamResponse),
    /// Wait.
    Sleep { millis: u64 },
    /// Serve the request no longer.
    Stop(ServeEnd),
}

/// The mathematical content of a [`ServeAction`].
#[verifier::ext_equal]
pub enum ServeActionModel {
    /// Look whether the channel has room for a response.
    CheckRoom,
    /// Ask the cache for the data from this version on.
    FetchFromCache { starting_version: u64 },
    /// Ask the file store for the data from this version on.
    FetchFromFileStore { starting_version: u64 },
    /// Put a response into the channel.
    Send(RawDatastreamModel),
    /// Wait.
    Sleep { millis: u64 },
    /// Serve the request no longer.
    Stop(ServeEnd),
}

impl View for ServeAction {
    type V = ServeActionModel;

    open spec fn view(&self) -> ServeActionModel {
        match *self {
            ServeAction::CheckRoom => ServeActionModel::CheckRoom,
            ServeAction::FetchFromCache { starting_version } => ServeActionModel::FetchFromCache {
                starting_version,
            },
            ServeAction::FetchFromFileStore { starting_version } => {
                ServeActionModel::FetchFromFileStore { starting_version }
            },
            ServeAction::Send(response) => ServeActionModel::Send(response@),
            ServeAction::Sleep { millis } => ServeActionModel::Sleep { millis },
            ServeAction::Stop(end) => ServeActionModel::Stop(end),
        }
    }
}

/// Where the service of a request stands.
#[derive(Clone, Copy, Debug, PartialEq, Eq, Structural)]
pub enum ServePhase {
    /// The channel is being looked at.
    CheckingRoom,
    /// The cache is being asked.
    FetchingFromCache,
    /// The file store is being asked.
    FetchingFromFileStore,
    /// A response with this many transactions is being sent.
    Sending { batch_size: u64 },
    /// A wait is under way.
    Sleeping,
    /// The request is not served any longer.
    Ended,
}

/// The service of one request.
#[derive(Clone, Copy, Debug, PartialEq, Eq, Structural)]
pub struct DatastreamSession {
    /// The chain that the responses are marked with.
    pub chain_id: u32,
    /// The first version that is still to be sent.
    pub current_version: u64,
    /// Where the service stands.
    pub phase: ServePhase,
}

impl DatastreamSession {
    /// A session in phase `phase`.
    pub open spec fn in_phase(self, phase: ServePhase) -> DatastreamSession {
        DatastreamSession { phase, ..self }
    }

    /// Whether `event` answers the outside work that the session waits for.
    pub open spec fn expects_event(self, event: ServeEvent) -> bool {
        match self.phase {
            ServePhase::CheckingRoom => event is RoomChecked,
            ServePhase::FetchingFromCache => event is CacheAnswered,
            ServePhase::FetchingFromFileStore => event is FileStoreAnswered,
            ServePhase::Sending { .. } => event is ResponseSent,
            ServePhase::Sleeping => event is Slept,
            ServePhase::Ended => false,
        }
    }

    /// The end of the service.
    pub open spec fn stop_step(self, end: ServeEnd) -> (DatastreamSession, ServeActionModel) {
        (self.in_phase(ServePhase::Ended), ServeActionModel::Stop(end))
    }

    /// A wait.
    pub open spec fn sleep_step(self, millis: u64) -> (DatastreamSession, ServeActionModel) {
        (self.in_phase(ServePhase::Sleeping), ServeActionModel::Sleep { millis })
    }

    /// Another look at the channel.
    pub open spec fn check_step(self) -> (DatastreamSession, ServeActionModel) {
        (self.in_phase(ServePhase::CheckingRoom), ServeActionModel::CheckRoom)
    }

    /// Another request to the cache.
    pub open spec fn fetch_step(self) -> (DatastreamSession, ServeActionModel) {
        (
            self.in_phase(ServePhase::FetchingFromCache),
            ServeActionModel::FetchFromCache { starting_version: self.current_version },
        )
    }

    /// What follows a look at the channel: data is fetched only when there is room for it.
    pub open spec fn room_step(self, room: Room) -> (DatastreamSession, ServeActionModel) {
        match room {
            Room::Free => self.fetch_step(),
            Room::Full => self.sleep_step(RESPONSE_CHANNEL_FULL_BACKOFF_DURATION_MS),
        }
    }

    /// What follows from the state of the data fetching.
    pub open spec fn fetched_step(self, fetch: DataFetchModel) -> (
        DatastreamSession,
        ServeActionModel,
    ) {
        match fetch {
            DataFetchModel::Success(data) => (
                self.in_phase(ServePhase::Sending { batch_size: data.len() as u64 }),
                ServeActionModel::Send(response_of(data, self.chain_id)),
            ),
            DataFetchModel::AheadOfCache => self.sleep_step(AHEAD_OF_CACHE_RETRY_SLEEP_DURATION_MS),
            DataFetchModel::DataGap => self.stop_step(ServeEnd::DataGap),
            DataFetchModel::AskFileStore => (
                self.in_phase(ServePhase::FetchingFromFileStore),
                ServeActionModel::FetchFromFileStore { starting_version: self.current_version },
            ),
            DataFetchModel::Failed(_) => self.sleep_step(
                TRANSIENT_DATA_ERROR_RETRY_SLEEP_DURATION_MS,
            ),
            DataFetchModel::VersionOverflow => self.stop_step(ServeEnd::VersionOverflow),
        }
    }

    /// What follows the sending of a response with `batch_size` transactions.
    pub open spec fn sent_step(self, batch_size: u64, outcome: SendOutcome) -> (
        DatastreamSession,
        ServeActionModel,
    ) {
        match outcome {
            SendOutcome::Sent => if self.current_version + batch_size > u64::MAX {
                self.stop_step(ServeEnd::VersionOverflow)
            } else {
                (DatastreamSession {
                    current_version: (self.current_version + batch_size) as u64,
                    ..self
                }).check_step()
            },
            SendOutcome::Full => self.sleep_step(RESPONSE_CHANNEL_FULL_BACKOFF_DURATION_MS),
            SendOutcome::Closed => self.stop_step(ServeEnd::ClientDisconnected),
        }
    }

    /// What follows an expected `event`: the next state and the next piece of outside work.
    pub open spec fn next(self, event: ServeEvent) -> (DatastreamSession, ServeActionModel) {
        match (self.phase, event) {
            (ServePhase::CheckingRoom, ServeEvent::RoomChecked(room)) => self.room_step(room),
            (ServePhase::FetchingFromCache, ServeEvent::CacheAnswered(answer)) => self.fetched_step(
                fetched_from_cache(self.current_version, answer),
            ),
            (ServePhase::FetchingFromFileStore, ServeEvent::FileStoreAnswered(answer)) => {
                self.fetched_step(fetched_from_file_store(self.current_version, answer))
            },
            (ServePhase::Sending { batch_size }, ServeEvent::ResponseSent(outcome)) => {
                self.sent_step(batch_size, outcome)
            },
            (ServePhase::Sleeping, ServeEvent::Slept) => self.check_step(),
            // No other event answers the outside work that is under way.
            _ => arbitrary(),
        }
    }

    /// Starts to serve a request for the transactions from `starting_version` on. The chain id of
    /// the cache is cut down to the width that responses have for it.
    pub fn new(starting_version: u64, chain_id: u64) -> (result: (DatastreamSession, ServeAction))
        ensures
            result.0.chain_id == chain_id % 0x1_0000_0000,
            result.0.current_version == starting_version,
            (result.0, result.1@) == result.0.check_step(),
    {
        assert((chain_id as u32) as u64 == chain_id % 0x1_0000_0000) by (bit_vector);
        (
            DatastreamSession {
                chain_id: chain_id as u32,
                current_version: starting_version,
                phase: ServePhase::CheckingRoom,
            },
            ServeAction::CheckRoom,
        )
    }

    /// Whether `event` answers the outside work that the session waits for.
    pub fn expects(&self, event: &ServeEvent) -> (result: bool)
        ensures
            result == self.expects_event(*event),
    {
        match (self.phase, event) {
            (ServePhase::CheckingRoom, ServeEvent::RoomChecked(_)) => true,
            (ServePhase::FetchingFromCache, ServeEvent::CacheAnswered(_)) => true,
            (ServePhase::FetchingFromFileStore, ServeEvent::FileStoreAnswered(_)) => true,
            (ServePhase::Sending { .. }, ServeEvent::ResponseSent(_)) => true,
            (ServePhase::Sleeping, ServeEvent::Slept) => true,
            _ => false,
        }
    }

    fn check_room(self) -> (result: (DatastreamSession, ServeAction))
        ensures
            (result.0, result.1@) == self.check_step(),
    {
        (DatastreamSession { phase: ServePhase::CheckingRoom, ..self }, ServeAction::CheckRoom)
    }

    fn fetch(self) -> (result: (DatastreamSession, ServeAction))
        ensures
            (result.0, result.1@) == self.fetch_step(),
    {
        (
            DatastreamSession { phase: ServePhase::FetchingFromCache, ..self },
            ServeAction::FetchFromCache { starting_version: self.current_version },
        )
    }

    fn sleep(self, millis: u64) -> (result: (DatastreamSession, ServeAction))
        ensures
            (result.0, result.1@) == self.sleep_step(millis),
    {
        (
            DatastreamSession { phase: ServePhase::Sleeping, ..self },
            ServeAction::Sleep { millis },
        )
    }

    fn stop(self, end: ServeEnd) -> (result: (DatastreamSession, ServeAction))
        ensures
            (result.0, result.1@) == self.stop_step(end),
    {
        (DatastreamSession { phase: ServePhase::Ended, ..self }, ServeAction::Stop(end))
    }

    /// Goes on from the state of the data fetching.
    fn after_fetch(self, fetch: DataFetch) -> (result: (DatastreamSession, ServeAction))
        ensures
            (result.0, result.1@) == self.fetched_step(fetch@),
    {
        match fetch {
            DataFetch::Done(TransactionsDataStatus::Success(data)) => {
                let batch_size: u64 = data.len() as u64;
                (
                    DatastreamSession { phase: ServePhase::Sending { batch_size }, ..self },
                    ServeAction::Send(raw_datastream_response_builder(data, self.chain_id)),
                )
            },
            DataFetch::Done(TransactionsDataStatus::AheadOfCache) => self.sleep(
                AHEAD_OF_CACHE_RETRY_SLEEP_DURATION_MS,
            ),
            // Do not crash the server when a gap is detected, since other clients may still be
            // able to get data.
            DataFetch::Done(TransactionsDataStatus::DataGap) => self.stop(ServeEnd::DataGap),
            DataFetch::AskFileStore => (
                DatastreamSession { phase: ServePhase::FetchingFromFileStore, ..self },
                ServeAction::FetchFromFileStore { starting_version: self.current_version },
            ),
            // Treat all file and cache related errors as transient and retry.
            DataFetch::Failed(_) => self.sleep(TRANSIENT_DATA_ERROR_RETRY_SLEEP_DURATION_MS),
            DataFetch::VersionOverflow => self.stop(ServeEnd::VersionOverflow),
        }
    }

    /// Takes in what the outside work came to, and decides on the next piece of it.
    pub fn raw_datastream(self, event: ServeEvent) -> (result: (DatastreamSession, ServeAction))
        requires
            self.expects_event(event),
        ensures
            (result.0, result.1@) == self.next(event),
    {
        match (self.phase, event) {
            (ServePhase::CheckingRoom, ServeEvent::RoomChecked(room)) => match room {
                Room::Free => self.fetch(),
                Room::Full => self.sleep(RESPONSE_CHANNEL_FULL_BACKOFF_DURATION_MS),
            },
            (ServePhase::FetchingFromCache, ServeEvent::CacheAnswered(answer)) => self.after_fetch(
                data_fetch(self.current_version, answer),
            ),
            (ServePhase::FetchingFromFileStore, ServeEvent::FileStoreAnswered(answer)) => {
                self.after_fetch(data_fetch_from_file_store(self.current_version, answer))
            },
            (ServePhase::Sending { batch_size }, ServeEvent::ResponseSent(outcome)) => {
                match outcome {
                    SendOutcome::Sent => match self.current_version.checked_add(batch_size) {
                        Some(current_version) => {
                            let session: DatastreamSession = DatastreamSession {
                                current_version,
                                ..self
                            };
                            session.check_room()
                        },
                        None => self.stop(ServeEnd::VersionOverflow),
                    },
                    SendOutcome::Full => self.sleep(RESPONSE_CHANNEL_FULL_BACKOFF_DURATION_MS),
                    SendOutcome::Closed => self.stop(ServeEnd::ClientDisconnected),
                }
            },
            (ServePhase::Sleeping, ServeEvent::Slept) => self.check_room(),
            _ => vstd::pervasive::unreached(),
        }
    }
}

} // verus!
