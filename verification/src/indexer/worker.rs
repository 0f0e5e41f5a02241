//! The cache worker: it follows a fullnode's transaction stream and copies it into the cache.
//!
//! The worker alternates between outside work (receiving a frame, writing to the cache) and
//! decisions. The decisions are here: a [`StreamSession`] is told what the last piece of outside
//! work came to and answers with the next one.

use crate::indexer::config::{ConfigError, IndexerGrpcConfig};
use crate::indexer::datastream::{
    DatastreamResponse, RawDatastreamResponse, StatusType, TransactionOutput,
};
use std::collections::VecDeque;
use vstd::prelude::*;

verus! {

/// The number that identifies a chain.
pub type ChainID = u32;

/// The version at which a stream starts.
pub type StartingVersion = u64;

/// How long the worker lives on when the file store has no metadata.
pub const WORKER_RESTART_DELAY_IF_METADATA_NOT_FOUND_IN_SECS: u64 = 60;

/// What a frame of the stream amounts to.
///
/// One stream may contain multiple batches, and one batch may contain multiple data chunks.
#[derive(Clone, Copy, Debug, PartialEq, Eq, Structural)]
pub enum GrpcDataStatus {
    /// A chunk of transactions. The chunks of a batch may be out of order.
    ChunkDataOk {
        /// The version of the first transaction of the chunk.
        start_version: u64,
        /// The number of transactions in the chunk.
        num_of_transactions: u64,
    },
    /// The stream starts at this version. A stream has one such signal.
    StreamInit(u64),
    /// A batch is complete.
    BatchEnd {
        /// The first version of the batch.
        start_version: u64,
        /// The number of transactions in the batch.
        num_of_transactions: u64,
    },
}

/// Why the worker must not go on.
#[derive(Clone, Copy, Debug, PartialEq, Eq, Structural)]
pub enum FatalError {
    /// The stream ended or failed before its first frame.
    NoResponse,
    /// A frame has no body.
    MissingResponse,
    /// The first frame is a signal other than the start of the stream.
    FirstFrameNotInit,
    /// The first frame is not a signal.
    FirstFrameNotSignal,
    /// The cache belongs to another chain than the fullnode.
    CacheChainIdMismatch,
    /// The cache holds data although the file store has no metadata.
    CacheNotEmpty,
    /// The file store and the fullnode disagree on the version to start from.
    FileStoreVersionMismatch,
    /// The file store belongs to another chain than the fullnode.
    FileStoreChainIdMismatch,
    /// A frame belongs to another chain than the first frame.
    StreamChainIdMismatch,
    /// A signal has a number that stands for no status type.
    InvalidStatusType,
    /// The signal that ends a batch has no end version.
    MissingEndVersion,
    /// The bounds of a batch do not enclose a countable number of versions.
    InvalidBatchBounds,
    /// A chunk has no transactions.
    EmptyChunk,
    /// A version does not fit the range of versions.
    VersionOverflow,
    /// The cache did not take the latest version.
    LatestVersionNotCached,
}

impl FatalError {
    /// The text that a worker ends with.
    pub open spec fn text(self) -> Seq<char> {
        match self {
            FatalError::NoResponse => "[Indexer Cache] Streaming error: no response."@,
            FatalError::MissingResponse => "Response type not exists."@,
            FatalError::FirstFrameNotInit => {
                "[Indexer Cache] Streaming error: first frame is not INIT signal."@
            },
            FatalError::FirstFrameNotSignal => {
                "[Indexer Cache] Streaming error: first frame is not siganl frame."@
            },
            FatalError::CacheChainIdMismatch => {
                "[Indexer Cache] Chain id mismatch between cache and fullnode."@
            },
            FatalError::CacheNotEmpty => {
                "[Indexer Cache] Cache is not empty but file store metadata is not present."@
            },
            FatalError::FileStoreVersionMismatch => {
                "[Indexer Cache] File store version mismatch with fullnode."@
            },
            FatalError::FileStoreChainIdMismatch => {
                "[Indexer Cache] Chain id mismatch between file store and fullnode."@
            },
            FatalError::StreamChainIdMismatch => {
                "[Indexer Cache] Chain id mismatch happens during data streaming."@
            },
            FatalError::InvalidStatusType => "[Indexer Cache] Invalid status type."@,
            FatalError::MissingEndVersion => {
                "RawDatastreamResponse status end_version is None"@
            },
            FatalError::InvalidBatchBounds => "[Indexer Cache] Invalid bounds of a batch."@,
            FatalError::EmptyChunk => "[Indexer Cache] Data chunk without transactions."@,
            FatalError::VersionOverflow => "[Indexer Cache] Version out of range."@,
            FatalError::LatestVersionNotCached => {
                "[Indexer Cache] Update of the latest version in cache failed."@
            },
        }
    }

    /// Returns the text that a worker ends with.
    pub fn message(&self) -> (result: &'static str)
        ensures
            result@ == self.text(),
    {
        match self {
            FatalError::NoResponse => "[Indexer Cache] Streaming error: no response.",
            FatalError::MissingResponse => "Response type not exists.",
            FatalError::FirstFrameNotInit => {
                "[Indexer Cache] Streaming error: first frame is not INIT signal."
            },
            FatalError::FirstFrameNotSignal => {
                "[Indexer Cache] Streaming error: first frame is not siganl frame."
            },
            FatalError::CacheChainIdMismatch => {
                "[Indexer Cache] Chain id mismatch between cache and fullnode."
            },
            FatalError::CacheNotEmpty => {
                "[Indexer Cache] Cache is not empty but file store metadata is not present."
            },
            FatalError::FileStoreVersionMismatch => {
                "[Indexer Cache] File store version mismatch with fullnode."
            },
            FatalError::FileStoreChainIdMismatch => {
                "[Indexer Cache] Chain id mismatch between file store and fullnode."
            },
            FatalError::StreamChainIdMismatch => {
                "[Indexer Cache] Chain id mismatch happens during data streaming."
            },
            FatalError::InvalidStatusType => "[Indexer Cache] Invalid status type.",
            FatalError::MissingEndVersion => "RawDatastreamResponse status end_version is None",
            FatalError::InvalidBatchBounds => "[Indexer Cache] Invalid bounds of a batch.",
            FatalError::EmptyChunk => "[Indexer Cache] Data chunk without transactions.",
            FatalError::VersionOverflow => "[Indexer Cache] Version out of range.",
            FatalError::LatestVersionNotCached => {
                "[Indexer Cache] Update of the latest version in cache failed."
            },
        }
    }
}

/// One transaction as it is written to the cache.
#[derive(Debug, PartialEq, Eq)]
pub struct CacheUpdate {
    /// The version of the transaction.
    pub version: u64,
    /// The transaction, encoded.
    pub encoded_proto_data: String,
    /// The time of the transaction in seconds, zero for the genesis transaction.
    pub timestamp_in_seconds: u64,
}

/// The two's complement reading of `seconds` as an unsigned number.
pub open spec fn unsigned_seconds(seconds: i64) -> int {
    if seconds >= 0 {
        seconds as int
    } else {
        seconds + 0x1_0000_0000_0000_0000
    }
}

/// What is written to the cache for a transaction.
pub open spec fn cache_update_of(transaction: TransactionOutput) -> CacheUpdate {
    CacheUpdate {
        version: transaction.version,
        encoded_proto_data: transaction.encoded_proto_data,
        timestamp_in_seconds: match transaction.timestamp {
            Some(timestamp) => unsigned_seconds(timestamp.seconds) as u64,
            None => 0,
        },
    }
}

impl CacheUpdate {
    /// Prepares a transaction for the cache.
    pub fn from_transaction(transaction: TransactionOutput) -> (result: CacheUpdate)
        ensures
            result == cache_update_of(transaction),
    {
        let timestamp_in_seconds: u64 = match transaction.timestamp {
            Some(timestamp) => {
                let seconds: i64 = timestamp.seconds;
                assert(seconds < 0 ==> (seconds as u64) == seconds + 0x1_0000_0000_0000_0000)
                    by (bit_vector);
                seconds as u64
            },
            // For the genesis block, there is no timestamp.
            None => 0,
        };
        CacheUpdate {
            version: transaction.version,
            encoded_proto_data: transaction.encoded_proto_data,
            timestamp_in_seconds,
        }
    }
}

/// A frame, read: what it amounts to, and what it brings for the cache.
#[derive(Debug, PartialEq, Eq)]
pub struct FrameContent {
    /// What the frame amounts to.
    pub status: GrpcDataStatus,
    /// The transactions to be written to the cache, in the order of the frame.
    pub updates: VecDeque<CacheUpdate>,
}

/// The mathematical content of a frame.
#[verifier::ext_equal]
pub struct FrameModel {
    /// What the frame amounts to.
    pub status: GrpcDataStatus,
    /// The transactions to be written to the cache, in the order of the frame.
    pub updates: Seq<CacheUpdate>,
}

impl View for FrameContent {
    type V = FrameModel;

    open spec fn view(&self) -> FrameModel {
        FrameModel { status: self.status, updates: self.updates@ }
    }
}

/// The content of a well-formed frame, or what is wrong with it.
pub open spec fn frame_content(response: RawDatastreamResponse) -> Result<FrameModel, FatalError> {
    match response.response {
        None => Err(FatalError::MissingResponse),
        Some(DatastreamResponse::Status(status)) => {
            let start = status.start_version;
            match (StatusType::of_number(status.status_type as int), status.end_version) {
                (None, _) => Err(FatalError::InvalidStatusType),
                (Some(StatusType::Init), _) => Ok(
                    FrameModel { status: GrpcDataStatus::StreamInit(start), updates: Seq::empty() },
                ),
                (Some(StatusType::BatchEnd), None) => Err(FatalError::MissingEndVersion),
                (Some(StatusType::BatchEnd), Some(end)) => if 0 <= end - start < u64::MAX {
                    Ok(
                        FrameModel {
                            status: GrpcDataStatus::BatchEnd {
                                start_version: start,
                                num_of_transactions: (end - start + 1) as u64,
                            },
                            updates: Seq::empty(),
                        },
                    )
                } else {
                    Err(FatalError::InvalidBatchBounds)
                },
            }
        },
        Some(DatastreamResponse::Data(data)) => if data.transactions@.len() == 0 {
            Err(FatalError::EmptyChunk)
        } else {
            Ok(
                FrameModel {
                    status: GrpcDataStatus::ChunkDataOk {
                        start_version: data.transactions@[0].version,
                        num_of_transactions: data.transactions.len() as u64,
                    },
                    updates: data.transactions@.map_values(
                        |transaction: TransactionOutput| cache_update_of(transaction),
                    ),
                },
            )
        },
    }
}

/// Reads a frame.
pub fn process_raw_datastream_response(response: RawDatastreamResponse) -> (result: Result<
    FrameContent,
    FatalError,
>)
    ensures
        match result {
            Ok(content) => frame_content(response) == Ok::<FrameModel, FatalError>(content@),
            Err(error) => frame_content(response) == Err::<FrameModel, FatalError>(error),
        },
{
    match response.response {
        None => Err(FatalError::MissingResponse),
        Some(DatastreamResponse::Status(status)) => {
            let start_version: u64 = status.start_version;
            match StatusType::from_i32(status.status_type) {
                None => Err(FatalError::InvalidStatusType),
                Some(StatusType::Init) => Ok(
                    FrameContent {
                        status: GrpcDataStatus::StreamInit(start_version),
                        updates: VecDeque::new(),
                    },
                ),
                Some(StatusType::BatchEnd) => match status.end_version {
                    None => Err(FatalError::MissingEndVersion),
                    Some(end_version) => {
                        if end_version < start_version || end_version - start_version == u64::MAX {
                            return Err(FatalError::InvalidBatchBounds);
                        }
                        Ok(
                            FrameContent {
                                status: GrpcDataStatus::BatchEnd {
                                    start_version,
                                    num_of_transactions: end_version - start_version + 1,
                                },
                                updates: VecDeque::new(),
                            },
                        )
                    },
                },
            }
        },
        Some(DatastreamResponse::Data(data)) => {
            let transaction_len: usize = data.transactions.len();
            if transaction_len == 0 {
                return Err(FatalError::EmptyChunk);
            }
            let start_version: u64 = data.transactions[0].version;
            let ghost transactions = data.transactions@;
            let mut updates: VecDeque<CacheUpdate> = VecDeque::new();
            for transaction in iter: data.transactions
                invariant
                    iter.seq() == transactions,
                    updates@ =~= transactions.take(iter.index() as int).map_values(
                        |transaction: TransactionOutput| cache_update_of(transaction),
                    ),
            {
                updates.push_back(CacheUpdate::from_transaction(transaction));
            }
            assert(transactions.take(transactions.len() as int) =~= transactions);
            Ok(
                FrameContent {
                    status: GrpcDataStatus::ChunkDataOk {
                        start_version,
                        num_of_transactions: transaction_len as u64,
                    },
                    updates,
                },
            )
        },
    }
}

/// The chain and the version that the first frame of a stream announces, or what is wrong with
/// the frame.
pub open spec fn init_signal_content(init_signal: RawDatastreamResponse) -> Result<
    (ChainID, StartingVersion),
    FatalError,
> {
    match init_signal.response {
        None => Err(FatalError::MissingResponse),
        Some(DatastreamResponse::Status(status)) => if StatusType::of_number(
            status.status_type as int,
        ) == Some(StatusType::Init) {
            Ok((init_signal.chain_id, status.start_version))
        } else {
            Err(FatalError::FirstFrameNotInit)
        },
        Some(DatastreamResponse::Data(_)) => Err(FatalError::FirstFrameNotSignal),
    }
}

/// Reads the first frame of a stream: the fullnode's chain id and the version it starts from.
pub fn setup_cache_with_init_signal(init_signal: RawDatastreamResponse) -> (result: Result<
    (ChainID, StartingVersion),
    FatalError,
>)
    ensures
        result == init_signal_content(init_signal),
{
    match init_signal.response {
        None => Err(FatalError::MissingResponse),
        Some(DatastreamResponse::Status(status)) => match StatusType::from_i32(status.status_type) {
            Some(StatusType::Init) => Ok((init_signal.chain_id, status.start_version)),
            _ => Err(FatalError::FirstFrameNotInit),
        },
        Some(DatastreamResponse::Data(_)) => Err(FatalError::FirstFrameNotSignal),
    }
}

/// What the file store knows of itself.
#[derive(Clone, Copy, Debug, PartialEq, Eq, Structural)]
pub struct FileStoreMetadata {
    /// The chain whose transactions the file store holds.
    pub chain_id: u64,
    /// The version after the last transaction of the file store.
    pub version: u64,
}

/// The version that a stream is followed from, or why it cannot be followed.
///
/// With metadata, the file store and the fullnode must agree on the version and on the chain.
/// Without metadata, the cache must be empty, and the stream is followed from zero.
pub open spec fn starting_point_of(
    file_store_metadata: Option<FileStoreMetadata>,
    cache_was_empty: bool,
    fullnode_chain_id: ChainID,
    starting_version: StartingVersion,
) -> Result<u64, FatalError> {
    match file_store_metadata {
        Some(metadata) => if metadata.version != starting_version {
            Err(FatalError::FileStoreVersionMismatch)
        } else if metadata.chain_id != fullnode_chain_id {
            Err(FatalError::FileStoreChainIdMismatch)
        } else {
            Ok(metadata.version)
        },
        None => if cache_was_empty {
            Ok(0)
        } else {
            Err(FatalError::CacheNotEmpty)
        },
    }
}

/// Decides from which version a stream is followed.
pub fn starting_point(
    file_store_metadata: Option<FileStoreMetadata>,
    cache_was_empty: bool,
    fullnode_chain_id: ChainID,
    starting_version: StartingVersion,
) -> (result: Result<u64, FatalError>)
    ensures
        result == starting_point_of(
            file_store_metadata,
            cache_was_empty,
            fullnode_chain_id,
            starting_version,
        ),
{
    match file_store_metadata {
        Some(metadata) => {
            // It's required to start the worker with the same version as file store.
            if metadata.version != starting_version {
                return Err(FatalError::FileStoreVersionMismatch);
            }
            if metadata.chain_id != fullnode_chain_id as u64 {
                return Err(FatalError::FileStoreChainIdMismatch);
            }
            Ok(metadata.version)
        },
        None => {
            if cache_was_empty {
                Ok(0)
            } else {
                Err(FatalError::CacheNotEmpty)
            }
        },
    }
}

/// How far a stream has been copied.
#[derive(Clone, Copy, Debug, PartialEq, Eq, Structural)]
pub struct Progress {
    /// The chain of the stream.
    pub chain_id: ChainID,
    /// The version after the last one that was copied.
    pub current_version: u64,
    /// The number of transactions copied since the last complete batch.
    pub transaction_count: u64,
}

impl Progress {
    /// The progress after a chunk of `size` transactions.
    pub open spec fn after_chunk(self, size: int) -> Progress {
        Progress {
            current_version: (self.current_version + size) as u64,
            transaction_count: (self.transaction_count + size) as u64,
            ..self
        }
    }

    /// The progress after the end of a batch.
    pub open spec fn after_batch(self) -> Progress {
        Progress { transaction_count: 0, ..self }
    }
}

/// What the stream hands out.
#[derive(Debug, PartialEq, Eq)]
pub enum StreamItem {
    /// The next frame.
    Frame(RawDatastreamResponse),
    /// An error in place of a frame.
    Failed,
    /// Nothing more.
    Finished,
}

/// What a piece of outside work came to.
#[derive(Debug, PartialEq, Eq)]
pub enum StreamEvent {
    /// The stream was asked for its next item.
    Received(StreamItem),
    /// The cache was prepared; it held no data before if `was_empty`.
    CacheSetUp { was_empty: bool },
    /// The chain id in the cache was set, or compared with the fullnode's.
    ChainIdVerified { agrees: bool },
    /// A transaction was written to the cache, or the cache reported this error.
    TransactionCached(Result<(), String>),
    /// The latest version was written to the cache.
    LatestVersionCached { succeeded: bool },
}

/// Why a session is over, although the worker may open another one.
#[derive(Debug, PartialEq, Eq)]
pub enum StopReason {
    /// The stream ended.
    StreamFinished,
    /// The stream failed.
    StreamFailed,
    /// The stream was started twice.
    InitReceivedTwice,
    /// A batch ended at another version than the last one that was copied.
    WrongBatchEnd,
    /// The cache did not take a transaction; the text says so, and gives the error of the cache.
    TransactionNotCached(String),
}

/// The mathematical content of a [`StopReason`].
#[verifier::ext_equal]
pub enum StopReasonModel {
    /// The stream ended.
    StreamFinished,
    /// The stream failed.
    StreamFailed,
    /// The stream was started twice.
    InitReceivedTwice,
    /// A batch ended at another version than the last one that was copied.
    WrongBatchEnd,
    /// The cache did not take a transaction, as the text says.
    TransactionNotCached(Seq<char>),
}

impl View for StopReason {
    type V = StopReasonModel;

    open spec fn view(&self) -> StopReasonModel {
        match *self {
            StopReason::StreamFinished => StopReasonModel::StreamFinished,
            StopReason::StreamFailed => StopReasonModel::StreamFailed,
            StopReason::InitReceivedTwice => StopReasonModel::InitReceivedTwice,
            StopReason::WrongBatchEnd => StopReasonModel::WrongBatchEnd,
            StopReason::TransactionNotCached(text) => StopReasonModel::TransactionNotCached(text@),
        }
    }
}

/// What is said of a transaction that the cache refused with `error`.
pub open spec fn not_cached_text(error: Seq<char>) -> Seq<char> {
    "Update cache with version failed: "@ + error
}

/// The next piece of outside work.
#[derive(Debug, PartialEq, Eq)]
pub enum StreamAction {
    /// Ask the stream for its next item.
    Receive,
    /// Prepare the cache, if that is needed.
    SetUpCache,
    /// Set the chain id in the cache, or compare it with this one.
    VerifyChainId { chain_id: u64 },
    /// Write a transaction to the cache.
    CacheTransaction(CacheUpdate),
    /// Write to the cache that it is complete up to a version.
    CacheLatestVersion {
        /// The number of transactions since the last such write.
        num_of_transactions: u64,
        /// The version after the last one in the cache.
        version: u64,
    },
    /// Close the session.
    Stop(StopReason),
    /// End the worker.
    Crash(FatalError),
}

/// The mathematical content of a [`StreamAction`].
#[verifier::ext_equal]
pub enum StreamActionModel {
    /// Ask the stream for its next item.
    Receive,
    /// Prepare the cache, if that is needed.
    SetUpCache,
    /// Set the chain id in the cache, or compare it with this one.
    VerifyChainId { chain_id: u64 },
    /// Write a transaction to the cache.
    CacheTransaction(CacheUpdate),
    /// Write to the cache that it is complete up to a version.
    CacheLatestVersion { num_of_transactions: u64, version: u64 },
    /// Close the session.
    Stop(StopReasonModel),
    /// End the worker.
    Crash(FatalError),
}

impl View for StreamAction {
    type V = StreamActionModel;

    open spec fn view(&self) -> StreamActionModel {
        match *self {
            StreamAction::Receive => StreamActionModel::Receive,
            StreamAction::SetUpCache => StreamActionModel::SetUpCache,
            StreamAction::VerifyChainId { chain_id } => StreamActionModel::VerifyChainId {
                chain_id,
            },
            StreamAction::CacheTransaction(update) => StreamActionModel::CacheTransaction(update),
            StreamAction::CacheLatestVersion { num_of_transactions, version } => {
                StreamActionModel::CacheLatestVersion { num_of_transactions, version }
            },
            StreamAction::Stop(reason) => StreamActionModel::Stop(reason@),
            StreamAction::Crash(error) => StreamActionModel::Crash(error),
        }
    }
}

/// Where a session stands.
#[verifier::ext_equal]
pub enum SessionPhase {
    /// The first item of the stream is awaited.
    AwaitingInit,
    /// The cache is being prepared.
    SettingUpCache { chain_id: ChainID, starting_version: StartingVersion },
    /// The chain id in the cache is being compared.
    VerifyingChainId {
        chain_id: ChainID,
        starting_version: StartingVersion,
        cache_was_empty: bool,
    },
    /// The next item of the stream is awaited.
    Streaming { progress: Progress },
    /// A chunk of `size` transactions is being written; after the one that is on its way to the
    /// cache, the `pending` ones are left.
    CachingChunk { progress: Progress, size: u64, pending: Seq<CacheUpdate> },
    /// The end of a batch is being written.
    EndingBatch { progress: Progress },
    /// The session is over.
    Ended,
}

/// The mathematical state of a session.
#[verifier::ext_equal]
pub struct SessionModel {
    /// What the file store knew of itself when the stream was opened.
    pub file_store_metadata: Option<FileStoreMetadata>,
    /// Where the session stands.
    pub phase: SessionPhase,
}

impl SessionPhase {
    /// Whether `event` answers the outside work that this phase waits for.
    pub open spec fn expects(self, event: StreamEvent) -> bool {
        match self {
            SessionPhase::AwaitingInit => event is Received,
            SessionPhase::SettingUpCache { .. } => event is CacheSetUp,
            SessionPhase::VerifyingChainId { .. } => event is ChainIdVerified,
            SessionPhase::Streaming { .. } => event is Received,
            SessionPhase::CachingChunk { .. } => event is TransactionCached,
            SessionPhase::EndingBatch { .. } => event is LatestVersionCached,
            SessionPhase::Ended => false,
        }
    }
}

/// The end of a session for `reason`.
pub open spec fn stopped(reason: StopReasonModel) -> (SessionPhase, StreamActionModel) {
    (SessionPhase::Ended, StreamActionModel::Stop(reason))
}

/// The end of the worker because of `error`.
pub open spec fn crashed(error: FatalError) -> (SessionPhase, StreamActionModel) {
    (SessionPhase::Ended, StreamActionModel::Crash(error))
}

/// What follows the first item of the stream.
pub open spec fn first_item_step(item: StreamItem) -> (SessionPhase, StreamActionModel) {
    match item {
        StreamItem::Frame(init_signal) => match init_signal_content(init_signal) {
            Ok((chain_id, starting_version)) => (
                SessionPhase::SettingUpCache { chain_id, starting_version },
                StreamActionModel::SetUpCache,
            ),
            Err(error) => crashed(error),
        },
        _ => crashed(FatalError::NoResponse),
    }
}

/// What follows a later frame of the stream.
pub open spec fn frame_step(progress: Progress, response: RawDatastreamResponse) -> (
    SessionPhase,
    StreamActionModel,
) {
    if response.chain_id != progress.chain_id {
        crashed(FatalError::StreamChainIdMismatch)
    } else {
        match frame_content(response) {
            Err(error) => crashed(error),
            Ok(content) => match content.status {
                GrpcDataStatus::ChunkDataOk { num_of_transactions, .. } => (
                    SessionPhase::CachingChunk {
                        progress,
                        size: num_of_transactions,
                        pending: content.updates.drop_first(),
                    },
                    StreamActionModel::CacheTransaction(content.updates.first()),
                ),
                GrpcDataStatus::StreamInit(_) => stopped(StopReasonModel::InitReceivedTwice),
                GrpcDataStatus::BatchEnd { start_version, num_of_transactions } => if start_version
                    + num_of_transactions > u64::MAX {
                    crashed(FatalError::VersionOverflow)
                } else if progress.current_version != start_version + num_of_transactions {
                    stopped(StopReasonModel::WrongBatchEnd)
                } else {
                    (
                        SessionPhase::EndingBatch { progress },
                        StreamActionModel::CacheLatestVersion {
                            num_of_transactions: progress.transaction_count,
                            version: progress.current_version,
                        },
                    )
                },
            },
        }
    }
}

/// What follows the write of a transaction.
pub open spec fn transaction_cached_step(
    progress: Progress,
    size: u64,
    pending: Seq<CacheUpdate>,
    outcome: Result<(), String>,
) -> (SessionPhase, StreamActionModel) {
    match outcome {
        Err(error) => stopped(StopReasonModel::TransactionNotCached(not_cached_text(error@))),
        Ok(_) => if pending.len() > 0 {
            (
                SessionPhase::CachingChunk { progress, size, pending: pending.drop_first() },
                StreamActionModel::CacheTransaction(pending.first()),
            )
        } else if progress.current_version + size > u64::MAX {
            crashed(FatalError::VersionOverflow)
        } else {
            (
                SessionPhase::Streaming { progress: progress.after_chunk(size as int) },
                StreamActionModel::Receive,
            )
        },
    }
}

impl SessionModel {
    /// A session whose stream has just been opened.
    pub open spec fn opened(file_store_metadata: Option<FileStoreMetadata>) -> SessionModel {
        SessionModel { file_store_metadata, phase: SessionPhase::AwaitingInit }
    }

    /// The version from which the stream is followed.
    pub open spec fn origin(self) -> int {
        match self.file_store_metadata {
            Some(metadata) => metadata.version as int,
            None => 0,
        }
    }

    /// What follows an expected `event`: the next phase and the next piece of outside work.
    pub open spec fn next(self, event: StreamEvent) -> (SessionPhase, StreamActionModel) {
        match (self.phase, event) {
            (SessionPhase::AwaitingInit, StreamEvent::Received(item)) => first_item_step(item),
            (
                SessionPhase::SettingUpCache { chain_id, starting_version },
                StreamEvent::CacheSetUp { was_empty },
            ) => (
                SessionPhase::VerifyingChainId {
                    chain_id,
                    starting_version,
                    cache_was_empty: was_empty,
                },
                StreamActionModel::VerifyChainId { chain_id: chain_id as u64 },
            ),
            (
                SessionPhase::VerifyingChainId { chain_id, starting_version, cache_was_empty },
                StreamEvent::ChainIdVerified { agrees },
            ) => if !agrees {
                crashed(FatalError::CacheChainIdMismatch)
            } else {
                match starting_point_of(
                    self.file_store_metadata,
                    cache_was_empty,
                    chain_id,
                    starting_version,
                ) {
                    Ok(current_version) => (
                        SessionPhase::Streaming {
                            progress: Progress { chain_id, current_version, transaction_count: 0 },
                        },
                        StreamActionModel::Receive,
                    ),
                    Err(error) => crashed(error),
                }
            },
            (SessionPhase::Streaming { progress }, StreamEvent::Received(item)) => match item {
                StreamItem::Frame(response) => frame_step(progress, response),
                StreamItem::Failed => stopped(StopReasonModel::StreamFailed),
                StreamItem::Finished => stopped(StopReasonModel::StreamFinished),
            },
            (
                SessionPhase::CachingChunk { progress, size, pending },
                StreamEvent::TransactionCached(outcome),
            ) => transaction_cached_step(progress, size, pending, outcome),
            (
                SessionPhase::EndingBatch { progress },
                StreamEvent::LatestVersionCached { succeeded },
            ) => if succeeded {
                (
                    SessionPhase::Streaming { progress: progress.after_batch() },
                    StreamActionModel::Receive,
                )
            } else {
                crashed(FatalError::LatestVersionNotCached)
            },
            // No other event answers the outside work that is under way.
            _ => arbitrary(),
        }
    }

    /// The state after `event`.
    pub open spec fn after(self, event: StreamEvent) -> SessionModel {
        SessionModel { phase: self.next(event).0, ..self }
    }
}

/// Where a session stands, as it is stored.
enum StoredPhase {
    AwaitingInit,
    SettingUpCache { chain_id: ChainID, starting_version: StartingVersion },
    VerifyingChainId {
        chain_id: ChainID,
        starting_version: StartingVersion,
        cache_was_empty: bool,
    },
    Streaming { progress: Progress },
    CachingChunk { progress: Progress, size: u64, pending: VecDeque<CacheUpdate> },
    EndingBatch { progress: Progress },
    Ended,
}

impl StoredPhase {
    spec fn model(self) -> SessionPhase {
        match self {
            StoredPhase::AwaitingInit => SessionPhase::AwaitingInit,
            StoredPhase::SettingUpCache { chain_id, starting_version } => {
                SessionPhase::SettingUpCache { chain_id, starting_version }
            },
            StoredPhase::VerifyingChainId { chain_id, starting_version, cache_was_empty } => {
                SessionPhase::VerifyingChainId { chain_id, starting_version, cache_was_empty }
            },
            StoredPhase::Streaming { progress } => SessionPhase::Streaming { progress },
            StoredPhase::CachingChunk { progress, size, pending } => {
                SessionPhase::CachingChunk { progress, size, pending: pending@ }
            },
            StoredPhase::EndingBatch { progress } => SessionPhase::EndingBatch { progress },
            StoredPhase::Ended => SessionPhase::Ended,
        }
    }
}

/// The worker's side of one stream, from its first frame to its end.
pub struct StreamSession {
    file_store_metadata: Option<FileStoreMetadata>,
    phase: StoredPhase,
}

impl View for StreamSession {
    type V = SessionModel;

    closed spec fn view(&self) -> SessionModel {
        SessionModel {
            file_store_metadata: self.file_store_metadata,
            phase: self.phase.model(),
        }
    }
}

impl SessionPhase {
    /// The progress of a session that follows its stream.
    pub open spec fn progress(self) -> Option<Progress> {
        match self {
            SessionPhase::Streaming { progress } => Some(progress),
            SessionPhase::CachingChunk { progress, .. } => Some(progress),
            SessionPhase::EndingBatch { progress } => Some(progress),
            _ => None,
        }
    }

    /// No more transactions are counted since the last batch than there are versions.
    pub open spec fn wf(self) -> bool {
        self.progress() matches Some(progress) ==> progress.transaction_count
            <= progress.current_version
    }
}

impl StreamSession {
    /// Opens a session; its first piece of outside work is [`StreamAction::Receive`].
    pub fn new(file_store_metadata: Option<FileStoreMetadata>) -> (result: StreamSession)
        ensures
            result@ == SessionModel::opened(file_store_metadata),
            result@.phase.wf(),
    {
        StreamSession { file_store_metadata, phase: StoredPhase::AwaitingInit }
    }

    /// Whether `event` answers the outside work that the session waits for.
    pub fn expects(&self, event: &StreamEvent) -> (result: bool)
        ensures
            result == self@.phase.expects(*event),
    {
        match (&self.phase, event) {
            (StoredPhase::AwaitingInit, StreamEvent::Received(_)) => true,
            (StoredPhase::SettingUpCache { .. }, StreamEvent::CacheSetUp { .. }) => true,
            (StoredPhase::VerifyingChainId { .. }, StreamEvent::ChainIdVerified { .. }) => true,
            (StoredPhase::Streaming { .. }, StreamEvent::Received(_)) => true,
            (StoredPhase::CachingChunk { .. }, StreamEvent::TransactionCached(_)) => true,
            (StoredPhase::EndingBatch { .. }, StreamEvent::LatestVersionCached { .. }) => true,
            _ => false,
        }
    }

    fn in_phase(self, phase: StoredPhase, action: StreamAction) -> (result: (
        StreamSession,
        StreamAction,
    ))
        ensures
            result.0@ == (SessionModel { phase: phase.model(), ..self@ }),
            result.1 == action,
    {
        (StreamSession { file_store_metadata: self.file_store_metadata, phase }, action)
    }

    fn stop(self, reason: StopReason) -> (result: (StreamSession, StreamAction))
        ensures
            result.0@ == (SessionModel { phase: stopped(reason@).0, ..self@ }),
            result.1@ == stopped(reason@).1,
    {
        self.in_phase(StoredPhase::Ended, StreamAction::Stop(reason))
    }

    fn crash(self, error: FatalError) -> (result: (StreamSession, StreamAction))
        ensures
            result.0@ == (SessionModel { phase: crashed(error).0, ..self@ }),
            result.1@ == crashed(error).1,
    {
        self.in_phase(StoredPhase::Ended, StreamAction::Crash(error))
    }

    /// Reads the first item of the stream.
    fn receive_first(self, item: StreamItem) -> (result: (StreamSession, StreamAction))
        ensures
            result.0@ == (SessionModel { phase: first_item_step(item).0, ..self@ }),
            result.1@ == first_item_step(item).1,
    {
        match item {
            StreamItem::Frame(init_signal) => match setup_cache_with_init_signal(init_signal) {
                Ok((chain_id, starting_version)) => self.in_phase(
                    StoredPhase::SettingUpCache { chain_id, starting_version },
                    StreamAction::SetUpCache,
                ),
                Err(error) => self.crash(error),
            },
            _ => self.crash(FatalError::NoResponse),
        }
    }

    /// Reads a later frame of the stream.
    fn receive_frame(self, progress: Progress, response: RawDatastreamResponse) -> (result: (
        StreamSession,
        StreamAction,
    ))
        ensures
            result.0@ == (SessionModel { phase: frame_step(progress, response).0, ..self@ }),
            result.1@ == frame_step(progress, response).1,
    {
        if response.chain_id != progress.chain_id {
            return self.crash(FatalError::StreamChainIdMismatch);
        }
        match process_raw_datastream_response(response) {
            Err(error) => self.crash(error),
            Ok(content) => match content.status {
                GrpcDataStatus::ChunkDataOk { num_of_transactions, .. } => {
                    let mut pending: VecDeque<CacheUpdate> = content.updates;
                    match pending.pop_front() {
                        Some(update) => {
                            assert(pending@ =~= content@.updates.drop_first());
                            self.in_phase(
                                StoredPhase::CachingChunk {
                                    progress,
                                    size: num_of_transactions,
                                    pending,
                                },
                                StreamAction::CacheTransaction(update),
                            )
                        },
                        None => self.crash(FatalError::EmptyChunk),
                    }
                },
                GrpcDataStatus::StreamInit(_) => self.stop(StopReason::InitReceivedTwice),
                GrpcDataStatus::BatchEnd { start_version, num_of_transactions } => {
                    match start_version.checked_add(num_of_transactions) {
                        None => self.crash(FatalError::VersionOverflow),
                        Some(actual_current_version) => {
                            if progress.current_version != actual_current_version {
                                return self.stop(StopReason::WrongBatchEnd);
                            }
                            self.in_phase(
                                StoredPhase::EndingBatch { progress },
                                StreamAction::CacheLatestVersion {
                                    num_of_transactions: progress.transaction_count,
                                    version: progress.current_version,
                                },
                            )
                        },
                    }
                },
            },
        }
    }

    /// Goes on after the write of a transaction.
    fn transaction_cached(
        self,
        progress: Progress,
        size: u64,
        pending: VecDeque<CacheUpdate>,
        outcome: Result<(), String>,
    ) -> (result: (StreamSession, StreamAction))
        requires
            progress.transaction_count <= progress.current_version,
        ensures
            result.0@ == (SessionModel {
                phase: transaction_cached_step(progress, size, pending@, outcome).0,
                ..self@
            }),
            result.1@ == transaction_cached_step(progress, size, pending@, outcome).1,
    {
        if let Err(error) = outcome {
            let text: String = "Update cache with version failed: ".to_string().concat(
                error.as_str(),
            );
            return self.stop(StopReason::TransactionNotCached(text));
        }
        let ghost before = pending@;
        let mut pending: VecDeque<CacheUpdate> = pending;
        match pending.pop_front() {
            Some(update) => {
                assert(pending@ =~= before.drop_first());
                self.in_phase(
                    StoredPhase::CachingChunk { progress, size, pending },
                    StreamAction::CacheTransaction(update),
                )
            },
            None => match progress.current_version.checked_add(size) {
                None => self.crash(FatalError::VersionOverflow),
                Some(current_version) => {
                    let progress: Progress = Progress {
                        chain_id: progress.chain_id,
                        current_version,
                        transaction_count: progress.transaction_count + size,
                    };
                    self.in_phase(StoredPhase::Streaming { progress }, StreamAction::Receive)
                },
            },
        }
    }

    /// Takes in what the outside work came to, and decides on the next piece of it.
    pub fn process_streaming_response(self, event: StreamEvent) -> (result: (
        StreamSession,
        StreamAction,
    ))
        requires
            self@.phase.wf(),
            self@.phase.expects(event),
        ensures
            result.0@ == self@.after(event),
            result.1@ == self@.next(event).1,
            result.0@.phase.wf(),
    {
        let StreamSession { file_store_metadata, phase } = self;
        let session: StreamSession = StreamSession {
            file_store_metadata,
            phase: StoredPhase::Ended,
        };
        match (phase, event) {
            (StoredPhase::AwaitingInit, StreamEvent::Received(item)) => session.receive_first(item),
            (
                StoredPhase::SettingUpCache { chain_id, starting_version },
                StreamEvent::CacheSetUp { was_empty },
            ) => session.in_phase(
                StoredPhase::VerifyingChainId {
                    chain_id,
                    starting_version,
                    cache_was_empty: was_empty,
                },
                StreamAction::VerifyChainId { chain_id: chain_id as u64 },
            ),
            (
                StoredPhase::VerifyingChainId { chain_id, starting_version, cache_was_empty },
                StreamEvent::ChainIdVerified { agrees },
            ) => {
                if !agrees {
                    return session.crash(FatalError::CacheChainIdMismatch);
                }
                match starting_point(
                    file_store_metadata,
                    cache_was_empty,
                    chain_id,
                    starting_version,
                ) {
                    Ok(current_version) => {
                        let progress: Progress = Progress {
                            chain_id,
                            current_version,
                            transaction_count: 0,
                        };
                        session.in_phase(StoredPhase::Streaming { progress }, StreamAction::Receive)
                    },
                    Err(error) => session.crash(error),
                }
            },
            (StoredPhase::Streaming { progress }, StreamEvent::Received(item)) => match item {
                StreamItem::Frame(response) => session.receive_frame(progress, response),
                StreamItem::Failed => session.stop(StopReason::StreamFailed),
                StreamItem::Finished => session.stop(StopReason::StreamFinished),
            },
            (
                StoredPhase::CachingChunk { progress, size, pending },
                StreamEvent::TransactionCached(outcome),
            ) => session.transaction_cached(progress, size, pending, outcome),
            (
                StoredPhase::EndingBatch { progress },
                StreamEvent::LatestVersionCached { succeeded },
            ) => {
                if !succeeded {
                    return session.crash(FatalError::LatestVersionNotCached);
                }
                let progress: Progress = Progress {
                    chain_id: progress.chain_id,
                    current_version: progress.current_version,
                    transaction_count: 0,
                };
                session.in_phase(StoredPhase::Streaming { progress }, StreamAction::Receive)
            },
            _ => vstd::pervasive::unreached(),
        }
    }
}

/// What one round of the worker's main loop starts with.
#[derive(Clone, Copy, Debug, PartialEq, Eq, Structural)]
pub struct StreamPlan {
    /// The version to request from the fullnode.
    pub starting_version: u64,
    /// After how many seconds the worker exits, if it does.
    pub exit_after_secs: Option<u64>,
}

impl StreamPlan {
    /// What a round starts with when the file store knows this of itself: the stream is requested
    /// from the version of the file store on. Without metadata, it is requested from zero on, and
    /// the worker exits after a while.
    pub open spec fn of(file_store_metadata: Option<FileStoreMetadata>) -> StreamPlan {
        match file_store_metadata {
            Some(metadata) => StreamPlan {
                starting_version: metadata.version,
                exit_after_secs: None,
            },
            None => StreamPlan {
                starting_version: 0,
                exit_after_secs: Some(WORKER_RESTART_DELAY_IF_METADATA_NOT_FOUND_IN_SECS),
            },
        }
    }

    /// Plans a round.
    pub fn from_metadata(file_store_metadata: Option<FileStoreMetadata>) -> (result: StreamPlan)
        ensures
            result == StreamPlan::of(file_store_metadata),
    {
        match file_store_metadata {
            Some(metadata) => StreamPlan {
                starting_version: metadata.version,
                exit_after_secs: None,
            },
            None => StreamPlan {
                starting_version: 0,
                exit_after_secs: Some(WORKER_RESTART_DELAY_IF_METADATA_NOT_FOUND_IN_SECS),
            },
        }
    }
}

/// What a piece of outside work of the main loop came to.
#[derive(Debug, PartialEq, Eq)]
pub enum RunEvent {
    /// The cache and the fullnode are connected.
    Connected,
    /// The file store was asked what it knows of itself.
    MetadataRead(Option<FileStoreMetadata>),
    /// The fullnode has opened the stream.
    StreamOpened,
    /// What the session asked for came to this.
    Streamed(StreamEvent),
}

/// The next piece of outside work of the main loop.
#[derive(Debug, PartialEq, Eq)]
pub enum RunAction {
    /// Connect to the cache, and to the fullnode at this URL.
    Connect {
        /// The URL of the fullnode.
        fullnode_grpc_address: String,
        /// Why the stream before was given up, if there was one.
        lost: Option<StopReason>,
    },
    /// Ask the file store in this bucket what it knows of itself.
    ReadMetadata { file_store_bucket_name: String },
    /// Request a stream from the fullnode.
    OpenStream(StreamPlan),
    /// Do what the session asks for.
    Stream(StreamAction),
    /// End the worker.
    Crash(FatalError),
}

/// The mathematical content of a [`RunAction`].
#[verifier::ext_equal]
pub enum RunActionModel {
    /// Connect to the cache, and to the fullnode.
    Connect { fullnode_grpc_address: Seq<char>, lost: Option<StopReasonModel> },
    /// Ask the file store what it knows of itself.
    ReadMetadata { file_store_bucket_name: Seq<char> },
    /// Request a stream from the fullnode.
    OpenStream(StreamPlan),
    /// Do what the session asks for.
    Stream(StreamActionModel),
    /// End the worker.
    Crash(FatalError),
}

impl View for RunAction {
    type V = RunActionModel;

    open spec fn view(&self) -> RunActionModel {
        match *self {
            RunAction::Connect { fullnode_grpc_address, lost } => RunActionModel::Connect {
                fullnode_grpc_address: fullnode_grpc_address@,
                lost: match lost {
                    Some(reason) => Some(reason@),
                    None => None,
                },
            },
            RunAction::ReadMetadata { file_store_bucket_name } => RunActionModel::ReadMetadata {
                file_store_bucket_name: file_store_bucket_name@,
            },
            RunAction::OpenStream(plan) => RunActionModel::OpenStream(plan),
            RunAction::Stream(action) => RunActionModel::Stream(action@),
            RunAction::Crash(error) => RunActionModel::Crash(error),
        }
    }
}

/// The mathematical state of the main loop.
#[verifier::ext_equal]
pub enum RunModel {
    /// The cache and the fullnode are being connected.
    Connecting,
    /// The file store is being asked what it knows of itself.
    ReadingMetadata,
    /// The fullnode is being asked for a stream.
    OpeningStream { file_store_metadata: Option<FileStoreMetadata> },
    /// The stream is being followed.
    Following { session: SessionModel },
    /// The worker has crashed.
    Crashed,
}

impl RunModel {
    /// Whether `event` answers the outside work that the main loop waits for.
    pub open spec fn expects(self, event: RunEvent) -> bool {
        match self {
            RunModel::Connecting => event is Connected,
            RunModel::ReadingMetadata => event is MetadataRead,
            RunModel::OpeningStream { .. } => event is StreamOpened,
            RunModel::Following { session } => event matches RunEvent::Streamed(streamed)
                && session.phase.expects(streamed),
            RunModel::Crashed => false,
        }
    }

    /// The session that is under way is well-formed.
    pub open spec fn wf(self) -> bool {
        self matches RunModel::Following { session } ==> session.phase.wf()
    }

    /// What follows an expected `event`: the next state and the next piece of outside work. A
    /// session that stops is followed by a new round; only a crash is not.
    pub open spec fn next(self, worker: Worker, event: RunEvent) -> (RunModel, RunActionModel) {
        match (self, event) {
            (RunModel::Connecting, RunEvent::Connected) => (
                RunModel::ReadingMetadata,
                RunActionModel::ReadMetadata { file_store_bucket_name: worker.bucket() },
            ),
            (RunModel::ReadingMetadata, RunEvent::MetadataRead(file_store_metadata)) => (
                RunModel::OpeningStream { file_store_metadata },
                RunActionModel::OpenStream(StreamPlan::of(file_store_metadata)),
            ),
            (RunModel::OpeningStream { file_store_metadata }, RunEvent::StreamOpened) => (
                RunModel::Following { session: SessionModel::opened(file_store_metadata) },
                RunActionModel::Stream(StreamActionModel::Receive),
            ),
            (RunModel::Following { session }, RunEvent::Streamed(streamed)) => match session.next(
                streamed,
            ).1 {
                StreamActionModel::Stop(reason) => (
                    RunModel::Connecting,
                    RunActionModel::Connect {
                        fullnode_grpc_address: worker.fullnode_url(),
                        lost: Some(reason),
                    },
                ),
                StreamActionModel::Crash(error) => (
                    RunModel::Crashed,
                    RunActionModel::Crash(error),
                ),
                action => (
                    RunModel::Following { session: session.after(streamed) },
                    RunActionModel::Stream(action),
                ),
            },
            // No other event answers the outside work that is under way.
            _ => arbitrary(),
        }
    }
}

/// The state of the main loop, as it is stored.
enum StoredRun {
    Connecting,
    ReadingMetadata,
    OpeningStream { file_store_metadata: Option<FileStoreMetadata> },
    Following { session: StreamSession },
    Crashed,
}

/// The state of the main loop.
pub struct WorkerRun {
    state: StoredRun,
}

impl View for WorkerRun {
    type V = RunModel;

    closed spec fn view(&self) -> RunModel {
        match self.state {
            StoredRun::Connecting => RunModel::Connecting,
            StoredRun::ReadingMetadata => RunModel::ReadingMetadata,
            StoredRun::OpeningStream { file_store_metadata } => RunModel::OpeningStream {
                file_store_metadata,
            },
            StoredRun::Following { session } => RunModel::Following { session: session@ },
            StoredRun::Crashed => RunModel::Crashed,
        }
    }
}

impl WorkerRun {
    /// Whether `event` answers the outside work that the main loop waits for.
    pub fn expects(&self, event: &RunEvent) -> (result: bool)
        ensures
            result == self@.expects(*event),
    {
        match (&self.state, event) {
            (StoredRun::Connecting, RunEvent::Connected) => true,
            (StoredRun::ReadingMetadata, RunEvent::MetadataRead(_)) => true,
            (StoredRun::OpeningStream { .. }, RunEvent::StreamOpened) => true,
            (StoredRun::Following { session }, RunEvent::Streamed(streamed)) => session.expects(
                streamed,
            ),
            _ => false,
        }
    }
}

/// The worker that copies a fullnode's transaction stream into the cache.
pub struct Worker {
    redis_client: redis::Client,
    fullnode_grpc_address: String,
    /// The name of the bucket that holds the file store.
    pub file_store_bucket_name: String,
}

impl Worker {
    /// The client of the redis server that holds the cache.
    pub closed spec fn client(self) -> redis::Client {
        self.redis_client
    }

    /// The URL of the fullnode.
    pub closed spec fn fullnode_url(self) -> Seq<char> {
        self.fullnode_grpc_address@
    }

    /// The name of the bucket that holds the file store.
    pub closed spec fn bucket(self) -> Seq<char> {
        self.file_store_bucket_name@
    }

    /// The worker is set up as `config` says.
    pub open spec fn follows(self, config: IndexerGrpcConfig) -> bool {
        &&& config.redis_client() == Some(self.client())
        &&& config.fullnode_grpc_address matches Some(address)
        &&& self.fullnode_url() == "http://"@ + address@
        &&& self.bucket() == config.file_store_bucket_name@
    }

    /// Sets up a worker whose redis address is valid and whose fullnode address is there.
    pub fn new(config: IndexerGrpcConfig) -> (result: Worker)
        requires
            config.redis_client() is Some,
            config.fullnode_grpc_address is Some,
        ensures
            result.follows(config),
    {
        match (config.open_redis_client(), config.fullnode_grpc_address) {
            (Ok(redis_client), Some(address)) => Worker {
                redis_client,
                fullnode_grpc_address: "http://".to_string().concat(address.as_str()),
                file_store_bucket_name: config.file_store_bucket_name,
            },
            _ => vstd::pervasive::unreached(),
        }
    }

    /// Sets up a worker, unless its redis address is invalid or its fullnode address is missing.
    pub fn try_new(config: IndexerGrpcConfig) -> (result: Result<Worker, ConfigError>)
        ensures
            match result {
                Ok(worker) => worker.follows(config),
                Err(ConfigError::InvalidRedisAddress) => config.redis_client() is None,
                Err(ConfigError::MissingFullnodeAddress) => config.redis_client() is Some
                    && config.fullnode_grpc_address is None,
            },
    {
        match config.open_redis_client() {
            Err(error) => Err(error),
            Ok(_) => {
                if config.fullnode_grpc_address.is_none() {
                    return Err(ConfigError::MissingFullnodeAddress);
                }
                Ok(Worker::new(config))
            },
        }
    }

    /// Returns the client of the redis server that holds the cache.
    pub fn redis_client(&self) -> (result: &redis::Client)
        ensures
            *result == self.client(),
    {
        &self.redis_client
    }

    /// Returns the URL of the fullnode.
    pub fn fullnode_grpc_address(&self) -> (result: &str)
        ensures
            result@ == self.fullnode_url(),
    {
        self.fullnode_grpc_address.as_str()
    }

    /// Starts the main loop.
    pub fn start(&self) -> (result: (WorkerRun, RunAction))
        ensures
            result.0@ == RunModel::Connecting,
            result.1@ == (RunActionModel::Connect {
                fullnode_grpc_address: self.fullnode_url(),
                lost: None,
            }),
    {
        (
            WorkerRun { state: StoredRun::Connecting },
            RunAction::Connect {
                fullnode_grpc_address: self.fullnode_grpc_address.clone(),
                lost: None,
            },
        )
    }

    /// Takes in what the outside work of the main loop came to, and decides on the next piece of
    /// it. The main loop is:
    /// 1. Fetch metadata from the file store; if it is not present, exit after one minute.
    /// 2. Start the stream with the version from the file store, or zero if it is not present.
    /// 3. Follow the stream with a [`StreamSession`]; when it is lost, connect again.
    pub fn run(&self, run: WorkerRun, event: RunEvent) -> (result: (WorkerRun, RunAction))
        requires
            run@.wf(),
            run@.expects(event),
        ensures
            (result.0@, result.1@) == run@.next(*self, event),
            result.0@.wf(),
    {
        match (run.state, event) {
            (StoredRun::Connecting, RunEvent::Connected) => (
                WorkerRun { state: StoredRun::ReadingMetadata },
                RunAction::ReadMetadata {
                    file_store_bucket_name: self.file_store_bucket_name.clone(),
                },
            ),
            (StoredRun::ReadingMetadata, RunEvent::MetadataRead(file_store_metadata)) => (
                WorkerRun { state: StoredRun::OpeningStream { file_store_metadata } },
                RunAction::OpenStream(StreamPlan::from_metadata(file_store_metadata)),
            ),
            (StoredRun::OpeningStream { file_store_metadata }, RunEvent::StreamOpened) => (
                WorkerRun {
                    state: StoredRun::Following {
                        session: StreamSession::new(file_store_metadata),
                    },
                },
                RunAction::Stream(StreamAction::Receive),
            ),
            (StoredRun::Following { session }, RunEvent::Streamed(streamed)) => {
                let (session, action) = session.process_streaming_response(streamed);
                match action {
                    StreamAction::Stop(reason) => (
                        WorkerRun { state: StoredRun::Connecting },
                        RunAction::Connect {
                            fullnode_grpc_address: self.fullnode_grpc_address.clone(),
                            lost: Some(reason),
                        },
                    ),
                    StreamAction::Crash(error) => (
                        WorkerRun { state: StoredRun::Crashed },
                        RunAction::Crash(error),
                    ),
                    action => (
                        WorkerRun { state: StoredRun::Following { session } },
                        RunAction::Stream(action),
                    ),
                }
            },
            _ => vstd::pervasive::unreached(),
        }
    }
}

} // verus!
