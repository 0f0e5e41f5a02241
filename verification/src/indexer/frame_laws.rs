//! What the frames of a stream are read as, told from the fields of the frames alone.

use crate::indexer::datastream::{
    DatastreamResponse, RawDatastreamResponse, StatusType, TransactionOutput,
};
use crate::indexer::worker::{
    process_raw_datastream_response, setup_cache_with_init_signal, starting_point, CacheUpdate,
    ChainID, FatalError, FileStoreMetadata, FrameContent, GrpcDataStatus, StartingVersion,
};
use vstd::prelude::*;

verus! {

/// `update` writes `transaction`: under its own version, with its own data, and with its time in
/// seconds, which is zero where there is none and wraps round below zero.
pub open spec fn records(update: CacheUpdate, transaction: TransactionOutput) -> bool {
    &&& update.version == transaction.version
    &&& update.encoded_proto_data == transaction.encoded_proto_data
    &&& transaction.timestamp is None ==> update.timestamp_in_seconds == 0
    &&& transaction.timestamp matches Some(time) ==> {
        &&& time.seconds >= 0 ==> update.timestamp_in_seconds == time.seconds
        &&& time.seconds < 0 ==> update.timestamp_in_seconds - time.seconds
            == 0x1_0000_0000_0000_0000
    }
}

/// A transaction is written to the cache as it is.
pub proof fn transaction_is_written_as_it_is(transaction: TransactionOutput, update: CacheUpdate)
    requires
        call_ensures(CacheUpdate::from_transaction, (transaction,), update),
    ensures
        records(update, transaction),
{
}

/// Two transactions are written alike only if they are alike in version and data, and, where both
/// have a time, in their seconds.
pub proof fn different_transactions_are_written_differently(
    one: TransactionOutput,
    other: TransactionOutput,
    update: CacheUpdate,
)
    requires
        call_ensures(CacheUpdate::from_transaction, (one,), update),
        call_ensures(CacheUpdate::from_transaction, (other,), update),
    ensures
        one.version == other.version,
        one.encoded_proto_data == other.encoded_proto_data,
        one.timestamp matches Some(time) ==> other.timestamp matches Some(other_time) ==> {
            time.seconds == other_time.seconds
        },
{
    transaction_is_written_as_it_is(one, update);
    transaction_is_written_as_it_is(other, update);
}

/// Zero signals the start of a stream and one the end of a batch; no other number signals anything.
pub proof fn signals_are_zero_and_one(value: i32, status_type: Option<StatusType>)
    requires
        call_ensures(StatusType::from_i32, (value,), status_type),
    ensures
        value == 0 <==> status_type == Some(StatusType::Init),
        value == 1 <==> status_type == Some(StatusType::BatchEnd),
        value != 0 && value != 1 <==> status_type is None,
{
}

/// What is read of a data frame: its chunk starts at the version of the first transaction and is as
/// long as the frame, and its transactions are to be written one by one, as they are and in their
/// order. An empty one is an error.
pub proof fn data_frame_is_read_in_full(
    frame: RawDatastreamResponse,
    transactions: Seq<TransactionOutput>,
    result: Result<FrameContent, FatalError>,
)
    requires
        call_ensures(process_raw_datastream_response, (frame,), result),
        frame.response matches Some(DatastreamResponse::Data(data)) && data.transactions@
            == transactions,
    ensures
        match result {
            Ok(content) => {
                &&& transactions.len() > 0
                &&& content.status matches GrpcDataStatus::ChunkDataOk {
                    start_version,
                    num_of_transactions,
                }
                &&& start_version == transactions[0].version
                &&& num_of_transactions == transactions.len()
                &&& content.updates@.len() == transactions.len()
                &&& forall|i: int|
                    0 <= i < transactions.len() ==> records(
                        #[trigger] content.updates@[i],
                        transactions[i],
                    )
            },
            Err(error) => transactions.len() == 0 && error == FatalError::EmptyChunk,
        },
{
    if let Some(DatastreamResponse::Data(data)) = frame.response {
        assert(data.transactions.len() == transactions.len());
    }
}

/// The versions that are to be written for a data frame are the versions of its transactions.
pub proof fn versions_of_a_data_frame_are_written(
    frame: RawDatastreamResponse,
    transactions: Seq<TransactionOutput>,
    content: FrameContent,
)
    requires
        call_ensures(
            process_raw_datastream_response,
            (frame,),
            Ok::<FrameContent, FatalError>(content),
        ),
        frame.response matches Some(DatastreamResponse::Data(data)) && data.transactions@
            == transactions,
    ensures
        content.updates@.map_values(|update: CacheUpdate| update.version)
            == transactions.map_values(|transaction: TransactionOutput| transaction.version),
{
    let result = Ok::<FrameContent, FatalError>(content);
    data_frame_is_read_in_full(frame, transactions, result);
    assert(content.updates@.map_values(|update: CacheUpdate| update.version)
        =~= transactions.map_values(|transaction: TransactionOutput| transaction.version));
}

/// What is read of a status frame, by the number of the signal: a start of stream gives its
/// version; the end of a batch, whose last version is included, gives its first version and such a
/// count that first version and count add up to the version after the last. Nothing is to be
/// written.
pub proof fn status_frame_is_read_by_its_number(
    frame: RawDatastreamResponse,
    number: i32,
    first: u64,
    last: Option<u64>,
    result: Result<FrameContent, FatalError>,
)
    requires
        call_ensures(process_raw_datastream_response, (frame,), result),
        frame.response matches Some(DatastreamResponse::Status(status)) && status.status_type
            == number && status.start_version == first && status.end_version == last,
    ensures
        result matches Ok(content) ==> content.updates@.len() == 0,
        number == 0 <==> (result matches Ok(content) && content.status is StreamInit),
        number == 0 ==> (result matches Ok(content) && content.status
            == GrpcDataStatus::StreamInit(first)),
        number != 0 && number != 1 <==> (result matches Err(error) && error
            == FatalError::InvalidStatusType),
        number == 1 && last is None <==> (result matches Err(error) && error
            == FatalError::MissingEndVersion),
        number == 1 && (last matches Some(end) && (end < first || (first == 0 && end
            == u64::MAX))) <==> (result matches Err(error) && error
            == FatalError::InvalidBatchBounds),
        number == 1 ==> (last matches Some(end) ==> (first <= end && (first > 0 || end < u64::MAX)
            ==> {
            &&& result matches Ok(content)
            &&& content.status matches GrpcDataStatus::BatchEnd {
                start_version,
                num_of_transactions,
            }
            &&& start_version == first
            &&& start_version + num_of_transactions == end + 1
        })),
{
}

/// A frame without a body is an error, and the only one of its kind.
pub proof fn frame_without_a_body_is_an_error(
    frame: RawDatastreamResponse,
    result: Result<FrameContent, FatalError>,
)
    requires
        call_ensures(process_raw_datastream_response, (frame,), result),
    ensures
        frame.response is None <==> (result matches Err(error) && error
            == FatalError::MissingResponse),
{
}

/// The first frame of a stream announces its own chain and version if its signal has the number
/// zero, and is an error otherwise: one for a frame without a body, one for another signal, and one
/// for a data frame.
pub proof fn first_frame_announces_chain_and_version(
    frame: RawDatastreamResponse,
    result: Result<(ChainID, StartingVersion), FatalError>,
)
    requires
        call_ensures(setup_cache_with_init_signal, (frame,), result),
    ensures
        match frame.response {
            None => result matches Err(error) && error == FatalError::MissingResponse,
            Some(DatastreamResponse::Data(_)) => result matches Err(error) && error
                == FatalError::FirstFrameNotSignal,
            Some(DatastreamResponse::Status(status)) => if status.status_type == 0 {
                result matches Ok(announced) && announced.0 == frame.chain_id && announced.1
                    == status.start_version
            } else {
                result matches Err(error) && error == FatalError::FirstFrameNotInit
            },
        },
{
}

/// A stream is followed from the version of the file store, exactly if the fullnode announces that
/// version and the chain of the file store; without a file store it is followed from zero, exactly
/// if the cache was empty. Each disagreement has its own error, the one on the version first.
pub proof fn stream_is_followed_where_all_agree(
    file_store_metadata: Option<FileStoreMetadata>,
    cache_was_empty: bool,
    fullnode_chain_id: ChainID,
    starting_version: StartingVersion,
    result: Result<u64, FatalError>,
)
    requires
        call_ensures(
            starting_point,
            (file_store_metadata, cache_was_empty, fullnode_chain_id, starting_version),
            result,
        ),
    ensures
        result is Ok <==> match file_store_metadata {
            Some(metadata) => metadata.version == starting_version && metadata.chain_id
                == fullnode_chain_id,
            None => cache_was_empty,
        },
        result matches Ok(version) ==> match file_store_metadata {
            Some(metadata) => version == metadata.version && version == starting_version,
            None => version == 0,
        },
        result matches Err(error) ==> match file_store_metadata {
            Some(metadata) => if metadata.version == starting_version {
                error == FatalError::FileStoreChainIdMismatch
            } else {
                error == FatalError::FileStoreVersionMismatch
            },
            None => error == FatalError::CacheNotEmpty,
        },
{
}

/// What a worker ends with, by what has gone wrong.
pub proof fn each_error_has_its_text(error: FatalError, text: &'static str)
    requires
        call_ensures(FatalError::message, (&error,), text),
    ensures
        error is NoResponse ==> text@ == "[Indexer Cache] Streaming error: no response."@,
        error is MissingResponse ==> text@ == "Response type not exists."@,
        error is FirstFrameNotInit ==> text@
            == "[Indexer Cache] Streaming error: first frame is not INIT signal."@,
        error is FirstFrameNotSignal ==> text@
            == "[Indexer Cache] Streaming error: first frame is not siganl frame."@,
        error is CacheChainIdMismatch ==> text@
            == "[Indexer Cache] Chain id mismatch between cache and fullnode."@,
        error is FileStoreVersionMismatch ==> text@
            == "[Indexer Cache] File store version mismatch with fullnode."@,
        error is FileStoreChainIdMismatch ==> text@
            == "[Indexer Cache] Chain id mismatch between file store and fullnode."@,
        error is StreamChainIdMismatch ==> text@
            == "[Indexer Cache] Chain id mismatch happens during data streaming."@,
        error is InvalidStatusType ==> text@ == "[Indexer Cache] Invalid status type."@,
        error is MissingEndVersion ==> text@ == "RawDatastreamResponse status end_version is None"@,
{
}

/// Every frame can be read, whatever it holds, and every start can be judged.
pub proof fn every_frame_can_be_read(
    frame: RawDatastreamResponse,
    transaction: TransactionOutput,
    value: i32,
    file_store_metadata: Option<FileStoreMetadata>,
    cache_was_empty: bool,
    fullnode_chain_id: ChainID,
    starting_version: StartingVersion,
)
    ensures
        call_requires(process_raw_datastream_response, (frame,)),
        call_requires(setup_cache_with_init_signal, (frame,)),
        call_requires(CacheUpdate::from_transaction, (transaction,)),
        call_requires(StatusType::from_i32, (value,)),
        call_requires(
            starting_point,
            (file_store_metadata, cache_was_empty, fullnode_chain_id, starting_version),
        ),
{
}

} // verus!
