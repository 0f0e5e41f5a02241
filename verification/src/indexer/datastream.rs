//! The frames of the raw datastream protocol.

use vstd::prelude::*;

verus! {

/// A point in time, as the protocol carries it.
#[derive(Clone, Copy, Debug, PartialEq, Eq, Structural)]
pub struct Timestamp {
    /// Seconds since the Unix epoch.
    pub seconds: i64,
    /// Nanoseconds within the second.
    pub nanos: i32,
}

/// One transaction of a data frame.
#[derive(Clone, Debug, PartialEq, Eq)]
pub struct TransactionOutput {
    /// The transaction, encoded.
    pub encoded_proto_data: String,
    /// The version of the transaction in the ledger.
    pub version: u64,
    /// The time of the transaction; the genesis transaction has none.
    pub timestamp: Option<Timestamp>,
}

/// The body of a data frame: a chunk of transactions.
#[derive(Clone, Debug, PartialEq, Eq)]
pub struct TransactionsOutput {
    /// The transactions of the chunk.
    pub transactions: Vec<TransactionOutput>,
}

/// What a status frame signals.
#[derive(Clone, Copy, Debug, PartialEq, Eq, Structural)]
pub enum StatusType {
    /// The stream starts.
    Init,
    /// A batch of data frames is complete.
    BatchEnd,
}

impl StatusType {
    /// The status type that a number on the wire stands for, if it stands for any.
    pub open spec fn of_number(value: int) -> Option<StatusType> {
        if value == 0 {
            Some(StatusType::Init)
        } else if value == 1 {
            Some(StatusType::BatchEnd)
        } else {
            None
        }
    }

    /// Reads the number that stands for a status type on the wire.
    pub fn from_i32(value: i32) -> (result: Option<StatusType>)
        ensures
            result == StatusType::of_number(value as int),
    {
        match value {
            0 => Some(StatusType::Init),
            1 => Some(StatusType::BatchEnd),
            _ => None,
        }
    }
}

/// The body of a status frame.
#[derive(Clone, Copy, Debug, PartialEq, Eq, Structural)]
pub struct StreamStatus {
    /// The number that stands for the status type.
    pub status_type: i32,
    /// The first version of the stream or of the batch.
    pub start_version: u64,
    /// The last version of the batch; a start of stream has none.
    pub end_version: Option<u64>,
}

/// The body of a frame.
#[derive(Clone, Debug, PartialEq, Eq)]
pub enum DatastreamResponse {
    /// A signal about the stream.
    Status(StreamStatus),
    /// A chunk of transactions.
    Data(TransactionsOutput),
}

/// A frame of the raw datastream.
#[derive(Clone, Debug, PartialEq, Eq)]
pub struct RawDatastreamResponse {
    /// The body, which a malformed frame lacks.
    pub response: Option<DatastreamResponse>,
    /// The chain that the frame belongs to.
    pub chain_id: u32,
}

/// The mathematical body of a frame.
#[verifier::ext_equal]
pub enum DatastreamResponseModel {
    /// A signal about the stream.
    Status(StreamStatus),
    /// A chunk of transactions.
    Data(Seq<TransactionOutput>),
}

/// The mathematical content of a frame.
#[verifier::ext_equal]
pub struct RawDatastreamModel {
    /// The body.
    pub response: Option<DatastreamResponseModel>,
    /// The chain that the frame belongs to.
    pub chain_id: u32,
}

impl View for RawDatastreamResponse {
    type V = RawDatastreamModel;

    open spec fn view(&self) -> RawDatastreamModel {
        RawDatastreamModel {
            response: match self.response {
                Some(DatastreamResponse::Status(status)) => Some(
                    DatastreamResponseModel::Status(status),
                ),
                Some(DatastreamResponse::Data(data)) => Some(
                    DatastreamResponseModel::Data(data.transactions@),
                ),
                None => None,
            },
            chain_id: self.chain_id,
        }
    }
}

} // verus!
