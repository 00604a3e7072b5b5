//! The shard's HTTP API: which shard message each request becomes, and which
//! status and body each outcome is answered with. Upserts answer 204, missing
//! records 404, collection reads arrays, deletes `{"deleted": N}` (zero too),
//! ranges with `lower_bound >= upper_bound` 400, and shard failures 500.
use vstd::prelude::*;

use crate::data::Model;
use crate::client;
use crate::shard;
use crate::shard::{ShardMessage, ShardReply};

verus! {

/// A request to the API, after its path, query and body were read.
#[derive(Debug, PartialEq)]
pub enum ApiRequest {
    /// `GET /shard/size`
    GetSize,
    /// `PUT /tables/{table_id}/partitions/{partition}/records/{hash}` with a JSON body.
    Upsert { table_id: i64, partition: i64, hash: i64, data: serde_json::Value },
    /// `GET /tables/{table_id}/partitions/{partition}/records/{hash}`
    GetRecord { table_id: i64, partition: i64, hash: i64 },
    /// `DELETE /tables/{table_id}/partitions/{partition}/records/{hash}`
    DeleteRecord { table_id: i64, partition: i64, hash: i64 },
    /// `GET /tables/{table_id}/partitions/{partition}`
    GetPartition { table_id: i64, partition: i64 },
    /// `DELETE /tables/{table_id}/partitions/{partition}`
    DeletePartition { table_id: i64, partition: i64 },
    /// `GET /tables/{table_id}/range?lower_bound=..&upper_bound=..`
    GetRange { table_id: i64, lower_bound: i64, upper_bound: i64 },
}

/// The error texts that the API answers with, as `{"error": text}`.
#[derive(Debug, Clone, Copy, PartialEq, Eq, Structural)]
pub enum ErrorMessage {
    ShardRequestFailed,
    RecordNotFound,
    InvalidRange,
}

/// The JSON body of a response.
#[derive(Debug, PartialEq)]
pub enum Body {
    /// No body.
    Empty,
    /// One record.
    Record(Model),
    /// An array of records.
    Records(Vec<Model>),
    /// `{"deleted": N}`
    Deleted(u64),
    /// `{"size_bytes": N}`
    Size(u64),
    /// `{"error": text}`
    Error(ErrorMessage),
}

/// A status code and a body.
#[derive(Debug, PartialEq)]
pub struct ApiResponse {
    pub status: u16,
    pub body: Body,
}

/// A shard message that failed; its text is for the server's log only.
#[derive(Debug, PartialEq)]
pub struct ShardFailure {
    pub message: String,
}

pub const OK: u16 = 200;

pub const NO_CONTENT: u16 = 204;

pub const BAD_REQUEST: u16 = 400;

pub const NOT_FOUND: u16 = 404;

pub const INTERNAL_SERVER_ERROR: u16 = 500;

impl ErrorMessage {
    /// The text of the message.
    pub fn text(&self) -> (s: &'static str)
        ensures
            s@ == match *self {
                ErrorMessage::ShardRequestFailed => "shard request failed"@,
                ErrorMessage::RecordNotFound => "record not found"@,
                ErrorMessage::InvalidRange => "lower_bound must be less than upper_bound"@,
            },
    {
        match self {
            ErrorMessage::ShardRequestFailed => "shard request failed",
            ErrorMessage::RecordNotFound => "record not found",
            ErrorMessage::InvalidRange => "lower_bound must be less than upper_bound",
        }
    }
}

/// The answer to a shard failure: 500, with a generic error text.
pub fn internal_error() -> (r: ApiResponse)
    ensures
        r == (ApiResponse {
            status: INTERNAL_SERVER_ERROR,
            body: Body::Error(ErrorMessage::ShardRequestFailed),
        }),
{
    ApiResponse { status: INTERNAL_SERVER_ERROR, body: Body::Error(ErrorMessage::ShardRequestFailed) }
}

/// The shard message that a request becomes, or the answer to a request that
/// is refused before it reaches the shard.
pub open spec fn dispatch_spec(request: ApiRequest) -> Result<ShardMessage, ApiResponse> {
    match request {
        ApiRequest::GetSize => Ok(ShardMessage::GetSize),
        ApiRequest::Upsert { table_id, partition, hash, data } => Ok(
            ShardMessage::Upsert { table_id, partition, hash, data },
        ),
        ApiRequest::GetRecord { table_id, partition, hash } => Ok(
            ShardMessage::Get { table_id, partition, hash },
        ),
        ApiRequest::DeleteRecord { table_id, partition, hash } => Ok(
            ShardMessage::Delete { table_id, partition, hash },
        ),
        ApiRequest::GetPartition { table_id, partition } => Ok(
            ShardMessage::GetPartition { table_id, partition },
        ),
        ApiRequest::DeletePartition { table_id, partition } => Ok(
            ShardMessage::DeletePartition { table_id, partition },
        ),
        ApiRequest::GetRange { table_id, lower_bound, upper_bound } => if lower_bound
            < upper_bound {
            Ok(ShardMessage::GetRange { table_id, upper_bound, lower_bound })
        } else {
            Err(ApiResponse { status: BAD_REQUEST, body: Body::Error(ErrorMessage::InvalidRange) })
        },
    }
}

/// The answer to a request, given what the shard replied.
pub open spec fn respond_spec(outcome: Result<ShardReply, ShardFailure>) -> ApiResponse {
    match outcome {
        Err(_) => ApiResponse {
            status: INTERNAL_SERVER_ERROR,
            body: Body::Error(ErrorMessage::ShardRequestFailed),
        },
        Ok(ShardReply::Size(n)) => ApiResponse { status: OK, body: Body::Size(n) },
        Ok(ShardReply::Upserted) => ApiResponse { status: NO_CONTENT, body: Body::Empty },
        Ok(ShardReply::Record(Some(record))) => ApiResponse {
            status: OK,
            body: Body::Record(record),
        },
        Ok(ShardReply::Record(None)) => ApiResponse {
            status: NOT_FOUND,
            body: Body::Error(ErrorMessage::RecordNotFound),
        },
        Ok(ShardReply::Deleted(n)) => ApiResponse { status: OK, body: Body::Deleted(n) },
        Ok(ShardReply::Records(records)) => ApiResponse {
            status: OK,
            body: Body::Records(records),
        },
    }
}

/// The shard message that a request becomes; a range whose lower bound is not
/// below its upper bound is refused with 400 and never reaches the shard.
pub fn dispatch(request: ApiRequest) -> (r: Result<ShardMessage, ApiResponse>)
    ensures
        r == dispatch_spec(request),
        request matches ApiRequest::Upsert { table_id, partition, hash, data } ==> r == Ok::<
            ShardMessage,
            ApiResponse,
        >(ShardMessage::Upsert { table_id, partition, hash, data }),
        request matches ApiRequest::GetRecord { table_id, partition, hash } ==> r == Ok::<
            ShardMessage,
            ApiResponse,
        >(ShardMessage::Get { table_id, partition, hash }),
        request matches ApiRequest::DeleteRecord { table_id, partition, hash } ==> r == Ok::<
            ShardMessage,
            ApiResponse,
        >(ShardMessage::Delete { table_id, partition, hash }),
        request matches ApiRequest::GetPartition { table_id, partition } ==> r == Ok::<
            ShardMessage,
            ApiResponse,
        >(ShardMessage::GetPartition { table_id, partition }),
        request matches ApiRequest::DeletePartition { table_id, partition } ==> r == Ok::<
            ShardMessage,
            ApiResponse,
        >(ShardMessage::DeletePartition { table_id, partition }),
{
    match request {
        ApiRequest::GetSize => Ok(ShardMessage::GetSize),
        ApiRequest::Upsert { table_id, partition, hash, data } => Ok(
            ShardMessage::Upsert { table_id, partition, hash, data },
        ),
        ApiRequest::GetRecord { table_id, partition, hash } => Ok(
            ShardMessage::Get { table_id, partition, hash },
        ),
        ApiRequest::DeleteRecord { table_id, partition, hash } => Ok(
            ShardMessage::Delete { table_id, partition, hash },
        ),
        ApiRequest::GetPartition { table_id, partition } => Ok(
            ShardMessage::GetPartition { table_id, partition },
        ),
        ApiRequest::DeletePartition { table_id, partition } => Ok(
            ShardMessage::DeletePartition { table_id, partition },
        ),
        ApiRequest::GetRange { table_id, lower_bound, upper_bound } => {
            if lower_bound >= upper_bound {
                return Err(
                    ApiResponse { status: BAD_REQUEST, body: Body::Error(ErrorMessage::InvalidRange) },
                );
            }
            Ok(ShardMessage::GetRange { table_id, upper_bound, lower_bound })
        },
    }
}

/// The answer to a request, given what the shard replied: 204 for an upsert,
/// the record or 404 for a read of one record, the records for a collection
/// read, the count for a delete, the size for a size read, and 500 for any
/// failure.
pub fn respond(outcome: Result<ShardReply, ShardFailure>) -> (r: ApiResponse)
    ensures
        r == respond_spec(outcome),
        outcome matches Ok(ShardReply::Deleted(n)) ==> r == (ApiResponse {
            status: OK,
            body: Body::Deleted(n),
        }),
        outcome matches Ok(ShardReply::Size(n)) ==> r == (ApiResponse {
            status: OK,
            body: Body::Size(n),
        }),
        outcome matches Ok(ShardReply::Record(Some(record))) ==> r == (ApiResponse {
            status: OK,
            body: Body::Record(record),
        }),
        outcome matches Ok(ShardReply::Records(records)) ==> r == (ApiResponse {
            status: OK,
            body: Body::Records(records),
        }),
{
    match outcome {
        Err(_) => internal_error(),
        Ok(ShardReply::Size(n)) => ApiResponse { status: OK, body: Body::Size(n) },
        Ok(ShardReply::Upserted) => ApiResponse { status: NO_CONTENT, body: Body::Empty },
        Ok(ShardReply::Record(Some(record))) => ApiResponse {
            status: OK,
            body: Body::Record(record),
        },
        Ok(ShardReply::Record(None)) => ApiResponse {
            status: NOT_FOUND,
            body: Body::Error(ErrorMessage::RecordNotFound),
        },
        Ok(ShardReply::Deleted(n)) => ApiResponse { status: OK, body: Body::Deleted(n) },
        Ok(ShardReply::Records(records)) => ApiResponse {
            status: OK,
            body: Body::Records(records),
        },
    }
}

/// Only an inverted or empty range is refused before the shard; every other
/// request reaches it with its keys and payload unchanged.
pub proof fn lemma_only_bad_ranges_refused(request: ApiRequest)
    ensures
        dispatch_spec(request) is Err <==> (request matches ApiRequest::GetRange {
            lower_bound,
            upper_bound,
            ..
        } && lower_bound >= upper_bound),
        dispatch_spec(request) matches Err(response) ==> response.status == BAD_REQUEST,
{
}

/// Every shard failure is answered 500, and every success with a 2xx status,
/// or 404 for a missing record.
pub proof fn lemma_status_classes(outcome: Result<ShardReply, ShardFailure>)
    ensures
        outcome is Err <==> respond_spec(outcome).status == INTERNAL_SERVER_ERROR,
        respond_spec(outcome).status == NOT_FOUND <==> outcome == Ok::<ShardReply, ShardFailure>(
            ShardReply::Record(None),
        ),
        outcome is Ok && outcome != Ok::<ShardReply, ShardFailure>(ShardReply::Record(None)) ==> 200
            <= respond_spec(outcome).status < 300,
{
}

/// A range read keeps its bounds apart from the client to the shard: the
/// client's URL names the lower bound as `lower_bound` and the upper one as
/// `upper_bound`, the API turns that request into a range message with the
/// same bounds, and the shard reads the partitions strictly above the lower
/// bound and strictly below the upper one.
pub proof fn lemma_range_bounds_reach_shard(
    url: Seq<char>,
    table_id: i64,
    upper_bound: i64,
    lower_bound: i64,
)
    requires
        lower_bound < upper_bound,
    ensures
        client::range_url_text(url, table_id as int, upper_bound as int, lower_bound as int)
            == crate::text::without_trailing_slashes(url) + "/tables/"@ + crate::text::decimal_text(
            table_id as int,
        ) + "/range?lower_bound="@ + crate::text::decimal_text(lower_bound as int)
            + "&upper_bound="@ + crate::text::decimal_text(upper_bound as int),
        dispatch_spec(ApiRequest::GetRange { table_id, lower_bound, upper_bound }) == Ok::<
            ShardMessage,
            ApiResponse,
        >(ShardMessage::GetRange { table_id, upper_bound, lower_bound }),
        shard::query_for(ShardMessage::GetRange { table_id, upper_bound, lower_bound })
            == (shard::Query::FindBetween { table_id, after: lower_bound, before: upper_bound }),
{
}

/// A request that names one record reaches the shard as work on exactly that
/// record: a read or delete selects the named key and no other, and an upsert
/// writes the named key with the payload as sent, at version 1 for a new
/// record and one more than the stored version otherwise.
pub proof fn lemma_record_requests_keep_their_key(
    table_id: i64,
    partition: i64,
    hash: i64,
    data: serde_json::Value,
    other: (int, int, int),
)
    ensures
        dispatch_spec(ApiRequest::GetRecord { table_id, partition, hash }) matches Ok(msg) && (
        shard::selects(shard::query_for(msg), other.0, other.1, other.2) <==> other == (
            table_id as int,
            partition as int,
            hash as int,
        )),
        dispatch_spec(ApiRequest::DeleteRecord { table_id, partition, hash }) matches Ok(msg) && (
        shard::selects(shard::query_for(msg), other.0, other.1, other.2) <==> other == (
            table_id as int,
            partition as int,
            hash as int,
        )),
        dispatch_spec(ApiRequest::Upsert { table_id, partition, hash, data }) matches Ok(msg)
            && shard::query_for(msg) matches shard::Query::InsertOrBump { row, version_step } && row
            == (crate::data::Model { table_id, partition, hash, data, version: 1 }) && version_step
            == 1,
{
}

/// A request that names a partition reaches the shard as work on exactly
/// that partition of that table.
pub proof fn lemma_partition_requests_keep_their_key(
    table_id: i64,
    partition: i64,
    other: (int, int, int),
)
    ensures
        dispatch_spec(ApiRequest::GetPartition { table_id, partition }) matches Ok(msg) && (
        shard::selects(shard::query_for(msg), other.0, other.1, other.2) <==> (other.0
            == table_id && other.1 == partition)),
        dispatch_spec(ApiRequest::DeletePartition { table_id, partition }) matches Ok(msg) && (
        shard::selects(shard::query_for(msg), other.0, other.1, other.2) <==> (other.0
            == table_id && other.1 == partition)),
{
}

/// What the shard answers is what the client gets: a count of deleted rows,
/// a size, a record or a list of records reaches the body unchanged, with
/// status 200.
pub proof fn lemma_replies_reach_the_body(
    count: u64,
    record: Model,
    records: Vec<Model>,
)
    ensures
        respond_spec(Ok(ShardReply::Deleted(count))).status == OK,
        respond_spec(Ok(ShardReply::Deleted(count))).body == Body::Deleted(count),
        respond_spec(Ok(ShardReply::Size(count))).status == OK,
        respond_spec(Ok(ShardReply::Size(count))).body == Body::Size(count),
        respond_spec(Ok(ShardReply::Record(Some(record)))).status == OK,
        respond_spec(Ok(ShardReply::Record(Some(record)))).body == Body::Record(record),
        respond_spec(Ok(ShardReply::Records(records))).status == OK,
        respond_spec(Ok(ShardReply::Records(records))).body == Body::Records(records),
{
}

/// Two deletes with different counts are answered with different bodies: the
/// answer tells the client how many rows went.
pub proof fn lemma_deleted_counts_distinguished(a: u64, b: u64)
    requires
        a != b,
    ensures
        respond_spec(Ok(ShardReply::Deleted(a))) != respond_spec(Ok(ShardReply::Deleted(b))),
{
    assert(respond_spec(Ok(ShardReply::Deleted(a))).body == Body::Deleted(a));
    assert(respond_spec(Ok(ShardReply::Deleted(b))).body == Body::Deleted(b));
}

} // verus!
