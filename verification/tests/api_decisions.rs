use patchwork::api::{
    dispatch, internal_error, respond, ApiRequest, ApiResponse, Body, ErrorMessage, ShardFailure,
};
use patchwork::data::Model;
use patchwork::shard::{ShardMessage, ShardReply};
use serde_json::Value;

fn record(hash: i64, version: i64) -> Model {
    Model {
        table_id: 1,
        partition: 10,
        hash,
        data: Value::String("original".to_string()),
        version,
    }
}

fn failure() -> ShardFailure {
    ShardFailure { message: "disk I/O error".to_string() }
}

#[test]
fn ranges_are_checked_before_the_shard() {
    assert_eq!(
        dispatch(ApiRequest::GetRange { table_id: 1, lower_bound: 9, upper_bound: 20 }),
        Ok(ShardMessage::GetRange { table_id: 1, upper_bound: 20, lower_bound: 9 })
    );
    assert_eq!(
        dispatch(ApiRequest::GetRange { table_id: 1, lower_bound: 10, upper_bound: 20 }),
        Ok(ShardMessage::GetRange { table_id: 1, upper_bound: 20, lower_bound: 10 })
    );
    let refused = ApiResponse { status: 400, body: Body::Error(ErrorMessage::InvalidRange) };
    assert_eq!(
        dispatch(ApiRequest::GetRange { table_id: 1, lower_bound: 20, upper_bound: 10 }),
        Err(refused)
    );
    assert_eq!(
        dispatch(ApiRequest::GetRange { table_id: 1, lower_bound: 10, upper_bound: 10 }),
        Err(ApiResponse { status: 400, body: Body::Error(ErrorMessage::InvalidRange) })
    );
}

#[test]
fn requests_reach_the_shard_unchanged() {
    let data = Value::String("updated".to_string());
    assert_eq!(
        dispatch(ApiRequest::Upsert { table_id: 1, partition: 10, hash: -1, data: data.clone() }),
        Ok(ShardMessage::Upsert { table_id: 1, partition: 10, hash: -1, data })
    );
    assert_eq!(
        dispatch(ApiRequest::GetRecord { table_id: 2, partition: 10, hash: -1 }),
        Ok(ShardMessage::Get { table_id: 2, partition: 10, hash: -1 })
    );
    assert_eq!(
        dispatch(ApiRequest::DeleteRecord { table_id: 1, partition: 10, hash: -1 }),
        Ok(ShardMessage::Delete { table_id: 1, partition: 10, hash: -1 })
    );
    assert_eq!(
        dispatch(ApiRequest::GetPartition { table_id: 1, partition: 20 }),
        Ok(ShardMessage::GetPartition { table_id: 1, partition: 20 })
    );
    assert_eq!(
        dispatch(ApiRequest::DeletePartition { table_id: 1, partition: 10 }),
        Ok(ShardMessage::DeletePartition { table_id: 1, partition: 10 })
    );
    assert_eq!(dispatch(ApiRequest::GetSize), Ok(ShardMessage::GetSize));
}

#[test]
fn replies_map_to_statuses_and_bodies() {
    assert_eq!(
        respond(Ok(ShardReply::Upserted)),
        ApiResponse { status: 204, body: Body::Empty }
    );
    assert_eq!(
        respond(Ok(ShardReply::Record(Some(record(-1, 2))))),
        ApiResponse { status: 200, body: Body::Record(record(-1, 2)) }
    );
    assert_eq!(
        respond(Ok(ShardReply::Record(None))),
        ApiResponse { status: 404, body: Body::Error(ErrorMessage::RecordNotFound) }
    );
    assert_eq!(
        respond(Ok(ShardReply::Deleted(1))),
        ApiResponse { status: 200, body: Body::Deleted(1) }
    );
    assert_eq!(
        respond(Ok(ShardReply::Deleted(0))),
        ApiResponse { status: 200, body: Body::Deleted(0) }
    );
    assert_eq!(
        respond(Ok(ShardReply::Records(vec![record(-1, 1), record(2, 1)]))),
        ApiResponse { status: 200, body: Body::Records(vec![record(-1, 1), record(2, 1)]) }
    );
    assert_eq!(
        respond(Ok(ShardReply::Records(vec![]))),
        ApiResponse { status: 200, body: Body::Records(vec![]) }
    );
    assert_eq!(
        respond(Ok(ShardReply::Size(4096))),
        ApiResponse { status: 200, body: Body::Size(4096) }
    );
}

#[test]
fn failures_answer_500() {
    assert_eq!(respond(Err(failure())), internal_error());
    assert_eq!(
        internal_error(),
        ApiResponse { status: 500, body: Body::Error(ErrorMessage::ShardRequestFailed) }
    );
}

#[test]
fn error_texts() {
    assert_eq!(ErrorMessage::ShardRequestFailed.text(), "shard request failed");
    assert_eq!(ErrorMessage::RecordNotFound.text(), "record not found");
    assert_eq!(
        ErrorMessage::InvalidRange.text(),
        "lower_bound must be less than upper_bound"
    );
}
