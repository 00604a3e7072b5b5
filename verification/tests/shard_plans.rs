use patchwork::data::Model;
use patchwork::shard::{plan, Query, ShardMessage};
use serde_json::Value;

#[test]
fn upsert_starts_at_one_and_bumps_by_one() {
    let data = Value::String("payload".to_string());
    assert_eq!(
        plan(ShardMessage::Upsert { table_id: 1, partition: 10, hash: -42, data: data.clone() }),
        Query::InsertOrBump {
            row: Model { table_id: 1, partition: 10, hash: -42, data, version: 1 },
            version_step: 1,
        }
    );
}

#[test]
fn range_bounds_are_exclusive_and_in_order() {
    assert_eq!(
        plan(ShardMessage::GetRange { table_id: 1, upper_bound: 11, lower_bound: 9 }),
        Query::FindBetween { table_id: 1, after: 9, before: 11 }
    );
}

#[test]
fn reads_and_deletes_are_keyed() {
    assert_eq!(
        plan(ShardMessage::Get { table_id: 1, partition: 10, hash: -1 }),
        Query::FindByKey { table_id: 1, partition: 10, hash: -1 }
    );
    assert_eq!(
        plan(ShardMessage::Delete { table_id: 1, partition: 10, hash: -1 }),
        Query::DeleteByKey { table_id: 1, partition: 10, hash: -1 }
    );
    assert_eq!(
        plan(ShardMessage::DeletePartition { table_id: 1, partition: 10 }),
        Query::DeleteWhere { table_id: 1, partition: 10 }
    );
    assert_eq!(
        plan(ShardMessage::GetPartition { table_id: 2, partition: 10 }),
        Query::FindPartition { table_id: 2, partition: 10 }
    );
    assert_eq!(plan(ShardMessage::GetSize), Query::FileSize);
}
