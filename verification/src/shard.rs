//! The operations of one shard and the database work that answers each.
//! The shard serializes its database access: one message is answered at a time.
use vstd::prelude::*;

use crate::data::Model;

verus! {

/// A request to the shard, one variant per operation.
#[derive(Debug, PartialEq)]
pub enum ShardMessage {
    /// The main database file's length in bytes, without the WAL and SHM files.
    GetSize,
    /// Creates the record at version 1, or replaces its data and bumps its version.
    Upsert { table_id: i64, partition: i64, hash: i64, data: serde_json::Value },
    /// Reads one record.
    Get { table_id: i64, partition: i64, hash: i64 },
    /// Deletes one record; the reply counts the deleted rows.
    Delete { table_id: i64, partition: i64, hash: i64 },
    /// Deletes every record of a partition; the reply counts the deleted rows.
    DeletePartition { table_id: i64, partition: i64 },
    /// Reads every record of a partition.
    GetPartition { table_id: i64, partition: i64 },
    /// Reads the partitions strictly between the two bounds.
    GetRange { table_id: i64, upper_bound: i64, lower_bound: i64 },
}

/// The shard's answer to a message that succeeded.
#[derive(Debug, PartialEq)]
pub enum ShardReply {
    Size(u64),
    Upserted,
    Record(Option<Model>),
    Deleted(u64),
    Records(Vec<Model>),
}

/// The database work that answers one message.
#[derive(Debug, PartialEq)]
pub enum Query {
    /// Reads the length of the main database file.
    FileSize,
    /// Inserts `row`; where a row with the same key exists, replaces its data
    /// and adds `version_step` to its version instead, in one statement.
    InsertOrBump { row: Model, version_step: i64 },
    /// Finds the row with this key.
    FindByKey { table_id: i64, partition: i64, hash: i64 },
    /// Deletes the row with this key and counts the deleted rows.
    DeleteByKey { table_id: i64, partition: i64, hash: i64 },
    /// Deletes the rows of one partition of one table and counts them.
    DeleteWhere { table_id: i64, partition: i64 },
    /// Finds the rows of one partition of one table, in ascending hash order.
    FindPartition { table_id: i64, partition: i64 },
    /// Finds the rows of one table whose partition lies strictly between
    /// `after` and `before`, in ascending (partition, hash) order.
    FindBetween { table_id: i64, after: i64, before: i64 },
}

/// The version of a record that did not exist before its upsert.
pub open spec fn first_version() -> int {
    1
}

/// What an upsert adds to the version of a record that exists.
pub open spec fn version_step() -> int {
    1
}

/// The database work that answers `msg`.
pub open spec fn query_for(msg: ShardMessage) -> Query {
    match msg {
        ShardMessage::GetSize => Query::FileSize,
        ShardMessage::Upsert { table_id, partition, hash, data } => Query::InsertOrBump {
            row: Model { table_id, partition, hash, data, version: first_version() as i64 },
            version_step: version_step() as i64,
        },
        ShardMessage::Get { table_id, partition, hash } => Query::FindByKey {
            table_id,
            partition,
            hash,
        },
        ShardMessage::Delete { table_id, partition, hash } => Query::DeleteByKey {
            table_id,
            partition,
            hash,
        },
        ShardMessage::DeletePartition { table_id, partition } => Query::DeleteWhere {
            table_id,
            partition,
        },
        ShardMessage::GetPartition { table_id, partition } => Query::FindPartition {
            table_id,
            partition,
        },
        ShardMessage::GetRange { table_id, upper_bound, lower_bound } => Query::FindBetween {
            table_id,
            after: lower_bound,
            before: upper_bound,
        },
    }
}

/// Whether the rows that `query` reads or deletes include the row with this key.
pub open spec fn selects(query: Query, table_id: int, partition: int, hash: int) -> bool {
    match query {
        Query::FileSize => false,
        Query::InsertOrBump { .. } => false,
        Query::FindByKey { table_id: t, partition: p, hash: h } => table_id == t && partition == p
            && hash == h,
        Query::DeleteByKey { table_id: t, partition: p, hash: h } => table_id == t && partition
            == p && hash == h,
        Query::DeleteWhere { table_id: t, partition: p } => table_id == t && partition == p,
        Query::FindPartition { table_id: t, partition: p } => table_id == t && partition == p,
        Query::FindBetween { table_id: t, after, before } => table_id == t && after < partition
            && partition < before,
    }
}

/// The database work that answers `msg`.
pub fn plan(msg: ShardMessage) -> (query: Query)
    ensures
        query == query_for(msg),
{
    match msg {
        ShardMessage::GetSize => Query::FileSize,
        ShardMessage::Upsert { table_id, partition, hash, data } => Query::InsertOrBump {
            row: Model { table_id, partition, hash, data, version: 1 },
            version_step: 1,
        },
        ShardMessage::Get { table_id, partition, hash } => Query::FindByKey {
            table_id,
            partition,
            hash,
        },
        ShardMessage::Delete { table_id, partition, hash } => Query::DeleteByKey {
            table_id,
            partition,
            hash,
        },
        ShardMessage::DeletePartition { table_id, partition } => Query::DeleteWhere {
            table_id,
            partition,
        },
        ShardMessage::GetPartition { table_id, partition } => Query::FindPartition {
            table_id,
            partition,
        },
        ShardMessage::GetRange { table_id, upper_bound, lower_bound } => Query::FindBetween {
            table_id,
            after: lower_bound,
            before: upper_bound,
        },
    }
}

/// Reads and deletes touch only the requested table, and a range read
/// excludes both of its bounds.
pub proof fn lemma_reads_are_scoped(msg: ShardMessage, table_id: int, partition: int, hash: int)
    requires
        selects(query_for(msg), table_id, partition, hash),
    ensures
        match msg {
            ShardMessage::GetSize => false,
            ShardMessage::Upsert { .. } => false,
            ShardMessage::Get { table_id: t, partition: p, hash: h } => table_id == t && partition
                == p && hash == h,
            ShardMessage::Delete { table_id: t, partition: p, hash: h } => table_id == t
                && partition == p && hash == h,
            ShardMessage::DeletePartition { table_id: t, partition: p } => table_id == t
                && partition == p,
            ShardMessage::GetPartition { table_id: t, partition: p } => table_id == t && partition
                == p,
            ShardMessage::GetRange { table_id: t, upper_bound, lower_bound } => table_id == t
                && lower_bound < partition < upper_bound,
        },
{
}

/// A shard's table as a map from `(table_id, partition, hash)` to the stored
/// payload and version.
pub type Table = Map<(int, int, int), (serde_json::Value, int)>;

/// The table after `query` ran on `table`, as the query's description above
/// says: an insert-or-bump creates the row with its own version or replaces the
/// data and adds the step to the stored version; deletes remove the rows they
/// select; reads change nothing.
pub open spec fn table_after(query: Query, table: Table) -> Table {
    match query {
        Query::InsertOrBump { row, version_step } => {
            let key = (row.table_id as int, row.partition as int, row.hash as int);
            if table.contains_key(key) {
                table.insert(key, (row.data, table[key].1 + version_step))
            } else {
                table.insert(key, (row.data, row.version as int))
            }
        },
        Query::DeleteByKey { .. } | Query::DeleteWhere { .. } => Map::new(
            |key: (int, int, int)| table.contains_key(key) && !selects(query, key.0, key.1, key.2),
            |key: (int, int, int)| table[key],
        ),
        _ => table,
    }
}

/// The row of `table` with this key, as a record, if there is one.
pub open spec fn row_at(table: Table, table_id: i64, partition: i64, hash: i64) -> Option<Model> {
    let key = (table_id as int, partition as int, hash as int);
    if table.contains_key(key) {
        Some(
            Model { table_id, partition, hash, data: table[key].0, version: table[key].1 as i64 },
        )
    } else {
        None
    }
}

/// The key of a record, as the table indexes it.
pub open spec fn key_of(record: Model) -> (int, int, int) {
    (record.table_id as int, record.partition as int, record.hash as int)
}

/// Whether `a` comes before `b` in (partition, hash) order.
pub open spec fn comes_before(a: Model, b: Model) -> bool {
    a.partition < b.partition || (a.partition == b.partition && a.hash < b.hash)
}

/// The keys of `table` that `query` reads or deletes.
pub open spec fn selected_keys(query: Query, table: Table) -> Set<(int, int, int)> {
    table.dom().filter(|key: (int, int, int)| selects(query, key.0, key.1, key.2))
}

/// Whether `rows` lists the rows of `table` that `query` selects: each of them
/// once, as stored, in ascending (partition, hash) order, and nothing else.
pub open spec fn lists_selected(query: Query, table: Table, rows: Seq<Model>) -> bool {
    &&& forall|i: int|
        0 <= i < rows.len() ==> selects(query, key_of(#[trigger] rows[i]).0, key_of(rows[i]).1,
            key_of(rows[i]).2) && row_at(table, rows[i].table_id, rows[i].partition, rows[i].hash)
            == Some(rows[i])
    &&& forall|key: (int, int, int)| #[trigger]
        selected_keys(query, table).contains(key) ==> exists|i: int|
            0 <= i < rows.len() && key_of(#[trigger] rows[i]) == key
    &&& forall|i: int, j: int|
        0 <= i < j < rows.len() ==> comes_before(#[trigger] rows[i], #[trigger] rows[j])
}

/// Whether `reply` is what the shard answers to `query` run on `table`: an
/// upsert answers that it is done, a key read the row if there is one, a
/// collection read the selected rows in ascending (partition, hash) order,
/// and a delete the number of rows it removed.
pub open spec fn answers(query: Query, table: Table, reply: ShardReply) -> bool {
    match query {
        Query::FileSize => reply is Size,
        Query::InsertOrBump { .. } => reply == ShardReply::Upserted,
        Query::FindByKey { table_id, partition, hash } => reply == ShardReply::Record(
            row_at(table, table_id, partition, hash),
        ),
        Query::DeleteByKey { .. } | Query::DeleteWhere { .. } => reply matches ShardReply::Deleted(
            count,
        ) && count == selected_keys(query, table).len(),
        Query::FindPartition { .. } | Query::FindBetween { .. } => reply matches ShardReply::Records(
            rows,
        ) && lists_selected(query, table, rows@),
    }
}

/// A partition read lists the records of that partition of that table only,
/// each as stored, in strictly ascending hash order; a range read lists the
/// records of that table strictly between the bounds, in strictly ascending
/// (partition, hash) order, and nothing where the lower bound is not below
/// the upper one. Neither read changes the table.
pub proof fn lemma_collection_reads(msg: ShardMessage, table: Table, rows: Vec<Model>)
    requires
        msg is GetPartition || msg is GetRange,
        answers(query_for(msg), table, ShardReply::Records(rows)),
    ensures
        table_after(query_for(msg), table) == table,
        forall|i: int|
            0 <= i < rows@.len() ==> row_at(
                table,
                #[trigger] rows@[i].table_id,
                rows@[i].partition,
                rows@[i].hash,
            ) == Some(rows@[i]),
        msg matches ShardMessage::GetPartition { table_id, partition } ==> {
            &&& forall|i: int|
                0 <= i < rows@.len() ==> #[trigger] rows@[i].table_id == table_id && rows@[i].partition
                    == partition
            &&& forall|i: int, j: int|
                0 <= i < j < rows@.len() ==> #[trigger] rows@[i].hash < #[trigger] rows@[j].hash
        },
        msg matches ShardMessage::GetRange { table_id, upper_bound, lower_bound } ==> {
            &&& forall|i: int|
                0 <= i < rows@.len() ==> #[trigger] rows@[i].table_id == table_id && lower_bound
                    < rows@[i].partition < upper_bound
            &&& forall|i: int, j: int|
                0 <= i < j < rows@.len() ==> comes_before(#[trigger] rows@[i], #[trigger] rows@[j])
            &&& lower_bound >= upper_bound ==> rows@.len() == 0
        },
{
    assert forall|i: int| 0 <= i < rows@.len() implies row_at(
        table,
        #[trigger] rows@[i].table_id,
        rows@[i].partition,
        rows@[i].hash,
    ) == Some(rows@[i]) by {
        assert(selects(query_for(msg), key_of(rows@[i]).0, key_of(rows@[i]).1, key_of(rows@[i]).2));
    }
    match msg {
        ShardMessage::GetPartition { table_id, partition } => {
            assert forall|i: int, j: int| 0 <= i < j < rows@.len() implies #[trigger] rows@[i].hash
                < #[trigger] rows@[j].hash by {
                assert(comes_before(rows@[i], rows@[j]));
                assert(selects(query_for(msg), key_of(rows@[i]).0, key_of(rows@[i]).1, key_of(rows@[i]).2));
                assert(selects(query_for(msg), key_of(rows@[j]).0, key_of(rows@[j]).1, key_of(rows@[j]).2));
            }
            assert forall|i: int| 0 <= i < rows@.len() implies #[trigger] rows@[i].table_id == table_id
                && rows@[i].partition == partition by {
                assert(selects(query_for(msg), key_of(rows@[i]).0, key_of(rows@[i]).1, key_of(rows@[i]).2));
            }
        },
        ShardMessage::GetRange { table_id, upper_bound, lower_bound } => {
            assert forall|i: int| 0 <= i < rows@.len() implies #[trigger] rows@[i].table_id == table_id
                && lower_bound < rows@[i].partition < upper_bound by {
                assert(selects(query_for(msg), key_of(rows@[i]).0, key_of(rows@[i]).1, key_of(rows@[i]).2));
            }
            if lower_bound >= upper_bound && rows@.len() > 0 {
                assert(selects(query_for(msg), key_of(rows@[0]).0, key_of(rows@[0]).1, key_of(rows@[0]).2));
            }
        },
        _ => {},
    }
}

/// Deleting a record that is already gone removes nothing and answers 0.
pub proof fn lemma_repeated_delete(
    table: Table,
    table_id: i64,
    partition: i64,
    hash: i64,
    count: u64,
)
    ensures
        ({
            let query = query_for(ShardMessage::Delete { table_id, partition, hash });
            let once = table_after(query, table);
            &&& table_after(query, once) == once
            &&& answers(query, once, ShardReply::Deleted(count)) <==> count == 0
        }),
{
    let query = query_for(ShardMessage::Delete { table_id, partition, hash });
    let once = table_after(query, table);
    assert(table_after(query, once) =~= once);
    assert(selected_keys(query, once) =~= Set::<(int, int, int)>::empty());
}

/// A key read after an upsert answers the record as written: the payload sent,
/// at version 1 if it was new, else one above its old version.
pub proof fn lemma_read_after_upsert(
    table: Table,
    table_id: i64,
    partition: i64,
    hash: i64,
    data: serde_json::Value,
    reply: ShardReply,
)
    requires
        row_at(table, table_id, partition, hash) matches Some(old_row) ==> old_row.version
            < i64::MAX && table[(table_id as int, partition as int, hash as int)].1 == old_row.version,
        answers(
            query_for(ShardMessage::Get { table_id, partition, hash }),
            table_after(query_for(ShardMessage::Upsert { table_id, partition, hash, data }), table),
            reply,
        ),
    ensures
        reply == ShardReply::Record(
            Some(
                Model {
                    table_id,
                    partition,
                    hash,
                    data,
                    version: match row_at(table, table_id, partition, hash) {
                        Some(old_row) => (old_row.version + 1) as i64,
                        None => 1,
                    },
                },
            ),
        ),
{
    lemma_upsert_then_get(table, table_id, partition, hash, data);
}

/// A record that did not exist is created at version 1 with the payload as
/// sent; upserting it again replaces the payload and adds 1 to the version;
/// reading it back gives what was written.
pub proof fn lemma_upsert_then_get(
    table: Table,
    table_id: i64,
    partition: i64,
    hash: i64,
    data: serde_json::Value,
)
    requires
        row_at(table, table_id, partition, hash) matches Some(old_row) ==> old_row.version
            < i64::MAX && table[(table_id as int, partition as int, hash as int)].1 == old_row.version,
    ensures
        row_at(
            table_after(query_for(ShardMessage::Upsert { table_id, partition, hash, data }), table),
            table_id,
            partition,
            hash,
        ) == Some(
            Model {
                table_id,
                partition,
                hash,
                data,
                version: match row_at(table, table_id, partition, hash) {
                    Some(old_row) => (old_row.version + 1) as i64,
                    None => 1,
                },
            },
        ),
{
}

/// After a record is deleted it is gone, and upserting it again starts over
/// at version 1.
pub proof fn lemma_delete_then_upsert_restarts(
    table: Table,
    table_id: i64,
    partition: i64,
    hash: i64,
    data: serde_json::Value,
)
    ensures
        ({
            let deleted = table_after(
                query_for(ShardMessage::Delete { table_id, partition, hash }),
                table,
            );
            &&& row_at(deleted, table_id, partition, hash) is None
            &&& row_at(
                table_after(
                    query_for(ShardMessage::Upsert { table_id, partition, hash, data }),
                    deleted,
                ),
                table_id,
                partition,
                hash,
            ) == Some(Model { table_id, partition, hash, data, version: 1 })
        }),
{
    let key = (table_id as int, partition as int, hash as int);
    let deleted = table_after(query_for(ShardMessage::Delete { table_id, partition, hash }), table);
    assert(!deleted.contains_key(key));
}

/// Writes and deletes leave the records of other keys, and of other tables,
/// as they were.
pub proof fn lemma_other_rows_unchanged(
    msg: ShardMessage,
    table: Table,
    key: (int, int, int),
)
    requires
        table.contains_key(key),
        !selects(query_for(msg), key.0, key.1, key.2),
        msg matches ShardMessage::Upsert { table_id, partition, hash, .. } ==> key != (
            table_id as int,
            partition as int,
            hash as int,
        ),
    ensures
        table_after(query_for(msg), table).contains_key(key),
        table_after(query_for(msg), table)[key] == table[key],
{
}

} // verus!
