//! The record that a shard stores: three signed 64-bit keys, a JSON payload
//! that the store never reads, and a version that the store manages.
use vstd::prelude::*;

verus! {

/// A JSON document, carried through unchanged: nothing here reads inside it.
#[verifier::external_type_specification]
#[verifier::external_body]
pub struct ExJsonValue(serde_json::Value);

/// One stored record, keyed by `(table_id, partition, hash)`.
#[derive(Debug, PartialEq)]
pub struct Model {
    pub table_id: i64,
    pub partition: i64,
    pub hash: i64,
    pub data: serde_json::Value,
    pub version: i64,
}

} // verus!
