//! Calls that the control plane makes on a shard's HTTP API. Each method gives
//! the HTTP method and URL of one call for a node's base URL, such as
//! `http://127.0.0.1:3000`; trailing slashes on the base URL are ignored.
use vstd::prelude::*;

use crate::text;
use crate::text::{push_decimal, trim_trailing_slashes};

verus! {

/// The HTTP methods that shard calls use.
#[derive(Debug, Clone, Copy, PartialEq, Eq, Structural)]
pub enum HttpMethod {
    Get,
    Put,
    Delete,
}

/// One call on a shard: the HTTP method and the full URL.
#[derive(Debug, PartialEq, Eq)]
pub struct ShardCall {
    pub method: HttpMethod,
    pub url: String,
}

/// Static shard calls, addressed by the node's base URL.
pub struct Client;

/// The path of a partition below a node's base URL.
pub open spec fn partition_path(table_id: int, partition: int) -> Seq<char> {
    "/tables/"@ + text::decimal_text(table_id) + "/partitions/"@ + text::decimal_text(partition)
}

/// The URL of a partition of a table on the node at `url`.
pub open spec fn partition_url_text(url: Seq<char>, table_id: int, partition: int) -> Seq<char> {
    text::without_trailing_slashes(url) + partition_path(table_id, partition)
}

/// The URL of one record on the node at `url`.
pub open spec fn record_url_text(url: Seq<char>, table_id: int, partition: int, hash: int) -> Seq<
    char,
> {
    partition_url_text(url, table_id, partition) + "/records/"@ + text::decimal_text(hash)
}

/// The URL of the node's shard size.
pub open spec fn size_url_text(url: Seq<char>) -> Seq<char> {
    text::without_trailing_slashes(url) + "/shard/size"@
}

/// The URL of a range read: the partitions of a table strictly between the bounds.
pub open spec fn range_url_text(url: Seq<char>, table_id: int, upper_bound: int, lower_bound: int) -> Seq<
    char,
> {
    text::without_trailing_slashes(url) + "/tables/"@ + text::decimal_text(table_id) + "/range?lower_bound="@
        + text::decimal_text(lower_bound) + "&upper_bound="@ + text::decimal_text(upper_bound)
}

/// The URL of a partition of a table on the node at `url`.
pub fn partition_url(url: &str, table_id: i64, partition: i64) -> (s: String)
    ensures
        s@ == partition_url_text(url@, table_id as int, partition as int),
{
    let mut s = String::from_str(trim_trailing_slashes(url));
    s.append("/tables/");
    push_decimal(&mut s, table_id);
    s.append("/partitions/");
    push_decimal(&mut s, partition);
    assert(s@ =~= partition_url_text(url@, table_id as int, partition as int));
    s
}

/// The URL of one record on the node at `url`.
pub fn record_url(url: &str, table_id: i64, partition: i64, hash: i64) -> (s: String)
    ensures
        s@ == record_url_text(url@, table_id as int, partition as int, hash as int),
{
    let mut s = partition_url(url, table_id, partition);
    s.append("/records/");
    push_decimal(&mut s, hash);
    assert(s@ =~= record_url_text(url@, table_id as int, partition as int, hash as int));
    s
}

impl Client {
    /// Reads `{"size_bytes": N}`, the main SQLite file's length.
    pub fn get_size(url: &str) -> (call: ShardCall)
        ensures
            call.method == HttpMethod::Get,
            call.url@ == size_url_text(url@),
    {
        let mut s = String::from_str(trim_trailing_slashes(url));
        s.append("/shard/size");
        ShardCall { method: HttpMethod::Get, url: s }
    }

    /// Writes a record; the JSON payload is sent as the request body.
    pub fn upsert(url: &str, table_id: i64, partition: i64, hash: i64) -> (call: ShardCall)
        ensures
            call.method == HttpMethod::Put,
            call.url@ == record_url_text(url@, table_id as int, partition as int, hash as int),
    {
        ShardCall { method: HttpMethod::Put, url: record_url(url, table_id, partition, hash) }
    }

    /// Reads the full record, including its server-managed version.
    pub fn get(url: &str, table_id: i64, partition: i64, hash: i64) -> (call: ShardCall)
        ensures
            call.method == HttpMethod::Get,
            call.url@ == record_url_text(url@, table_id as int, partition as int, hash as int),
    {
        ShardCall { method: HttpMethod::Get, url: record_url(url, table_id, partition, hash) }
    }

    /// Deletes one record.
    pub fn delete(url: &str, table_id: i64, partition: i64, hash: i64) -> (call: ShardCall)
        ensures
            call.method == HttpMethod::Delete,
            call.url@ == record_url_text(url@, table_id as int, partition as int, hash as int),
    {
        ShardCall { method: HttpMethod::Delete, url: record_url(url, table_id, partition, hash) }
    }

    /// Reads every record of a partition.
    pub fn get_partition(url: &str, table_id: i64, partition: i64) -> (call: ShardCall)
        ensures
            call.method == HttpMethod::Get,
            call.url@ == partition_url_text(url@, table_id as int, partition as int),
    {
        ShardCall { method: HttpMethod::Get, url: partition_url(url, table_id, partition) }
    }

    /// Deletes every record of a partition.
    pub fn delete_partition(url: &str, table_id: i64, partition: i64) -> (call: ShardCall)
        ensures
            call.method == HttpMethod::Delete,
            call.url@ == partition_url_text(url@, table_id as int, partition as int),
    {
        ShardCall { method: HttpMethod::Delete, url: partition_url(url, table_id, partition) }
    }

    /// Reads the partitions strictly between the bounds. The upper bound comes
    /// before the lower one, as in the shard's own range read.
    pub fn get_range(url: &str, table_id: i64, upper_bound: i64, lower_bound: i64) -> (call:
        ShardCall)
        ensures
            call.method == HttpMethod::Get,
            call.url@ == range_url_text(
                url@,
                table_id as int,
                upper_bound as int,
                lower_bound as int,
            ),
    {
        let mut s = String::from_str(trim_trailing_slashes(url));
        s.append("/tables/");
        push_decimal(&mut s, table_id);
        s.append("/range?lower_bound=");
        push_decimal(&mut s, lower_bound);
        s.append("&upper_bound=");
        push_decimal(&mut s, upper_bound);
        assert(s@ =~= range_url_text(url@, table_id as int, upper_bound as int, lower_bound as int));
        ShardCall { method: HttpMethod::Get, url: s }
    }
}

/// A base URL with a trailing slash addresses the same calls as without it.
pub proof fn lemma_base_url_trailing_slash(
    url: Seq<char>,
    table_id: int,
    partition: int,
    hash: int,
    upper_bound: int,
    lower_bound: int,
)
    ensures
        size_url_text(url.push('/')) == size_url_text(url),
        partition_url_text(url.push('/'), table_id, partition) == partition_url_text(
            url,
            table_id,
            partition,
        ),
        record_url_text(url.push('/'), table_id, partition, hash) == record_url_text(
            url,
            table_id,
            partition,
            hash,
        ),
        range_url_text(url.push('/'), table_id, upper_bound, lower_bound) == range_url_text(
            url,
            table_id,
            upper_bound,
            lower_bound,
        ),
{
    text::lemma_trailing_slash_ignored(url);
}

proof fn lemma_cancel_prefix(p: Seq<char>, x: Seq<char>, y: Seq<char>)
    requires
        p + x == p + y,
    ensures
        x == y,
{
    assert(x =~= (p + x).subrange(p.len() as int, (p + x).len() as int));
    assert(y =~= (p + y).subrange(p.len() as int, (p + y).len() as int));
}

/// Where two slash-free texts are each followed by a text that starts with a
/// slash, equal concatenations split at the same place.
proof fn lemma_split_at_slash(a: Seq<char>, x: Seq<char>, b: Seq<char>, y: Seq<char>)
    requires
        forall|i: int| 0 <= i < a.len() ==> #[trigger] a[i] != '/',
        forall|i: int| 0 <= i < b.len() ==> #[trigger] b[i] != '/',
        x.len() > 0,
        x[0] == '/',
        y.len() > 0,
        y[0] == '/',
        a + x == b + y,
    ensures
        a == b,
        x == y,
{
    if a.len() < b.len() {
        assert((a + x)[a.len() as int] == x[0]);
        assert((b + y)[a.len() as int] == b[a.len() as int]);
    } else if b.len() < a.len() {
        assert((b + y)[b.len() as int] == y[0]);
        assert((a + x)[b.len() as int] == a[b.len() as int]);
    }
    assert(a =~= (a + x).subrange(0, a.len() as int));
    assert(b =~= (b + y).subrange(0, b.len() as int));
    assert(x =~= (a + x).subrange(a.len() as int, (a + x).len() as int));
    assert(y =~= (b + y).subrange(b.len() as int, (b + y).len() as int));
}

/// Distinct records of a node have distinct URLs: the URL determines the
/// table, the partition and the hash.
pub proof fn lemma_record_urls_distinct(
    url: Seq<char>,
    table_id1: int,
    partition1: int,
    hash1: int,
    table_id2: int,
    partition2: int,
    hash2: int,
)
    requires
        record_url_text(url, table_id1, partition1, hash1) == record_url_text(
            url,
            table_id2,
            partition2,
            hash2,
        ),
    ensures
        table_id1 == table_id2,
        partition1 == partition2,
        hash1 == hash2,
{
    reveal_strlit("/partitions/");
    reveal_strlit("/records/");
    let pre = text::without_trailing_slashes(url) + "/tables/"@;
    let sep_p = "/partitions/"@;
    let sep_r = "/records/"@;
    let (t1, p1, h1) = (text::decimal_text(table_id1), text::decimal_text(partition1), text::decimal_text(hash1));
    let (t2, p2, h2) = (text::decimal_text(table_id2), text::decimal_text(partition2), text::decimal_text(hash2));
    assert(record_url_text(url, table_id1, partition1, hash1) =~= pre + (t1 + (sep_p + (p1 + (
    sep_r + h1)))));
    assert(record_url_text(url, table_id2, partition2, hash2) =~= pre + (t2 + (sep_p + (p2 + (
    sep_r + h2)))));
    text::lemma_decimal_has_no_slash(table_id1);
    text::lemma_decimal_has_no_slash(table_id2);
    text::lemma_decimal_has_no_slash(partition1);
    text::lemma_decimal_has_no_slash(partition2);
    lemma_cancel_prefix(pre, t1 + (sep_p + (p1 + (sep_r + h1))), t2 + (sep_p + (p2 + (sep_r + h2))));
    lemma_split_at_slash(t1, sep_p + (p1 + (sep_r + h1)), t2, sep_p + (p2 + (sep_r + h2)));
    text::lemma_decimal_injective(table_id1, table_id2);
    lemma_cancel_prefix(sep_p, p1 + (sep_r + h1), p2 + (sep_r + h2));
    lemma_split_at_slash(p1, sep_r + h1, p2, sep_r + h2);
    text::lemma_decimal_injective(partition1, partition2);
    lemma_cancel_prefix(sep_r, h1, h2);
    text::lemma_decimal_injective(hash1, hash2);
}

/// Distinct partitions of a node have distinct URLs.
pub proof fn lemma_partition_urls_distinct(
    url: Seq<char>,
    table_id1: int,
    partition1: int,
    table_id2: int,
    partition2: int,
)
    requires
        partition_url_text(url, table_id1, partition1) == partition_url_text(
            url,
            table_id2,
            partition2,
        ),
    ensures
        table_id1 == table_id2,
        partition1 == partition2,
{
    reveal_strlit("/partitions/");
    let pre = text::without_trailing_slashes(url) + "/tables/"@;
    let sep_p = "/partitions/"@;
    let (t1, p1) = (text::decimal_text(table_id1), text::decimal_text(partition1));
    let (t2, p2) = (text::decimal_text(table_id2), text::decimal_text(partition2));
    assert(partition_url_text(url, table_id1, partition1) =~= pre + (t1 + (sep_p + p1)));
    assert(partition_url_text(url, table_id2, partition2) =~= pre + (t2 + (sep_p + p2)));
    text::lemma_decimal_has_no_slash(table_id1);
    text::lemma_decimal_has_no_slash(table_id2);
    lemma_cancel_prefix(pre, t1 + (sep_p + p1), t2 + (sep_p + p2));
    lemma_split_at_slash(t1, sep_p + p1, t2, sep_p + p2);
    text::lemma_decimal_injective(table_id1, table_id2);
    lemma_cancel_prefix(sep_p, p1, p2);
    text::lemma_decimal_injective(partition1, partition2);
}

} // verus!
