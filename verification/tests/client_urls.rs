use patchwork::client::{partition_url, record_url, Client, HttpMethod};
use patchwork::text::{decimal, trim_trailing_slashes};

#[test]
fn decimal_matches_to_string() {
    for x in [0i64, 7, 10, 42, -42, 1234567890, i64::MAX, i64::MIN, -1] {
        assert_eq!(decimal(x), x.to_string());
    }
}

#[test]
fn trailing_slashes_are_trimmed() {
    assert_eq!(trim_trailing_slashes("http://x:3000///"), "http://x:3000");
    assert_eq!(trim_trailing_slashes("http://x:3000"), "http://x:3000");
    assert_eq!(trim_trailing_slashes("///"), "");
    assert_eq!(trim_trailing_slashes(""), "");
}

#[test]
fn record_and_partition_urls() {
    assert_eq!(
        partition_url("http://127.0.0.1:3000/", 1, 10),
        "http://127.0.0.1:3000/tables/1/partitions/10"
    );
    assert_eq!(
        record_url("http://127.0.0.1:3000", 1, 10, -42),
        "http://127.0.0.1:3000/tables/1/partitions/10/records/-42"
    );
}

#[test]
fn client_calls_carry_method_and_url() {
    let url = "http://127.0.0.1:3000/";
    let size = Client::get_size(url);
    assert_eq!(size.method, HttpMethod::Get);
    assert_eq!(size.url, "http://127.0.0.1:3000/shard/size");
    let put = Client::upsert(url, 1, 10, -42);
    assert_eq!(put.method, HttpMethod::Put);
    assert_eq!(put.url, "http://127.0.0.1:3000/tables/1/partitions/10/records/-42");
    let range = Client::get_range(url, 1, 11, 9);
    assert_eq!(range.method, HttpMethod::Get);
    assert_eq!(
        range.url,
        "http://127.0.0.1:3000/tables/1/range?lower_bound=9&upper_bound=11"
    );
    assert_eq!(Client::delete_partition(url, 1, 10).method, HttpMethod::Delete);
}

#[test]
fn trailing_slash_on_base_url_is_ignored() {
    assert_eq!(Client::get(" http://h", 1, 2, 3).url, Client::get(" http://h/", 1, 2, 3).url);
    assert_eq!(Client::get_size("http://h//").url, Client::get_size("http://h").url);
}

#[test]
fn distinct_records_get_distinct_urls() {
    let a = record_url("http://h", 1, 23, 4);
    let b = record_url("http://h", 12, 3, 4);
    let c = record_url("http://h", 1, 2, 34);
    assert_ne!(a, b);
    assert_ne!(a, c);
    assert_ne!(b, c);
}
