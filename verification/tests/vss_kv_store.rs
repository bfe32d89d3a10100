use rgb_lightning_node::io_error::IoErrorKind;
use rgb_lightning_node::vss_kv_store::{
    download_list_failed, list_failed, next_page, GetObjectResponse, KeyValue,
    ListKeyVersionsResponse, VssFailure, VssKvStore,
};

fn kv(key: &str, version: i64, value: &[u8]) -> KeyValue {
    KeyValue { key: key.to_string(), version, value: value.to_vec() }
}

fn failure(no_such_key: bool, message: &str) -> VssFailure {
    VssFailure { no_such_key, message: message.to_string() }
}

#[test]
fn read_records_version_and_maps_errors() {
    let mut store = VssKvStore::new("store".to_string());
    assert_eq!(store.store_id(), "store");
    let req = store.read_request("", "", "manager");
    assert_eq!(req.store_id, "store");
    assert_eq!(req.key, "_/_/manager");
    assert_eq!(store.get_cached_version("_/_/manager"), 0);
    let r = store.finish_read("_/_/manager", Ok(GetObjectResponse { value: Some(kv("_/_/manager", 7, &[1, 2])) }));
    assert_eq!(r, Ok(vec![1, 2]));
    assert_eq!(store.get_cached_version("_/_/manager"), 7);
    let r = store.finish_read("x", Ok(GetObjectResponse { value: None }));
    assert_eq!(r.unwrap_err().kind, IoErrorKind::NotFound);
    let r = store.finish_read("x", Err(failure(true, "no such key")));
    let e = r.unwrap_err();
    assert_eq!(e.kind, IoErrorKind::NotFound);
    assert_eq!(e.message, "Key not found");
    let r = store.finish_read("x", Err(failure(false, "boom")));
    let e = r.unwrap_err();
    assert_eq!(e.kind, IoErrorKind::Other);
    assert_eq!(e.message, "VSS read failed: boom");
}

#[test]
fn writes_are_unconditional_and_reset_version() {
    let mut store = VssKvStore::new("s".to_string());
    let req = store.write_request("a", "", "k", vec![4, 5]);
    assert_eq!(req.store_id, "s");
    assert_eq!(req.global_version, None);
    assert!(req.delete_items.is_empty());
    assert_eq!(req.transaction_items, vec![kv("a/_/k", -1, &[4, 5])]);
    assert_eq!(store.finish_write("a/_/k", Ok(())), Ok(()));
    assert_eq!(store.get_cached_version("a/_/k"), 1);
    let e = store.finish_write("a/_/k", Err(failure(false, "down"))).unwrap_err();
    assert_eq!(e.message, "VSS write failed: down");
    let req = store.remove_request("a", "", "k");
    assert!(req.transaction_items.is_empty());
    assert_eq!(req.delete_items, vec![kv("a/_/k", -1, &[])]);
    assert_eq!(store.finish_remove("a/_/k", Ok(())), Ok(()));
    assert_eq!(store.get_cached_version("a/_/k"), 0);
    let e = store.finish_remove("a/_/k", Err(failure(true, "gone"))).unwrap_err();
    assert_eq!(e.kind, IoErrorKind::Other);
    assert_eq!(e.message, "VSS remove failed: gone");
}

#[test]
fn list_pages_strip_prefix_and_continue() {
    let mut store = VssKvStore::new("s".to_string());
    let req = store.list_request(Some("m/_/".to_string()), None);
    assert_eq!(req.key_prefix.as_deref(), Some("m/_/"));
    assert_eq!(req.page_size, None);
    let mut keys = Vec::new();
    let page = ListKeyVersionsResponse {
        key_versions: vec![kv("m/_/a", 3, &[]), kv("other/_/b", 4, &[]), kv("m/_/c", 5, &[])],
        next_page_token: Some("t2".to_string()),
    };
    assert_eq!(store.list_page("m/_/", &mut keys, page), Some("t2".to_string()));
    assert_eq!(keys, vec!["a".to_string(), "c".to_string()]);
    assert_eq!(store.get_cached_version("m/_/c"), 5);
    assert_eq!(store.get_cached_version("other/_/b"), 0);
    let page = ListKeyVersionsResponse { key_versions: vec![], next_page_token: Some(String::new()) };
    assert_eq!(store.list_page("m/_/", &mut keys, page), None);
    assert_eq!(next_page(None), None);
    assert_eq!(list_failed(&failure(false, "x")).message, "VSS list failed: x");
    assert_eq!(download_list_failed(&failure(false, "y")).message, "VSS list_key_versions failed: y");
}

#[test]
fn download_collects_present_values() {
    let store = VssKvStore::new("s".to_string());
    assert_eq!(store.get_request("a/_/k").key, "a/_/k");
    let mut all = Vec::new();
    assert!(store.download_item(&mut all, Ok(GetObjectResponse { value: Some(kv("a/_/k", 2, &[1])) })).is_ok());
    assert!(store.download_item(&mut all, Ok(GetObjectResponse { value: None })).is_ok());
    assert!(store.download_item(&mut all, Err(failure(true, "gone"))).is_ok());
    assert_eq!(all, vec![("a/_/k".to_string(), vec![1])]);
    let e = store.download_item(&mut all, Err(failure(false, "down"))).unwrap_err();
    assert_eq!(e.message, "VSS get_object failed during download_all: down");
    assert_eq!(all.len(), 1);
}
