use std::time::{SystemTime, UNIX_EPOCH};
use ynsrvcs::paths::FilePath;
use ynsrvcs::wasm::host::HostContext;
use ynsrvcs::wasm::kv::{database_opened, keyspace_opened, KvError, KvStore, Opening, MAX_KEY_LEN};
use ynsrvcs::wasm::limits::PluginConfig;

fn fresh_dir(tag: &str) -> String {
    let nanos = SystemTime::now().duration_since(UNIX_EPOCH).unwrap().as_nanos();
    format!("/tmp/ynsrvcs-{tag}-{nanos}")
}

fn opening(dir: &str) -> Opening {
    match fjall::Database::builder(dir).open() {
        Ok(database) => Opening::Opened(database),
        Err(e) => Opening::Failed(e),
    }
}

fn open(tag: &str) -> KvStore {
    KvStore::with_path(opening(&fresh_dir(tag))).unwrap()
}

fn put(kv: &mut KvStore, scope: &str, key: &str, value: &[u8]) {
    kv.set(scope.to_string(), key.to_string(), value.to_vec()).unwrap();
}

fn host(kv: bool) -> HostContext {
    let mut config = PluginConfig::default();
    config.permissions.kv = kv;
    HostContext::new(reqwest::Client::new(), FilePath::new("w".to_string()), config)
}

#[test]
fn a_read_gives_back_what_was_written() {
    let mut kv = open("read");
    assert_eq!(kv.get("s", "k").unwrap(), None);
    put(&mut kv, "s", "k", b"one");
    assert_eq!(kv.get("s", "k").unwrap(), Some(b"one".to_vec()));
    put(&mut kv, "s", "k", b"two");
    assert_eq!(kv.get("s", "k").unwrap(), Some(b"two".to_vec()));
    put(&mut kv, "s", "k", b"");
    assert_eq!(kv.get("s", "k").unwrap(), Some(vec![]));
    assert!(kv.save().is_ok());
}

#[test]
fn scopes_and_keys_are_kept_apart() {
    let mut kv = open("apart");
    put(&mut kv, "a", "bc", b"1");
    put(&mut kv, "ab", "c", b"2");
    assert_eq!(kv.get("a", "bc").unwrap(), Some(b"1".to_vec()));
    assert_eq!(kv.get("ab", "c").unwrap(), Some(b"2".to_vec()));
    assert_eq!(kv.get("abc", "").unwrap(), None);
}

#[test]
fn what_was_saved_is_there_after_reopening() {
    let dir = fresh_dir("reopen");
    {
        let mut kv = KvStore::with_path(opening(&dir)).unwrap();
        put(&mut kv, "s", "k", b"kept");
        kv.save().unwrap();
    }
    let database = fjall::Database::builder(&dir).open().unwrap();
    let kv = KvStore::new(database).unwrap();
    assert_eq!(kv.get("s", "k").unwrap(), Some(b"kept".to_vec()));
}

#[test]
fn keys_have_a_greatest_length() {
    let mut kv = open("long");
    let longest = "k".repeat(MAX_KEY_LEN - 2);
    put(&mut kv, "s", &longest, b"v");
    assert_eq!(kv.get("s", &longest).unwrap(), Some(b"v".to_vec()));
    let too_long = "k".repeat(MAX_KEY_LEN - 1);
    assert!(matches!(kv.get("s", &too_long), Err(KvError::KeyTooLong)));
    let refused = kv.set("s".to_string(), too_long, vec![]);
    assert!(matches!(refused, Err(KvError::KeyTooLong)));
}

#[test]
fn a_store_cannot_be_opened_twice() {
    let dir = fresh_dir("twice");
    let _first = KvStore::with_path(opening(&dir)).unwrap();
    assert!(matches!(KvStore::with_path(opening(&dir)), Err(KvError::Open(_))));
}

#[test]
fn a_plugin_without_permission_finds_the_store_empty() {
    let mut kv = open("permission");
    put(&mut kv, "s", "k", b"old");
    let refused = host(false);
    assert_eq!(refused.kv_get(&kv, "s".to_string(), "k".to_string()).unwrap(), None);
    refused.kv_set(&mut kv, "s".to_string(), "k".to_string(), b"new".to_vec()).unwrap();
    assert_eq!(kv.get("s", "k").unwrap(), Some(b"old".to_vec()));
    let granted = host(true);
    granted.kv_set(&mut kv, "s".to_string(), "k".to_string(), b"new".to_vec()).unwrap();
    assert_eq!(
        granted.kv_get(&kv, "s".to_string(), "k".to_string()).unwrap(),
        Some(b"new".to_vec())
    );
}

#[test]
fn a_failure_to_open_names_what_failed() {
    let refused = database_opened(Opening::Failed(fjall::Error::Poisoned));
    assert!(matches!(refused, Err(KvError::Open(fjall::Error::Poisoned))));
    let refused = KvStore::with_path(Opening::Failed(fjall::Error::Poisoned));
    assert!(matches!(refused, Err(KvError::Open(fjall::Error::Poisoned))));
    let refused = KvStore::with_path(Opening::NoDirectory("no room".to_string()));
    assert!(matches!(refused, Err(KvError::Directory(reason)) if reason == "no room"));
    let refused = keyspace_opened(Err(fjall::Error::KeyspaceDeleted));
    assert!(matches!(refused, Err(KvError::Keyspace(fjall::Error::KeyspaceDeleted))));
}

#[test]
fn stores_at_different_paths_are_different() {
    let mut one = open("one");
    let two = open("two");
    put(&mut one, "s", "k", b"v");
    assert_eq!(two.get("s", "k").unwrap(), None);
}

#[test]
fn saving_changes_nothing_that_is_stored() {
    let mut kv = open("saving");
    put(&mut kv, "s", "k", b"v");
    kv.save().unwrap();
    assert_eq!(kv.get("s", "k").unwrap(), Some(b"v".to_vec()));
    put(&mut kv, "s", "k", b"w");
    assert_eq!(kv.get("s", "k").unwrap(), Some(b"w".to_vec()));
}
