use fs_bridge::disk::MemDisk;
use fs_bridge::fs::handle;
use fs_bridge::fs::read_file;
use fs_bridge::fs::remove_file;
use fs_bridge::fs::write_file;
use fs_bridge::fs::FsRequest;
use fs_bridge::fs::FsResponse;
use fs_bridge::fs::Settlement;
use fs_bridge::registry::TokenRegistry;
use fs_bridge::store::ResponseStore;
use fs_bridge::values::Value;

#[test]
fn registry_allocates_distinct_handles() {
    let mut registry: TokenRegistry<u64> = TokenRegistry::new();
    let a = registry.register(100);
    let b = registry.register(200);
    let c = registry.register(300);
    assert!(a != b && b != c && a != c);
    assert_eq!(registry.pending_count(), 3);
}

#[test]
fn registry_hands_back_the_owning_promise() {
    let mut registry: TokenRegistry<u64> = TokenRegistry::new();
    let h = registry.register(42);
    assert!(registry.contains(h));
    assert_eq!(registry.take(h), Some(42));
    assert!(!registry.contains(h));
}

#[test]
fn registry_never_settles_a_handle_twice() {
    let mut registry: TokenRegistry<u64> = TokenRegistry::new();
    let h = registry.register(42);
    assert_eq!(registry.take(h), Some(42));
    assert_eq!(registry.take(h), None);
}

#[test]
fn registry_does_not_reuse_a_settled_handle() {
    let mut registry: TokenRegistry<u64> = TokenRegistry::new();
    let a = registry.register(1);
    registry.take(a);
    let b = registry.register(2);
    assert!(b != a);
}

#[test]
fn store_carries_a_response_across_and_only_once() {
    let mut store = ResponseStore::new();
    assert!(!store.contains(9));
    store.insert(9, FsResponse::Read("data".to_string()));
    assert!(store.contains(9));
    assert_eq!(store.take(9), Some(FsResponse::Read("data".to_string())));
    assert_eq!(store.take(9), None);
}

#[test]
fn disk_read_after_write_returns_the_written_content() {
    let mut disk = MemDisk::new();
    disk.write(&"a.txt".to_string(), &"hi".to_string());
    assert_eq!(disk.read(&"a.txt".to_string()), Ok("hi".to_string()));
}

#[test]
fn disk_write_replaces_previous_content() {
    let mut disk = MemDisk::new();
    disk.write(&"a.txt".to_string(), &"one".to_string());
    disk.write(&"a.txt".to_string(), &"two".to_string());
    assert_eq!(disk.read(&"a.txt".to_string()), Ok("two".to_string()));
}

#[test]
fn disk_write_leaves_other_paths_alone() {
    let mut disk = MemDisk::new();
    disk.write(&"a.txt".to_string(), &"aaa".to_string());
    disk.write(&"b.txt".to_string(), &"bbb".to_string());
    assert_eq!(disk.read(&"a.txt".to_string()), Ok("aaa".to_string()));
    assert_eq!(disk.read(&"b.txt".to_string()), Ok("bbb".to_string()));
}

#[test]
fn disk_read_after_remove_fails() {
    let mut disk = MemDisk::new();
    disk.write(&"a.txt".to_string(), &"hi".to_string());
    assert_eq!(disk.remove(&"a.txt".to_string()), Ok(()));
    assert_eq!(
        disk.read(&"a.txt".to_string()),
        Err("no such file or directory".to_string())
    );
}

#[test]
fn disk_remove_of_a_missing_path_fails() {
    let mut disk = MemDisk::new();
    assert_eq!(
        disk.remove(&"a.txt".to_string()),
        Err("no such file or directory".to_string())
    );
}

#[test]
fn scenario_read_write_read_remove_read() {
    // One cooperative main thread drives the whole exchange; the worker's
    // blocking call runs against the in-memory disk.
    let mut registry: TokenRegistry<u64> = TokenRegistry::new();
    let mut store = ResponseStore::new();
    let mut disk = MemDisk::new();

    // readFile("missing.txt") rejects with a not-found message.
    let args = vec![Value::Text("missing.txt".to_string())];
    let request = read_file(&args).expect("a string path validates");
    let token = registry.register(1);
    let response = disk.perform(&request);
    store.insert(token, response);
    assert_eq!(registry.take(token), Some(1));
    let settled = handle(&mut store, token);
    assert_eq!(
        settled,
        Settlement::Reject("no such file or directory".to_string())
    );

    // writeFile("a.txt", "hi") resolves with no value.
    let args = vec![
        Value::Text("a.txt".to_string()),
        Value::Text("hi".to_string()),
    ];
    let request = write_file(&args).expect("two strings validate");
    let token = registry.register(2);
    let response = disk.perform(&request);
    store.insert(token, response);
    assert_eq!(registry.take(token), Some(2));
    assert_eq!(handle(&mut store, token), Settlement::Resolve(None));

    // readFile("a.txt") now resolves with "hi".
    let args = vec![Value::Text("a.txt".to_string())];
    let request = read_file(&args).expect("a string path validates");
    let token = registry.register(3);
    let response = disk.perform(&request);
    store.insert(token, response);
    assert_eq!(registry.take(token), Some(3));
    assert_eq!(
        handle(&mut store, token),
        Settlement::Resolve(Some("hi".to_string()))
    );

    // removeFile("a.txt") resolves with no value.
    let args = vec![Value::Text("a.txt".to_string())];
    let request = remove_file(&args).expect("a string path validates");
    let token = registry.register(4);
    let response = disk.perform(&request);
    store.insert(token, response);
    assert_eq!(registry.take(token), Some(4));
    assert_eq!(handle(&mut store, token), Settlement::Resolve(None));

    // A subsequent readFile("a.txt") rejects again.
    let args = vec![Value::Text("a.txt".to_string())];
    let request = read_file(&args).expect("a string path validates");
    let token = registry.register(5);
    let response = disk.perform(&request);
    store.insert(token, response);
    assert_eq!(registry.take(token), Some(5));
    assert!(matches!(handle(&mut store, token), Settlement::Reject(_)));
}

#[test]
fn three_concurrent_operations_all_settle_exactly_once() {
    // Three operations are dispatched before any completes; completions
    // arrive out of dispatch order and each settles exactly once.
    let mut registry: TokenRegistry<u64> = TokenRegistry::new();
    let mut store = ResponseStore::new();
    let mut disk = MemDisk::new();
    disk.write(&"a.txt".to_string(), &"aaa".to_string());

    let read_req = FsRequest::Read("a.txt".to_string());
    let write_req = FsRequest::Write("b.txt".to_string(), "bbb".to_string());
    let missing_req = FsRequest::Read("missing.txt".to_string());

    let t1 = registry.register(11);
    let t2 = registry.register(22);
    let t3 = registry.register(33);

    // Workers finish in the order t3, t1, t2.
    let r3 = disk.perform(&missing_req);
    store.insert(t3, r3);
    let r1 = disk.perform(&read_req);
    store.insert(t1, r1);
    let r2 = disk.perform(&write_req);
    store.insert(t2, r2);

    // Wakes arrive in the order t2, t3, t1; each settles exactly once.
    let mut settlements: u32 = 0;
    for token in [t2, t3, t1] {
        let promise = registry.take(token);
        assert!(promise.is_some());
        let settled = handle(&mut store, token);
        match settled {
            Settlement::Resolve(_) | Settlement::Reject(_) => settlements += 1,
        }
        assert_eq!(registry.take(token), None);
        assert_eq!(store.take(token), None);
    }
    assert_eq!(settlements, 3);
    assert_eq!(registry.pending_count(), 0);
}
