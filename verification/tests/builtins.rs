use fs_bridge::async_iterator::create_async_iterator_prototype;
use fs_bridge::async_iterator::iterator;
use fs_bridge::async_iterator::PropertyKey;
use fs_bridge::fs::classify_read;
use fs_bridge::fs::classify_unit;
use fs_bridge::fs::create;
use fs_bridge::fs::handle;
use fs_bridge::fs::read_file;
use fs_bridge::fs::remove_file;
use fs_bridge::fs::write_file;
use fs_bridge::fs::FsRequest;
use fs_bridge::fs::FsResponse;
use fs_bridge::fs::Settlement;
use fs_bridge::store::ResponseStore;
use fs_bridge::values::HostFunction;
use fs_bridge::values::Value;

#[test]
fn read_file_accepts_a_string_path() {
    let args = vec![Value::Text("a.txt".to_string())];
    let r = read_file(&args);
    assert_eq!(r, Ok(FsRequest::Read("a.txt".to_string())));
}

#[test]
fn read_file_rejects_a_non_string_synchronously() {
    let args = vec![Value::Boolean(true)];
    let r = read_file(&args);
    assert_eq!(r, Err("filename must be a string".to_string()));
}

#[test]
fn read_file_rejects_a_missing_argument() {
    let args: Vec<Value> = vec![];
    let r = read_file(&args);
    assert_eq!(r, Err("filename must be a string".to_string()));
}

#[test]
fn read_file_rejects_a_number_argument() {
    let args = vec![Value::Int(3)];
    let r = read_file(&args);
    assert_eq!(r, Err("filename must be a string".to_string()));
}

#[test]
fn write_file_accepts_two_strings() {
    let args = vec![Value::Text("a.txt".to_string()), Value::Text("hi".to_string())];
    let r = write_file(&args);
    assert_eq!(r, Ok(FsRequest::Write("a.txt".to_string(), "hi".to_string())));
}

#[test]
fn write_file_rejects_a_non_string_path() {
    let args = vec![Value::Null, Value::Text("hi".to_string())];
    let r = write_file(&args);
    assert_eq!(r, Err("filename must be a string".to_string()));
}

#[test]
fn write_file_rejects_non_string_contents() {
    let args = vec![Value::Text("a.txt".to_string()), Value::Int(7)];
    let r = write_file(&args);
    assert_eq!(r, Err("contents must be a string".to_string()));
}

#[test]
fn write_file_rejects_missing_contents() {
    let args = vec![Value::Text("a.txt".to_string())];
    let r = write_file(&args);
    assert_eq!(r, Err("contents must be a string".to_string()));
}

#[test]
fn remove_file_accepts_a_string_path() {
    let args = vec![Value::Text("a.txt".to_string())];
    let r = remove_file(&args);
    assert_eq!(r, Ok(FsRequest::Remove("a.txt".to_string())));
}

#[test]
fn remove_file_rejects_a_non_string() {
    let args = vec![Value::Null];
    let r = remove_file(&args);
    assert_eq!(r, Err("filename must be a string".to_string()));
}

#[test]
fn create_exports_the_three_builtins() {
    let module = create();
    assert_eq!(module.len(), 3);
    assert_eq!(module[0].0, "readFile");
    assert_eq!(module[0].1, HostFunction::ReadFile);
    assert_eq!(module[1].0, "writeFile");
    assert_eq!(module[1].1, HostFunction::WriteFile);
    assert_eq!(module[2].0, "removeFile");
    assert_eq!(module[2].1, HostFunction::RemoveFile);
}

#[test]
fn async_iterator_prototype_has_one_symbol_keyed_method() {
    let proto = create_async_iterator_prototype();
    assert_eq!(proto.len(), 1);
    assert_eq!(
        proto[0].key,
        PropertyKey::WellKnownSymbol("asyncIterator".to_string())
    );
    assert_eq!(proto[0].method, HostFunction::AsyncIterator);
}

#[test]
fn iterator_returns_its_receiver() {
    let this = Value::Text("receiver".to_string());
    let r = iterator(this);
    assert_eq!(r, Ok(Value::Text("receiver".to_string())));
}

#[test]
fn classification_keeps_read_content_and_error_text() {
    assert_eq!(
        classify_read(Ok("body".to_string())),
        FsResponse::Read("body".to_string())
    );
    assert_eq!(
        classify_read(Err("boom".to_string())),
        FsResponse::Error("boom".to_string())
    );
    assert_eq!(classify_unit(Ok(())), FsResponse::Success);
    assert_eq!(
        classify_unit(Err("boom".to_string())),
        FsResponse::Error("boom".to_string())
    );
}

#[test]
fn settlement_resolves_read_content() {
    let mut store = ResponseStore::new();
    store.insert(4, FsResponse::Read("hi".to_string()));
    let s = handle(&mut store, 4);
    assert_eq!(s, Settlement::Resolve(Some("hi".to_string())));
}

#[test]
fn settlement_resolves_success_with_no_value() {
    let mut store = ResponseStore::new();
    store.insert(5, FsResponse::Success);
    let s = handle(&mut store, 5);
    assert_eq!(s, Settlement::Resolve(None));
}

#[test]
fn settlement_rejects_with_the_error_message() {
    let mut store = ResponseStore::new();
    store.insert(6, FsResponse::Error("broken".to_string()));
    let s = handle(&mut store, 6);
    assert_eq!(s, Settlement::Reject("broken".to_string()));
    assert!(!store.contains(6));
}
