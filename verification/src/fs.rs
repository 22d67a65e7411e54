//! The user-facing filesystem builtins and the settlement handler.
//!
//! Each builtin validates its arguments synchronously and, on success, yields
//! the owned, plain-data request that the embedder dispatches to its worker
//! pool. A worker classifies the outcome of the blocking call as an
//! [`FsResponse`] and stores it under the operation's handle; when the reactor
//! reports that handle ready, [`handle`] consumes the response and decides how
//! the owning promise is settled.

use vstd::prelude::*;
use crate::store::ResponseStore;
use crate::values::HostFunction;
use crate::values::Value;

verus! {

/// The result of one completed filesystem operation, as a worker records it:
/// the content read, a bare success, or the platform error's textual
/// rendering.
#[derive(PartialEq, Eq, Debug)]
pub enum FsResponse {
    Read(String),
    Success,
    Error(String),
}

/// A validated filesystem operation, holding owned copies of the input
/// strings and nothing else; the only data a worker ever receives.
#[derive(PartialEq, Eq, Debug)]
pub enum FsRequest {
    Read(String),
    Write(String, String),
    Remove(String),
}

/// What the settlement handler does to the owning promise. Exactly one of
/// these is produced per consumed response, and each names exactly one of the
/// two one-shot callables.
#[derive(PartialEq, Eq, Debug)]
pub enum Settlement {
    Resolve(Option<String>),
    Reject(String),
}

/// Whether the argument list carries a string where the builtins expect one.
pub open spec fn arg_is_text(args: Seq<Value>, i: int) -> bool {
    0 <= i < args.len() && args[i] is Text
}

/// `readFile(path)`: validates that the first argument is a string and yields
/// the read request. Validation fails synchronously with a type error; no
/// promise, registration, or dispatch happens on that path.
pub fn read_file(args: &Vec<Value>) -> (r: Result<FsRequest, String>)
    ensures
        match r {
            Ok(request) => arg_is_text(args@, 0) && (args@[0] matches Value::Text(path)
                && request == FsRequest::Read(path)),
            Err(message) => !arg_is_text(args@, 0) && message@ == "filename must be a string"@,
        },
{
    if args.len() >= 1 {
        if let Value::Text(filename) = &args[0] {
            return Ok(FsRequest::Read(filename.clone()));
        }
    }
    Err("filename must be a string".to_owned())
}

/// `writeFile(path, contents)`: validates that both arguments are strings and
/// yields the write request, checking the path first as the interpreter's
/// builtin does. Validation fails synchronously with a type error.
pub fn write_file(args: &Vec<Value>) -> (r: Result<FsRequest, String>)
    ensures
        match r {
            Ok(request) => arg_is_text(args@, 0) && arg_is_text(args@, 1) && (args@[0] matches
                Value::Text(path) && args@[1] matches Value::Text(contents) && request
                == FsRequest::Write(path, contents)),
            Err(message) => if !arg_is_text(args@, 0) {
                message@ == "filename must be a string"@
            } else {
                !arg_is_text(args@, 1) && message@ == "contents must be a string"@
            },
        },
{
    if args.len() >= 1 {
        if let Value::Text(filename) = &args[0] {
            if args.len() >= 2 {
                if let Value::Text(contents) = &args[1] {
                    return Ok(FsRequest::Write(filename.clone(), contents.clone()));
                }
            }
            return Err("contents must be a string".to_owned());
        }
    }
    Err("filename must be a string".to_owned())
}

/// `removeFile(path)`: validates that the first argument is a string and
/// yields the remove request. Validation fails synchronously with a type
/// error.
pub fn remove_file(args: &Vec<Value>) -> (r: Result<FsRequest, String>)
    ensures
        match r {
            Ok(request) => arg_is_text(args@, 0) && (args@[0] matches Value::Text(path)
                && request == FsRequest::Remove(path)),
            Err(message) => !arg_is_text(args@, 0) && message@ == "filename must be a string"@,
        },
{
    if args.len() >= 1 {
        if let Value::Text(filename) = &args[0] {
            return Ok(FsRequest::Remove(filename.clone()));
        }
    }
    Err("filename must be a string".to_owned())
}

/// How a worker classifies the outcome of a blocking read: the content on
/// success, the platform error's message on failure.
pub open spec fn read_response(outcome: Result<String, String>) -> FsResponse {
    match outcome {
        Ok(content) => FsResponse::Read(content),
        Err(message) => FsResponse::Error(message),
    }
}

/// How a worker classifies the outcome of a blocking write or remove, whose
/// success carries no value.
pub open spec fn unit_response(outcome: Result<(), String>) -> FsResponse {
    match outcome {
        Ok(unit) => FsResponse::Success,
        Err(message) => FsResponse::Error(message),
    }
}

/// Worker-side classification of a read outcome.
pub fn classify_read(outcome: Result<String, String>) -> (r: FsResponse)
    ensures
        r == read_response(outcome),
{
    match outcome {
        Ok(content) => FsResponse::Read(content),
        Err(message) => FsResponse::Error(message),
    }
}

/// Worker-side classification of a write or remove outcome.
pub fn classify_unit(outcome: Result<(), String>) -> (r: FsResponse)
    ensures
        r == unit_response(outcome),
{
    match outcome {
        Ok(unit) => FsResponse::Success,
        Err(message) => FsResponse::Error(message),
    }
}

/// How a response settles the promise that awaits it: read content resolves
/// with the content, a bare success resolves with no value, and an error
/// rejects with the error's message.
pub open spec fn settlement_of(response: FsResponse) -> Settlement {
    match response {
        FsResponse::Read(content) => Settlement::Resolve(Some(content)),
        FsResponse::Success => Settlement::Resolve(None),
        FsResponse::Error(message) => Settlement::Reject(message),
    }
}

/// The settlement handler, run on the main thread once per reactor wake for a
/// ready handle: it takes the stored response for `token` and decides which
/// one-shot callable fires and with what. A ready handle with no stored
/// response would mean the registry and store fell out of sync; that is an
/// internal invariant violation, fatal to the embedder, and is ruled out
/// here.
pub fn handle(store: &mut ResponseStore, token: u64) -> (s: Settlement)
    requires
        old(store)@.contains_key(token),
    ensures
        final(store)@ == old(store)@.remove(token),
        s == settlement_of(old(store)@[token]),
{
    let response = store.take(token).unwrap();
    match response {
        FsResponse::Read(content) => Settlement::Resolve(Some(content)),
        FsResponse::Success => Settlement::Resolve(None),
        FsResponse::Error(message) => Settlement::Reject(message),
    }
}

/// Builds the module surface a loader attaches to a namespace object: each
/// exported name paired with the native function it invokes.
pub fn create() -> (module: Vec<(String, HostFunction)>)
    ensures
        module@.len() == 3,
        module@[0].0@ == "readFile"@ && module@[0].1 == HostFunction::ReadFile,
        module@[1].0@ == "writeFile"@ && module@[1].1 == HostFunction::WriteFile,
        module@[2].0@ == "removeFile"@ && module@[2].1 == HostFunction::RemoveFile,
{
    let mut module: Vec<(String, HostFunction)> = Vec::new();
    module.push(("readFile".to_owned(), HostFunction::ReadFile));
    module.push(("writeFile".to_owned(), HostFunction::WriteFile));
    module.push(("removeFile".to_owned(), HostFunction::RemoveFile));
    module
}

} // verus!
