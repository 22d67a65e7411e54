//! The async-iterator prototype the runtime installs for async iteration.
//!
//! It carries a single method, keyed by the well-known `asyncIterator`
//! symbol, and that method returns its receiver: an async iterable is its
//! own async iterator.

use vstd::prelude::*;
use crate::values::HostFunction;
use crate::values::Value;

verus! {

/// A key under which a prototype property is stored; the prototype built
/// here only needs well-known symbols.
#[derive(PartialEq, Eq, Debug)]
pub enum PropertyKey {
    WellKnownSymbol(String),
}

/// One property of a prototype object: a key and the native method stored
/// under it.
#[derive(PartialEq, Eq, Debug)]
pub struct PrototypeProperty {
    pub key: PropertyKey,
    pub method: HostFunction,
}

/// The protocol method itself: hands back exactly the receiver it was
/// invoked on.
pub fn iterator(this: Value) -> (r: Result<Value, Value>)
    ensures
        r == Ok::<Value, Value>(this),
{
    Ok(this)
}

/// Builds the async-iterator prototype: exactly one property, the well-known
/// `asyncIterator` symbol mapped to the receiver-returning method.
pub fn create_async_iterator_prototype() -> (proto: Vec<PrototypeProperty>)
    ensures
        proto@.len() == 1,
        proto@[0].key matches PropertyKey::WellKnownSymbol(name) && name@ == "asyncIterator"@,
        proto@[0].method == HostFunction::AsyncIterator,
{
    let mut proto: Vec<PrototypeProperty> = Vec::new();
    proto.push(
        PrototypeProperty {
            key: PropertyKey::WellKnownSymbol("asyncIterator".to_owned()),
            method: HostFunction::AsyncIterator,
        },
    );
    proto
}

} // verus!
