//! The slice of the host language's value model that the bridge sees.

use vstd::prelude::*;

verus! {

/// An interpreter value as a builtin receives it. The builtins only ever
/// distinguish strings from everything else, so the model keeps just enough
/// variety to exercise that check.
#[derive(PartialEq, Eq, Debug)]
pub enum Value {
    Text(String),
    Int(i64),
    Boolean(bool),
    Null,
}

/// The native functions this subsystem contributes to the runtime. The module
/// loader maps each exported name to one of these; the interpreter invokes
/// them through its own calling convention.
#[derive(PartialEq, Eq, Structural, Clone, Copy, Debug)]
pub enum HostFunction {
    ReadFile,
    WriteFile,
    RemoveFile,
    AsyncIterator,
}

} // verus!
