//! The JSON value tree that the estimator walks.

use vstd::prelude::*;

verus! {

/// The size-relevant data of one in-memory string: its logical length and
/// the allocated capacity of its buffer, both in bytes. The capacity may
/// exceed the length (a buffer grown by repeated pushes usually over
/// allocates), and the estimator charges the capacity, never the length.
#[derive(Clone, Copy, Debug)]
pub struct JsonStr {
    pub len: usize,
    pub capacity: usize,
}

impl JsonStr {
    /// A real string's buffer is at least as large as the text it holds.
    pub open spec fn wf(self) -> bool {
        self.len <= self.capacity
    }
}

/// A parsed JSON value. Arrays keep their elements in order; objects keep
/// their key/value pairs in insertion order. Object keys are unique in any
/// tree that came from a real JSON document, but the estimate does not
/// depend on that, so it is not demanded here.
///
/// A number carries no payload beyond its envelope, whatever it holds, so a
/// machine integer stands for every numeric literal; values outside that
/// range do not change the estimate.
#[derive(Debug)]
pub enum JsonValue {
    Null,
    Bool(bool),
    Number(i64),
    Str(JsonStr),
    Array(Vec<JsonValue>),
    Object(Vec<(JsonStr, JsonValue)>),
}

} // verus!
