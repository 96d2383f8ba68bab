//! The structured values a request carries as its parameters.
//!
//! Commands take an arbitrary structured payload; the bridge models that
//! payload with this self-contained value type so that building and
//! serializing a request is plain verified logic. (Numbers are integral:
//! the protocol's commands only ever carry identifiers, flags and grid
//! coordinates.)

use vstd::prelude::*;

verus! {

/// One structured parameter value: the payload of a request.
pub enum JsonValue {
    Null,
    Bool(bool),
    Int(i64),
    Str(String),
    Arr(Vec<JsonValue>),
    Obj(Vec<(String, JsonValue)>),
}

} // verus!
