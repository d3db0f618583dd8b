//! The library's own model of an opaque JSON value.
//!
//! The compiler deliberately discards schema fidelity below the top level
//! of a request body, so probe inputs carry arbitrary JSON.  This model
//! keeps exactly what the decision logic reads: the shape of a value and
//! the top-level keys of an object.  Numbers are modeled as signed
//! integers; the embedding program converts from its serializer's
//! representation at the boundary.

use vstd::prelude::*;

verus! {

/// An opaque JSON value as the probe logic sees it.
#[derive(Debug)]
pub enum JsonValue {
    Null,
    Bool(bool),
    Int(i64),
    Str(String),
    Arr(Vec<JsonValue>),
    Obj(Vec<(String, JsonValue)>),
}

impl JsonValue {
    /// Whether the value is a JSON object.
    pub open spec fn spec_is_object(&self) -> bool {
        self matches JsonValue::Obj(_)
    }

    /// Whether the value is a JSON object.
    pub fn is_object(&self) -> (r: bool)
        ensures
            r == self.spec_is_object(),
    {
        match self {
            JsonValue::Obj(_) => true,
            _ => false,
        }
    }
}

/// Whether a fuzzed `creation_content` value is left out of the serialized
/// request body: everything except an object is omitted, since the target
/// only accepts object-shaped creation content.
pub fn creation_content_skip(value: &JsonValue) -> (r: bool)
    ensures
        r == !value.spec_is_object(),
{
    !value.is_object()
}

/// Whether a fuzzed `room_version` value is left out of the serialized
/// request body: absent and empty versions are omitted.
pub fn room_version_skip(value: &Option<String>) -> (r: bool)
    ensures
        r == (value is None || value->0@.len() == 0),
{
    match value {
        Option::None => true,
        Option::Some(v) => v.as_str().is_empty(),
    }
}

} // verus!
