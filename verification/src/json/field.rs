//! Typed access to object members, shared by the protocol decoders.
//! An optional field accepts a missing member or an explicit null as
//! "absent", mirroring the wire contract for optional fields; a member of
//! the wrong shape is a decode error.

use vstd::prelude::*;

use crate::json::num::digits_to_u64;
use crate::json::value::get_v;
use crate::json::value::JsonV;
use crate::json::value::JsonValue;

verus! {

impl JsonValue {
    /// Whether this value is an object.
    pub fn is_obj(&self) -> (r: bool)
        ensures
            r == (self@ is Obj),
    {
        match self {
            JsonValue::Obj(_) => true,
            _ => false,
        }
    }
}

/// The value of a number token, as a `u64`.
pub open spec fn num_u64_of(v: JsonV) -> Option<u64> {
    match v {
        JsonV::Num(t) => digits_to_u64(t),
        _ => None,
    }
}

/// An optional string field: `Some(None)` when absent or null,
/// `Some(Some(t))` when a string, `None` when ill-shaped.
pub open spec fn opt_str_field(v: JsonV, k: Seq<char>) -> Option<Option<Seq<char>>> {
    match get_v(v, k) {
        None => Some(None),
        Some(JsonV::Null) => Some(None),
        Some(JsonV::Str(t)) => Some(Some(t)),
        Some(_) => None,
    }
}

/// An optional boolean field, with the same conventions.
pub open spec fn opt_bool_field(v: JsonV, k: Seq<char>) -> Option<Option<bool>> {
    match get_v(v, k) {
        None => Some(None),
        Some(JsonV::Null) => Some(None),
        Some(JsonV::Bool(b)) => Some(Some(b)),
        Some(_) => None,
    }
}

/// An optional unsigned-integer field, with the same conventions.
pub open spec fn opt_u64_field(v: JsonV, k: Seq<char>) -> Option<Option<u64>> {
    match get_v(v, k) {
        None => Some(None),
        Some(JsonV::Null) => Some(None),
        Some(w) => match num_u64_of(w) {
            Some(n) => Some(Some(n)),
            None => None,
        },
    }
}

/// An optional field fitting `u32`.
pub open spec fn opt_u32_field(v: JsonV, k: Seq<char>) -> Option<Option<u32>> {
    match opt_u64_field(v, k) {
        None => None,
        Some(None) => Some(None),
        Some(Some(n)) => if n <= u32::MAX {
            Some(Some(n as u32))
        } else {
            None
        },
    }
}

/// An optional number field, kept as its token.
pub open spec fn opt_num_field(v: JsonV, k: Seq<char>) -> Option<Option<Seq<char>>> {
    match get_v(v, k) {
        None => Some(None),
        Some(JsonV::Null) => Some(None),
        Some(JsonV::Num(t)) => Some(Some(t)),
        Some(_) => None,
    }
}

/// A required string field.
pub open spec fn req_str_field(v: JsonV, k: Seq<char>) -> Option<Seq<char>> {
    match get_v(v, k) {
        Some(JsonV::Str(t)) => Some(t),
        _ => None,
    }
}

/// A required unsigned-integer field.
pub open spec fn req_u64_field(v: JsonV, k: Seq<char>) -> Option<u64> {
    match get_v(v, k) {
        Some(w) => num_u64_of(w),
        None => None,
    }
}

/// A required field fitting `u32`.
pub open spec fn req_u32_field(v: JsonV, k: Seq<char>) -> Option<u32> {
    match req_u64_field(v, k) {
        Some(n) => if n <= u32::MAX {
            Some(n as u32)
        } else {
            None
        },
        None => None,
    }
}

/// Reads an optional string field.
pub fn read_opt_str(v: &JsonValue, k: &str) -> (r: Option<Option<String>>)
    ensures
        (r is Some) == (opt_str_field(v@, k@) is Some),
        r matches Some(o) ==> opt_str_field(v@, k@) == Some(o.deep_view()),
{
    match v.get(k) {
        None => Some(None),
        Some(x) => match x {
            JsonValue::Null => Some(None),
            JsonValue::Str(s) => Some(Some(s.clone())),
            _ => None,
        },
    }
}

/// Reads an optional boolean field.
pub fn read_opt_bool(v: &JsonValue, k: &str) -> (r: Option<Option<bool>>)
    ensures
        (r is Some) == (opt_bool_field(v@, k@) is Some),
        r matches Some(o) ==> opt_bool_field(v@, k@) == Some(o),
{
    match v.get(k) {
        None => Some(None),
        Some(x) => match x {
            JsonValue::Null => Some(None),
            JsonValue::Bool(b) => Some(Some(*b)),
            _ => None,
        },
    }
}

/// Reads an optional `u64` field.
pub fn read_opt_u64(v: &JsonValue, k: &str) -> (r: Option<Option<u64>>)
    ensures
        (r is Some) == (opt_u64_field(v@, k@) is Some),
        r matches Some(o) ==> opt_u64_field(v@, k@) == Some(o),
{
    match v.get(k) {
        None => Some(None),
        Some(x) => match x {
            JsonValue::Null => Some(None),
            JsonValue::Num(t) => match t.as_u64() {
                Some(n) => Some(Some(n)),
                None => None,
            },
            _ => None,
        },
    }
}

/// Reads an optional `u32` field.
pub fn read_opt_u32(v: &JsonValue, k: &str) -> (r: Option<Option<u32>>)
    ensures
        (r is Some) == (opt_u32_field(v@, k@) is Some),
        r matches Some(o) ==> opt_u32_field(v@, k@) == Some(o),
{
    match read_opt_u64(v, k) {
        None => None,
        Some(None) => Some(None),
        Some(Some(n)) => if n <= u32::MAX as u64 {
            Some(Some(n as u32))
        } else {
            None
        },
    }
}

/// Reads an optional number field.
pub fn read_opt_num(v: &JsonValue, k: &str) -> (r: Option<Option<crate::json::value::Number>>)
    ensures
        (r is Some) == (opt_num_field(v@, k@) is Some),
        r matches Some(o) ==> opt_num_field(v@, k@) == Some(o.deep_view()),
{
    match v.get(k) {
        None => Some(None),
        Some(x) => match x {
            JsonValue::Null => Some(None),
            JsonValue::Num(t) => Some(Some(crate::json::value::Number { text: t.text.clone() })),
            _ => None,
        },
    }
}

/// Reads a required string field.
pub fn read_req_str(v: &JsonValue, k: &str) -> (r: Option<String>)
    ensures
        (r is Some) == (req_str_field(v@, k@) is Some),
        r matches Some(s) ==> req_str_field(v@, k@) == Some(s@),
{
    match v.get(k) {
        Some(x) => match x {
            JsonValue::Str(s) => Some(s.clone()),
            _ => None,
        },
        None => None,
    }
}

/// Reads a required `u64` field.
pub fn read_req_u64(v: &JsonValue, k: &str) -> (r: Option<u64>)
    ensures
        r == req_u64_field(v@, k@),
{
    match v.get(k) {
        Some(x) => match x {
            JsonValue::Num(t) => t.as_u64(),
            _ => None,
        },
        None => None,
    }
}

/// Reads a required `u32` field.
pub fn read_req_u32(v: &JsonValue, k: &str) -> (r: Option<u32>)
    ensures
        r == req_u32_field(v@, k@),
{
    match read_req_u64(v, k) {
        Some(n) => if n <= u32::MAX as u64 {
            Some(n as u32)
        } else {
            None
        },
        None => None,
    }
}

} // verus!
