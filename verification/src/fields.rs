//! Field reads on JSON objects, with the exact tolerance of the record
//! decoders: a required string must be present and a string; an optional
//! field defaults to nothing when missing or null, decodes when it has the
//! right type, and fails the whole record otherwise.

use vstd::prelude::*;
use crate::json::{Json, JsonV, lookup_spec, view_obj, obj_lookup};

verus! {

/// A required string field: present and a string, or the record fails.
pub open spec fn req_string_spec(
    fields: Seq<(Seq<char>, JsonV)>,
    key: Seq<char>,
) -> Option<Seq<char>> {
    match lookup_spec(fields, key) {
        Some(JsonV::Str(s)) => Some(s),
        _ => None,
    }
}

/// An optional string field: `Some(None)` when missing or null,
/// `Some(Some(s))` for a string, `None` (record failure) for any other type.
pub open spec fn opt_string_spec(
    fields: Seq<(Seq<char>, JsonV)>,
    key: Seq<char>,
) -> Option<Option<Seq<char>>> {
    match lookup_spec(fields, key) {
        None => Some(None),
        Some(JsonV::Null) => Some(None),
        Some(JsonV::Str(s)) => Some(Some(s)),
        Some(_) => None,
    }
}

/// An optional `u32` field: `Some(None)` when missing or null,
/// `Some(Some(n))` for a number in `u32` range, `None` otherwise.
pub open spec fn opt_u32_spec(
    fields: Seq<(Seq<char>, JsonV)>,
    key: Seq<char>,
) -> Option<Option<u32>> {
    match lookup_spec(fields, key) {
        None => Some(None),
        Some(JsonV::Null) => Some(None),
        Some(JsonV::UInt(n)) => if n <= u32::MAX {
            Some(Some(n as u32))
        } else {
            None
        },
        Some(_) => None,
    }
}

/// A required `u32` field: present and a number in `u32` range, or the
/// record fails.
pub open spec fn req_u32_spec(fields: Seq<(Seq<char>, JsonV)>, key: Seq<char>) -> Option<u32> {
    match lookup_spec(fields, key) {
        Some(JsonV::UInt(n)) => if n <= u32::MAX {
            Some(n as u32)
        } else {
            None
        },
        _ => None,
    }
}

pub fn field_req_string(fields: &Vec<(String, Json)>, key: &String) -> (r: Option<String>)
    ensures
        match r {
            Some(s) => req_string_spec(view_obj(fields@), key@) == Some(s@),
            None => req_string_spec(view_obj(fields@), key@) is None,
        },
{
    match obj_lookup(fields, key) {
        Some(j) => match j {
            Json::Str(s) => Some(s.clone()),
            _ => None,
        },
        None => None,
    }
}

pub fn field_opt_string(fields: &Vec<(String, Json)>, key: &String) -> (r: Option<
    Option<String>,
>)
    ensures
        match r {
            Some(os) => opt_string_spec(view_obj(fields@), key@) == Some(os.deep_view()),
            None => opt_string_spec(view_obj(fields@), key@) is None,
        },
{
    match obj_lookup(fields, key) {
        None => Some(None),
        Some(j) => match j {
            Json::Null => Some(None),
            Json::Str(s) => Some(Some(s.clone())),
            _ => None,
        },
    }
}

pub fn field_opt_u32(fields: &Vec<(String, Json)>, key: &String) -> (r: Option<Option<u32>>)
    ensures
        match r {
            Some(on) => opt_u32_spec(view_obj(fields@), key@) == Some(on),
            None => opt_u32_spec(view_obj(fields@), key@) is None,
        },
{
    match obj_lookup(fields, key) {
        None => Some(None),
        Some(j) => match j {
            Json::Null => Some(None),
            Json::UInt(n) => if *n <= 0xFFFF_FFFF {
                Some(Some(*n as u32))
            } else {
                None
            },
            _ => None,
        },
    }
}

pub fn field_req_u32(fields: &Vec<(String, Json)>, key: &String) -> (r: Option<u32>)
    ensures
        match r {
            Some(n) => req_u32_spec(view_obj(fields@), key@) == Some(n),
            None => req_u32_spec(view_obj(fields@), key@) is None,
        },
{
    match obj_lookup(fields, key) {
        Some(j) => match j {
            Json::UInt(n) => if *n <= 0xFFFF_FFFF {
                Some(*n as u32)
            } else {
                None
            },
            _ => None,
        },
        None => None,
    }
}

} // verus!
