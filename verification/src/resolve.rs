//! The response-shape resolver.
//!
//! Upstream list endpoints answer either with a bare JSON array of records
//! or with an object that wraps the array under a collection-named field
//! (`"translations"`, `"books"`, ...). The resolver accepts exactly those
//! two shapes and rejects everything else, so every list endpoint has one
//! uniform defence against upstream schema drift.

use vstd::prelude::*;
use crate::json::{Json, JsonV, lookup_spec, view_arr};

verus! {

/// How a payload failed to normalize.
#[derive(Debug, Clone, Copy, PartialEq, Eq, Structural)]
pub enum FormatError {
    /// The payload has neither accepted shape (or, for a chapter payload,
    /// no `chapter` member).
    UnexpectedFormat,
    /// The shape was accepted but a record inside it failed to decode.
    Decode,
}

/// The items a list payload resolves to:
/// a bare array's own items; an enveloped array's items; otherwise an error.
/// An envelope whose field holds a non-array is a decode failure of that
/// field, not an unexpected shape.
pub open spec fn resolve_spec(v: JsonV, key: Seq<char>) -> Result<Seq<JsonV>, FormatError> {
    match v {
        JsonV::Arr(items) => Ok(items),
        JsonV::Obj(fields) => match lookup_spec(fields, key) {
            Some(JsonV::Arr(items)) => Ok(items),
            Some(_) => Err(FormatError::Decode),
            None => Err(FormatError::UnexpectedFormat),
        },
        _ => Err(FormatError::UnexpectedFormat),
    }
}

/// Resolves a list payload to its item array, tolerating both accepted
/// shapes.
pub fn resolve_items<'a>(v: &'a Json, key: &String) -> (r: Result<&'a Vec<Json>, FormatError>)
    ensures
        match r {
            Ok(items) => resolve_spec(v@, key@) == Ok::<Seq<JsonV>, FormatError>(view_arr(items@)),
            Err(e) => resolve_spec(v@, key@) == Err::<Seq<JsonV>, FormatError>(e),
        },
{
    match v {
        Json::Arr(items) => Ok(items),
        Json::Obj(_) => match v.get(key) {
            Some(inner) => match inner {
                Json::Arr(items) => Ok(items),
                _ => Err(FormatError::Decode),
            },
            None => Err(FormatError::UnexpectedFormat),
        },
        _ => Err(FormatError::UnexpectedFormat),
    }
}

/// A bare array resolves to its own items: the resolver adds nothing and
/// loses nothing against decoding the array directly.
pub proof fn lemma_resolve_bare_array(items: Seq<JsonV>, key: Seq<char>)
    ensures
        resolve_spec(JsonV::Arr(items), key) == Ok::<Seq<JsonV>, FormatError>(items),
{
}

/// An object carrying the expected field with an array resolves to exactly
/// that array's items, in order.
pub proof fn lemma_resolve_envelope(
    fields: Seq<(Seq<char>, JsonV)>,
    key: Seq<char>,
    items: Seq<JsonV>,
)
    requires
        lookup_spec(fields, key) == Some(JsonV::Arr(items)),
    ensures
        resolve_spec(JsonV::Obj(fields), key) == Ok::<Seq<JsonV>, FormatError>(items),
{
}

/// Every other shape — neither an array nor an object carrying the expected
/// field — fails with `UnexpectedFormat`, and nothing is extracted.
pub proof fn lemma_resolve_other_shape(v: JsonV, key: Seq<char>)
    requires
        !(v matches JsonV::Arr(_)),
        v matches JsonV::Obj(fields) ==> lookup_spec(fields, key) is None,
    ensures
        resolve_spec(v, key) == Err::<Seq<JsonV>, FormatError>(FormatError::UnexpectedFormat),
{
}

} // verus!
