//! A plain model of JSON values.
//!
//! Upstream payloads are JSON; the normalization logic only ever inspects
//! them through a handful of reads (is it an array, look up a field, read a
//! number as `u64`, read a string). This enum carries exactly that much
//! structure. A number that does not fit in `u64` (negative or fractional)
//! is collapsed into [`Json::NumOther`], since every numeric read in the
//! library goes through the `u64` view and fails on such a number anyway.

use vstd::prelude::*;

verus! {

/// An executable JSON value.
#[derive(Debug)]
pub enum Json {
    Null,
    Bool(bool),
    /// A number representable as a `u64`.
    UInt(u64),
    /// A number not representable as a `u64` (negative or fractional).
    NumOther,
    Str(String),
    Arr(Vec<Json>),
    /// An object as an ordered list of key/value pairs. Lookups take the
    /// first binding of a key, so later duplicates are inert.
    Obj(Vec<(String, Json)>),
}

/// The mathematical view of a JSON value.
pub enum JsonV {
    Null,
    Bool(bool),
    UInt(u64),
    NumOther,
    Str(Seq<char>),
    Arr(Seq<JsonV>),
    Obj(Seq<(Seq<char>, JsonV)>),
}

/// The view of a sequence of JSON values, element by element.
pub open spec fn view_arr(s: Seq<Json>) -> Seq<JsonV>
    decreases s,
{
    if s.len() == 0 {
        Seq::empty()
    } else {
        seq![json_view(s[0])] + view_arr(s.subrange(1, s.len() as int))
    }
}

/// The view of an object's field list, element by element.
pub open spec fn view_obj(s: Seq<(String, Json)>) -> Seq<(Seq<char>, JsonV)>
    decreases s,
{
    if s.len() == 0 {
        Seq::empty()
    } else {
        seq![(s[0].0@, json_view(s[0].1))] + view_obj(s.subrange(1, s.len() as int))
    }
}

/// The view of a single JSON value.
pub open spec fn json_view(j: Json) -> JsonV
    decreases j,
{
    match j {
        Json::Null => JsonV::Null,
        Json::Bool(b) => JsonV::Bool(b),
        Json::UInt(n) => JsonV::UInt(n),
        Json::NumOther => JsonV::NumOther,
        Json::Str(s) => JsonV::Str(s@),
        Json::Arr(items) => JsonV::Arr(view_arr(items@)),
        Json::Obj(fields) => JsonV::Obj(view_obj(fields@)),
    }
}

impl View for Json {
    type V = JsonV;

    open spec fn view(&self) -> JsonV {
        json_view(*self)
    }
}

pub broadcast proof fn lemma_view_arr_len(s: Seq<Json>)
    ensures
        (#[trigger] view_arr(s)).len() == s.len(),
    decreases s,
{
    if s.len() != 0 {
        lemma_view_arr_len(s.subrange(1, s.len() as int));
    }
}

pub broadcast proof fn lemma_view_arr_index(s: Seq<Json>, i: int)
    requires
        0 <= i < s.len(),
    ensures
        #[trigger] view_arr(s)[i] == json_view(s[i]),
    decreases s,
{
    lemma_view_arr_len(s);
    if i > 0 {
        lemma_view_arr_index(s.subrange(1, s.len() as int), i - 1);
    }
}

pub broadcast proof fn lemma_view_obj_len(s: Seq<(String, Json)>)
    ensures
        (#[trigger] view_obj(s)).len() == s.len(),
    decreases s,
{
    if s.len() != 0 {
        lemma_view_obj_len(s.subrange(1, s.len() as int));
    }
}

pub broadcast proof fn lemma_view_obj_index(s: Seq<(String, Json)>, i: int)
    requires
        0 <= i < s.len(),
    ensures
        #[trigger] view_obj(s)[i] == (s[i].0@, json_view(s[i].1)),
    decreases s,
{
    lemma_view_obj_len(s);
    if i > 0 {
        lemma_view_obj_index(s.subrange(1, s.len() as int), i - 1);
    }
}

/// First binding of `key` in a field list, if any.
pub open spec fn lookup_spec(fields: Seq<(Seq<char>, JsonV)>, key: Seq<char>) -> Option<JsonV>
    decreases fields,
{
    if fields.len() == 0 {
        None
    } else if fields[0].0 == key {
        Some(fields[0].1)
    } else {
        lookup_spec(fields.subrange(1, fields.len() as int), key)
    }
}

/// Field access on a JSON value: `None` unless the value is an object
/// holding the key, exactly as a generic JSON value's string-keyed `get`.
pub open spec fn jget(v: JsonV, key: Seq<char>) -> Option<JsonV> {
    match v {
        JsonV::Obj(fields) => lookup_spec(fields, key),
        _ => None,
    }
}

proof fn lemma_lookup_from(fields: Seq<(Seq<char>, JsonV)>, key: Seq<char>, i: int)
    requires
        0 <= i <= fields.len(),
        forall|j: int| 0 <= j < i ==> (#[trigger] fields[j]).0 != key,
    ensures
        lookup_spec(fields, key) == lookup_spec(fields.subrange(i, fields.len() as int), key),
    decreases i,
{
    if i > 0 {
        lemma_lookup_from(fields, key, i - 1);
        let rest = fields.subrange(i - 1, fields.len() as int);
        assert(rest[0] == fields[i - 1]);
        assert(rest.subrange(1, rest.len() as int)
            =~= fields.subrange(i, fields.len() as int));
        assert(lookup_spec(rest, key)
            == lookup_spec(rest.subrange(1, rest.len() as int), key));
    } else {
        assert(fields.subrange(0, fields.len() as int) =~= fields);
    }
}

impl Json {
    /// Looks up `key` when `self` is an object; `None` on any other shape.
    pub fn get<'a>(&'a self, key: &String) -> (r: Option<&'a Json>)
        ensures
            match r {
                Some(j) => jget(self@, key@) == Some(j@),
                None => jget(self@, key@) is None,
            },
    {
        match self {
            Json::Obj(fields) => obj_lookup(fields, key),
            _ => None,
        }
    }
}

/// First binding of `key` in an executable field list.
pub fn obj_lookup<'a>(fields: &'a Vec<(String, Json)>, key: &String) -> (r: Option<&'a Json>)
    ensures
        match r {
            Some(j) => lookup_spec(view_obj(fields@), key@) == Some(j@),
            None => lookup_spec(view_obj(fields@), key@) is None,
        },
{
    let mut i: usize = 0;
    while i < fields.len()
        invariant
            i <= fields.len(),
            forall|j: int| 0 <= j < i ==> (#[trigger] view_obj(fields@)[j]).0 != key@,
        decreases fields.len() - i,
    {
        let hit = fields[i].0 == *key;
        proof {
            lemma_view_obj_len(fields@);
            lemma_view_obj_index(fields@, i as int);
        }
        if hit {
            proof {
                lemma_lookup_from(view_obj(fields@), key@, i as int);
                let rest = view_obj(fields@).subrange(
                    i as int,
                    view_obj(fields@).len() as int,
                );
                assert(rest[0] == view_obj(fields@)[i as int]);
            }
            return Some(&fields[i].1);
        }
        i = i + 1;
    }
    proof {
        lemma_view_obj_len(fields@);
        lemma_lookup_from(view_obj(fields@), key@, fields@.len() as int);
        assert(view_obj(fields@).subrange(
            fields@.len() as int,
            view_obj(fields@).len() as int,
        ) =~= Seq::empty());
    }
    None
}

} // verus!
