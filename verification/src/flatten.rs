//! The content-tree flattener.
//!
//! A chapter payload carries a nested `content` array of typed nodes. A node
//! becomes a verse exactly when its `type` tag is the string `"verse"` and it
//! carries both a numeric `number` and an array `content` of fragments; any
//! other node is silently skipped. A verse's text is its string fragments
//! joined with single spaces, non-string fragments silently dropped. A
//! missing or non-array `content`, and a missing or non-numeric `number`,
//! are tolerated: the chapter is then empty, and the number falls back to
//! the caller's.

use vstd::prelude::*;
use vstd::string::StringExecFns;
use crate::json::{Json, JsonV, lookup_spec, jget, view_arr, lemma_view_arr_len,
    lemma_view_arr_index, obj_lookup};

verus! {

/// A `u64` read into a `u32` field, truncated as a plain narrowing cast.
pub open spec fn low_u32(n: u64) -> u32 {
    (n % 0x1_0000_0000) as u32
}

/// The string fragments of a content array, in order; everything else is
/// dropped.
pub open spec fn string_frags(frags: Seq<JsonV>) -> Seq<Seq<char>>
    decreases frags,
{
    if frags.len() == 0 {
        Seq::empty()
    } else {
        let front = string_frags(frags.drop_last());
        match frags.last() {
            JsonV::Str(s) => front.push(s),
            _ => front,
        }
    }
}

/// Parts joined with a single ASCII space between neighbours.
pub open spec fn join_space(parts: Seq<Seq<char>>) -> Seq<char>
    decreases parts,
{
    if parts.len() == 0 {
        Seq::empty()
    } else if parts.len() == 1 {
        parts[0]
    } else {
        join_space(parts.drop_last()) + seq![' '] + parts.last()
    }
}

/// The verse a content node yields, if any: the node must be an object
/// tagged `"verse"` carrying a numeric `number` and an array `content`.
pub open spec fn verse_node_spec(item: JsonV) -> Option<(u32, Seq<char>)> {
    match item {
        JsonV::Obj(fs) => {
            if lookup_spec(fs, "type"@) == Some(JsonV::Str("verse"@)) {
                match (lookup_spec(fs, "number"@), lookup_spec(fs, "content"@)) {
                    (Some(JsonV::UInt(n)), Some(JsonV::Arr(frags))) => Some(
                        (low_u32(n), join_space(string_frags(frags))),
                    ),
                    _ => None,
                }
            } else {
                None
            }
        },
        _ => None,
    }
}

/// The flat ordered verse list of a content array: the nodes that pass the
/// inclusion test, in payload order, nothing sorted.
pub open spec fn verses_of_content(content: Seq<JsonV>) -> Seq<(u32, Seq<char>)>
    decreases content,
{
    if content.len() == 0 {
        Seq::empty()
    } else {
        let front = verses_of_content(content.drop_last());
        match verse_node_spec(content.last()) {
            Some(p) => front.push(p),
            None => front,
        }
    }
}

/// The chapter number of a chapter object: its numeric `number` member if
/// present, otherwise the caller-supplied fallback — never an error.
pub open spec fn chapter_number_spec(ch: JsonV, fallback: u32) -> u32 {
    match jget(ch, "number"@) {
        Some(JsonV::UInt(n)) => low_u32(n),
        _ => fallback,
    }
}

/// The content array of a chapter object; empty when missing or not an
/// array — never an error.
pub open spec fn chapter_content_spec(ch: JsonV) -> Seq<JsonV> {
    match jget(ch, "content"@) {
        Some(JsonV::Arr(content)) => content,
        _ => Seq::empty(),
    }
}

/// Collects the string fragments of a content array.
pub fn string_fragments(frags: &Vec<Json>) -> (out: Vec<String>)
    ensures
        out.deep_view() == string_frags(view_arr(frags@)),
{
    proof {
        lemma_view_arr_len(frags@);
    }
    let ghost fv = view_arr(frags@);
    let mut out: Vec<String> = Vec::new();
    let mut i: usize = 0;
    while i < frags.len()
        invariant
            i <= frags.len(),
            frags@.len() == fv.len(),
            fv == view_arr(frags@),
            out.deep_view() == string_frags(fv.subrange(0, i as int)),
        decreases frags.len() - i,
    {
        proof {
            lemma_view_arr_index(frags@, i as int);
            assert(fv.subrange(0, i as int + 1).drop_last() =~= fv.subrange(0, i as int));
            assert(fv.subrange(0, i as int + 1).last() == fv[i as int]);
        }
        let ghost prev = out.deep_view();
        match &frags[i] {
            Json::Str(s) => {
                out.push(s.clone());
                proof {
                    assert(out.deep_view() =~= prev.push(s@));
                }
            },
            _ => {},
        }
        i = i + 1;
    }
    proof {
        assert(fv.subrange(0, fv.len() as int) =~= fv);
    }
    out
}

/// Joins parts with single spaces.
pub fn join_with_space(parts: &Vec<String>) -> (r: String)
    ensures
        r@ == join_space(parts.deep_view()),
{
    let ghost pv = parts.deep_view();
    let mut r = String::new();
    let mut i: usize = 0;
    while i < parts.len()
        invariant
            i <= parts.len(),
            pv == parts.deep_view(),
            pv.len() == parts@.len(),
            r@ == join_space(pv.subrange(0, i as int)),
        decreases parts.len() - i,
    {
        if i > 0 {
            r.append(" ");
            proof {
                reveal_strlit(" ");
                assert(" "@ =~= seq![' ']);
            }
        }
        r.append(parts[i].as_str());
        proof {
            assert(pv.subrange(0, i as int + 1).drop_last() =~= pv.subrange(0, i as int));
            assert(pv.subrange(0, i as int + 1).last() == pv[i as int]);
            if i == 0 {
                assert(Seq::<char>::empty() + pv[0] =~= pv[0]);
            }
        }
        i = i + 1;
    }
    proof {
        assert(pv.subrange(0, pv.len() as int) =~= pv);
    }
    r
}

/// Applies the verse inclusion test to one content node.
pub fn verse_node(item: &Json) -> (r: Option<(u32, String)>)
    ensures
        match r {
            Some(p) => verse_node_spec(item@) == Some((p.0, p.1@)),
            None => verse_node_spec(item@) is None,
        },
{
    let fields = match item {
        Json::Obj(fields) => fields,
        _ => {
            return None;
        },
    };
    let tagged = match obj_lookup(fields, &"type".to_owned()) {
        Some(j) => match j {
            Json::Str(s) => *s == "verse".to_owned(),
            _ => false,
        },
        None => false,
    };
    if !tagged {
        return None;
    }
    let number = match obj_lookup(fields, &"number".to_owned()) {
        Some(j) => match j {
            Json::UInt(n) => *n,
            _ => {
                return None;
            },
        },
        _ => {
            return None;
        },
    };
    let frags = match obj_lookup(fields, &"content".to_owned()) {
        Some(j) => match j {
            Json::Arr(frags) => frags,
            _ => {
                return None;
            },
        },
        _ => {
            return None;
        },
    };
    let text = join_with_space(&string_fragments(frags));
    let low: u32 = (number % 0x1_0000_0000) as u32;
    Some((low, text))
}

/// Flattens a content array into its verse pairs, in order.
pub fn verse_pairs(content: &Vec<Json>) -> (out: Vec<(u32, String)>)
    ensures
        out.deep_view() == verses_of_content(view_arr(content@)),
{
    proof {
        lemma_view_arr_len(content@);
    }
    let ghost cv = view_arr(content@);
    let mut out: Vec<(u32, String)> = Vec::new();
    let mut i: usize = 0;
    while i < content.len()
        invariant
            i <= content.len(),
            content@.len() == cv.len(),
            cv == view_arr(content@),
            out.deep_view() == verses_of_content(cv.subrange(0, i as int)),
        decreases content.len() - i,
    {
        proof {
            lemma_view_arr_index(content@, i as int);
            assert(cv.subrange(0, i as int + 1).drop_last() =~= cv.subrange(0, i as int));
            assert(cv.subrange(0, i as int + 1).last() == cv[i as int]);
        }
        let ghost prev = out.deep_view();
        match verse_node(&content[i]) {
            Some(p) => {
                let ghost pv = (p.0, p.1@);
                out.push(p);
                proof {
                    assert(out.deep_view() =~= prev.push(pv));
                }
            },
            None => {},
        }
        i = i + 1;
    }
    proof {
        assert(cv.subrange(0, cv.len() as int) =~= cv);
    }
    out
}

/// Reads a chapter object's number, falling back to the caller's.
pub fn chapter_number(ch: &Json, fallback: u32) -> (r: u32)
    ensures
        r == chapter_number_spec(ch@, fallback),
{
    match ch.get(&"number".to_owned()) {
        Some(j) => match j {
            Json::UInt(n) => (*n % 0x1_0000_0000) as u32,
            _ => fallback,
        },
        None => fallback,
    }
}

/// Borrows a chapter object's content array; `None` stands for the empty
/// content of a chapter without one.
pub fn chapter_content<'a>(ch: &'a Json) -> (r: Option<&'a Vec<Json>>)
    ensures
        match r {
            Some(content) => chapter_content_spec(ch@) == view_arr(content@),
            None => chapter_content_spec(ch@) == Seq::<JsonV>::empty(),
        },
{
    match ch.get(&"content".to_owned()) {
        Some(j) => match j {
            Json::Arr(content) => Some(content),
            _ => None,
        },
        None => None,
    }
}

} // verus!
