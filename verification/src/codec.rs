//! Encoding chapter records to JSON and decoding them back.
//!
//! The encoding mirrors the gateway's response schema: every field is
//! present, absent optional lists encode as `null`. Decoding tolerates a
//! missing `footnotes` member the way the records' decoders do. Encoding
//! then decoding yields the record back, field for field.

use vstd::prelude::*;
use vstd::string::StringExecFns;
use crate::json::{Json, JsonV, lookup_spec, view_arr, view_obj, obj_lookup,
    lemma_view_arr_len, lemma_view_arr_index, lemma_view_obj_len, lemma_view_obj_index};
use crate::fields::{req_string_spec, req_u32_spec, field_req_string, field_req_u32};
use crate::helloao::{Chapter, ChapterV, Verse, VerseV, Footnote, FootnoteV};

verus! {

/// Strings as JSON strings, in order.
pub open spec fn strings_json(fs: Seq<Seq<char>>) -> Seq<JsonV> {
    Seq::new(fs.len(), |i: int| JsonV::Str(fs[i]))
}

/// An optional string list: a JSON array, or `null` when absent.
pub open spec fn opt_strings_json(o: Option<Seq<Seq<char>>>) -> JsonV {
    match o {
        Some(fs) => JsonV::Arr(strings_json(fs)),
        None => JsonV::Null,
    }
}

/// A verse as a JSON object.
pub open spec fn verse_json(v: VerseV) -> JsonV {
    JsonV::Obj(
        seq![
            ("verse"@, JsonV::UInt(v.verse as u64)),
            ("text"@, JsonV::Str(v.text)),
            ("footnotes"@, opt_strings_json(v.footnotes)),
        ],
    )
}

/// A footnote as a JSON object.
pub open spec fn footnote_json(f: FootnoteV) -> JsonV {
    JsonV::Obj(seq![("id"@, JsonV::Str(f.id)), ("text"@, JsonV::Str(f.text))])
}

/// An optional footnote list: a JSON array, or `null` when absent.
pub open spec fn footnotes_json(o: Option<Seq<FootnoteV>>) -> JsonV {
    match o {
        Some(fs) => JsonV::Arr(Seq::new(fs.len(), |i: int| footnote_json(fs[i]))),
        None => JsonV::Null,
    }
}

/// A chapter as a JSON object.
pub open spec fn chapter_json(c: ChapterV) -> JsonV {
    JsonV::Obj(
        seq![
            ("translation"@, JsonV::Str(c.translation)),
            ("book"@, JsonV::Str(c.book)),
            ("chapter"@, JsonV::UInt(c.chapter as u64)),
            ("verses"@, JsonV::Arr(Seq::new(c.verses.len(), |i: int| verse_json(c.verses[i])))),
            ("footnotes"@, footnotes_json(c.footnotes)),
        ],
    )
}

/// The string a JSON string holds; other shapes count as empty so the map
/// is total.
pub open spec fn str_of(v: JsonV) -> Seq<char> {
    match v {
        JsonV::Str(s) => s,
        _ => Seq::empty(),
    }
}

/// An optional string-list member: missing and `null` both decode to
/// nothing, an array decodes when every item is a string, anything else
/// fails the record.
pub open spec fn opt_strings_of(
    fields: Seq<(Seq<char>, JsonV)>,
    key: Seq<char>,
) -> Option<Option<Seq<Seq<char>>>> {
    match lookup_spec(fields, key) {
        None => Some(None),
        Some(JsonV::Null) => Some(None),
        Some(JsonV::Arr(items)) => if forall|i: int|
            0 <= i < items.len() ==> (#[trigger] items[i]) is Str {
            Some(Some(Seq::new(items.len(), |i: int| str_of(items[i]))))
        } else {
            None
        },
        Some(_) => None,
    }
}

/// A verse record decoded from a JSON object.
pub open spec fn verse_of_json(v: JsonV) -> Option<VerseV> {
    match v {
        JsonV::Obj(fs) => {
            let verse = req_u32_spec(fs, "verse"@);
            let text = req_string_spec(fs, "text"@);
            let footnotes = opt_strings_of(fs, "footnotes"@);
            if verse is Some && text is Some && footnotes is Some {
                Some(
                    (VerseV {
                        verse: verse.unwrap(),
                        text: text.unwrap(),
                        footnotes: footnotes.unwrap(),
                    }),
                )
            } else {
                None
            }
        },
        _ => None,
    }
}

/// A footnote record decoded from a JSON object.
pub open spec fn footnote_of_json(v: JsonV) -> Option<FootnoteV> {
    match v {
        JsonV::Obj(fs) => {
            let id = req_string_spec(fs, "id"@);
            let text = req_string_spec(fs, "text"@);
            if id is Some && text is Some {
                Some((FootnoteV { id: id.unwrap(), text: text.unwrap() }))
            } else {
                None
            }
        },
        _ => None,
    }
}

/// Every item decodes as a verse.
pub open spec fn all_verses_decode(items: Seq<JsonV>) -> bool {
    forall|i: int| 0 <= i < items.len() ==> verse_of_json(#[trigger] items[i]) is Some
}

/// The verses a fully-decodable array holds, in order.
pub open spec fn verses_of_json_items(items: Seq<JsonV>) -> Seq<VerseV> {
    Seq::new(items.len(), |i: int| verse_of_json(items[i]).unwrap())
}

/// Every item decodes as a footnote.
pub open spec fn all_footnotes_decode(items: Seq<JsonV>) -> bool {
    forall|i: int| 0 <= i < items.len() ==> footnote_of_json(#[trigger] items[i]) is Some
}

/// The footnotes a fully-decodable array holds, in order.
pub open spec fn footnotes_of_json_items(items: Seq<JsonV>) -> Seq<FootnoteV> {
    Seq::new(items.len(), |i: int| footnote_of_json(items[i]).unwrap())
}

/// An optional footnote-list member, tolerated like the string list.
pub open spec fn opt_footnotes_of(
    fields: Seq<(Seq<char>, JsonV)>,
    key: Seq<char>,
) -> Option<Option<Seq<FootnoteV>>> {
    match lookup_spec(fields, key) {
        None => Some(None),
        Some(JsonV::Null) => Some(None),
        Some(JsonV::Arr(items)) => if all_footnotes_decode(items) {
            Some(Some(footnotes_of_json_items(items)))
        } else {
            None
        },
        Some(_) => None,
    }
}

/// A chapter record decoded from a JSON object: `translation`, `book`,
/// `chapter` and `verses` are required, `footnotes` is optional.
pub open spec fn chapter_of_json(v: JsonV) -> Option<ChapterV> {
    match v {
        JsonV::Obj(fs) => {
            let translation = req_string_spec(fs, "translation"@);
            let book = req_string_spec(fs, "book"@);
            let chapter = req_u32_spec(fs, "chapter"@);
            let footnotes = opt_footnotes_of(fs, "footnotes"@);
            match lookup_spec(fs, "verses"@) {
                Some(JsonV::Arr(items)) => {
                    if translation is Some && book is Some && chapter is Some
                        && footnotes is Some && all_verses_decode(items) {
                        Some(
                            (ChapterV {
                                translation: translation.unwrap(),
                                book: book.unwrap(),
                                chapter: chapter.unwrap(),
                                verses: verses_of_json_items(items),
                                footnotes: footnotes.unwrap(),
                            }),
                        )
                    } else {
                        None
                    }
                },
                _ => None,
            }
        },
        _ => None,
    }
}

/// Encodes a string list as JSON strings.
fn strings_to_json(fls: &Vec<String>) -> (items: Vec<Json>)
    ensures
        view_arr(items@) == strings_json(fls.deep_view()),
{
    let mut items: Vec<Json> = Vec::new();
    let mut i: usize = 0;
    while i < fls.len()
        invariant
            i <= fls.len(),
            items@.len() == i,
            forall|j: int| 0 <= j < i ==> (#[trigger] items@[j])@ == JsonV::Str(
                fls.deep_view()[j],
            ),
        decreases fls.len() - i,
    {
        items.push(Json::Str(fls[i].clone()));
        i = i + 1;
    }
    proof {
        lemma_view_arr_len(items@);
        assert forall|j: int| 0 <= j < items@.len() implies view_arr(items@)[j]
            == strings_json(fls.deep_view())[j] by {
            lemma_view_arr_index(items@, j);
        }
        assert(view_arr(items@) =~= strings_json(fls.deep_view()));
    }
    items
}


/// Encodes a verse.
pub fn verse_to_json(v: &Verse) -> (r: Json)
    ensures
        r@ == verse_json(v.deep_view()),
{
    let mut fields: Vec<(String, Json)> = Vec::new();
    fields.push(("verse".to_owned(), Json::UInt(v.verse as u64)));
    fields.push(("text".to_owned(), Json::Str(v.text.clone())));
    let foot = match &v.footnotes {
        Some(fls) => Json::Arr(strings_to_json(fls)),
        None => Json::Null,
    };
    fields.push(("footnotes".to_owned(), foot));
    let r = Json::Obj(fields);
    proof {
        lemma_view_obj_len(fields@);
        lemma_view_obj_index(fields@, 0);
        lemma_view_obj_index(fields@, 1);
        lemma_view_obj_index(fields@, 2);
        assert(view_obj(fields@) =~= seq![
            ("verse"@, JsonV::UInt(v.verse as u64)),
            ("text"@, JsonV::Str(v.text@)),
            ("footnotes"@, opt_strings_json(v.footnotes.deep_view())),
        ]);
    }
    r
}

/// Encodes a footnote.
pub fn footnote_to_json(f: &Footnote) -> (r: Json)
    ensures
        r@ == footnote_json(f.deep_view()),
{
    let mut fields: Vec<(String, Json)> = Vec::new();
    fields.push(("id".to_owned(), Json::Str(f.id.clone())));
    fields.push(("text".to_owned(), Json::Str(f.text.clone())));
    let r = Json::Obj(fields);
    proof {
        lemma_view_obj_len(fields@);
        lemma_view_obj_index(fields@, 0);
        lemma_view_obj_index(fields@, 1);
        assert(view_obj(fields@) =~= seq![
            ("id"@, JsonV::Str(f.id@)),
            ("text"@, JsonV::Str(f.text@)),
        ]);
    }
    r
}

/// Encodes a chapter record; every member is present, an absent footnote
/// list as `null`.
pub fn chapter_to_json(c: &Chapter) -> (r: Json)
    ensures
        r@ == chapter_json(c.deep_view()),
{
    let mut fields: Vec<(String, Json)> = Vec::new();
    fields.push(("translation".to_owned(), Json::Str(c.translation.clone())));
    fields.push(("book".to_owned(), Json::Str(c.book.clone())));
    fields.push(("chapter".to_owned(), Json::UInt(c.chapter as u64)));
    let mut verse_items: Vec<Json> = Vec::new();
    let mut i: usize = 0;
    while i < c.verses.len()
        invariant
            i <= c.verses.len(),
            verse_items@.len() == i,
            forall|j: int| 0 <= j < i ==> (#[trigger] verse_items@[j])@ == verse_json(
                c.verses.deep_view()[j],
            ),
        decreases c.verses.len() - i,
    {
        verse_items.push(verse_to_json(&c.verses[i]));
        i = i + 1;
    }
    proof {
        lemma_view_arr_len(verse_items@);
        assert forall|j: int| 0 <= j < verse_items@.len() implies view_arr(verse_items@)[j]
            == verse_json(c.verses.deep_view()[j]) by {
            lemma_view_arr_index(verse_items@, j);
        }
        assert(view_arr(verse_items@) =~= Seq::new(
            c.verses.deep_view().len(),
            |j: int| verse_json(c.verses.deep_view()[j]),
        ));
    }
    fields.push(("verses".to_owned(), Json::Arr(verse_items)));
    let foot = match &c.footnotes {
        Some(fls) => {
            let mut foot_items: Vec<Json> = Vec::new();
            let mut k: usize = 0;
            while k < fls.len()
                invariant
                    k <= fls.len(),
                    foot_items@.len() == k,
                    forall|j: int| 0 <= j < k ==> (#[trigger] foot_items@[j])@
                        == footnote_json(fls.deep_view()[j]),
                decreases fls.len() - k,
            {
                foot_items.push(footnote_to_json(&fls[k]));
                k = k + 1;
            }
            proof {
                lemma_view_arr_len(foot_items@);
                assert forall|j: int| 0 <= j < foot_items@.len() implies view_arr(
                    foot_items@,
                )[j] == footnote_json(fls.deep_view()[j]) by {
                    lemma_view_arr_index(foot_items@, j);
                }
                assert(view_arr(foot_items@) =~= Seq::new(
                    fls.deep_view().len(),
                    |j: int| footnote_json(fls.deep_view()[j]),
                ));
            }
            Json::Arr(foot_items)
        },
        None => Json::Null,
    };
    fields.push(("footnotes".to_owned(), foot));
    let r = Json::Obj(fields);
    proof {
        lemma_view_obj_len(fields@);
        lemma_view_obj_index(fields@, 0);
        lemma_view_obj_index(fields@, 1);
        lemma_view_obj_index(fields@, 2);
        lemma_view_obj_index(fields@, 3);
        lemma_view_obj_index(fields@, 4);
        assert(view_obj(fields@) =~= seq![
            ("translation"@, JsonV::Str(c.translation@)),
            ("book"@, JsonV::Str(c.book@)),
            ("chapter"@, JsonV::UInt(c.chapter as u64)),
            ("verses"@, JsonV::Arr(Seq::new(
                c.verses.deep_view().len(),
                |j: int| verse_json(c.verses.deep_view()[j]),
            ))),
            ("footnotes"@, footnotes_json(c.footnotes.deep_view())),
        ]);
    }
    r
}

/// Decodes a verse record.
pub fn verse_from_json(v: &Json) -> (r: Option<Verse>)
    ensures
        match r {
            Some(vr) => verse_of_json(v@) == Some(vr.deep_view()),
            None => verse_of_json(v@) is None,
        },
{
    let fields = match v {
        Json::Obj(fields) => fields,
        _ => {
            return None;
        },
    };
    let verse = match field_req_u32(fields, &"verse".to_owned()) {
        Some(n) => n,
        None => {
            return None;
        },
    };
    let text = match field_req_string(fields, &"text".to_owned()) {
        Some(s) => s,
        None => {
            return None;
        },
    };
    let footnotes: Option<Vec<String>> = match obj_lookup(fields, &"footnotes".to_owned()) {
        None => None,
        Some(j) => match j {
            Json::Null => None,
            Json::Arr(items) => {
                let mut out: Vec<String> = Vec::new();
                let ghost iv = view_arr(items@);
                proof {
                    lemma_view_arr_len(items@);
                }
                let mut i: usize = 0;
                while i < items.len()
                    invariant
                        i <= items.len(),
                        v@ == JsonV::Obj(view_obj(fields@)),
                        lookup_spec(view_obj(fields@), "footnotes"@) == Some(
                            JsonV::Arr(iv),
                        ),
                        iv == view_arr(items@),
                        iv.len() == items@.len(),
                        out@.len() == i,
                        forall|j: int| 0 <= j < i ==> (#[trigger] iv[j]) is Str,
                        forall|j: int| 0 <= j < i ==> (#[trigger] out@[j])@ == str_of(iv[j]),
                    decreases items.len() - i,
                {
                    proof {
                        lemma_view_arr_index(items@, i as int);
                    }
                    match &items[i] {
                        Json::Str(s) => out.push(s.clone()),
                        _ => {
                            return None;
                        },
                    }
                    i = i + 1;
                }
                proof {
                    assert(out.deep_view() =~= Seq::new(iv.len(), |j: int| str_of(iv[j])));
                }
                Some(out)
            },
            _ => {
                return None;
            },
        },
    };
    Some(Verse { verse, text, footnotes })
}

/// Decodes a footnote record.
pub fn footnote_from_json(v: &Json) -> (r: Option<Footnote>)
    ensures
        match r {
            Some(f) => footnote_of_json(v@) == Some(f.deep_view()),
            None => footnote_of_json(v@) is None,
        },
{
    let fields = match v {
        Json::Obj(fields) => fields,
        _ => {
            return None;
        },
    };
    let id = match field_req_string(fields, &"id".to_owned()) {
        Some(s) => s,
        None => {
            return None;
        },
    };
    let text = match field_req_string(fields, &"text".to_owned()) {
        Some(s) => s,
        None => {
            return None;
        },
    };
    Some(Footnote { id, text })
}

/// Decodes a chapter record.
pub fn chapter_from_json(v: &Json) -> (r: Option<Chapter>)
    ensures
        match r {
            Some(c) => chapter_of_json(v@) == Some(c.deep_view()),
            None => chapter_of_json(v@) is None,
        },
{
    let fields = match v {
        Json::Obj(fields) => fields,
        _ => {
            return None;
        },
    };
    let translation = match field_req_string(fields, &"translation".to_owned()) {
        Some(s) => s,
        None => {
            return None;
        },
    };
    let book = match field_req_string(fields, &"book".to_owned()) {
        Some(s) => s,
        None => {
            return None;
        },
    };
    let chapter = match field_req_u32(fields, &"chapter".to_owned()) {
        Some(n) => n,
        None => {
            return None;
        },
    };
    let verses: Vec<Verse> = match obj_lookup(fields, &"verses".to_owned()) {
        Some(j) => match j {
            Json::Arr(items) => {
                let mut out: Vec<Verse> = Vec::new();
                let ghost iv = view_arr(items@);
                proof {
                    lemma_view_arr_len(items@);
                }
                let mut i: usize = 0;
                while i < items.len()
                    invariant
                        i <= items.len(),
                        v@ == JsonV::Obj(view_obj(fields@)),
                        lookup_spec(view_obj(fields@), "verses"@) == Some(JsonV::Arr(iv)),
                        iv == view_arr(items@),
                        iv.len() == items@.len(),
                        out@.len() == i,
                        forall|j: int| 0 <= j < i ==> verse_of_json(#[trigger] iv[j]) is Some,
                        forall|j: int| 0 <= j < i ==> verse_of_json(iv[j]) == Some(
                            (#[trigger] out@[j]).deep_view(),
                        ),
                    decreases items.len() - i,
                {
                    proof {
                        lemma_view_arr_index(items@, i as int);
                    }
                    match verse_from_json(&items[i]) {
                        Some(vr) => out.push(vr),
                        None => {
                            return None;
                        },
                    }
                    i = i + 1;
                }
                proof {
                    assert(out.deep_view() =~= verses_of_json_items(iv));
                }
                out
            },
            _ => {
                return None;
            },
        },
        None => {
            return None;
        },
    };
    let footnotes: Option<Vec<Footnote>> = match obj_lookup(fields, &"footnotes".to_owned()) {
        None => None,
        Some(j) => match j {
            Json::Null => None,
            Json::Arr(items) => {
                let mut out: Vec<Footnote> = Vec::new();
                let ghost iv = view_arr(items@);
                proof {
                    lemma_view_arr_len(items@);
                }
                let mut i: usize = 0;
                while i < items.len()
                    invariant
                        i <= items.len(),
                        v@ == JsonV::Obj(view_obj(fields@)),
                        lookup_spec(view_obj(fields@), "footnotes"@) == Some(
                            JsonV::Arr(iv),
                        ),
                        iv == view_arr(items@),
                        iv.len() == items@.len(),
                        out@.len() == i,
                        forall|j: int| 0 <= j < i ==> footnote_of_json(
                            #[trigger] iv[j],
                        ) is Some,
                        forall|j: int| 0 <= j < i ==> footnote_of_json(iv[j]) == Some(
                            (#[trigger] out@[j]).deep_view(),
                        ),
                    decreases items.len() - i,
                {
                    proof {
                        lemma_view_arr_index(items@, i as int);
                    }
                    match footnote_from_json(&items[i]) {
                        Some(f) => out.push(f),
                        None => {
                            return None;
                        },
                    }
                    i = i + 1;
                }
                proof {
                    assert(out.deep_view() =~= footnotes_of_json_items(iv));
                }
                Some(out)
            },
            _ => {
                return None;
            },
        },
    };
    Some(Chapter { translation, book, chapter, verses, footnotes })
}

/// Encoding a verse and decoding it back yields the verse, field for field.
pub proof fn lemma_verse_round_trip(v: VerseV)
    ensures
        verse_of_json(verse_json(v)) == Some(v),
{
    reveal_strlit("verse");
    reveal_strlit("text");
    reveal_strlit("footnotes");
    let fs = seq![
        ("verse"@, JsonV::UInt(v.verse as u64)),
        ("text"@, JsonV::Str(v.text)),
        ("footnotes"@, opt_strings_json(v.footnotes)),
    ];
    assert(("verse"@).len() == 5);
    assert(("text"@).len() == 4);
    assert(("footnotes"@).len() == 9);
    let fs1 = fs.subrange(1, 3);
    assert(fs1 =~= seq![
        ("text"@, JsonV::Str(v.text)),
        ("footnotes"@, opt_strings_json(v.footnotes)),
    ]);
    let fs2 = fs1.subrange(1, 2);
    assert(fs2 =~= seq![("footnotes"@, opt_strings_json(v.footnotes))]);
    assert(lookup_spec(fs, "verse"@) == Some(JsonV::UInt(v.verse as u64)));
    assert(lookup_spec(fs, "text"@) == lookup_spec(fs1, "text"@));
    assert(lookup_spec(fs1, "text"@) == Some(JsonV::Str(v.text)));
    assert(lookup_spec(fs, "footnotes"@) == lookup_spec(fs1, "footnotes"@));
    assert(lookup_spec(fs1, "footnotes"@) == lookup_spec(fs2, "footnotes"@));
    assert(lookup_spec(fs2, "footnotes"@) == Some(opt_strings_json(v.footnotes)));
    match v.footnotes {
        Some(fls) => {
            let items = strings_json(fls);
            assert(forall|i: int| 0 <= i < items.len() ==> (#[trigger] items[i]) is Str);
            assert(Seq::new(items.len(), |i: int| str_of(items[i])) =~= fls);
            assert(opt_strings_of(fs, "footnotes"@) == Some(Some(fls)));
        },
        None => {
            assert(opt_strings_of(fs, "footnotes"@) == Some(Option::<Seq<Seq<char>>>::None));
        },
    }
    assert(verse_of_json(verse_json(v)) == Some(v));
}

/// Encoding a footnote and decoding it back yields the footnote.
pub proof fn lemma_footnote_round_trip(f: FootnoteV)
    ensures
        footnote_of_json(footnote_json(f)) == Some(f),
{
    reveal_strlit("id");
    reveal_strlit("text");
    let fs = seq![("id"@, JsonV::Str(f.id)), ("text"@, JsonV::Str(f.text))];
    assert(("id"@).len() == 2);
    assert(("text"@).len() == 4);
    let fs1 = fs.subrange(1, 2);
    assert(fs1 =~= seq![("text"@, JsonV::Str(f.text))]);
    assert(lookup_spec(fs, "id"@) == Some(JsonV::Str(f.id)));
    assert(lookup_spec(fs, "text"@) == lookup_spec(fs1, "text"@));
    assert(lookup_spec(fs1, "text"@) == Some(JsonV::Str(f.text)));
    assert(footnote_of_json(footnote_json(f)) == Some(f));
}

/// Encoding a chapter record and decoding it back yields an equal record,
/// field for field.
pub proof fn lemma_chapter_round_trip(c: ChapterV)
    ensures
        chapter_of_json(chapter_json(c)) == Some(c),
{
    reveal_strlit("translation");
    reveal_strlit("book");
    reveal_strlit("chapter");
    reveal_strlit("verses");
    reveal_strlit("footnotes");
    let items = Seq::new(c.verses.len(), |i: int| verse_json(c.verses[i]));
    let fs = seq![
        ("translation"@, JsonV::Str(c.translation)),
        ("book"@, JsonV::Str(c.book)),
        ("chapter"@, JsonV::UInt(c.chapter as u64)),
        ("verses"@, JsonV::Arr(items)),
        ("footnotes"@, footnotes_json(c.footnotes)),
    ];
    assert(("translation"@).len() == 11);
    assert(("book"@).len() == 4);
    assert(("chapter"@).len() == 7);
    assert(("verses"@).len() == 6);
    assert(("footnotes"@).len() == 9);
    let fs1 = fs.subrange(1, 5);
    assert(fs1 =~= seq![
        ("book"@, JsonV::Str(c.book)),
        ("chapter"@, JsonV::UInt(c.chapter as u64)),
        ("verses"@, JsonV::Arr(items)),
        ("footnotes"@, footnotes_json(c.footnotes)),
    ]);
    let fs2 = fs1.subrange(1, 4);
    assert(fs2 =~= seq![
        ("chapter"@, JsonV::UInt(c.chapter as u64)),
        ("verses"@, JsonV::Arr(items)),
        ("footnotes"@, footnotes_json(c.footnotes)),
    ]);
    let fs3 = fs2.subrange(1, 3);
    assert(fs3 =~= seq![
        ("verses"@, JsonV::Arr(items)),
        ("footnotes"@, footnotes_json(c.footnotes)),
    ]);
    let fs4 = fs3.subrange(1, 2);
    assert(fs4 =~= seq![("footnotes"@, footnotes_json(c.footnotes))]);
    assert(lookup_spec(fs, "translation"@) == Some(JsonV::Str(c.translation)));
    assert(lookup_spec(fs, "book"@) == lookup_spec(fs1, "book"@));
    assert(lookup_spec(fs1, "book"@) == Some(JsonV::Str(c.book)));
    assert(lookup_spec(fs, "chapter"@) == lookup_spec(fs1, "chapter"@));
    assert(lookup_spec(fs1, "chapter"@) == lookup_spec(fs2, "chapter"@));
    assert(lookup_spec(fs2, "chapter"@) == Some(JsonV::UInt(c.chapter as u64)));
    assert(lookup_spec(fs, "verses"@) == lookup_spec(fs1, "verses"@));
    assert(lookup_spec(fs1, "verses"@) == lookup_spec(fs2, "verses"@));
    assert(lookup_spec(fs2, "verses"@) == lookup_spec(fs3, "verses"@));
    assert(lookup_spec(fs3, "verses"@) == Some(JsonV::Arr(items)));
    assert(lookup_spec(fs, "footnotes"@) == lookup_spec(fs1, "footnotes"@));
    assert(lookup_spec(fs1, "footnotes"@) == lookup_spec(fs2, "footnotes"@));
    assert(lookup_spec(fs2, "footnotes"@) == lookup_spec(fs3, "footnotes"@));
    assert(lookup_spec(fs3, "footnotes"@) == lookup_spec(fs4, "footnotes"@));
    assert(lookup_spec(fs4, "footnotes"@) == Some(footnotes_json(c.footnotes)));
    assert forall|i: int| 0 <= i < items.len() implies verse_of_json(
        #[trigger] items[i],
    ) is Some by {
        lemma_verse_round_trip(c.verses[i]);
    }
    assert forall|i: int| 0 <= i < items.len() implies verses_of_json_items(items)[i]
        == c.verses[i] by {
        lemma_verse_round_trip(c.verses[i]);
    }
    assert(verses_of_json_items(items) =~= c.verses);
    match c.footnotes {
        Some(fls) => {
            let fitems = Seq::new(fls.len(), |i: int| footnote_json(fls[i]));
            assert forall|i: int| 0 <= i < fitems.len() implies footnote_of_json(
                #[trigger] fitems[i],
            ) is Some by {
                lemma_footnote_round_trip(fls[i]);
            }
            assert forall|i: int| 0 <= i < fitems.len() implies footnotes_of_json_items(
                fitems,
            )[i] == fls[i] by {
                lemma_footnote_round_trip(fls[i]);
            }
            assert(footnotes_of_json_items(fitems) =~= fls);
            assert(opt_footnotes_of(fs, "footnotes"@) == Some(Some(fls)));
        },
        None => {
            assert(opt_footnotes_of(fs, "footnotes"@) == Some(
                Option::<Seq<FootnoteV>>::None,
            ));
        },
    }
    assert(chapter_of_json(chapter_json(c)) == Some(c));
}

} // verus!
