//! Records of the shape-tolerant Bible API and their decoders.
//!
//! List endpoints deliver JSON that is either a bare array of records or an
//! object wrapping that array under a collection-named field; chapter
//! endpoints deliver an object whose `chapter` member holds a nested content
//! tree. The functions here resolve those shapes into plain records; every
//! decoder is specified against a spec-level decode of the JSON view.

use vstd::prelude::*;
use crate::json::{Json, JsonV, jget, view_arr, lemma_view_arr_len, lemma_view_arr_index};
use crate::fields::{req_string_spec, opt_string_spec, opt_u32_spec, field_req_string,
    field_opt_string, field_opt_u32};
use crate::flatten::{verses_of_content, chapter_number_spec, chapter_content_spec,
    chapter_number, chapter_content, verse_pairs};
use crate::resolve::{FormatError, resolve_spec, resolve_items};
use crate::numeric::{dec_str, u32_to_string};
use vstd::string::StringExecFns;

verus! {

/// A translation (edition) of the source text.
#[derive(Debug, Clone, PartialEq)]
pub struct Translation {
    pub id: String,
    pub name: String,
    pub language: Option<String>,
    pub english_name: Option<String>,
    pub language_name: Option<String>,
    pub language_english_name: Option<String>,
    pub short_name: Option<String>,
    pub description: Option<String>,
}

/// The mathematical view of a [`Translation`].
pub struct TranslationV {
    pub id: Seq<char>,
    pub name: Seq<char>,
    pub language: Option<Seq<char>>,
    pub english_name: Option<Seq<char>>,
    pub language_name: Option<Seq<char>>,
    pub language_english_name: Option<Seq<char>>,
    pub short_name: Option<Seq<char>>,
    pub description: Option<Seq<char>>,
}

impl DeepView for Translation {
    type V = TranslationV;

    open spec fn deep_view(&self) -> TranslationV {
        TranslationV {
            id: self.id@,
            name: self.name@,
            language: self.language.deep_view(),
            english_name: self.english_name.deep_view(),
            language_name: self.language_name.deep_view(),
            language_english_name: self.language_english_name.deep_view(),
            short_name: self.short_name.deep_view(),
            description: self.description.deep_view(),
        }
    }
}

/// A book of a translation.
#[derive(Debug, Clone, PartialEq)]
pub struct Book {
    pub id: String,
    pub name: String,
    pub common_name: Option<String>,
    pub order: Option<u32>,
    pub number_of_chapters: Option<u32>,
}

/// The mathematical view of a [`Book`].
pub struct BookV {
    pub id: Seq<char>,
    pub name: Seq<char>,
    pub common_name: Option<Seq<char>>,
    pub order: Option<u32>,
    pub number_of_chapters: Option<u32>,
}

impl DeepView for Book {
    type V = BookV;

    open spec fn deep_view(&self) -> BookV {
        BookV {
            id: self.id@,
            name: self.name@,
            common_name: self.common_name.deep_view(),
            order: self.order,
            number_of_chapters: self.number_of_chapters,
        }
    }
}

/// A footnote of a chapter.
#[derive(Debug, Clone, PartialEq)]
pub struct Footnote {
    pub id: String,
    pub text: String,
}

/// The mathematical view of a [`Footnote`].
pub struct FootnoteV {
    pub id: Seq<char>,
    pub text: Seq<char>,
}

impl DeepView for Footnote {
    type V = FootnoteV;

    open spec fn deep_view(&self) -> FootnoteV {
        FootnoteV { id: self.id@, text: self.text@ }
    }
}

/// One verse of a chapter: its number and its fragments joined into text.
#[derive(Debug, Clone, PartialEq)]
pub struct Verse {
    pub verse: u32,
    pub text: String,
    pub footnotes: Option<Vec<String>>,
}

/// The mathematical view of a [`Verse`].
pub struct VerseV {
    pub verse: u32,
    pub text: Seq<char>,
    pub footnotes: Option<Seq<Seq<char>>>,
}

impl DeepView for Verse {
    type V = VerseV;

    open spec fn deep_view(&self) -> VerseV {
        VerseV {
            verse: self.verse,
            text: self.text@,
            footnotes: self.footnotes.deep_view(),
        }
    }
}

/// A chapter of a book in a translation, with its flat ordered verse list.
#[derive(Debug, Clone, PartialEq)]
pub struct Chapter {
    pub translation: String,
    pub book: String,
    pub chapter: u32,
    pub verses: Vec<Verse>,
    pub footnotes: Option<Vec<Footnote>>,
}

/// The mathematical view of a [`Chapter`].
pub struct ChapterV {
    pub translation: Seq<char>,
    pub book: Seq<char>,
    pub chapter: u32,
    pub verses: Seq<VerseV>,
    pub footnotes: Option<Seq<FootnoteV>>,
}

impl DeepView for Chapter {
    type V = ChapterV;

    open spec fn deep_view(&self) -> ChapterV {
        ChapterV {
            translation: self.translation@,
            book: self.book@,
            chapter: self.chapter,
            verses: self.verses.deep_view(),
            footnotes: self.footnotes.deep_view(),
        }
    }
}

/// A commentary series.
#[derive(Debug, Clone, PartialEq)]
pub struct Commentary {
    pub id: String,
    pub name: String,
    pub english_name: Option<String>,
    pub language: Option<String>,
    pub language_english_name: Option<String>,
}

/// The mathematical view of a [`Commentary`].
pub struct CommentaryV {
    pub id: Seq<char>,
    pub name: Seq<char>,
    pub english_name: Option<Seq<char>>,
    pub language: Option<Seq<char>>,
    pub language_english_name: Option<Seq<char>>,
}

impl DeepView for Commentary {
    type V = CommentaryV;

    open spec fn deep_view(&self) -> CommentaryV {
        CommentaryV {
            id: self.id@,
            name: self.name@,
            english_name: self.english_name.deep_view(),
            language: self.language.deep_view(),
            language_english_name: self.language_english_name.deep_view(),
        }
    }
}

/// One verse's worth of commentary text.
#[derive(Debug, Clone, PartialEq)]
pub struct CommentaryVerse {
    pub verse: u32,
    pub content: String,
}

/// The mathematical view of a [`CommentaryVerse`].
pub struct CommentaryVerseV {
    pub verse: u32,
    pub content: Seq<char>,
}

impl DeepView for CommentaryVerse {
    type V = CommentaryVerseV;

    open spec fn deep_view(&self) -> CommentaryVerseV {
        CommentaryVerseV { verse: self.verse, content: self.content@ }
    }
}

/// A chapter's worth of commentary, with its flat ordered verse list.
#[derive(Debug, Clone, PartialEq)]
pub struct CommentaryChapter {
    pub commentary_id: String,
    pub book: String,
    pub chapter: u32,
    pub verses: Vec<CommentaryVerse>,
}

/// The mathematical view of a [`CommentaryChapter`].
pub struct CommentaryChapterV {
    pub commentary_id: Seq<char>,
    pub book: Seq<char>,
    pub chapter: u32,
    pub verses: Seq<CommentaryVerseV>,
}

impl DeepView for CommentaryChapter {
    type V = CommentaryChapterV;

    open spec fn deep_view(&self) -> CommentaryChapterV {
        CommentaryChapterV {
            commentary_id: self.commentary_id@,
            book: self.book@,
            chapter: self.chapter,
            verses: self.verses.deep_view(),
        }
    }
}

/// A translation record decoded from a JSON object, with the fields the
/// upstream names in camel case; unknown members are ignored.
pub open spec fn translation_of(v: JsonV) -> Option<TranslationV> {
    match v {
        JsonV::Obj(fs) => {
            let id = req_string_spec(fs, "id"@);
            let name = req_string_spec(fs, "name"@);
            let language = opt_string_spec(fs, "language"@);
            let english_name = opt_string_spec(fs, "englishName"@);
            let language_name = opt_string_spec(fs, "languageName"@);
            let language_english_name = opt_string_spec(fs, "languageEnglishName"@);
            let short_name = opt_string_spec(fs, "shortName"@);
            let description = opt_string_spec(fs, "description"@);
            if id is Some && name is Some && language is Some && english_name is Some
                && language_name is Some && language_english_name is Some
                && short_name is Some && description is Some {
                Some(
                    TranslationV {
                        id: id.unwrap(),
                        name: name.unwrap(),
                        language: language.unwrap(),
                        english_name: english_name.unwrap(),
                        language_name: language_name.unwrap(),
                        language_english_name: language_english_name.unwrap(),
                        short_name: short_name.unwrap(),
                        description: description.unwrap(),
                    },
                )
            } else {
                None
            }
        },
        _ => None,
    }
}

/// Decodes one translation record.
pub fn translation_from_json(v: &Json) -> (r: Option<Translation>)
    ensures
        match r {
            Some(t) => translation_of(v@) == Some(t.deep_view()),
            None => translation_of(v@) is None,
        },
{
    let fields = match v {
        Json::Obj(fields) => fields,
        _ => {
            return None;
        },
    };
    let id = match field_req_string(fields, &"id".to_owned()) {
        Some(x) => x,
        None => {
            return None;
        },
    };
    let name = match field_req_string(fields, &"name".to_owned()) {
        Some(x) => x,
        None => {
            return None;
        },
    };
    let language = match field_opt_string(fields, &"language".to_owned()) {
        Some(x) => x,
        None => {
            return None;
        },
    };
    let english_name = match field_opt_string(fields, &"englishName".to_owned()) {
        Some(x) => x,
        None => {
            return None;
        },
    };
    let language_name = match field_opt_string(fields, &"languageName".to_owned()) {
        Some(x) => x,
        None => {
            return None;
        },
    };
    let language_english_name = match field_opt_string(
        fields,
        &"languageEnglishName".to_owned(),
    ) {
        Some(x) => x,
        None => {
            return None;
        },
    };
    let short_name = match field_opt_string(fields, &"shortName".to_owned()) {
        Some(x) => x,
        None => {
            return None;
        },
    };
    let description = match field_opt_string(fields, &"description".to_owned()) {
        Some(x) => x,
        None => {
            return None;
        },
    };
    Some(
        Translation {
            id,
            name,
            language,
            english_name,
            language_name,
            language_english_name,
            short_name,
            description,
        },
    )
}

/// A book record decoded from a JSON object.
pub open spec fn book_of(v: JsonV) -> Option<BookV> {
    match v {
        JsonV::Obj(fs) => {
            let id = req_string_spec(fs, "id"@);
            let name = req_string_spec(fs, "name"@);
            let common_name = opt_string_spec(fs, "commonName"@);
            let order = opt_u32_spec(fs, "order"@);
            let number_of_chapters = opt_u32_spec(fs, "numberOfChapters"@);
            if id is Some && name is Some && common_name is Some && order is Some
                && number_of_chapters is Some {
                Some(
                    BookV {
                        id: id.unwrap(),
                        name: name.unwrap(),
                        common_name: common_name.unwrap(),
                        order: order.unwrap(),
                        number_of_chapters: number_of_chapters.unwrap(),
                    },
                )
            } else {
                None
            }
        },
        _ => None,
    }
}

/// Decodes one book record.
pub fn book_from_json(v: &Json) -> (r: Option<Book>)
    ensures
        match r {
            Some(b) => book_of(v@) == Some(b.deep_view()),
            None => book_of(v@) is None,
        },
{
    let fields = match v {
        Json::Obj(fields) => fields,
        _ => {
            return None;
        },
    };
    let id = match field_req_string(fields, &"id".to_owned()) {
        Some(x) => x,
        None => {
            return None;
        },
    };
    let name = match field_req_string(fields, &"name".to_owned()) {
        Some(x) => x,
        None => {
            return None;
        },
    };
    let common_name = match field_opt_string(fields, &"commonName".to_owned()) {
        Some(x) => x,
        None => {
            return None;
        },
    };
    let order = match field_opt_u32(fields, &"order".to_owned()) {
        Some(x) => x,
        None => {
            return None;
        },
    };
    let number_of_chapters = match field_opt_u32(fields, &"numberOfChapters".to_owned()) {
        Some(x) => x,
        None => {
            return None;
        },
    };
    Some(Book { id, name, common_name, order, number_of_chapters })
}

/// A commentary record decoded from a JSON object.
pub open spec fn commentary_of(v: JsonV) -> Option<CommentaryV> {
    match v {
        JsonV::Obj(fs) => {
            let id = req_string_spec(fs, "id"@);
            let name = req_string_spec(fs, "name"@);
            let english_name = opt_string_spec(fs, "englishName"@);
            let language = opt_string_spec(fs, "language"@);
            let language_english_name = opt_string_spec(fs, "languageEnglishName"@);
            if id is Some && name is Some && english_name is Some && language is Some
                && language_english_name is Some {
                Some(
                    CommentaryV {
                        id: id.unwrap(),
                        name: name.unwrap(),
                        english_name: english_name.unwrap(),
                        language: language.unwrap(),
                        language_english_name: language_english_name.unwrap(),
                    },
                )
            } else {
                None
            }
        },
        _ => None,
    }
}

/// Decodes one commentary record.
pub fn commentary_from_json(v: &Json) -> (r: Option<Commentary>)
    ensures
        match r {
            Some(c) => commentary_of(v@) == Some(c.deep_view()),
            None => commentary_of(v@) is None,
        },
{
    let fields = match v {
        Json::Obj(fields) => fields,
        _ => {
            return None;
        },
    };
    let id = match field_req_string(fields, &"id".to_owned()) {
        Some(x) => x,
        None => {
            return None;
        },
    };
    let name = match field_req_string(fields, &"name".to_owned()) {
        Some(x) => x,
        None => {
            return None;
        },
    };
    let english_name = match field_opt_string(fields, &"englishName".to_owned()) {
        Some(x) => x,
        None => {
            return None;
        },
    };
    let language = match field_opt_string(fields, &"language".to_owned()) {
        Some(x) => x,
        None => {
            return None;
        },
    };
    let language_english_name = match field_opt_string(
        fields,
        &"languageEnglishName".to_owned(),
    ) {
        Some(x) => x,
        None => {
            return None;
        },
    };
    Some(Commentary { id, name, english_name, language, language_english_name })
}

/// Every item of a list payload decodes as a translation.
pub open spec fn all_translations_decode(items: Seq<JsonV>) -> bool {
    forall|i: int| 0 <= i < items.len() ==> translation_of(#[trigger] items[i]) is Some
}

/// The translations a fully-decodable list payload holds, in order.
pub open spec fn translations_of_items(items: Seq<JsonV>) -> Seq<TranslationV> {
    Seq::new(items.len(), |i: int| translation_of(items[i]).unwrap())
}

/// Decodes every item of a list as a translation; one bad item fails the
/// whole list, as a typed decode of the array would.
pub fn translations_from_items(items: &Vec<Json>) -> (r: Option<Vec<Translation>>)
    ensures
        match r {
            Some(ts) => all_translations_decode(view_arr(items@)) && ts.deep_view()
                == translations_of_items(view_arr(items@)),
            None => !all_translations_decode(view_arr(items@)),
        },
{
    proof {
        lemma_view_arr_len(items@);
    }
    let mut out: Vec<Translation> = Vec::new();
    let mut i: usize = 0;
    while i < items.len()
        invariant
            i <= items.len(),
            items@.len() == view_arr(items@).len(),
            out@.len() == i,
            forall|j: int| 0 <= j < i ==> translation_of(
                #[trigger] view_arr(items@)[j],
            ) is Some,
            forall|j: int| 0 <= j < i ==> (#[trigger] out@[j]).deep_view() == translation_of(
                view_arr(items@)[j],
            ).unwrap(),
        decreases items.len() - i,
    {
        proof {
            lemma_view_arr_index(items@, i as int);
        }
        match translation_from_json(&items[i]) {
            Some(t) => out.push(t),
            None => {
                return None;
            },
        }
        i = i + 1;
    }
    proof {
        assert(out.deep_view() =~= translations_of_items(view_arr(items@)));
    }
    Some(out)
}

/// Every item of a list payload decodes as a book.
pub open spec fn all_books_decode(items: Seq<JsonV>) -> bool {
    forall|i: int| 0 <= i < items.len() ==> book_of(#[trigger] items[i]) is Some
}

/// The books a fully-decodable list payload holds, in order.
pub open spec fn books_of_items(items: Seq<JsonV>) -> Seq<BookV> {
    Seq::new(items.len(), |i: int| book_of(items[i]).unwrap())
}

/// Decodes every item of a list as a book.
pub fn books_from_items(items: &Vec<Json>) -> (r: Option<Vec<Book>>)
    ensures
        match r {
            Some(bs) => all_books_decode(view_arr(items@)) && bs.deep_view() == books_of_items(
                view_arr(items@),
            ),
            None => !all_books_decode(view_arr(items@)),
        },
{
    proof {
        lemma_view_arr_len(items@);
    }
    let mut out: Vec<Book> = Vec::new();
    let mut i: usize = 0;
    while i < items.len()
        invariant
            i <= items.len(),
            items@.len() == view_arr(items@).len(),
            out@.len() == i,
            forall|j: int| 0 <= j < i ==> book_of(#[trigger] view_arr(items@)[j]) is Some,
            forall|j: int| 0 <= j < i ==> (#[trigger] out@[j]).deep_view() == book_of(
                view_arr(items@)[j],
            ).unwrap(),
        decreases items.len() - i,
    {
        proof {
            lemma_view_arr_index(items@, i as int);
        }
        match book_from_json(&items[i]) {
            Some(b) => out.push(b),
            None => {
                return None;
            },
        }
        i = i + 1;
    }
    proof {
        assert(out.deep_view() =~= books_of_items(view_arr(items@)));
    }
    Some(out)
}

/// Every item of a list payload decodes as a commentary.
pub open spec fn all_commentaries_decode(items: Seq<JsonV>) -> bool {
    forall|i: int| 0 <= i < items.len() ==> commentary_of(#[trigger] items[i]) is Some
}

/// The commentaries a fully-decodable list payload holds, in order.
pub open spec fn commentaries_of_items(items: Seq<JsonV>) -> Seq<CommentaryV> {
    Seq::new(items.len(), |i: int| commentary_of(items[i]).unwrap())
}

/// Decodes every item of a list as a commentary.
pub fn commentaries_from_items(items: &Vec<Json>) -> (r: Option<Vec<Commentary>>)
    ensures
        match r {
            Some(cs) => all_commentaries_decode(view_arr(items@)) && cs.deep_view()
                == commentaries_of_items(view_arr(items@)),
            None => !all_commentaries_decode(view_arr(items@)),
        },
{
    proof {
        lemma_view_arr_len(items@);
    }
    let mut out: Vec<Commentary> = Vec::new();
    let mut i: usize = 0;
    while i < items.len()
        invariant
            i <= items.len(),
            items@.len() == view_arr(items@).len(),
            out@.len() == i,
            forall|j: int| 0 <= j < i ==> commentary_of(#[trigger] view_arr(items@)[j]) is Some,
            forall|j: int| 0 <= j < i ==> (#[trigger] out@[j]).deep_view() == commentary_of(
                view_arr(items@)[j],
            ).unwrap(),
        decreases items.len() - i,
    {
        proof {
            lemma_view_arr_index(items@, i as int);
        }
        match commentary_from_json(&items[i]) {
            Some(c) => out.push(c),
            None => {
                return None;
            },
        }
        i = i + 1;
    }
    proof {
        assert(out.deep_view() =~= commentaries_of_items(view_arr(items@)));
    }
    Some(out)
}

/// The verse records a chapter's flattened pairs become.
pub open spec fn verse_records(ps: Seq<(u32, Seq<char>)>) -> Seq<VerseV> {
    Seq::new(ps.len(), |i: int| (VerseV { verse: ps[i].0, text: ps[i].1, footnotes: None }))
}

/// The commentary-verse records a chapter's flattened pairs become.
pub open spec fn commentary_verse_records(ps: Seq<(u32, Seq<char>)>) -> Seq<CommentaryVerseV> {
    Seq::new(ps.len(), |i: int| (CommentaryVerseV { verse: ps[i].0, content: ps[i].1 }))
}

/// What a chapter endpoint's payload means: the payload must carry a
/// `chapter` member (else the shape is unexpected); that member's number
/// and flattened content become the chapter record, the identifiers coming
/// from the request.
pub open spec fn chapter_payload(
    v: JsonV,
    translation: Seq<char>,
    book: Seq<char>,
    fallback: u32,
) -> Result<ChapterV, FormatError> {
    match jget(v, "chapter"@) {
        Some(ch) => Ok(
            (ChapterV {
                translation,
                book,
                chapter: chapter_number_spec(ch, fallback),
                verses: verse_records(verses_of_content(chapter_content_spec(ch))),
                footnotes: None,
            }),
        ),
        None => Err(FormatError::UnexpectedFormat),
    }
}

/// What a commentary-chapter endpoint's payload means.
pub open spec fn commentary_payload(
    v: JsonV,
    commentary_id: Seq<char>,
    book: Seq<char>,
    fallback: u32,
) -> Result<CommentaryChapterV, FormatError> {
    match jget(v, "chapter"@) {
        Some(ch) => Ok(
            (CommentaryChapterV {
                commentary_id,
                book,
                chapter: chapter_number_spec(ch, fallback),
                verses: commentary_verse_records(verses_of_content(chapter_content_spec(ch))),
            }),
        ),
        None => Err(FormatError::UnexpectedFormat),
    }
}

/// Builds a chapter record from a chapter endpoint's parsed payload.
pub fn chapter_from_response(
    v: &Json,
    translation: &String,
    book: &String,
    chapter: u32,
) -> (r: Result<Chapter, FormatError>)
    ensures
        match r {
            Ok(c) => chapter_payload(v@, translation@, book@, chapter) == Ok::<
                ChapterV,
                FormatError,
            >(c.deep_view()),
            Err(e) => chapter_payload(v@, translation@, book@, chapter) == Err::<
                ChapterV,
                FormatError,
            >(e),
        },
{
    let ch = match v.get(&"chapter".to_owned()) {
        Some(ch) => ch,
        None => {
            return Err(FormatError::UnexpectedFormat);
        },
    };
    let number = chapter_number(ch, chapter);
    let pairs = match chapter_content(ch) {
        Some(content) => verse_pairs(content),
        None => {
            let empty_pairs: Vec<(u32, String)> = Vec::new();
            proof {
                assert(empty_pairs.deep_view()
                    =~= verses_of_content(chapter_content_spec(ch@)));
            }
            empty_pairs
        },
    };
    proof {
        assert(pairs.deep_view() == verses_of_content(chapter_content_spec(ch@)));
    }
    let mut verses: Vec<Verse> = Vec::new();
    let ghost pv = pairs.deep_view();
    let mut i: usize = 0;
    while i < pairs.len()
        invariant
            i <= pairs.len(),
            pv == pairs.deep_view(),
            pv.len() == pairs@.len(),
            verses@.len() == i,
            forall|j: int| 0 <= j < i ==> (#[trigger] verses@[j]).deep_view() == (VerseV {
                verse: pv[j].0,
                text: pv[j].1,
                footnotes: None,
            }),
        decreases pairs.len() - i,
    {
        let number_j = pairs[i].0;
        let text_j = pairs[i].1.clone();
        verses.push(Verse { verse: number_j, text: text_j, footnotes: None });
        i = i + 1;
    }
    proof {
        assert(verses.deep_view() =~= verse_records(pv));
    }
    Ok(
        Chapter {
            translation: translation.clone(),
            book: book.clone(),
            chapter: number,
            verses,
            footnotes: None,
        },
    )
}

/// Builds a commentary-chapter record from a commentary endpoint's parsed
/// payload.
pub fn commentary_from_response(
    v: &Json,
    commentary_id: &String,
    book: &String,
    chapter: u32,
) -> (r: Result<CommentaryChapter, FormatError>)
    ensures
        match r {
            Ok(c) => commentary_payload(v@, commentary_id@, book@, chapter) == Ok::<
                CommentaryChapterV,
                FormatError,
            >(c.deep_view()),
            Err(e) => commentary_payload(v@, commentary_id@, book@, chapter) == Err::<
                CommentaryChapterV,
                FormatError,
            >(e),
        },
{
    let ch = match v.get(&"chapter".to_owned()) {
        Some(ch) => ch,
        None => {
            return Err(FormatError::UnexpectedFormat);
        },
    };
    let number = chapter_number(ch, chapter);
    let pairs = match chapter_content(ch) {
        Some(content) => verse_pairs(content),
        None => {
            let empty_pairs: Vec<(u32, String)> = Vec::new();
            proof {
                assert(empty_pairs.deep_view()
                    =~= verses_of_content(chapter_content_spec(ch@)));
            }
            empty_pairs
        },
    };
    proof {
        assert(pairs.deep_view() == verses_of_content(chapter_content_spec(ch@)));
    }
    let mut verses: Vec<CommentaryVerse> = Vec::new();
    let ghost pv = pairs.deep_view();
    let mut i: usize = 0;
    while i < pairs.len()
        invariant
            i <= pairs.len(),
            pv == pairs.deep_view(),
            pv.len() == pairs@.len(),
            verses@.len() == i,
            forall|j: int| 0 <= j < i ==> (#[trigger] verses@[j]).deep_view()
                == (CommentaryVerseV { verse: pv[j].0, content: pv[j].1 }),
        decreases pairs.len() - i,
    {
        let number_j = pairs[i].0;
        let content_j = pairs[i].1.clone();
        verses.push(CommentaryVerse { verse: number_j, content: content_j });
        i = i + 1;
    }
    proof {
        assert(verses.deep_view() =~= commentary_verse_records(pv));
    }
    Ok(
        CommentaryChapter {
            commentary_id: commentary_id.clone(),
            book: book.clone(),
            chapter: number,
            verses,
        },
    )
}

/// What the translations list endpoint's payload means.
pub open spec fn translations_response(v: JsonV) -> Result<Seq<TranslationV>, FormatError> {
    match resolve_spec(v, "translations"@) {
        Ok(items) => if all_translations_decode(items) {
            Ok(translations_of_items(items))
        } else {
            Err(FormatError::Decode)
        },
        Err(e) => Err(e),
    }
}

/// Resolves and decodes a translations list payload.
pub fn translations_from_response(v: &Json) -> (r: Result<Vec<Translation>, FormatError>)
    ensures
        match r {
            Ok(ts) => translations_response(v@) == Ok::<Seq<TranslationV>, FormatError>(
                ts.deep_view(),
            ),
            Err(e) => translations_response(v@) == Err::<Seq<TranslationV>, FormatError>(e),
        },
{
    match resolve_items(v, &"translations".to_owned()) {
        Ok(items) => match translations_from_items(items) {
            Some(ts) => Ok(ts),
            None => Err(FormatError::Decode),
        },
        Err(e) => Err(e),
    }
}

/// What the books list endpoint's payload means.
pub open spec fn books_response(v: JsonV) -> Result<Seq<BookV>, FormatError> {
    match resolve_spec(v, "books"@) {
        Ok(items) => if all_books_decode(items) {
            Ok(books_of_items(items))
        } else {
            Err(FormatError::Decode)
        },
        Err(e) => Err(e),
    }
}

/// Resolves and decodes a books list payload.
pub fn books_from_response(v: &Json) -> (r: Result<Vec<Book>, FormatError>)
    ensures
        match r {
            Ok(bs) => books_response(v@) == Ok::<Seq<BookV>, FormatError>(bs.deep_view()),
            Err(e) => books_response(v@) == Err::<Seq<BookV>, FormatError>(e),
        },
{
    match resolve_items(v, &"books".to_owned()) {
        Ok(items) => match books_from_items(items) {
            Some(bs) => Ok(bs),
            None => Err(FormatError::Decode),
        },
        Err(e) => Err(e),
    }
}

/// What the commentaries list endpoint's payload means.
pub open spec fn commentaries_response(v: JsonV) -> Result<Seq<CommentaryV>, FormatError> {
    match resolve_spec(v, "commentaries"@) {
        Ok(items) => if all_commentaries_decode(items) {
            Ok(commentaries_of_items(items))
        } else {
            Err(FormatError::Decode)
        },
        Err(e) => Err(e),
    }
}

/// Resolves and decodes a commentaries list payload.
pub fn commentaries_from_response(v: &Json) -> (r: Result<Vec<Commentary>, FormatError>)
    ensures
        match r {
            Ok(cs) => commentaries_response(v@) == Ok::<Seq<CommentaryV>, FormatError>(
                cs.deep_view(),
            ),
            Err(e) => commentaries_response(v@) == Err::<Seq<CommentaryV>, FormatError>(e),
        },
{
    match resolve_items(v, &"commentaries".to_owned()) {
        Ok(items) => match commentaries_from_items(items) {
            Some(cs) => Ok(cs),
            None => Err(FormatError::Decode),
        },
        Err(e) => Err(e),
    }
}

/// The URL listing all translations.
pub fn translations_url(base: &String) -> (u: String)
    ensures
        u@ == base@ + "/available_translations.json"@,
{
    let mut u = base.clone();
    u.append("/available_translations.json");
    u
}

/// The URL listing a translation's books.
pub fn books_url(base: &String, translation: &String) -> (u: String)
    ensures
        u@ == base@ + "/"@ + translation@ + "/books.json"@,
{
    let mut u = base.clone();
    u.append("/");
    u.append(translation.as_str());
    u.append("/books.json");
    u
}

/// The URL of one chapter of a book.
pub fn chapter_url(base: &String, translation: &String, book: &String, chapter: u32) -> (u:
    String)
    ensures
        u@ == base@ + "/"@ + translation@ + "/"@ + book@ + "/"@ + dec_str(chapter as nat)
            + ".json"@,
{
    let mut u = base.clone();
    u.append("/");
    u.append(translation.as_str());
    u.append("/");
    u.append(book.as_str());
    u.append("/");
    let num = u32_to_string(chapter);
    u.append(num.as_str());
    u.append(".json");
    u
}

/// The URL listing all commentaries.
pub fn commentaries_url(base: &String) -> (u: String)
    ensures
        u@ == base@ + "/available_commentaries.json"@,
{
    let mut u = base.clone();
    u.append("/available_commentaries.json");
    u
}

/// The URL of one chapter's worth of a commentary.
pub fn commentary_url(
    base: &String,
    commentary_id: &String,
    book: &String,
    chapter: u32,
) -> (u: String)
    ensures
        u@ == base@ + "/c/"@ + commentary_id@ + "/"@ + book@ + "/"@ + dec_str(chapter as nat)
            + ".json"@,
{
    let mut u = base.clone();
    u.append("/c/");
    u.append(commentary_id.as_str());
    u.append("/");
    u.append(book.as_str());
    u.append("/");
    let num = u32_to_string(chapter);
    u.append(num.as_str());
    u.append(".json");
    u
}

} // verus!
