//! Records of the keyed, structured REST API (languages, bibles, books,
//! chapters, verses, videos) and the request URLs its operations use. The
//! payloads of this API deserialize directly into these records: no shape
//! tolerance and no flattening, so the compute part of each operation is
//! its URL.

use vstd::prelude::*;
use vstd::string::StringExecFns;

verus! {

/// A language the keyed API offers.
#[derive(Debug, Clone, PartialEq)]
pub struct Language {
    pub id: String,
    pub name: String,
    pub iso: Option<String>,
    pub iso_name: Option<String>,
}

/// A bible of a language.
#[derive(Debug, Clone, PartialEq)]
pub struct Bible {
    pub id: String,
    pub dbl_id: Option<String>,
    pub abbreviation: String,
    pub name: String,
    pub name_local: Option<String>,
    pub description: Option<String>,
    pub description_local: Option<String>,
    pub language: Option<Language>,
}

/// A book of a bible.
#[derive(Debug, Clone, PartialEq)]
pub struct Book {
    pub id: String,
    pub bible_id: String,
    pub abbreviation: String,
    pub name: String,
    pub name_long: String,
    pub chapters: Option<Vec<Chapter>>,
}

/// A chapter of a book.
#[derive(Debug, Clone, PartialEq)]
pub struct Chapter {
    pub id: String,
    pub bible_id: String,
    pub book_id: String,
    pub number: String,
    pub content: Option<String>,
}

/// A verse of a chapter.
#[derive(Debug, Clone, PartialEq)]
pub struct Verse {
    pub id: String,
    pub bible_id: String,
    pub book_id: String,
    pub chapter_id: String,
    pub number: String,
}

/// The content of one verse.
#[derive(Debug, Clone, PartialEq)]
pub struct VerseContent {
    pub id: String,
    pub bible_id: String,
    pub book_id: String,
    pub chapter_id: String,
    pub verse_id: String,
    pub content: String,
    pub reference: Option<String>,
}

/// A video resource, scoped to a bible, book or chapter, or global.
#[derive(Debug, Clone, PartialEq)]
pub struct Video {
    pub id: String,
    pub bible_id: Option<String>,
    pub book_id: Option<String>,
    pub chapter_id: Option<String>,
    pub verse_id: Option<String>,
    pub url: Option<String>,
    pub thumbnail_url: Option<String>,
    pub duration: Option<u32>,
    pub title: Option<String>,
    pub description: Option<String>,
    pub language_code: Option<String>,
    pub resolution: Option<String>,
    pub size: Option<u64>,
    pub video_type: Option<String>,
}

/// The URL listing all languages.
pub fn languages_url(base: &String) -> (u: String)
    ensures
        u@ == base@ + "/languages"@,
{
    let mut u = base.clone();
    u.append("/languages");
    u
}

/// The URL listing bibles (the language filter travels as a query
/// parameter, not in the path).
pub fn bibles_url(base: &String) -> (u: String)
    ensures
        u@ == base@ + "/bibles"@,
{
    let mut u = base.clone();
    u.append("/bibles");
    u
}

/// The URL listing a bible's books.
pub fn books_url(base: &String, bible_id: &String) -> (u: String)
    ensures
        u@ == base@ + "/bibles/"@ + bible_id@ + "/books"@,
{
    let mut u = base.clone();
    u.append("/bibles/");
    u.append(bible_id.as_str());
    u.append("/books");
    u
}

/// The URL listing a book's chapters.
pub fn chapters_url(base: &String, bible_id: &String, book_id: &String) -> (u: String)
    ensures
        u@ == base@ + "/bibles/"@ + bible_id@ + "/books/"@ + book_id@ + "/chapters"@,
{
    let mut u = base.clone();
    u.append("/bibles/");
    u.append(bible_id.as_str());
    u.append("/books/");
    u.append(book_id.as_str());
    u.append("/chapters");
    u
}

/// The URL listing a chapter's verses.
pub fn verses_url(
    base: &String,
    bible_id: &String,
    book_id: &String,
    chapter_id: &String,
) -> (u: String)
    ensures
        u@ == base@ + "/bibles/"@ + bible_id@ + "/books/"@ + book_id@ + "/chapters/"@
            + chapter_id@ + "/verses"@,
{
    let mut u = base.clone();
    u.append("/bibles/");
    u.append(bible_id.as_str());
    u.append("/books/");
    u.append(book_id.as_str());
    u.append("/chapters/");
    u.append(chapter_id.as_str());
    u.append("/verses");
    u
}

/// The URL of one verse's content.
pub fn verse_content_url(
    base: &String,
    bible_id: &String,
    book_id: &String,
    chapter_id: &String,
    verse_id: &String,
) -> (u: String)
    ensures
        u@ == base@ + "/bibles/"@ + bible_id@ + "/books/"@ + book_id@ + "/chapters/"@
            + chapter_id@ + "/verses/"@ + verse_id@,
{
    let mut u = base.clone();
    u.append("/bibles/");
    u.append(bible_id.as_str());
    u.append("/books/");
    u.append(book_id.as_str());
    u.append("/chapters/");
    u.append(chapter_id.as_str());
    u.append("/verses/");
    u.append(verse_id.as_str());
    u
}

/// The URL listing a bible's videos.
pub fn bible_videos_url(base: &String, bible_id: &String) -> (u: String)
    ensures
        u@ == base@ + "/bibles/"@ + bible_id@ + "/videos"@,
{
    let mut u = base.clone();
    u.append("/bibles/");
    u.append(bible_id.as_str());
    u.append("/videos");
    u
}

/// The URL listing a book's videos.
pub fn book_videos_url(base: &String, bible_id: &String, book_id: &String) -> (u: String)
    ensures
        u@ == base@ + "/bibles/"@ + bible_id@ + "/books/"@ + book_id@ + "/videos"@,
{
    let mut u = base.clone();
    u.append("/bibles/");
    u.append(bible_id.as_str());
    u.append("/books/");
    u.append(book_id.as_str());
    u.append("/videos");
    u
}

/// The URL listing a chapter's videos.
pub fn chapter_videos_url(
    base: &String,
    bible_id: &String,
    book_id: &String,
    chapter_id: &String,
) -> (u: String)
    ensures
        u@ == base@ + "/bibles/"@ + bible_id@ + "/books/"@ + book_id@ + "/chapters/"@
            + chapter_id@ + "/videos"@,
{
    let mut u = base.clone();
    u.append("/bibles/");
    u.append(bible_id.as_str());
    u.append("/books/");
    u.append(book_id.as_str());
    u.append("/chapters/");
    u.append(chapter_id.as_str());
    u.append("/videos");
    u
}

/// The URL listing all videos.
pub fn videos_url(base: &String) -> (u: String)
    ensures
        u@ == base@ + "/videos"@,
{
    let mut u = base.clone();
    u.append("/videos");
    u
}

} // verus!
