use thebible::json::Json;
use thebible::resolve::FormatError;
use thebible::helloao::{chapter_from_response, commentary_from_response};

fn s(x: &str) -> String {
    String::from(x)
}

fn verse_node(number: u64, frags: Vec<Json>) -> Json {
    Json::Obj(vec![
        (s("type"), Json::Str(s("verse"))),
        (s("number"), Json::UInt(number)),
        (s("content"), Json::Arr(frags)),
    ])
}

#[test]
fn verse_nodes_flatten_and_headings_drop() {
    let chapter_obj = Json::Obj(vec![(
        s("content"),
        Json::Arr(vec![
            verse_node(
                3,
                vec![
                    Json::Str(s("In ")),
                    Json::Str(s("the ")),
                    Json::Str(s("beginning")),
                ],
            ),
            Json::Obj(vec![
                (s("type"), Json::Str(s("heading"))),
                (s("content"), Json::Arr(vec![Json::Str(s("Title"))])),
            ]),
        ]),
    )]);
    let payload = Json::Obj(vec![(s("chapter"), chapter_obj)]);
    let c = chapter_from_response(&payload, &s("ENGESV"), &s("GEN"), 1).unwrap();
    assert_eq!(c.verses.len(), 1);
    assert_eq!(c.verses[0].verse, 3);
    assert_eq!(c.verses[0].text, "In  the  beginning");
    // No "number" member on the chapter object: the caller's number stands.
    assert_eq!(c.chapter, 1);
}

#[test]
fn fragments_join_with_single_spaces() {
    let chapter_obj = Json::Obj(vec![(
        s("content"),
        Json::Arr(vec![verse_node(
            3,
            vec![
                Json::Str(s("In")),
                Json::Str(s("the")),
                Json::Str(s("beginning")),
            ],
        )]),
    )]);
    let payload = Json::Obj(vec![(s("chapter"), chapter_obj)]);
    let c = chapter_from_response(&payload, &s("ENGESV"), &s("GEN"), 1).unwrap();
    assert_eq!(c.verses[0].text, "In the beginning");
}

#[test]
fn missing_content_yields_empty_chapter_with_fallback_number() {
    let payload = Json::Obj(vec![(s("chapter"), Json::Obj(vec![]))]);
    let c = chapter_from_response(&payload, &s("ENGESV"), &s("GEN"), 42).unwrap();
    assert_eq!(c.verses.len(), 0);
    assert_eq!(c.chapter, 42);
    assert_eq!(c.translation, "ENGESV");
    assert_eq!(c.book, "GEN");
    assert_eq!(c.footnotes, None);
}

#[test]
fn non_array_content_counts_as_empty() {
    let payload = Json::Obj(vec![(
        s("chapter"),
        Json::Obj(vec![(s("content"), Json::Str(s("oops")))]),
    )]);
    let c = chapter_from_response(&payload, &s("T"), &s("B"), 7).unwrap();
    assert_eq!(c.verses.len(), 0);
}

#[test]
fn upstream_number_wins_over_fallback() {
    let payload = Json::Obj(vec![(
        s("chapter"),
        Json::Obj(vec![(s("number"), Json::UInt(12))]),
    )]);
    let c = chapter_from_response(&payload, &s("T"), &s("B"), 1).unwrap();
    assert_eq!(c.chapter, 12);
}

#[test]
fn numbers_narrow_like_a_plain_cast() {
    // Values beyond 32 bits keep their low half, as a narrowing cast would.
    let payload = Json::Obj(vec![(
        s("chapter"),
        Json::Obj(vec![
            (s("number"), Json::UInt(0x1_0000_0003)),
            (
                s("content"),
                Json::Arr(vec![verse_node(0x1_0000_0005, vec![Json::Str(s("x"))])]),
            ),
        ]),
    )]);
    let c = chapter_from_response(&payload, &s("T"), &s("B"), 1).unwrap();
    assert_eq!(c.chapter, 3);
    assert_eq!(c.verses[0].verse, 5);
}

#[test]
fn non_string_fragments_are_dropped_silently() {
    let payload = Json::Obj(vec![(
        s("chapter"),
        Json::Obj(vec![(
            s("content"),
            Json::Arr(vec![verse_node(
                1,
                vec![
                    Json::Str(s("Hello")),
                    Json::UInt(5),
                    Json::Null,
                    Json::Str(s("world")),
                ],
            )]),
        )]),
    )]);
    let c = chapter_from_response(&payload, &s("T"), &s("B"), 1).unwrap();
    assert_eq!(c.verses[0].text, "Hello world");
}

#[test]
fn nodes_missing_number_or_content_are_skipped() {
    let payload = Json::Obj(vec![(
        s("chapter"),
        Json::Obj(vec![(
            s("content"),
            Json::Arr(vec![
                Json::Obj(vec![
                    (s("type"), Json::Str(s("verse"))),
                    (s("content"), Json::Arr(vec![Json::Str(s("no number"))])),
                ]),
                Json::Obj(vec![
                    (s("type"), Json::Str(s("verse"))),
                    (s("number"), Json::UInt(2)),
                ]),
                Json::Obj(vec![
                    (s("type"), Json::Str(s("verse"))),
                    (s("number"), Json::UInt(3)),
                    (s("content"), Json::Str(s("not an array"))),
                ]),
                verse_node(4, vec![Json::Str(s("kept"))]),
            ]),
        )]),
    )]);
    let c = chapter_from_response(&payload, &s("T"), &s("B"), 1).unwrap();
    assert_eq!(c.verses.len(), 1);
    assert_eq!(c.verses[0].verse, 4);
    assert_eq!(c.verses[0].text, "kept");
}

#[test]
fn missing_chapter_member_is_unexpected_format() {
    let payload = Json::Obj(vec![(s("nothing"), Json::Null)]);
    assert_eq!(
        chapter_from_response(&payload, &s("T"), &s("B"), 1).unwrap_err(),
        FormatError::UnexpectedFormat
    );
    let bare = Json::Arr(vec![]);
    assert_eq!(
        chapter_from_response(&bare, &s("T"), &s("B"), 1).unwrap_err(),
        FormatError::UnexpectedFormat
    );
}

#[test]
fn non_object_chapter_member_yields_empty_chapter() {
    // A "chapter" member of the wrong shape still resolves: every read on
    // it misses, so the chapter is empty with the fallback number.
    let payload = Json::Obj(vec![(s("chapter"), Json::Str(s("odd")))]);
    let c = chapter_from_response(&payload, &s("T"), &s("B"), 9).unwrap();
    assert_eq!(c.chapter, 9);
    assert_eq!(c.verses.len(), 0);
}

#[test]
fn commentary_chapter_flattens_the_same_way() {
    let payload = Json::Obj(vec![(
        s("chapter"),
        Json::Obj(vec![
            (s("number"), Json::UInt(2)),
            (
                s("content"),
                Json::Arr(vec![
                    verse_node(1, vec![Json::Str(s("A")), Json::Str(s("note"))]),
                    Json::Obj(vec![(s("type"), Json::Str(s("heading")))]),
                ]),
            ),
        ]),
    )]);
    let c = commentary_from_response(&payload, &s("matthew-henry"), &s("GEN"), 5).unwrap();
    assert_eq!(c.commentary_id, "matthew-henry");
    assert_eq!(c.book, "GEN");
    assert_eq!(c.chapter, 2);
    assert_eq!(c.verses.len(), 1);
    assert_eq!(c.verses[0].verse, 1);
    assert_eq!(c.verses[0].content, "A note");
}

#[test]
fn numbers_outside_u64_range_count_as_non_numeric() {
    // A fractional or negative upstream number reads as non-numeric: a
    // chapter number falls back, a verse node missing its number is skipped.
    let payload = Json::Obj(vec![(
        s("chapter"),
        Json::Obj(vec![
            (s("number"), Json::NumOther),
            (
                s("content"),
                Json::Arr(vec![Json::Obj(vec![
                    (s("type"), Json::Str(s("verse"))),
                    (s("number"), Json::NumOther),
                    (s("content"), Json::Arr(vec![Json::Str(s("skipped"))])),
                ])]),
            ),
        ]),
    )]);
    let c = chapter_from_response(&payload, &s("T"), &s("B"), 8).unwrap();
    assert_eq!(c.chapter, 8);
    assert_eq!(c.verses.len(), 0);
}
