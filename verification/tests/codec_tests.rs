use thebible::json::Json;
use thebible::helloao::{Chapter, Verse, Footnote};
use thebible::codec::{chapter_to_json, chapter_from_json};

fn s(x: &str) -> String {
    String::from(x)
}

fn sample_chapter() -> Chapter {
    Chapter {
        translation: s("ENGESV"),
        book: s("GEN"),
        chapter: 1,
        verses: vec![
            Verse { verse: 1, text: s("In the beginning"), footnotes: None },
            Verse {
                verse: 2,
                text: s("And the earth"),
                footnotes: Some(vec![s("a"), s("b")]),
            },
        ],
        footnotes: Some(vec![Footnote { id: s("f1"), text: s("a note") }]),
    }
}

#[test]
fn chapter_round_trips_field_for_field() {
    let c = sample_chapter();
    let encoded = chapter_to_json(&c);
    let decoded = chapter_from_json(&encoded).unwrap();
    assert_eq!(decoded, c);
}

#[test]
fn chapter_without_footnotes_round_trips() {
    let c = Chapter {
        translation: s("T"),
        book: s("B"),
        chapter: 7,
        verses: vec![],
        footnotes: None,
    };
    let decoded = chapter_from_json(&chapter_to_json(&c)).unwrap();
    assert_eq!(decoded, c);
}

#[test]
fn decode_requires_the_mandatory_members() {
    let missing_verses = Json::Obj(vec![
        (s("translation"), Json::Str(s("T"))),
        (s("book"), Json::Str(s("B"))),
        (s("chapter"), Json::UInt(1)),
    ]);
    assert!(chapter_from_json(&missing_verses).is_none());

    let bad_chapter_number = Json::Obj(vec![
        (s("translation"), Json::Str(s("T"))),
        (s("book"), Json::Str(s("B"))),
        (s("chapter"), Json::Str(s("one"))),
        (s("verses"), Json::Arr(vec![])),
    ]);
    assert!(chapter_from_json(&bad_chapter_number).is_none());
}

#[test]
fn decode_tolerates_missing_or_null_footnotes() {
    let base = || {
        vec![
            (s("translation"), Json::Str(s("T"))),
            (s("book"), Json::Str(s("B"))),
            (s("chapter"), Json::UInt(3)),
            (s("verses"), Json::Arr(vec![])),
        ]
    };
    let missing = Json::Obj(base());
    let c = chapter_from_json(&missing).unwrap();
    assert_eq!(c.footnotes, None);

    let mut with_null = base();
    with_null.push((s("footnotes"), Json::Null));
    let c2 = chapter_from_json(&Json::Obj(with_null)).unwrap();
    assert_eq!(c2.footnotes, None);
}

#[test]
fn encoded_chapter_has_expected_members() {
    let c = sample_chapter();
    let encoded = chapter_to_json(&c);
    match encoded {
        Json::Obj(fields) => {
            let keys: Vec<&str> = fields.iter().map(|f| f.0.as_str()).collect();
            assert_eq!(
                keys,
                vec!["translation", "book", "chapter", "verses", "footnotes"]
            );
            match &fields[3].1 {
                Json::Arr(items) => assert_eq!(items.len(), 2),
                other => panic!("verses should encode as an array, got {:?}", other),
            }
        },
        other => panic!("a chapter should encode as an object, got {:?}", other),
    }
}
