use thebible::json::Json;
use thebible::resolve::FormatError;
use thebible::helloao::{
    translations_from_response, books_from_response, commentaries_from_response,
    translation_from_json, book_from_json,
};

fn s(x: &str) -> String {
    String::from(x)
}

fn translation_obj(id: &str, name: &str) -> Json {
    Json::Obj(vec![
        (s("id"), Json::Str(s(id))),
        (s("name"), Json::Str(s(name))),
    ])
}

#[test]
fn bare_array_resolves_like_direct_decode() {
    let bare = Json::Arr(vec![
        translation_obj("ENGESV", "English Standard Version"),
        translation_obj("ENGKJV", "King James Version"),
    ]);
    let ts = translations_from_response(&bare).unwrap();
    assert_eq!(ts.len(), 2);
    assert_eq!(ts[0].id, "ENGESV");
    assert_eq!(ts[1].id, "ENGKJV");

    // The same elements decoded one by one give the same records.
    let direct0 = translation_from_json(&translation_obj("ENGESV", "English Standard Version"))
        .unwrap();
    let direct1 = translation_obj("ENGKJV", "King James Version");
    let direct1 = translation_from_json(&direct1).unwrap();
    assert_eq!(ts[0], direct0);
    assert_eq!(ts[1], direct1);
}

#[test]
fn enveloped_array_resolves_to_field_contents_in_order() {
    let enveloped = Json::Obj(vec![(
        s("translations"),
        Json::Arr(vec![
            translation_obj("A", "First"),
            translation_obj("B", "Second"),
            translation_obj("C", "Third"),
        ]),
    )]);
    let ts = translations_from_response(&enveloped).unwrap();
    assert_eq!(ts.len(), 3);
    assert_eq!(ts[0].id, "A");
    assert_eq!(ts[1].id, "B");
    assert_eq!(ts[2].id, "C");
}

#[test]
fn other_shapes_fail_with_unexpected_format() {
    for v in [
        Json::Null,
        Json::Bool(true),
        Json::UInt(7),
        Json::Str(s("nope")),
        Json::Obj(vec![(s("unrelated"), Json::Arr(vec![]))]),
        Json::Obj(vec![]),
    ] {
        assert_eq!(
            translations_from_response(&v).unwrap_err(),
            FormatError::UnexpectedFormat
        );
    }
}

#[test]
fn envelope_with_non_array_field_is_a_decode_failure() {
    let v = Json::Obj(vec![(s("translations"), Json::Str(s("not an array")))]);
    assert_eq!(translations_from_response(&v).unwrap_err(), FormatError::Decode);
}

#[test]
fn bad_record_inside_accepted_shape_is_a_decode_failure() {
    // The second record misses its required "name".
    let v = Json::Arr(vec![
        translation_obj("A", "First"),
        Json::Obj(vec![(s("id"), Json::Str(s("B")))]),
    ]);
    assert_eq!(translations_from_response(&v).unwrap_err(), FormatError::Decode);
}

#[test]
fn optional_fields_default_and_accept_null() {
    let v = Json::Obj(vec![
        (s("id"), Json::Str(s("T"))),
        (s("name"), Json::Str(s("Name"))),
        (s("language"), Json::Null),
        (s("englishName"), Json::Str(s("English"))),
    ]);
    let t = translation_from_json(&v).unwrap();
    assert_eq!(t.language, None);
    assert_eq!(t.english_name, Some(s("English")));
    assert_eq!(t.short_name, None);
}

#[test]
fn optional_field_of_wrong_type_fails_the_record() {
    let v = Json::Obj(vec![
        (s("id"), Json::Str(s("T"))),
        (s("name"), Json::Str(s("Name"))),
        (s("language"), Json::UInt(5)),
    ]);
    assert!(translation_from_json(&v).is_none());
}

#[test]
fn books_resolve_from_both_shapes() {
    let book = Json::Obj(vec![
        (s("id"), Json::Str(s("GEN"))),
        (s("name"), Json::Str(s("Genesis"))),
        (s("order"), Json::UInt(1)),
        (s("numberOfChapters"), Json::UInt(50)),
    ]);
    let bare = Json::Arr(vec![book]);
    let bs = books_from_response(&bare).unwrap();
    assert_eq!(bs.len(), 1);
    assert_eq!(bs[0].id, "GEN");
    assert_eq!(bs[0].order, Some(1));
    assert_eq!(bs[0].number_of_chapters, Some(50));

    let book2 = Json::Obj(vec![
        (s("id"), Json::Str(s("EXO"))),
        (s("name"), Json::Str(s("Exodus"))),
    ]);
    let enveloped = Json::Obj(vec![(s("books"), Json::Arr(vec![book2]))]);
    let bs2 = books_from_response(&enveloped).unwrap();
    assert_eq!(bs2[0].id, "EXO");
    assert_eq!(bs2[0].order, None);
}

#[test]
fn book_with_out_of_range_number_fails() {
    let v = Json::Obj(vec![
        (s("id"), Json::Str(s("GEN"))),
        (s("name"), Json::Str(s("Genesis"))),
        (s("order"), Json::UInt(0x1_0000_0000)),
    ]);
    assert!(book_from_json(&v).is_none());
}

#[test]
fn commentaries_resolve_from_envelope() {
    let c = Json::Obj(vec![
        (s("id"), Json::Str(s("matthew-henry"))),
        (s("name"), Json::Str(s("Matthew Henry"))),
    ]);
    let enveloped = Json::Obj(vec![(s("commentaries"), Json::Arr(vec![c]))]);
    let cs = commentaries_from_response(&enveloped).unwrap();
    assert_eq!(cs.len(), 1);
    assert_eq!(cs[0].id, "matthew-henry");
}

#[test]
fn duplicate_keys_take_the_first_binding() {
    let v = Json::Obj(vec![
        (s("id"), Json::Str(s("first"))),
        (s("id"), Json::Str(s("second"))),
        (s("name"), Json::Str(s("Name"))),
    ]);
    let t = translation_from_json(&v).unwrap();
    assert_eq!(t.id, "first");
}
