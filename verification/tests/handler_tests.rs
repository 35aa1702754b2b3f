use thebible::json::Json;
use thebible::error::{AppError, Endpoint, format_error_to_app, upstream_failure_message};
use thebible::resolve::FormatError;
use thebible::handlers::{health, parse_chapter_number};
use thebible::config::config_from_values;
use thebible::helloao::{self, chapter_from_response};
use thebible::bible_brain;

fn s(x: &str) -> String {
    String::from(x)
}

#[test]
fn health_payload_is_static() {
    let h = health();
    assert_eq!(h.status, "ok");
    assert_eq!(h.message, "The Bible API server is running");
}

#[test]
fn chapter_numbers_parse_like_unsigned_numerals() {
    assert_eq!(parse_chapter_number("1").unwrap(), 1);
    assert_eq!(parse_chapter_number("42").unwrap(), 42);
    assert_eq!(parse_chapter_number("+7").unwrap(), 7);
    assert_eq!(parse_chapter_number("007").unwrap(), 7);
    assert_eq!(parse_chapter_number("4294967295").unwrap(), 4294967295);
}

#[test]
fn non_numeric_chapter_is_rejected_before_any_upstream_call() {
    // The parameter check needs no upstream payload at all: rejection
    // happens on the parameter alone.
    for bad in ["abc", "", "-1", "1.5", "4294967296", "+", " 1", "1 ", "0", "+0", "000"] {
        let e = parse_chapter_number(bad).unwrap_err();
        match e {
            AppError::BibleBrainApi(m) => assert_eq!(m, "Invalid chapter number"),
            other => panic!("wrong error kind: {:?}", other),
        }
    }
}

#[test]
fn error_kinds_map_to_status_codes() {
    assert_eq!(AppError::BibleBrainApi(s("x")).status_code(), 502);
    assert_eq!(AppError::HttpClient(s("x")).status_code(), 502);
    assert_eq!(AppError::Serialization(s("x")).status_code(), 500);
    assert_eq!(AppError::Config(s("x")).status_code(), 500);
    assert_eq!(AppError::Internal(s("x")).status_code(), 500);
    assert_eq!(AppError::Internal(s("boom")).message(), "boom");
}

#[test]
fn format_errors_surface_with_their_endpoint_messages() {
    let cases = [
        (
            Endpoint::Translations,
            "Unexpected API response format for translations",
        ),
        (Endpoint::Books, "Unexpected API response format for books"),
        (Endpoint::Chapter, "Unexpected API response format for chapter"),
        (
            Endpoint::Commentaries,
            "Unexpected API response format for commentaries",
        ),
        (
            Endpoint::CommentaryChapter,
            "Unexpected API response format for commentary",
        ),
    ];
    for (ep, want) in cases {
        match format_error_to_app(FormatError::UnexpectedFormat, ep) {
            AppError::BibleBrainApi(m) => assert_eq!(m, want),
            other => panic!("wrong error kind: {:?}", other),
        }
    }
    match format_error_to_app(FormatError::Decode, Endpoint::Books) {
        AppError::BibleBrainApi(m) => assert_eq!(m, "Failed to deserialize response"),
        other => panic!("wrong error kind: {:?}", other),
    }
}

#[test]
fn upstream_failure_messages_carry_status_and_body() {
    assert_eq!(
        upstream_failure_message("books", "503 Service Unavailable", "try later"),
        "Failed to fetch books: 503 Service Unavailable - try later"
    );
    assert_eq!(
        upstream_failure_message("translations", "500", "Unknown error"),
        "Failed to fetch translations: 500 - Unknown error"
    );
}

#[test]
fn config_defaults_apply() {
    let c = config_from_values(None, None, None).unwrap();
    assert_eq!(c.server.host, "0.0.0.0");
    assert_eq!(c.server.port, 3000);
    assert_eq!(c.bible_api.base_url, "https://bible.helloao.org/api");
}

#[test]
fn config_overrides_apply() {
    let c = config_from_values(
        Some(s("127.0.0.1")),
        Some(s("8080")),
        Some(s("http://upstream.test/api")),
    )
    .unwrap();
    assert_eq!(c.server.host, "127.0.0.1");
    assert_eq!(c.server.port, 8080);
    assert_eq!(c.bible_api.base_url, "http://upstream.test/api");
}

#[test]
fn invalid_port_fails_configuration() {
    for bad in ["abc", "", "65536", "-1", "1e3"] {
        let e = config_from_values(None, Some(s(bad)), None).unwrap_err();
        match e {
            AppError::Config(m) => assert_eq!(m, "Invalid PORT value"),
            other => panic!("wrong error kind: {:?}", other),
        }
    }
}

#[test]
fn chapter_request_end_to_end_over_the_payload() {
    // The upstream body of GET /api/translations/ENGESV/books/GEN/chapters/1.
    let payload = Json::Obj(vec![(
        s("chapter"),
        Json::Obj(vec![
            (s("number"), Json::UInt(1)),
            (
                s("content"),
                Json::Arr(vec![Json::Obj(vec![
                    (s("type"), Json::Str(s("verse"))),
                    (s("number"), Json::UInt(1)),
                    (
                        s("content"),
                        Json::Arr(vec![Json::Str(s("In the beginning"))]),
                    ),
                ])]),
            ),
        ]),
    )]);
    let n = parse_chapter_number("1").unwrap();
    let c = chapter_from_response(&payload, &s("ENGESV"), &s("GEN"), n).unwrap();
    assert_eq!(c.translation, "ENGESV");
    assert_eq!(c.book, "GEN");
    assert_eq!(c.chapter, 1);
    assert_eq!(c.verses.len(), 1);
    assert_eq!(c.verses[0].verse, 1);
    assert_eq!(c.verses[0].text, "In the beginning");
    assert_eq!(c.verses[0].footnotes, None);
    assert_eq!(c.footnotes, None);
}

#[test]
fn helloao_urls_match_the_upstream_layout() {
    let base = s("https://bible.helloao.org/api");
    assert_eq!(
        helloao::translations_url(&base),
        "https://bible.helloao.org/api/available_translations.json"
    );
    assert_eq!(
        helloao::books_url(&base, &s("ENGESV")),
        "https://bible.helloao.org/api/ENGESV/books.json"
    );
    assert_eq!(
        helloao::chapter_url(&base, &s("ENGESV"), &s("GEN"), 1),
        "https://bible.helloao.org/api/ENGESV/GEN/1.json"
    );
    assert_eq!(
        helloao::commentaries_url(&base),
        "https://bible.helloao.org/api/available_commentaries.json"
    );
    assert_eq!(
        helloao::commentary_url(&base, &s("matthew-henry"), &s("GEN"), 10),
        "https://bible.helloao.org/api/c/matthew-henry/GEN/10.json"
    );
}

#[test]
fn bible_brain_urls_match_the_upstream_layout() {
    let base = s("https://api.example.test/v4");
    assert_eq!(
        bible_brain::languages_url(&base),
        "https://api.example.test/v4/languages"
    );
    assert_eq!(bible_brain::bibles_url(&base), "https://api.example.test/v4/bibles");
    assert_eq!(
        bible_brain::books_url(&base, &s("ENGESV")),
        "https://api.example.test/v4/bibles/ENGESV/books"
    );
    assert_eq!(
        bible_brain::chapters_url(&base, &s("ENGESV"), &s("GEN")),
        "https://api.example.test/v4/bibles/ENGESV/books/GEN/chapters"
    );
    assert_eq!(
        bible_brain::verses_url(&base, &s("ENGESV"), &s("GEN"), &s("1")),
        "https://api.example.test/v4/bibles/ENGESV/books/GEN/chapters/1/verses"
    );
    assert_eq!(
        bible_brain::verse_content_url(&base, &s("ENGESV"), &s("GEN"), &s("1"), &s("3")),
        "https://api.example.test/v4/bibles/ENGESV/books/GEN/chapters/1/verses/3"
    );
    assert_eq!(
        bible_brain::bible_videos_url(&base, &s("ENGESV")),
        "https://api.example.test/v4/bibles/ENGESV/videos"
    );
    assert_eq!(
        bible_brain::book_videos_url(&base, &s("ENGESV"), &s("GEN")),
        "https://api.example.test/v4/bibles/ENGESV/books/GEN/videos"
    );
    assert_eq!(
        bible_brain::chapter_videos_url(&base, &s("ENGESV"), &s("GEN"), &s("1")),
        "https://api.example.test/v4/bibles/ENGESV/books/GEN/chapters/1/videos"
    );
    assert_eq!(bible_brain::videos_url(&base), "https://api.example.test/v4/videos");
}
