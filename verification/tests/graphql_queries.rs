use suwayomi_source::api::graphql::{
    build_query, categories_query, chapter_pages_query, chapters_query, graphql_request,
    manga_query, mangas_by_category_query, mangas_query, page_count, recent_chapters_query,
    condition_clause, status_condition, title_clause,
};

#[test]
fn build_query_collapses_whitespace() {
    assert_eq!(build_query("a\nb"), "a b");
    assert_eq!(build_query("a  b"), "a b");
    assert_eq!(build_query("a    b"), "a b");
    assert_eq!(build_query("a   b"), "a b");
    assert_eq!(build_query("a\n\n\nb"), "a b");
    assert_eq!(build_query("{\n  x\n}"), "{ x }");
    assert_eq!(build_query("  lead and trail  "), " lead and trail ");
    assert_eq!(build_query(""), "");
}

#[test]
fn page_size_is_twenty() {
    assert_eq!(page_count(), 20);
}

#[test]
fn manga_query_text() {
    assert_eq!(
        manga_query(5),
        "{ manga(id: 5) { id title thumbnailUrl description author artist genre status realUrl inLibrary } }"
    );
}

#[test]
fn chapters_query_text() {
    assert_eq!(
        chapters_query(7),
        "{ chapters( condition: {mangaId: 7} orderBy: SOURCE_ORDER orderByType: ASC ) { nodes { id name chapterNumber uploadDate scanlator realUrl sourceOrder } } }"
    );
}

#[test]
fn chapter_pages_query_text() {
    assert_eq!(
        chapter_pages_query(9),
        "mutation { fetchChapterPages(input: {chapterId: 9}) { pages } }"
    );
}

#[test]
fn categories_query_text() {
    assert_eq!(categories_query(), "{ categories { nodes { id name } } }");
}

#[test]
fn recent_chapters_query_text() {
    assert_eq!(
        recent_chapters_query(1),
        "{ chapters( orderBy: FETCH_DATE orderByType: DESC first: 20 offset: 0 ) { nodes { id name chapterNumber uploadDate manga { id title thumbnailUrl description author artist genre status realUrl inLibrary } } } }"
    );
}

#[test]
fn mangas_by_category_query_text() {
    assert_eq!(
        mangas_by_category_query(3, 2),
        "{ mangas( filter: {categoryId: {equalTo: 3}} condition: {inLibrary: true} orderBy: TITLE orderByType: ASC first: 20 offset: 20 ) { totalCount nodes { id title thumbnailUrl description author artist genre status realUrl inLibrary } } }"
    );
}

#[test]
fn mangas_query_with_title_and_status() {
    assert_eq!(
        mangas_query(Some("One \"Piece\"\\"), Some("Ongoing"), "TITLE", true, 2),
        "{ mangas( condition: {inLibrary: true, status: ONGOING} filter: {title: {likeInsensitive: \"%One Piece%\"}} orderBy: TITLE orderByType: ASC first: 20 offset: 20 ) { totalCount nodes { id title thumbnailUrl description author artist genre status realUrl inLibrary } } }"
    );
}

#[test]
fn mangas_query_without_filters() {
    assert_eq!(
        mangas_query(None, None, "IN_LIBRARY_AT", false, 1),
        "{ mangas( condition: {inLibrary: true} orderBy: IN_LIBRARY_AT orderByType: DESC first: 20 offset: 0 ) { totalCount nodes { id title thumbnailUrl description author artist genre status realUrl inLibrary } } }"
    );
    assert_eq!(
        mangas_query(Some(""), Some("Any"), "LAST_FETCHED_AT", false, 3),
        "{ mangas( condition: {inLibrary: true} orderBy: LAST_FETCHED_AT orderByType: DESC first: 20 offset: 40 ) { totalCount nodes { id title thumbnailUrl description author artist genre status realUrl inLibrary } } }"
    );
}

#[test]
fn clauses() {
    assert_eq!(title_clause(Some("a\"b\\c")), "filter: {title: {likeInsensitive: \"%abc%\"}}");
    assert_eq!(title_clause(None), "");
    assert_eq!(status_condition("HIATUS"), "condition: {inLibrary: true, status: HIATUS}");
    assert_eq!(condition_clause(Some("Hiatus")), "condition: {inLibrary: true, status: HIATUS}");
    assert_eq!(condition_clause(Some("Any")), "condition: {inLibrary: true}");
    assert_eq!(condition_clause(None), "condition: {inLibrary: true}");
}

#[test]
fn request_framing() {
    let req = graphql_request("http://host:4567", "{ a }", &Some("u".to_string()), &None).unwrap();
    assert_eq!(req.url, "http://host:4567/api/graphql");
    assert_eq!(req.body, b"{\"query\":\"{ a }\"}".to_vec());
    let names: Vec<&str> = req.headers.iter().map(|h| h.name.as_str()).collect();
    let values: Vec<&str> = req.headers.iter().map(|h| h.value.as_str()).collect();
    assert_eq!(names, vec!["Content-Type", "Accept", "Authorization"]);
    assert_eq!(values, vec!["application/json", "application/json", "Basic dTo="]);
}

#[test]
fn request_without_credentials_has_two_headers() {
    let req = graphql_request("http://h", "q", &None, &Some("p".to_string())).unwrap();
    assert_eq!(req.headers.len(), 2);
}

#[test]
fn request_body_escapes_json() {
    let req = graphql_request("http://h", "a\"b\\c\nd\u{1}é", &None, &None).unwrap();
    let expected: &[u8] = b"{\"query\":\"a\\\"b\\\\c\\nd\\u0001\xc3\xa9\"}";
    assert_eq!(req.body, expected.to_vec());
    let req2 = graphql_request("http://h", "\u{8}\u{9}\u{c}\u{d}\u{1f}\u{7f}", &None, &None).unwrap();
    let expected2: &[u8] = b"{\"query\":\"\\b\\t\\f\\r\\u001f\x7f\"}";
    assert_eq!(req2.body, expected2.to_vec());
}
