use suwayomi_source::api::models::{ChapterNode, MangaNode, RecentChapterNode};
use suwayomi_source::api::rest::{absolute_page_url, thumbnail_url};
use suwayomi_source::entries::{ContentRating, MangaStatus, Viewer};
use suwayomi_source::helpers::{
    chapter_from_node, chapter_from_node_recent, content_rating_of_lowered, extract_chapter_title,
    manga_from_node, pages_from_urls, status_from_str,
};

fn node(id: i32, genre: Option<Vec<&str>>) -> MangaNode {
    MangaNode {
        id,
        title: "Title".to_string(),
        thumbnail_url: Some("/thumb".to_string()),
        description: Some("About".to_string()),
        author: Some("Author".to_string()),
        artist: Some(String::new()),
        genre: genre.map(|g| g.into_iter().map(|s| s.to_string()).collect()),
        status: Some("COMPLETED".to_string()),
        real_url: None,
        in_library: Some(true),
        last_fetched_at: None,
    }
}

#[test]
fn statuses() {
    assert_eq!(status_from_str(Some("ONGOING")), MangaStatus::Ongoing);
    assert_eq!(status_from_str(Some("COMPLETED")), MangaStatus::Completed);
    assert_eq!(status_from_str(Some("CANCELLED")), MangaStatus::Cancelled);
    assert_eq!(status_from_str(Some("HIATUS")), MangaStatus::Hiatus);
    assert_eq!(status_from_str(Some("ongoing")), MangaStatus::Unknown);
    assert_eq!(status_from_str(Some("LICENSED")), MangaStatus::Unknown);
    assert_eq!(status_from_str(None), MangaStatus::Unknown);
}

#[test]
fn manga_from_node_fields() {
    let m = manga_from_node(&node(12, Some(vec!["Action", "Drama"])), "http://s");
    assert_eq!(m.key, "12");
    assert_eq!(m.title, "Title");
    assert_eq!(m.cover, Some("http://s/api/v1/manga/12/thumbnail".to_string()));
    assert_eq!(m.authors, Some(vec!["Author".to_string()]));
    assert_eq!(m.artists, None);
    assert_eq!(m.description, Some("About".to_string()));
    assert_eq!(m.url, None);
    assert_eq!(m.tags, Some(vec!["Action".to_string(), "Drama".to_string()]));
    assert_eq!(m.status, MangaStatus::Completed);
    assert_eq!(m.content_rating, ContentRating::Safe);
    assert_eq!(m.viewer, Viewer::RightToLeft);
}

#[test]
fn adult_tags_make_nsfw() {
    for tag in ["Adult", "MATURE", "ECCHI", "Ecchi", "hentai", "HenTai", "semi-mature content"] {
        let m = manga_from_node(&node(1, Some(vec!["Action", tag])), "http://s");
        assert_eq!(m.content_rating, ContentRating::NSFW, "{}", tag);
    }
    let m = manga_from_node(&node(1, None), "http://s");
    assert_eq!(m.content_rating, ContentRating::Safe);
    assert_eq!(m.tags, None);
}

#[test]
fn unicode_lowercase_is_used_for_tags() {
    // 'İ' lowercases to "i\u{307}", so the tag holds "hentai" once lowercased.
    let m = manga_from_node(&node(1, Some(vec!["HENTA\u{130}"])), "http://s");
    assert_eq!(m.content_rating, ContentRating::NSFW);
}

#[test]
fn content_rating_of_lowered_tags() {
    assert_eq!(content_rating_of_lowered(&vec!["ecchi".to_string()]), ContentRating::NSFW);
    assert_eq!(content_rating_of_lowered(&vec!["Ecchi".to_string()]), ContentRating::Safe);
    assert_eq!(content_rating_of_lowered(&vec![]), ContentRating::Safe);
}

#[test]
fn negative_ids_keep_their_sign() {
    let m = manga_from_node(&node(-3, None), "http://s");
    assert_eq!(m.key, "-3");
    assert_eq!(thumbnail_url("b", -3), "b/api/v1/manga/-3/thumbnail");
}

#[test]
fn chapter_titles() {
    assert_eq!(extract_chapter_title("Vol.1 Ch.1 - Renascido"), Some("Renascido".to_string()));
    assert_eq!(extract_chapter_title("Ch.2 -   Padded  "), Some("Padded".to_string()));
    assert_eq!(extract_chapter_title("A - B - C"), Some("B - C".to_string()));
    assert_eq!(extract_chapter_title("Chapter 1"), None);
    assert_eq!(extract_chapter_title("Chapter 1 -  "), None);
    assert_eq!(extract_chapter_title("Chapter 1 - "), None);
    assert_eq!(extract_chapter_title(""), None);
}

#[test]
fn chapter_from_node_fields() {
    let n = ChapterNode {
        id: 77,
        name: "Vol.1 Ch.1 - Renascido".to_string(),
        chapter_number_bits: Some(1.5f32.to_bits()),
        upload_date: Some("1700000000123".to_string()),
        scanlator: Some("Group".to_string()),
        real_url: Some("https://site/ch1".to_string()),
        source_order: 1,
    };
    let c = chapter_from_node(&n);
    assert_eq!(c.key, "77");
    assert_eq!(c.title, Some("Renascido".to_string()));
    assert_eq!(c.chapter_number_bits.map(f32::from_bits), Some(1.5));
    assert_eq!(c.date_uploaded, Some(1_700_000_000));
    assert_eq!(c.scanlators, Some(vec!["Group".to_string()]));
    assert_eq!(c.url, Some("https://site/ch1".to_string()));
}

#[test]
fn chapter_dates_that_do_not_parse_are_dropped() {
    let n = ChapterNode {
        id: 1,
        name: "x".to_string(),
        chapter_number_bits: None,
        upload_date: Some("2024-01-01".to_string()),
        scanlator: Some(String::new()),
        real_url: None,
        source_order: 1,
    };
    let c = chapter_from_node(&n);
    assert_eq!(c.date_uploaded, None);
    assert_eq!(c.scanlators, None);
    assert_eq!(c.title, None);
}

#[test]
fn recent_chapter_has_no_scanlators_or_url() {
    let n = RecentChapterNode {
        id: 5,
        name: "Ch.5 - End".to_string(),
        chapter_number_bits: None,
        upload_date: Some("-1500".to_string()),
        manga: node(2, None),
    };
    let c = chapter_from_node_recent(&n);
    assert_eq!(c.key, "5");
    assert_eq!(c.title, Some("End".to_string()));
    assert_eq!(c.date_uploaded, Some(-1));
    assert_eq!(c.scanlators, None);
    assert_eq!(c.url, None);
}

#[test]
fn page_urls() {
    assert_eq!(absolute_page_url("http://s", "/api/v1/p/1"), "http://s/api/v1/p/1");
    assert_eq!(absolute_page_url("http://s", "https://cdn/p"), "https://cdn/p");
    assert_eq!(absolute_page_url("http://s", "http://cdn/p"), "http://cdn/p");
    let urls = vec!["/a".to_string(), "https://b".to_string()];
    let pages = pages_from_urls(&urls, "http://s");
    let got: Vec<&str> = pages.iter().map(|p| p.url.as_str()).collect();
    assert_eq!(got, vec!["http://s/a", "https://b"]);
    let once = absolute_page_url("http://s", "/x");
    assert_eq!(absolute_page_url("http://s", &once), once);
}
