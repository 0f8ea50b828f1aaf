use suwayomi_source::api::models::{ChapterNode, MangaNode, RecentChapterNode};
use suwayomi_source::entries::{Filter, FilterValue, HomeComponentValue, ListingKind};
use suwayomi_source::error::SourceError;
use suwayomi_source::api::graphql::mangas_query;
use suwayomi_source::source::{ListingRoute, SuwayomiSource};

fn node(id: i32) -> MangaNode {
    MangaNode {
        id,
        title: format!("M{}", id),
        thumbnail_url: None,
        description: None,
        author: None,
        artist: None,
        genre: None,
        status: None,
        real_url: None,
        in_library: None,
        last_fetched_at: None,
    }
}

fn sort(id: &str, index: i32, ascending: bool) -> FilterValue {
    FilterValue::Sort { id: id.to_string(), index, ascending }
}

fn select(id: &str, value: &str) -> FilterValue {
    FilterValue::Select { id: id.to_string(), value: value.to_string() }
}

#[test]
fn filters_default_to_last_fetched_descending() {
    let (f, asc, st) = SuwayomiSource::parse_filters(&[]);
    assert_eq!((f, asc, st.as_str()), ("LAST_FETCHED_AT", false, ""));
}

#[test]
fn sort_filter_selects_field_and_direction() {
    assert_eq!(SuwayomiSource::parse_filters(&[sort("sort", 0, true)]).0, "TITLE");
    assert!(SuwayomiSource::parse_filters(&[sort("sort", 0, true)]).1);
    assert_eq!(SuwayomiSource::parse_filters(&[sort("sort", 1, false)]).0, "LAST_FETCHED_AT");
    assert_eq!(SuwayomiSource::parse_filters(&[sort("sort", 2, false)]).0, "IN_LIBRARY_AT");
    assert_eq!(SuwayomiSource::parse_filters(&[sort("sort", 9, false)]).0, "LAST_FETCHED_AT");
    assert_eq!(SuwayomiSource::parse_filters(&[sort("other", 0, true)]).0, "LAST_FETCHED_AT");
    let last = SuwayomiSource::parse_filters(&[sort("sort", 0, true), sort("sort", 2, false)]);
    assert_eq!((last.0, last.1), ("IN_LIBRARY_AT", false));
}

#[test]
fn status_filter() {
    assert_eq!(SuwayomiSource::parse_filters(&[select("status", "Ongoing")]).2, "Ongoing");
    assert_eq!(SuwayomiSource::parse_filters(&[select("status", "Any")]).2, "");
    assert_eq!(SuwayomiSource::parse_filters(&[select("status", "")]).2, "");
    assert_eq!(SuwayomiSource::parse_filters(&[select("genre", "Ongoing")]).2, "");
    let kept = SuwayomiSource::parse_filters(&[
        select("status", "Hiatus"),
        select("status", "Any"),
        FilterValue::Other { id: "x".to_string() },
    ]);
    assert_eq!(kept.2, "Hiatus");
}

#[test]
fn search_query_uses_filters() {
    let filters = vec![sort("sort", 0, true), select("status", "Completed")];
    assert_eq!(
        SuwayomiSource::search_query(Some("abc"), 1, &filters),
        mangas_query(Some("abc"), Some("Completed"), "TITLE", true, 1)
    );
    assert_eq!(
        SuwayomiSource::library_query(2),
        mangas_query(None, None, "IN_LIBRARY_AT", false, 2)
    );
}

#[test]
fn settings() {
    assert_eq!(SuwayomiSource::server_url(Some("http://s".to_string())).ok(), Some("http://s".to_string()));
    let e = SuwayomiSource::server_url(Some(String::new())).err().unwrap();
    assert!(matches!(e, SourceError::ServerUrlNotConfigured));
    assert_eq!(
        e.message(),
        "Server URL not configured. Please set the Suwayomi server URL in source settings."
    );
    assert!(SuwayomiSource::server_url(None).is_err());
    assert_eq!(SuwayomiSource::username(Some(String::new())), None);
    assert_eq!(SuwayomiSource::password(Some("p".to_string())), Some("p".to_string()));
}

#[test]
fn ids() {
    assert_eq!(SuwayomiSource::parse_id("42").ok(), Some(42));
    let e = SuwayomiSource::parse_id("4x").err().unwrap();
    assert!(matches!(e, SourceError::InvalidId));
    assert_eq!(e.message(), "Invalid ID");
}

#[test]
fn listing_routes() {
    assert!(matches!(SuwayomiSource::route_listing("category:42"), Ok(ListingRoute::Category(42))));
    assert!(matches!(SuwayomiSource::route_listing("category:-1"), Ok(ListingRoute::Category(-1))));
    assert!(matches!(SuwayomiSource::route_listing("category:x"), Err(SourceError::InvalidId)));
    assert!(matches!(SuwayomiSource::route_listing("category:"), Err(SourceError::InvalidId)));
    assert!(matches!(SuwayomiSource::route_listing("library"), Ok(ListingRoute::Library)));
    assert!(matches!(SuwayomiSource::route_listing("recent"), Ok(ListingRoute::Recent)));
    match SuwayomiSource::route_listing("popular") {
        Err(e @ SourceError::UnknownListing(_)) => assert_eq!(e.message(), "Unknown listing: popular"),
        _ => panic!("expected an unknown listing"),
    }
}

#[test]
fn next_page() {
    assert!(SuwayomiSource::has_next_page(1, 21));
    assert!(!SuwayomiSource::has_next_page(1, 20));
    assert!(!SuwayomiSource::has_next_page(2, 40));
    assert!(SuwayomiSource::has_next_page(2, 41));
    let r = SuwayomiSource::manga_page_result(&vec![node(1), node(2)], 45, "http://s", 2);
    assert!(r.has_next_page);
    let keys: Vec<&str> = r.entries.iter().map(|m| m.key.as_str()).collect();
    assert_eq!(keys, vec!["1", "2"]);
}

#[test]
fn recent_page() {
    let n = RecentChapterNode {
        id: 9,
        name: "Ch.9".to_string(),
        chapter_number_bits: None,
        upload_date: None,
        manga: node(4),
    };
    let r = SuwayomiSource::recent_page_result(&vec![n.clone(), n], "http://s");
    assert!(!r.has_next_page);
    assert_eq!(r.entries.len(), 2);
    assert_eq!(r.entries[1].key, "4");
}

#[test]
fn home() {
    let n = RecentChapterNode {
        id: 9,
        name: "Ch.9 - Nine".to_string(),
        chapter_number_bits: None,
        upload_date: None,
        manga: node(4),
    };
    let h = SuwayomiSource::home_layout(&vec![n], &vec![node(5), node(6)], "http://s");
    assert_eq!(h.components.len(), 2);
    assert_eq!(h.components[0].title, Some("Recently Updated".to_string()));
    assert_eq!(h.components[1].title, Some("Library".to_string()));
    match &h.components[0].value {
        HomeComponentValue::MangaChapterList { page_size, entries, listing } => {
            assert_eq!(*page_size, None);
            assert_eq!(entries[0].manga.key, "4");
            assert_eq!(entries[0].chapter.title, Some("Nine".to_string()));
            let l = listing.as_ref().unwrap();
            assert_eq!((l.id.as_str(), l.name.as_str(), l.kind), ("recent", "Recently Updated", ListingKind::List));
        }
        _ => panic!("expected a chapter list"),
    }
    match &h.components[1].value {
        HomeComponentValue::Scroller { entries, listing } => {
            assert_eq!(entries.len(), 2);
            let l = listing.as_ref().unwrap();
            assert_eq!((l.id.as_str(), l.kind), ("library", ListingKind::Default));
            assert!(matches!(SuwayomiSource::route_listing(&l.id), Ok(ListingRoute::Library)));
        }
        _ => panic!("expected a scroller"),
    }
}

#[test]
fn offered_filters() {
    let fs = SuwayomiSource::get_dynamic_filters();
    assert_eq!(fs.len(), 2);
    match &fs[0] {
        Filter::Sort { id, title, can_ascend, options, default } => {
            assert_eq!(id, "sort");
            assert_eq!(title.as_deref(), Some("Sort By"));
            assert!(*can_ascend);
            assert_eq!(options, &vec!["Title".to_string(), "Last Updated".to_string(), "Date Added".to_string()]);
            let d = default.as_ref().unwrap();
            assert_eq!((d.index, d.ascending), (1, false));
            // The offered default selects what no filter selects.
            let chosen = SuwayomiSource::parse_filters(&[sort("sort", d.index, d.ascending)]);
            let fallback = SuwayomiSource::parse_filters(&[]);
            assert_eq!((chosen.0, chosen.1), (fallback.0, fallback.1));
        }
        _ => panic!("expected a sort filter"),
    }
    match &fs[1] {
        Filter::Select { id, title, options } => {
            assert_eq!(id, "status");
            assert_eq!(title.as_deref(), Some("Status"));
            assert_eq!(options.len(), 5);
            assert_eq!(options[0], "Any");
        }
        _ => panic!("expected a select filter"),
    }
}

#[test]
fn chapters_keep_order() {
    let mk = |id: i32| ChapterNode {
        id,
        name: format!("Ch.{} - T{}", id, id),
        chapter_number_bits: None,
        upload_date: None,
        scanlator: None,
        real_url: None,
        source_order: id,
    };
    let cs = SuwayomiSource::chapters_from_nodes(&vec![mk(3), mk(1)]);
    let keys: Vec<&str> = cs.iter().map(|c| c.key.as_str()).collect();
    assert_eq!(keys, vec!["3", "1"]);
}
