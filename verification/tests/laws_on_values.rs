use suwayomi_source::api::graphql::{auth_header, graphql_request, manga_query, mangas_query};
use suwayomi_source::api::models::MangaNode;
use suwayomi_source::entries::{Filter, MangaStatus};
use suwayomi_source::helpers::{manga_from_node, status_from_str};
use suwayomi_source::number::int_to_decimal;
use suwayomi_source::source::{ListingRoute, SuwayomiSource};

fn b64_value(c: u8) -> u32 {
    match c {
        b'A'..=b'Z' => (c - b'A') as u32,
        b'a'..=b'z' => (c - b'a') as u32 + 26,
        b'0'..=b'9' => (c - b'0') as u32 + 52,
        b'+' => 62,
        _ => 63,
    }
}

fn b64_decode(s: &str) -> Vec<u8> {
    let b = s.as_bytes();
    let mut out = Vec::new();
    for g in b.chunks(4) {
        let v = (b64_value(g[0]) << 18)
            | (b64_value(g[1]) << 12)
            | (if g[2] == b'=' { 0 } else { b64_value(g[2]) << 6 })
            | (if g[3] == b'=' { 0 } else { b64_value(g[3]) });
        out.push((v >> 16) as u8);
        if g[2] != b'=' {
            out.push((v >> 8) as u8);
        }
        if g[3] != b'=' {
            out.push(v as u8);
        }
    }
    out
}

#[test]
fn auth_header_decodes_to_credentials() {
    for (u, p) in [("admin", Some("s3cr3t:x")), ("ü", None), ("a", Some(""))] {
        let h = auth_header(&Some(u.to_string()), &p.map(|s| s.to_string())).unwrap();
        assert!(h.starts_with("Basic "));
        let decoded = String::from_utf8(b64_decode(&h[6..])).unwrap();
        assert_eq!(decoded, format!("{}:{}", u, p.unwrap_or("")));
    }
}

#[test]
fn request_body_reads_back_as_the_query() {
    for q in [manga_query(3), mangas_query(Some("a \"b\""), Some("Ongoing"), "TITLE", true, 1), "é\n\t\"\\\u{1}".to_string()] {
        let req = graphql_request("http://h", &q, &None, &None).unwrap();
        let v: serde_json::Value = serde_json::from_slice(&req.body).unwrap();
        assert_eq!(v.get("query").and_then(|x| x.as_str()), Some(q.as_str()));
    }
}

#[test]
fn queries_are_one_line() {
    assert!(!manga_query(1).contains('\n'));
    assert!(!mangas_query(None, None, "TITLE", false, 1).contains('\n'));
    assert!(!manga_query(1).contains("  "));
    assert!(!mangas_query(Some("a   b"), None, "TITLE", false, 1).contains("  "));
}

#[test]
fn manga_key_reads_back_as_id() {
    for id in [0, 7, -12, i32::MAX, i32::MIN] {
        let n = MangaNode {
            id,
            title: String::new(),
            thumbnail_url: None,
            description: None,
            author: None,
            artist: None,
            genre: None,
            status: None,
            real_url: None,
            in_library: None,
            last_fetched_at: None,
        };
        let m = manga_from_node(&n, "http://s");
        assert_eq!(SuwayomiSource::parse_id(&m.key).ok(), Some(id));
    }
}

#[test]
fn category_listing_ids_route_to_their_category() {
    for id in [0, 42, -5, i32::MAX] {
        let listing = format!("category:{}", int_to_decimal(id as i64));
        assert!(matches!(SuwayomiSource::route_listing(&listing), Ok(ListingRoute::Category(x)) if x == id));
    }
    assert!(matches!(SuwayomiSource::route_listing("recent"), Ok(ListingRoute::Recent)));
}

#[test]
fn offered_status_options_name_known_statuses() {
    let fs = SuwayomiSource::get_dynamic_filters();
    let expected = [MangaStatus::Ongoing, MangaStatus::Completed, MangaStatus::Hiatus, MangaStatus::Cancelled];
    match &fs[1] {
        Filter::Select { options, .. } => {
            for (o, s) in options[1..].iter().zip(expected.iter()) {
                assert_eq!(status_from_str(Some(&o.to_uppercase())), *s);
            }
        }
        _ => panic!("expected a select filter"),
    }
}
