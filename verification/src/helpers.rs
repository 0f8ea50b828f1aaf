//! Turning the server's descriptions into the reader's entries.
use vstd::prelude::*;
use crate::api::models::{ChapterNode, MangaNode, RecentChapterNode, opt_list_view, opt_view};
use crate::api::rest::{absolute_page_url, absolute_page_url_spec, thumbnail_url, thumbnail_url_spec};
use crate::entries::{
    Chapter, ChapterView, ContentRating, Manga, MangaStatus, MangaView, Page, Viewer,
};
use crate::number::{div_toward_zero, int_decimal, int_to_decimal, millis_to_seconds, parse_i64, parse_in_range};
use crate::text::{
    chars_of, contains_chars, contains_seq, find_chars, find_first, lowercase_text, str_equal,
    string_from_chars, to_lowercase, trim_chars, trim_seq,
};

verus! {

/// The characters of an optional string slice.
pub open spec fn opt_str_view(o: Option<&str>) -> Option<Seq<char>> {
    match o {
        Some(s) => Some(s@),
        None => None,
    }
}

/// The status that a Suwayomi status name stands for.
pub open spec fn status_spec(s: Option<Seq<char>>) -> MangaStatus {
    match s {
        Some(v) => if v == "ONGOING"@ {
            MangaStatus::Ongoing
        } else if v == "COMPLETED"@ {
            MangaStatus::Completed
        } else if v == "CANCELLED"@ {
            MangaStatus::Cancelled
        } else if v == "HIATUS"@ {
            MangaStatus::Hiatus
        } else {
            MangaStatus::Unknown
        },
        None => MangaStatus::Unknown,
    }
}

/// A one-element list of a nonempty string; nothing otherwise.
pub open spec fn single_nonempty(o: Option<Seq<char>>) -> Option<Seq<Seq<char>>> {
    match o {
        Some(s) => if s.len() > 0 {
            Some(seq![s])
        } else {
            None
        },
        None => None,
    }
}

/// A tag that marks a manga for adults, once lowercased.
pub open spec fn adult_keyword_in(t: Seq<char>) -> bool {
    ||| contains_seq(t, "adult"@)
    ||| contains_seq(t, "mature"@)
    ||| contains_seq(t, "ecchi"@)
    ||| contains_seq(t, "hentai"@)
}

/// The rating that lowercased tags call for.
pub open spec fn rating_of_lowered(tags: Seq<Seq<char>>) -> ContentRating {
    if exists|i: int| 0 <= i < tags.len() && adult_keyword_in(#[trigger] tags[i]) {
        ContentRating::NSFW
    } else {
        ContentRating::Safe
    }
}

/// The rating that a manga's genre list calls for.
pub open spec fn rating_of_genre(genre: Option<Seq<Seq<char>>>) -> ContentRating {
    match genre {
        Some(g) => rating_of_lowered(g.map_values(|t: Seq<char>| lowercase_text(t))),
        None => ContentRating::Safe,
    }
}

/// The reader's manga for a node of the server at `base`.
pub open spec fn manga_from_node_spec(n: MangaNode, base: Seq<char>) -> MangaView {
    MangaView {
        key: int_decimal(n.id as int),
        title: n.title@,
        cover: Some(thumbnail_url_spec(base, n.id as int)),
        authors: single_nonempty(opt_view(n.author)),
        artists: single_nonempty(opt_view(n.artist)),
        description: opt_view(n.description),
        url: opt_view(n.real_url),
        tags: opt_list_view(n.genre),
        status: status_spec(opt_view(n.status)),
        content_rating: rating_of_genre(opt_list_view(n.genre)),
        viewer: Viewer::RightToLeft,
    }
}

/// The title after the first ` - ` of a chapter name, trimmed, if it is not empty.
pub open spec fn chapter_title_spec(name: Seq<char>) -> Option<Seq<char>> {
    match find_first(name, " - "@) {
        Some(k) => {
            let t = trim_seq(name.skip(k + 3));
            if t.len() > 0 {
                Some(t)
            } else {
                None
            }
        },
        None => None,
    }
}

/// Seconds since the epoch for an upload date given in milliseconds as text.
pub open spec fn upload_seconds(d: Option<Seq<char>>) -> Option<i64> {
    match d {
        Some(s) => match parse_in_range(s, i64::MIN as int, i64::MAX as int) {
            Some(ms) => Some(div_toward_zero(ms, 1000) as i64),
            None => None,
        },
        None => None,
    }
}

/// The reader's chapter for a chapter node.
pub open spec fn chapter_from_node_spec(n: ChapterNode) -> ChapterView {
    ChapterView {
        key: int_decimal(n.id as int),
        title: chapter_title_spec(n.name@),
        chapter_number_bits: n.chapter_number_bits,
        date_uploaded: upload_seconds(opt_view(n.upload_date)),
        scanlators: single_nonempty(opt_view(n.scanlator)),
        url: opt_view(n.real_url),
    }
}

/// The reader's chapter for a recently fetched chapter.
pub open spec fn chapter_from_recent_spec(n: RecentChapterNode) -> ChapterView {
    ChapterView {
        key: int_decimal(n.id as int),
        title: chapter_title_spec(n.name@),
        chapter_number_bits: n.chapter_number_bits,
        date_uploaded: upload_seconds(opt_view(n.upload_date)),
        scanlators: None,
        url: None,
    }
}

/// A copy of an optional string.
pub fn clone_opt_string(o: &Option<String>) -> (r: Option<String>)
    ensures
        opt_view(r) == opt_view(*o),
{
    match o {
        Some(s) => Some(s.clone()),
        None => None,
    }
}

/// A copy of a list of strings.
pub fn clone_strings(v: &Vec<String>) -> (r: Vec<String>)
    ensures
        r.deep_view() == v.deep_view(),
{
    let mut r: Vec<String> = Vec::new();
    let n = v.len();
    for i in 0..n
        invariant
            n == v@.len(),
            r@.len() == i,
            forall|j: int| 0 <= j < i ==> (#[trigger] r@[j])@ == v@[j]@,
    {
        r.push(v[i].clone());
    }
    assert(r.deep_view() =~= v.deep_view());
    r
}

/// A one-element list of the string, if it is given and not empty.
fn single_if_nonempty(o: &Option<String>) -> (r: Option<Vec<String>>)
    ensures
        opt_list_view(r) == single_nonempty(opt_view(*o)),
{
    match o {
        Some(s) => {
            if s.as_str().is_empty() {
                None
            } else {
                let mut v: Vec<String> = Vec::new();
                v.push(s.clone());
                assert(v.deep_view() =~= seq![s@]);
                Some(v)
            }
        },
        None => None,
    }
}

/// Convert a Suwayomi status string to a manga status.
pub fn status_from_str(status: Option<&str>) -> (r: MangaStatus)
    ensures
        r == status_spec(opt_str_view(status)),
{
    match status {
        Some(s) => {
            if str_equal(s, "ONGOING") {
                MangaStatus::Ongoing
            } else if str_equal(s, "COMPLETED") {
                MangaStatus::Completed
            } else if str_equal(s, "CANCELLED") {
                MangaStatus::Cancelled
            } else if str_equal(s, "HIATUS") {
                MangaStatus::Hiatus
            } else {
                MangaStatus::Unknown
            }
        },
        None => MangaStatus::Unknown,
    }
}

/// Whether a lowercased tag holds one of the adult keywords.
pub fn is_adult_tag(t: &str) -> (r: bool)
    ensures
        r == adult_keyword_in(t@),
{
    let cs = chars_of(t);
    contains_chars(&cs, &chars_of("adult")) || contains_chars(&cs, &chars_of("mature"))
        || contains_chars(&cs, &chars_of("ecchi")) || contains_chars(&cs, &chars_of("hentai"))
}

/// The content rating for tags already lowercased: NSFW when one of them
/// holds `adult`, `mature`, `ecchi` or `hentai`, safe otherwise.
pub fn content_rating_of_lowered(tags: &Vec<String>) -> (r: ContentRating)
    ensures
        r == rating_of_lowered(tags.deep_view()),
{
    let n = tags.len();
    for i in 0..n
        invariant
            n == tags@.len(),
            forall|j: int| 0 <= j < i ==> !adult_keyword_in(#[trigger] tags.deep_view()[j]),
    {
        if is_adult_tag(tags[i].as_str()) {
            assert(adult_keyword_in(tags.deep_view()[i as int]));
            return ContentRating::NSFW;
        }
    }
    ContentRating::Safe
}

/// The content rating for a genre list: its tags are lowercased, then rated.
pub fn content_rating_of_genre(genre: &Option<Vec<String>>) -> (r: ContentRating)
    ensures
        r == rating_of_genre(opt_list_view(*genre)),
{
    match genre {
        Some(g) => {
            let mut lowered: Vec<String> = Vec::new();
            let n = g.len();
            for i in 0..n
                invariant
                    n == g@.len(),
                    lowered@.len() == i,
                    forall|j: int| 0 <= j < i ==> (#[trigger] lowered@[j])@ == lowercase_text(g@[j]@),
            {
                lowered.push(to_lowercase(g[i].as_str()));
            }
            assert(lowered.deep_view() =~= g.deep_view().map_values(|t: Seq<char>| lowercase_text(t)));
            content_rating_of_lowered(&lowered)
        },
        None => ContentRating::Safe,
    }
}

/// Convert a Suwayomi manga node into the reader's manga.
pub fn manga_from_node(node: &MangaNode, base_url: &str) -> (r: Manga)
    ensures
        r@ == manga_from_node_spec(*node, base_url@),
{
    let cover = Some(thumbnail_url(base_url, node.id));
    let authors = single_if_nonempty(&node.author);
    let artists = single_if_nonempty(&node.artist);
    let tags = match &node.genre {
        Some(g) => Some(clone_strings(g)),
        None => None,
    };
    let content_rating = content_rating_of_genre(&node.genre);
    let status = match &node.status {
        Some(s) => status_from_str(Some(s.as_str())),
        None => status_from_str(None),
    };
    Manga {
        key: int_to_decimal(node.id as i64),
        title: node.title.clone(),
        cover,
        authors,
        artists,
        description: clone_opt_string(&node.description),
        url: clone_opt_string(&node.real_url),
        tags,
        status,
        content_rating,
        viewer: Viewer::RightToLeft,
    }
}

/// Try to extract a clean title from chapter names like "Vol.1 Ch.1 - Title".
pub fn extract_chapter_title(name: &str) -> (r: Option<String>)
    ensures
        opt_view(r) == chapter_title_spec(name@),
{
    let cs = chars_of(name);
    let sep = chars_of(" - ");
    proof {
        reveal_strlit(" - ");
        crate::text::lemma_find_from(cs@, sep@, 0);
    }
    match find_chars(&cs, &sep) {
        Some(idx) => {
            let mut rest: Vec<char> = Vec::new();
            let n = cs.len();
            let mut k = idx + 3;
            assert(idx + 3 <= n);
            while k < n
                invariant
                    n == cs@.len(),
                    idx + 3 <= k <= n,
                    rest@ == cs@.subrange(idx + 3, k as int),
                decreases n - k,
            {
                rest.push(cs[k]);
                assert(cs@.subrange(idx + 3, k + 1) =~= cs@.subrange(idx + 3, k as int).push(
                    cs@[k as int],
                ));
                k = k + 1;
            }
            assert(rest@ =~= cs@.skip(idx + 3));
            let t = trim_chars(&rest);
            if t.len() > 0 {
                Some(string_from_chars(t.as_slice()))
            } else {
                None
            }
        },
        None => None,
    }
}

/// The seconds of an upload date given in milliseconds as text.
pub fn upload_date_seconds(upload_date: &Option<String>) -> (r: Option<i64>)
    ensures
        r == upload_seconds(opt_view(*upload_date)),
{
    match upload_date {
        Some(s) => match parse_i64(s.as_str()) {
            Some(ms) => Some(millis_to_seconds(ms)),
            None => None,
        },
        None => None,
    }
}

/// Convert a Suwayomi chapter node into the reader's chapter.
pub fn chapter_from_node(node: &ChapterNode) -> (r: Chapter)
    ensures
        r@ == chapter_from_node_spec(*node),
{
    Chapter {
        key: int_to_decimal(node.id as i64),
        title: extract_chapter_title(node.name.as_str()),
        chapter_number_bits: node.chapter_number_bits,
        date_uploaded: upload_date_seconds(&node.upload_date),
        scanlators: single_if_nonempty(&node.scanlator),
        url: clone_opt_string(&node.real_url),
    }
}

/// Convert a recently fetched chapter into the reader's chapter.
pub fn chapter_from_node_recent(node: &RecentChapterNode) -> (r: Chapter)
    ensures
        r@ == chapter_from_recent_spec(*node),
{
    Chapter {
        key: int_to_decimal(node.id as i64),
        title: extract_chapter_title(node.name.as_str()),
        chapter_number_bits: node.chapter_number_bits,
        date_uploaded: upload_date_seconds(&node.upload_date),
        scanlators: None,
        url: None,
    }
}

/// Convert the page paths of a chapter into its pages.
pub fn pages_from_urls(urls: &[String], base_url: &str) -> (r: Vec<Page>)
    ensures
        r@.len() == urls@.len(),
        forall|i: int|
            0 <= i < urls@.len() ==> (#[trigger] r@[i]).url@ == absolute_page_url_spec(
                base_url@,
                urls@[i]@,
            ),
{
    let mut r: Vec<Page> = Vec::new();
    let n = urls.len();
    for i in 0..n
        invariant
            n == urls@.len(),
            r@.len() == i,
            forall|j: int|
                0 <= j < i ==> (#[trigger] r@[j]).url@ == absolute_page_url_spec(
                    base_url@,
                    urls@[j]@,
                ),
    {
        r.push(Page { url: absolute_page_url(base_url, urls[i].as_str()) });
    }
    r
}

/// Law: the key of a manga is read back (as a manga's update reads it) as
/// the node's ID.
pub proof fn law_manga_key_is_id(node: MangaNode, base: Seq<char>)
    ensures
        parse_in_range(manga_from_node_spec(node, base).key, i32::MIN as int, i32::MAX as int)
            == Some(node.id as int),
{
    crate::number::law_decimal_roundtrip(node.id as int, i32::MIN as int, i32::MAX as int);
}

/// Law: the key of a chapter is read back (as a chapter's page list reads
/// it) as the node's ID.
pub proof fn law_chapter_key_is_id(node: ChapterNode)
    ensures
        parse_in_range(chapter_from_node_spec(node).key, i32::MIN as int, i32::MAX as int)
            == Some(node.id as int),
{
    crate::number::law_decimal_roundtrip(node.id as int, i32::MIN as int, i32::MAX as int);
}

/// Law: a chapter title, when there is one, is not empty and neither begins
/// nor ends with white space.
pub proof fn law_chapter_title_is_trimmed(name: Seq<char>)
    ensures
        chapter_title_spec(name) matches Some(t) ==> t.len() > 0 && !crate::text::is_white_space(
            t[0],
        ) && !crate::text::is_white_space(t.last()),
{
    if let Some(k) = find_first(name, " - "@) {
        crate::text::law_trim_has_no_edge_space(name.skip(k + 3));
    }
}

/// Law: the four status names that the server uses (the upper-case forms of
/// the status filter's options other than `Any`) each map to their status,
/// never to unknown.
pub proof fn law_status_names()
    ensures
        status_spec(Some("ONGOING"@)) == MangaStatus::Ongoing,
        status_spec(Some("COMPLETED"@)) == MangaStatus::Completed,
        status_spec(Some("HIATUS"@)) == MangaStatus::Hiatus,
        status_spec(Some("CANCELLED"@)) == MangaStatus::Cancelled,
{
    reveal_strlit("ONGOING");
    reveal_strlit("COMPLETED");
    reveal_strlit("HIATUS");
    reveal_strlit("CANCELLED");
    assert("ONGOING"@.len() == 7 && "COMPLETED"@.len() == 9 && "HIATUS"@.len() == 6
        && "CANCELLED"@.len() == 9);
    assert("COMPLETED"@ != "ONGOING"@);
    assert("HIATUS"@ != "ONGOING"@ && "HIATUS"@ != "COMPLETED"@ && "HIATUS"@ != "CANCELLED"@);
    assert("CANCELLED"@ != "ONGOING"@);
    assert("CANCELLED"@[1] != "COMPLETED"@[1]);
    assert("CANCELLED"@ != "COMPLETED"@);
}

/// Law: a tag in ASCII that holds an adult keyword in any letter case
/// (such as `ECCHI`) makes the manga's rating NSFW.
pub proof fn law_adult_tag_in_any_ascii_case(g: Seq<Seq<char>>, i: int)
    requires
        0 <= i < g.len(),
        crate::text::is_ascii_text(g[i]),
        adult_keyword_in(crate::text::ascii_lowercase(g[i])),
    ensures
        rating_of_genre(Some(g)) == ContentRating::NSFW,
{
    let lowered = g.map_values(|t: Seq<char>| lowercase_text(t));
    assert(adult_keyword_in(lowered[i]));
}

/// A tag holds one of the four adult keywords, spelled out.
spec fn holds_adult_word(t: Seq<char>) -> bool {
    ||| contains_seq(t, seq!['a', 'd', 'u', 'l', 't'])
    ||| contains_seq(t, seq!['m', 'a', 't', 'u', 'r', 'e'])
    ||| contains_seq(t, seq!['e', 'c', 'c', 'h', 'i'])
    ||| contains_seq(t, seq!['h', 'e', 'n', 't', 'a', 'i'])
}

/// Law: a manga is rated NSFW exactly when one of its tags, lowercased,
/// contains `adult`, `mature`, `ecchi` or `hentai`; otherwise (and without
/// genres) it is rated Safe.
pub proof fn law_nsfw_exactly_for_adult_words(g: Seq<Seq<char>>)
    ensures
        rating_of_genre(Some(g)) == ContentRating::NSFW <==> exists|i: int|
            0 <= i < g.len() && {
                let t = #[trigger] lowercase_text(g[i]);
                ||| contains_seq(t, seq!['a', 'd', 'u', 'l', 't'])
                ||| contains_seq(t, seq!['m', 'a', 't', 'u', 'r', 'e'])
                ||| contains_seq(t, seq!['e', 'c', 'c', 'h', 'i'])
                ||| contains_seq(t, seq!['h', 'e', 'n', 't', 'a', 'i'])
            },
        rating_of_genre(Some(g)) != ContentRating::NSFW ==> rating_of_genre(Some(g))
            == ContentRating::Safe,
        rating_of_genre(None) == ContentRating::Safe,
{
    reveal_strlit("adult");
    reveal_strlit("mature");
    reveal_strlit("ecchi");
    reveal_strlit("hentai");
    assert("adult"@ =~= seq!['a', 'd', 'u', 'l', 't']);
    assert("mature"@ =~= seq!['m', 'a', 't', 'u', 'r', 'e']);
    assert("ecchi"@ =~= seq!['e', 'c', 'c', 'h', 'i']);
    assert("hentai"@ =~= seq!['h', 'e', 'n', 't', 'a', 'i']);
    let lowered = g.map_values(|t: Seq<char>| lowercase_text(t));
    assert forall|t: Seq<char>| adult_keyword_in(t) == holds_adult_word(t) by {}
    if exists|i: int| 0 <= i < g.len() && holds_adult_word(#[trigger] lowercase_text(g[i])) {
        let i = choose|i: int| 0 <= i < g.len() && holds_adult_word(#[trigger] lowercase_text(g[i]));
        assert(adult_keyword_in(lowered[i]));
    }
    if exists|i: int| 0 <= i < lowered.len() && adult_keyword_in(#[trigger] lowered[i]) {
        let i = choose|i: int| 0 <= i < lowered.len() && adult_keyword_in(#[trigger] lowered[i]);
        assert(holds_adult_word(lowercase_text(g[i])));
    }
}

/// Law: the reader's manga keeps the node's text as it is: its title,
/// description, web address (`realUrl`) and tags are the node's.
pub proof fn law_manga_keeps_node_text(n: MangaNode, base: Seq<char>)
    ensures
        manga_from_node_spec(n, base).title == n.title@,
        manga_from_node_spec(n, base).description == opt_view(n.description),
        manga_from_node_spec(n, base).url == opt_view(n.real_url),
        n.real_url matches Some(u) ==> manga_from_node_spec(n, base).url == Some(u@),
        n.real_url is None ==> manga_from_node_spec(n, base).url is None,
        manga_from_node_spec(n, base).tags == opt_list_view(n.genre),
{
}

/// Law: a chapter's title is taken after the first ` - ` (space, hyphen,
/// space) of its name, whatever hyphens come before it, and trimmed; a name
/// without ` - `, or with only white space after it, gives no title. (`k` is
/// any position of the name.)
pub proof fn law_chapter_title_after_first_separator(name: Seq<char>, k: int)
    ensures
        (forall|j: int| !crate::text::occurs_at(name, seq![' ', '-', ' '], j))
            ==> chapter_title_spec(name) is None,
        crate::text::occurs_at(name, seq![' ', '-', ' '], k) && (forall|j: int|
            0 <= j < k ==> !crate::text::occurs_at(name, seq![' ', '-', ' '], j))
            ==> chapter_title_spec(name) == if trim_seq(name.skip(k + 3)).len() > 0 {
            Some(trim_seq(name.skip(k + 3)))
        } else {
            None
        },
{
    reveal_strlit(" - ");
    assert(" - "@ =~= seq![' ', '-', ' ']);
    crate::text::lemma_find_from(name, " - "@, 0);
    if crate::text::occurs_at(name, seq![' ', '-', ' '], k) && (forall|j: int|
        0 <= j < k ==> !crate::text::occurs_at(name, seq![' ', '-', ' '], j)) {
        match find_first(name, " - "@) {
            Some(f) => {
                if f < k {
                    assert(!crate::text::occurs_at(name, seq![' ', '-', ' '], f));
                }
                if k < f {
                    assert(k >= 0);
                }
            },
            None => {
                assert(k >= 0);
            },
        }
    }
}

/// Law: a chapter keeps its node's chapter number, and a recently fetched
/// chapter is given the same key, title, number and upload time as a chapter
/// node with the same id, name, number and upload date.
pub proof fn law_chapters_keep_node_facts(c: ChapterNode, r: RecentChapterNode)
    ensures
        chapter_from_node_spec(c).chapter_number_bits == c.chapter_number_bits,
        chapter_from_recent_spec(r).chapter_number_bits == r.chapter_number_bits,
        chapter_from_node_spec(c).url == opt_view(c.real_url),
        (r.id == c.id && r.name@ == c.name@ && r.chapter_number_bits == c.chapter_number_bits
            && opt_view(r.upload_date) == opt_view(c.upload_date)) ==> {
            &&& chapter_from_recent_spec(r).key == chapter_from_node_spec(c).key
            &&& chapter_from_recent_spec(r).title == chapter_from_node_spec(c).title
            &&& chapter_from_recent_spec(r).chapter_number_bits == chapter_from_node_spec(
                c,
            ).chapter_number_bits
            &&& chapter_from_recent_spec(r).date_uploaded == chapter_from_node_spec(c).date_uploaded
        },
{
}

} // verus!
