//! The decisions of the source: settings, filters, listings, pages of
//! results and the home screen. The server is asked by the caller; these
//! functions say what to ask and what to make of the answers.
use vstd::prelude::*;
use crate::api::graphql::{PAGE_SIZE, mangas_query, mangas_query_spec, page_in_range};
use crate::api::models::{ChapterNode, MangaNode, RecentChapterNode, opt_view};
use crate::entries::{
    Chapter, Filter, FilterValue, HomeComponent, HomeComponentValue, HomeLayout, Listing,
    ListingKind, Manga, MangaPageResult, MangaWithChapter, SortDefault,
};
use crate::error::SourceError;
use crate::helpers::{
    chapter_from_node, chapter_from_node_recent, chapter_from_node_spec, chapter_from_recent_spec,
    manga_from_node, manga_from_node_spec, opt_str_view,
};
use crate::number::{parse_i32, parse_in_range};
use crate::text::{chars_of, has_prefix, starts_with_chars, str_equal, string_from_chars};

verus! {

/// The sort field meaning "title".
pub const SORT_TITLE: &'static str = "TITLE";

/// The sort field meaning "last fetched".
pub const SORT_LAST_FETCHED: &'static str = "LAST_FETCHED_AT";

/// The sort field meaning "added to the library".
pub const SORT_IN_LIBRARY_AT: &'static str = "IN_LIBRARY_AT";

/// The source.
pub struct SuwayomiSource;

/// A setting's value, kept only when it is not empty.
pub open spec fn nonempty_setting(raw: Option<Seq<char>>) -> Option<Seq<char>> {
    match raw {
        Some(s) => if s.len() > 0 {
            Some(s)
        } else {
            None
        },
        None => None,
    }
}

/// The sort field for the index of the sort filter's option.
pub open spec fn sort_field_for(index: i32) -> Seq<char> {
    if index == 0 {
        SORT_TITLE@
    } else if index == 2 {
        SORT_IN_LIBRARY_AT@
    } else {
        SORT_LAST_FETCHED@
    }
}

/// The sort field, direction and status after one more filter value.
pub open spec fn apply_filter(st: (Seq<char>, bool, Seq<char>), f: FilterValue) -> (
    Seq<char>,
    bool,
    Seq<char>,
) {
    match f {
        FilterValue::Sort { id, index, ascending } => if id@ == "sort"@ {
            (sort_field_for(index), ascending, st.2)
        } else {
            st
        },
        FilterValue::Select { id, value } => if id@ == "status"@ && value@ != "Any"@ && value@.len()
            > 0 {
            (st.0, st.1, value@)
        } else {
            st
        },
        FilterValue::Other { .. } => st,
    }
}

/// The sort field, direction and status that filter values select, in order:
/// last fetched, descending, any status, unless a filter says otherwise.
pub open spec fn parse_filters_spec(fs: Seq<FilterValue>) -> (Seq<char>, bool, Seq<char>)
    decreases fs.len(),
{
    if fs.len() == 0 {
        (SORT_LAST_FETCHED@, false, Seq::empty())
    } else {
        apply_filter(parse_filters_spec(fs.drop_last()), fs.last())
    }
}

/// Whether there is a page after page `page` when there are `total` manga.
pub open spec fn has_next_page_spec(page: int, total: int) -> bool {
    page * PAGE_SIZE < total
}

/// Whether `page * PAGE_SIZE` is an `i32`.
pub open spec fn page_end_in_range(page: int) -> bool {
    i32::MIN <= page * PAGE_SIZE <= i32::MAX
}

/// Where a listing's manga come from.
#[derive(Debug)]
pub enum ListingRoute {
    /// The manga of a category.
    Category(i32),
    /// The library, most recently added first.
    Library,
    /// The manga of recently fetched chapters.
    Recent,
}

/// What a listing id asks for.
pub enum RouteDecision {
    Category(i32),
    Library,
    Recent,
    InvalidId,
    Unknown,
}

/// What the listing id `id` asks for: `category:N` for a category, `library`,
/// or `recent`.
pub open spec fn route_spec(id: Seq<char>) -> RouteDecision {
    if has_prefix(id, "category:"@) {
        match parse_in_range(id.skip(9), i32::MIN as int, i32::MAX as int) {
            Some(v) => RouteDecision::Category(v as i32),
            None => RouteDecision::InvalidId,
        }
    } else if id == "library"@ {
        RouteDecision::Library
    } else if id == "recent"@ {
        RouteDecision::Recent
    } else {
        RouteDecision::Unknown
    }
}

/// Whether a routing result is what the decision for `id` calls for.
pub open spec fn route_result_is(
    r: Result<ListingRoute, SourceError>,
    d: RouteDecision,
    id: Seq<char>,
) -> bool {
    match d {
        RouteDecision::Category(v) => r matches Ok(ListingRoute::Category(x)) && x == v,
        RouteDecision::Library => r matches Ok(ListingRoute::Library),
        RouteDecision::Recent => r matches Ok(ListingRoute::Recent),
        RouteDecision::InvalidId => r matches Err(SourceError::InvalidId),
        RouteDecision::Unknown => r matches Err(SourceError::UnknownListing(s)) && s@ == id,
    }
}

/// The manga entries of a list of nodes.
pub open spec fn entries_match(entries: Seq<Manga>, nodes: Seq<MangaNode>, base: Seq<char>) -> bool {
    &&& entries.len() == nodes.len()
    &&& forall|i: int|
        0 <= i < nodes.len() ==> (#[trigger] entries[i])@ == manga_from_node_spec(nodes[i], base)
}

/// A listing with the given id, name and kind.
pub open spec fn listing_is(l: Option<Listing>, id: Seq<char>, name: Seq<char>, kind: ListingKind) -> bool {
    l matches Some(x) && x.id@ == id && x.name@ == name && x.kind == kind
}

/// The home screen: recently updated chapters with their manga, then the library.
pub open spec fn home_layout_holds(
    h: HomeLayout,
    recent: Seq<RecentChapterNode>,
    library: Seq<MangaNode>,
    base: Seq<char>,
) -> bool {
    &&& h.components@.len() == 2
    &&& opt_view(h.components@[0].title) == Some("Recently Updated"@)
    &&& h.components@[0].subtitle is None
    &&& match h.components@[0].value {
        HomeComponentValue::MangaChapterList { page_size, entries, listing } => {
            &&& page_size is None
            &&& entries@.len() == recent.len()
            &&& forall|i: int|
                0 <= i < recent.len() ==> (#[trigger] entries@[i]).manga@ == manga_from_node_spec(
                    recent[i].manga,
                    base,
                ) && entries@[i].chapter@ == chapter_from_recent_spec(recent[i])
            &&& listing_is(listing, "recent"@, "Recently Updated"@, ListingKind::List)
        },
        _ => false,
    }
    &&& opt_view(h.components@[1].title) == Some("Library"@)
    &&& h.components@[1].subtitle is None
    &&& match h.components@[1].value {
        HomeComponentValue::Scroller { entries, listing } => {
            &&& entries_match(entries@, library, base)
            &&& listing_is(listing, "library"@, "Library"@, ListingKind::Default)
        },
        _ => false,
    }
}

/// The filters offered: a sort by title, last update or date added (last
/// update, descending, by default), and a status choice.
pub open spec fn dynamic_filters_hold(fs: Seq<Filter>) -> bool {
    &&& fs.len() == 2
    &&& match fs[0] {
        Filter::Sort { id, title, can_ascend, options, default } => {
            &&& id@ == "sort"@
            &&& opt_view(title) == Some("Sort By"@)
            &&& can_ascend
            &&& options.deep_view() == seq!["Title"@, "Last Updated"@, "Date Added"@]
            &&& default matches Some(d) && d.index == 1 && !d.ascending
        },
        _ => false,
    }
    &&& match fs[1] {
        Filter::Select { id, title, options } => {
            &&& id@ == "status"@
            &&& opt_view(title) == Some("Status"@)
            &&& options.deep_view() == seq![
                "Any"@,
                "Ongoing"@,
                "Completed"@,
                "Hiatus"@,
                "Cancelled"@,
            ]
        },
        _ => false,
    }
}

impl SuwayomiSource {
    /// The source.
    pub fn new() -> (r: Self) {
        SuwayomiSource
    }

    /// The server address from the configured setting: an error when it is
    /// missing or empty.
    pub fn server_url(configured: Option<String>) -> (r: Result<String, SourceError>)
        ensures
            match r {
                Ok(s) => nonempty_setting(opt_view(configured)) == Some(s@),
                Err(e) => nonempty_setting(opt_view(configured)) is None && e
                    == SourceError::ServerUrlNotConfigured,
            },
    {
        match configured {
            Some(s) => {
                if s.as_str().is_empty() {
                    Err(SourceError::ServerUrlNotConfigured)
                } else {
                    Ok(s)
                }
            },
            None => Err(SourceError::ServerUrlNotConfigured),
        }
    }

    /// The user name from the configured setting, when it is not empty.
    pub fn username(configured: Option<String>) -> (r: Option<String>)
        ensures
            opt_view(r) == nonempty_setting(opt_view(configured)),
    {
        Self::setting(configured)
    }

    /// The password from the configured setting, when it is not empty.
    pub fn password(configured: Option<String>) -> (r: Option<String>)
        ensures
            opt_view(r) == nonempty_setting(opt_view(configured)),
    {
        Self::setting(configured)
    }

    fn setting(configured: Option<String>) -> (r: Option<String>)
        ensures
            opt_view(r) == nonempty_setting(opt_view(configured)),
    {
        match configured {
            Some(s) => {
                if s.as_str().is_empty() {
                    None
                } else {
                    Some(s)
                }
            },
            None => None,
        }
    }

    /// Parse filter values into sort field, sort direction, and status string
    /// (empty for no status filter).
    pub fn parse_filters(filters: &[FilterValue]) -> (r: (&'static str, bool, String))
        ensures
            (r.0@, r.1, r.2@) == parse_filters_spec(filters@),
    {
        let mut sort_field: &'static str = SORT_LAST_FETCHED;
        let mut sort_asc = false;
        let mut status = String::new();
        let n = filters.len();
        for i in 0..n
            invariant
                n == filters@.len(),
                (sort_field@, sort_asc, status@) == parse_filters_spec(filters@.take(i as int)),
        {
            assert(filters@.take(i + 1).drop_last() =~= filters@.take(i as int));
            match &filters[i] {
                FilterValue::Sort { id, index, ascending } => {
                    if str_equal(id.as_str(), "sort") {
                        sort_field = if *index == 0 {
                            SORT_TITLE
                        } else if *index == 2 {
                            SORT_IN_LIBRARY_AT
                        } else {
                            SORT_LAST_FETCHED
                        };
                        sort_asc = *ascending;
                    }
                },
                FilterValue::Select { id, value } => {
                    if str_equal(id.as_str(), "status") && !str_equal(value.as_str(), "Any")
                        && !value.as_str().is_empty() {
                        status = value.clone();
                    }
                },
                FilterValue::Other { .. } => {},
            }
        }
        assert(filters@.take(n as int) =~= filters@);
        (sort_field, sort_asc, status)
    }

    /// The query of a search: the filters' sort and status, the title query,
    /// and the page.
    pub fn search_query(query: Option<&str>, page: i32, filters: &[FilterValue]) -> (r: String)
        requires
            page_in_range(page as int),
        ensures
            ({
                let st = parse_filters_spec(filters@);
                r@ == mangas_query_spec(opt_str_view(query), Some(st.2), st.0, st.1, page as int)
            }),
    {
        let (sort_field, sort_asc, status) = Self::parse_filters(filters);
        mangas_query(query, Some(status.as_str()), sort_field, sort_asc, page)
    }

    /// The query of the library listing (and the library section of the
    /// home screen): most recently added first.
    pub fn library_query(page: i32) -> (r: String)
        requires
            page_in_range(page as int),
        ensures
            r@ == mangas_query_spec(None, None, SORT_IN_LIBRARY_AT@, false, page as int),
    {
        mangas_query(None, None, SORT_IN_LIBRARY_AT, false, page)
    }

    /// Reads a manga or chapter key as its numeric ID.
    pub fn parse_id(key: &str) -> (r: Result<i32, SourceError>)
        ensures
            match r {
                Ok(v) => parse_in_range(key@, i32::MIN as int, i32::MAX as int) == Some(v as int),
                Err(e) => parse_in_range(key@, i32::MIN as int, i32::MAX as int) is None && e
                    == SourceError::InvalidId,
            },
    {
        match parse_i32(key) {
            Some(v) => Ok(v),
            None => Err(SourceError::InvalidId),
        }
    }

    /// Where the manga of the listing with id `id` come from.
    pub fn route_listing(id: &str) -> (r: Result<ListingRoute, SourceError>)
        ensures
            route_result_is(r, route_spec(id@), id@),
    {
        let cs = chars_of(id);
        let prefix = chars_of("category:");
        proof {
            reveal_strlit("category:");
        }
        if starts_with_chars(&cs, &prefix) {
            let mut rest: Vec<char> = Vec::new();
            let n = cs.len();
            let mut k: usize = 9;
            while k < n
                invariant
                    n == cs@.len(),
                    9 <= k <= n,
                    rest@ == cs@.subrange(9, k as int),
                decreases n - k,
            {
                rest.push(cs[k]);
                assert(cs@.subrange(9, k + 1) =~= cs@.subrange(9, k as int).push(cs@[k as int]));
                k = k + 1;
            }
            assert(rest@ =~= id@.skip(9));
            let tail = string_from_chars(rest.as_slice());
            match parse_i32(tail.as_str()) {
                Some(v) => Ok(ListingRoute::Category(v)),
                None => Err(SourceError::InvalidId),
            }
        } else if str_equal(id, "library") {
            Ok(ListingRoute::Library)
        } else if str_equal(id, "recent") {
            Ok(ListingRoute::Recent)
        } else {
            Err(SourceError::UnknownListing(String::from_str(id)))
        }
    }

    /// Whether a page follows page `page` when there are `total_count` manga.
    pub fn has_next_page(page: i32, total_count: i32) -> (r: bool)
        requires
            page_end_in_range(page as int),
        ensures
            r == has_next_page_spec(page as int, total_count as int),
    {
        (page * PAGE_SIZE) < total_count
    }

    /// The reader's manga for each node.
    pub fn manga_entries(nodes: &Vec<MangaNode>, base_url: &str) -> (r: Vec<Manga>)
        ensures
            entries_match(r@, nodes@, base_url@),
    {
        let mut r: Vec<Manga> = Vec::new();
        let n = nodes.len();
        for i in 0..n
            invariant
                n == nodes@.len(),
                r@.len() == i,
                forall|j: int|
                    0 <= j < i ==> (#[trigger] r@[j])@ == manga_from_node_spec(nodes@[j], base_url@),
        {
            r.push(manga_from_node(&nodes[i], base_url));
        }
        r
    }

    /// A page of manga from a `mangas` answer.
    pub fn manga_page_result(
        nodes: &Vec<MangaNode>,
        total_count: i32,
        base_url: &str,
        page: i32,
    ) -> (r: MangaPageResult)
        requires
            page_end_in_range(page as int),
        ensures
            entries_match(r.entries@, nodes@, base_url@),
            r.has_next_page == has_next_page_spec(page as int, total_count as int),
    {
        let entries = Self::manga_entries(nodes, base_url);
        let has_next_page = Self::has_next_page(page, total_count);
        MangaPageResult { entries, has_next_page }
    }

    /// The page of the `recent` listing: the manga of each recent chapter
    /// (once per chapter), and never a next page.
    pub fn recent_page_result(nodes: &Vec<RecentChapterNode>, base_url: &str) -> (r:
        MangaPageResult)
        ensures
            r.entries@.len() == nodes@.len(),
            forall|i: int|
                0 <= i < nodes@.len() ==> (#[trigger] r.entries@[i])@ == manga_from_node_spec(
                    nodes@[i].manga,
                    base_url@,
                ),
            !r.has_next_page,
    {
        let mut entries: Vec<Manga> = Vec::new();
        let n = nodes.len();
        for i in 0..n
            invariant
                n == nodes@.len(),
                entries@.len() == i,
                forall|j: int|
                    0 <= j < i ==> (#[trigger] entries@[j])@ == manga_from_node_spec(
                        nodes@[j].manga,
                        base_url@,
                    ),
        {
            entries.push(manga_from_node(&nodes[i].manga, base_url));
        }
        MangaPageResult { entries, has_next_page: false }
    }

    /// The reader's chapters for each chapter node, in order.
    pub fn chapters_from_nodes(nodes: &Vec<ChapterNode>) -> (r: Vec<Chapter>)
        ensures
            r@.len() == nodes@.len(),
            forall|i: int|
                0 <= i < nodes@.len() ==> (#[trigger] r@[i])@ == chapter_from_node_spec(nodes@[i]),
    {
        let mut r: Vec<Chapter> = Vec::new();
        let n = nodes.len();
        for i in 0..n
            invariant
                n == nodes@.len(),
                r@.len() == i,
                forall|j: int|
                    0 <= j < i ==> (#[trigger] r@[j])@ == chapter_from_node_spec(nodes@[j]),
        {
            r.push(chapter_from_node(&nodes[i]));
        }
        r
    }

    /// The home screen from the recently fetched chapters and the first
    /// page of the library.
    pub fn home_layout(
        recent: &Vec<RecentChapterNode>,
        library: &Vec<MangaNode>,
        base_url: &str,
    ) -> (r: HomeLayout)
        ensures
            home_layout_holds(r, recent@, library@, base_url@),
    {
        let mut recent_entries: Vec<MangaWithChapter> = Vec::new();
        let n = recent.len();
        for i in 0..n
            invariant
                n == recent@.len(),
                recent_entries@.len() == i,
                forall|j: int|
                    0 <= j < i ==> (#[trigger] recent_entries@[j]).manga@ == manga_from_node_spec(
                        recent@[j].manga,
                        base_url@,
                    ) && recent_entries@[j].chapter@ == chapter_from_recent_spec(recent@[j]),
        {
            recent_entries.push(
                MangaWithChapter {
                    manga: manga_from_node(&recent[i].manga, base_url),
                    chapter: chapter_from_node_recent(&recent[i]),
                },
            );
        }
        let library_entries = Self::manga_entries(library, base_url);
        let mut components: Vec<HomeComponent> = Vec::new();
        components.push(
            HomeComponent {
                title: Some(String::from_str("Recently Updated")),
                subtitle: None,
                value: HomeComponentValue::MangaChapterList {
                    page_size: None,
                    entries: recent_entries,
                    listing: Some(
                        Listing {
                            id: String::from_str("recent"),
                            name: String::from_str("Recently Updated"),
                            kind: ListingKind::List,
                        },
                    ),
                },
            },
        );
        components.push(
            HomeComponent {
                title: Some(String::from_str("Library")),
                subtitle: None,
                value: HomeComponentValue::Scroller {
                    entries: library_entries,
                    listing: Some(
                        Listing {
                            id: String::from_str("library"),
                            name: String::from_str("Library"),
                            kind: ListingKind::Default,
                        },
                    ),
                },
            },
        );
        HomeLayout { components }
    }

    /// The filters the source offers.
    pub fn get_dynamic_filters() -> (r: Vec<Filter>)
        ensures
            dynamic_filters_hold(r@),
    {
        let mut sort_options: Vec<String> = Vec::new();
        sort_options.push(String::from_str("Title"));
        sort_options.push(String::from_str("Last Updated"));
        sort_options.push(String::from_str("Date Added"));
        assert(sort_options.deep_view() =~= seq!["Title"@, "Last Updated"@, "Date Added"@]);
        let mut status_options: Vec<String> = Vec::new();
        status_options.push(String::from_str("Any"));
        status_options.push(String::from_str("Ongoing"));
        status_options.push(String::from_str("Completed"));
        status_options.push(String::from_str("Hiatus"));
        status_options.push(String::from_str("Cancelled"));
        assert(status_options.deep_view() =~= seq![
            "Any"@,
            "Ongoing"@,
            "Completed"@,
            "Hiatus"@,
            "Cancelled"@,
        ]);
        let mut r: Vec<Filter> = Vec::new();
        r.push(
            Filter::Sort {
                id: String::from_str("sort"),
                title: Some(String::from_str("Sort By")),
                can_ascend: true,
                options: sort_options,
                default: Some(SortDefault { index: 1, ascending: false }),
            },
        );
        r.push(
            Filter::Select {
                id: String::from_str("status"),
                title: Some(String::from_str("Status")),
                options: status_options,
            },
        );
        r
    }
}

/// Law: a page has a successor exactly when the next page starts before the
/// end of the listing.
pub proof fn law_next_page_starts_in_listing(page: int, total: int)
    ensures
        has_next_page_spec(page, total) == (crate::api::graphql::page_offset(page + 1) < total),
{
}

/// Law: filter values that choose nothing change nothing: kinds of filter
/// the source does not offer, filters with other ids, and a status of `Any`
/// or nothing.
pub proof fn law_idle_filters_change_nothing(fs: Seq<FilterValue>, f: FilterValue)
    requires
        match f {
            FilterValue::Sort { id, .. } => id@ != "sort"@,
            FilterValue::Select { id, value } => id@ != "status"@ || value@ == "Any"@
                || value@.len() == 0,
            FilterValue::Other { .. } => true,
        },
    ensures
        parse_filters_spec(fs.push(f)) == parse_filters_spec(fs),
{
    assert(fs.push(f).drop_last() =~= fs);
}

/// Law: the default that the sort filter offers (last updated, descending)
/// selects what no filter at all selects.
pub proof fn law_offered_default_is_fallback(f: FilterValue)
    requires
        f matches FilterValue::Sort { id, index, ascending } && id@ == "sort"@ && index == 1
            && !ascending,
    ensures
        parse_filters_spec(seq![f]) == parse_filters_spec(Seq::empty()),
{
    assert(seq![f].drop_last() =~= Seq::<FilterValue>::empty());
}

/// Law: the sort field sent is always one of the three the server knows.
pub proof fn law_sort_field_is_known(fs: Seq<FilterValue>)
    ensures
        ({
            let s = parse_filters_spec(fs).0;
            s == SORT_TITLE@ || s == SORT_LAST_FETCHED@ || s == SORT_IN_LIBRARY_AT@
        }),
    decreases fs.len(),
{
    if fs.len() > 0 {
        law_sort_field_is_known(fs.drop_last());
    }
}

/// Law: the listings that the home screen links to are the ones that
/// listing requests route to the recent chapters and to the library.
pub proof fn law_home_listings_route(
    h: HomeLayout,
    recent: Seq<RecentChapterNode>,
    library: Seq<MangaNode>,
    base: Seq<char>,
)
    requires
        home_layout_holds(h, recent, library, base),
    ensures
        match h.components@[0].value {
            HomeComponentValue::MangaChapterList { listing, .. } => route_spec(listing->Some_0.id@)
                is Recent,
            _ => false,
        },
        match h.components@[1].value {
            HomeComponentValue::Scroller { listing, .. } => route_spec(listing->Some_0.id@)
                is Library,
            _ => false,
        },
{
    reveal_strlit("category:");
    reveal_strlit("recent");
    reveal_strlit("library");
}

/// Law: the listing id `category:N` routes to category `N`.
pub proof fn law_category_route(n: i32)
    ensures
        route_spec("category:"@ + crate::number::int_decimal(n as int)) == RouteDecision::Category(
            n,
        ),
{
    reveal_strlit("category:");
    let id = "category:"@ + crate::number::int_decimal(n as int);
    assert(id.subrange(0, 9) =~= "category:"@);
    assert(id.skip(9) =~= crate::number::int_decimal(n as int));
    crate::number::law_decimal_roundtrip(n as int, i32::MIN as int, i32::MAX as int);
}

/// Law: the options of the offered sort filter, in the order offered
/// (title, last updated, date added), select the sort fields title, last
/// fetched and added to the library, in the direction chosen.
pub proof fn law_sort_options_select_fields(f: FilterValue, fs: Seq<Filter>)
    requires
        dynamic_filters_hold(fs),
        f matches FilterValue::Sort { id, index, .. } && id@ == "sort"@ && 0 <= index < 3,
    ensures
        ({
            let chosen = parse_filters_spec(seq![f]);
            let index = f->Sort_index;
            &&& chosen.1 == f->Sort_ascending
            &&& fs[0]->Sort_options.deep_view()[index as int] == (if index == 0 {
                "Title"@
            } else if index == 1 {
                "Last Updated"@
            } else {
                "Date Added"@
            })
            &&& chosen.0 == (if index == 0 {
                SORT_TITLE@
            } else if index == 1 {
                SORT_LAST_FETCHED@
            } else {
                SORT_IN_LIBRARY_AT@
            })
        }),
{
    assert(seq![f].drop_last() =~= Seq::<FilterValue>::empty());
}

proof fn lemma_upper_name(o: Seq<char>, name: Seq<char>)
    requires
        crate::text::is_ascii_text(o),
        crate::text::ascii_uppercase(o) == name,
        o != "Any"@,
        o.len() > 0,
    ensures
        crate::api::graphql::condition_clause_spec(Some(o))
            == crate::api::graphql::status_condition_spec(name),
{
}

/// Law: each status the status filter offers besides `Any` reaches the server
/// as the status name it uses (`ONGOING`, `COMPLETED`, `HIATUS`,
/// `CANCELLED`), and that name reads back as the status chosen.
pub proof fn law_status_options_reach_server(fs: Seq<Filter>)
    requires
        dynamic_filters_hold(fs),
    ensures
        ({
            let o = fs[1]->Select_options.deep_view();
            &&& crate::api::graphql::condition_clause_spec(Some(o[1]))
                == crate::api::graphql::status_condition_spec("ONGOING"@)
            &&& crate::api::graphql::condition_clause_spec(Some(o[2]))
                == crate::api::graphql::status_condition_spec("COMPLETED"@)
            &&& crate::api::graphql::condition_clause_spec(Some(o[3]))
                == crate::api::graphql::status_condition_spec("HIATUS"@)
            &&& crate::api::graphql::condition_clause_spec(Some(o[4]))
                == crate::api::graphql::status_condition_spec("CANCELLED"@)
            &&& crate::helpers::status_spec(Some("ONGOING"@)) == crate::entries::MangaStatus::Ongoing
            &&& crate::helpers::status_spec(Some("COMPLETED"@))
                == crate::entries::MangaStatus::Completed
            &&& crate::helpers::status_spec(Some("HIATUS"@)) == crate::entries::MangaStatus::Hiatus
            &&& crate::helpers::status_spec(Some("CANCELLED"@))
                == crate::entries::MangaStatus::Cancelled
        }),
{
    reveal_strlit("Any");
    reveal_strlit("Ongoing");
    reveal_strlit("Completed");
    reveal_strlit("Hiatus");
    reveal_strlit("Cancelled");
    reveal_strlit("ONGOING");
    reveal_strlit("COMPLETED");
    reveal_strlit("HIATUS");
    reveal_strlit("CANCELLED");
    let o = fs[1]->Select_options.deep_view();
    assert(o[1] == "Ongoing"@ && o[2] == "Completed"@ && o[3] == "Hiatus"@ && o[4] == "Cancelled"@);
    assert(crate::text::ascii_uppercase("Ongoing"@) =~= "ONGOING"@);
    assert(crate::text::ascii_uppercase("Completed"@) =~= "COMPLETED"@);
    assert(crate::text::ascii_uppercase("Hiatus"@) =~= "HIATUS"@);
    assert(crate::text::ascii_uppercase("Cancelled"@) =~= "CANCELLED"@);
    assert("Ongoing"@.len() == 7 && "Completed"@.len() == 9 && "Hiatus"@.len() == 6
        && "Cancelled"@.len() == 9 && "Any"@.len() == 3);
    lemma_upper_name("Ongoing"@, "ONGOING"@);
    lemma_upper_name("Completed"@, "COMPLETED"@);
    lemma_upper_name("Hiatus"@, "HIATUS"@);
    lemma_upper_name("Cancelled"@, "CANCELLED"@);
    crate::helpers::law_status_names();
}

/// Law: each entry of the home screen's recently updated section shows the
/// manga of its recent chapter and that chapter, with the chapter number,
/// key and title of the chapter's node.
pub proof fn law_home_recent_entries_keep_chapters(
    h: HomeLayout,
    recent: Seq<RecentChapterNode>,
    library: Seq<MangaNode>,
    base: Seq<char>,
    i: int,
)
    requires
        home_layout_holds(h, recent, library, base),
        0 <= i < recent.len(),
    ensures
        match h.components@[0].value {
            HomeComponentValue::MangaChapterList { entries, .. } => {
                &&& entries@[i].chapter@.chapter_number_bits == recent[i].chapter_number_bits
                &&& entries@[i].chapter@.key == crate::number::int_decimal(recent[i].id as int)
                &&& entries@[i].chapter@.title == crate::helpers::chapter_title_spec(recent[i].name@)
                &&& entries@[i].manga@.key == crate::number::int_decimal(recent[i].manga.id as int)
            },
            _ => false,
        },
{
    match h.components@[0].value {
        HomeComponentValue::MangaChapterList { entries, .. } => {
            assert(entries@[i].chapter@ == chapter_from_recent_spec(recent[i]));
        },
        _ => {},
    }
}

} // verus!
