//! What the reader shows: manga, chapters, pages, listings, the home screen
//! and the filters it offers.
use vstd::prelude::*;

verus! {

/// How far a manga's publication has come.
#[derive(Clone, Copy, Debug, PartialEq, Eq, Structural)]
pub enum MangaStatus {
    Unknown,
    Ongoing,
    Completed,
    Cancelled,
    Hiatus,
}

/// Whether a manga is fit for all readers.
#[derive(Clone, Copy, Debug, PartialEq, Eq, Structural)]
pub enum ContentRating {
    Unknown,
    Safe,
    Suggestive,
    NSFW,
}

/// The reading direction.
#[derive(Clone, Copy, Debug, PartialEq, Eq, Structural)]
pub enum Viewer {
    Unknown,
    LeftToRight,
    RightToLeft,
    Vertical,
    Webtoon,
}

/// A manga as the reader shows it.
pub struct Manga {
    pub key: String,
    pub title: String,
    pub cover: Option<String>,
    pub authors: Option<Vec<String>>,
    pub artists: Option<Vec<String>>,
    pub description: Option<String>,
    pub url: Option<String>,
    pub tags: Option<Vec<String>>,
    pub status: MangaStatus,
    pub content_rating: ContentRating,
    pub viewer: Viewer,
}

/// A manga's fields as characters.
pub struct MangaView {
    pub key: Seq<char>,
    pub title: Seq<char>,
    pub cover: Option<Seq<char>>,
    pub authors: Option<Seq<Seq<char>>>,
    pub artists: Option<Seq<Seq<char>>>,
    pub description: Option<Seq<char>>,
    pub url: Option<Seq<char>>,
    pub tags: Option<Seq<Seq<char>>>,
    pub status: MangaStatus,
    pub content_rating: ContentRating,
    pub viewer: Viewer,
}

impl View for Manga {
    type V = MangaView;

    open spec fn view(&self) -> MangaView {
        MangaView {
            key: self.key@,
            title: self.title@,
            cover: crate::api::models::opt_view(self.cover),
            authors: crate::api::models::opt_list_view(self.authors),
            artists: crate::api::models::opt_list_view(self.artists),
            description: crate::api::models::opt_view(self.description),
            url: crate::api::models::opt_view(self.url),
            tags: crate::api::models::opt_list_view(self.tags),
            status: self.status,
            content_rating: self.content_rating,
            viewer: self.viewer,
        }
    }
}

/// A chapter as the reader shows it.
pub struct Chapter {
    pub key: String,
    pub title: Option<String>,
    /// The bits of the chapter number's `f32`.
    pub chapter_number_bits: Option<u32>,
    /// Seconds since the epoch.
    pub date_uploaded: Option<i64>,
    pub scanlators: Option<Vec<String>>,
    pub url: Option<String>,
}

/// A chapter's fields as characters.
pub struct ChapterView {
    pub key: Seq<char>,
    pub title: Option<Seq<char>>,
    pub chapter_number_bits: Option<u32>,
    pub date_uploaded: Option<i64>,
    pub scanlators: Option<Seq<Seq<char>>>,
    pub url: Option<Seq<char>>,
}

impl View for Chapter {
    type V = ChapterView;

    open spec fn view(&self) -> ChapterView {
        ChapterView {
            key: self.key@,
            title: crate::api::models::opt_view(self.title),
            chapter_number_bits: self.chapter_number_bits,
            date_uploaded: self.date_uploaded,
            scanlators: crate::api::models::opt_list_view(self.scanlators),
            url: crate::api::models::opt_view(self.url),
        }
    }
}

/// A page of a chapter: the address of its image.
pub struct Page {
    pub url: String,
}

/// One page of a listing or a search.
pub struct MangaPageResult {
    pub entries: Vec<Manga>,
    pub has_next_page: bool,
}

/// A manga together with one of its chapters.
pub struct MangaWithChapter {
    pub manga: Manga,
    pub chapter: Chapter,
}

/// How a listing is laid out.
#[derive(Clone, Copy, Debug, PartialEq, Eq, Structural)]
pub enum ListingKind {
    Default,
    List,
}

/// A listing the reader can open.
pub struct Listing {
    pub id: String,
    pub name: String,
    pub kind: ListingKind,
}

/// What a section of the home screen shows.
pub enum HomeComponentValue {
    MangaChapterList {
        page_size: Option<i32>,
        entries: Vec<MangaWithChapter>,
        listing: Option<Listing>,
    },
    Scroller { entries: Vec<Manga>, listing: Option<Listing> },
}

/// A section of the home screen.
pub struct HomeComponent {
    pub title: Option<String>,
    pub subtitle: Option<String>,
    pub value: HomeComponentValue,
}

/// The home screen.
pub struct HomeLayout {
    pub components: Vec<HomeComponent>,
}

/// The default choice of a sort filter.
pub struct SortDefault {
    pub index: i32,
    pub ascending: bool,
}

/// A filter the reader offers for searches.
pub enum Filter {
    Sort {
        id: String,
        title: Option<String>,
        can_ascend: bool,
        options: Vec<String>,
        default: Option<SortDefault>,
    },
    Select { id: String, title: Option<String>, options: Vec<String> },
}

/// A value the reader gives for a filter. Kinds of filter that this source
/// does not offer arrive as `Other`.
pub enum FilterValue {
    Sort { id: String, index: i32, ascending: bool },
    Select { id: String, value: String },
    Other { id: String },
}

} // verus!
