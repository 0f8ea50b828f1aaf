//! The shapes of the server's GraphQL answers. A chapter number, a float on
//! the wire, is carried as the bits of its `f32`.
use vstd::prelude::*;

verus! {

/// The `data` member of a GraphQL answer.
pub struct GqlResponse<T> {
    pub data: T,
}

/// The answer to a `mangas` query.
pub struct MangasData {
    pub mangas: MangasConnection,
}

/// A page of manga and how many there are in all.
pub struct MangasConnection {
    pub nodes: Vec<MangaNode>,
    pub total_count: i32,
}

/// One manga as the server describes it.
#[derive(Clone)]
pub struct MangaNode {
    pub id: i32,
    pub title: String,
    pub thumbnail_url: Option<String>,
    pub description: Option<String>,
    pub author: Option<String>,
    pub artist: Option<String>,
    pub genre: Option<Vec<String>>,
    pub status: Option<String>,
    pub real_url: Option<String>,
    pub in_library: Option<bool>,
    pub last_fetched_at: Option<String>,
}

/// The answer to a `manga` query.
pub struct MangaData {
    pub manga: MangaNode,
}

/// The answer to a `chapters` query.
pub struct ChaptersData {
    pub chapters: ChaptersConnection,
}

/// The chapters of a manga.
pub struct ChaptersConnection {
    pub nodes: Vec<ChapterNode>,
}

/// One chapter as the server describes it.
#[derive(Clone)]
pub struct ChapterNode {
    pub id: i32,
    pub name: String,
    /// The bits of the chapter number's `f32`.
    pub chapter_number_bits: Option<u32>,
    pub upload_date: Option<String>,
    pub scanlator: Option<String>,
    pub real_url: Option<String>,
    pub source_order: i32,
}

/// The answer to a `categories` query.
pub struct CategoriesData {
    pub categories: CategoriesConnection,
}

/// The user's categories.
pub struct CategoriesConnection {
    pub nodes: Vec<CategoryNode>,
}

/// One category.
#[derive(Clone)]
pub struct CategoryNode {
    pub id: i32,
    pub name: String,
}

/// The answer to the `fetchChapterPages` mutation.
pub struct FetchChapterPagesData {
    pub fetch_chapter_pages: FetchChapterPagesPayload,
}

/// The page paths of a chapter.
pub struct FetchChapterPagesPayload {
    pub pages: Vec<String>,
}

/// The answer to a query for recently fetched chapters.
pub struct RecentChaptersData {
    pub chapters: RecentChaptersConnection,
}

/// Recently fetched chapters.
pub struct RecentChaptersConnection {
    pub nodes: Vec<RecentChapterNode>,
}

/// A recently fetched chapter with its manga.
#[derive(Clone)]
pub struct RecentChapterNode {
    pub id: i32,
    pub name: String,
    /// The bits of the chapter number's `f32`.
    pub chapter_number_bits: Option<u32>,
    pub upload_date: Option<String>,
    pub manga: MangaNode,
}

/// The characters of an optional string.
pub open spec fn opt_view(o: Option<String>) -> Option<Seq<char>> {
    match o {
        Some(s) => Some(s@),
        None => None,
    }
}

/// The characters of each string of an optional list.
pub open spec fn opt_list_view(o: Option<Vec<String>>) -> Option<Seq<Seq<char>>> {
    match o {
        Some(v) => Some(v.deep_view()),
        None => None,
    }
}

} // verus!
