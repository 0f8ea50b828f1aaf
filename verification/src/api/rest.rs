//! Addresses of images on the server.
use vstd::prelude::*;
use crate::number::{int_decimal, push_int_decimal};
use crate::text::{has_prefix, starts_with_chars, chars_of};

verus! {

/// The address of manga `id`'s thumbnail on the server at `base`.
pub open spec fn thumbnail_url_spec(base: Seq<char>, id: int) -> Seq<char> {
    base + "/api/v1/manga/"@ + int_decimal(id) + "/thumbnail"@
}

/// Whether a page path is already an absolute address.
pub open spec fn is_absolute(path: Seq<char>) -> bool {
    has_prefix(path, "http://"@) || has_prefix(path, "https://"@)
}

/// The absolute address of a page path on the server at `base`.
pub open spec fn absolute_page_url_spec(base: Seq<char>, path: Seq<char>) -> Seq<char> {
    if is_absolute(path) {
        path
    } else {
        base + path
    }
}

/// URL for a manga's thumbnail image.
pub fn thumbnail_url(base_url: &str, manga_id: i32) -> (r: String)
    ensures
        r@ == thumbnail_url_spec(base_url@, manga_id as int),
{
    let mut s = String::from_str(base_url);
    s.append("/api/v1/manga/");
    push_int_decimal(&mut s, manga_id as i64);
    s.append("/thumbnail");
    s
}

/// URL for a single page image: page paths from `fetchChapterPages` are
/// relative to the server, unless they are already absolute.
pub fn absolute_page_url(base_url: &str, relative_path: &str) -> (r: String)
    ensures
        r@ == absolute_page_url_spec(base_url@, relative_path@),
{
    let path = chars_of(relative_path);
    if starts_with_chars(&path, &chars_of("http://")) || starts_with_chars(
        &path,
        &chars_of("https://"),
    ) {
        String::from_str(relative_path)
    } else {
        let mut s = String::from_str(base_url);
        s.append(relative_path);
        s
    }
}

/// Law: when the server address is absolute, a page's address is absolute,
/// and making it absolute again changes nothing.
pub proof fn law_absolute_page_url_is_stable(base: Seq<char>, path: Seq<char>)
    requires
        is_absolute(base),
    ensures
        is_absolute(absolute_page_url_spec(base, path)),
        absolute_page_url_spec(base, absolute_page_url_spec(base, path))
            == absolute_page_url_spec(base, path),
{
    if !is_absolute(path) {
        let r = base + path;
        if has_prefix(base, "http://"@) {
            assert(r.subrange(0, "http://"@.len() as int) =~= base.subrange(0, "http://"@.len() as int));
        } else {
            assert(r.subrange(0, "https://"@.len() as int) =~= base.subrange(0, "https://"@.len() as int));
        }
    }
}

} // verus!
