//! The GraphQL requests sent to the server: their query texts, their
//! authorization and their framing.
use vstd::prelude::*;
use vstd::utf8::{decode_utf8, encode_scalar, encode_utf8, encode_utf8_decode_utf8};
use crate::base64::{base64, base64_decode, base64_encode, law_base64_roundtrip};
use crate::api::models::opt_view;
use crate::error::SourceError;
use crate::number::{int_decimal, push_int_decimal};
use crate::text::{
    chars_of, collapse_space_runs, collapse_space_runs_chars, newlines_to_spaces,
    newlines_to_spaces_chars, remove_char, str_equal, string_from_chars, to_uppercase, uppercase_text,
    without_char,
};

verus! {

/// How many manga one page of a listing holds.
pub const PAGE_SIZE: i32 = 20;

/// The offset of the first manga of page `page` (pages count from 1).
pub open spec fn page_offset(page: int) -> int {
    (page - 1) * PAGE_SIZE
}

/// Whether the offset of page `page` is an `i32`.
pub open spec fn page_in_range(page: int) -> bool {
    i32::MIN <= page_offset(page) <= i32::MAX
}

/// The offset of the first manga of page `page`.
pub fn offset_for_page(page: i32) -> (r: i32)
    requires
        page_in_range(page as int),
    ensures
        r == page_offset(page as int),
{
    (page - 1) * PAGE_SIZE
}

/// How many manga one page holds.
pub fn page_count() -> (r: i32)
    ensures
        r == PAGE_SIZE,
{
    PAGE_SIZE
}

/// The query text as sent: line feeds turned into spaces, then every run
/// of spaces collapsed to one space.
pub open spec fn compact(q: Seq<char>) -> Seq<char> {
    collapse_space_runs(newlines_to_spaces(q))
}

/// Collapse the whitespace of a GraphQL query text.
pub fn build_query(q: &str) -> (r: String)
    ensures
        r@ == compact(q@),
{
    let cs = chars_of(q);
    let spaced = newlines_to_spaces_chars(&cs);
    let collapsed = collapse_space_runs_chars(&spaced);
    string_from_chars(collapsed.as_slice())
}

// ── Authorization ────────────────────────────────────────────────────────────
/// The `user:password` text of Basic authorization (no password counts as empty).
pub open spec fn credentials(user: Seq<char>, password: Option<Seq<char>>) -> Seq<char> {
    user + ":"@ + match password {
        Some(p) => p,
        None => Seq::empty(),
    }
}

/// The Authorization header for optional credentials: one only when a user
/// name is given and not empty.
pub open spec fn auth_header_spec(user: Option<Seq<char>>, password: Option<Seq<char>>) -> Option<
    Seq<char>,
> {
    match user {
        Some(u) => if u.len() > 0 {
            Some("Basic "@ + base64(encode_utf8(credentials(u, password))))
        } else {
            None
        },
        None => None,
    }
}

/// Build the Authorization header value from optional credentials.
pub fn auth_header(username: &Option<String>, password: &Option<String>) -> (r: Option<String>)
    ensures
        opt_view(r) == auth_header_spec(opt_view(*username), opt_view(*password)),
{
    match username {
        Some(u) => {
            if u.as_str().is_empty() {
                return None;
            }
            let mut creds = String::from_str(u.as_str());
            creds.append(":");
            match password {
                Some(p) => creds.append(p.as_str()),
                None => {},
            }
            assert(creds@ =~= credentials(u@, opt_view(*password)));
            let encoded = base64_encode(creds.as_str().as_bytes());
            let mut header = String::from_str("Basic ");
            header.append(encoded.as_str());
            Some(header)
        },
        None => None,
    }
}

/// Law: a server that decodes the Authorization header (drops `Basic `,
/// decodes base64, then UTF-8) gets back exactly `user:password`.
pub proof fn law_auth_header_decodes(user: Seq<char>, password: Option<Seq<char>>)
    requires
        user.len() > 0,
    ensures
        ({
            let h = auth_header_spec(Some(user), password)->Some_0;
            &&& h.take(6) == "Basic "@
            &&& decode_utf8(base64_decode(h.skip(6))) == credentials(user, password)
        }),
{
    reveal_strlit("Basic ");
    let c = credentials(user, password);
    let h = auth_header_spec(Some(user), password)->Some_0;
    assert(h.take(6) =~= "Basic "@);
    assert(h.skip(6) =~= base64(encode_utf8(c)));
    law_base64_roundtrip(encode_utf8(c));
    encode_utf8_decode_utf8(c);
}

// ── Framing ──────────────────────────────────────────────────────────────────
/// The lowercase hexadecimal digit of `d`, as a byte.
pub open spec fn hex_digit_byte(d: int) -> u8 {
    if d < 10 {
        (48 + d) as u8
    } else {
        (87 + d) as u8
    }
}

/// The bytes of one character inside a JSON string: `"` and `\` and the
/// control characters below U+0020 escaped (`\b \t \n \f \r` by name, the
/// others as `\u00XX`), every other character as its UTF-8.
pub open spec fn json_char_bytes(c: char) -> Seq<u8> {
    let u = c as u32;
    if c == '"' {
        seq![92u8, 34u8]
    } else if c == '\\' {
        seq![92u8, 92u8]
    } else if u == 8 {
        seq![92u8, 98u8]
    } else if u == 9 {
        seq![92u8, 116u8]
    } else if u == 10 {
        seq![92u8, 110u8]
    } else if u == 12 {
        seq![92u8, 102u8]
    } else if u == 13 {
        seq![92u8, 114u8]
    } else if u < 32 {
        seq![92u8, 117u8, 48u8, 48u8, hex_digit_byte((u / 16) as int), hex_digit_byte((u % 16) as int)]
    } else {
        encode_scalar(u)
    }
}

/// The bytes of the characters of a JSON string, between its quotes.
pub open spec fn json_chars_bytes(s: Seq<char>) -> Seq<u8>
    decreases s.len(),
{
    if s.len() == 0 {
        Seq::empty()
    } else {
        json_char_bytes(s[0]) + json_chars_bytes(s.drop_first())
    }
}

/// A JSON string literal holding `s`.
pub open spec fn json_string_literal(s: Seq<char>) -> Seq<u8> {
    seq![34u8] + json_chars_bytes(s) + seq![34u8]
}

/// The body of a GraphQL request: `{"query":` then the query as a JSON string, then `}`.
pub open spec fn query_body(q: Seq<char>) -> Seq<u8> {
    seq![123u8, 34u8, 113u8, 117u8, 101u8, 114u8, 121u8, 34u8, 58u8] + json_string_literal(q)
        + seq![125u8]
}

/// The byte that the two-character JSON escape `\e` stands for.
pub open spec fn json_escaped_byte(e: u8) -> u8 {
    if e == 98 {
        8
    } else if e == 116 {
        9
    } else if e == 110 {
        10
    } else if e == 102 {
        12
    } else if e == 114 {
        13
    } else {
        e
    }
}

/// The value of a hexadecimal digit byte.
pub open spec fn hex_value(h: u8) -> int {
    if h <= 57 {
        h - 48
    } else if h >= 97 {
        h - 87
    } else {
        h - 55
    }
}

/// What a JSON reader makes of the bytes between a string's quotes: each
/// escape (`\u00XX` or a two-character one) stands for one byte, every
/// other byte for itself.
pub open spec fn json_unescape(b: Seq<u8>) -> Seq<u8>
    decreases b.len(),
{
    if b.len() == 0 {
        Seq::empty()
    } else if b[0] == 92 && b.len() >= 6 && b[1] == 117 {
        seq![(hex_value(b[4]) * 16 + hex_value(b[5])) as u8] + json_unescape(b.skip(6))
    } else if b[0] == 92 && b.len() >= 2 {
        seq![json_escaped_byte(b[1])] + json_unescape(b.skip(2))
    } else {
        seq![b[0]] + json_unescape(b.skip(1))
    }
}

proof fn lemma_unescape_plain(x: Seq<u8>, rest: Seq<u8>)
    requires
        forall|i: int| 0 <= i < x.len() ==> x[i] != 92,
    ensures
        json_unescape(x + rest) == x + json_unescape(rest),
    decreases x.len(),
{
    if x.len() > 0 {
        assert((x + rest).skip(1) =~= x.skip(1) + rest);
        lemma_unescape_plain(x.skip(1), rest);
        assert(x =~= seq![x[0]] + x.skip(1));
    } else {
        assert(x + rest =~= rest);
    }
}

proof fn lemma_unescape_char(c: char, rest: Seq<u8>)
    ensures
        json_unescape(json_char_bytes(c) + rest) == encode_scalar(c as u32) + json_unescape(rest),
{
    let u = c as u32;
    let b = json_char_bytes(c) + rest;
    if u <= 0x7F {
        assert(u <= 0x7F ==> (u & 0x7F) == u) by (bit_vector);
        assert(encode_scalar(u) =~= seq![u as u8]);
        if c == '"' || c == '\\' || u == 8 || u == 9 || u == 10 || u == 12 || u == 13 {
            assert(b.skip(2) =~= rest);
        } else if u < 32 {
            assert(b.skip(6) =~= rest);
            assert(hex_value(hex_digit_byte((u / 16) as int)) == u / 16);
            assert(hex_value(hex_digit_byte((u % 16) as int)) == u % 16);
        } else {
            lemma_unescape_plain(seq![u as u8], rest);
        }
    } else {
        let e = encode_scalar(u);
        assert(forall|x: u8| #![auto] (0xC0u8 | x) >= 0x80 && (0xE0u8 | x) >= 0x80 && (0xF0u8 | x)
            >= 0x80 && (0x80u8 | x) >= 0x80) by (bit_vector);
        assert forall|i: int| 0 <= i < e.len() implies e[i] != 92 by {
            assert(e[i] >= 0x80);
        }
        lemma_unescape_plain(e, rest);
    }
}

proof fn lemma_unescape_chars(s: Seq<char>)
    ensures
        json_unescape(json_chars_bytes(s)) == encode_utf8(s),
    decreases s.len(),
{
    if s.len() > 0 {
        lemma_unescape_chars(s.drop_first());
        lemma_unescape_char(s[0], json_chars_bytes(s.drop_first()));
    }
}

/// Law: a JSON reader of the request body finds `{"query":"`, then string
/// contents that unescape to the UTF-8 of the query, then `"}`; so the server
/// reads back exactly the query that was sent.
pub proof fn law_query_body_reads_back(q: Seq<char>)
    ensures
        ({
            let b = query_body(q);
            &&& b.take(10) == seq![123u8, 34u8, 113u8, 117u8, 101u8, 114u8, 121u8, 34u8, 58u8, 34u8]
            &&& b.skip(b.len() - 2) == seq![34u8, 125u8]
            &&& decode_utf8(json_unescape(b.subrange(10, b.len() - 2))) == q
        }),
{
    let b = query_body(q);
    let inner = json_chars_bytes(q);
    assert(b.take(10) =~= seq![123u8, 34u8, 113u8, 117u8, 101u8, 114u8, 121u8, 34u8, 58u8, 34u8]);
    assert(b.skip(b.len() - 2) =~= seq![34u8, 125u8]);
    assert(b.subrange(10, b.len() - 2) =~= inner);
    lemma_unescape_chars(q);
    encode_utf8_decode_utf8(q);
}

#[verifier::external_type_specification]
#[verifier::external_body]
pub struct ExJsonError(serde_json::Error);

/// `serde_json::to_vec` on a string slice. Claimed, as serde_json's `ser.rs`
/// shows it (`format_escaped_str` with the `ESCAPE` table, written to a
/// `Vec`, which never fails): it succeeds, with the JSON string literal of
/// the slice: `"` and `\` escaped, control characters below U+0020 escaped
/// by name or as `\u00XX` with lowercase hex, everything else as UTF-8.
#[verifier::external_body]
fn json_string_bytes(s: &str) -> (r: Result<Vec<u8>, serde_json::Error>)
    ensures
        r is Ok,
        r matches Ok(b) ==> b@ == json_string_literal(s@),
{
    serde_json::to_vec(s)
}

/// One request header.
pub struct Header {
    pub name: String,
    pub value: String,
}

/// A POST request to the server's GraphQL endpoint, ready to be sent.
pub struct GraphqlRequest {
    pub url: String,
    pub headers: Vec<Header>,
    pub body: Vec<u8>,
}

/// The name and value of each header.
pub open spec fn headers_view(h: Seq<Header>) -> Seq<(Seq<char>, Seq<char>)> {
    h.map_values(|x: Header| (x.name@, x.value@))
}

/// The headers of a request: JSON content, JSON answer, and authorization if any.
pub open spec fn request_headers(auth: Option<Seq<char>>) -> Seq<(Seq<char>, Seq<char>)> {
    let base = seq![
        ("Content-Type"@, "application/json"@),
        ("Accept"@, "application/json"@),
    ];
    match auth {
        Some(a) => base.push(("Authorization"@, a)),
        None => base,
    }
}

/// The address of the GraphQL endpoint of the server at `base`.
pub open spec fn graphql_url(base: Seq<char>) -> Seq<char> {
    base + "/api/graphql"@
}

fn header(name: &str, value: &str) -> (h: Header)
    ensures
        h.name@ == name@,
        h.value@ == value@,
{
    Header { name: String::from_str(name), value: String::from_str(value) }
}

/// The request that sends `query` to the server at `base_url`.
pub fn graphql_request(
    base_url: &str,
    query: &str,
    username: &Option<String>,
    password: &Option<String>,
) -> (r: Result<GraphqlRequest, SourceError>)
    ensures
        r is Ok,
        r matches Ok(req) ==> {
            &&& req.url@ == graphql_url(base_url@)
            &&& req.body@ == query_body(query@)
            &&& headers_view(req.headers@) == request_headers(
                auth_header_spec(opt_view(*username), opt_view(*password)),
            )
        },
{
    let mut url = String::from_str(base_url);
    url.append("/api/graphql");
    let quoted = match json_string_bytes(query) {
        Ok(b) => b,
        Err(_) => {
            return Err(SourceError::JsonSerialize);
        },
    };
    let mut body: Vec<u8> = Vec::new();
    body.push(123u8);
    body.push(34u8);
    body.push(113u8);
    body.push(117u8);
    body.push(101u8);
    body.push(114u8);
    body.push(121u8);
    body.push(34u8);
    body.push(58u8);
    let ghost head = body@;
    let n = quoted.len();
    for i in 0..n
        invariant
            n == quoted@.len(),
            body@ == head + quoted@.take(i as int),
    {
        body.push(quoted[i]);
        assert(quoted@.take(i + 1) == quoted@.take(i as int).push(quoted@[i as int]));
    }
    assert(quoted@.take(n as int) =~= quoted@);
    body.push(125u8);
    assert(body@ =~= query_body(query@));
    let mut headers: Vec<Header> = Vec::new();
    headers.push(header("Content-Type", "application/json"));
    headers.push(header("Accept", "application/json"));
    let auth = auth_header(username, password);
    match auth {
        Some(a) => {
            headers.push(header("Authorization", a.as_str()));
        },
        None => {},
    }
    assert(headers_view(headers@) =~= request_headers(
        auth_header_spec(opt_view(*username), opt_view(*password)),
    ));
    Ok(GraphqlRequest { url, headers, body })
}

// ── Queries ──────────────────────────────────────────────────────────────────
/// The title filter: quotes and backslashes taken out of a nonempty title query.
pub open spec fn title_clause_spec(title: Option<Seq<char>>) -> Seq<char> {
    match title {
        Some(q) => if q.len() > 0 {
            "filter: {title: {likeInsensitive: \"%"@ + without_char(without_char(q, '"'), '\\')
                + "%\"}}"@
        } else {
            Seq::empty()
        },
        None => Seq::empty(),
    }
}

/// The condition on a library entry's status, for an already uppercased status.
pub open spec fn status_condition_spec(upper: Seq<char>) -> Seq<char> {
    "condition: {inLibrary: true, status: "@ + upper + "}"@
}

/// The library condition: with the uppercased status when a status other than
/// `Any` is given and not empty.
pub open spec fn condition_clause_spec(status: Option<Seq<char>>) -> Seq<char> {
    match status {
        Some(s) => if s != "Any"@ && s.len() > 0 {
            status_condition_spec(uppercase_text(s))
        } else {
            "condition: {inLibrary: true}"@
        },
        None => "condition: {inLibrary: true}"@,
    }
}

/// The fields asked of each manga.
pub open spec fn manga_fields() -> Seq<char> {
    "id title thumbnailUrl description author artist\n      genre status realUrl inLibrary"@
}

/// The query text for a page of library manga, before compaction.
pub open spec fn mangas_template(
    condition: Seq<char>,
    title: Seq<char>,
    sort_field: Seq<char>,
    order_dir: Seq<char>,
    offset: int,
) -> Seq<char> {
    "{\n  mangas(\n    "@ + condition + "\n    "@ + title + "\n    orderBy: "@ + sort_field
        + "\n    orderByType: "@ + order_dir + "\n    first: "@ + int_decimal(PAGE_SIZE as int)
        + "\n    offset: "@ + int_decimal(offset) + "\n  ) {\n    totalCount\n    nodes {\n      "@
        + manga_fields() + "\n    }\n  }\n}"@
}

/// The direction of sorting.
pub open spec fn order_dir_spec(ascending: bool) -> Seq<char> {
    if ascending {
        "ASC"@
    } else {
        "DESC"@
    }
}

/// The query for a page of library manga.
pub open spec fn mangas_query_spec(
    title: Option<Seq<char>>,
    status: Option<Seq<char>>,
    sort_field: Seq<char>,
    ascending: bool,
    page: int,
) -> Seq<char> {
    compact(
        mangas_template(
            condition_clause_spec(status),
            title_clause_spec(title),
            sort_field,
            order_dir_spec(ascending),
            page_offset(page),
        ),
    )
}

/// The title filter of a manga query.
pub fn title_clause(title_query: Option<&str>) -> (r: String)
    ensures
        r@ == title_clause_spec(crate::helpers::opt_str_view(title_query)),
{
    match title_query {
        Some(q) => {
            if q.is_empty() {
                String::new()
            } else {
                let cs = chars_of(q);
                let safe = remove_char(&remove_char(&cs, '"'), '\\');
                let mut s = String::from_str("filter: {title: {likeInsensitive: \"%");
                s.append(string_from_chars(safe.as_slice()).as_str());
                s.append("%\"}}");
                s
            }
        },
        None => String::new(),
    }
}

/// The status condition for a status already uppercased.
pub fn status_condition(upper_status: &str) -> (r: String)
    ensures
        r@ == status_condition_spec(upper_status@),
{
    let mut s = String::from_str("condition: {inLibrary: true, status: ");
    s.append(upper_status);
    s.append("}");
    s
}

/// The library condition of a manga query.
pub fn condition_clause(status_filter: Option<&str>) -> (r: String)
    ensures
        r@ == condition_clause_spec(crate::helpers::opt_str_view(status_filter)),
{
    match status_filter {
        Some(s) => {
            if !str_equal(s, "Any") && !s.is_empty() {
                let upper = to_uppercase(s);
                status_condition(upper.as_str())
            } else {
                String::from_str("condition: {inLibrary: true}")
            }
        },
        None => String::from_str("condition: {inLibrary: true}"),
    }
}

fn append_manga_fields(s: &mut String)
    ensures
        final(s)@ == old(s)@ + manga_fields(),
{
    s.append("id title thumbnailUrl description author artist\n      genre status realUrl inLibrary");
}

/// The query for a page of library manga, optionally filtered by title and
/// status, in the given order.
pub fn mangas_query(
    title_query: Option<&str>,
    status_filter: Option<&str>,
    sort_field: &str,
    sort_asc: bool,
    page: i32,
) -> (r: String)
    requires
        page_in_range(page as int),
    ensures
        r@ == mangas_query_spec(
            crate::helpers::opt_str_view(title_query),
            crate::helpers::opt_str_view(status_filter),
            sort_field@,
            sort_asc,
            page as int,
        ),
{
    let offset = offset_for_page(page);
    let order_dir = if sort_asc {
        "ASC"
    } else {
        "DESC"
    };
    let title = title_clause(title_query);
    let condition = condition_clause(status_filter);
    let mut q = String::from_str("{\n  mangas(\n    ");
    q.append(condition.as_str());
    q.append("\n    ");
    q.append(title.as_str());
    q.append("\n    orderBy: ");
    q.append(sort_field);
    q.append("\n    orderByType: ");
    q.append(order_dir);
    q.append("\n    first: ");
    push_int_decimal(&mut q, PAGE_SIZE as i64);
    q.append("\n    offset: ");
    push_int_decimal(&mut q, offset as i64);
    q.append("\n  ) {\n    totalCount\n    nodes {\n      ");
    append_manga_fields(&mut q);
    q.append("\n    }\n  }\n}");
    build_query(q.as_str())
}

/// The query text for one manga, before compaction.
pub open spec fn manga_template(id: int) -> Seq<char> {
    "{\n  manga(id: "@ + int_decimal(id) + ") {\n    "@ + manga_fields_short() + "\n  }\n}"@
}

/// The fields asked of a single manga (indented one level less).
pub open spec fn manga_fields_short() -> Seq<char> {
    "id title thumbnailUrl description author artist\n    genre status realUrl inLibrary"@
}

/// The query for a single manga by its numeric ID.
pub fn manga_query(manga_id: i32) -> (r: String)
    ensures
        r@ == compact(manga_template(manga_id as int)),
{
    let mut q = String::from_str("{\n  manga(id: ");
    push_int_decimal(&mut q, manga_id as i64);
    q.append(") {\n    ");
    q.append("id title thumbnailUrl description author artist\n    genre status realUrl inLibrary");
    q.append("\n  }\n}");
    build_query(q.as_str())
}

/// The query text for all chapters of a manga, before compaction.
pub open spec fn chapters_template(id: int) -> Seq<char> {
    "{\n  chapters(\n    condition: {mangaId: "@ + int_decimal(id)
        + "}\n    orderBy: SOURCE_ORDER\n    orderByType: ASC\n  ) {\n    nodes {\n      id name chapterNumber uploadDate scanlator\n      realUrl sourceOrder\n    }\n  }\n}"@
}

/// The query for all chapters of a manga, in source order.
pub fn chapters_query(manga_id: i32) -> (r: String)
    ensures
        r@ == compact(chapters_template(manga_id as int)),
{
    let mut q = String::from_str("{\n  chapters(\n    condition: {mangaId: ");
    push_int_decimal(&mut q, manga_id as i64);
    q.append(
        "}\n    orderBy: SOURCE_ORDER\n    orderByType: ASC\n  ) {\n    nodes {\n      id name chapterNumber uploadDate scanlator\n      realUrl sourceOrder\n    }\n  }\n}",
    );
    build_query(q.as_str())
}

/// The mutation text that fetches the page paths of a chapter, before compaction.
pub open spec fn chapter_pages_template(id: int) -> Seq<char> {
    "mutation {\n  fetchChapterPages(input: {chapterId: "@ + int_decimal(id)
        + "}) {\n    pages\n  }\n}"@
}

/// The mutation that fetches the page paths of a chapter.
pub fn chapter_pages_query(chapter_id: i32) -> (r: String)
    ensures
        r@ == compact(chapter_pages_template(chapter_id as int)),
{
    let mut q = String::from_str("mutation {\n  fetchChapterPages(input: {chapterId: ");
    push_int_decimal(&mut q, chapter_id as i64);
    q.append("}) {\n    pages\n  }\n}");
    build_query(q.as_str())
}

/// The query text for all categories, before compaction.
pub open spec fn categories_template() -> Seq<char> {
    "{\n  categories {\n    nodes { id name }\n  }\n}"@
}

/// The query for all user-defined categories.
pub fn categories_query() -> (r: String)
    ensures
        r@ == compact(categories_template()),
{
    build_query("{\n  categories {\n    nodes { id name }\n  }\n}")
}

/// The query text for a page of recently fetched chapters, before compaction.
pub open spec fn recent_chapters_template(offset: int) -> Seq<char> {
    "{\n  chapters(\n    orderBy: FETCH_DATE\n    orderByType: DESC\n    first: "@ + int_decimal(
        PAGE_SIZE as int,
    ) + "\n    offset: "@ + int_decimal(offset)
        + "\n  ) {\n    nodes {\n      id name chapterNumber uploadDate\n      manga {\n        id title thumbnailUrl description author artist\n        genre status realUrl inLibrary\n      }\n    }\n  }\n}"@
}

/// The query for a page of recently fetched chapters with their manga.
pub fn recent_chapters_query(page: i32) -> (r: String)
    requires
        page_in_range(page as int),
    ensures
        r@ == compact(recent_chapters_template(page_offset(page as int))),
{
    let offset = offset_for_page(page);
    let mut q = String::from_str(
        "{\n  chapters(\n    orderBy: FETCH_DATE\n    orderByType: DESC\n    first: ",
    );
    push_int_decimal(&mut q, PAGE_SIZE as i64);
    q.append("\n    offset: ");
    push_int_decimal(&mut q, offset as i64);
    q.append(
        "\n  ) {\n    nodes {\n      id name chapterNumber uploadDate\n      manga {\n        id title thumbnailUrl description author artist\n        genre status realUrl inLibrary\n      }\n    }\n  }\n}",
    );
    build_query(q.as_str())
}

/// The query text for a page of the manga of a category, before compaction.
pub open spec fn mangas_by_category_template(category: int, offset: int) -> Seq<char> {
    "{\n  mangas(\n    filter: {categoryId: {equalTo: "@ + int_decimal(category)
        + "}}\n    condition: {inLibrary: true}\n    orderBy: TITLE\n    orderByType: ASC\n    first: "@
        + int_decimal(PAGE_SIZE as int) + "\n    offset: "@ + int_decimal(offset)
        + "\n  ) {\n    totalCount\n    nodes {\n      "@ + manga_fields() + "\n    }\n  }\n}"@
}

/// The query for a page of the manga of a category, by title.
pub fn mangas_by_category_query(category_id: i32, page: i32) -> (r: String)
    requires
        page_in_range(page as int),
    ensures
        r@ == compact(mangas_by_category_template(category_id as int, page_offset(page as int))),
{
    let offset = offset_for_page(page);
    let mut q = String::from_str("{\n  mangas(\n    filter: {categoryId: {equalTo: ");
    push_int_decimal(&mut q, category_id as i64);
    q.append(
        "}}\n    condition: {inLibrary: true}\n    orderBy: TITLE\n    orderByType: ASC\n    first: ",
    );
    push_int_decimal(&mut q, PAGE_SIZE as i64);
    q.append("\n    offset: ");
    push_int_decimal(&mut q, offset as i64);
    q.append("\n  ) {\n    totalCount\n    nodes {\n      ");
    append_manga_fields(&mut q);
    q.append("\n    }\n  }\n}");
    build_query(q.as_str())
}

/// Law: the query text sent holds no line feed and no two adjacent spaces,
/// and is no longer than the text it was built from.
pub proof fn law_compact_is_one_line(q: Seq<char>)
    ensures
        !compact(q).contains('\n'),
        compact(q).len() <= q.len(),
        forall|i: int|
            0 <= i < compact(q).len() - 1 ==> !(#[trigger] compact(q)[i] == ' ' && compact(q)[i
                + 1] == ' '),
{
    let s = newlines_to_spaces(q);
    assert forall|i: int| 0 <= i < s.len() implies s[i] != '\n' by {}
    crate::text::lemma_collapse_keeps_out(s, '\n');
    crate::text::law_collapse_has_no_double_space(s);
}

/// Law: the title put into a search's filter string holds neither a double
/// quote nor a backslash, so it cannot end the quoted GraphQL string early.
pub proof fn law_title_filter_is_quote_free(q: Seq<char>)
    ensures
        !without_char(without_char(q, '"'), '\\').contains('"'),
        !without_char(without_char(q, '"'), '\\').contains('\\'),
{
    crate::text::lemma_without_char(q, '"');
    crate::text::lemma_without_char(without_char(q, '"'), '\\');
}

/// Law: consecutive pages follow each other: page `p + 1` starts `PAGE_SIZE`
/// manga after page `p`, and page 1 at the start.
pub proof fn law_page_offsets(page: int)
    ensures
        page_offset(page + 1) == page_offset(page) + PAGE_SIZE,
        page_offset(1) == 0,
{
}

/// Keeps every character but a double quote or a backslash.
spec fn not_quote_or_backslash(c: char) -> bool {
    c != '"' && c != '\\'
}

proof fn lemma_two_removals_filter(s: Seq<char>)
    ensures
        without_char(without_char(s, '"'), '\\') == s.filter(|c: char| not_quote_or_backslash(c)),
    decreases s.len(),
{
    reveal_with_fuel(Seq::<char>::filter, 1);
    if s.len() > 0 {
        lemma_two_removals_filter(s.drop_last());
        let w1 = without_char(s, '"');
        if s.last() != '"' {
            assert(w1.drop_last() =~= without_char(s.drop_last(), '"'));
            assert(w1.last() == s.last());
        }
    }
}

/// Law: the title filter of a search for a nonempty text `q` is
/// `filter: {title: {likeInsensitive: "%` + `p` + `%"}}`, where `p` is `q`
/// with exactly its double quotes and backslashes left out and every other
/// character (apostrophes too) kept, in order; an empty or absent text gives
/// no filter.
pub proof fn law_title_pattern_keeps_all_but_quotes(q: Seq<char>)
    ensures
        q.len() > 0 ==> title_clause_spec(Some(q)) == "filter: {title: {likeInsensitive: \"%"@
            + q.filter(|c: char| c != '"' && c != '\\') + "%\"}}"@,
        q.len() == 0 ==> title_clause_spec(Some(q)) == Seq::<char>::empty(),
        title_clause_spec(None) == Seq::<char>::empty(),
{
    lemma_two_removals_filter(q);
    assert((|c: char| not_quote_or_backslash(c)) =~= (|c: char| c != '"' && c != '\\'));
}

} // verus!
