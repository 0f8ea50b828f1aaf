//! Character-level string operations with exact specifications.
use vstd::prelude::*;

verus! {

/// `String::push`: the string grows by exactly the one character.
#[verifier::external_body]
pub(crate) fn push_char(s: &mut String, c: char)
    ensures
        final(s)@ == old(s)@.push(c),
{
    s.push(c);
}

/// The characters of a string slice, in order.
pub fn chars_of(s: &str) -> (v: Vec<char>)
    ensures
        v@ == s@,
{
    let mut v: Vec<char> = Vec::new();
    for c in it: s.chars()
        invariant
            v@ == it.seq().take(it.index() as int),
    {
        v.push(c);
    }
    v
}

/// A string made of the given characters, in order.
pub fn string_from_chars(v: &[char]) -> (s: String)
    ensures
        s@ == v@,
{
    let mut s = String::new();
    let n = v.len();
    for i in 0..n
        invariant
            n == v@.len(),
            s@ == v@.take(i as int),
    {
        push_char(&mut s, v[i]);
        assert(v@.take(i + 1) == v@.take(i as int).push(v@[i as int]));
    }
    assert(v@.take(n as int) == v@);
    s
}

/// `p` occurs in `s` starting at position `i`.
pub open spec fn occurs_at(s: Seq<char>, p: Seq<char>, i: int) -> bool {
    &&& 0 <= i
    &&& i + p.len() <= s.len()
    &&& s.subrange(i, i + p.len()) == p
}

/// `s` begins with `p`.
pub open spec fn has_prefix(s: Seq<char>, p: Seq<char>) -> bool {
    occurs_at(s, p, 0)
}

/// `p` occurs somewhere in `s`.
pub open spec fn contains_seq(s: Seq<char>, p: Seq<char>) -> bool {
    exists|i: int| occurs_at(s, p, i)
}

/// The first position at or after `i` where `p` occurs in `s`.
pub open spec fn find_from(s: Seq<char>, p: Seq<char>, i: int) -> Option<int>
    decreases s.len() + 1 - i,
{
    if i < 0 || i + p.len() > s.len() {
        None
    } else if occurs_at(s, p, i) {
        Some(i)
    } else {
        find_from(s, p, i + 1)
    }
}

/// The first position where `p` occurs in `s`, if any.
pub open spec fn find_first(s: Seq<char>, p: Seq<char>) -> Option<int> {
    find_from(s, p, 0)
}

/// What `find_from` answers: the first occurrence at or after `i`.
pub proof fn lemma_find_from(s: Seq<char>, p: Seq<char>, i: int)
    requires
        0 <= i,
    ensures
        find_from(s, p, i) matches Some(k) ==> i <= k && occurs_at(s, p, k) && (forall|j: int|
            i <= j < k ==> !occurs_at(s, p, j)),
        find_from(s, p, i) is None ==> forall|j: int| i <= j ==> !occurs_at(s, p, j),
    decreases s.len() + 1 - i,
{
    if i + p.len() > s.len() {
    } else if occurs_at(s, p, i) {
    } else {
        assert(i <= s.len());
        lemma_find_from(s, p, i + 1);
    }
}

fn occurs_at_exec(s: &Vec<char>, p: &Vec<char>, i: usize) -> (r: bool)
    requires
        i + p@.len() <= s@.len(),
    ensures
        r == occurs_at(s@, p@, i as int),
{
    let n = p.len();
    let sl = s.len();
    let mut j: usize = 0;
    while j < n
        invariant
            n == p@.len(),
            sl == s@.len(),
            i + n <= sl,
            j <= n,
            forall|k: int| 0 <= k < j ==> s@[i + k] == p@[k],
        decreases n - j,
    {
        if s[i + j] != p[j] {
            assert(s@.subrange(i as int, i + n)[j as int] != p@[j as int]);
            return false;
        }
        j = j + 1;
    }
    assert(s@.subrange(i as int, i + n) =~= p@);
    true
}

/// The first position of `p` in `s`, counted in characters.
pub fn find_chars(s: &Vec<char>, p: &Vec<char>) -> (r: Option<usize>)
    ensures
        match r {
            Some(k) => find_first(s@, p@) == Some(k as int),
            None => find_first(s@, p@) is None,
        },
{
    if p.len() > s.len() {
        return None;
    }
    if p.len() == 0 {
        assert(s@.subrange(0, 0) =~= p@);
        return Some(0);
    }
    let sl = s.len();
    let last = sl - p.len();
    let mut i: usize = 0;
    while i <= last
        invariant
            sl == s@.len(),
            last + p@.len() == sl,
            p@.len() > 0,
            i <= last + 1,
            find_first(s@, p@) == find_from(s@, p@, i as int),
        decreases last + 1 - i,
    {
        if occurs_at_exec(s, p, i) {
            return Some(i);
        }
        i = i + 1;
    }
    None
}

/// Whether `p` occurs in `s`.
pub fn contains_chars(s: &Vec<char>, p: &Vec<char>) -> (r: bool)
    ensures
        r == contains_seq(s@, p@),
{
    proof {
        lemma_find_from(s@, p@, 0);
    }
    find_chars(s, p).is_some()
}

/// Whether `s` begins with `p`.
pub fn starts_with_chars(s: &Vec<char>, p: &Vec<char>) -> (r: bool)
    ensures
        r == has_prefix(s@, p@),
{
    if p.len() > s.len() {
        false
    } else {
        occurs_at_exec(s, p, 0)
    }
}

/// Whether two character sequences are equal.
pub fn chars_equal(a: &Vec<char>, b: &Vec<char>) -> (r: bool)
    ensures
        r == (a@ == b@),
{
    if a.len() != b.len() {
        return false;
    }
    let r = starts_with_chars(a, b);
    assert(a@ =~= a@.subrange(0, b@.len() as int));
    r
}

/// Whether two string slices hold the same characters.
pub fn str_equal(a: &str, b: &str) -> (r: bool)
    ensures
        r == (a@ == b@),
{
    chars_equal(&chars_of(a), &chars_of(b))
}

/// Whether `p` occurs in `s`.
pub fn str_contains(s: &str, p: &str) -> (r: bool)
    ensures
        r == contains_seq(s@, p@),
{
    contains_chars(&chars_of(s), &chars_of(p))
}

/// Whether `s` begins with `p`.
pub fn str_starts_with(s: &str, p: &str) -> (r: bool)
    ensures
        r == has_prefix(s@, p@),
{
    starts_with_chars(&chars_of(s), &chars_of(p))
}

/// The characters that Unicode gives the property White_Space.
pub open spec fn is_white_space(c: char) -> bool {
    let u = c as u32;
    ||| 9 <= u <= 13
    ||| u == 32
    ||| u == 0x85
    ||| u == 0xA0
    ||| u == 0x1680
    ||| 0x2000 <= u <= 0x200A
    ||| u == 0x2028
    ||| u == 0x2029
    ||| u == 0x202F
    ||| u == 0x205F
    ||| u == 0x3000
}

/// Whether `c` is White_Space.
pub fn white_space(c: char) -> (r: bool)
    ensures
        r == is_white_space(c),
{
    let u = c as u32;
    (9 <= u && u <= 13) || u == 32 || u == 0x85 || u == 0xA0 || u == 0x1680 || (0x2000 <= u && u
        <= 0x200A) || u == 0x2028 || u == 0x2029 || u == 0x202F || u == 0x205F || u == 0x3000
}

/// `s` without its leading white space.
pub open spec fn trim_start_seq(s: Seq<char>) -> Seq<char>
    decreases s.len(),
{
    if s.len() > 0 && is_white_space(s[0]) {
        trim_start_seq(s.drop_first())
    } else {
        s
    }
}

/// `s` without its trailing white space.
pub open spec fn trim_end_seq(s: Seq<char>) -> Seq<char>
    decreases s.len(),
{
    if s.len() > 0 && is_white_space(s.last()) {
        trim_end_seq(s.drop_last())
    } else {
        s
    }
}

/// `s` without its leading and trailing white space.
pub open spec fn trim_seq(s: Seq<char>) -> Seq<char> {
    trim_end_seq(trim_start_seq(s))
}

/// `s` without its leading and trailing white space (as `str::trim` does).
pub fn trim_chars(s: &Vec<char>) -> (r: Vec<char>)
    ensures
        r@ == trim_seq(s@),
{
    let n = s.len();
    let mut lo: usize = 0;
    assert(s@.skip(0) =~= s@);
    while lo < n && white_space(s[lo])
        invariant
            n == s@.len(),
            lo <= n,
            trim_start_seq(s@) == trim_start_seq(s@.skip(lo as int)),
        decreases n - lo,
    {
        assert(s@.skip(lo as int).drop_first() =~= s@.skip(lo + 1));
        lo = lo + 1;
    }
    let ghost t = s@.skip(lo as int);
    assert(trim_start_seq(s@) == t);
    let mut hi: usize = n;
    while hi > lo && white_space(s[hi - 1])
        invariant
            n == s@.len(),
            lo <= hi <= n,
            t == s@.skip(lo as int),
            trim_end_seq(t) == trim_end_seq(s@.subrange(lo as int, hi as int)),
        decreases hi - lo,
    {
        assert(s@.subrange(lo as int, hi as int).drop_last() =~= s@.subrange(lo as int, hi - 1));
        hi = hi - 1;
    }
    let mut r: Vec<char> = Vec::new();
    let mut k: usize = lo;
    while k < hi
        invariant
            n == s@.len(),
            lo <= k <= hi <= n,
            r@ == s@.subrange(lo as int, k as int),
        decreases hi - k,
    {
        r.push(s[k]);
        assert(s@.subrange(lo as int, k + 1) =~= s@.subrange(lo as int, k as int).push(
            s@[k as int],
        ));
        k = k + 1;
    }
    r
}

/// `s` with every occurrence of the character `c` taken out.
pub open spec fn without_char(s: Seq<char>, c: char) -> Seq<char>
    decreases s.len(),
{
    if s.len() == 0 {
        s
    } else if s.last() == c {
        without_char(s.drop_last(), c)
    } else {
        without_char(s.drop_last(), c).push(s.last())
    }
}

/// `s` with every occurrence of `c` taken out (as `str::replace(c, "")` does).
pub fn remove_char(s: &Vec<char>, c: char) -> (r: Vec<char>)
    ensures
        r@ == without_char(s@, c),
{
    let n = s.len();
    let mut r: Vec<char> = Vec::new();
    for i in 0..n
        invariant
            n == s@.len(),
            r@ == without_char(s@.take(i as int), c),
    {
        assert(s@.take(i + 1).drop_last() =~= s@.take(i as int));
        if s[i] != c {
            r.push(s[i]);
        }
    }
    assert(s@.take(n as int) =~= s@);
    r
}

/// `s` with every line feed turned into a space.
pub open spec fn newlines_to_spaces(s: Seq<char>) -> Seq<char> {
    s.map_values(|c: char| if c == '\n' { ' ' } else { c })
}

/// `s` with every run of spaces turned into one space.
pub open spec fn collapse_space_runs(s: Seq<char>) -> Seq<char>
    decreases s.len(),
{
    if s.len() == 0 {
        s
    } else if s.len() >= 2 && s[0] == ' ' && s[1] == ' ' {
        collapse_space_runs(s.skip(1))
    } else {
        seq![s[0]] + collapse_space_runs(s.skip(1))
    }
}

/// `s` with line feeds turned into spaces.
pub fn newlines_to_spaces_chars(s: &Vec<char>) -> (r: Vec<char>)
    ensures
        r@ == newlines_to_spaces(s@),
{
    let n = s.len();
    let mut r: Vec<char> = Vec::new();
    for i in 0..n
        invariant
            n == s@.len(),
            r@ == newlines_to_spaces(s@.take(i as int)),
    {
        let c = if s[i] == '\n' {
            ' '
        } else {
            s[i]
        };
        r.push(c);
        assert(newlines_to_spaces(s@.take(i + 1)) =~= newlines_to_spaces(s@.take(i as int)).push(
            c,
        ));
    }
    assert(s@.take(n as int) =~= s@);
    r
}

/// `s` with every run of spaces collapsed to one space.
pub fn collapse_space_runs_chars(s: &Vec<char>) -> (r: Vec<char>)
    ensures
        r@ == collapse_space_runs(s@),
{
    let n = s.len();
    let mut r: Vec<char> = Vec::new();
    let mut i: usize = 0;
    assert(s@.skip(0) =~= s@);
    while i < n
        invariant
            n == s@.len(),
            i <= n,
            r@ + collapse_space_runs(s@.skip(i as int)) == collapse_space_runs(s@),
        decreases n - i,
    {
        let ghost rest = s@.skip(i as int);
        assert(rest.skip(1) =~= s@.skip(i + 1));
        if i + 1 < n && s[i] == ' ' && s[i + 1] == ' ' {
            i = i + 1;
        } else {
            let c = s[i];
            r.push(c);
            assert(r@ + collapse_space_runs(s@.skip(i + 1)) =~= (r@.drop_last() + seq![c])
                + collapse_space_runs(rest.skip(1)));
            i = i + 1;
        }
    }
    r
}

/// A name for what `str::to_lowercase` returns: the Unicode lowercase of a string.
pub uninterp spec fn lowercase(s: Seq<char>) -> Seq<char>;

/// A name for what `str::to_uppercase` returns: the Unicode uppercase of a string.
pub uninterp spec fn uppercase(s: Seq<char>) -> Seq<char>;

/// Every character of `s` is ASCII.
pub open spec fn is_ascii_text(s: Seq<char>) -> bool {
    forall|i: int| 0 <= i < s.len() ==> (#[trigger] s[i] as u32) < 128
}

/// `A`..`Z` to `a`..`z`; every other character as it is.
pub open spec fn ascii_lower_char(c: char) -> char {
    if 'A' <= c <= 'Z' {
        ((c as u32) + 32) as char
    } else {
        c
    }
}

/// `a`..`z` to `A`..`Z`; every other character as it is.
pub open spec fn ascii_upper_char(c: char) -> char {
    if 'a' <= c <= 'z' {
        ((c as u32) - 32) as char
    } else {
        c
    }
}

/// The ASCII lowercase of `s`, character by character.
pub open spec fn ascii_lowercase(s: Seq<char>) -> Seq<char> {
    s.map_values(|c: char| ascii_lower_char(c))
}

/// The ASCII uppercase of `s`, character by character.
pub open spec fn ascii_uppercase(s: Seq<char>) -> Seq<char> {
    s.map_values(|c: char| ascii_upper_char(c))
}

/// The lowercase of a text: letter by letter for ASCII text, the Unicode
/// lowercase (named) for any other.
pub open spec fn lowercase_text(s: Seq<char>) -> Seq<char> {
    if is_ascii_text(s) {
        ascii_lowercase(s)
    } else {
        lowercase(s)
    }
}

/// The uppercase of a text: letter by letter for ASCII text, the Unicode
/// uppercase (named) for any other.
pub open spec fn uppercase_text(s: Seq<char>) -> Seq<char> {
    if is_ascii_text(s) {
        ascii_uppercase(s)
    } else {
        uppercase(s)
    }
}

/// `str::to_lowercase`. Claimed: the result is `lowercase` of the argument's
/// characters, a function of them alone (std's Unicode tables); and on ASCII
/// text it maps `A`..`Z` to `a`..`z` and keeps every other character, as the
/// documentation of `str::to_ascii_lowercase` ("to lowercase ASCII characters
/// in addition to non-ASCII characters, use `to_lowercase`") and of
/// `char::to_lowercase` (a character without a lowercase mapping is kept) give
/// it. Nothing is stated of the lowercase of other text.
#[verifier::external_body]
pub(crate) fn to_lowercase(s: &str) -> (r: String)
    ensures
        r@ == lowercase(s@),
        is_ascii_text(s@) ==> r@ == ascii_lowercase(s@),
{
    s.to_lowercase()
}

/// `str::to_uppercase`. Claimed: the result is `uppercase` of the argument's
/// characters, a function of them alone (std's Unicode tables); and on ASCII
/// text it maps `a`..`z` to `A`..`Z` and keeps every other character, as the
/// documentation of `str::to_ascii_uppercase` ("to uppercase ASCII characters
/// in addition to non-ASCII characters, use `to_uppercase`") and of
/// `char::to_uppercase` (a character without an uppercase mapping is kept) give
/// it. Nothing is stated of the uppercase of other text.
#[verifier::external_body]
pub(crate) fn to_uppercase(s: &str) -> (r: String)
    ensures
        r@ == uppercase(s@),
        is_ascii_text(s@) ==> r@ == ascii_uppercase(s@),
{
    s.to_uppercase()
}

/// What taking a character out leaves: only characters of `s`, never `c`.
pub proof fn lemma_without_char(s: Seq<char>, c: char)
    ensures
        forall|x: char| #[trigger] without_char(s, c).contains(x) ==> s.contains(x) && x != c,
    decreases s.len(),
{
    if s.len() > 0 {
        lemma_without_char(s.drop_last(), c);
        let w = without_char(s, c);
        let w0 = without_char(s.drop_last(), c);
        assert forall|x: char| #[trigger] w.contains(x) implies s.contains(x) && x != c by {
            let k = choose|k: int| 0 <= k < w.len() && w[k] == x;
            if k < w0.len() {
                assert(w0[k] == x);
                assert(w0.contains(x));
                let j = choose|j: int| 0 <= j < s.drop_last().len() && s.drop_last()[j] == x;
                assert(s[j] == x);
            } else {
                assert(s[s.len() - 1] == x);
            }
        }
    }
}

/// Collapsing runs of spaces adds no character other than those of `s`,
/// and makes the text no longer.
pub proof fn lemma_collapse_keeps_out(s: Seq<char>, c: char)
    requires
        !s.contains(c),
    ensures
        !collapse_space_runs(s).contains(c),
        collapse_space_runs(s).len() <= s.len(),
    decreases s.len(),
{
    if s.len() > 0 {
        assert forall|i: int| 0 <= i < s.skip(1).len() implies s.skip(1)[i] != c by {
            assert(s.skip(1)[i] == s[i + 1]);
        }
        lemma_collapse_keeps_out(s.skip(1), c);
        let r = collapse_space_runs(s);
        if !(s.len() >= 2 && s[0] == ' ' && s[1] == ' ') {
            assert forall|i: int| 0 <= i < r.len() implies r[i] != c by {
                if i > 0 {
                    assert(r[i] == collapse_space_runs(s.skip(1))[i - 1]);
                } else {
                    assert(s[0] != c);
                }
            }
        }
    }
}

/// Collapsing keeps the first character.
pub proof fn lemma_collapse_first(s: Seq<char>)
    requires
        s.len() > 0,
    ensures
        collapse_space_runs(s).len() > 0,
        collapse_space_runs(s)[0] == s[0],
    decreases s.len(),
{
    if s.len() >= 2 && s[0] == ' ' && s[1] == ' ' {
        lemma_collapse_first(s.skip(1));
    }
}

/// Law: after collapsing, no two adjacent characters are both spaces.
pub proof fn law_collapse_has_no_double_space(s: Seq<char>)
    ensures
        forall|i: int|
            0 <= i < collapse_space_runs(s).len() - 1 ==> !(#[trigger] collapse_space_runs(s)[i]
                == ' ' && collapse_space_runs(s)[i + 1] == ' '),
    decreases s.len(),
{
    if s.len() > 0 {
        law_collapse_has_no_double_space(s.skip(1));
        let r = collapse_space_runs(s);
        let t = collapse_space_runs(s.skip(1));
        if !(s.len() >= 2 && s[0] == ' ' && s[1] == ' ') {
            if s.len() >= 2 {
                lemma_collapse_first(s.skip(1));
            }
            assert forall|i: int| 0 <= i < r.len() - 1 implies !(#[trigger] r[i] == ' ' && r[i
                + 1] == ' ') by {
                if i > 0 {
                    assert(r[i] == t[i - 1] && r[i + 1] == t[i]);
                } else {
                    assert(r[1] == t[0]);
                    assert(t[0] == s.skip(1)[0]);
                }
            }
        }
    }
}

/// Without its leading white space, a text does not begin with white space.
pub proof fn lemma_trim_start(s: Seq<char>)
    ensures
        trim_start_seq(s).len() > 0 ==> !is_white_space(trim_start_seq(s)[0]),
    decreases s.len(),
{
    if s.len() > 0 && is_white_space(s[0]) {
        lemma_trim_start(s.drop_first());
    }
}

/// Dropping trailing white space leaves a prefix that does not end in white space.
pub proof fn lemma_trim_end(s: Seq<char>)
    ensures
        trim_end_seq(s).len() <= s.len(),
        trim_end_seq(s) == s.take(trim_end_seq(s).len() as int),
        trim_end_seq(s).len() > 0 ==> !is_white_space(trim_end_seq(s).last()),
    decreases s.len(),
{
    if s.len() > 0 && is_white_space(s.last()) {
        lemma_trim_end(s.drop_last());
        let t = trim_end_seq(s.drop_last());
        assert(s.drop_last().take(t.len() as int) =~= s.take(t.len() as int));
    } else {
        assert(s.take(s.len() as int) =~= s);
    }
}

/// Law: a trimmed text neither begins nor ends with white space.
pub proof fn law_trim_has_no_edge_space(s: Seq<char>)
    ensures
        trim_seq(s).len() > 0 ==> !is_white_space(trim_seq(s)[0]) && !is_white_space(
            trim_seq(s).last(),
        ),
{
    lemma_trim_start(s);
    lemma_trim_end(trim_start_seq(s));
    let t = trim_start_seq(s);
    if trim_seq(s).len() > 0 {
        assert(trim_seq(s)[0] == t.take(trim_seq(s).len() as int)[0]);
    }
}

} // verus!
