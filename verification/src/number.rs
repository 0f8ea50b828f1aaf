//! Decimal notation of integers: writing (as `{}` formatting does) and
//! reading (as `str::parse` does), and the law that reading gives back what
//! was written.
use vstd::prelude::*;
use crate::text::push_char;

verus! {

/// The character of the decimal digit `d`.
pub open spec fn digit_char(d: int) -> char {
    (48 + d) as char
}

/// Whether `c` is one of `0`..`9`.
pub open spec fn is_digit(c: char) -> bool {
    '0' <= c <= '9'
}

/// The decimal notation of a natural number, without leading zeros.
pub open spec fn nat_decimal(n: nat) -> Seq<char>
    decreases n,
{
    if n < 10 {
        seq![digit_char(n as int)]
    } else {
        nat_decimal(n / 10) + seq![digit_char((n % 10) as int)]
    }
}

/// The decimal notation of an integer: a minus sign before negative ones.
pub open spec fn int_decimal(n: int) -> Seq<char> {
    if n < 0 {
        seq!['-'] + nat_decimal((-n) as nat)
    } else {
        nat_decimal(n as nat)
    }
}

/// Every character of `s` is a decimal digit.
pub open spec fn all_digits(s: Seq<char>) -> bool {
    forall|i: int| 0 <= i < s.len() ==> is_digit(#[trigger] s[i])
}

/// The number that a run of decimal digits denotes.
pub open spec fn digits_value(s: Seq<char>) -> nat
    decreases s.len(),
{
    if s.len() == 0 {
        0
    } else {
        digits_value(s.drop_last()) * 10 + ((s.last() as int - 48) as nat)
    }
}

/// The integer that `s` denotes as an integer literal: an optional `+` or `-`
/// followed by one or more decimal digits, and nothing else.
pub open spec fn integer_literal_value(s: Seq<char>) -> Option<int> {
    if s.len() > 0 && (s[0] == '+' || s[0] == '-') {
        let rest = s.skip(1);
        if rest.len() > 0 && all_digits(rest) {
            if s[0] == '-' {
                Some(-digits_value(rest))
            } else {
                Some(digits_value(rest) as int)
            }
        } else {
            None
        }
    } else if s.len() > 0 && all_digits(s) {
        Some(digits_value(s) as int)
    } else {
        None
    }
}

/// What parsing `s` into an integer type with range `lo..=hi` gives.
pub open spec fn parse_in_range(s: Seq<char>, lo: int, hi: int) -> Option<int> {
    match integer_literal_value(s) {
        Some(v) => if lo <= v <= hi {
            Some(v)
        } else {
            None
        },
        None => None,
    }
}

/// Dividing by a positive `d`, rounding toward zero (as Rust's `/` does).
pub open spec fn div_toward_zero(a: int, d: int) -> int {
    if a >= 0 {
        a / d
    } else {
        -((-a) / d)
    }
}

/// Reading a run of digits is monotone in its prefixes.
pub proof fn lemma_digits_value_prefix(s: Seq<char>, k: int)
    requires
        0 <= k <= s.len(),
        all_digits(s),
    ensures
        digits_value(s.take(k)) <= digits_value(s),
    decreases s.len(),
{
    if k < s.len() {
        assert(s.drop_last().take(k) =~= s.take(k));
        lemma_digits_value_prefix(s.drop_last(), k);
    } else {
        assert(s.take(k) =~= s);
    }
}

/// The decimal notation of `n` is a nonempty run of digits that denotes `n`.
pub proof fn lemma_nat_decimal(n: nat)
    ensures
        nat_decimal(n).len() > 0,
        all_digits(nat_decimal(n)),
        digits_value(nat_decimal(n)) == n,
        n >= 10 ==> nat_decimal(n)[0] != '0',
    decreases n,
{
    if n < 10 {
        assert(digit_char(n as int) as int == 48 + n);
        assert(nat_decimal(n).drop_last() =~= Seq::<char>::empty());
        assert(digits_value(Seq::<char>::empty()) == 0);
    } else {
        lemma_nat_decimal(n / 10);
        let s = nat_decimal(n);
        let d = (n % 10) as int;
        assert(digit_char(d) as int == 48 + d);
        assert(s.drop_last() =~= nat_decimal(n / 10));
        assert(s.last() == digit_char(d));
        assert(digits_value(s) == digits_value(nat_decimal(n / 10)) * 10 + d);
        assert((n / 10) * 10 + n % 10 == n);
        assert forall|i: int| 0 <= i < s.len() implies is_digit(#[trigger] s[i]) by {
            if i < s.len() - 1 {
                assert(s[i] == nat_decimal(n / 10)[i]);
            }
        }
    }
}

/// Reading back the decimal notation of an integer gives that integer.
pub proof fn lemma_int_decimal_roundtrip(n: int)
    ensures
        integer_literal_value(int_decimal(n)) == Some(n),
{
    if n < 0 {
        let m = (-n) as nat;
        lemma_nat_decimal(m);
        assert(int_decimal(n).skip(1) =~= nat_decimal(m));
    } else {
        lemma_nat_decimal(n as nat);
        assert(nat_decimal(n as nat)[0] != '-');
        assert(nat_decimal(n as nat)[0] != '+') by {
            assert(is_digit(nat_decimal(n as nat)[0]));
        }
    }
}

/// Law: parsing the decimal notation that `{}` formatting writes for an
/// integer in range gives that integer back.
pub proof fn law_decimal_roundtrip(n: int, lo: int, hi: int)
    requires
        lo <= n <= hi,
    ensures
        parse_in_range(int_decimal(n), lo, hi) == Some(n),
{
    lemma_int_decimal_roundtrip(n);
}

fn digit_of(d: u64) -> (c: char)
    requires
        d < 10,
    ensures
        c == digit_char(d as int),
{
    let b: u8 = d as u8;
    (48u8 + b) as char
}

/// Appends the decimal notation of `n`.
pub fn push_nat_decimal(out: &mut String, n: u64)
    ensures
        final(out)@ == old(out)@ + nat_decimal(n as nat),
    decreases n,
{
    if n >= 10 {
        push_nat_decimal(out, n / 10);
    }
    push_char(out, digit_of(n % 10));
}

/// Appends the decimal notation of `n` (as `{}` formatting writes it).
pub fn push_int_decimal(out: &mut String, n: i64)
    ensures
        final(out)@ == old(out)@ + int_decimal(n as int),
{
    if n < 0 {
        push_char(out, '-');
        let m: u64 = if n == i64::MIN {
            9223372036854775808u64
        } else {
            (-n) as u64
        };
        push_nat_decimal(out, m);
    } else {
        push_nat_decimal(out, n as u64);
    }
}

/// The decimal notation of `n` (as `format!("{}", n)` writes it).
pub fn int_to_decimal(n: i64) -> (s: String)
    ensures
        s@ == int_decimal(n as int),
{
    let mut s = String::new();
    push_int_decimal(&mut s, n);
    s
}

/// Reads `s` as an integer literal in the range `lo..=hi`.
fn parse_chars_in_range(s: &Vec<char>, lo: i128, hi: i128) -> (r: Option<i128>)
    requires
        -0x1_0000_0000_0000_0000 <= lo <= hi <= 0x1_0000_0000_0000_0000,
    ensures
        match r {
            Some(v) => parse_in_range(s@, lo as int, hi as int) == Some(v as int),
            None => parse_in_range(s@, lo as int, hi as int) is None,
        },
{
    let n = s.len();
    if n == 0 {
        return None;
    }
    let negative = s[0] == '-';
    let start: usize = if s[0] == '-' || s[0] == '+' {
        1
    } else {
        0
    };
    if start == n {
        return None;
    }
    let ghost digits = s@.skip(start as int);
    assert(start == 0 ==> digits =~= s@);
    assert(s@.subrange(start as int, start as int) =~= Seq::<char>::empty());
    let mut acc: u128 = 0;
    let mut i: usize = start;
    while i < n
        invariant
            n == s@.len(),
            1 <= n,
            start <= i <= n,
            start < n,
            start == 0 ==> digits == s@,
            (start == 1) == (s@[0] == '+' || s@[0] == '-'),
            start <= 1,
            negative == (s@[0] == '-'),
            digits == s@.skip(start as int),
            all_digits(s@.subrange(start as int, i as int)),
            acc as int == digits_value(s@.subrange(start as int, i as int)),
            acc <= 0x1_0000_0000_0000_0000,
            -0x1_0000_0000_0000_0000 <= lo <= hi <= 0x1_0000_0000_0000_0000,
        decreases n - i,
    {
        let c = s[i];
        if !('0' <= c && c <= '9') {
            assert(digits[i - start] == c);
            return None;
        }
        let d: u128 = (c as u32 - 48) as u128;
        assert(s@.subrange(start as int, i + 1).drop_last() =~= s@.subrange(
            start as int,
            i as int,
        ));
        let ghost old_acc = acc;
        proof {
            let nxt = s@.subrange(start as int, i + 1);
            assert(nxt.last() == c);
            assert(d as int == c as int - 48);
            assert(digits_value(nxt) == digits_value(nxt.drop_last()) * 10 + d);
        }
        acc = acc * 10 + d;
        i = i + 1;
        if acc > 0x1_0000_0000_0000_0000 {
            proof {
                let pre = s@.subrange(start as int, i as int);
                assert(acc == old_acc * 10 + d);
                assert(acc as int == digits_value(pre));
                if all_digits(digits) {
                    assert(digits.take(i - start) =~= pre);
                    lemma_digits_value_prefix(digits, i - start);
                    assert(digits_value(digits) > hi);
                    if start == 1 {
                        assert(s@.skip(1) == digits);
                        if negative {
                            assert(integer_literal_value(s@) == Some(-digits_value(digits)));
                        } else {
                            assert(integer_literal_value(s@) == Some(digits_value(digits) as int));
                        }
                    } else {
                        assert(integer_literal_value(s@) == Some(digits_value(digits) as int));
                    }
                } else {
                    if start == 1 {
                        assert(s@.skip(1) == digits);
                    }
                    assert(integer_literal_value(s@) is None);
                }
            }
            return None;
        }
    }
    assert(s@.subrange(start as int, n as int) =~= digits);
    let v: i128 = if negative {
        -(acc as i128)
    } else {
        acc as i128
    };
    if lo <= v && v <= hi {
        Some(v)
    } else {
        None
    }
}

/// Reads `s` as an `i64`, as `s.parse::<i64>()` does: `None` where that fails.
pub fn parse_i64(s: &str) -> (r: Option<i64>)
    ensures
        match r {
            Some(v) => parse_in_range(s@, i64::MIN as int, i64::MAX as int) == Some(v as int),
            None => parse_in_range(s@, i64::MIN as int, i64::MAX as int) is None,
        },
{
    let cs = crate::text::chars_of(s);
    match parse_chars_in_range(&cs, i64::MIN as i128, i64::MAX as i128) {
        Some(v) => Some(v as i64),
        None => None,
    }
}

/// Reads `s` as an `i32`, as `s.parse::<i32>()` does: `None` where that fails.
pub fn parse_i32(s: &str) -> (r: Option<i32>)
    ensures
        match r {
            Some(v) => parse_in_range(s@, i32::MIN as int, i32::MAX as int) == Some(v as int),
            None => parse_in_range(s@, i32::MIN as int, i32::MAX as int) is None,
        },
{
    let cs = crate::text::chars_of(s);
    match parse_chars_in_range(&cs, i32::MIN as i128, i32::MAX as i128) {
        Some(v) => Some(v as i32),
        None => None,
    }
}

/// Milliseconds to whole seconds, rounding toward zero (as `ms / 1000`).
pub fn millis_to_seconds(ms: i64) -> (r: i64)
    ensures
        r == div_toward_zero(ms as int, 1000),
{
    ms / 1000
}

} // verus!
