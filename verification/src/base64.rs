//! Standard base64 (RFC 4648, with `=` padding), as the Basic authorization
//! header needs it, and the decoding that a server applies to it.
use vstd::prelude::*;
use crate::text::push_char;

verus! {

/// The base64 symbol for the six-bit value `i`.
pub open spec fn b64_symbol(i: int) -> char {
    if i < 26 {
        (65 + i) as char
    } else if i < 52 {
        (71 + i) as char
    } else if i < 62 {
        (i - 4) as char
    } else if i == 62 {
        '+'
    } else {
        '/'
    }
}

/// The six-bit value of a base64 symbol.
pub open spec fn b64_value(c: char) -> int {
    if 'A' <= c <= 'Z' {
        c as int - 65
    } else if 'a' <= c <= 'z' {
        c as int - 71
    } else if '0' <= c <= '9' {
        c as int + 4
    } else if c == '+' {
        62
    } else {
        63
    }
}

/// The four symbols for a group of three bytes of which the first `n` are real
/// (the others are zero); the symbols past the real bytes are `=`.
pub open spec fn encode_group(b0: u8, b1: u8, b2: u8, n: int) -> Seq<char> {
    let v = b0 as int * 65536 + b1 as int * 256 + b2 as int;
    seq![
        b64_symbol(v / 262144),
        b64_symbol((v / 4096) % 64),
        if n >= 2 { b64_symbol((v / 64) % 64) } else { '=' },
        if n >= 3 { b64_symbol(v % 64) } else { '=' },
    ]
}

/// The base64 encoding of `b`.
pub open spec fn base64(b: Seq<u8>) -> Seq<char>
    decreases b.len(),
{
    if b.len() == 0 {
        Seq::empty()
    } else if b.len() == 1 {
        encode_group(b[0], 0, 0, 1)
    } else if b.len() == 2 {
        encode_group(b[0], b[1], 0, 2)
    } else {
        encode_group(b[0], b[1], b[2], 3) + base64(b.skip(3))
    }
}

/// The bytes of one group of four symbols.
pub open spec fn decode_group(g: Seq<char>) -> Seq<u8> {
    let v = b64_value(g[0]) * 262144 + b64_value(g[1]) * 4096 + (if g[2] == '=' {
        0
    } else {
        b64_value(g[2]) * 64
    }) + (if g[3] == '=' {
        0
    } else {
        b64_value(g[3])
    });
    let bytes = seq![(v / 65536) as u8, ((v / 256) % 256) as u8, (v % 256) as u8];
    if g[2] == '=' {
        bytes.take(1)
    } else if g[3] == '=' {
        bytes.take(2)
    } else {
        bytes
    }
}

/// The base64 decoding of `s`, group by group.
pub open spec fn base64_decode(s: Seq<char>) -> Seq<u8>
    decreases s.len(),
{
    if s.len() < 4 {
        Seq::empty()
    } else {
        decode_group(s.take(4)) + base64_decode(s.skip(4))
    }
}

proof fn lemma_symbol(i: int)
    requires
        0 <= i < 64,
    ensures
        b64_value(b64_symbol(i)) == i,
        b64_symbol(i) != '=',
{
    if i < 26 {
        assert(((65 + i) as char) as int == 65 + i);
    } else if i < 52 {
        assert(((71 + i) as char) as int == 71 + i);
    } else if i < 62 {
        assert(((i - 4) as char) as int == i - 4);
    }
}

proof fn lemma_group_arith(b0: u32, b1: u32, b2: u32)
    requires
        b0 < 256,
        b1 < 256,
        b2 < 256,
    ensures
        ({
            let v = b0 * 65536 + b1 * 256 + b2;
            &&& v / 262144 < 64
            &&& (v / 262144) * 262144 + ((v / 4096) % 64) * 4096 + ((v / 64) % 64) * 64 + v % 64
                == v
            &&& v / 65536 == b0
            &&& (v / 256) % 256 == b1
            &&& v % 256 == b2
        }),
        b2 == 0 ==> (b0 * 65536 + b1 * 256 + b2) % 64 == 0,
        b1 == 0 && b2 == 0 ==> ((b0 * 65536 + b1 * 256 + b2) / 64) % 64 == 0,
{
    assert(b0 < 256 && b1 < 256 && b2 < 256 ==> {
        let v = b0 * 65536 + b1 * 256 + b2;
        &&& v / 262144 < 64
        &&& (v / 262144) * 262144 + ((v / 4096) % 64) * 4096 + ((v / 64) % 64) * 64 + v % 64 == v
        &&& v / 65536 == b0
        &&& (v / 256) % 256 == b1
        &&& v % 256 == b2
    }) by (bit_vector);
    assert(b0 < 256 && b1 < 256 && b2 == 0 ==> (b0 * 65536 + b1 * 256 + b2) % 64 == 0)
        by (bit_vector);
    assert(b0 < 256 && b1 == 0 && b2 == 0 ==> ((b0 * 65536 + b1 * 256 + b2) / 64) % 64 == 0)
        by (bit_vector);
}

proof fn lemma_group_roundtrip(b0: u8, b1: u8, b2: u8, n: int)
    requires
        1 <= n <= 3,
        n < 3 ==> b2 == 0,
        n < 2 ==> b1 == 0,
    ensures
        decode_group(encode_group(b0, b1, b2, n)) == seq![b0, b1, b2].take(n),
{
    lemma_group_arith(b0 as u32, b1 as u32, b2 as u32);
    let v = b0 as int * 65536 + b1 as int * 256 + b2 as int;
    let g = encode_group(b0, b1, b2, n);
    lemma_symbol(v / 262144);
    lemma_symbol((v / 4096) % 64);
    lemma_symbol((v / 64) % 64);
    lemma_symbol(v % 64);
    assert(decode_group(g) =~= seq![b0, b1, b2].take(n));
}

/// Law: decoding the base64 encoding of any bytes gives those bytes back.
pub proof fn law_base64_roundtrip(b: Seq<u8>)
    ensures
        base64_decode(base64(b)) == b,
    decreases b.len(),
{
    if b.len() == 0 {
    } else if b.len() < 3 {
        let b1: u8 = if b.len() > 1 { b[1] } else { 0 };
        lemma_group_roundtrip(b[0], b1, 0, b.len() as int);
        let e = base64(b);
        assert(e.take(4) =~= e);
        assert(e.skip(4) =~= Seq::<char>::empty());
        assert(base64_decode(e.skip(4)) =~= Seq::<u8>::empty());
        assert(seq![b[0], b1, 0u8].take(b.len() as int) =~= b);
    } else {
        lemma_group_roundtrip(b[0], b[1], b[2], 3);
        law_base64_roundtrip(b.skip(3));
        let g = encode_group(b[0], b[1], b[2], 3);
        let e = base64(b);
        assert(e.take(4) =~= g);
        assert(e.skip(4) =~= base64(b.skip(3)));
        assert(seq![b[0], b[1], b[2]].take(3) + b.skip(3) =~= b);
    }
}

/// Law: the encoding of `n` bytes has `4 * ceil(n / 3)` symbols.
pub proof fn law_base64_length(b: Seq<u8>)
    ensures
        base64(b).len() == 4 * ((b.len() + 2) / 3),
    decreases b.len(),
{
    if b.len() >= 3 {
        law_base64_length(b.skip(3));
    }
}

/// Law: splitting the bytes after a multiple of three splits the encoding.
pub proof fn law_base64_concat(a: Seq<u8>, b: Seq<u8>)
    requires
        a.len() % 3 == 0,
    ensures
        base64(a + b) == base64(a) + base64(b),
    decreases a.len(),
{
    if a.len() == 0 {
        assert(a + b =~= b);
    } else {
        assert((a + b).skip(3) =~= a.skip(3) + b);
        law_base64_concat(a.skip(3), b);
        assert((a + b)[0] == a[0] && (a + b)[1] == a[1] && (a + b)[2] == a[2]);
    }
}

fn symbol(i: u32) -> (c: char)
    requires
        i < 64,
    ensures
        c == b64_symbol(i as int),
{
    if i < 26 {
        (65 + i) as u8 as char
    } else if i < 52 {
        (71 + i) as u8 as char
    } else if i < 62 {
        (i - 4) as u8 as char
    } else if i == 62 {
        '+'
    } else {
        '/'
    }
}

/// Appends the four symbols of one group of which the first `cnt` bytes are real.
fn push_group(out: &mut String, b0: u8, b1: u8, b2: u8, cnt: usize)
    requires
        1 <= cnt <= 3,
    ensures
        final(out)@ == old(out)@ + encode_group(b0, b1, b2, cnt as int),
{
    let x0 = b0 as u32;
    let x1 = b1 as u32;
    let x2 = b2 as u32;
    let n = (x0 << 16) | (x1 << 8) | x2;
    assert(x0 < 256 && x1 < 256 && x2 < 256 ==> {
        let n = (x0 << 16) | (x1 << 8) | x2;
        &&& n == x0 * 65536 + x1 * 256 + x2
        &&& (n >> 18) & 0x3f == n / 262144
        &&& (n >> 12) & 0x3f == (n / 4096) % 64
        &&& (n >> 6) & 0x3f == (n / 64) % 64
        &&& n & 0x3f == n % 64
        &&& n / 262144 < 64
    }) by (bit_vector);
    let c0 = symbol((n >> 18) & 0x3f);
    let c1 = symbol((n >> 12) & 0x3f);
    let c2 = if cnt >= 2 {
        symbol((n >> 6) & 0x3f)
    } else {
        '='
    };
    let c3 = if cnt >= 3 {
        symbol(n & 0x3f)
    } else {
        '='
    };
    let ghost before = out@;
    push_char(out, c0);
    push_char(out, c1);
    push_char(out, c2);
    push_char(out, c3);
    assert(out@ =~= before + encode_group(b0, b1, b2, cnt as int));
}

/// The base64 encoding of `input`, with `=` padding.
pub fn base64_encode(input: &[u8]) -> (out: String)
    ensures
        out@ == base64(input@),
{
    let len = input.len();
    let mut out = String::new();
    let mut i: usize = 0;
    assert(input@.skip(0) =~= input@);
    while i < len
        invariant
            len == input@.len(),
            i <= len,
            out@ + base64(input@.skip(i as int)) == base64(input@),
        decreases len - i,
    {
        let ghost rest = input@.skip(i as int);
        let ghost before = out@;
        let rem = len - i;
        let b0 = input[i];
        let b1 = if rem > 1 {
            input[i + 1]
        } else {
            0
        };
        let b2 = if rem > 2 {
            input[i + 2]
        } else {
            0
        };
        let cnt: usize = if rem >= 3 {
            3
        } else {
            rem
        };
        push_group(&mut out, b0, b1, b2, cnt);
        proof {
            if rem >= 3 {
                assert(rest.skip(3) =~= input@.skip(i + 3));
                assert(base64(rest) == encode_group(b0, b1, b2, 3) + base64(rest.skip(3)));
                assert(out@ + base64(input@.skip(i + 3)) =~= before + base64(rest));
            } else {
                assert(input@.skip(len as int) =~= Seq::<u8>::empty());
                assert(out@ + base64(input@.skip(len as int)) =~= before + base64(rest));
            }
        }
        i = if rem >= 3 {
            i + 3
        } else {
            len
        };
    }
    assert(input@.skip(len as int) =~= Seq::<u8>::empty());
    out
}

} // verus!
