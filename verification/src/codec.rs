//! Byte-image codec for the database: little-endian primitives, strings as
//! character sequences, and the container signature.
//!
//! The encoders are spec functions describing the exact byte layout; the
//! parsers are spec functions describing exactly which byte strings decode,
//! and to what. Executable counterparts are proved equal to them, and the
//! round-trip lemmas show that parsing an encoding yields the value back.

use vstd::prelude::*;

verus! {

/// The 16-byte container signature: the ASCII characters of
/// `SQLite format 3` followed by a NUL byte.
pub open spec fn signature() -> Seq<u8> {
    seq![83u8, 81u8, 76u8, 105u8, 116u8, 101u8, 32u8, 102u8, 111u8, 114u8, 109u8, 97u8, 116u8, 32u8, 51u8, 0u8]
}

/// Eight little-endian bytes of a 64-bit value.
pub open spec fn enc_u64(x: u64) -> Seq<u8> {
    seq![
        (x & 0xff) as u8,
        ((x >> 8) & 0xff) as u8,
        ((x >> 16) & 0xff) as u8,
        ((x >> 24) & 0xff) as u8,
        ((x >> 32) & 0xff) as u8,
        ((x >> 40) & 0xff) as u8,
        ((x >> 48) & 0xff) as u8,
        ((x >> 56) & 0xff) as u8,
    ]
}

/// Four little-endian bytes of a 32-bit value.
pub open spec fn enc_u32(x: u32) -> Seq<u8> {
    seq![(x & 0xff) as u8, ((x >> 8) & 0xff) as u8, ((x >> 16) & 0xff) as u8, ((x >> 24) & 0xff) as u8]
}

/// A signed 64-bit value, stored as its two's-complement bit pattern.
pub open spec fn enc_i64(x: i64) -> Seq<u8> {
    enc_u64(x as u64)
}

/// One byte: 1 for true, 0 for false.
pub open spec fn enc_bool(b: bool) -> Seq<u8> {
    seq![if b { 1u8 } else { 0u8 }]
}

/// A tag byte (0 absent, 1 present) followed by the value if present.
pub open spec fn enc_opt_u64(x: Option<u64>) -> Seq<u8> {
    match x {
        None => seq![0u8],
        Some(v) => seq![1u8] + enc_u64(v),
    }
}

/// A tag byte (0 absent, 1 present) followed by the value if present.
pub open spec fn enc_opt_u32(x: Option<u32>) -> Seq<u8> {
    match x {
        None => seq![0u8],
        Some(v) => seq![1u8] + enc_u32(v),
    }
}

/// A character as the four little-endian bytes of its Unicode scalar value.
pub open spec fn enc_char(c: char) -> Seq<u8> {
    enc_u32(c as u32)
}

/// The characters of a string, one after another.
pub open spec fn enc_chars(s: Seq<char>) -> Seq<u8>
    decreases s.len(),
{
    if s.len() == 0 {
        Seq::empty()
    } else {
        enc_char(s[0]) + enc_chars(s.drop_first())
    }
}

/// A string: its character count as a 64-bit value, then its characters.
pub open spec fn enc_str(s: Seq<char>) -> Seq<u8> {
    enc_u64(s.len() as u64) + enc_chars(s)
}

/// The 64-bit value of eight little-endian bytes.
pub open spec fn u64_of_bytes(
    b0: u8,
    b1: u8,
    b2: u8,
    b3: u8,
    b4: u8,
    b5: u8,
    b6: u8,
    b7: u8,
) -> u64 {
    (b0 as u64) | (b1 as u64) << 8 | (b2 as u64) << 16 | (b3 as u64) << 24 | (b4 as u64) << 32 | (
    b5 as u64) << 40 | (b6 as u64) << 48 | (b7 as u64) << 56
}

/// The 32-bit value of four little-endian bytes.
pub open spec fn u32_of_bytes(b0: u8, b1: u8, b2: u8, b3: u8) -> u32 {
    (b0 as u32) | (b1 as u32) << 8 | (b2 as u32) << 16 | (b3 as u32) << 24
}

/// Reads a 64-bit value at `i`; fails only when fewer than eight bytes remain.
pub open spec fn parse_u64(s: Seq<u8>, i: int) -> Option<(u64, int)> {
    if 0 <= i && i + 8 <= s.len() {
        Some(
            (
                u64_of_bytes(
                    s[i],
                    s[i + 1],
                    s[i + 2],
                    s[i + 3],
                    s[i + 4],
                    s[i + 5],
                    s[i + 6],
                    s[i + 7],
                ),
                i + 8,
            ),
        )
    } else {
        None
    }
}

/// Reads a 32-bit value at `i`; fails only when fewer than four bytes remain.
pub open spec fn parse_u32(s: Seq<u8>, i: int) -> Option<(u32, int)> {
    if 0 <= i && i + 4 <= s.len() {
        Some((u32_of_bytes(s[i], s[i + 1], s[i + 2], s[i + 3]), i + 4))
    } else {
        None
    }
}

/// Reads a signed 64-bit value from its two's-complement bit pattern.
pub open spec fn parse_i64(s: Seq<u8>, i: int) -> Option<(i64, int)> {
    match parse_u64(s, i) {
        Some((x, j)) => Some((x as i64, j)),
        None => None,
    }
}

/// Reads a boolean byte; only 0 and 1 are accepted.
pub open spec fn parse_bool(s: Seq<u8>, i: int) -> Option<(bool, int)> {
    if 0 <= i && i + 1 <= s.len() {
        if s[i] == 0u8 {
            Some((false, i + 1))
        } else if s[i] == 1u8 {
            Some((true, i + 1))
        } else {
            None
        }
    } else {
        None
    }
}

/// Reads an optional 64-bit value; only tag bytes 0 and 1 are accepted.
pub open spec fn parse_opt_u64(s: Seq<u8>, i: int) -> Option<(Option<u64>, int)> {
    if 0 <= i && i + 1 <= s.len() {
        if s[i] == 0u8 {
            Some((None, i + 1))
        } else if s[i] == 1u8 {
            match parse_u64(s, i + 1) {
                Some((x, j)) => Some((Some(x), j)),
                None => None,
            }
        } else {
            None
        }
    } else {
        None
    }
}

/// Reads an optional 32-bit value; only tag bytes 0 and 1 are accepted.
pub open spec fn parse_opt_u32(s: Seq<u8>, i: int) -> Option<(Option<u32>, int)> {
    if 0 <= i && i + 1 <= s.len() {
        if s[i] == 0u8 {
            Some((None, i + 1))
        } else if s[i] == 1u8 {
            match parse_u32(s, i + 1) {
                Some((x, j)) => Some((Some(x), j)),
                None => None,
            }
        } else {
            None
        }
    } else {
        None
    }
}

/// Whether a 32-bit value is a Unicode scalar value (not a surrogate and
/// at most 0x10FFFF).
pub open spec fn is_scalar_value(x: u32) -> bool {
    x < 0xD800 || (0xE000 <= x && x <= 0x10FFFF)
}

/// Reads one character; only Unicode scalar values are accepted.
pub open spec fn parse_char(s: Seq<u8>, i: int) -> Option<(char, int)> {
    match parse_u32(s, i) {
        Some((x, j)) => if is_scalar_value(x) {
            Some((x as char, j))
        } else {
            None
        },
        None => None,
    }
}

/// Reads exactly `count` characters, one after another.
pub open spec fn parse_chars(s: Seq<u8>, i: int, count: nat) -> Option<(Seq<char>, int)>
    decreases count,
{
    if count == 0 {
        if 0 <= i <= s.len() {
            Some((Seq::empty(), i))
        } else {
            None
        }
    } else {
        match parse_char(s, i) {
            Some((c, j)) => match parse_chars(s, j, (count - 1) as nat) {
                Some((rest, k)) => Some((seq![c] + rest, k)),
                None => None,
            },
            None => None,
        }
    }
}

/// Reads a string: a character count, then that many characters.
pub open spec fn parse_str(s: Seq<u8>, i: int) -> Option<(Seq<char>, int)> {
    match parse_u64(s, i) {
        Some((n, j)) => parse_chars(s, j, n as nat),
        None => None,
    }
}

/// Parsing eight bytes that encode a 64-bit value yields that value.
pub proof fn lemma_parse_u64(s: Seq<u8>, i: int, x: u64)
    requires
        0 <= i,
        i + 8 <= s.len(),
        s.subrange(i, i + 8) =~= enc_u64(x),
    ensures
        parse_u64(s, i) == Some((x, i + 8)),
{
    assert(s[i] == enc_u64(x)[0]) by {
        assert(s.subrange(i, i + 8)[0] == s[i]);
    }
    assert(s[i + 1] == enc_u64(x)[1]) by {
        assert(s.subrange(i, i + 8)[1] == s[i + 1]);
    }
    assert(s[i + 2] == enc_u64(x)[2]) by {
        assert(s.subrange(i, i + 8)[2] == s[i + 2]);
    }
    assert(s[i + 3] == enc_u64(x)[3]) by {
        assert(s.subrange(i, i + 8)[3] == s[i + 3]);
    }
    assert(s[i + 4] == enc_u64(x)[4]) by {
        assert(s.subrange(i, i + 8)[4] == s[i + 4]);
    }
    assert(s[i + 5] == enc_u64(x)[5]) by {
        assert(s.subrange(i, i + 8)[5] == s[i + 5]);
    }
    assert(s[i + 6] == enc_u64(x)[6]) by {
        assert(s.subrange(i, i + 8)[6] == s[i + 6]);
    }
    assert(s[i + 7] == enc_u64(x)[7]) by {
        assert(s.subrange(i, i + 8)[7] == s[i + 7]);
    }
    assert(u64_of_bytes(
        (x & 0xff) as u8,
        ((x >> 8) & 0xff) as u8,
        ((x >> 16) & 0xff) as u8,
        ((x >> 24) & 0xff) as u8,
        ((x >> 32) & 0xff) as u8,
        ((x >> 40) & 0xff) as u8,
        ((x >> 48) & 0xff) as u8,
        ((x >> 56) & 0xff) as u8,
    ) == x) by (bit_vector);
}

/// Parsing four bytes that encode a 32-bit value yields that value.
pub proof fn lemma_parse_u32(s: Seq<u8>, i: int, x: u32)
    requires
        0 <= i,
        i + 4 <= s.len(),
        s.subrange(i, i + 4) =~= enc_u32(x),
    ensures
        parse_u32(s, i) == Some((x, i + 4)),
{
    assert(s[i] == enc_u32(x)[0]) by {
        assert(s.subrange(i, i + 4)[0] == s[i]);
    }
    assert(s[i + 1] == enc_u32(x)[1]) by {
        assert(s.subrange(i, i + 4)[1] == s[i + 1]);
    }
    assert(s[i + 2] == enc_u32(x)[2]) by {
        assert(s.subrange(i, i + 4)[2] == s[i + 2]);
    }
    assert(s[i + 3] == enc_u32(x)[3]) by {
        assert(s.subrange(i, i + 4)[3] == s[i + 3]);
    }
    assert(u32_of_bytes(
        (x & 0xff) as u8,
        ((x >> 8) & 0xff) as u8,
        ((x >> 16) & 0xff) as u8,
        ((x >> 24) & 0xff) as u8,
    ) == x) by (bit_vector);
}

/// Parsing the bit pattern of a signed 64-bit value yields that value.
pub proof fn lemma_parse_i64(s: Seq<u8>, i: int, x: i64)
    requires
        0 <= i,
        i + 8 <= s.len(),
        s.subrange(i, i + 8) =~= enc_i64(x),
    ensures
        parse_i64(s, i) == Some((x, i + 8)),
{
    lemma_parse_u64(s, i, x as u64);
    assert((x as u64) as i64 == x) by (bit_vector);
}

/// Parsing an encoded boolean yields that boolean.
pub proof fn lemma_parse_bool(s: Seq<u8>, i: int, b: bool)
    requires
        0 <= i,
        i + 1 <= s.len(),
        s.subrange(i, i + 1) =~= enc_bool(b),
    ensures
        parse_bool(s, i) == Some((b, i + 1)),
{
    assert(s[i] == enc_bool(b)[0]) by {
        assert(s.subrange(i, i + 1)[0] == s[i]);
    }
}

/// Parsing an encoded optional 64-bit value yields that value.
pub proof fn lemma_parse_opt_u64(s: Seq<u8>, i: int, x: Option<u64>)
    requires
        0 <= i,
        i + enc_opt_u64(x).len() <= s.len(),
        s.subrange(i, i + enc_opt_u64(x).len()) =~= enc_opt_u64(x),
    ensures
        parse_opt_u64(s, i) == Some((x, i + enc_opt_u64(x).len())),
{
    match x {
        None => {
            assert(s[i] == 0u8) by {
                assert(s.subrange(i, i + 1)[0] == s[i]);
            }
        },
        Some(v) => {
            assert(s[i] == 1u8) by {
                assert(s.subrange(i, i + 9)[0] == s[i]);
            }
            assert(s.subrange(i + 1, i + 9) =~= enc_u64(v)) by {
                assert forall|k: int| 0 <= k < 8 implies #[trigger] s.subrange(i + 1, i + 9)[k] == enc_u64(
                    v,
                )[k] by {
                    assert(s.subrange(i, i + 9)[k + 1] == s[i + 1 + k]);
                    assert(enc_opt_u64(x)[k + 1] == enc_u64(v)[k]);
                }
            }
            lemma_parse_u64(s, i + 1, v);
        },
    }
}

/// Parsing an encoded optional 32-bit value yields that value.
pub proof fn lemma_parse_opt_u32(s: Seq<u8>, i: int, x: Option<u32>)
    requires
        0 <= i,
        i + enc_opt_u32(x).len() <= s.len(),
        s.subrange(i, i + enc_opt_u32(x).len()) =~= enc_opt_u32(x),
    ensures
        parse_opt_u32(s, i) == Some((x, i + enc_opt_u32(x).len())),
{
    match x {
        None => {
            assert(s[i] == 0u8) by {
                assert(s.subrange(i, i + 1)[0] == s[i]);
            }
        },
        Some(v) => {
            assert(s[i] == 1u8) by {
                assert(s.subrange(i, i + 5)[0] == s[i]);
            }
            assert(s.subrange(i + 1, i + 5) =~= enc_u32(v)) by {
                assert forall|k: int| 0 <= k < 4 implies #[trigger] s.subrange(i + 1, i + 5)[k] == enc_u32(
                    v,
                )[k] by {
                    assert(s.subrange(i, i + 5)[k + 1] == s[i + 1 + k]);
                    assert(enc_opt_u32(x)[k + 1] == enc_u32(v)[k]);
                }
            }
            lemma_parse_u32(s, i + 1, v);
        },
    }
}

/// A character's scalar value is a Unicode scalar value, and parsing its
/// encoding yields the character back.
pub proof fn lemma_parse_char(s: Seq<u8>, i: int, c: char)
    requires
        0 <= i,
        i + 4 <= s.len(),
        s.subrange(i, i + 4) =~= enc_char(c),
    ensures
        parse_char(s, i) == Some((c, i + 4)),
{
    lemma_parse_u32(s, i, c as u32);
    assert(is_scalar_value(c as u32));
    assert((c as u32) as char == c);
}

/// Parsing the encoding of a character sequence yields the sequence back.
pub proof fn lemma_parse_chars(s: Seq<u8>, i: int, cs: Seq<char>)
    requires
        0 <= i,
        i + enc_chars(cs).len() <= s.len(),
        s.subrange(i, i + enc_chars(cs).len()) =~= enc_chars(cs),
    ensures
        parse_chars(s, i, cs.len()) == Some((cs, i + enc_chars(cs).len())),
    decreases cs.len(),
{
    if cs.len() == 0 {
        assert(parse_chars(s, i, 0) == Some((Seq::<char>::empty(), i)));
        assert(cs =~= Seq::<char>::empty());
    } else {
        let rest = cs.drop_first();
        let n = enc_chars(cs).len();
        assert(enc_chars(cs) == enc_char(cs[0]) + enc_chars(rest));
        assert(s.subrange(i, i + 4) =~= enc_char(cs[0])) by {
            assert forall|k: int| 0 <= k < 4 implies #[trigger] s.subrange(i, i + 4)[k] == enc_char(
                cs[0],
            )[k] by {
                assert(s.subrange(i, i + n)[k] == s[i + k]);
                assert((enc_char(cs[0]) + enc_chars(rest))[k] == enc_char(cs[0])[k]);
            }
        }
        lemma_parse_char(s, i, cs[0]);
        let m = enc_chars(rest).len();
        assert(s.subrange(i + 4, i + 4 + m) =~= enc_chars(rest)) by {
            assert forall|k: int| 0 <= k < m implies #[trigger] s.subrange(i + 4, i + 4 + m)[k] == enc_chars(
                rest,
            )[k] by {
                assert(s.subrange(i, i + n)[k + 4] == s[i + 4 + k]);
                assert((enc_char(cs[0]) + enc_chars(rest))[k + 4] == enc_chars(rest)[k]);
            }
        }
        lemma_parse_chars(s, i + 4, rest);
        assert(seq![cs[0]] + rest =~= cs);
    }
}

/// The encoded length of a character sequence is four bytes per character.
pub proof fn lemma_enc_chars_len(cs: Seq<char>)
    ensures
        enc_chars(cs).len() == 4 * cs.len(),
    decreases cs.len(),
{
    if cs.len() > 0 {
        lemma_enc_chars_len(cs.drop_first());
    }
}

/// Parsing the encoding of a string yields its characters back.
pub proof fn lemma_parse_str(s: Seq<u8>, i: int, cs: Seq<char>)
    requires
        0 <= i,
        cs.len() < 0x1_0000_0000_0000_0000,
        i + enc_str(cs).len() <= s.len(),
        s.subrange(i, i + enc_str(cs).len()) =~= enc_str(cs),
    ensures
        parse_str(s, i) == Some((cs, i + enc_str(cs).len())),
{
    let n = enc_str(cs).len();
    lemma_enc_chars_len(cs);
    assert(s.subrange(i, i + 8) =~= enc_u64(cs.len() as u64)) by {
        assert forall|k: int| 0 <= k < 8 implies #[trigger] s.subrange(i, i + 8)[k] == enc_u64(
            cs.len() as u64,
        )[k] by {
            assert(s.subrange(i, i + n)[k] == s[i + k]);
            assert((enc_u64(cs.len() as u64) + enc_chars(cs))[k] == enc_u64(cs.len() as u64)[k]);
        }
    }
    lemma_parse_u64(s, i, cs.len() as u64);
    let m = enc_chars(cs).len();
    assert(s.subrange(i + 8, i + 8 + m) =~= enc_chars(cs)) by {
        assert forall|k: int| 0 <= k < m implies #[trigger] s.subrange(i + 8, i + 8 + m)[k] == enc_chars(
            cs,
        )[k] by {
            assert(s.subrange(i, i + n)[k + 8] == s[i + 8 + k]);
            assert((enc_u64(cs.len() as u64) + enc_chars(cs))[k + 8] == enc_chars(cs)[k]);
        }
    }
    lemma_parse_chars(s, i + 8, cs);
    assert((cs.len() as u64) as nat == cs.len());
}

/// Appending one character extends the encoding by that character's bytes.
pub proof fn lemma_enc_chars_snoc(cs: Seq<char>, c: char)
    ensures
        enc_chars(cs.push(c)) =~= enc_chars(cs) + enc_char(c),
    decreases cs.len(),
{
    if cs.len() == 0 {
        assert(cs.push(c)[0] == c);
        assert(cs.push(c).drop_first() =~= Seq::<char>::empty());
        assert(enc_chars(cs.push(c)) == enc_char(c) + enc_chars(Seq::<char>::empty()));
        assert(enc_chars(cs) == Seq::<u8>::empty());
    } else {
        assert(cs.push(c)[0] == cs[0]);
        assert(cs.push(c).drop_first() =~= cs.drop_first().push(c));
        assert(enc_chars(cs.push(c)) == enc_char(cs[0]) + enc_chars(cs.drop_first().push(c)));
        lemma_enc_chars_snoc(cs.drop_first(), c);
        assert(enc_chars(cs) == enc_char(cs[0]) + enc_chars(cs.drop_first()));
    }
}

/// Relies on char::from_u32: yields the character with the given Unicode
/// scalar value exactly when the value is not a surrogate and is at most
/// 0x10FFFF.
#[verifier::external_body]
fn char_from_code(x: u32) -> (r: Option<char>)
    ensures
        r is Some <==> is_scalar_value(x),
        r matches Some(c) ==> c == x as char,
{
    char::from_u32(x)
}

/// Relies on String::push: appends one character at the end.
#[verifier::external_body]
fn string_push(s: &mut String, c: char)
    ensures
        final(s)@ == old(s)@.push(c),
{
    s.push(c);
}

/// Appends the eight little-endian bytes of a 64-bit value.
pub fn push_u64(out: &mut Vec<u8>, x: u64)
    ensures
        final(out)@ =~= old(out)@ + enc_u64(x),
{
    out.push((x & 0xff) as u8);
    out.push(((x >> 8) & 0xff) as u8);
    out.push(((x >> 16) & 0xff) as u8);
    out.push(((x >> 24) & 0xff) as u8);
    out.push(((x >> 32) & 0xff) as u8);
    out.push(((x >> 40) & 0xff) as u8);
    out.push(((x >> 48) & 0xff) as u8);
    out.push(((x >> 56) & 0xff) as u8);
}

/// Appends the four little-endian bytes of a 32-bit value.
pub fn push_u32(out: &mut Vec<u8>, x: u32)
    ensures
        final(out)@ =~= old(out)@ + enc_u32(x),
{
    out.push((x & 0xff) as u8);
    out.push(((x >> 8) & 0xff) as u8);
    out.push(((x >> 16) & 0xff) as u8);
    out.push(((x >> 24) & 0xff) as u8);
}

/// Appends a signed 64-bit value as its two's-complement bit pattern.
pub fn push_i64(out: &mut Vec<u8>, x: i64)
    ensures
        final(out)@ =~= old(out)@ + enc_i64(x),
{
    push_u64(out, x as u64);
}

/// Appends a boolean byte.
pub fn push_bool(out: &mut Vec<u8>, b: bool)
    ensures
        final(out)@ =~= old(out)@ + enc_bool(b),
{
    if b {
        out.push(1u8);
    } else {
        out.push(0u8);
    }
}

/// Appends an optional 64-bit value: a tag byte, then the value if present.
pub fn push_opt_u64(out: &mut Vec<u8>, x: Option<u64>)
    ensures
        final(out)@ =~= old(out)@ + enc_opt_u64(x),
{
    match x {
        None => out.push(0u8),
        Some(v) => {
            out.push(1u8);
            push_u64(out, v);
        },
    }
}

/// Appends an optional 32-bit value: a tag byte, then the value if present.
pub fn push_opt_u32(out: &mut Vec<u8>, x: Option<u32>)
    ensures
        final(out)@ =~= old(out)@ + enc_opt_u32(x),
{
    match x {
        None => out.push(0u8),
        Some(v) => {
            out.push(1u8);
            push_u32(out, v);
        },
    }
}

/// Appends a string: its character count, then its characters.
pub fn push_str(out: &mut Vec<u8>, s: &str)
    ensures
        final(out)@ =~= old(out)@ + enc_str(s@),
{
    let n = s.unicode_len();
    push_u64(out, n as u64);
    let ghost base = out@;
    let mut k: usize = 0;
    while k < n
        invariant
            n as nat == s@.len(),
            k <= n,
            out@ =~= base + enc_chars(s@.take(k as int)),
        decreases n - k,
    {
        let c = s.get_char(k);
        push_u32(out, c as u32);
        proof {
            lemma_enc_chars_snoc(s@.take(k as int), s@[k as int]);
            assert(s@.take(k as int).push(s@[k as int]) =~= s@.take(k + 1 as int));
        }
        k = k + 1;
    }
    proof {
        assert(s@.take(n as int) =~= s@);
    }
}

/// Reads a 64-bit value; fails only when fewer than eight bytes remain.
pub fn read_u64(data: &Vec<u8>, i: usize) -> (r: Option<(u64, usize)>)
    ensures
        match r {
            Some((x, j)) => parse_u64(data@, i as int) == Some((x, j as int)),
            None => parse_u64(data@, i as int) is None,
        },
{
    if data.len() >= 8 && i <= data.len() - 8 {
        let x = (data[i] as u64) | (data[i + 1] as u64) << 8 | (data[i + 2] as u64) << 16 | (data[i
            + 3] as u64) << 24 | (data[i + 4] as u64) << 32 | (data[i + 5] as u64) << 40 | (data[i
            + 6] as u64) << 48 | (data[i + 7] as u64) << 56;
        Some((x, i + 8))
    } else {
        None
    }
}

/// Reads a 32-bit value; fails only when fewer than four bytes remain.
pub fn read_u32(data: &Vec<u8>, i: usize) -> (r: Option<(u32, usize)>)
    ensures
        match r {
            Some((x, j)) => parse_u32(data@, i as int) == Some((x, j as int)),
            None => parse_u32(data@, i as int) is None,
        },
{
    if data.len() >= 4 && i <= data.len() - 4 {
        let x = (data[i] as u32) | (data[i + 1] as u32) << 8 | (data[i + 2] as u32) << 16 | (data[i
            + 3] as u32) << 24;
        Some((x, i + 4))
    } else {
        None
    }
}

/// Reads a signed 64-bit value from its two's-complement bit pattern.
pub fn read_i64(data: &Vec<u8>, i: usize) -> (r: Option<(i64, usize)>)
    ensures
        match r {
            Some((x, j)) => parse_i64(data@, i as int) == Some((x, j as int)),
            None => parse_i64(data@, i as int) is None,
        },
{
    match read_u64(data, i) {
        Some((x, j)) => Some((x as i64, j)),
        None => None,
    }
}

/// Reads a boolean byte; only 0 and 1 are accepted.
pub fn read_bool(data: &Vec<u8>, i: usize) -> (r: Option<(bool, usize)>)
    ensures
        match r {
            Some((b, j)) => parse_bool(data@, i as int) == Some((b, j as int)),
            None => parse_bool(data@, i as int) is None,
        },
{
    if i < data.len() {
        if data[i] == 0 {
            Some((false, i + 1))
        } else if data[i] == 1 {
            Some((true, i + 1))
        } else {
            None
        }
    } else {
        None
    }
}

/// Reads an optional 64-bit value; only tag bytes 0 and 1 are accepted.
pub fn read_opt_u64(data: &Vec<u8>, i: usize) -> (r: Option<(Option<u64>, usize)>)
    ensures
        match r {
            Some((x, j)) => parse_opt_u64(data@, i as int) == Some((x, j as int)),
            None => parse_opt_u64(data@, i as int) is None,
        },
{
    if i < data.len() {
        if data[i] == 0 {
            Some((None, i + 1))
        } else if data[i] == 1 {
            match read_u64(data, i + 1) {
                Some((x, j)) => Some((Some(x), j)),
                None => None,
            }
        } else {
            None
        }
    } else {
        None
    }
}

/// Reads an optional 32-bit value; only tag bytes 0 and 1 are accepted.
pub fn read_opt_u32(data: &Vec<u8>, i: usize) -> (r: Option<(Option<u32>, usize)>)
    ensures
        match r {
            Some((x, j)) => parse_opt_u32(data@, i as int) == Some((x, j as int)),
            None => parse_opt_u32(data@, i as int) is None,
        },
{
    if i < data.len() {
        if data[i] == 0 {
            Some((None, i + 1))
        } else if data[i] == 1 {
            match read_u32(data, i + 1) {
                Some((x, j)) => Some((Some(x), j)),
                None => None,
            }
        } else {
            None
        }
    } else {
        None
    }
}

/// Reads one character; only Unicode scalar values are accepted.
pub fn read_char(data: &Vec<u8>, i: usize) -> (r: Option<(char, usize)>)
    ensures
        match r {
            Some((c, j)) => parse_char(data@, i as int) == Some((c, j as int)),
            None => parse_char(data@, i as int) is None,
        },
{
    match read_u32(data, i) {
        Some((x, j)) => match char_from_code(x) {
            Some(c) => Some((c, j)),
            None => None,
        },
        None => None,
    }
}

/// Reads a string: a character count, then that many characters.
pub fn read_str(data: &Vec<u8>, i: usize) -> (r: Option<(String, usize)>)
    ensures
        match r {
            Some((st, j)) => ({
                &&& parse_str(data@, i as int) matches Some((cs, jj))
                &&& st@ == cs
                &&& j as int == jj
            }),
            None => parse_str(data@, i as int) is None,
        },
{
    let (n, start) = match read_u64(data, i) {
        Some(p) => p,
        None => {
            return None;
        },
    };
    let mut st = String::new();
    let mut cur: usize = start;
    let mut k: u64 = 0;
    while k < n
        invariant
            k <= n,
            cur <= data.len(),
            parse_str(data@, i as int) == (match parse_chars(data@, cur as int, (n - k) as nat) {
                Some((rest, e)) => Some((st@ + rest, e)),
                None => None::<(Seq<char>, int)>,
            }),
        decreases n - k,
    {
        let (c, next) = match read_char(data, cur) {
            Some(p) => p,
            None => {
                return None;
            },
        };
        proof {
            let rem = (n - k) as nat;
            assert(parse_chars(data@, cur as int, rem) == (
            match parse_chars(data@, next as int, (rem - 1) as nat) {
                Some((rest2, e)) => Some((seq![c] + rest2, e)),
                None => None::<(Seq<char>, int)>,
            }));
            match parse_chars(data@, next as int, (rem - 1) as nat) {
                Some((rest2, e)) => {
                    assert(st@ + (seq![c] + rest2) =~= st@.push(c) + rest2);
                },
                None => {},
            }
        }
        string_push(&mut st, c);
        cur = next;
        k = k + 1;
    }
    proof {
        assert(parse_chars(data@, cur as int, 0) == Some((Seq::<char>::empty(), cur as int)));
        assert(st@ + Seq::<char>::empty() =~= st@);
    }
    Some((st, cur))
}

/// The signature byte at a given offset.
pub fn signature_byte(k: usize) -> (r: u8)
    requires
        k < 16,
    ensures
        r == signature()[k as int],
{
    match k {
        0 => 83,
        1 => 81,
        2 => 76,
        3 => 105,
        4 => 116,
        5 => 101,
        6 => 32,
        7 => 102,
        8 => 111,
        9 => 114,
        10 => 109,
        11 => 97,
        12 => 116,
        13 => 32,
        14 => 51,
        _ => 0,
    }
}

} // verus!
