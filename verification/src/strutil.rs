//! Small text helpers shared by the assembler, the compiler and the error
//! messages: building decimal, hexadecimal and binary renderings of machine
//! words, and comparing strings.

use vstd::prelude::*;
use vstd::string::*;

verus! {

/// Relies on `String::push`: appends exactly one character to the string.
#[verifier::external_body]
pub fn push_char(s: &mut String, c: char)
    ensures
        final(s)@ == old(s)@.push(c),
{
    s.push(c);
}

/// A sequence is a prefix of anything appended to it.
pub broadcast proof fn lemma_text_prefix_append(a: Seq<char>, b: Seq<char>)
    ensures
        #![trigger a + b]
        a.is_prefix_of(a + b),
{
    assert((a + b).subrange(0, a.len() as int) =~= a);
}

/// Every sequence is a prefix of itself.
pub broadcast proof fn lemma_text_prefix_refl(a: Seq<char>)
    ensures
        #![trigger a.is_prefix_of(a)]
        a.is_prefix_of(a),
{
    assert(a.subrange(0, a.len() as int) =~= a);
}

/// Being a prefix is transitive.
pub broadcast proof fn lemma_text_prefix_trans(a: Seq<char>, b: Seq<char>, c: Seq<char>)
    ensures
        #![trigger a.is_prefix_of(b), b.is_prefix_of(c)]
        a.is_prefix_of(b) && b.is_prefix_of(c) ==> a.is_prefix_of(c),
{
    if a.is_prefix_of(b) && b.is_prefix_of(c) {
        assert(c.subrange(0, a.len() as int) =~= a);
    }
}

/// Character equality, as the views see it.
pub fn str_eq(a: &str, b: &str) -> (r: bool)
    ensures
        r == (a@ == b@),
{
    let alen = a.unicode_len();
    let blen = b.unicode_len();
    if alen != blen {
        proof {
            assert(a@ != b@) by {
                if a@ == b@ {
                    assert(a@.len() == b@.len());
                }
            }
        }
        return false;
    }
    let mut i: usize = 0;
    while i < alen
        invariant
            i <= alen,
            alen == a@.len(),
            alen == b@.len(),
            forall|k: int| 0 <= k < i ==> a@[k] == b@[k],
        decreases alen - i,
    {
        if a.get_char(i) != b.get_char(i) {
            return false;
        }
        i = i + 1;
    }
    proof {
        assert(a@ =~= b@);
    }
    true
}

/// A `String` holding the same ASCII bytes as `bytes`, one character per
/// byte.
pub fn ascii_string(bytes: &Vec<u8>) -> (r: String)
    ensures
        r@ == bytes@.map_values(|b: u8| b as char),
{
    let mut s = String::new();
    let n = bytes.len();
    let mut i: usize = 0;
    while i < n
        invariant
            i <= n,
            n == bytes@.len(),
            s@ == bytes@.take(i as int).map_values(|b: u8| b as char),
        decreases n - i,
    {
        push_char(&mut s, bytes[i] as char);
        proof {
            assert(s@ =~= bytes@.take(i + 1).map_values(|b: u8| b as char));
        }
        i = i + 1;
    }
    proof {
        assert(bytes@.take(n as int) =~= bytes@);
    }
    s
}

/// ASCII upper-casing of one byte, as specifications see it.
pub open spec fn upper_spec(b: u8) -> u8 {
    if 97 <= b <= 122 {
        (b - 32) as u8
    } else {
        b
    }
}

/// ASCII upper-casing of one byte.
pub fn byte_to_upper(b: u8) -> (r: u8)
    ensures
        r == upper_spec(b),
{
    if b >= 97 && b <= 122 {
        b - 32
    } else {
        b
    }
}

/// ASCII letter or underscore: what an identifier may start with.
pub fn is_ident_start(b: u8) -> (r: bool)
    ensures
        r == (65 <= b <= 90 || 97 <= b <= 122 || b == 95),
{
    (b >= 65 && b <= 90) || (b >= 97 && b <= 122) || b == 95
}

/// ASCII letter, digit or underscore: what an identifier may continue with.
pub fn is_ident_char(b: u8) -> (r: bool)
    ensures
        r == (65 <= b <= 90 || 97 <= b <= 122 || 48 <= b <= 57 || b == 95),
{
    (b >= 65 && b <= 90) || (b >= 97 && b <= 122) || (b >= 48 && b <= 57) || b == 95
}

/// ASCII decimal digit.
pub fn is_digit(b: u8) -> (r: bool)
    ensures
        r == (48 <= b <= 57),
{
    b >= 48 && b <= 57
}

/// ASCII hexadecimal digit.
pub fn is_hex_digit(b: u8) -> (r: bool)
    ensures
        r == (48 <= b <= 57 || 65 <= b <= 70 || 97 <= b <= 102),
{
    (b >= 48 && b <= 57) || (b >= 65 && b <= 70) || (b >= 97 && b <= 102)
}

/// The value of an ASCII hexadecimal digit.
pub fn hex_digit_value(b: u8) -> (r: u8)
    requires
        48 <= b <= 57 || 65 <= b <= 70 || 97 <= b <= 102,
    ensures
        r < 16,
{
    if b >= 97 {
        b - 97 + 10
    } else if b >= 65 {
        b - 65 + 10
    } else {
        b - 48
    }
}

/// ASCII space or horizontal tab, the blanks between tokens.
pub fn is_blank(b: u8) -> (r: bool)
    ensures
        r == (b == 32 || b == 9 || b == 13),
{
    b == 32 || b == 9 || b == 13
}

/// Whether `t` spells the same word as `kw`, ignoring ASCII case: the
/// upper-cased bytes are equal.
pub fn eq_ignore_case(t: &Vec<u8>, kw: &str) -> (r: bool)
    ensures
        r == (t@.map_values(|b: u8| upper_spec(b)) == kw.spec_bytes().map_values(
            |b: u8| upper_spec(b),
        )),
{
    let kb = kw.as_bytes_vec();
    if t.len() != kb.len() {
        proof {
            assert(t@.map_values(|b: u8| upper_spec(b)).len() == t@.len());
            assert(kw.spec_bytes().map_values(|b: u8| upper_spec(b)).len()
                == kw.spec_bytes().len());
        }
        return false;
    }
    let n = t.len();
    let mut i: usize = 0;
    while i < n
        invariant
            i <= n,
            n == t@.len(),
            n == kb@.len(),
            kb@ == kw.spec_bytes(),
            forall|k: int| 0 <= k < i ==> upper_spec(t@[k]) == upper_spec(kb@[k]),
        decreases n - i,
    {
        if byte_to_upper(t[i]) != byte_to_upper(kb[i]) {
            proof {
                assert(t@.map_values(|b: u8| upper_spec(b))[i as int] != kw.spec_bytes().map_values(
                    |b: u8| upper_spec(b),
                )[i as int]);
            }
            return false;
        }
        i = i + 1;
    }
    proof {
        assert(t@.map_values(|b: u8| upper_spec(b)) =~= kw.spec_bytes().map_values(
            |b: u8| upper_spec(b),
        ));
    }
    true
}

/// Byte-for-byte equality of two byte vectors.
pub fn bytes_eq(a: &Vec<u8>, b: &Vec<u8>) -> (r: bool)
    ensures
        r == (a@ == b@),
{
    if a.len() != b.len() {
        proof {
            assert(a@ != b@) by {
                if a@ == b@ {
                    assert(a@.len() == b@.len());
                }
            }
        }
        return false;
    }
    let n = a.len();
    let mut i: usize = 0;
    while i < n
        invariant
            i <= n,
            n == a@.len(),
            n == b@.len(),
            forall|k: int| 0 <= k < i ==> a@[k] == b@[k],
        decreases n - i,
    {
        if a[i] != b[i] {
            return false;
        }
        i = i + 1;
    }
    proof {
        assert(a@ =~= b@);
    }
    true
}

/// A copy of `v[from..to]`.
pub fn slice_bytes(v: &Vec<u8>, from: usize, to: usize) -> (r: Vec<u8>)
    requires
        from <= to <= v@.len(),
    ensures
        r@ == v@.subrange(from as int, to as int),
{
    let mut r: Vec<u8> = Vec::new();
    let mut i: usize = from;
    while i < to
        invariant
            from <= i <= to,
            to <= v@.len(),
            r@ == v@.subrange(from as int, i as int),
        decreases to - i,
    {
        r.push(v[i]);
        proof {
            assert(r@ =~= v@.subrange(from as int, i + 1));
        }
        i = i + 1;
    }
    r
}

/// The character for a single decimal or hexadecimal digit; letters are upper
/// case.
pub open spec fn digit_char_spec(d: u8) -> char {
    if d < 10 {
        ((48 + d) as u8) as char
    } else {
        ((55 + d) as u8) as char
    }
}

pub fn digit_char(d: u8) -> (c: char)
    requires
        d < 16,
    ensures
        c == digit_char_spec(d),
{
    if d < 10 {
        (48 + d) as char
    } else {
        (55 + d) as char
    }
}

/// Decimal rendering of a natural number, most significant digit first.
pub open spec fn dec_spec(n: nat) -> Seq<char>
    decreases n,
{
    if n < 10 {
        seq![digit_char_spec(n as u8)]
    } else {
        dec_spec(n / 10).push(digit_char_spec((n % 10) as u8))
    }
}

/// Appends the decimal rendering of `n` to `s`.
pub fn append_dec_u32(s: &mut String, n: u32)
    ensures
        final(s)@ == old(s)@ + dec_spec(n as nat),
    decreases n,
{
    if n < 10 {
        push_char(s, digit_char((n % 10) as u8));
    } else {
        append_dec_u32(s, n / 10);
        push_char(s, digit_char((n % 10) as u8));
    }
}

/// Decimal rendering of a signed value: a minus sign, then the magnitude.
pub open spec fn dec_i32_spec(v: int) -> Seq<char> {
    if v < 0 {
        seq!['-'] + dec_spec((-v) as nat)
    } else {
        dec_spec(v as nat)
    }
}

/// Appends the decimal rendering of `v` to `s`, with a leading minus sign for
/// negative values.
pub fn append_dec_i32(s: &mut String, v: i32)
    ensures
        final(s)@ == old(s)@ + dec_i32_spec(v as int),
{
    if v < 0 {
        push_char(s, '-');
        let mag: u32 = (-(v as i64)) as u32;
        append_dec_u32(s, mag);
    } else {
        append_dec_u32(s, v as u32);
    }
}

/// The four hexadecimal digits of a 16-bit word, most significant first.
pub open spec fn hex4_spec(w: u16) -> Seq<char> {
    seq![
        digit_char_spec(((w >> 12) & 0xF) as u8),
        digit_char_spec(((w >> 8) & 0xF) as u8),
        digit_char_spec(((w >> 4) & 0xF) as u8),
        digit_char_spec((w & 0xF) as u8),
    ]
}

pub proof fn lemma_nibble_bound(w: u16, k: u16)
    ensures
        ((w >> k) & 0xF) < 16,
{
    assert(((w >> k) & 0xF) < 16) by (bit_vector);
}

/// Appends the four-digit upper-case hexadecimal rendering of `w`.
pub fn append_hex4(s: &mut String, w: u16)
    ensures
        final(s)@ == old(s)@ + hex4_spec(w),
{
    proof {
        lemma_nibble_bound(w, 12);
        lemma_nibble_bound(w, 8);
        lemma_nibble_bound(w, 4);
        lemma_nibble_bound(w, 0);
        assert(w & 0xF == (w >> 0) & 0xF) by (bit_vector);
    }
    push_char(s, digit_char(((w >> 12) & 0xF) as u8));
    push_char(s, digit_char(((w >> 8) & 0xF) as u8));
    push_char(s, digit_char(((w >> 4) & 0xF) as u8));
    push_char(s, digit_char((w & 0xF) as u8));
    proof {
        assert(final(s)@ =~= old(s)@ + hex4_spec(w));
    }
}

/// The two hexadecimal digits of a byte, most significant first.
pub open spec fn hex2_spec(b: u8) -> Seq<char> {
    seq![digit_char_spec(((b >> 4) & 0xF) as u8), digit_char_spec((b & 0xF) as u8)]
}

/// Appends the two-digit upper-case hexadecimal rendering of `b`.
pub fn append_hex2(s: &mut String, b: u8)
    ensures
        final(s)@ == old(s)@ + hex2_spec(b),
{
    proof {
        assert(((b >> 4) & 0xF) < 16 && (b & 0xF) < 16) by (bit_vector);
    }
    push_char(s, digit_char((b >> 4) & 0xF));
    push_char(s, digit_char(b & 0xF));
    proof {
        assert(final(s)@ =~= old(s)@ + hex2_spec(b));
    }
}

/// The sixteen binary digits of a word, most significant first.
pub open spec fn bits16_spec(w: u16) -> Seq<char> {
    Seq::new(16, |i: int| if (w >> ((15 - i) as u16)) & 1 == 1 {
        '1'
    } else {
        '0'
    })
}

/// Appends the sixteen-digit binary rendering of `w`.
pub fn append_bits16(s: &mut String, w: u16)
    ensures
        final(s)@ == old(s)@ + bits16_spec(w),
{
    let mut i: usize = 0;
    while i < 16
        invariant
            i <= 16,
            s@ == old(s)@ + bits16_spec(w).take(i as int),
        decreases 16 - i,
    {
        let shift: u16 = (15 - i) as u16;
        let bit = (w >> shift) & 1;
        if bit == 1 {
            push_char(s, '1');
        } else {
            push_char(s, '0');
        }
        proof {
            assert(s@ =~= old(s)@ + bits16_spec(w).take(i + 1));
        }
        i = i + 1;
    }
    proof {
        assert(bits16_spec(w).take(16) =~= bits16_spec(w));
    }
}

} // verus!
