use vstd::prelude::*;

verus! {

/// The UTF-16 code units of one character: the character itself below
/// `0x10000`, otherwise a high surrogate and a low surrogate.
pub open spec fn char_units(c: char) -> Seq<u16> {
    if (c as u32) < 0x10000 {
        seq![c as u16]
    } else {
        let v = c as u32 - 0x10000;
        seq![(0xD800 + v / 0x400) as u16, (0xDC00 + v % 0x400) as u16]
    }
}

/// The UTF-16 encoding of a character sequence.
pub open spec fn utf16_encode(s: Seq<char>) -> Seq<u16>
    decreases s.len(),
{
    if s.len() == 0 {
        seq![]
    } else {
        char_units(s[0]) + utf16_encode(s.skip(1))
    }
}

/// Encoding a concatenation concatenates the encodings.
pub proof fn lemma_encode_append(a: Seq<char>, b: Seq<char>)
    ensures
        utf16_encode(a + b) == utf16_encode(a) + utf16_encode(b),
    decreases a.len(),
{
    if a.len() == 0 {
        assert(a + b =~= b);
    } else {
        lemma_encode_append(a.skip(1), b);
        assert((a + b).skip(1) =~= a.skip(1) + b);
    }
}

/// The UTF-16 encoding of a string, as `str::encode_utf16` yields it.
pub fn encode_utf16(s: &str) -> (r: Vec<u16>)
    ensures
        r@ == utf16_encode(s@),
{
    let mut units: Vec<u16> = Vec::new();
    let n = s.unicode_len();
    let mut i: usize = 0;
    while i < n
        invariant
            n == s@.len(),
            i <= n,
            units@ == utf16_encode(s@.take(i as int)),
        decreases n - i,
    {
        let c = s.get_char(i);
        let v = c as u32;
        if v < 0x10000 {
            units.push(v as u16);
        } else {
            let w = v - 0x10000;
            units.push((0xD800 + w / 0x400) as u16);
            units.push((0xDC00 + w % 0x400) as u16);
        }
        proof {
            lemma_encode_append(s@.take(i as int), seq![c]);
            assert(s@.take(i + 1) =~= s@.take(i as int) + seq![c]);
            assert(seq![c].skip(1) =~= Seq::<char>::empty());
            assert(utf16_encode(Seq::<char>::empty()) == Seq::<u16>::empty());
            assert(utf16_encode(seq![c]) == char_units(c));
        }
        i = i + 1;
    }
    assert(s@.take(n as int) =~= s@);
    units
}


/// A unit that starts a surrogate pair.
pub open spec fn is_high_surrogate(u: u16) -> bool {
    0xD800 <= u <= 0xDBFF
}

/// A unit that ends a surrogate pair.
pub open spec fn is_low_surrogate(u: u16) -> bool {
    0xDC00 <= u <= 0xDFFF
}

/// A unit that is half of a surrogate pair.
pub open spec fn is_surrogate(u: u16) -> bool {
    0xD800 <= u <= 0xDFFF
}

/// The scalar value that a surrogate pair encodes.
pub open spec fn pair_scalar(high: u16, low: u16) -> int {
    0x10000 + (high - 0xD800) * 0x400 + (low - 0xDC00)
}

/// A Unicode scalar value: at most `0x10FFFF` and no surrogate.
pub open spec fn is_scalar_value(v: u32) -> bool {
    v <= 0x10FFFF && !(0xD800 <= v <= 0xDFFF)
}

/// The character that stands for a unit that cannot be decoded.
pub const REPLACEMENT_CHARACTER: char = '\u{FFFD}';

/// Lossy UTF-16 decoding: a high surrogate followed by a low surrogate
/// becomes the character they encode, any other surrogate becomes
/// `U+FFFD`, and every other unit is the character of that value.
pub open spec fn utf16_decode_lossy(w: Seq<u16>) -> Seq<char>
    decreases w.len(),
{
    if w.len() == 0 {
        seq![]
    } else if w.len() >= 2 && is_high_surrogate(w[0]) && is_low_surrogate(w[1]) {
        seq![pair_scalar(w[0], w[1]) as char] + utf16_decode_lossy(w.skip(2))
    } else if is_surrogate(w[0]) {
        seq![REPLACEMENT_CHARACTER] + utf16_decode_lossy(w.skip(1))
    } else {
        seq![w[0] as char] + utf16_decode_lossy(w.skip(1))
    }
}

/// `char::from_u32`: the character with this scalar value, or `None` where
/// the value is a surrogate or lies above `0x10FFFF`.
#[verifier::external_body]
fn char_from_u32(v: u32) -> (r: Option<char>)
    ensures
        r == (if is_scalar_value(v) {
            Some(v as char)
        } else {
            None
        }),
{
    char::from_u32(v)
}

/// `String::from_iter`: the string made of these characters in order.
#[verifier::external_body]
pub(crate) fn string_from_chars(chars: Vec<char>) -> (r: String)
    ensures
        r@ == chars@,
{
    String::from_iter(chars)
}

/// The characters of UTF-16 units, decoded as `String::from_utf16_lossy`
/// decodes them.
pub fn decode_utf16_lossy(w: &[u16]) -> (r: Vec<char>)
    ensures
        r@ == utf16_decode_lossy(w@),
{
    let mut out: Vec<char> = Vec::new();
    let n = w.len();
    let mut i: usize = 0;
    assert(w@.skip(0) =~= w@);
    while i < n
        invariant
            n == w@.len(),
            i <= n,
            out@ + utf16_decode_lossy(w@.skip(i as int)) == utf16_decode_lossy(w@),
        decreases n - i,
    {
        let ghost rest = w@.skip(i as int);
        let u = w[i];
        if i + 1 < n && 0xD800 <= u && u <= 0xDBFF && 0xDC00 <= w[i + 1] && w[i + 1] <= 0xDFFF {
            let low = w[i + 1];
            let scalar: u32 = 0x10000 + (u as u32 - 0xD800) * 0x400 + (low as u32 - 0xDC00);
            let c = char_from_u32(scalar).unwrap();
            proof {
                assert(rest.skip(2) =~= w@.skip(i + 2));
            }
            out.push(c);
            i = i + 2;
        } else if 0xD800 <= u && u <= 0xDFFF {
            proof {
                assert(rest.skip(1) =~= w@.skip(i + 1));
            }
            out.push(REPLACEMENT_CHARACTER);
            i = i + 1;
        } else {
            let c = char_from_u32(u as u32).unwrap();
            proof {
                assert(rest.skip(1) =~= w@.skip(i + 1));
            }
            out.push(c);
            i = i + 1;
        }
        assert(out@ + utf16_decode_lossy(w@.skip(i as int)) =~= utf16_decode_lossy(w@));
    }
    assert(w@.skip(n as int) =~= Seq::<u16>::empty());
    assert(out@ + Seq::<char>::empty() =~= out@);
    out
}


/// Decoding the UTF-16 encoding of a character sequence gives the sequence
/// back.
pub proof fn lemma_decode_encode(s: Seq<char>)
    ensures
        utf16_decode_lossy(utf16_encode(s)) == s,
    decreases s.len(),
{
    if s.len() > 0 {
        let c = s[0];
        let rest = utf16_encode(s.skip(1));
        let w = utf16_encode(s);
        lemma_decode_encode(s.skip(1));
        assert(w == char_units(c) + rest);
        vstd::utf8::char_is_scalar(c);
        vstd::utf8::char_u32_cast(c, c as u32);
        if (c as u32) < 0x10000 {
            assert(w.skip(1) =~= rest);
            assert(w[0] == c as u16);
            assert((w[0] as char) == c);
            assert(utf16_decode_lossy(w) == seq![c] + s.skip(1));
        } else {
            let v = c as u32 - 0x10000;
            assert(0 <= v <= 0xFFFFF);
            assert(v / 0x400 * 0x400 + v % 0x400 == v);
            assert(w.skip(2) =~= rest);
            assert(pair_scalar(w[0], w[1]) == c as u32);
            assert(utf16_decode_lossy(w) == seq![c] + s.skip(1));
        }
        assert(seq![c] + s.skip(1) =~= s);
    }
}

/// The last unit of the encoding of a non-empty sequence is zero only where
/// its last character is the null character.
pub proof fn lemma_encode_last_unit(s: Seq<char>)
    requires
        s.len() > 0,
        s.last() != '\0',
    ensures
        utf16_encode(s).len() > 0,
        utf16_encode(s).last() != 0,
{
    lemma_encode_append(s.drop_last(), seq![s.last()]);
    assert(s.drop_last() + seq![s.last()] =~= s);
    assert(seq![s.last()].skip(1) =~= Seq::<char>::empty());
    assert(utf16_encode(Seq::<char>::empty()) == Seq::<u16>::empty());
    assert(utf16_encode(seq![s.last()]) == char_units(s.last()));
    vstd::utf8::char_u32_cast(s.last(), s.last() as u32);
    vstd::utf8::char_u32_cast('\0', '\0' as u32);
}

} // verus!
