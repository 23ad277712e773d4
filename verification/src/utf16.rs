//! UTF-16 encoding of window titles.
//!
//! The Win32 adapter hands titles to the native layer as UTF-16 code units
//! with an explicit terminating null. The encoding is fixed by the Unicode
//! standard: a scalar below `0x10000` is one unit, any other is a surrogate
//! pair over the offset from `0x10000`.

use vstd::prelude::*;

verus! {

/// The UTF-16 code units of one character.
pub open spec fn utf16_units(c: char) -> Seq<u16> {
    let v = c as u32;
    if v < 0x10000 {
        seq![v as u16]
    } else {
        seq![
            (0xD800 + (v - 0x10000) / 0x400) as u16,
            (0xDC00 + (v - 0x10000) % 0x400) as u16,
        ]
    }
}

/// The UTF-16 code units of a character sequence, in order.
pub open spec fn utf16_encode(s: Seq<char>) -> Seq<u16>
    decreases s.len(),
{
    if s.len() == 0 {
        Seq::empty()
    } else {
        utf16_units(s[0]) + utf16_encode(s.drop_first())
    }
}

/// The UTF-16 code units of a title as the Win32 calls want them: the
/// encoded characters followed by one null unit.
pub open spec fn null_terminated_utf16(s: Seq<char>) -> Seq<u16> {
    utf16_encode(s).push(0u16)
}

/// Encoding distributes over appending one character at the end.
pub proof fn lemma_utf16_encode_push(s: Seq<char>, c: char)
    ensures
        utf16_encode(s.push(c)) == utf16_encode(s) + utf16_units(c),
    decreases s.len(),
{
    let t = s.push(c);
    if s.len() == 0 {
        assert(t[0] == c);
        assert(t.drop_first() =~= Seq::<char>::empty());
        assert(utf16_encode(t) == utf16_units(c) + utf16_encode(Seq::<char>::empty()));
        assert(utf16_encode(t) =~= utf16_encode(s) + utf16_units(c));
    } else {
        assert(t[0] == s[0]);
        assert(t.drop_first() =~= s.drop_first().push(c));
        lemma_utf16_encode_push(s.drop_first(), c);
        assert(utf16_encode(t) == utf16_units(s[0]) + (utf16_encode(s.drop_first())
            + utf16_units(c)));
        assert(utf16_encode(t) =~= utf16_encode(s) + utf16_units(c));
    }
}

/// Encodes a string to UTF-16 code units, without a terminator.
pub fn encode_utf16(s: &str) -> (r: Vec<u16>)
    ensures
        r@ == utf16_encode(s@),
{
    let n = s.unicode_len();
    let mut out: Vec<u16> = Vec::new();
    let mut i: usize = 0;
    while i < n
        invariant
            i <= n,
            n == s@.len(),
            out@ == utf16_encode(s@.take(i as int)),
        decreases n - i,
    {
        let c = s.get_char(i);
        proof {
            vstd::utf8::char_is_scalar(c);
        }
        let v = c as u32;
        if v < 0x10000 {
            out.push(v as u16);
        } else {
            let off = v - 0x10000;
            let hi = 0xD800u32 + off / 0x400;
            let lo = 0xDC00u32 + off % 0x400;
            out.push(hi as u16);
            out.push(lo as u16);
        }
        proof {
            assert(s@.take(i as int).push(s@[i as int]) =~= s@.take(i as int + 1));
            lemma_utf16_encode_push(s@.take(i as int), s@[i as int]);
        }
        i += 1;
    }
    proof {
        assert(s@.take(n as int) =~= s@);
    }
    out
}

/// Encodes a title for the native window calls: UTF-16 code units with the
/// explicit terminating null.
pub fn encode_title(s: &str) -> (r: Vec<u16>)
    ensures
        r@ == null_terminated_utf16(s@),
        r@.len() == utf16_encode(s@).len() + 1,
        r@.last() == 0u16,
{
    let mut out = encode_utf16(s);
    out.push(0u16);
    out
}

} // verus!
