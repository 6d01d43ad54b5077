use vstd::prelude::*;

verus! {

/// The UTF-16 code units that encode one character: a single unit for a
/// character of the Basic Multilingual Plane, a surrogate pair otherwise.
pub open spec fn char_units(c: char) -> Seq<u16> {
    let v = c as u32;
    if v < 0x10000 {
        seq![v as u16]
    } else {
        let w = v - 0x10000;
        seq![(0xD800 + w / 0x400) as u16, (0xDC00 + w % 0x400) as u16]
    }
}

/// The UTF-16 encoding of a character sequence, unit by unit.
pub open spec fn utf16_units(s: Seq<char>) -> Seq<u16>
    decreases s.len(),
{
    if s.len() == 0 {
        Seq::empty()
    } else {
        utf16_units(s.drop_last()) + char_units(s.last())
    }
}

/// A NUL-terminated wide string: the UTF-16 units of `s` followed by a zero unit.
pub open spec fn wide_string(s: Seq<char>) -> Seq<u16> {
    utf16_units(s).push(0u16)
}

/// Appends the UTF-16 units of `c` to `out`.
fn push_char_units(out: &mut Vec<u16>, c: char)
    ensures
        final(out)@ == old(out)@ + char_units(c),
{
    let v = c as u32;
    if v < 0x10000 {
        out.push(v as u16);
    } else {
        let w = v - 0x10000;
        out.push((0xD800 + w / 0x400) as u16);
        out.push((0xDC00 + w % 0x400) as u16);
    }
}

/// Converts a string to the NUL-terminated UTF-16 form that the wide
/// Win32 functions take.
pub fn to_wstring(s: &str) -> (res: Vec<u16>)
    ensures
        res@ == wide_string(s@),
{
    broadcast use vstd::string::axiom_spec_iter;

    let mut out: Vec<u16> = Vec::new();
    for c in it: s.chars()
        invariant
            it.seq() == s@,
            out@ == utf16_units(s@.take(it.index())),
    {
        proof {
            assert(s@.take(it.index() + 1).drop_last() =~= s@.take(it.index()));
        }
        push_char_units(&mut out, c);
    }
    proof {
        assert(s@.take(s@.len() as int) =~= s@);
    }
    out.push(0);
    out
}


/// The encoding is standard UTF-16: a character below U+10000 is its own
/// single code unit; any other character becomes a high surrogate followed
/// by a low surrogate that together carry its code point.
pub proof fn char_units_are_standard_utf16(c: char)
    ensures
        (c as u32) < 0x10000 ==> char_units(c).len() == 1 && char_units(c)[0] as u32 == c as u32,
        (c as u32) >= 0x10000 ==> {
            &&& char_units(c).len() == 2
            &&& 0xD800 <= char_units(c)[0] < 0xDC00
            &&& 0xDC00 <= char_units(c)[1] < 0xE000
            &&& 0x10000 + (char_units(c)[0] - 0xD800) * 0x400 + (char_units(c)[1] - 0xDC00) == c as u32
        },
{
    let v = c as u32;
    if v >= 0x10000 {
        let w = v - 0x10000;
        assert(w / 0x400 < 0x400);
    }
}

/// A text with no character above U+FFFF is encoded unit for character:
/// its wide string holds each character's code point, then the NUL.
pub proof fn bmp_wide_string(s: Seq<char>)
    requires
        forall|i: int| 0 <= i < s.len() ==> (#[trigger] s[i] as u32) < 0x10000,
    ensures
        wide_string(s).len() == s.len() + 1,
        forall|i: int| 0 <= i < s.len() ==> #[trigger] wide_string(s)[i] as u32 == s[i] as u32,
        wide_string(s)[s.len() as int] == 0u16,
{
    bmp_units(s);
}

proof fn bmp_units(s: Seq<char>)
    requires
        forall|i: int| 0 <= i < s.len() ==> (#[trigger] s[i] as u32) < 0x10000,
    ensures
        utf16_units(s).len() == s.len(),
        forall|i: int| 0 <= i < s.len() ==> #[trigger] utf16_units(s)[i] as u32 == s[i] as u32,
    decreases s.len(),
{
    if s.len() > 0 {
        let d = s.drop_last();
        assert forall|i: int| 0 <= i < d.len() implies (#[trigger] d[i] as u32) < 0x10000 by {
            assert(d[i] == s[i]);
        }
        bmp_units(d);
        assert((s.last() as u32) < 0x10000);
        char_units_are_standard_utf16(s.last());
        assert(utf16_units(s) == utf16_units(d) + char_units(s.last()));
        assert forall|i: int| 0 <= i < s.len() implies #[trigger] utf16_units(s)[i] as u32 == s[i] as u32 by {
            if i < d.len() {
                assert(d[i] == s[i]);
                assert(utf16_units(s)[i] == utf16_units(d)[i]);
            } else {
                assert(utf16_units(s)[i] == char_units(s.last())[0]);
            }
        }
    }
}

/// Whether a code unit is the first half of a surrogate pair.
pub open spec fn is_high_surrogate(u: u16) -> bool {
    0xD800 <= u < 0xDC00
}

/// Decodes UTF-16 units from the front: a high surrogate and the unit after
/// it make one character, any other unit is a character by itself.
pub open spec fn decode_utf16(u: Seq<u16>) -> Seq<char>
    decreases u.len(),
{
    if u.len() == 0 {
        Seq::empty()
    } else if is_high_surrogate(u[0]) && u.len() >= 2 {
        seq![(0x10000 + (u[0] - 0xD800) * 0x400 + (u[1] - 0xDC00)) as char] + decode_utf16(
            u.skip(2),
        )
    } else {
        seq![u[0] as char] + decode_utf16(u.skip(1))
    }
}

/// The encoding of a concatenation is the concatenation of the encodings.
proof fn utf16_units_append(a: Seq<char>, b: Seq<char>)
    ensures
        utf16_units(a + b) == utf16_units(a) + utf16_units(b),
    decreases b.len(),
{
    if b.len() == 0 {
        assert(a + b =~= a);
        assert(utf16_units(a) + utf16_units(b) =~= utf16_units(a));
    } else {
        utf16_units_append(a, b.drop_last());
        assert((a + b).drop_last() =~= a + b.drop_last());
        assert((a + b).last() == b.last());
        assert(utf16_units(a) + utf16_units(b) =~= utf16_units(a) + utf16_units(b.drop_last())
            + char_units(b.last()));
    }
}

/// Decoding the units of one character, followed by anything, gives that
/// character first.
proof fn decode_char_units(c: char, rest: Seq<u16>)
    ensures
        decode_utf16(char_units(c) + rest) == seq![c] + decode_utf16(rest),
{
    let u = char_units(c) + rest;
    let v = c as u32;
    if v < 0x10000 {
        assert(u[0] == v as u16);
        assert(!is_high_surrogate(u[0]));
        assert(u.skip(1) =~= rest);
        assert((u[0] as char) == c);
    } else {
        let w = v - 0x10000;
        assert(w / 0x400 < 0x400);
        assert(u[0] == (0xD800 + w / 0x400) as u16);
        assert(u[1] == (0xDC00 + w % 0x400) as u16);
        assert(is_high_surrogate(u[0]));
        assert(u.skip(2) =~= rest);
        assert(0x10000 + (u[0] - 0xD800) * 0x400 + (u[1] - 0xDC00) == v);
        assert((0x10000 + (u[0] - 0xD800) * 0x400 + (u[1] - 0xDC00)) as char == c);
    }
}

/// UTF-16 encoding loses nothing: decoding the units of a text gives the
/// text back, so different texts have different wide strings.
pub proof fn utf16_decodes_back(s: Seq<char>)
    ensures
        decode_utf16(utf16_units(s)) == s,
    decreases s.len(),
{
    if s.len() > 0 {
        let t = s.drop_first();
        utf16_decodes_back(t);
        assert(s =~= seq![s[0]] + t);
        utf16_units_append(seq![s[0]], t);
        let one = seq![s[0]];
        assert(one.drop_last() =~= Seq::<char>::empty());
        assert(one.last() == s[0]);
        assert(utf16_units(Seq::<char>::empty()) =~= Seq::<u16>::empty());
        assert(utf16_units(one) == utf16_units(one.drop_last()) + char_units(one.last()));
        assert(utf16_units(one) =~= char_units(s[0]));
        decode_char_units(s[0], utf16_units(t));
    } else {
        assert(utf16_units(s) =~= Seq::<u16>::empty());
    }
}

/// The text of a wide string is everything before its final NUL, and it
/// decodes back to the original text.
pub proof fn wide_string_decodes_back(s: Seq<char>)
    ensures
        wide_string(s).last() == 0u16,
        decode_utf16(wide_string(s).drop_last()) == s,
{
    assert(wide_string(s).drop_last() =~= utf16_units(s));
    utf16_decodes_back(s);
}

/// Every character below U+0080 is its own code unit, so the wide string of
/// an ASCII text holds its character codes followed by a NUL.
pub proof fn ascii_wide_string(s: Seq<char>)
    requires
        forall|i: int| 0 <= i < s.len() ==> (#[trigger] s[i] as u32) < 0x80,
    ensures
        wide_string(s).len() == s.len() + 1,
        forall|i: int| 0 <= i < s.len() ==> #[trigger] wide_string(s)[i] as u32 == s[i] as u32,
        wide_string(s)[s.len() as int] == 0u16,
    decreases s.len(),
{
    ascii_units(s);
}

proof fn ascii_units(s: Seq<char>)
    requires
        forall|i: int| 0 <= i < s.len() ==> (#[trigger] s[i] as u32) < 0x80,
    ensures
        utf16_units(s).len() == s.len(),
        forall|i: int| 0 <= i < s.len() ==> #[trigger] utf16_units(s)[i] as u32 == s[i] as u32,
    decreases s.len(),
{
    if s.len() > 0 {
        let d = s.drop_last();
        assert forall|i: int| 0 <= i < d.len() implies (#[trigger] d[i] as u32) < 0x80 by {
            assert(d[i] == s[i]);
        }
        ascii_units(d);
        assert((s.last() as u32) < 0x80);
        assert(utf16_units(s) == utf16_units(d) + char_units(s.last()));
        assert(char_units(s.last())[0] as u32 == s.last() as u32);
        assert forall|i: int| 0 <= i < s.len() implies #[trigger] utf16_units(s)[i] as u32 == s[i] as u32 by {
            if i < d.len() {
                assert(d[i] == s[i]);
                assert(utf16_units(s)[i] == utf16_units(d)[i]);
            } else {
                assert(utf16_units(s)[i] == char_units(s.last())[0]);
            }
        }
    }
}

} // verus!
