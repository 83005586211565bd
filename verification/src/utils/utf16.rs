//! UTF-16, the form in which text crosses into the Java runtime and into the
//! Windows API.

use vstd::prelude::*;
use vstd::std_specs::iter::IteratorSpec;

verus! {

/// The code units of one character: the character's own number below U+10000, a
/// high and a low surrogate above.
pub open spec fn utf16_units(c: char) -> Seq<u16> {
    let v = c as u32;
    if v < 0x10000 {
        seq![v as u16]
    } else {
        seq![(0xD800 + (v - 0x10000) / 0x400) as u16, (0xDC00 + (v - 0x10000) % 0x400) as u16]
    }
}

/// The code units of a text: those of its characters, in order.
pub open spec fn utf16(text: Seq<char>) -> Seq<u16>
    decreases text.len(),
{
    if text.len() == 0 {
        Seq::empty()
    } else {
        utf16(text.drop_last()) + utf16_units(text.last())
    }
}

/// Encodes `text` as UTF-16.
pub fn encode_utf16(text: &str) -> (units: Vec<u16>)
    ensures
        units@ == utf16(text@),
{
    let mut units: Vec<u16> = Vec::new();
    let chars = text.chars();
    for c in it: chars
        invariant
            it.seq() == text@,
            units@ == utf16(text@.take(it.index() as int)),
    {
        let ghost done = it.index() as int;
        proof {
            assert(text@.take(done + 1).drop_last() =~= text@.take(done));
        }
        let v: u32 = c as u32;
        if v < 0x10000 {
            units.push(v as u16);
        } else {
            let above: u32 = v - 0x10000;
            units.push((0xD800 + above / 0x400) as u16);
            units.push((0xDC00 + above % 0x400) as u16);
        }
    }
    proof {
        assert(text@.take(text@.len() as int) =~= text@);
    }
    units
}

/// Whether `unit` is a character by itself.
pub open spec fn is_plain_unit(unit: u16) -> bool {
    unit < 0xD800 || unit >= 0xE000
}

/// Whether `high` and `low` are a surrogate pair.
pub open spec fn is_surrogate_pair(high: u16, low: u16) -> bool {
    0xD800 <= high < 0xDC00 && 0xDC00 <= low < 0xE000
}

/// The character that a surrogate pair stands for.
pub open spec fn pair_value(high: u16, low: u16) -> char {
    (0x10000 + (high - 0xD800) * 0x400 + (low - 0xDC00)) as char
}

/// The text that `units` encode, or `None` where a surrogate stands without
/// its partner.
pub open spec fn utf16_text(units: Seq<u16>) -> Option<Seq<char>>
    decreases units.len(),
{
    if units.len() == 0 {
        Some(Seq::empty())
    } else if is_plain_unit(units[0]) {
        match utf16_text(units.skip(1)) {
            Some(rest) => Some(seq![units[0] as char] + rest),
            None => None,
        }
    } else if units.len() >= 2 && is_surrogate_pair(units[0], units[1]) {
        match utf16_text(units.skip(2)) {
            Some(rest) => Some(seq![pair_value(units[0], units[1])] + rest),
            None => None,
        }
    } else {
        None
    }
}

/// `char::from_u32` of the standard library: the character with the number
/// `i`, and `None` where `i` is a surrogate or lies above U+10FFFF.
pub assume_specification[ char::from_u32 ](i: u32) -> (c: Option<char>)
    ensures
        c == if i < 0xD800 || (0xE000 <= i && i <= 0x10FFFF) {
            Some(i as char)
        } else {
            None::<char>
        },
;

/// Decodes UTF-16. The result is `None` exactly where `units` is not well
/// formed.
pub fn decode_utf16(units: &[u16]) -> (text: Option<String>)
    ensures
        match text {
            Some(t) => utf16_text(units@) == Some(t@),
            None => utf16_text(units@) is None,
        },
{
    let mut out = String::new();
    let mut i: usize = 0;
    proof {
        assert(units@.skip(0) =~= units@);
        assert forall|rest: Seq<char>| #[trigger] (out@ + rest) == rest by {
            assert(out@ + rest =~= rest);
        }
    }
    while i < units.len()
        invariant
            i <= units.len(),
            utf16_text(units@) == match utf16_text(units@.skip(i as int)) {
                Some(rest) => Some(out@ + rest),
                None => None,
            },
        decreases units.len() - i,
    {
        let ghost rest = units@.skip(i as int);
        let ghost before = out@;
        let unit = units[i];
        if unit < 0xD800 || unit >= 0xE000 {
            let decoded = char::from_u32(unit as u32);
            let c = decoded.unwrap();
            out.push(c);
            proof {
                assert(rest.skip(1) =~= units@.skip(i + 1));
                assert forall|tail: Seq<char>| before + (seq![c] + tail) == #[trigger] (before.push(
                    c,
                ) + tail) by {
                    assert(before + (seq![c] + tail) =~= before.push(c) + tail);
                }
            }
            i = i + 1;
        } else if unit < 0xDC00 && i + 1 < units.len() && 0xDC00 <= units[i + 1] && units[i + 1]
            < 0xE000 {
            let low = units[i + 1];
            let value: u32 = 0x10000 + (unit as u32 - 0xD800) * 0x400 + (low as u32 - 0xDC00);
            let decoded = char::from_u32(value);
            let c = decoded.unwrap();
            out.push(c);
            proof {
                assert(rest.skip(2) =~= units@.skip(i + 2));
                assert forall|tail: Seq<char>| before + (seq![c] + tail) == #[trigger] (before.push(
                    c,
                ) + tail) by {
                    assert(before + (seq![c] + tail) =~= before.push(c) + tail);
                }
            }
            i = i + 2;
        } else {
            return None;
        }
    }
    Some(out)
}

/// The code units of two texts in a row are those of the first followed by
/// those of the second.
pub proof fn lemma_utf16_concat(a: Seq<char>, b: Seq<char>)
    ensures
        utf16(a + b) == utf16(a) + utf16(b),
    decreases b.len(),
{
    if b.len() == 0 {
        assert(a + b =~= a);
    } else {
        lemma_utf16_concat(a, b.drop_last());
        assert((a + b).drop_last() =~= a + b.drop_last());
    }
}

/// The code units of a character are either one unit that is a character by
/// itself or a surrogate pair, and stand for that character.
pub proof fn lemma_units_stand_for_char(c: char)
    ensures
        (c as u32) < 0x10000 ==> utf16_units(c).len() == 1 && is_plain_unit(utf16_units(c)[0])
            && utf16_units(c)[0] as char == c,
        (c as u32) >= 0x10000 ==> utf16_units(c).len() == 2 && is_surrogate_pair(
            utf16_units(c)[0],
            utf16_units(c)[1],
        ) && pair_value(utf16_units(c)[0], utf16_units(c)[1]) == c,
{
    let v = c as u32;
    if v >= 0x10000 {
        let quotient = (v - 0x10000) / 0x400;
        let rest = (v - 0x10000) % 0x400;
        assert(quotient < 0x400 && rest < 0x400 && quotient * 0x400 + rest == v - 0x10000);
    }
}

/// Encoding loses nothing: decoding the code units of a text gives the text
/// back, character for character.
pub proof fn lemma_utf16_round_trip(text: Seq<char>)
    ensures
        utf16_text(utf16(text)) == Some(text),
    decreases text.len(),
{
    if text.len() > 0 {
        let c = text[0];
        let rest = text.drop_first();
        lemma_utf16_round_trip(rest);
        lemma_utf16_concat(seq![c], rest);
        lemma_units_stand_for_char(c);
        assert(seq![c] + rest =~= text);
        assert(utf16(seq![c]) =~= utf16_units(c)) by {
            assert(utf16(seq![c].drop_last()) =~= Seq::<u16>::empty());
        }
        let units = utf16(text);
        if (c as u32) < 0x10000 {
            assert(units.skip(1) =~= utf16(rest));
        } else {
            assert(units.skip(2) =~= utf16(rest));
        }
    }
}

} // verus!
