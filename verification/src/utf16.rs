//! UTF-16 encoding of text handed to the window system.

use vstd::prelude::*;

use crate::text::{char_from_u32, chars_of, is_scalar_value, push_char};

verus! {

/// The UTF-16 code units of one character: one unit below U+10000, a
/// surrogate pair above.
pub open spec fn char_units(character: char) -> Seq<u16> {
    let code = character as u32;
    if code < 0x10000 {
        seq![code as u16]
    } else {
        let offset = (code - 0x10000) as u32;
        seq![(0xD800 + offset / 0x400) as u16, (0xDC00 + offset % 0x400) as u16]
    }
}

/// The UTF-16 code units of a text.
pub open spec fn text_units(text: Seq<char>) -> Seq<u16>
    decreases text.len(),
{
    if text.len() == 0 {
        seq![]
    } else {
        text_units(text.drop_last()) + char_units(text.last())
    }
}

/// The UTF-16 code units of a text followed by a NUL unit.
pub fn encode_utf16_terminated(text: &str) -> (r: Vec<u16>)
    ensures
        r@ == text_units(text@).push(0),
{
    let characters = chars_of(text);
    let mut units: Vec<u16> = Vec::new();
    let mut i: usize = 0;
    while i < characters.len()
        invariant
            characters@ == text@,
            i <= characters.len(),
            units@ == text_units(text@.take(i as int)),
        decreases characters.len() - i,
    {
        let ghost before = units@;
        let code = characters[i] as u32;
        proof {
            vstd::utf8::char_is_scalar(characters@[i as int]);
        }
        if code < 0x10000 {
            units.push(code as u16);
        } else {
            let offset = code - 0x10000;
            units.push((0xD800 + offset / 0x400) as u16);
            units.push((0xDC00 + offset % 0x400) as u16);
        }
        assert(text@.take(i + 1).drop_last() =~= text@.take(i as int));
        assert(units@ =~= before + char_units(characters@[i as int]));
        i = i + 1;
    }
    assert(text@.take(characters.len() as int) =~= text@);
    units.push(0);
    units
}

/// A character in front of a decoded text; nothing when decoding failed.
pub open spec fn prepend(prefix: Seq<char>, decoded: Option<Seq<char>>) -> Option<Seq<char>> {
    match decoded {
        Some(text) => Some(prefix + text),
        None => None,
    }
}

/// Whether a code unit is a surrogate.
pub open spec fn is_surrogate(unit: u16) -> bool {
    0xD800 <= unit <= 0xDFFF
}

/// Whether a code unit is a high surrogate.
pub open spec fn is_high_surrogate(unit: u16) -> bool {
    0xD800 <= unit <= 0xDBFF
}

/// Whether a code unit is a low surrogate.
pub open spec fn is_low_surrogate(unit: u16) -> bool {
    0xDC00 <= unit <= 0xDFFF
}

/// The code point of a surrogate pair.
pub open spec fn pair_code(high: u16, low: u16) -> u32 {
    (0x10000 + (high - 0xD800) * 0x400 + (low - 0xDC00)) as u32
}

/// The text that UTF-16 code units encode; none when they hold a surrogate
/// that is not part of a high-low pair.
pub open spec fn decode_units(units: Seq<u16>) -> Option<Seq<char>>
    decreases units.len(),
{
    if units.len() == 0 {
        Some(seq![])
    } else if !is_surrogate(units[0]) {
        prepend(seq![(units[0] as u32) as char], decode_units(units.skip(1)))
    } else if is_high_surrogate(units[0]) && units.len() >= 2 && is_low_surrogate(units[1]) {
        prepend(seq![pair_code(units[0], units[1]) as char], decode_units(units.skip(2)))
    } else {
        None
    }
}

/// Decodes UTF-16 code units into text; `None` when they hold an unpaired
/// surrogate.
pub fn decode_utf16(units: &[u16]) -> (r: Option<String>)
    ensures
        r matches Some(text) ==> decode_units(units@) == Some(text@),
        r is None ==> decode_units(units@) is None,
{
    let mut text = String::new();
    let mut i: usize = 0;
    assert(units@.skip(0) =~= units@);
    assert(decode_units(units@) == prepend(text@, decode_units(units@.skip(0)))) by {
        match decode_units(units@) {
            Some(all) => {
                assert(Seq::<char>::empty() + all =~= all);
            },
            None => {},
        }
    }
    while i < units.len()
        invariant
            i <= units@.len(),
            decode_units(units@) == prepend(text@, decode_units(units@.skip(i as int))),
        decreases units.len() - i,
    {
        let ghost rest = units@.skip(i as int);
        let ghost before = text@;
        let unit = units[i];
        if unit < 0xD800 || unit > 0xDFFF {
            let code = unit as u32;
            assert(is_scalar_value(code));
            let character = char_from_u32(code).unwrap();
            push_char(&mut text, character);
            assert(rest.skip(1) =~= units@.skip(i + 1));
            i = i + 1;
        } else if unit <= 0xDBFF && i + 1 < units.len() && 0xDC00 <= units[i + 1] && units[i + 1]
            <= 0xDFFF {
            let low = units[i + 1];
            let code: u32 = 0x10000 + (unit as u32 - 0xD800) * 0x400 + (low as u32 - 0xDC00);
            assert(code == pair_code(unit, low));
            assert(is_scalar_value(code));
            let character = char_from_u32(code).unwrap();
            push_char(&mut text, character);
            assert(rest.skip(2) =~= units@.skip(i + 2));
            i = i + 2;
        } else {
            return None;
        }
        assert(decode_units(rest) == prepend(seq![text@.last()], decode_units(units@.skip(i as int))));
        assert(text@ =~= before + seq![text@.last()]);
        assert(decode_units(units@) == prepend(text@, decode_units(units@.skip(i as int)))) by {
            match decode_units(units@.skip(i as int)) {
                Some(tail) => {
                    assert(before + (seq![text@.last()] + tail) =~= text@ + tail);
                },
                None => {},
            }
        }
    }
    assert(units@.skip(i as int) =~= Seq::<u16>::empty());
    assert(text@ + Seq::<char>::empty() =~= text@);
    Some(text)
}

proof fn lemma_text_units_concat(a: Seq<char>, b: Seq<char>)
    ensures
        text_units(a + b) == text_units(a) + text_units(b),
    decreases b.len(),
{
    if b.len() == 0 {
        assert(a + b =~= a);
        assert(text_units(a) + Seq::<u16>::empty() =~= text_units(a));
    } else {
        assert((a + b).drop_last() =~= a + b.drop_last());
        assert((a + b).last() == b.last());
        lemma_text_units_concat(a, b.drop_last());
        assert(text_units(a) + text_units(b.drop_last()) + char_units(b.last()) =~= text_units(a)
            + (text_units(b.drop_last()) + char_units(b.last())));
    }
}

proof fn lemma_decode_char_units(character: char, rest: Seq<u16>)
    ensures
        decode_units(char_units(character) + rest) == prepend(seq![character], decode_units(rest)),
{
    let code = character as u32;
    vstd::utf8::char_is_scalar(character);
    let units = char_units(character) + rest;
    if code < 0x10000 {
        let unit = code as u16;
        assert(unit as u32 == code);
        assert(units[0] == unit);
        assert(!is_surrogate(unit));
        vstd::utf8::char_u32_cast(character, code);
        assert(units.skip(1) =~= rest);
    } else {
        let offset = (code - 0x10000) as u32;
        let high = (0xD800 + offset / 0x400) as u16;
        let low = (0xDC00 + offset % 0x400) as u16;
        assert(offset / 0x400 < 0x400 && offset % 0x400 < 0x400) by (nonlinear_arith)
            requires
                offset <= 0xFFFFF,
        ;
        assert(units[0] == high && units[1] == low);
        assert(pair_code(high, low) == code) by (nonlinear_arith)
            requires
                high == 0xD800 + offset / 0x400,
                low == 0xDC00 + offset % 0x400,
                offset == code - 0x10000,
                pair_code(high, low) == 0x10000 + (high - 0xD800) * 0x400 + (low - 0xDC00),
        ;
        vstd::utf8::char_u32_cast(character, code);
        assert(units.skip(2) =~= rest);
    }
}

/// Decoding what encoding wrote gives back the text: clipboard text written
/// as UTF-16 reads back unchanged.
pub proof fn law_utf16_round_trip(text: Seq<char>)
    ensures
        decode_units(text_units(text)) == Some(text),
    decreases text.len(),
{
    if text.len() == 0 {
        assert(text =~= Seq::<char>::empty());
    } else {
        let first = text[0];
        let rest = text.drop_first();
        assert(seq![first] + rest =~= text);
        lemma_text_units_concat(seq![first], rest);
        assert(seq![first].drop_last() =~= Seq::<char>::empty());
        assert(text_units(Seq::<char>::empty()) == Seq::<u16>::empty());
        assert(Seq::<u16>::empty() + char_units(first) =~= char_units(first));
        assert(text_units(seq![first]) =~= char_units(first));
        law_utf16_round_trip(rest);
        lemma_decode_char_units(first, text_units(rest));
        assert(seq![first] + rest =~= text);
    }
}

} // verus!
