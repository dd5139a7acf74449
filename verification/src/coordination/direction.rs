//! Choosing which way to convert a selection.

use vstd::prelude::*;

use crate::converter::ConversionDirection;

verus! {

/// Whether a code point lies in a Hangul block: conjoining jamo, compatibility
/// jamo, extended jamo A and B, or precomposed syllables.
pub open spec fn spec_is_hangul(character: char) -> bool {
    let code = character as u32;
    ||| 0x1100 <= code <= 0x11FF
    ||| 0x3130 <= code <= 0x318F
    ||| 0xA960 <= code <= 0xA97F
    ||| 0xAC00 <= code <= 0xD7A3
    ||| 0xD7B0 <= code <= 0xD7FF
}

/// Executable form of [`spec_is_hangul`].
pub fn is_hangul(character: char) -> (r: bool)
    ensures
        r == spec_is_hangul(character),
{
    let code = character as u32;
    (0x1100 <= code && code <= 0x11FF) || (0x3130 <= code && code <= 0x318F) || (0xA960 <= code
        && code <= 0xA97F) || (0xAC00 <= code && code <= 0xD7A3) || (0xD7B0 <= code && code
        <= 0xD7FF)
}

/// Whether a text holds any Hangul character.
pub open spec fn contains_hangul(text: Seq<char>) -> bool {
    exists|i: int| 0 <= i < text.len() && spec_is_hangul(#[trigger] text[i])
}

/// The direction for a selection: none for an empty text, Korean to English
/// when any character is Hangul, English to Korean otherwise.
pub open spec fn spec_choose_direction(text: Seq<char>) -> Option<ConversionDirection> {
    if text.len() == 0 {
        None
    } else if contains_hangul(text) {
        Some(ConversionDirection::KoreanToEnglish)
    } else {
        Some(ConversionDirection::EnglishToKorean)
    }
}

/// Executable form of [`spec_choose_direction`].
pub fn choose_direction(text: &str) -> (r: Option<ConversionDirection>)
    ensures
        r == spec_choose_direction(text@),
{
    broadcast use vstd::string::group_string_axioms;

    if text.is_empty() {
        return None;
    }
    let mut found = false;
    for character in it: text.chars()
        invariant
            it.seq() == text@,
            0 <= it.index() <= text@.len(),
            found == exists|i: int| 0 <= i < it.index() && spec_is_hangul(#[trigger] text@[i]),
    {
        if is_hangul(character) {
            found = true;
        }
        assert(text@[it.index()] == character);
    }
    if found {
        Some(ConversionDirection::KoreanToEnglish)
    } else {
        Some(ConversionDirection::EnglishToKorean)
    }
}

/// Every precomposed Hangul syllable and every compatibility jamo counts as
/// Hangul.
pub proof fn law_syllables_and_jamo_are_hangul(character: char)
    requires
        (0xAC00 <= character as u32 <= 0xD7A3) || (0x3131 <= character as u32 <= 0x318E),
    ensures
        spec_is_hangul(character),
{
}

/// A Hangul character anywhere in a selection, at any position, makes the
/// direction Korean to English.
pub proof fn law_hangul_anywhere_chooses_korean_to_english(text: Seq<char>, position: int)
    requires
        0 <= position < text.len(),
        spec_is_hangul(text[position]),
    ensures
        spec_choose_direction(text) == Some(ConversionDirection::KoreanToEnglish),
{
}

/// A non-empty selection with no Hangul character at all converts English to
/// Korean; an empty one has no direction.
pub proof fn law_text_without_hangul_chooses_english_to_korean(text: Seq<char>)
    requires
        forall|i: int| 0 <= i < text.len() ==> !spec_is_hangul(#[trigger] text[i]),
    ensures
        text.len() > 0 ==> spec_choose_direction(text) == Some(ConversionDirection::EnglishToKorean),
        text.len() == 0 ==> spec_choose_direction(text) is None,
{
}

/// The direction of two texts joined is Korean to English exactly when one
/// of them alone would be: where the Hangul stands does not matter.
pub proof fn law_direction_of_a_concatenation(a: Seq<char>, b: Seq<char>)
    requires
        a.len() > 0,
        b.len() > 0,
    ensures
        (spec_choose_direction(a + b) == Some(ConversionDirection::KoreanToEnglish)) <==> (
        spec_choose_direction(a) == Some(ConversionDirection::KoreanToEnglish)
            || spec_choose_direction(b) == Some(ConversionDirection::KoreanToEnglish)),
        spec_choose_direction(a + b) is Some,
{
    let ab = a + b;
    if contains_hangul(a) {
        let i = choose|i: int| 0 <= i < a.len() && spec_is_hangul(#[trigger] a[i]);
        assert(ab[i] == a[i]);
    }
    if contains_hangul(b) {
        let i = choose|i: int| 0 <= i < b.len() && spec_is_hangul(#[trigger] b[i]);
        assert(ab[a.len() + i] == b[i]);
    }
    if contains_hangul(ab) {
        let i = choose|i: int| 0 <= i < ab.len() && spec_is_hangul(#[trigger] ab[i]);
        if i < a.len() {
            assert(a[i] == ab[i]);
        } else {
            assert(b[i - a.len()] == ab[i]);
        }
    }
}

} // verus!
