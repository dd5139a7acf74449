//! Platform-independent conversion between two-set Korean and QWERTY keys.
//!
//! The caller always chooses a direction; this module performs no language
//! detection. Text is processed as a stream of characters: Hangul composition
//! is flushed at every character that no key types, and that character is
//! copied as it is.

pub mod composer;
pub mod jamo;
pub mod key_laws;
pub mod laws;

use vstd::prelude::*;

use crate::text::push_char;

use composer::{empty_composer, Composer};
use jamo::{
    decompose_syllable, english_key_to_jamo, final_keys, jamo_to_keys, lead_keys, medial_keys,
    spec_decompose_syllable, spec_english_key_to_jamo, spec_final_keys, spec_jamo_to_keys,
    spec_lead_keys, spec_medial_keys, Keys,
};

verus! {

/// Which way a conversion goes.
#[derive(Debug, Clone, Copy, PartialEq, Eq, Structural)]
pub enum ConversionDirection {
    EnglishToKorean,
    KoreanToEnglish,
}

/// The composer and the characters written after one input character: a key
/// of the layout goes to the composer; any other character ends the syllable
/// and is copied.
pub open spec fn korean_step(state: Composer, character: char) -> (Composer, Seq<char>) {
    match spec_english_key_to_jamo(character) {
        Some(jamo) => state.after_jamo(jamo),
        None => (empty_composer(), state.flushed().push(character)),
    }
}

/// The composer and the characters written after a run of input characters,
/// starting from `start`.
pub open spec fn korean_feed(start: Composer, text: Seq<char>) -> (Composer, Seq<char>)
    decreases text.len(),
{
    if text.len() == 0 {
        (start, seq![])
    } else {
        let before = korean_feed(start, text.drop_last());
        let after = korean_step(before.0, text.last());
        (after.0, before.1 + after.1)
    }
}

/// The Korean text that a run of QWERTY keys types.
pub open spec fn spec_convert_to_korean(text: Seq<char>) -> Seq<char> {
    let fed = korean_feed(empty_composer(), text);
    fed.1 + fed.0.flushed()
}

/// The keys that type one character: the keys of a syllable's initial, vowel
/// and final; the keys of a lone jamo; or the character itself.
pub open spec fn english_of_char(character: char) -> Seq<char> {
    match spec_decompose_syllable(character) {
        Some((l, m, f)) => spec_lead_keys(l)@ + spec_medial_keys(m)@ + spec_final_keys(f)@,
        None => match spec_jamo_to_keys(character) {
            Some(keys) => keys@,
            None => seq![character],
        },
    }
}

/// The QWERTY keys that type a text on the two-set layout.
pub open spec fn spec_convert_to_english(text: Seq<char>) -> Seq<char>
    decreases text.len(),
{
    if text.len() == 0 {
        seq![]
    } else {
        spec_convert_to_english(text.drop_last()) + english_of_char(text.last())
    }
}

/// The conversion in the given direction.
pub open spec fn spec_convert(text: Seq<char>, direction: ConversionDirection) -> Seq<char> {
    match direction {
        ConversionDirection::EnglishToKorean => spec_convert_to_korean(text),
        ConversionDirection::KoreanToEnglish => spec_convert_to_english(text),
    }
}

/// Converts `text` in the given direction.
pub fn convert(text: &str, direction: ConversionDirection) -> (r: String)
    ensures
        r@ == spec_convert(text@, direction),
        direction == ConversionDirection::EnglishToKorean ==> r@ == spec_convert_to_korean(text@),
        direction == ConversionDirection::KoreanToEnglish ==> r@ == spec_convert_to_english(text@),
{
    match direction {
        ConversionDirection::EnglishToKorean => convert_to_korean(text),
        ConversionDirection::KoreanToEnglish => convert_to_english(text),
    }
}

proof fn lemma_korean_feed_wf(text: Seq<char>)
    ensures
        korean_feed(empty_composer(), text).0.wf(),
    decreases text.len(),
{
    if text.len() > 0 {
        lemma_korean_feed_wf(text.drop_last());
        let state = korean_feed(empty_composer(), text.drop_last()).0;
        match spec_english_key_to_jamo(text.last()) {
            Some(jamo) => {
                assert(jamo.wf());
                lemma_after_jamo_wf(state, jamo);
            },
            None => {},
        }
    }
}

proof fn lemma_after_jamo_wf(state: Composer, jamo: jamo::Jamo)
    requires
        state.wf(),
        jamo.wf(),
    ensures
        state.after_jamo(jamo).0.wf(),
{
}

/// Types the QWERTY keys of `text` on the two-set Korean layout, composing
/// syllables as they are typed.
pub fn convert_to_korean(text: &str) -> (r: String)
    ensures
        r@ == spec_convert_to_korean(text@),
{
    broadcast use vstd::string::group_string_axioms;

    let mut output = String::new();
    let mut composer = Composer::new();
    for character in it: text.chars()
        invariant
            it.seq() == text@,
            0 <= it.index() <= text@.len(),
            composer.wf(),
            composer == korean_feed(empty_composer(), text@.take(it.index())).0,
            output@ == korean_feed(empty_composer(), text@.take(it.index())).1,
    {
        let ghost prefix = text@.take(it.index());
        let ghost next = text@.take(it.index() + 1);
        assert(next.drop_last() =~= prefix);
        assert(next.last() == character);
        match english_key_to_jamo(character) {
            Some(jamo) => composer.push(jamo, &mut output),
            None => {
                composer.flush(&mut output);
                push_char(&mut output, character);
                assert(output@ =~= korean_feed(empty_composer(), prefix).1 + korean_step(
                    korean_feed(empty_composer(), prefix).0,
                    character,
                ).1);
            },
        }
    }
    assert(text@.take(text@.len() as int) =~= text@);
    composer.flush(&mut output);
    output
}

fn push_keys(output: &mut String, keys: Keys)
    requires
        keys.len <= 2,
    ensures
        final(output)@ == old(output)@ + keys@,
{
    if keys.len >= 1 {
        push_char(output, keys.first);
    }
    if keys.len >= 2 {
        push_char(output, keys.second);
    }
    assert(output@ =~= old(output)@ + keys@);
}

/// Writes the QWERTY keys that type `text` on the two-set Korean layout.
pub fn convert_to_english(text: &str) -> (r: String)
    ensures
        r@ == spec_convert_to_english(text@),
{
    broadcast use vstd::string::group_string_axioms;

    let mut output = String::new();
    for character in it: text.chars()
        invariant
            it.seq() == text@,
            0 <= it.index() <= text@.len(),
            output@ == spec_convert_to_english(text@.take(it.index())),
    {
        let ghost prefix = text@.take(it.index());
        let ghost next = text@.take(it.index() + 1);
        assert(next.drop_last() =~= prefix);
        assert(next.last() == character);
        if let Some((lead, medial, final_index)) = decompose_syllable(character) {
            let ghost before = output@;
            push_keys(&mut output, lead_keys(lead));
            push_keys(&mut output, medial_keys(medial));
            push_keys(&mut output, final_keys(final_index));
            assert(output@ =~= before + english_of_char(character));
        } else if let Some(keys) = jamo_to_keys(character) {
            push_keys(&mut output, keys);
        } else {
            push_char(&mut output, character);
        }
    }
    assert(text@.take(text@.len() as int) =~= text@);
    output
}

} // verus!
