//! Typing QWERTY keys into Korean and reading the keys back.

use vstd::prelude::*;

use super::composer::{empty_composer, Composer};
use super::jamo::{
    is_syllable, spec_combine_finals, spec_combine_vowels, spec_compose_syllable,
    spec_decompose_syllable, spec_english_key_to_jamo, spec_final_keys, spec_final_to_lead,
    spec_jamo_to_keys, spec_lead_jamo, spec_lead_keys, spec_medial_jamo, spec_medial_keys,
    spec_split_final, syllable_code, Jamo, FINAL_COUNT, HANGUL_BASE, LEAD_COUNT, LEAD_STRIDE,
    MEDIAL_COUNT,
};
use super::laws::law_english_concat;
use super::{english_of_char, korean_feed, korean_step, spec_convert_to_english, spec_convert_to_korean};

verus! {

/// The keys that type each jamo back as the same key: the lowercase letters
/// and the shifted keys of the tense consonants and of ㅒ and ㅖ.
pub open spec fn is_plain_key(key: char) -> bool {
    ||| ('a' <= key && key <= 'z')
    ||| key == 'R'
    ||| key == 'E'
    ||| key == 'Q'
    ||| key == 'T'
    ||| key == 'W'
    ||| key == 'O'
    ||| key == 'P'
}

/// The keys that type what the composer holds.
spec fn held_keys(state: Composer) -> Seq<char> {
    let lead = match state.lead {
        Some(l) => spec_lead_keys(l)@,
        None => Seq::<char>::empty(),
    };
    let medial = match state.medial {
        Some(m) => spec_medial_keys(m)@,
        None => Seq::<char>::empty(),
    };
    let last = match state.final_index {
        Some(f) => spec_final_keys(f)@,
        None => Seq::<char>::empty(),
    };
    lead + medial + last
}

/// A plain key types a jamo whose keys are that key alone.
proof fn lemma_plain_key(key: char)
    requires
        is_plain_key(key),
    ensures
        spec_english_key_to_jamo(key) matches Some(jamo) && jamo.wf() && match jamo {
            Jamo::Consonant { compatibility, lead, final_index } => {
                &&& lead matches Some(l) && spec_lead_keys(l)@ == seq![key]
                &&& (final_index matches Some(p) ==> spec_final_keys(p)@ == seq![key])
            },
            Jamo::Vowel(v) => spec_medial_keys(v)@ == seq![key],
        },
{
    let jamo = spec_english_key_to_jamo(key).unwrap();
    match jamo {
        Jamo::Consonant { compatibility, lead, final_index } => {
            let l = lead.unwrap();
            assert(spec_lead_keys(l)@ =~= seq![key]);
            if final_index is Some {
                assert(spec_final_keys(final_index.unwrap())@ =~= seq![key]);
            }
        },
        Jamo::Vowel(v) => {
            assert(spec_medial_keys(v)@ =~= seq![key]);
        },
    }
}

/// The keys of a final cluster are the keys of its two finals.
proof fn lemma_cluster_keys(first: usize, second: usize)
    requires
        spec_combine_finals(first, second) is Some,
    ensures
        spec_final_keys(spec_combine_finals(first, second).unwrap())@ =~= spec_final_keys(first)@
            + spec_final_keys(second)@,
{
}

/// The keys of a compound vowel are the keys of its two vowels.
proof fn lemma_compound_vowel_keys(first: usize, second: usize)
    requires
        spec_combine_vowels(first, second) is Some,
    ensures
        spec_medial_keys(spec_combine_vowels(first, second).unwrap())@ =~= spec_medial_keys(first)@
            + spec_medial_keys(second)@,
{
}

/// A cluster's keys are the keys of the final that stays and of the initial
/// that moves on.
proof fn lemma_split_keys(final_index: usize)
    requires
        spec_split_final(final_index) is Some,
    ensures
        ({
            let (rest, next) = spec_split_final(final_index).unwrap();
            spec_final_keys(final_index)@ =~= spec_final_keys(rest)@ + spec_lead_keys(next)@
                && 1 <= rest < FINAL_COUNT && next < LEAD_COUNT
        }),
{
}

/// A single final's keys are the keys of the initial it moves on as.
proof fn lemma_moved_final_keys(final_index: usize)
    requires
        spec_final_to_lead(final_index) is Some,
    ensures
        spec_final_keys(final_index)@ =~= spec_lead_keys(spec_final_to_lead(final_index).unwrap())@,
        spec_final_to_lead(final_index).unwrap() < LEAD_COUNT,
{
}

/// The keys of a lone initial's or a lone vowel's compatibility jamo.
proof fn lemma_lone_jamo_keys(lead: usize, medial: usize)
    requires
        lead < LEAD_COUNT,
        medial < MEDIAL_COUNT,
    ensures
        english_of_char(spec_lead_jamo(lead)) == spec_lead_keys(lead)@,
        english_of_char(spec_medial_jamo(medial)) == spec_medial_keys(medial)@,
{
    assert(!is_syllable(spec_lead_jamo(lead)));
    assert(!is_syllable(spec_medial_jamo(medial)));
    assert(spec_jamo_to_keys(spec_lead_jamo(lead)) == Some(spec_lead_keys(lead)));
    assert(spec_jamo_to_keys(spec_medial_jamo(medial)) == Some(spec_medial_keys(medial)));
}

/// A composed syllable decomposes into the indices it was composed of.
proof fn lemma_syllable_keys_back(lead: usize, medial: usize, final_index: Option<usize>)
    requires
        lead < LEAD_COUNT,
        medial < MEDIAL_COUNT,
        final_index matches Some(f) ==> 1 <= f < FINAL_COUNT,
    ensures
        english_of_char(spec_compose_syllable(lead, medial, final_index)) == spec_lead_keys(lead)@
            + spec_medial_keys(medial)@ + match final_index {
            Some(f) => spec_final_keys(f)@,
            None => Seq::<char>::empty(),
        },
{
    let f: int = match final_index {
        Some(f) => f as int,
        None => 0,
    };
    let code = syllable_code(lead as int, medial as int, f);
    let offset = code - 0xAC00;
    let inner = medial * 28 + f;
    assert(0 <= inner < 588) by (nonlinear_arith)
        requires
            medial < 21,
            0 <= f < 28,
            inner == medial * 28 + f,
    ;
    assert(0 <= offset <= 0xD7A3 - 0xAC00) by (nonlinear_arith)
        requires
            lead < 19,
            0 <= inner < 588,
            offset == lead * 588 + inner,
    ;
    vstd::arithmetic::div_mod::lemma_fundamental_div_mod_converse(offset, 588, lead as int, inner);
    vstd::arithmetic::div_mod::lemma_fundamental_div_mod_converse(inner, 28, medial as int, f);
    let character = spec_compose_syllable(lead, medial, final_index);
    assert(character as u32 == code);
    assert(is_syllable(character));
    assert(spec_decompose_syllable(character) == Some((lead, medial, f as usize)));
    if final_index is None {
        assert(spec_final_keys(0)@ =~= Seq::<char>::empty());
    }
}

/// The keys of a single character.
proof fn lemma_english_single(character: char)
    ensures
        spec_convert_to_english(seq![character]) == english_of_char(character),
{
    assert(seq![character].drop_last() =~= Seq::<char>::empty());
    assert(seq![character].last() == character);
    assert(spec_convert_to_english(Seq::<char>::empty()) == Seq::<char>::empty());
    assert(Seq::<char>::empty() + english_of_char(character) =~= english_of_char(character));
}

/// What the composer writes out for what it holds types back its held keys.
proof fn lemma_flushed_keys(state: Composer)
    requires
        state.wf(),
    ensures
        spec_convert_to_english(state.flushed()) == held_keys(state),
{
    match (state.lead, state.medial) {
        (Some(l), Some(m)) => {
            lemma_syllable_keys_back(l, m, state.final_index);
            lemma_english_single(spec_compose_syllable(l, m, state.final_index));
            assert(held_keys(state) =~= spec_lead_keys(l)@ + spec_medial_keys(m)@ + match state.final_index {
                Some(f) => spec_final_keys(f)@,
                None => Seq::<char>::empty(),
            });
        },
        (Some(l), None) => {
            lemma_lone_jamo_keys(l, 0);
            lemma_english_single(spec_lead_jamo(l));
            assert(held_keys(state) =~= spec_lead_keys(l)@);
        },
        (None, Some(m)) => {
            lemma_lone_jamo_keys(0, m);
            lemma_english_single(spec_medial_jamo(m));
            assert(held_keys(state) =~= spec_medial_keys(m)@);
        },
        (None, None) => {
            assert(state.flushed() =~= Seq::<char>::empty());
            assert(held_keys(state) =~= Seq::<char>::empty());
        },
    }
}

/// Writing out what the composer holds and starting over with `lead` keeps
/// the keys: those of the written text, then the initial's.
proof fn lemma_restart_keys(state: Composer, lead: usize, key: char)
    requires
        state.wf(),
        lead < LEAD_COUNT,
        spec_lead_keys(lead)@ == seq![key],
    ensures
        spec_convert_to_english(state.flushed() + Seq::<char>::empty()) + held_keys(
            Composer { lead: Some(lead), medial: None, final_index: None },
        ) == held_keys(state) + seq![key],
{
    lemma_flushed_keys(state);
    assert(state.flushed() + Seq::<char>::empty() =~= state.flushed());
    assert(held_keys(Composer { lead: Some(lead), medial: None, final_index: None }) =~= seq![key]);
}

/// A consonant key after whatever the composer holds.
proof fn lemma_consonant_step(
    state: Composer,
    compatibility: char,
    lead: usize,
    possible_final: Option<usize>,
    key: char,
)
    requires
        state.wf(),
        lead < LEAD_COUNT,
        spec_lead_keys(lead)@ == seq![key],
        possible_final matches Some(p) ==> 1 <= p < FINAL_COUNT && spec_final_keys(p)@ == seq![key],
    ensures
        ({
            let (next, out) = state.after_consonant(compatibility, Some(lead), possible_final);
            next.wf() && spec_convert_to_english(out) + held_keys(next) == held_keys(state) + seq![key]
        }),
{
    let (next, out) = state.after_consonant(compatibility, Some(lead), possible_final);
    let empty = Seq::<char>::empty();
    let restarted = Composer { lead: Some(lead), medial: None, final_index: None };
    match (state.lead, state.medial, state.final_index) {
        (None, None, None) => {
            assert(out =~= empty);
            assert(held_keys(state) =~= empty);
            assert(held_keys(next) =~= seq![key]);
        },
        (Some(_), Some(_), None) => {
            if possible_final is Some {
                assert(out =~= empty);
                assert(held_keys(next) =~= held_keys(state) + seq![key]);
            } else {
                lemma_restart_keys(state, lead, key);
            }
        },
        (Some(_), Some(_), Some(current)) => {
            if possible_final is Some && spec_combine_finals(current, possible_final.unwrap()) is Some {
                lemma_cluster_keys(current, possible_final.unwrap());
                assert(out =~= empty);
                assert(held_keys(next) =~= held_keys(state) + seq![key]);
            } else {
                lemma_restart_keys(state, lead, key);
            }
        },
        _ => {
            lemma_restart_keys(state, lead, key);
        },
    }
    assert(spec_convert_to_english(empty) == empty);
    assert(empty + held_keys(next) =~= held_keys(next));
}

/// The keys of a syllable written out before a vowel, and of what the
/// composer then holds.
proof fn lemma_split_step(state: Composer, vowel: usize, key: char)
    requires
        state.wf(),
        state.lead is Some,
        state.medial is Some,
        state.final_index is Some,
        vowel < MEDIAL_COUNT,
        spec_medial_keys(vowel)@ == seq![key],
    ensures
        ({
            let (next, out) = state.after_vowel(vowel);
            next.wf() && spec_convert_to_english(out) + held_keys(next) == held_keys(state) + seq![key]
        }),
{
    let (next, out) = state.after_vowel(vowel);
    let l = state.lead.unwrap();
    let m = state.medial.unwrap();
    let f = state.final_index.unwrap();
    if spec_split_final(f) is Some {
        lemma_split_keys(f);
        let (rest, moved) = spec_split_final(f).unwrap();
        lemma_syllable_keys_back(l, m, Some(rest));
        lemma_english_single(spec_compose_syllable(l, m, Some(rest)));
        assert(held_keys(next) =~= spec_lead_keys(moved)@ + seq![key]);
        assert(held_keys(state) =~= spec_lead_keys(l)@ + spec_medial_keys(m)@ + spec_final_keys(f)@);
    } else if spec_final_to_lead(f) is Some {
        lemma_moved_final_keys(f);
        lemma_syllable_keys_back(l, m, None);
        lemma_english_single(spec_compose_syllable(l, m, None));
        assert(held_keys(next) =~= spec_lead_keys(spec_final_to_lead(f).unwrap())@ + seq![key]);
        assert(held_keys(state) =~= spec_lead_keys(l)@ + spec_medial_keys(m)@ + spec_final_keys(f)@);
    } else {
        lemma_flushed_keys(state);
        assert(out == state.flushed());
        assert(held_keys(next) =~= seq![key]);
    }
}

/// A vowel key after whatever the composer holds.
proof fn lemma_vowel_step(state: Composer, vowel: usize, key: char)
    requires
        state.wf(),
        vowel < MEDIAL_COUNT,
        spec_medial_keys(vowel)@ == seq![key],
    ensures
        ({
            let (next, out) = state.after_vowel(vowel);
            next.wf() && spec_convert_to_english(out) + held_keys(next) == held_keys(state) + seq![key]
        }),
{
    let (next, out) = state.after_vowel(vowel);
    let empty = Seq::<char>::empty();
    assert(spec_convert_to_english(empty) == empty);
    match (state.lead, state.medial, state.final_index) {
        (Some(_), Some(_), Some(_)) => {
            lemma_split_step(state, vowel, key);
        },
        (_, Some(current), None) => {
            if spec_combine_vowels(current, vowel) is Some {
                lemma_compound_vowel_keys(current, vowel);
                assert(out =~= empty);
                assert(held_keys(next) =~= held_keys(state) + seq![key]);
                assert(empty + held_keys(next) =~= held_keys(next));
            } else {
                lemma_flushed_keys(state);
                assert(held_keys(next) =~= seq![key]);
            }
        },
        (None, None, None) => {
            assert(out =~= empty);
            assert(held_keys(state) =~= empty);
            assert(held_keys(next) =~= seq![key]);
            assert(empty + held_keys(next) =~= held_keys(next));
        },
        (Some(_), None, None) => {
            assert(out =~= empty);
            assert(held_keys(next) =~= held_keys(state) + seq![key]);
            assert(empty + held_keys(next) =~= held_keys(next));
        },
        _ => {
            lemma_flushed_keys(state);
            assert(held_keys(next) =~= seq![key]);
        },
    }
}

/// One plain key: the keys of what it writes out, followed by the keys the
/// composer then holds, are the keys held before followed by that key.
proof fn lemma_plain_step(state: Composer, key: char)
    requires
        state.wf(),
        is_plain_key(key),
    ensures
        korean_step(state, key).0.wf(),
        spec_convert_to_english(korean_step(state, key).1) + held_keys(korean_step(state, key).0)
            == held_keys(state) + seq![key],
{
    lemma_plain_key(key);
    let jamo = spec_english_key_to_jamo(key).unwrap();
    assert(korean_step(state, key) == state.after_jamo(jamo));
    match jamo {
        Jamo::Consonant { compatibility, lead, final_index } => {
            lemma_consonant_step(state, compatibility, lead.unwrap(), final_index, key);
        },
        Jamo::Vowel(v) => {
            lemma_vowel_step(state, v, key);
        },
    }
}

/// Joining what was written before and after one key keeps the keys.
proof fn lemma_append_keys(
    written: Seq<char>,
    out: Seq<char>,
    held_before: Seq<char>,
    held_after: Seq<char>,
    typed: Seq<char>,
    key: char,
)
    requires
        spec_convert_to_english(written) + held_before == typed,
        spec_convert_to_english(out) + held_after == held_before + seq![key],
    ensures
        spec_convert_to_english(written + out) + held_after == typed.push(key),
{
    law_english_concat(written, out);
    assert(spec_convert_to_english(written) + spec_convert_to_english(out) + held_after
        =~= spec_convert_to_english(written) + (held_before + seq![key]));
    assert(spec_convert_to_english(written) + (held_before + seq![key]) =~= typed.push(key));
}

/// After a run of plain keys, the keys of what has been written out,
/// followed by the keys the composer holds, are the keys typed.
proof fn lemma_plain_feed(text: Seq<char>)
    requires
        forall|i: int| 0 <= i < text.len() ==> is_plain_key(#[trigger] text[i]),
    ensures
        korean_feed(empty_composer(), text).0.wf(),
        spec_convert_to_english(korean_feed(empty_composer(), text).1) + held_keys(
            korean_feed(empty_composer(), text).0,
        ) == text,
    decreases text.len(),
{
    if text.len() == 0 {
        assert(held_keys(empty_composer()) =~= Seq::<char>::empty());
        assert(spec_convert_to_english(Seq::<char>::empty()) == Seq::<char>::empty());
        assert(Seq::<char>::empty() + Seq::<char>::empty() =~= text);
    } else {
        let init = text.drop_last();
        let key = text.last();
        assert forall|i: int| 0 <= i < init.len() implies is_plain_key(#[trigger] init[i]) by {
            assert(init[i] == text[i]);
        }
        assert(is_plain_key(text[text.len() - 1]));
        lemma_plain_feed(init);
        let fed = korean_feed(empty_composer(), init);
        lemma_plain_step(fed.0, key);
        let stepped = korean_step(fed.0, key);
        lemma_append_keys(fed.1, stepped.1, held_keys(fed.0), held_keys(stepped.0), init, key);
        assert(init.push(key) =~= text);
    }
}

/// Keys typed on the two-set layout come back unchanged when the Korean
/// text they type is converted back to keys, for the keys that type each
/// jamo back as themselves: the lowercase letters and R, E, Q, T, W, O, P.
pub proof fn law_plain_keys_round_trip(text: Seq<char>)
    requires
        forall|i: int| 0 <= i < text.len() ==> is_plain_key(#[trigger] text[i]),
    ensures
        spec_convert_to_english(spec_convert_to_korean(text)) == text,
{
    lemma_plain_feed(text);
    let (state, written) = korean_feed(empty_composer(), text);
    lemma_flushed_keys(state);
    law_english_concat(written, state.flushed());
}

/// The uppercase form of an ASCII lowercase letter.
pub open spec fn uppercase(letter: char) -> char {
    ((letter as u32) - 32) as char
}

/// Every ASCII letter types a jamo on the two-set layout.
pub proof fn law_every_letter_types_a_jamo(key: char)
    requires
        ('a' <= key && key <= 'z') || ('A' <= key && key <= 'Z'),
    ensures
        spec_english_key_to_jamo(key) is Some,
{
}

/// With Caps Lock on, a letter whose Shift form types no other jamo types
/// the same jamo as its lowercase key: only R, E, Q, T, W, O and P differ.
pub proof fn law_caps_lock_types_the_same_jamo(letter: char)
    requires
        'a' <= letter && letter <= 'z',
        letter != 'r' && letter != 'e' && letter != 'q' && letter != 't' && letter != 'w'
            && letter != 'o' && letter != 'p',
    ensures
        spec_english_key_to_jamo(uppercase(letter)) == spec_english_key_to_jamo(letter),
{
}

/// The shifted keys R, E, Q, T, W, O and P type other jamo than their
/// lowercase keys: the tense consonants and ㅒ, ㅖ.
pub proof fn law_shifted_keys_type_other_jamo(letter: char)
    requires
        letter == 'r' || letter == 'e' || letter == 'q' || letter == 't' || letter == 'w'
            || letter == 'o' || letter == 'p',
    ensures
        spec_english_key_to_jamo(uppercase(letter)) is Some,
        spec_english_key_to_jamo(uppercase(letter)) != spec_english_key_to_jamo(letter),
{
}

/// The compatibility jamo that a plain consonant key types is the one shown
/// for its initial when it stands alone, and converting that jamo back gives
/// that very key; a plain vowel key's lone vowel converts back to the key.
pub proof fn law_lone_jamo_convert_back_to_their_key(key: char)
    requires
        is_plain_key(key),
    ensures
        spec_english_key_to_jamo(key) matches Some(Jamo::Consonant { compatibility, lead, .. })
            ==> {
            &&& lead matches Some(l) && spec_lead_jamo(l) == compatibility
            &&& spec_jamo_to_keys(compatibility) matches Some(keys) && keys@ == seq![key]
        },
        spec_english_key_to_jamo(key) matches Some(Jamo::Vowel(v)) ==> spec_jamo_to_keys(
            spec_medial_jamo(v),
        ) matches Some(keys) && keys@ == seq![key],
{
    lemma_plain_key(key);
    match spec_english_key_to_jamo(key).unwrap() {
        Jamo::Consonant { compatibility, lead, final_index } => {
            let keys = spec_jamo_to_keys(compatibility).unwrap();
            assert(keys@ =~= seq![key]);
        },
        Jamo::Vowel(v) => {
            let keys = spec_jamo_to_keys(spec_medial_jamo(v)).unwrap();
            assert(keys@ =~= seq![key]);
        },
    }
}

} // verus!
