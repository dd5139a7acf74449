//! Properties of the conversion that hold for every input.

use vstd::prelude::*;

use super::composer::{empty_composer, Composer};
use super::jamo::{
    is_syllable, spec_combine_finals, spec_combine_vowels, spec_compose_syllable,
    spec_decompose_syllable, spec_english_key_to_jamo, spec_final_keys, spec_final_to_lead,
    spec_jamo_to_keys, spec_lead_keys, spec_medial_keys, spec_split_final, syllable_code, Jamo,
    FINAL_COUNT, HANGUL_BASE, LEAD_COUNT, LEAD_STRIDE, MEDIAL_COUNT,
};
use super::{
    english_of_char, korean_feed, korean_step, spec_convert_to_english, spec_convert_to_korean,
};

verus! {

/// Feeding two runs of characters one after the other is feeding their
/// concatenation.
pub proof fn lemma_korean_feed_concat(start: Composer, a: Seq<char>, b: Seq<char>)
    ensures
        korean_feed(start, a + b) == (
            korean_feed(korean_feed(start, a).0, b).0,
            korean_feed(start, a).1 + korean_feed(korean_feed(start, a).0, b).1,
        ),
    decreases b.len(),
{
    if b.len() == 0 {
        assert(a + b =~= a);
        assert(korean_feed(start, a).1 + seq![] =~= korean_feed(start, a).1);
    } else {
        assert((a + b).drop_last() =~= a + b.drop_last());
        assert((a + b).last() == b.last());
        lemma_korean_feed_concat(start, a, b.drop_last());
        let mid = korean_feed(start, a);
        let rest = korean_feed(mid.0, b.drop_last());
        let step = korean_step(rest.0, b.last());
        assert(mid.1 + rest.1 + step.1 =~= mid.1 + (rest.1 + step.1));
    }
}

proof fn lemma_feed_single(start: Composer, c: char)
    ensures
        korean_feed(start, seq![c]) == korean_step(start, c),
{
    assert(seq![c].drop_last() =~= Seq::<char>::empty());
    assert(korean_feed(start, Seq::<char>::empty()) == (start, Seq::<char>::empty()));
    let step = korean_step(start, c);
    assert(Seq::<char>::empty() + step.1 =~= step.1);
    assert(korean_feed(start, seq![c]).0 == step.0);
    assert(korean_feed(start, seq![c]).1 == step.1);
}

proof fn lemma_feed_pair(start: Composer, c: char, d: char)
    ensures
        korean_feed(start, seq![c, d]) == (
            korean_step(korean_step(start, c).0, d).0,
            korean_step(start, c).1 + korean_step(korean_step(start, c).0, d).1,
        ),
{
    assert(seq![c, d] =~= seq![c] + seq![d]);
    lemma_korean_feed_concat(start, seq![c], seq![d]);
    lemma_feed_single(start, c);
    lemma_feed_single(korean_step(start, c).0, d);
}

proof fn lemma_feed_empty(start: Composer)
    ensures
        korean_feed(start, seq![]) == (start, Seq::<char>::empty()),
{
}

/// The key of an initial consonant starts a syllable with that consonant.
proof fn lemma_lead_key(lead: usize)
    requires
        lead < LEAD_COUNT,
    ensures
        korean_feed(empty_composer(), spec_lead_keys(lead)@) == (
            Composer { lead: Some(lead), medial: None, final_index: None },
            Seq::<char>::empty(),
        ),
{
    let keys = spec_lead_keys(lead);
    assert(keys.len == 1);
    assert(keys@ =~= seq![keys.first]);
    lemma_feed_single(empty_composer(), keys.first);
}

/// The keys of a vowel, typed after an initial consonant, complete the
/// syllable's vowel.
proof fn lemma_medial_keys(lead: usize, medial: usize)
    requires
        lead < LEAD_COUNT,
        medial < MEDIAL_COUNT,
    ensures
        korean_feed(Composer { lead: Some(lead), medial: None, final_index: None }, spec_medial_keys(medial)@)
            == (
            Composer { lead: Some(lead), medial: Some(medial), final_index: None },
            Seq::<char>::empty(),
        ),
{
    let start = Composer { lead: Some(lead), medial: None, final_index: None };
    let keys = spec_medial_keys(medial);
    if keys.len == 1 {
        assert(keys@ =~= seq![keys.first]);
        lemma_feed_single(start, keys.first);
    } else {
        assert(keys.len == 2);
        assert(keys@ =~= seq![keys.first, keys.second]);
        lemma_feed_pair(start, keys.first, keys.second);
        assert(korean_step(start, keys.first).1 =~= Seq::<char>::empty());
    }
}

/// The keys of a final consonant, typed after an initial and a vowel, close
/// the syllable with that final.
proof fn lemma_final_keys(lead: usize, medial: usize, final_index: usize)
    requires
        lead < LEAD_COUNT,
        medial < MEDIAL_COUNT,
        final_index < FINAL_COUNT,
    ensures
        korean_feed(Composer { lead: Some(lead), medial: Some(medial), final_index: None }, spec_final_keys(final_index)@)
            == (
            Composer {
                lead: Some(lead),
                medial: Some(medial),
                final_index: if final_index == 0 { None } else { Some(final_index) },
            },
            Seq::<char>::empty(),
        ),
{
    let start = Composer { lead: Some(lead), medial: Some(medial), final_index: None };
    let keys = spec_final_keys(final_index);
    if keys.len == 0 {
        assert(keys@ =~= Seq::<char>::empty());
        lemma_feed_empty(start);
    } else if keys.len == 1 {
        assert(keys@ =~= seq![keys.first]);
        lemma_feed_single(start, keys.first);
    } else {
        assert(keys.len == 2);
        assert(keys@ =~= seq![keys.first, keys.second]);
        lemma_feed_pair(start, keys.first, keys.second);
        assert(korean_step(start, keys.first).1 =~= Seq::<char>::empty());
    }
}

/// Composing the indices that a syllable decomposes into gives the syllable,
/// and each index lies inside its table.
proof fn lemma_compose_decompose(character: char)
    requires
        is_syllable(character),
    ensures
        spec_decompose_syllable(character) matches Some((l, m, f)) && l < LEAD_COUNT && m
            < MEDIAL_COUNT && f < FINAL_COUNT && spec_compose_syllable(
            l,
            m,
            if f == 0 { None } else { Some(f) },
        ) == character,
{
    let offset = (character as u32 - HANGUL_BASE) as usize;
    let l = offset / LEAD_STRIDE;
    let m = (offset % LEAD_STRIDE) / FINAL_COUNT;
    let f = offset % FINAL_COUNT;
    assert(offset == l * 588 + m * 28 + f) by (nonlinear_arith)
        requires
            l == offset / 588,
            m == (offset % 588) / 28,
            f == offset % 28,
    ;
    assert(l < LEAD_COUNT && m < MEDIAL_COUNT && f < FINAL_COUNT) by (nonlinear_arith)
        requires
            offset <= 0xD7A3 - 0xAC00,
            l == offset / 588,
            m == (offset % 588) / 28,
            f == offset % 28,
    ;
    assert(syllable_code(l as int, m as int, f as int) == character as u32);
}

/// The composer that holds a whole syllable, by its indices.
spec fn holding(lead: usize, medial: usize, final_index: usize) -> Composer {
    Composer {
        lead: Some(lead),
        medial: Some(medial),
        final_index: if final_index == 0 { None } else { Some(final_index) },
    }
}

/// The composer that holds a whole precomposed syllable.
spec fn holding_syllable(character: char) -> Composer {
    let (l, m, f) = spec_decompose_syllable(character).unwrap();
    holding(l, m, f)
}

/// The keys of a syllable, typed on an empty composer, leave the composer
/// holding that syllable and write nothing yet.
proof fn lemma_syllable_keys(lead: usize, medial: usize, final_index: usize)
    requires
        lead < LEAD_COUNT,
        medial < MEDIAL_COUNT,
        final_index < FINAL_COUNT,
    ensures
        korean_feed(
            empty_composer(),
            spec_lead_keys(lead)@ + spec_medial_keys(medial)@ + spec_final_keys(final_index)@,
        ) == (holding(lead, medial, final_index), Seq::<char>::empty()),
{
    lemma_lead_key(lead);
    lemma_medial_keys(lead, medial);
    lemma_final_keys(lead, medial, final_index);
    lemma_korean_feed_concat(empty_composer(), spec_lead_keys(lead)@, spec_medial_keys(medial)@);
    lemma_korean_feed_concat(
        empty_composer(),
        spec_lead_keys(lead)@ + spec_medial_keys(medial)@,
        spec_final_keys(final_index)@,
    );
    assert(Seq::<char>::empty() + Seq::<char>::empty() =~= Seq::<char>::empty());
}

/// The key of an initial consonant types that consonant; where it can also
/// close a syllable, it does so as a single final that moves back to the
/// same initial.
proof fn lemma_lead_key_table(lead: usize)
    requires
        lead < LEAD_COUNT,
    ensures
        spec_english_key_to_jamo(spec_lead_keys(lead).first) matches Some(
            Jamo::Consonant { compatibility, lead: typed_lead, final_index },
        ) && typed_lead == Some(lead) && (final_index matches Some(p) ==> spec_split_final(p) is None
            && spec_final_to_lead(p) == Some(lead)),
{
}

/// A final cluster splits back into the final and the initial it was made of.
proof fn lemma_cluster_splits(first: usize, second: usize)
    requires
        spec_combine_finals(first, second) is Some,
    ensures
        spec_split_final(spec_combine_finals(first, second).unwrap()) == Some(
            (first, spec_final_to_lead(second).unwrap()),
        ),
{
}

/// The first key of a vowel types a vowel; a second key, where there is one,
/// types the vowel that completes the compound.
proof fn lemma_medial_key_table(medial: usize)
    requires
        medial < MEDIAL_COUNT,
    ensures
        spec_medial_keys(medial).len == 1 ==> spec_english_key_to_jamo(spec_medial_keys(medial).first)
            == Some(Jamo::Vowel(medial)),
        spec_medial_keys(medial).len == 2 ==> (spec_english_key_to_jamo(
            spec_medial_keys(medial).first,
        ) matches Some(Jamo::Vowel(v)) && v < MEDIAL_COUNT && (spec_english_key_to_jamo(
            spec_medial_keys(medial).second,
        ) matches Some(Jamo::Vowel(w)) && spec_combine_vowels(v, w) == Some(medial))),
        spec_medial_keys(medial).len == 1 || spec_medial_keys(medial).len == 2,
{
}

/// After a whole syllable, the key of an initial and then a vowel key write
/// that syllable out and start the next one with that initial and vowel,
/// whether the initial's key was first taken as a final or not.
proof fn lemma_lead_then_vowel(previous: Composer, lead: usize, vowel_key: char, vowel: usize)
    requires
        previous.wf(),
        previous.lead is Some,
        previous.medial is Some,
        lead < LEAD_COUNT,
        spec_english_key_to_jamo(vowel_key) == Some(Jamo::Vowel(vowel)),
        vowel < MEDIAL_COUNT,
    ensures
        ({
            let a = korean_step(previous, spec_lead_keys(lead).first);
            let b = korean_step(a.0, vowel_key);
            b.0 == (Composer { lead: Some(lead), medial: Some(vowel), final_index: None }) && a.1
                + b.1 == previous.flushed()
        }),
{
    lemma_lead_key_table(lead);
    let a = korean_step(previous, spec_lead_keys(lead).first);
    let b = korean_step(a.0, vowel_key);
    match previous.final_index {
        Some(current) => {
            match spec_english_key_to_jamo(spec_lead_keys(lead).first) {
                Some(Jamo::Consonant { compatibility, lead: _, final_index }) => {
                    if final_index is Some && spec_combine_finals(current, final_index.unwrap()) is Some {
                        lemma_cluster_splits(current, final_index.unwrap());
                    }
                },
                _ => {},
            }
        },
        None => {},
    }
    assert(a.1 + b.1 =~= previous.flushed());
}

/// After a whole syllable, the keys of another syllable write the first one
/// out and leave the composer holding the second.
proof fn lemma_syllable_keys_after(previous: Composer, lead: usize, medial: usize, final_index: usize)
    requires
        previous.wf(),
        previous.lead is Some,
        previous.medial is Some,
        lead < LEAD_COUNT,
        medial < MEDIAL_COUNT,
        final_index < FINAL_COUNT,
    ensures
        korean_feed(
            previous,
            spec_lead_keys(lead)@ + spec_medial_keys(medial)@ + spec_final_keys(final_index)@,
        ) == (holding(lead, medial, final_index), previous.flushed()),
{
    let lk = spec_lead_keys(lead);
    let mk = spec_medial_keys(medial);
    lemma_medial_key_table(medial);
    let v = match spec_english_key_to_jamo(mk.first) {
        Some(Jamo::Vowel(v)) => v,
        _ => 0,
    };
    let head = seq![lk.first, mk.first];
    let tail = if mk.len == 2 { seq![mk.second] } else { Seq::<char>::empty() };
    assert(lk@ + mk@ =~= head + tail);
    lemma_feed_pair(previous, lk.first, mk.first);
    lemma_lead_then_vowel(previous, lead, mk.first, v);
    let started = Composer { lead: Some(lead), medial: Some(v), final_index: None };
    let after_vowel = Composer { lead: Some(lead), medial: Some(medial), final_index: None };
    if mk.len == 2 {
        lemma_feed_single(started, mk.second);
    } else {
        lemma_feed_empty(started);
    }
    assert(korean_feed(started, tail) == (after_vowel, Seq::<char>::empty()));
    lemma_korean_feed_concat(previous, head, tail);
    lemma_final_keys(lead, medial, final_index);
    lemma_korean_feed_concat(previous, head + tail, spec_final_keys(final_index)@);
    assert(previous.flushed() + Seq::<char>::empty() + Seq::<char>::empty() =~= previous.flushed());
}

/// The keys of a run of syllables leave the composer holding the last one,
/// with all the others written out.
proof fn lemma_syllables_keys(text: Seq<char>)
    requires
        text.len() > 0,
        forall|i: int| 0 <= i < text.len() ==> is_syllable(#[trigger] text[i]),
    ensures
        korean_feed(empty_composer(), spec_convert_to_english(text)) == (
            holding_syllable(text.last()),
            text.drop_last(),
        ),
    decreases text.len(),
{
    let init = text.drop_last();
    let last = text.last();
    assert(is_syllable(text[text.len() - 1]));
    lemma_compose_decompose(last);
    let (l, m, f) = spec_decompose_syllable(last).unwrap();
    let keys = spec_lead_keys(l)@ + spec_medial_keys(m)@ + spec_final_keys(f)@;
    assert(english_of_char(last) == keys);
    if init.len() == 0 {
        assert(spec_convert_to_english(init) == Seq::<char>::empty());
        assert(spec_convert_to_english(text) =~= keys);
        lemma_syllable_keys(l, m, f);
        assert(text.drop_last() =~= Seq::<char>::empty());
    } else {
        assert forall|i: int| 0 <= i < init.len() implies is_syllable(#[trigger] init[i]) by {
            assert(init[i] == text[i]);
        }
        lemma_syllables_keys(init);
        let previous_char = init.last();
        assert(is_syllable(init[init.len() - 1]));
        lemma_compose_decompose(previous_char);
        let previous = holding_syllable(previous_char);
        lemma_syllable_keys_after(previous, l, m, f);
        lemma_korean_feed_concat(empty_composer(), spec_convert_to_english(init), keys);
        assert(previous.flushed() =~= seq![previous_char]);
        assert(init.drop_last() + seq![previous_char] =~= init);
    }
}

/// Any run of modern Hangul syllables survives a trip through its QWERTY
/// keys: the keys that type it type it back, syllable for syllable.
pub proof fn law_syllables_round_trip(text: Seq<char>)
    requires
        forall|i: int| 0 <= i < text.len() ==> is_syllable(#[trigger] text[i]),
    ensures
        spec_convert_to_korean(spec_convert_to_english(text)) == text,
{
    if text.len() == 0 {
        law_empty_text();
    } else {
        lemma_syllables_keys(text);
        assert(is_syllable(text[text.len() - 1]));
        lemma_compose_decompose(text.last());
        assert(holding_syllable(text.last()).flushed() =~= seq![text.last()]);
        assert(text.drop_last() + seq![text.last()] =~= text);
    }
}

/// Every modern Hangul syllable survives a trip through its QWERTY keys: the
/// keys that type it type it back.
pub proof fn law_syllable_round_trip(character: char)
    requires
        is_syllable(character),
    ensures
        spec_convert_to_korean(spec_convert_to_english(seq![character])) == seq![character],
{
    lemma_compose_decompose(character);
    let (l, m, f) = spec_decompose_syllable(character).unwrap();
    assert(seq![character].drop_last() =~= Seq::<char>::empty());
    assert(spec_convert_to_english(Seq::<char>::empty()) == Seq::<char>::empty());
    let keys = spec_convert_to_english(seq![character]);
    assert(keys =~= spec_lead_keys(l)@ + spec_medial_keys(m)@ + spec_final_keys(f)@);
    lemma_syllable_keys(l, m, f);
    assert(spec_convert_to_korean(keys) =~= seq![character]);
}

/// Converting an empty text gives an empty text, in both directions.
pub proof fn law_empty_text()
    ensures
        spec_convert_to_korean(Seq::<char>::empty()) == Seq::<char>::empty(),
        spec_convert_to_english(Seq::<char>::empty()) == Seq::<char>::empty(),
{
    lemma_feed_empty(empty_composer());
    assert(empty_composer().flushed() =~= Seq::<char>::empty());
    assert(Seq::<char>::empty() + Seq::<char>::empty() =~= Seq::<char>::empty());
}

/// A character that no key types ends the syllable before it and is copied:
/// converting to Korean splits at it.
pub proof fn law_korean_splits_at_non_key(a: Seq<char>, character: char, b: Seq<char>)
    requires
        spec_english_key_to_jamo(character) is None,
    ensures
        spec_convert_to_korean(a + seq![character] + b) == spec_convert_to_korean(a) + seq![
            character,
        ] + spec_convert_to_korean(b),
{
    let e = empty_composer();
    lemma_korean_feed_concat(e, a, seq![character]);
    lemma_korean_feed_concat(e, a + seq![character], b);
    lemma_feed_single(korean_feed(e, a).0, character);
    let fa = korean_feed(e, a);
    let fb = korean_feed(e, b);
    assert(korean_feed(e, a + seq![character]).0 == e);
    assert(korean_feed(e, a + seq![character]).1 =~= fa.1 + fa.0.flushed().push(character));
    assert(spec_convert_to_korean(a + seq![character] + b) =~= fa.1 + fa.0.flushed() + seq![
        character,
    ] + fb.1 + fb.0.flushed());
}

/// Converting to QWERTY keys works character by character: the keys of a
/// concatenation are the concatenation of the keys.
pub proof fn law_english_concat(a: Seq<char>, b: Seq<char>)
    ensures
        spec_convert_to_english(a + b) == spec_convert_to_english(a) + spec_convert_to_english(b),
    decreases b.len(),
{
    if b.len() == 0 {
        assert(a + b =~= a);
        assert(spec_convert_to_english(a) + Seq::<char>::empty() =~= spec_convert_to_english(a));
    } else {
        assert((a + b).drop_last() =~= a + b.drop_last());
        assert((a + b).last() == b.last());
        law_english_concat(a, b.drop_last());
        assert(spec_convert_to_english(a) + spec_convert_to_english(b.drop_last())
            + english_of_char(b.last()) =~= spec_convert_to_english(a) + (spec_convert_to_english(
            b.drop_last(),
        ) + english_of_char(b.last())));
    }
}

/// A text in which no character is typed by a key is unchanged by converting
/// to Korean.
pub proof fn law_korean_keeps_text_without_keys(text: Seq<char>)
    requires
        forall|i: int| 0 <= i < text.len() ==> spec_english_key_to_jamo(#[trigger] text[i]) is None,
    ensures
        spec_convert_to_korean(text) == text,
    decreases text.len(),
{
    if text.len() == 0 {
        law_empty_text();
    } else {
        let init = text.drop_last();
        law_korean_keeps_text_without_keys(init);
        law_empty_text();
        assert(spec_english_key_to_jamo(text[text.len() - 1]) is None);
        law_korean_splits_at_non_key(init, text.last(), Seq::<char>::empty());
        assert(init + seq![text.last()] + Seq::<char>::empty() =~= text);
        assert(init + seq![text.last()] + Seq::<char>::empty() =~= text);
    }
}

/// A text with no Hangul syllable and no jamo is unchanged by converting to
/// QWERTY keys.
pub proof fn law_english_keeps_text_without_hangul(text: Seq<char>)
    requires
        forall|i: int|
            0 <= i < text.len() ==> !is_syllable(#[trigger] text[i]) && spec_jamo_to_keys(text[i]) is None,
    ensures
        spec_convert_to_english(text) == text,
    decreases text.len(),
{
    if text.len() > 0 {
        law_english_keeps_text_without_hangul(text.drop_last());
        assert(!is_syllable(text[text.len() - 1]));
        assert(text.drop_last().push(text.last()) =~= text);
    } else {
        assert(text =~= Seq::<char>::empty());
    }
}

} // verus!
