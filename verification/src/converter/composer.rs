//! Incremental composition of jamo into precomposed Hangul syllables.

use vstd::prelude::*;

use crate::text::push_char;

use super::jamo::{
    combine_finals, combine_vowels, compose_syllable, final_to_lead, lead_jamo, medial_jamo,
    spec_combine_finals, spec_combine_vowels, spec_compose_syllable, spec_final_to_lead,
    spec_lead_jamo, spec_medial_jamo, spec_split_final, split_final, Jamo, FINAL_COUNT,
    LEAD_COUNT, MEDIAL_COUNT,
};

verus! {

/// The syllable under construction: its initial consonant, vowel and final
/// consonant, each by index, where typed so far.
#[derive(Clone, Copy, Debug, PartialEq, Eq)]
pub struct Composer {
    pub lead: Option<usize>,
    pub medial: Option<usize>,
    pub final_index: Option<usize>,
}

/// The composer that holds nothing.
pub open spec fn empty_composer() -> Composer {
    Composer { lead: None, medial: None, final_index: None }
}

/// The composer that holds a single initial consonant, or nothing while the
/// consonant cannot start a syllable (it is then written out as it is).
pub open spec fn begin_consonant(compatibility: char, lead: Option<usize>) -> (Composer, Seq<char>) {
    match lead {
        Some(l) => (Composer { lead: Some(l), medial: None, final_index: None }, seq![]),
        None => (empty_composer(), seq![compatibility]),
    }
}

impl Composer {
    /// Indices lie inside their tables, and a final is held only after an
    /// initial consonant and a vowel.
    pub open spec fn wf(self) -> bool {
        &&& (self.lead matches Some(l) ==> l < LEAD_COUNT)
        &&& (self.medial matches Some(m) ==> m < MEDIAL_COUNT)
        &&& (self.final_index matches Some(f) ==> {
            &&& 1 <= f < FINAL_COUNT
            &&& self.lead is Some
            &&& self.medial is Some
        })
    }

    /// What the composer writes out when the syllable ends here: the syllable
    /// where it has an initial and a vowel, else the lone jamo it holds.
    pub open spec fn flushed(self) -> Seq<char> {
        match (self.lead, self.medial) {
            (Some(l), Some(m)) => seq![spec_compose_syllable(l, m, self.final_index)],
            (Some(l), None) => seq![spec_lead_jamo(l)],
            (None, Some(m)) => seq![spec_medial_jamo(m)],
            (None, None) => seq![],
        }
    }

    /// The composer and the characters written after a consonant key.
    pub open spec fn after_consonant(
        self,
        compatibility: char,
        lead: Option<usize>,
        possible_final: Option<usize>,
    ) -> (Composer, Seq<char>) {
        let restart = begin_consonant(compatibility, lead);
        let flush_then_restart = (restart.0, self.flushed() + restart.1);
        match (self.lead, self.medial, self.final_index) {
            (None, None, None) => restart,
            (Some(_), None, None) => flush_then_restart,
            (None, Some(_), None) => flush_then_restart,
            (Some(_), Some(_), None) => match possible_final {
                Some(f) => (Composer { final_index: Some(f), ..self }, seq![]),
                None => flush_then_restart,
            },
            (Some(_), Some(_), Some(current)) => match possible_final {
                Some(next) => match spec_combine_finals(current, next) {
                    Some(cluster) => (Composer { final_index: Some(cluster), ..self }, seq![]),
                    None => flush_then_restart,
                },
                None => flush_then_restart,
            },
            _ => (empty_composer(), self.flushed().push(compatibility)),
        }
    }

    /// The composer and the characters written after a vowel key.
    pub open spec fn after_vowel(self, vowel: usize) -> (Composer, Seq<char>) {
        let lone_vowel = Composer { lead: None, medial: Some(vowel), final_index: None };
        match (self.lead, self.medial, self.final_index) {
            (None, None, None) => (Composer { medial: Some(vowel), ..self }, seq![]),
            (Some(_), None, None) => (Composer { medial: Some(vowel), ..self }, seq![]),
            (_, Some(current), None) => match spec_combine_vowels(current, vowel) {
                Some(combined) => (Composer { medial: Some(combined), ..self }, seq![]),
                None => (lone_vowel, self.flushed()),
            },
            (Some(l), Some(m), Some(f)) => match spec_split_final(f) {
                Some((remaining, next_lead)) => (
                    Composer { lead: Some(next_lead), medial: Some(vowel), final_index: None },
                    seq![spec_compose_syllable(l, m, Some(remaining))],
                ),
                None => match spec_final_to_lead(f) {
                    Some(next_lead) => (
                        Composer { lead: Some(next_lead), medial: Some(vowel), final_index: None },
                        seq![spec_compose_syllable(l, m, None)],
                    ),
                    None => (lone_vowel, seq![spec_compose_syllable(l, m, Some(f))]),
                },
            },
            _ => (lone_vowel, self.flushed()),
        }
    }

    /// The composer and the characters written after one jamo.
    pub open spec fn after_jamo(self, jamo: Jamo) -> (Composer, Seq<char>) {
        match jamo {
            Jamo::Consonant { compatibility, lead, final_index } => self.after_consonant(
                compatibility,
                lead,
                final_index,
            ),
            Jamo::Vowel(v) => self.after_vowel(v),
        }
    }

    pub fn new() -> (r: Composer)
        ensures
            r == empty_composer(),
    {
        Composer { lead: None, medial: None, final_index: None }
    }

    /// Writes out what the composer holds and empties it.
    pub fn flush(&mut self, output: &mut String)
        requires
            old(self).wf(),
        ensures
            *final(self) == empty_composer(),
            final(output)@ == old(output)@ + old(self).flushed(),
    {
        match (self.lead, self.medial) {
            (Some(lead), Some(medial)) => {
                push_char(output, compose_syllable(lead, medial, self.final_index));
            },
            (Some(lead), None) => push_char(output, lead_jamo(lead)),
            (None, Some(medial)) => push_char(output, medial_jamo(medial)),
            (None, None) => {},
        }
        assert(output@ =~= old(output)@ + old(self).flushed());
        self.lead = None;
        self.medial = None;
        self.final_index = None;
    }

    fn begin(&mut self, compatibility: char, lead: Option<usize>, output: &mut String)
        requires
            *old(self) == empty_composer(),
            lead matches Some(l) ==> l < LEAD_COUNT,
        ensures
            *final(self) == begin_consonant(compatibility, lead).0,
            final(output)@ == old(output)@ + begin_consonant(compatibility, lead).1,
    {
        if let Some(lead) = lead {
            self.lead = Some(lead);
            assert(output@ =~= old(output)@ + seq![]);
        } else {
            push_char(output, compatibility);
            assert(output@ =~= old(output)@ + seq![compatibility]);
        }
    }

    /// Adds a consonant key.
    pub fn push_consonant(
        &mut self,
        compatibility: char,
        lead: Option<usize>,
        possible_final: Option<usize>,
        output: &mut String,
    )
        requires
            old(self).wf(),
            (Jamo::Consonant { compatibility, lead, final_index: possible_final }).wf(),
        ensures
            final(self).wf(),
            *final(self) == old(self).after_consonant(compatibility, lead, possible_final).0,
            final(output)@ == old(output)@ + old(self).after_consonant(
                compatibility,
                lead,
                possible_final,
            ).1,
    {
        let ghost start = *self;
        let ghost before = output@;
        match (self.lead, self.medial, self.final_index) {
            (None, None, None) => {
                self.begin(compatibility, lead, output);
            },
            (Some(_), None, None) | (None, Some(_), None) => {
                self.flush(output);
                self.begin(compatibility, lead, output);
                assert(output@ =~= before + (start.flushed() + begin_consonant(compatibility, lead).1));
            },
            (Some(_), Some(_), None) => {
                if let Some(final_index) = possible_final {
                    self.final_index = Some(final_index);
                    assert(output@ =~= before + seq![]);
                } else {
                    self.flush(output);
                    self.begin(compatibility, lead, output);
                    assert(output@ =~= before + (start.flushed() + begin_consonant(compatibility, lead).1));
                }
            },
            (Some(_), Some(_), Some(current_final)) => {
                let next_final = match possible_final {
                    Some(next) => combine_finals(current_final, next),
                    None => None,
                };
                if let Some(next_final) = next_final {
                    self.final_index = Some(next_final);
                    assert(output@ =~= before + seq![]);
                } else {
                    self.flush(output);
                    self.begin(compatibility, lead, output);
                    assert(output@ =~= before + (start.flushed() + begin_consonant(compatibility, lead).1));
                }
            },
            _ => {
                self.flush(output);
                push_char(output, compatibility);
                assert(output@ =~= before + start.flushed().push(compatibility));
            },
        }
    }

    /// Adds a vowel key.
    pub fn push_vowel(&mut self, vowel: usize, output: &mut String)
        requires
            old(self).wf(),
            vowel < MEDIAL_COUNT,
        ensures
            final(self).wf(),
            *final(self) == old(self).after_vowel(vowel).0,
            final(output)@ == old(output)@ + old(self).after_vowel(vowel).1,
    {
        let ghost start = *self;
        let ghost before = output@;
        match (self.lead, self.medial, self.final_index) {
            (None, None, None) => {
                self.medial = Some(vowel);
                assert(output@ =~= before + seq![]);
            },
            (Some(_), None, None) => {
                self.medial = Some(vowel);
                assert(output@ =~= before + seq![]);
            },
            (None, Some(current), None) | (Some(_), Some(current), None) => {
                if let Some(combined) = combine_vowels(current, vowel) {
                    self.medial = Some(combined);
                    assert(output@ =~= before + seq![]);
                } else {
                    self.flush(output);
                    self.medial = Some(vowel);
                }
            },
            (Some(lead), Some(medial), Some(final_index)) => {
                if let Some((remaining_final, next_lead)) = split_final(final_index) {
                    push_char(output, compose_syllable(lead, medial, Some(remaining_final)));
                    self.lead = Some(next_lead);
                } else if let Some(next_lead) = final_to_lead(final_index) {
                    push_char(output, compose_syllable(lead, medial, None));
                    self.lead = Some(next_lead);
                } else {
                    push_char(output, compose_syllable(lead, medial, Some(final_index)));
                    self.lead = None;
                }
                self.medial = Some(vowel);
                self.final_index = None;
                assert(output@ =~= before + start.after_vowel(vowel).1);
            },
            _ => {
                self.flush(output);
                self.medial = Some(vowel);
            },
        }
    }

    /// Adds the jamo that one key types.
    pub fn push(&mut self, jamo: Jamo, output: &mut String)
        requires
            old(self).wf(),
            jamo.wf(),
        ensures
            final(self).wf(),
            *final(self) == old(self).after_jamo(jamo).0,
            final(output)@ == old(output)@ + old(self).after_jamo(jamo).1,
    {
        match jamo {
            Jamo::Consonant { compatibility, lead, final_index } => {
                self.push_consonant(compatibility, lead, final_index, output)
            },
            Jamo::Vowel(medial) => self.push_vowel(medial, output),
        }
    }
}

} // verus!
