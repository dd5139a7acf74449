//! Jamo tables of the two-set Korean layout and the arithmetic of the
//! precomposed Hangul syllable block.

use vstd::prelude::*;

use crate::text::{char_from_u32, is_scalar_value};

verus! {

/// First code point of the precomposed Hangul syllable block (가).
pub const HANGUL_BASE: u32 = 0xAC00;
/// Last code point of the precomposed Hangul syllable block (힣).
pub const HANGUL_END: u32 = 0xD7A3;
/// Number of initial consonants.
pub const LEAD_COUNT: usize = 19;
/// Number of vowels.
pub const MEDIAL_COUNT: usize = 21;
/// Number of final-consonant slots, the empty final included.
pub const FINAL_COUNT: usize = 28;
/// Number of syllables that share one initial consonant (vowels times finals).
pub const LEAD_STRIDE: usize = 588;

/// A run of at most two QWERTY keys.
#[derive(Clone, Copy, Debug, PartialEq, Eq)]
pub struct Keys {
    pub len: usize,
    pub first: char,
    pub second: char,
}

impl View for Keys {
    type V = Seq<char>;

    open spec fn view(&self) -> Seq<char> {
        if self.len == 0 {
            seq![]
        } else if self.len == 1 {
            seq![self.first]
        } else {
            seq![self.first, self.second]
        }
    }
}

/// What one key types on the two-set layout.
#[derive(Clone, Copy, Debug, PartialEq, Eq)]
pub enum Jamo {
    /// A consonant: its compatibility jamo, its index as an initial consonant,
    /// and its index as a final consonant where it can close a syllable.
    Consonant { compatibility: char, lead: Option<usize>, final_index: Option<usize> },
    /// A vowel, by its index.
    Vowel(usize),
}

impl Jamo {
    /// Every index that the jamo carries lies inside its table, and a final
    /// index is never the empty final.
    pub open spec fn wf(self) -> bool {
        match self {
            Jamo::Consonant { compatibility, lead, final_index } => {
                &&& (lead matches Some(l) ==> l < LEAD_COUNT)
                &&& (final_index matches Some(f) ==> 1 <= f < FINAL_COUNT)
            },
            Jamo::Vowel(v) => v < MEDIAL_COUNT,
        }
    }
}

/// The code point of the syllable made of an initial, a vowel and a final.
pub open spec fn syllable_code(lead: int, medial: int, final_index: int) -> int {
    HANGUL_BASE + lead * LEAD_STRIDE + medial * FINAL_COUNT + final_index
}

/// The precomposed syllable of an initial, a vowel and an optional final.
pub open spec fn spec_compose_syllable(lead: usize, medial: usize, final_index: Option<usize>) -> char {
    let f: int = match final_index {
        Some(f) => f as int,
        None => 0,
    };
    syllable_code(lead as int, medial as int, f) as char
}

/// Executable form of [`spec_compose_syllable`].
pub fn compose_syllable(lead: usize, medial: usize, final_index: Option<usize>) -> (r: char)
    requires
        lead < LEAD_COUNT,
        medial < MEDIAL_COUNT,
        final_index matches Some(f) ==> f < FINAL_COUNT,
    ensures
        r == spec_compose_syllable(lead, medial, final_index),
{
    let f: usize = match final_index {
        Some(f) => f,
        None => 0,
    };
    let offset: usize = lead * LEAD_STRIDE + medial * FINAL_COUNT + f;
    let code: u32 = HANGUL_BASE + offset as u32;
    assert(is_scalar_value(code));
    char_from_u32(code).unwrap()
}

/// Whether a character lies in the precomposed Hangul syllable block.
pub open spec fn is_syllable(character: char) -> bool {
    HANGUL_BASE <= character as u32 <= HANGUL_END
}

/// The initial, vowel and final indices of a precomposed syllable.
pub open spec fn spec_decompose_syllable(character: char) -> Option<(usize, usize, usize)> {
    if is_syllable(character) {
        let offset = (character as u32 - HANGUL_BASE) as usize;
        Some(
            (
                offset / LEAD_STRIDE,
                (offset % LEAD_STRIDE) / FINAL_COUNT,
                offset % FINAL_COUNT,
            ),
        )
    } else {
        None
    }
}

/// Executable form of [`spec_decompose_syllable`].
pub fn decompose_syllable(character: char) -> (r: Option<(usize, usize, usize)>)
    ensures
        r == spec_decompose_syllable(character),
        r matches Some((l, m, f)) ==> l < LEAD_COUNT && m < MEDIAL_COUNT && f < FINAL_COUNT,
{
    let code = character as u32;
    if code < HANGUL_BASE || code > HANGUL_END {
        return None;
    }
    let offset = (code - HANGUL_BASE) as usize;
    let lead = offset / LEAD_STRIDE;
    let medial = (offset % LEAD_STRIDE) / FINAL_COUNT;
    let final_index = offset % FINAL_COUNT;
    Some((lead, medial, final_index))
}

/// The keys for a conjoining jamo (U+1100 block): initial consonants
/// U+1100..=U+1112, vowels U+1161..=U+1175, finals U+11A8..=U+11C2.
pub open spec fn spec_conjoining_jamo_keys(character: char) -> Option<Keys> {
    let code = character as u32;
    if 0x1100 <= code <= 0x1112 {
        Some(spec_lead_keys((code - 0x1100) as usize))
    } else if 0x1161 <= code <= 0x1175 {
        Some(spec_medial_keys((code - 0x1161) as usize))
    } else if 0x11A8 <= code <= 0x11C2 {
        Some(spec_final_keys((code - 0x11A7) as usize))
    } else {
        None
    }
}

/// Executable form of [`spec_conjoining_jamo_keys`].
pub fn conjoining_jamo_to_keys(character: char) -> (r: Option<Keys>)
    ensures
        r == spec_conjoining_jamo_keys(character),
{
    let code = character as u32;
    if 0x1100 <= code && code <= 0x1112 {
        return Some(lead_keys((code - 0x1100) as usize));
    }
    if 0x1161 <= code && code <= 0x1175 {
        return Some(medial_keys((code - 0x1161) as usize));
    }
    if 0x11A8 <= code && code <= 0x11C2 {
        return Some(final_keys((code - 0x11A7) as usize));
    }
    None
}

/// The keys for a jamo that stands alone: a compatibility jamo, else a
/// conjoining jamo.
pub open spec fn spec_jamo_to_keys(character: char) -> Option<Keys> {
    match spec_compatibility_jamo_keys(character) {
        Some(keys) => Some(keys),
        None => spec_conjoining_jamo_keys(character),
    }
}

/// Executable form of [`spec_jamo_to_keys`].
pub fn jamo_to_keys(character: char) -> (r: Option<Keys>)
    ensures
        r == spec_jamo_to_keys(character),
{
    match compatibility_jamo_keys(character) {
        Some(keys) => Some(keys),
        None => conjoining_jamo_to_keys(character),
    }
}

/// The compatibility jamo of each initial consonant, in syllable-index order.
pub open spec fn spec_lead_jamo(index: usize) -> char {
    match index {
        0 => 'ㄱ',
        1 => 'ㄲ',
        2 => 'ㄴ',
        3 => 'ㄷ',
        4 => 'ㄸ',
        5 => 'ㄹ',
        6 => 'ㅁ',
        7 => 'ㅂ',
        8 => 'ㅃ',
        9 => 'ㅅ',
        10 => 'ㅆ',
        11 => 'ㅇ',
        12 => 'ㅈ',
        13 => 'ㅉ',
        14 => 'ㅊ',
        15 => 'ㅋ',
        16 => 'ㅌ',
        17 => 'ㅍ',
        18 => 'ㅎ',
        _ => '\0',
    }
}

/// Executable form of [`spec_lead_jamo`].
pub fn lead_jamo(index: usize) -> (r: char)
    requires
        index < LEAD_COUNT,
    ensures
        r == spec_lead_jamo(index),
{
    match index {
        0 => 'ㄱ',
        1 => 'ㄲ',
        2 => 'ㄴ',
        3 => 'ㄷ',
        4 => 'ㄸ',
        5 => 'ㄹ',
        6 => 'ㅁ',
        7 => 'ㅂ',
        8 => 'ㅃ',
        9 => 'ㅅ',
        10 => 'ㅆ',
        11 => 'ㅇ',
        12 => 'ㅈ',
        13 => 'ㅉ',
        14 => 'ㅊ',
        15 => 'ㅋ',
        16 => 'ㅌ',
        17 => 'ㅍ',
        18 => 'ㅎ',
        _ => '\0',
    }
}

/// The compatibility jamo of each vowel, in syllable-index order.
pub open spec fn spec_medial_jamo(index: usize) -> char {
    match index {
        0 => 'ㅏ',
        1 => 'ㅐ',
        2 => 'ㅑ',
        3 => 'ㅒ',
        4 => 'ㅓ',
        5 => 'ㅔ',
        6 => 'ㅕ',
        7 => 'ㅖ',
        8 => 'ㅗ',
        9 => 'ㅘ',
        10 => 'ㅙ',
        11 => 'ㅚ',
        12 => 'ㅛ',
        13 => 'ㅜ',
        14 => 'ㅝ',
        15 => 'ㅞ',
        16 => 'ㅟ',
        17 => 'ㅠ',
        18 => 'ㅡ',
        19 => 'ㅢ',
        20 => 'ㅣ',
        _ => '\0',
    }
}

/// Executable form of [`spec_medial_jamo`].
pub fn medial_jamo(index: usize) -> (r: char)
    requires
        index < MEDIAL_COUNT,
    ensures
        r == spec_medial_jamo(index),
{
    match index {
        0 => 'ㅏ',
        1 => 'ㅐ',
        2 => 'ㅑ',
        3 => 'ㅒ',
        4 => 'ㅓ',
        5 => 'ㅔ',
        6 => 'ㅕ',
        7 => 'ㅖ',
        8 => 'ㅗ',
        9 => 'ㅘ',
        10 => 'ㅙ',
        11 => 'ㅚ',
        12 => 'ㅛ',
        13 => 'ㅜ',
        14 => 'ㅝ',
        15 => 'ㅞ',
        16 => 'ㅟ',
        17 => 'ㅠ',
        18 => 'ㅡ',
        19 => 'ㅢ',
        20 => 'ㅣ',
        _ => '\0',
    }
}

/// The compatibility jamo of each final consonant; index 0 stands for no final.
pub open spec fn spec_final_jamo(index: usize) -> char {
    match index {
        0 => '\0',
        1 => 'ㄱ',
        2 => 'ㄲ',
        3 => 'ㄳ',
        4 => 'ㄴ',
        5 => 'ㄵ',
        6 => 'ㄶ',
        7 => 'ㄷ',
        8 => 'ㄹ',
        9 => 'ㄺ',
        10 => 'ㄻ',
        11 => 'ㄼ',
        12 => 'ㄽ',
        13 => 'ㄾ',
        14 => 'ㄿ',
        15 => 'ㅀ',
        16 => 'ㅁ',
        17 => 'ㅂ',
        18 => 'ㅄ',
        19 => 'ㅅ',
        20 => 'ㅆ',
        21 => 'ㅇ',
        22 => 'ㅈ',
        23 => 'ㅊ',
        24 => 'ㅋ',
        25 => 'ㅌ',
        26 => 'ㅍ',
        27 => 'ㅎ',
        _ => '\0',
    }
}

/// Executable form of [`spec_final_jamo`].
pub fn final_jamo(index: usize) -> (r: char)
    requires
        index < FINAL_COUNT,
    ensures
        r == spec_final_jamo(index),
{
    match index {
        0 => '\0',
        1 => 'ㄱ',
        2 => 'ㄲ',
        3 => 'ㄳ',
        4 => 'ㄴ',
        5 => 'ㄵ',
        6 => 'ㄶ',
        7 => 'ㄷ',
        8 => 'ㄹ',
        9 => 'ㄺ',
        10 => 'ㄻ',
        11 => 'ㄼ',
        12 => 'ㄽ',
        13 => 'ㄾ',
        14 => 'ㄿ',
        15 => 'ㅀ',
        16 => 'ㅁ',
        17 => 'ㅂ',
        18 => 'ㅄ',
        19 => 'ㅅ',
        20 => 'ㅆ',
        21 => 'ㅇ',
        22 => 'ㅈ',
        23 => 'ㅊ',
        24 => 'ㅋ',
        25 => 'ㅌ',
        26 => 'ㅍ',
        27 => 'ㅎ',
        _ => '\0',
    }
}

/// The two-set key that types each initial consonant.
pub open spec fn spec_lead_keys(index: usize) -> Keys {
    match index {
        0 => Keys { len: 1, first: 'r', second: '\0' },
        1 => Keys { len: 1, first: 'R', second: '\0' },
        2 => Keys { len: 1, first: 's', second: '\0' },
        3 => Keys { len: 1, first: 'e', second: '\0' },
        4 => Keys { len: 1, first: 'E', second: '\0' },
        5 => Keys { len: 1, first: 'f', second: '\0' },
        6 => Keys { len: 1, first: 'a', second: '\0' },
        7 => Keys { len: 1, first: 'q', second: '\0' },
        8 => Keys { len: 1, first: 'Q', second: '\0' },
        9 => Keys { len: 1, first: 't', second: '\0' },
        10 => Keys { len: 1, first: 'T', second: '\0' },
        11 => Keys { len: 1, first: 'd', second: '\0' },
        12 => Keys { len: 1, first: 'w', second: '\0' },
        13 => Keys { len: 1, first: 'W', second: '\0' },
        14 => Keys { len: 1, first: 'c', second: '\0' },
        15 => Keys { len: 1, first: 'z', second: '\0' },
        16 => Keys { len: 1, first: 'x', second: '\0' },
        17 => Keys { len: 1, first: 'v', second: '\0' },
        18 => Keys { len: 1, first: 'g', second: '\0' },
        _ => Keys { len: 0, first: '\0', second: '\0' },
    }
}

/// Executable form of [`spec_lead_keys`].
pub fn lead_keys(index: usize) -> (r: Keys)
    requires
        index < LEAD_COUNT,
    ensures
        r == spec_lead_keys(index),
{
    match index {
        0 => Keys { len: 1, first: 'r', second: '\0' },
        1 => Keys { len: 1, first: 'R', second: '\0' },
        2 => Keys { len: 1, first: 's', second: '\0' },
        3 => Keys { len: 1, first: 'e', second: '\0' },
        4 => Keys { len: 1, first: 'E', second: '\0' },
        5 => Keys { len: 1, first: 'f', second: '\0' },
        6 => Keys { len: 1, first: 'a', second: '\0' },
        7 => Keys { len: 1, first: 'q', second: '\0' },
        8 => Keys { len: 1, first: 'Q', second: '\0' },
        9 => Keys { len: 1, first: 't', second: '\0' },
        10 => Keys { len: 1, first: 'T', second: '\0' },
        11 => Keys { len: 1, first: 'd', second: '\0' },
        12 => Keys { len: 1, first: 'w', second: '\0' },
        13 => Keys { len: 1, first: 'W', second: '\0' },
        14 => Keys { len: 1, first: 'c', second: '\0' },
        15 => Keys { len: 1, first: 'z', second: '\0' },
        16 => Keys { len: 1, first: 'x', second: '\0' },
        17 => Keys { len: 1, first: 'v', second: '\0' },
        18 => Keys { len: 1, first: 'g', second: '\0' },
        _ => Keys { len: 0, first: '\0', second: '\0' },
    }
}

/// The two-set keys that type each vowel.
pub open spec fn spec_medial_keys(index: usize) -> Keys {
    match index {
        0 => Keys { len: 1, first: 'k', second: '\0' },
        1 => Keys { len: 1, first: 'o', second: '\0' },
        2 => Keys { len: 1, first: 'i', second: '\0' },
        3 => Keys { len: 1, first: 'O', second: '\0' },
        4 => Keys { len: 1, first: 'j', second: '\0' },
        5 => Keys { len: 1, first: 'p', second: '\0' },
        6 => Keys { len: 1, first: 'u', second: '\0' },
        7 => Keys { len: 1, first: 'P', second: '\0' },
        8 => Keys { len: 1, first: 'h', second: '\0' },
        9 => Keys { len: 2, first: 'h', second: 'k' },
        10 => Keys { len: 2, first: 'h', second: 'o' },
        11 => Keys { len: 2, first: 'h', second: 'l' },
        12 => Keys { len: 1, first: 'y', second: '\0' },
        13 => Keys { len: 1, first: 'n', second: '\0' },
        14 => Keys { len: 2, first: 'n', second: 'j' },
        15 => Keys { len: 2, first: 'n', second: 'p' },
        16 => Keys { len: 2, first: 'n', second: 'l' },
        17 => Keys { len: 1, first: 'b', second: '\0' },
        18 => Keys { len: 1, first: 'm', second: '\0' },
        19 => Keys { len: 2, first: 'm', second: 'l' },
        20 => Keys { len: 1, first: 'l', second: '\0' },
        _ => Keys { len: 0, first: '\0', second: '\0' },
    }
}

/// Executable form of [`spec_medial_keys`].
pub fn medial_keys(index: usize) -> (r: Keys)
    requires
        index < MEDIAL_COUNT,
    ensures
        r == spec_medial_keys(index),
{
    match index {
        0 => Keys { len: 1, first: 'k', second: '\0' },
        1 => Keys { len: 1, first: 'o', second: '\0' },
        2 => Keys { len: 1, first: 'i', second: '\0' },
        3 => Keys { len: 1, first: 'O', second: '\0' },
        4 => Keys { len: 1, first: 'j', second: '\0' },
        5 => Keys { len: 1, first: 'p', second: '\0' },
        6 => Keys { len: 1, first: 'u', second: '\0' },
        7 => Keys { len: 1, first: 'P', second: '\0' },
        8 => Keys { len: 1, first: 'h', second: '\0' },
        9 => Keys { len: 2, first: 'h', second: 'k' },
        10 => Keys { len: 2, first: 'h', second: 'o' },
        11 => Keys { len: 2, first: 'h', second: 'l' },
        12 => Keys { len: 1, first: 'y', second: '\0' },
        13 => Keys { len: 1, first: 'n', second: '\0' },
        14 => Keys { len: 2, first: 'n', second: 'j' },
        15 => Keys { len: 2, first: 'n', second: 'p' },
        16 => Keys { len: 2, first: 'n', second: 'l' },
        17 => Keys { len: 1, first: 'b', second: '\0' },
        18 => Keys { len: 1, first: 'm', second: '\0' },
        19 => Keys { len: 2, first: 'm', second: 'l' },
        20 => Keys { len: 1, first: 'l', second: '\0' },
        _ => Keys { len: 0, first: '\0', second: '\0' },
    }
}

/// The two-set keys that type each final consonant; no keys for index 0.
pub open spec fn spec_final_keys(index: usize) -> Keys {
    match index {
        0 => Keys { len: 0, first: '\0', second: '\0' },
        1 => Keys { len: 1, first: 'r', second: '\0' },
        2 => Keys { len: 1, first: 'R', second: '\0' },
        3 => Keys { len: 2, first: 'r', second: 't' },
        4 => Keys { len: 1, first: 's', second: '\0' },
        5 => Keys { len: 2, first: 's', second: 'w' },
        6 => Keys { len: 2, first: 's', second: 'g' },
        7 => Keys { len: 1, first: 'e', second: '\0' },
        8 => Keys { len: 1, first: 'f', second: '\0' },
        9 => Keys { len: 2, first: 'f', second: 'r' },
        10 => Keys { len: 2, first: 'f', second: 'a' },
        11 => Keys { len: 2, first: 'f', second: 'q' },
        12 => Keys { len: 2, first: 'f', second: 't' },
        13 => Keys { len: 2, first: 'f', second: 'x' },
        14 => Keys { len: 2, first: 'f', second: 'v' },
        15 => Keys { len: 2, first: 'f', second: 'g' },
        16 => Keys { len: 1, first: 'a', second: '\0' },
        17 => Keys { len: 1, first: 'q', second: '\0' },
        18 => Keys { len: 2, first: 'q', second: 't' },
        19 => Keys { len: 1, first: 't', second: '\0' },
        20 => Keys { len: 1, first: 'T', second: '\0' },
        21 => Keys { len: 1, first: 'd', second: '\0' },
        22 => Keys { len: 1, first: 'w', second: '\0' },
        23 => Keys { len: 1, first: 'c', second: '\0' },
        24 => Keys { len: 1, first: 'z', second: '\0' },
        25 => Keys { len: 1, first: 'x', second: '\0' },
        26 => Keys { len: 1, first: 'v', second: '\0' },
        27 => Keys { len: 1, first: 'g', second: '\0' },
        _ => Keys { len: 0, first: '\0', second: '\0' },
    }
}

/// Executable form of [`spec_final_keys`].
pub fn final_keys(index: usize) -> (r: Keys)
    requires
        index < FINAL_COUNT,
    ensures
        r == spec_final_keys(index),
{
    match index {
        0 => Keys { len: 0, first: '\0', second: '\0' },
        1 => Keys { len: 1, first: 'r', second: '\0' },
        2 => Keys { len: 1, first: 'R', second: '\0' },
        3 => Keys { len: 2, first: 'r', second: 't' },
        4 => Keys { len: 1, first: 's', second: '\0' },
        5 => Keys { len: 2, first: 's', second: 'w' },
        6 => Keys { len: 2, first: 's', second: 'g' },
        7 => Keys { len: 1, first: 'e', second: '\0' },
        8 => Keys { len: 1, first: 'f', second: '\0' },
        9 => Keys { len: 2, first: 'f', second: 'r' },
        10 => Keys { len: 2, first: 'f', second: 'a' },
        11 => Keys { len: 2, first: 'f', second: 'q' },
        12 => Keys { len: 2, first: 'f', second: 't' },
        13 => Keys { len: 2, first: 'f', second: 'x' },
        14 => Keys { len: 2, first: 'f', second: 'v' },
        15 => Keys { len: 2, first: 'f', second: 'g' },
        16 => Keys { len: 1, first: 'a', second: '\0' },
        17 => Keys { len: 1, first: 'q', second: '\0' },
        18 => Keys { len: 2, first: 'q', second: 't' },
        19 => Keys { len: 1, first: 't', second: '\0' },
        20 => Keys { len: 1, first: 'T', second: '\0' },
        21 => Keys { len: 1, first: 'd', second: '\0' },
        22 => Keys { len: 1, first: 'w', second: '\0' },
        23 => Keys { len: 1, first: 'c', second: '\0' },
        24 => Keys { len: 1, first: 'z', second: '\0' },
        25 => Keys { len: 1, first: 'x', second: '\0' },
        26 => Keys { len: 1, first: 'v', second: '\0' },
        27 => Keys { len: 1, first: 'g', second: '\0' },
        _ => Keys { len: 0, first: '\0', second: '\0' },
    }
}

/// The jamo that a key types on the two-set Korean layout, for the keys that type one.
pub open spec fn spec_english_key_to_jamo(key: char) -> Option<Jamo> {
    match key {
        'r' => Some(Jamo::Consonant { compatibility: 'ㄱ', lead: Some(0), final_index: Some(1) }),
        'R' => Some(Jamo::Consonant { compatibility: 'ㄲ', lead: Some(1), final_index: Some(2) }),
        's' | 'S' => Some(Jamo::Consonant { compatibility: 'ㄴ', lead: Some(2), final_index: Some(4) }),
        'e' => Some(Jamo::Consonant { compatibility: 'ㄷ', lead: Some(3), final_index: Some(7) }),
        'E' => Some(Jamo::Consonant { compatibility: 'ㄸ', lead: Some(4), final_index: None }),
        'f' | 'F' => Some(Jamo::Consonant { compatibility: 'ㄹ', lead: Some(5), final_index: Some(8) }),
        'a' | 'A' => Some(Jamo::Consonant { compatibility: 'ㅁ', lead: Some(6), final_index: Some(16) }),
        'q' => Some(Jamo::Consonant { compatibility: 'ㅂ', lead: Some(7), final_index: Some(17) }),
        'Q' => Some(Jamo::Consonant { compatibility: 'ㅃ', lead: Some(8), final_index: None }),
        't' => Some(Jamo::Consonant { compatibility: 'ㅅ', lead: Some(9), final_index: Some(19) }),
        'T' => Some(Jamo::Consonant { compatibility: 'ㅆ', lead: Some(10), final_index: Some(20) }),
        'd' | 'D' => Some(Jamo::Consonant { compatibility: 'ㅇ', lead: Some(11), final_index: Some(21) }),
        'w' => Some(Jamo::Consonant { compatibility: 'ㅈ', lead: Some(12), final_index: Some(22) }),
        'W' => Some(Jamo::Consonant { compatibility: 'ㅉ', lead: Some(13), final_index: None }),
        'c' | 'C' => Some(Jamo::Consonant { compatibility: 'ㅊ', lead: Some(14), final_index: Some(23) }),
        'z' | 'Z' => Some(Jamo::Consonant { compatibility: 'ㅋ', lead: Some(15), final_index: Some(24) }),
        'x' | 'X' => Some(Jamo::Consonant { compatibility: 'ㅌ', lead: Some(16), final_index: Some(25) }),
        'v' | 'V' => Some(Jamo::Consonant { compatibility: 'ㅍ', lead: Some(17), final_index: Some(26) }),
        'g' | 'G' => Some(Jamo::Consonant { compatibility: 'ㅎ', lead: Some(18), final_index: Some(27) }),
        'k' | 'K' => Some(Jamo::Vowel(0)),
        'o' => Some(Jamo::Vowel(1)),
        'O' => Some(Jamo::Vowel(3)),
        'i' | 'I' => Some(Jamo::Vowel(2)),
        'j' | 'J' => Some(Jamo::Vowel(4)),
        'p' => Some(Jamo::Vowel(5)),
        'P' => Some(Jamo::Vowel(7)),
        'u' | 'U' => Some(Jamo::Vowel(6)),
        'h' | 'H' => Some(Jamo::Vowel(8)),
        'y' | 'Y' => Some(Jamo::Vowel(12)),
        'n' | 'N' => Some(Jamo::Vowel(13)),
        'b' | 'B' => Some(Jamo::Vowel(17)),
        'm' | 'M' => Some(Jamo::Vowel(18)),
        'l' | 'L' => Some(Jamo::Vowel(20)),
        _ => None,
    }
}

/// Executable form of [`spec_english_key_to_jamo`].
pub fn english_key_to_jamo(key: char) -> (r: Option<Jamo>)
    ensures
        r == spec_english_key_to_jamo(key),
{
    match key {
        'r' => Some(Jamo::Consonant { compatibility: 'ㄱ', lead: Some(0), final_index: Some(1) }),
        'R' => Some(Jamo::Consonant { compatibility: 'ㄲ', lead: Some(1), final_index: Some(2) }),
        's' | 'S' => Some(Jamo::Consonant { compatibility: 'ㄴ', lead: Some(2), final_index: Some(4) }),
        'e' => Some(Jamo::Consonant { compatibility: 'ㄷ', lead: Some(3), final_index: Some(7) }),
        'E' => Some(Jamo::Consonant { compatibility: 'ㄸ', lead: Some(4), final_index: None }),
        'f' | 'F' => Some(Jamo::Consonant { compatibility: 'ㄹ', lead: Some(5), final_index: Some(8) }),
        'a' | 'A' => Some(Jamo::Consonant { compatibility: 'ㅁ', lead: Some(6), final_index: Some(16) }),
        'q' => Some(Jamo::Consonant { compatibility: 'ㅂ', lead: Some(7), final_index: Some(17) }),
        'Q' => Some(Jamo::Consonant { compatibility: 'ㅃ', lead: Some(8), final_index: None }),
        't' => Some(Jamo::Consonant { compatibility: 'ㅅ', lead: Some(9), final_index: Some(19) }),
        'T' => Some(Jamo::Consonant { compatibility: 'ㅆ', lead: Some(10), final_index: Some(20) }),
        'd' | 'D' => Some(Jamo::Consonant { compatibility: 'ㅇ', lead: Some(11), final_index: Some(21) }),
        'w' => Some(Jamo::Consonant { compatibility: 'ㅈ', lead: Some(12), final_index: Some(22) }),
        'W' => Some(Jamo::Consonant { compatibility: 'ㅉ', lead: Some(13), final_index: None }),
        'c' | 'C' => Some(Jamo::Consonant { compatibility: 'ㅊ', lead: Some(14), final_index: Some(23) }),
        'z' | 'Z' => Some(Jamo::Consonant { compatibility: 'ㅋ', lead: Some(15), final_index: Some(24) }),
        'x' | 'X' => Some(Jamo::Consonant { compatibility: 'ㅌ', lead: Some(16), final_index: Some(25) }),
        'v' | 'V' => Some(Jamo::Consonant { compatibility: 'ㅍ', lead: Some(17), final_index: Some(26) }),
        'g' | 'G' => Some(Jamo::Consonant { compatibility: 'ㅎ', lead: Some(18), final_index: Some(27) }),
        'k' | 'K' => Some(Jamo::Vowel(0)),
        'o' => Some(Jamo::Vowel(1)),
        'O' => Some(Jamo::Vowel(3)),
        'i' | 'I' => Some(Jamo::Vowel(2)),
        'j' | 'J' => Some(Jamo::Vowel(4)),
        'p' => Some(Jamo::Vowel(5)),
        'P' => Some(Jamo::Vowel(7)),
        'u' | 'U' => Some(Jamo::Vowel(6)),
        'h' | 'H' => Some(Jamo::Vowel(8)),
        'y' | 'Y' => Some(Jamo::Vowel(12)),
        'n' | 'N' => Some(Jamo::Vowel(13)),
        'b' | 'B' => Some(Jamo::Vowel(17)),
        'm' | 'M' => Some(Jamo::Vowel(18)),
        'l' | 'L' => Some(Jamo::Vowel(20)),
        _ => None,
    }
}

/// The compound vowel that two vowels typed in a row make, if any.
pub open spec fn spec_combine_vowels(first: usize, second: usize) -> Option<usize> {
    match (first, second) {
        (8, 0) => Some(9),
        (8, 1) => Some(10),
        (8, 20) => Some(11),
        (13, 4) => Some(14),
        (13, 5) => Some(15),
        (13, 20) => Some(16),
        (18, 20) => Some(19),
        _ => None,
    }
}

/// Executable form of [`spec_combine_vowels`].
pub fn combine_vowels(first: usize, second: usize) -> (r: Option<usize>)
    ensures
        r == spec_combine_vowels(first, second),
{
    match (first, second) {
        (8, 0) => Some(9),
        (8, 1) => Some(10),
        (8, 20) => Some(11),
        (13, 4) => Some(14),
        (13, 5) => Some(15),
        (13, 20) => Some(16),
        (18, 20) => Some(19),
        _ => None,
    }
}

/// The final cluster that two final consonants typed in a row make, if any.
pub open spec fn spec_combine_finals(first: usize, second: usize) -> Option<usize> {
    match (first, second) {
        (1, 19) => Some(3),
        (4, 22) => Some(5),
        (4, 27) => Some(6),
        (8, 1) => Some(9),
        (8, 16) => Some(10),
        (8, 17) => Some(11),
        (8, 19) => Some(12),
        (8, 25) => Some(13),
        (8, 26) => Some(14),
        (8, 27) => Some(15),
        (17, 19) => Some(18),
        _ => None,
    }
}

/// Executable form of [`spec_combine_finals`].
pub fn combine_finals(first: usize, second: usize) -> (r: Option<usize>)
    ensures
        r == spec_combine_finals(first, second),
{
    match (first, second) {
        (1, 19) => Some(3),
        (4, 22) => Some(5),
        (4, 27) => Some(6),
        (8, 1) => Some(9),
        (8, 16) => Some(10),
        (8, 17) => Some(11),
        (8, 19) => Some(12),
        (8, 25) => Some(13),
        (8, 26) => Some(14),
        (8, 27) => Some(15),
        (17, 19) => Some(18),
        _ => None,
    }
}

/// For a final cluster: the final that stays and the initial consonant that moves to the next syllable.
pub open spec fn spec_split_final(final_index: usize) -> Option<(usize, usize)> {
    match final_index {
        3 => Some((1, 9)),
        5 => Some((4, 12)),
        6 => Some((4, 18)),
        9 => Some((8, 0)),
        10 => Some((8, 6)),
        11 => Some((8, 7)),
        12 => Some((8, 9)),
        13 => Some((8, 16)),
        14 => Some((8, 17)),
        15 => Some((8, 18)),
        18 => Some((17, 9)),
        _ => None,
    }
}

/// Executable form of [`spec_split_final`].
pub fn split_final(final_index: usize) -> (r: Option<(usize, usize)>)
    ensures
        r == spec_split_final(final_index),
{
    match final_index {
        3 => Some((1, 9)),
        5 => Some((4, 12)),
        6 => Some((4, 18)),
        9 => Some((8, 0)),
        10 => Some((8, 6)),
        11 => Some((8, 7)),
        12 => Some((8, 9)),
        13 => Some((8, 16)),
        14 => Some((8, 17)),
        15 => Some((8, 18)),
        18 => Some((17, 9)),
        _ => None,
    }
}

/// The initial consonant that a single final consonant becomes when it moves to the next syllable.
pub open spec fn spec_final_to_lead(final_index: usize) -> Option<usize> {
    match final_index {
        1 => Some(0),
        2 => Some(1),
        4 => Some(2),
        7 => Some(3),
        8 => Some(5),
        16 => Some(6),
        17 => Some(7),
        19 => Some(9),
        20 => Some(10),
        21 => Some(11),
        22 => Some(12),
        23 => Some(14),
        24 => Some(15),
        25 => Some(16),
        26 => Some(17),
        27 => Some(18),
        _ => None,
    }
}

/// Executable form of [`spec_final_to_lead`].
pub fn final_to_lead(final_index: usize) -> (r: Option<usize>)
    ensures
        r == spec_final_to_lead(final_index),
{
    match final_index {
        1 => Some(0),
        2 => Some(1),
        4 => Some(2),
        7 => Some(3),
        8 => Some(5),
        16 => Some(6),
        17 => Some(7),
        19 => Some(9),
        20 => Some(10),
        21 => Some(11),
        22 => Some(12),
        23 => Some(14),
        24 => Some(15),
        25 => Some(16),
        26 => Some(17),
        27 => Some(18),
        _ => None,
    }
}

/// The keys for a compatibility jamo: an initial consonant's key first, then a vowel's,
/// then a final cluster's.
pub open spec fn spec_compatibility_jamo_keys(character: char) -> Option<Keys> {
    match character {
        'ㄱ' => Some(Keys { len: 1, first: 'r', second: '\0' }),
        'ㄲ' => Some(Keys { len: 1, first: 'R', second: '\0' }),
        'ㄴ' => Some(Keys { len: 1, first: 's', second: '\0' }),
        'ㄷ' => Some(Keys { len: 1, first: 'e', second: '\0' }),
        'ㄸ' => Some(Keys { len: 1, first: 'E', second: '\0' }),
        'ㄹ' => Some(Keys { len: 1, first: 'f', second: '\0' }),
        'ㅁ' => Some(Keys { len: 1, first: 'a', second: '\0' }),
        'ㅂ' => Some(Keys { len: 1, first: 'q', second: '\0' }),
        'ㅃ' => Some(Keys { len: 1, first: 'Q', second: '\0' }),
        'ㅅ' => Some(Keys { len: 1, first: 't', second: '\0' }),
        'ㅆ' => Some(Keys { len: 1, first: 'T', second: '\0' }),
        'ㅇ' => Some(Keys { len: 1, first: 'd', second: '\0' }),
        'ㅈ' => Some(Keys { len: 1, first: 'w', second: '\0' }),
        'ㅉ' => Some(Keys { len: 1, first: 'W', second: '\0' }),
        'ㅊ' => Some(Keys { len: 1, first: 'c', second: '\0' }),
        'ㅋ' => Some(Keys { len: 1, first: 'z', second: '\0' }),
        'ㅌ' => Some(Keys { len: 1, first: 'x', second: '\0' }),
        'ㅍ' => Some(Keys { len: 1, first: 'v', second: '\0' }),
        'ㅎ' => Some(Keys { len: 1, first: 'g', second: '\0' }),
        'ㅏ' => Some(Keys { len: 1, first: 'k', second: '\0' }),
        'ㅐ' => Some(Keys { len: 1, first: 'o', second: '\0' }),
        'ㅑ' => Some(Keys { len: 1, first: 'i', second: '\0' }),
        'ㅒ' => Some(Keys { len: 1, first: 'O', second: '\0' }),
        'ㅓ' => Some(Keys { len: 1, first: 'j', second: '\0' }),
        'ㅔ' => Some(Keys { len: 1, first: 'p', second: '\0' }),
        'ㅕ' => Some(Keys { len: 1, first: 'u', second: '\0' }),
        'ㅖ' => Some(Keys { len: 1, first: 'P', second: '\0' }),
        'ㅗ' => Some(Keys { len: 1, first: 'h', second: '\0' }),
        'ㅘ' => Some(Keys { len: 2, first: 'h', second: 'k' }),
        'ㅙ' => Some(Keys { len: 2, first: 'h', second: 'o' }),
        'ㅚ' => Some(Keys { len: 2, first: 'h', second: 'l' }),
        'ㅛ' => Some(Keys { len: 1, first: 'y', second: '\0' }),
        'ㅜ' => Some(Keys { len: 1, first: 'n', second: '\0' }),
        'ㅝ' => Some(Keys { len: 2, first: 'n', second: 'j' }),
        'ㅞ' => Some(Keys { len: 2, first: 'n', second: 'p' }),
        'ㅟ' => Some(Keys { len: 2, first: 'n', second: 'l' }),
        'ㅠ' => Some(Keys { len: 1, first: 'b', second: '\0' }),
        'ㅡ' => Some(Keys { len: 1, first: 'm', second: '\0' }),
        'ㅢ' => Some(Keys { len: 2, first: 'm', second: 'l' }),
        'ㅣ' => Some(Keys { len: 1, first: 'l', second: '\0' }),
        'ㄳ' => Some(Keys { len: 2, first: 'r', second: 't' }),
        'ㄵ' => Some(Keys { len: 2, first: 's', second: 'w' }),
        'ㄶ' => Some(Keys { len: 2, first: 's', second: 'g' }),
        'ㄺ' => Some(Keys { len: 2, first: 'f', second: 'r' }),
        'ㄻ' => Some(Keys { len: 2, first: 'f', second: 'a' }),
        'ㄼ' => Some(Keys { len: 2, first: 'f', second: 'q' }),
        'ㄽ' => Some(Keys { len: 2, first: 'f', second: 't' }),
        'ㄾ' => Some(Keys { len: 2, first: 'f', second: 'x' }),
        'ㄿ' => Some(Keys { len: 2, first: 'f', second: 'v' }),
        'ㅀ' => Some(Keys { len: 2, first: 'f', second: 'g' }),
        'ㅄ' => Some(Keys { len: 2, first: 'q', second: 't' }),
        _ => None,
    }
}

/// Executable form of [`spec_compatibility_jamo_keys`].
pub fn compatibility_jamo_keys(character: char) -> (r: Option<Keys>)
    ensures
        r == spec_compatibility_jamo_keys(character),
{
    match character {
        'ㄱ' => Some(Keys { len: 1, first: 'r', second: '\0' }),
        'ㄲ' => Some(Keys { len: 1, first: 'R', second: '\0' }),
        'ㄴ' => Some(Keys { len: 1, first: 's', second: '\0' }),
        'ㄷ' => Some(Keys { len: 1, first: 'e', second: '\0' }),
        'ㄸ' => Some(Keys { len: 1, first: 'E', second: '\0' }),
        'ㄹ' => Some(Keys { len: 1, first: 'f', second: '\0' }),
        'ㅁ' => Some(Keys { len: 1, first: 'a', second: '\0' }),
        'ㅂ' => Some(Keys { len: 1, first: 'q', second: '\0' }),
        'ㅃ' => Some(Keys { len: 1, first: 'Q', second: '\0' }),
        'ㅅ' => Some(Keys { len: 1, first: 't', second: '\0' }),
        'ㅆ' => Some(Keys { len: 1, first: 'T', second: '\0' }),
        'ㅇ' => Some(Keys { len: 1, first: 'd', second: '\0' }),
        'ㅈ' => Some(Keys { len: 1, first: 'w', second: '\0' }),
        'ㅉ' => Some(Keys { len: 1, first: 'W', second: '\0' }),
        'ㅊ' => Some(Keys { len: 1, first: 'c', second: '\0' }),
        'ㅋ' => Some(Keys { len: 1, first: 'z', second: '\0' }),
        'ㅌ' => Some(Keys { len: 1, first: 'x', second: '\0' }),
        'ㅍ' => Some(Keys { len: 1, first: 'v', second: '\0' }),
        'ㅎ' => Some(Keys { len: 1, first: 'g', second: '\0' }),
        'ㅏ' => Some(Keys { len: 1, first: 'k', second: '\0' }),
        'ㅐ' => Some(Keys { len: 1, first: 'o', second: '\0' }),
        'ㅑ' => Some(Keys { len: 1, first: 'i', second: '\0' }),
        'ㅒ' => Some(Keys { len: 1, first: 'O', second: '\0' }),
        'ㅓ' => Some(Keys { len: 1, first: 'j', second: '\0' }),
        'ㅔ' => Some(Keys { len: 1, first: 'p', second: '\0' }),
        'ㅕ' => Some(Keys { len: 1, first: 'u', second: '\0' }),
        'ㅖ' => Some(Keys { len: 1, first: 'P', second: '\0' }),
        'ㅗ' => Some(Keys { len: 1, first: 'h', second: '\0' }),
        'ㅘ' => Some(Keys { len: 2, first: 'h', second: 'k' }),
        'ㅙ' => Some(Keys { len: 2, first: 'h', second: 'o' }),
        'ㅚ' => Some(Keys { len: 2, first: 'h', second: 'l' }),
        'ㅛ' => Some(Keys { len: 1, first: 'y', second: '\0' }),
        'ㅜ' => Some(Keys { len: 1, first: 'n', second: '\0' }),
        'ㅝ' => Some(Keys { len: 2, first: 'n', second: 'j' }),
        'ㅞ' => Some(Keys { len: 2, first: 'n', second: 'p' }),
        'ㅟ' => Some(Keys { len: 2, first: 'n', second: 'l' }),
        'ㅠ' => Some(Keys { len: 1, first: 'b', second: '\0' }),
        'ㅡ' => Some(Keys { len: 1, first: 'm', second: '\0' }),
        'ㅢ' => Some(Keys { len: 2, first: 'm', second: 'l' }),
        'ㅣ' => Some(Keys { len: 1, first: 'l', second: '\0' }),
        'ㄳ' => Some(Keys { len: 2, first: 'r', second: 't' }),
        'ㄵ' => Some(Keys { len: 2, first: 's', second: 'w' }),
        'ㄶ' => Some(Keys { len: 2, first: 's', second: 'g' }),
        'ㄺ' => Some(Keys { len: 2, first: 'f', second: 'r' }),
        'ㄻ' => Some(Keys { len: 2, first: 'f', second: 'a' }),
        'ㄼ' => Some(Keys { len: 2, first: 'f', second: 'q' }),
        'ㄽ' => Some(Keys { len: 2, first: 'f', second: 't' }),
        'ㄾ' => Some(Keys { len: 2, first: 'f', second: 'x' }),
        'ㄿ' => Some(Keys { len: 2, first: 'f', second: 'v' }),
        'ㅀ' => Some(Keys { len: 2, first: 'f', second: 'g' }),
        'ㅄ' => Some(Keys { len: 2, first: 'q', second: 't' }),
        _ => None,
    }
}

} // verus!
