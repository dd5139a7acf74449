//! Character-level helpers over `String`, `char` and `u32` that the
//! conversion code builds on.

use vstd::prelude::*;

verus! {

/// `String::push` appends one character to the end of the string.
#[verifier::external_body]
pub fn push_char(text: &mut String, character: char)
    ensures
        final(text)@ == old(text)@.push(character),
{
    text.push(character);
}

/// Whether `code` is a Unicode scalar value: at most `0x10FFFF` and outside
/// the surrogate range `0xD800..=0xDFFF`.
pub open spec fn is_scalar_value(code: u32) -> bool {
    code <= 0xD7FF || (0xE000 <= code && code <= 0x10FFFF)
}

/// `char::from_u32` returns the character with the given code exactly when the
/// code is a Unicode scalar value, and `None` otherwise.
#[verifier::external_body]
pub fn char_from_u32(code: u32) -> (r: Option<char>)
    ensures
        is_scalar_value(code) ==> r == Some(code as char),
        !is_scalar_value(code) ==> r is None,
{
    char::from_u32(code)
}

/// The characters of a string, in order.
pub fn chars_of(text: &str) -> (r: Vec<char>)
    ensures
        r@ == text@,
{
    broadcast use vstd::string::group_string_axioms;

    let mut characters: Vec<char> = Vec::new();
    for character in it: text.chars()
        invariant
            it.seq() == text@,
            0 <= it.index() <= text@.len(),
            characters@ == text@.take(it.index()),
    {
        assert(text@.take(it.index() + 1) =~= text@.take(it.index()).push(character));
        characters.push(character);
    }
    assert(text@.take(text@.len() as int) =~= text@);
    characters
}

/// Whether two strings hold the same characters.
pub fn same_text(left: &str, right: &str) -> (r: bool)
    ensures
        r == (left@ == right@),
{
    let a = chars_of(left);
    let b = chars_of(right);
    if a.len() != b.len() {
        return false;
    }
    let mut i: usize = 0;
    while i < a.len()
        invariant
            a@ == left@,
            b@ == right@,
            a.len() == b.len(),
            i <= a.len(),
            forall|j: int| 0 <= j < i ==> a@[j] == b@[j],
        decreases a.len() - i,
    {
        if a[i] != b[i] {
            assert(a@[i as int] != b@[i as int]);
            return false;
        }
        i = i + 1;
    }
    assert(a@ =~= b@);
    true
}

} // verus!
