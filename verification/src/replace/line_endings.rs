//! Line endings of a selection and of its replacement.
//!
//! UI Automation and the clipboard can expose the same selection with
//! different newline encodings. A selection is recognised by its canonical
//! form, and the replacement takes the copied selection's exact CR, LF or
//! CRLF sequences.

use vstd::prelude::*;

use crate::text::{chars_of, push_char};

verus! {

/// One line ending.
#[derive(Debug, Clone, Copy, PartialEq, Eq, Structural)]
pub enum LineEnding {
    /// A lone carriage return.
    Cr,
    /// A lone line feed.
    Lf,
    /// A carriage return followed by a line feed.
    CrLf,
}

/// The characters of a line ending.
pub open spec fn ending_text(ending: LineEnding) -> Seq<char> {
    match ending {
        LineEnding::Cr => seq!['\r'],
        LineEnding::Lf => seq!['\n'],
        LineEnding::CrLf => seq!['\r', '\n'],
    }
}

/// Whether a text starts with a CR LF pair.
pub open spec fn starts_with_crlf(text: Seq<char>) -> bool {
    text.len() >= 2 && text[0] == '\r' && text[1] == '\n'
}

/// Whether a text starts with a line ending.
pub open spec fn starts_with_ending(text: Seq<char>) -> bool {
    text.len() >= 1 && (text[0] == '\r' || text[0] == '\n')
}

/// The line ending at the start of a text that starts with one.
pub open spec fn leading_ending(text: Seq<char>) -> LineEnding {
    if starts_with_crlf(text) {
        LineEnding::CrLf
    } else if text[0] == '\r' {
        LineEnding::Cr
    } else {
        LineEnding::Lf
    }
}

/// The number of characters of the token at the start of a non-empty text:
/// two for a CR LF pair, one otherwise.
pub open spec fn leading_width(text: Seq<char>) -> int {
    if starts_with_crlf(text) {
        2
    } else {
        1
    }
}

/// The line endings of a text, in order; a CR directly followed by LF counts
/// as one CRLF ending.
pub open spec fn spec_line_endings(text: Seq<char>) -> Seq<LineEnding>
    decreases text.len(),
{
    if text.len() == 0 {
        seq![]
    } else if starts_with_ending(text) {
        seq![leading_ending(text)] + spec_line_endings(text.skip(leading_width(text)))
    } else {
        spec_line_endings(text.skip(1))
    }
}

/// A text with every line ending written as a single LF.
pub open spec fn spec_canonical_line_endings(text: Seq<char>) -> Seq<char>
    decreases text.len(),
{
    if text.len() == 0 {
        seq![]
    } else if starts_with_ending(text) {
        seq!['\n'] + spec_canonical_line_endings(text.skip(leading_width(text)))
    } else {
        seq![text[0]] + spec_canonical_line_endings(text.skip(1))
    }
}

/// A text with its line endings replaced, in order, by `endings`.
pub open spec fn rewrite_line_endings(text: Seq<char>, endings: Seq<LineEnding>) -> Seq<char>
    decreases text.len(),
{
    if text.len() == 0 {
        seq![]
    } else if starts_with_ending(text) {
        ending_text(endings[0]) + rewrite_line_endings(
            text.skip(leading_width(text)),
            endings.drop_first(),
        )
    } else {
        seq![text[0]] + rewrite_line_endings(text.skip(1), endings)
    }
}

/// The replacement with the selection's line endings, where both have the
/// same number of line endings.
pub open spec fn spec_preserve_line_endings(replacement: Seq<char>, selected: Seq<char>) -> Option<
    Seq<char>,
> {
    if spec_line_endings(replacement).len() == spec_line_endings(selected).len() {
        Some(rewrite_line_endings(replacement, spec_line_endings(selected)))
    } else {
        None
    }
}

fn starts_crlf_at(characters: &Vec<char>, index: usize) -> (r: bool)
    requires
        index < characters.len(),
    ensures
        r == starts_with_crlf(characters@.skip(index as int)),
{
    characters[index] == '\r' && index + 1 < characters.len() && characters[index + 1] == '\n'
}

/// The line endings of `text`, in order.
pub fn line_endings(text: &str) -> (r: Vec<LineEnding>)
    ensures
        r@ == spec_line_endings(text@),
{
    let characters = chars_of(text);
    let mut endings: Vec<LineEnding> = Vec::new();
    let mut index: usize = 0;
    assert(characters@.skip(0) =~= characters@);
    while index < characters.len()
        invariant
            characters@ == text@,
            index <= characters.len(),
            endings@ + spec_line_endings(characters@.skip(index as int)) == spec_line_endings(
                text@,
            ),
        decreases characters.len() - index,
    {
        let ghost rest = characters@.skip(index as int);
        let ghost before = endings@;
        if starts_crlf_at(&characters, index) {
            assert(rest.skip(2) =~= characters@.skip(index + 2));
            endings.push(LineEnding::CrLf);
            index = index + 2;
            assert(endings@ + spec_line_endings(characters@.skip(index as int)) =~= before
                + spec_line_endings(rest));
        } else if characters[index] == '\r' || characters[index] == '\n' {
            assert(rest.skip(1) =~= characters@.skip(index + 1));
            if characters[index] == '\r' {
                endings.push(LineEnding::Cr);
            } else {
                endings.push(LineEnding::Lf);
            }
            index = index + 1;
            assert(endings@ + spec_line_endings(characters@.skip(index as int)) =~= before
                + spec_line_endings(rest));
        } else {
            assert(rest.skip(1) =~= characters@.skip(index + 1));
            index = index + 1;
        }
    }
    assert(characters@.skip(index as int) =~= Seq::<char>::empty());
    assert(endings@ + Seq::<LineEnding>::empty() =~= endings@);
    endings
}

/// `text` with every line ending written as a single LF.
pub fn canonical_line_endings(text: &str) -> (r: String)
    ensures
        r@ == spec_canonical_line_endings(text@),
{
    let characters = chars_of(text);
    let mut canonical = String::new();
    let mut index: usize = 0;
    assert(characters@.skip(0) =~= characters@);
    while index < characters.len()
        invariant
            characters@ == text@,
            index <= characters.len(),
            canonical@ + spec_canonical_line_endings(characters@.skip(index as int))
                == spec_canonical_line_endings(text@),
        decreases characters.len() - index,
    {
        let ghost rest = characters@.skip(index as int);
        let ghost before = canonical@;
        let character = characters[index];
        if starts_crlf_at(&characters, index) {
            assert(rest.skip(2) =~= characters@.skip(index + 2));
            push_char(&mut canonical, '\n');
            index = index + 2;
        } else {
            assert(rest.skip(1) =~= characters@.skip(index + 1));
            if character == '\r' {
                push_char(&mut canonical, '\n');
            } else {
                push_char(&mut canonical, character);
            }
            index = index + 1;
        }
        assert(canonical@ + spec_canonical_line_endings(characters@.skip(index as int))
            =~= before + spec_canonical_line_endings(rest));
    }
    assert(characters@.skip(index as int) =~= Seq::<char>::empty());
    assert(canonical@ + Seq::<char>::empty() =~= canonical@);
    canonical
}

/// Whether two texts are the same selection once their line endings are
/// written alike.
pub fn equivalent_selection_text(left: &str, right: &str) -> (r: bool)
    ensures
        r == (spec_canonical_line_endings(left@) == spec_canonical_line_endings(right@)),
{
    canonical_line_endings(left) == canonical_line_endings(right)
}

fn push_ending(output: &mut String, ending: LineEnding)
    ensures
        final(output)@ == old(output)@ + ending_text(ending),
{
    match ending {
        LineEnding::Cr => push_char(output, '\r'),
        LineEnding::Lf => push_char(output, '\n'),
        LineEnding::CrLf => {
            push_char(output, '\r');
            push_char(output, '\n');
        },
    }
    assert(output@ =~= old(output)@ + ending_text(ending));
}

/// `replacement` with its line endings replaced, in order, by those of
/// `selected`; `None` when the two have different numbers of line endings.
pub fn preserve_line_endings(replacement: &str, selected: &str) -> (r: Option<String>)
    ensures
        r matches Some(output) ==> spec_preserve_line_endings(replacement@, selected@) == Some(
            output@,
        ),
        r is None ==> spec_preserve_line_endings(replacement@, selected@) is None,
{
    let selected_endings = line_endings(selected);
    let replacement_endings = line_endings(replacement);
    if selected_endings.len() != replacement_endings.len() {
        return None;
    }
    let characters = chars_of(replacement);
    let mut output = String::new();
    let mut ending_index: usize = 0;
    let mut index: usize = 0;
    assert(characters@.skip(0) =~= characters@);
    assert(selected_endings@.skip(0) =~= selected_endings@);
    while index < characters.len()
        invariant
            characters@ == replacement@,
            index <= characters.len(),
            ending_index <= selected_endings@.len(),
            selected_endings@ == spec_line_endings(selected@),
            selected_endings@.len() == spec_line_endings(replacement@).len(),
            spec_line_endings(characters@.skip(index as int)).len() == selected_endings@.len()
                - ending_index,
            output@ + rewrite_line_endings(
                characters@.skip(index as int),
                selected_endings@.skip(ending_index as int),
            ) == rewrite_line_endings(replacement@, selected_endings@),
        decreases characters.len() - index,
    {
        let ghost rest = characters@.skip(index as int);
        let ghost pending = selected_endings@.skip(ending_index as int);
        let ghost before = output@;
        let character = characters[index];
        if character == '\r' || character == '\n' {
            let width: usize = if starts_crlf_at(&characters, index) {
                2
            } else {
                1
            };
            assert(rest.skip(width as int) =~= characters@.skip(index + width));
            assert(pending.drop_first() =~= selected_endings@.skip(ending_index + 1));
            assert(width == leading_width(rest));
            assert(spec_line_endings(rest) == seq![leading_ending(rest)] + spec_line_endings(
                rest.skip(width as int),
            ));
            assert(ending_index < selected_endings.len());
            push_ending(&mut output, selected_endings[ending_index]);
            ending_index = ending_index + 1;
            index = index + width;
        } else {
            assert(rest.skip(1) =~= characters@.skip(index + 1));
            push_char(&mut output, character);
            index = index + 1;
        }
        assert(output@ + rewrite_line_endings(
            characters@.skip(index as int),
            selected_endings@.skip(ending_index as int),
        ) =~= before + rewrite_line_endings(rest, pending));
    }
    assert(characters@.skip(index as int) =~= Seq::<char>::empty());
    assert(output@ + Seq::<char>::empty() =~= output@);
    Some(output)
}

} // verus!
