//! Properties of line-ending handling that hold for every text.

use vstd::prelude::*;

use super::line_endings::{
    ending_text, leading_ending, leading_width, rewrite_line_endings,
    spec_canonical_line_endings, spec_line_endings, spec_preserve_line_endings,
    starts_with_crlf, starts_with_ending, LineEnding,
};

verus! {

/// Whether rewriting `text` with `endings` puts a lone CR directly before an
/// LF, so that the two would read back as one CRLF ending.
pub open spec fn cr_meets_lf(text: Seq<char>, endings: Seq<LineEnding>) -> bool
    decreases text.len(),
{
    if text.len() == 0 {
        false
    } else if starts_with_ending(text) {
        let rest = text.skip(leading_width(text));
        ||| (endings.len() >= 2 && endings[0] == LineEnding::Cr && starts_with_ending(rest)
            && endings[1] == LineEnding::Lf)
        ||| cr_meets_lf(rest, endings.drop_first())
    } else {
        cr_meets_lf(text.skip(1), endings)
    }
}

proof fn lemma_plain_char_prefix(c: char, rest: Seq<char>)
    requires
        c != '\r',
        c != '\n',
    ensures
        spec_line_endings(seq![c] + rest) == spec_line_endings(rest),
        spec_canonical_line_endings(seq![c] + rest) == seq![c] + spec_canonical_line_endings(rest),
{
    let text = seq![c] + rest;
    assert(text[0] == c);
    assert(text.skip(1) =~= rest);
}

proof fn lemma_ending_prefix(ending: LineEnding, rest: Seq<char>)
    requires
        ending == LineEnding::Cr ==> !(rest.len() > 0 && rest[0] == '\n'),
    ensures
        spec_line_endings(ending_text(ending) + rest) == seq![ending] + spec_line_endings(rest),
        spec_canonical_line_endings(ending_text(ending) + rest) == seq!['\n']
            + spec_canonical_line_endings(rest),
{
    let text = ending_text(ending) + rest;
    assert(starts_with_ending(text));
    match ending {
        LineEnding::CrLf => {
            assert(starts_with_crlf(text));
            assert(text.skip(2) =~= rest);
        },
        LineEnding::Cr => {
            assert(!starts_with_crlf(text));
            assert(leading_ending(text) == LineEnding::Cr);
            assert(text.skip(1) =~= rest);
        },
        LineEnding::Lf => {
            assert(!starts_with_crlf(text));
            assert(text.skip(1) =~= rest);
        },
    }
}

proof fn lemma_rewrite_first(text: Seq<char>, endings: Seq<LineEnding>)
    requires
        text.len() > 0,
        starts_with_ending(text) ==> endings.len() > 0,
    ensures
        rewrite_line_endings(text, endings).len() > 0,
        rewrite_line_endings(text, endings)[0] == '\n' ==> starts_with_ending(text) && endings[0]
            == LineEnding::Lf,
{
}

proof fn lemma_endings_count_positive(text: Seq<char>)
    requires
        starts_with_ending(text),
    ensures
        spec_line_endings(text).len() == 1 + spec_line_endings(
            text.skip(leading_width(text)),
        ).len(),
{
}

/// Rewriting a text's line endings keeps everything else and leaves exactly
/// the given line endings, unless a lone CR would run into an LF.
pub proof fn lemma_rewrite_line_endings(text: Seq<char>, endings: Seq<LineEnding>)
    requires
        endings.len() == spec_line_endings(text).len(),
        !cr_meets_lf(text, endings),
    ensures
        spec_line_endings(rewrite_line_endings(text, endings)) == endings,
        spec_canonical_line_endings(rewrite_line_endings(text, endings))
            == spec_canonical_line_endings(text),
    decreases text.len(),
{
    if text.len() == 0 {
        assert(endings =~= Seq::<LineEnding>::empty());
    } else if starts_with_ending(text) {
        let rest = text.skip(leading_width(text));
        let tail = endings.drop_first();
        lemma_endings_count_positive(text);
        lemma_rewrite_line_endings(rest, tail);
        let rewritten = rewrite_line_endings(rest, tail);
        if rest.len() > 0 {
            lemma_rewrite_first(rest, tail);
        }
        lemma_ending_prefix(endings[0], rewritten);
        assert(seq![endings[0]] + tail =~= endings);
    } else {
        let rest = text.skip(1);
        lemma_rewrite_line_endings(rest, endings);
        lemma_plain_char_prefix(text[0], rewrite_line_endings(rest, endings));
    }
}

/// A replacement that keeps the selection's line endings reads back with
/// exactly the selection's line endings and, line endings aside, is the
/// replacement text; where a lone CR of the selection would be written
/// directly before an LF of the selection, the two read back as one CRLF.
pub proof fn law_preserved_replacement(replacement: Seq<char>, selected: Seq<char>)
    requires
        spec_line_endings(replacement).len() == spec_line_endings(selected).len(),
        !cr_meets_lf(replacement, spec_line_endings(selected)),
    ensures
        spec_preserve_line_endings(replacement, selected) matches Some(output) && {
            &&& spec_line_endings(output) == spec_line_endings(selected)
            &&& spec_canonical_line_endings(output) == spec_canonical_line_endings(replacement)
        },
{
    lemma_rewrite_line_endings(replacement, spec_line_endings(selected));
}

/// Writing line endings canonically a second time changes nothing.
pub proof fn law_canonical_idempotent(text: Seq<char>)
    ensures
        spec_canonical_line_endings(spec_canonical_line_endings(text))
            == spec_canonical_line_endings(text),
    decreases text.len(),
{
    if text.len() > 0 {
        let rest = text.skip(leading_width(text));
        if starts_with_ending(text) {
            law_canonical_idempotent(rest);
            lemma_ending_prefix(LineEnding::Lf, spec_canonical_line_endings(rest));
        } else {
            law_canonical_idempotent(text.skip(1));
            lemma_plain_char_prefix(text[0], spec_canonical_line_endings(text.skip(1)));
        }
    }
}

} // verus!
