//! What holds of texts and their parts.
use crate::text::{
    contains, decimal, is_white_space, joined, lemma_pieces_extend, lemma_pieces_nonempty, lines_of,
    lowered, occurs_at, padded, pieces, precedes, trimmed, trimmed_end, without_leading,
    without_return, without_trailing,
};
use vstd::prelude::*;

verus! {

/// A text that neither starts nor ends in white space stays as it is when it is
/// trimmed.
pub proof fn law_trimmed_bare(text: Seq<char>)
    requires
        text.len() > 0,
        !is_white_space(text.first()),
        !is_white_space(text.last()),
    ensures
        trimmed(text) == text,
{
}

/// All of the text is white space.
pub open spec fn is_blank(text: Seq<char>) -> bool {
    forall|i: int| 0 <= i < text.len() ==> is_white_space(#[trigger] text[i])
}

/// Trimming takes white space away from both ends, as far as there is any, and
/// nothing else.
pub proof fn law_trimmed(before: Seq<char>, text: Seq<char>, after: Seq<char>)
    requires
        is_blank(before),
        is_blank(after),
        text.len() > 0 ==> !is_white_space(text.first()) && !is_white_space(text.last()),
    ensures
        trimmed(before + text + after) == text,
    decreases before.len() + after.len(),
{
    let whole = before + text + after;
    if before.len() > 0 {
        assert(whole.first() == before[0]);
        let less = before.drop_first();
        assert forall|i: int| 0 <= i < less.len() implies is_white_space(#[trigger] less[i]) by {
            assert(less[i] == before[i + 1]);
        }
        assert(whole.drop_first() =~= less + text + after);
        law_trimmed(less, text, after);
    } else {
        assert(whole =~= text + after);
        if text.len() > 0 {
            assert(whole.first() == text.first());
            lemma_trimmed_end(text, after);
        } else {
            assert(whole =~= after);
            lemma_trimmed_blank(after);
            assert(text =~= Seq::<char>::empty());
        }
    }
}

proof fn lemma_trimmed_end(text: Seq<char>, after: Seq<char>)
    requires
        is_blank(after),
        text.len() > 0,
        !is_white_space(text.last()),
    ensures
        trimmed_end(text + after) == text,
    decreases after.len(),
{
    let whole = text + after;
    if after.len() > 0 {
        assert(whole.last() == after[after.len() - 1]);
        let less = after.drop_last();
        assert forall|i: int| 0 <= i < less.len() implies is_white_space(#[trigger] less[i]) by {
            assert(less[i] == after[i]);
        }
        assert(whole.drop_last() =~= text + less);
        lemma_trimmed_end(text, less);
    } else {
        assert(whole =~= text);
    }
}

proof fn lemma_trimmed_blank(text: Seq<char>)
    requires
        is_blank(text),
    ensures
        trimmed(text).len() == 0,
    decreases text.len(),
{
    if text.len() > 0 {
        assert(is_white_space(text[0]));
        let less = text.drop_first();
        assert forall|i: int| 0 <= i < less.len() implies is_white_space(#[trigger] less[i]) by {
            assert(less[i] == text[i + 1]);
        }
        lemma_trimmed_blank(less);
    }
}

/// Among the ASCII characters the space, the tabs, the ends of lines and the form
/// feed are white space, and no others.
pub proof fn law_white_space(character: char)
    requires
        character as u32 <= 127,
    ensures
        is_white_space(character) <==> character == ' ' || character == '\t' || character == '\n'
            || character == '\u{b}' || character == '\u{c}' || character == '\r',
{
}

/// One text stands in another where the other goes on before and behind it.
pub proof fn law_contains(text: Seq<char>, pattern: Seq<char>)
    ensures
        contains(text, pattern) <==> exists|before: Seq<char>, after: Seq<char>|
            text == #[trigger] (before + pattern + after),
{
    if contains(text, pattern) {
        let index = choose|index: int| occurs_at(text, pattern, index);
        let before = text.take(index);
        let after = text.skip(index + pattern.len());
        assert forall|i: int| 0 <= i < pattern.len() implies text[index + i] == pattern[i] by {
            assert(text.subrange(index, index + pattern.len())[i] == text[index + i]);
        }
        assert(text =~= before + pattern + after);
    }
    if exists|before: Seq<char>, after: Seq<char>| text == #[trigger] (before + pattern + after) {
        let (before, after) = choose|before: Seq<char>, after: Seq<char>|
            text == #[trigger] (before + pattern + after);
        let start = before.len() as int;
        assert(text.subrange(start, start + pattern.len()) =~= pattern);
        assert(occurs_at(text, pattern, start));
    }
}

/// Lower case changes the capital ASCII letters alone, each to its small one.
pub proof fn law_lowered(text: Seq<char>)
    ensures
        lowered(text).len() == text.len(),
        forall|i: int|
            0 <= i < text.len() ==> (#[trigger] lowered(text)[i]) as u32 == if 'A' <= text[i]
                <= 'Z' {
                (text[i] as u32 + 32) as u32
            } else {
                text[i] as u32
            },
{
}

/// The pieces of a text: a separator begins a new one, and what holds none is one.
pub proof fn law_pieces(text: Seq<char>, separator: char, last: Seq<char>)
    requires
        !last.contains(separator),
    ensures
        pieces(last, separator) == seq![last],
        pieces(text + seq![separator] + last, separator) == pieces(text, separator).push(last),
{
    let none = Seq::<char>::empty();
    lemma_pieces_extend(none, last, separator);
    assert(none + last =~= last);
    assert(pieces(none, separator) =~= seq![none]);
    assert(pieces(none, separator).drop_last().push(none + last) =~= seq![last]);
    let start = text + seq![separator];
    lemma_pieces_extend(start, last, separator);
    assert(start.drop_last() =~= text);
    assert(pieces(start, separator) =~= pieces(text, separator).push(none));
    assert(pieces(start, separator).drop_last() =~= pieces(text, separator));
}

/// A line ends at a line feed; a carriage return before that is no part of it. What
/// follows the last line feed is a line where it is not empty.
pub proof fn law_lines(text: Seq<char>, last: Seq<char>)
    requires
        text.len() == 0 || text.last() == '\n',
        !last.contains('\n'),
    ensures
        last.len() > 0 ==> lines_of(text + last) == lines_of(text).push(last),
        lines_of(text + last + seq!['\n']) == lines_of(text).push(without_return(last)),
        lines_of(text + last + seq!['\r', '\n']) == lines_of(text).push(last),
{
    let none = Seq::<char>::empty();
    let parts = pieces(text, '\n');
    lemma_pieces_nonempty(text, '\n');
    lemma_pieces_extend(text, last, '\n');
    assert(parts.last() =~= none);
    assert(none + last =~= last);
    let whole = pieces(text + last, '\n');
    assert(whole.drop_last() =~= parts.drop_last());
    if last.len() > 0 {
        assert(lines_of(text + last) =~= lines_of(text).push(last));
    }
    let ended = text + last + seq!['\n'];
    assert(ended.drop_last() =~= text + last);
    assert(pieces(ended, '\n') =~= whole.push(none));
    assert(pieces(ended, '\n').drop_last() =~= whole);
    assert(lines_of(ended) =~= lines_of(text).push(without_return(last)));
    let returned = last.push('\r');
    assert(!returned.contains('\n')) by {
        if returned.contains('\n') {
            let k = choose|k: int| 0 <= k < returned.len() && returned[k] == '\n';
            assert(last[k] == '\n');
        }
    }
    lemma_pieces_extend(text, returned, '\n');
    assert(none + returned =~= returned);
    let other = pieces(text + returned, '\n');
    assert(other.drop_last() =~= parts.drop_last());
    let closed = text + last + seq!['\r', '\n'];
    assert(closed.drop_last() =~= text + returned);
    assert(pieces(closed, '\n') =~= other.push(none));
    assert(pieces(closed, '\n').drop_last() =~= other);
    assert(returned.drop_last() =~= last);
    assert(lines_of(closed) =~= lines_of(text).push(last));
}

/// Texts are joined with the separator between any two of them.
pub proof fn law_joined(parts: Seq<Seq<char>>, last: Seq<char>, separator: Seq<char>)
    ensures
        joined(seq![last], separator) == last,
        parts.len() > 0 ==> joined(parts.push(last), separator) == joined(parts, separator)
            + separator + last,
        joined(Seq::empty(), separator).len() == 0,
{
    assert(parts.push(last).drop_last() =~= parts);
}

/// A padded text is the text with spaces behind it, up to the width.
pub proof fn law_padded(text: Seq<char>, width: nat)
    ensures
        text.is_prefix_of(padded(text, width)),
        padded(text, width).len() == if text.len() < width {
            width
        } else {
            text.len()
        },
        forall|i: int|
            text.len() <= i < padded(text, width).len() ==> #[trigger] padded(text, width)[i] == ' ',
{
    assert(padded(text, width).subrange(0, text.len() as int) =~= text);
}

/// The number that digits stand for.
pub open spec fn number_of(digits: Seq<char>) -> int
    decreases digits.len(),
{
    if digits.len() == 0 {
        0
    } else {
        10 * number_of(digits.drop_last()) + (digits.last() as u32 - '0' as u32)
    }
}

/// A number is written by the digits that stand for it, the first of them not zero
/// unless it is the only one.
pub proof fn law_decimal(value: nat)
    ensures
        number_of(decimal(value)) == value,
        decimal(value).len() > 0,
        forall|i: int| 0 <= i < decimal(value).len() ==> '0' <= #[trigger] decimal(value)[i] <= '9',
        value > 0 ==> decimal(value)[0] != '0',
    decreases value,
{
    reveal_with_fuel(number_of, 2);
    if value >= 10 {
        law_decimal(value / 10);
        assert(decimal(value).drop_last() =~= decimal(value / 10));
        assert(decimal(value)[0] == decimal(value / 10)[0]);
    } else {
        assert(decimal(value).drop_last() =~= Seq::<char>::empty());
    }
}

/// Texts are ordered by the first character in which they differ; one that goes on
/// where the other ends comes behind it.
pub proof fn law_order(common: Seq<char>, left: Seq<char>, right: Seq<char>)
    requires
        right.len() > 0,
        left.len() == 0 || left[0] < right[0],
    ensures
        precedes(common + left, common + right),
    decreases common.len(),
{
    if common.len() == 0 {
        assert(common + left =~= left);
        assert(common + right =~= right);
    } else {
        law_order(common.drop_first(), left, right);
        assert((common + left).drop_first() =~= common.drop_first() + left);
        assert((common + right).drop_first() =~= common.drop_first() + right);
        assert((common + left)[0] == common[0] && (common + right)[0] == common[0]);
    }
}

/// A character is taken away from an end as often as it stands there.
pub proof fn law_without(text: Seq<char>, character: char)
    ensures
        without_trailing(text.push(character), character) == without_trailing(text, character),
        text.len() == 0 || text.last() != character ==> without_trailing(text, character) == text,
        without_leading(seq![character] + text, character) == without_leading(text, character),
        text.len() == 0 || text.first() != character ==> without_leading(text, character) == text,
{
    assert(text.push(character).drop_last() =~= text);
    assert((seq![character] + text).drop_first() =~= text);
}

} // verus!
