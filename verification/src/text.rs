//! Text as a sequence of characters: the searching, trimming, splitting and
//! joining that the rest of the library is stated in.
use vstd::prelude::*;

verus! {

/// Trusts `String::push`: the character becomes the last one of the string.
pub assume_specification[ String::push ](string: &mut String, character: char)
    ensures
        final(string)@ == old(string)@.push(character),
;

/// The characters of each string of a list.
pub open spec fn texts(strings: Seq<String>) -> Seq<Seq<char>> {
    strings.map_values(|string: String| string@)
}

/// The characters of each slice of a list.
pub open spec fn slices(strings: Seq<&str>) -> Seq<Seq<char>> {
    strings.map_values(|string: &str| string@)
}

/// The characters of a string that may be missing.
pub open spec fn text_of(string: Option<String>) -> Option<Seq<char>> {
    match string {
        Some(string) => Some(string@),
        None => None,
    }
}

/// The characters of a slice that may be missing.
pub open spec fn slice_of(string: Option<&str>) -> Option<Seq<char>> {
    match string {
        Some(string) => Some(string@),
        None => None,
    }
}

/// The value where there is one, else the default.
pub open spec fn or_else<T>(value: Option<T>, default: T) -> T {
    match value {
        Some(value) => value,
        None => default,
    }
}

/// The characters with the Unicode property `White_Space`.
pub open spec fn is_white_space(character: char) -> bool {
    ||| '\u{9}' <= character <= '\u{d}'
    ||| character == '\u{20}'
    ||| character == '\u{85}'
    ||| character == '\u{a0}'
    ||| character == '\u{1680}'
    ||| '\u{2000}' <= character <= '\u{200a}'
    ||| character == '\u{2028}'
    ||| character == '\u{2029}'
    ||| character == '\u{202f}'
    ||| character == '\u{205f}'
    ||| character == '\u{3000}'
}

pub open spec fn is_digit(character: char) -> bool {
    '0' <= character <= '9'
}

/// The text without the white space that it starts with.
pub open spec fn trimmed_start(text: Seq<char>) -> Seq<char>
    decreases text.len(),
{
    if text.len() > 0 && is_white_space(text.first()) {
        trimmed_start(text.drop_first())
    } else {
        text
    }
}

/// The text without the white space that it ends with.
pub open spec fn trimmed_end(text: Seq<char>) -> Seq<char>
    decreases text.len(),
{
    if text.len() > 0 && is_white_space(text.last()) {
        trimmed_end(text.drop_last())
    } else {
        text
    }
}

/// The text without the white space around it.
pub open spec fn trimmed(text: Seq<char>) -> Seq<char> {
    trimmed_end(trimmed_start(text))
}

/// The text without the repetitions of one character that it starts with.
pub open spec fn without_leading(text: Seq<char>, character: char) -> Seq<char>
    decreases text.len(),
{
    if text.len() > 0 && text.first() == character {
        without_leading(text.drop_first(), character)
    } else {
        text
    }
}

/// The text without the repetitions of one character that it ends with.
pub open spec fn without_trailing(text: Seq<char>, character: char) -> Seq<char>
    decreases text.len(),
{
    if text.len() > 0 && text.last() == character {
        without_trailing(text.drop_last(), character)
    } else {
        text
    }
}

/// What follows the prefix, where the text starts with it.
pub open spec fn after_prefix(text: Seq<char>, prefix: Seq<char>) -> Option<Seq<char>> {
    if prefix.is_prefix_of(text) {
        Some(text.skip(prefix.len() as int))
    } else {
        None
    }
}

/// The pattern stands in the text at the index.
pub open spec fn occurs_at(text: Seq<char>, pattern: Seq<char>, index: int) -> bool {
    &&& 0 <= index
    &&& index + pattern.len() <= text.len()
    &&& text.subrange(index, index + pattern.len()) == pattern
}

/// The pattern stands somewhere in the text.
pub open spec fn contains(text: Seq<char>, pattern: Seq<char>) -> bool {
    exists|index: int| occurs_at(text, pattern, index)
}

/// The first place, from an index on, at which the pattern stands.
pub open spec fn find_from(text: Seq<char>, pattern: Seq<char>, index: int) -> Option<int>
    decreases text.len() + 1 - index,
{
    if index < 0 || index > text.len() {
        None
    } else if occurs_at(text, pattern, index) {
        Some(index)
    } else {
        find_from(text, pattern, index + 1)
    }
}

/// What stands before and after the first occurrence of the pattern.
pub open spec fn split_once(text: Seq<char>, pattern: Seq<char>) -> Option<(Seq<char>, Seq<char>)> {
    match find_from(text, pattern, 0) {
        Some(index) => Some((text.take(index), text.skip(index + pattern.len()))),
        None => None,
    }
}

/// The pieces of the text between the occurrences of one character.
pub open spec fn pieces(text: Seq<char>, separator: char) -> Seq<Seq<char>>
    decreases text.len(),
{
    if text.len() == 0 {
        seq![text]
    } else {
        let earlier = pieces(text.drop_last(), separator);
        if text.last() == separator {
            earlier.push(Seq::empty())
        } else {
            earlier.drop_last().push(earlier.last().push(text.last()))
        }
    }
}

/// A line without the carriage return that ends it.
pub open spec fn without_return(line: Seq<char>) -> Seq<char> {
    if line.len() > 0 && line.last() == '\r' {
        line.drop_last()
    } else {
        line
    }
}

/// The lines of the text. Each ends at a line feed, or at a carriage return
/// and a line feed; what follows the last line feed is a line unless it is
/// empty.
pub open spec fn lines_of(text: Seq<char>) -> Seq<Seq<char>> {
    let parts = pieces(text, '\n');
    let ended = parts.drop_last().map_values(|line: Seq<char>| without_return(line));
    if parts.last().len() == 0 {
        ended
    } else {
        ended.push(parts.last())
    }
}

/// The parts that are not blank, each without the white space around it.
pub open spec fn nonblank(parts: Seq<Seq<char>>) -> Seq<Seq<char>>
    decreases parts.len(),
{
    if parts.len() == 0 {
        Seq::empty()
    } else {
        let earlier = nonblank(parts.drop_last());
        let part = trimmed(parts.last());
        if part.len() == 0 {
            earlier
        } else {
            earlier.push(part)
        }
    }
}

pub open spec fn lower_letter(character: char) -> char {
    if 'A' <= character <= 'Z' {
        ((character as u32 + 32) as u8) as char
    } else {
        character
    }
}

/// The text with its ASCII letters in lower case.
pub open spec fn lowered(text: Seq<char>) -> Seq<char> {
    text.map_values(|character: char| lower_letter(character))
}

/// The text with each line feed replaced by a space.
pub open spec fn unfolded(text: Seq<char>) -> Seq<char> {
    text.map_values(|character: char| if character == '\n' { ' ' } else { character })
}

/// The parts, one after the other, with the separator between them.
pub open spec fn joined(parts: Seq<Seq<char>>, separator: Seq<char>) -> Seq<char>
    decreases parts.len(),
{
    if parts.len() == 0 {
        Seq::empty()
    } else if parts.len() == 1 {
        parts[0]
    } else {
        joined(parts.drop_last(), separator) + separator + parts.last()
    }
}

/// The text, followed by spaces up to a width in characters.
pub open spec fn padded(text: Seq<char>, width: nat) -> Seq<char> {
    if text.len() >= width {
        text
    } else {
        text + Seq::new((width - text.len()) as nat, |i: int| ' ')
    }
}

pub open spec fn digit(value: nat) -> char {
    ((48 + value) as u8) as char
}

/// A number in decimal digits.
pub open spec fn decimal(value: nat) -> Seq<char>
    decreases value,
{
    if value < 10 {
        seq![digit(value)]
    } else {
        decimal(value / 10).push(digit(value % 10))
    }
}

/// The first text comes strictly before the second: character by character,
/// by code point, and a text comes after each of its beginnings.
pub open spec fn precedes(left: Seq<char>, right: Seq<char>) -> bool
    decreases left.len(),
{
    if right.len() == 0 {
        false
    } else if left.len() == 0 {
        true
    } else if left[0] != right[0] {
        left[0] < right[0]
    } else {
        precedes(left.drop_first(), right.drop_first())
    }
}

/// The characters of a slice.
pub fn characters(text: &str) -> (result: Vec<char>)
    ensures
        result@ == text@,
{
    let mut result: Vec<char> = Vec::new();
    for character in iter: text.chars()
        invariant
            result@ == iter.seq().take(iter.index() as int),
            iter.seq() == text@,
    {
        result.push(character);
    }
    result
}

/// Two texts are the same.
pub fn same(left: &str, right: &str) -> (result: bool)
    ensures
        result == (left@ == right@),
{
    let first = characters(left);
    let second = characters(right);
    if first.len() != second.len() {
        return false;
    }
    for i in 0..first.len()
        invariant
            first@ == left@,
            second@ == right@,
            first@.len() == second@.len(),
            forall|j: int| 0 <= j < i ==> first@[j] == second@[j],
    {
        if first[i] != second[i] {
            return false;
        }
    }
    assert(first@ =~= second@);
    true
}

/// A text is one of a list.
pub fn is_among(text: &str, list: &[String]) -> (result: bool)
    ensures
        result == texts(list@).contains(text@),
{
    for i in 0..list.len()
        invariant
            forall|j: int| 0 <= j < i ==> texts(list@)[j] != text@,
    {
        if same(list[i].as_str(), text) {
            assert(texts(list@)[i as int] == text@);
            return true;
        }
    }
    false
}

pub fn is_white(character: char) -> (result: bool)
    ensures
        result == is_white_space(character),
{
    ('\u{9}' <= character && character <= '\u{d}') || character == '\u{20}' || character == '\u{85}'
        || character == '\u{a0}' || character == '\u{1680}' || ('\u{2000}' <= character && character
        <= '\u{200a}') || character == '\u{2028}' || character == '\u{2029}' || character
        == '\u{202f}' || character == '\u{205f}' || character == '\u{3000}'
}

/// The text without the white space around it.
pub fn trim<'a>(text: &'a str) -> (result: &'a str)
    ensures
        result@ == trimmed(text@),
{
    let all = characters(text);
    let mut start: usize = 0;
    assert(all@.skip(0) =~= all@);
    while start < all.len() && is_white(all[start])
        invariant
            start <= all@.len(),
            trimmed_start(all@) == trimmed_start(all@.skip(start as int)),
        decreases all@.len() - start,
    {
        assert(all@.skip(start as int).drop_first() =~= all@.skip(start + 1));
        start += 1;
    }
    let ghost body = all@.skip(start as int);
    assert(trimmed_start(all@) == body);
    let mut end: usize = all.len();
    assert(body.take(end - start) =~= body);
    while start < end && is_white(all[end - 1])
        invariant
            start <= end <= all@.len(),
            body == all@.skip(start as int),
            trimmed_end(body) == trimmed_end(body.take(end - start)),
        decreases end - start,
    {
        assert(body.take(end - start).last() == all@[end - 1]);
        assert(body.take(end - start).drop_last() =~= body.take(end - 1 - start));
        end -= 1;
    }
    assert(start < end ==> body.take(end - start).last() == all@[end - 1]);
    assert(body.take(end - start) =~= text@.subrange(start as int, end as int));
    text.substring_char(start, end)
}

/// The text without the repetitions of one character that it ends with.
pub fn trim_trailing<'a>(text: &'a str, character: char) -> (result: &'a str)
    ensures
        result@ == without_trailing(text@, character),
{
    let all = characters(text);
    let mut end: usize = all.len();
    assert(all@.take(end as int) =~= all@);
    while end > 0 && all[end - 1] == character
        invariant
            end <= all@.len(),
            without_trailing(all@, character) == without_trailing(all@.take(end as int), character),
        decreases end,
    {
        assert(all@.take(end as int).drop_last() =~= all@.take(end - 1));
        end -= 1;
    }
    assert(all@.take(end as int) =~= text@.subrange(0, end as int));
    text.substring_char(0, end)
}

/// The text without the repetitions of one character that it starts with.
pub fn trim_leading<'a>(text: &'a str, character: char) -> (result: &'a str)
    ensures
        result@ == without_leading(text@, character),
{
    let all = characters(text);
    let mut start: usize = 0;
    assert(all@.skip(0) =~= all@);
    while start < all.len() && all[start] == character
        invariant
            start <= all@.len(),
            without_leading(all@, character) == without_leading(all@.skip(start as int), character),
        decreases all@.len() - start,
    {
        assert(all@.skip(start as int).drop_first() =~= all@.skip(start + 1));
        start += 1;
    }
    assert(all@.skip(start as int) =~= text@.subrange(start as int, all@.len() as int));
    text.substring_char(start, all.len())
}

/// The pattern stands in the text at the index.
fn matches_at(text: &[char], pattern: &[char], index: usize) -> (result: bool)
    requires
        index + pattern@.len() <= text@.len(),
    ensures
        result == occurs_at(text@, pattern@, index as int),
{
    let ghost window = text@.subrange(index as int, index + pattern@.len());
    let size = text.len();
    for i in 0..pattern.len()
        invariant
            index + pattern@.len() <= text@.len() == size,
            window == text@.subrange(index as int, index + pattern@.len()),
            forall|j: int| 0 <= j < i ==> window[j] == pattern@[j],
    {
        if text[index + i] != pattern[i] {
            assert(window[i as int] != pattern@[i as int]);
            return false;
        }
        assert(window[i as int] == pattern@[i as int]);
    }
    assert(window =~= pattern@);
    true
}

/// The first place at which the pattern stands in the text.
fn find(text: &[char], pattern: &[char]) -> (result: Option<usize>)
    ensures
        match result {
            Some(index) => find_from(text@, pattern@, 0) == Some(index as int) && index
                + pattern@.len() <= text@.len(),
            None => find_from(text@, pattern@, 0) is None,
        },
{
    let mut index: usize = 0;
    while pattern.len() <= text.len() && index <= text.len() - pattern.len()
        invariant
            index <= text@.len(),
            pattern@.len() <= text@.len() ==> index <= text@.len() - pattern@.len() + 1,
            find_from(text@, pattern@, 0) == find_from(text@, pattern@, index as int),
        decreases text@.len() - index,
    {
        if matches_at(text, pattern, index) {
            return Some(index);
        }
        if index == text.len() {
            proof {
                lemma_find_none(text@, pattern@, index + 1);
            }
            return None;
        }
        index += 1;
    }
    proof {
        lemma_find_none(text@, pattern@, index as int);
    }
    None
}

proof fn lemma_find_none(text: Seq<char>, pattern: Seq<char>, index: int)
    requires
        index + pattern.len() > text.len(),
        0 <= index,
    ensures
        find_from(text, pattern, index) is None,
    decreases text.len() + 1 - index,
{
    if index <= text.len() {
        lemma_find_none(text, pattern, index + 1);
    }
}

/// A pattern is found exactly where it stands first.
pub proof fn lemma_find(text: Seq<char>, pattern: Seq<char>, index: int)
    requires
        0 <= index,
    ensures
        match find_from(text, pattern, index) {
            Some(found) => index <= found && occurs_at(text, pattern, found) && forall|j: int|
                index <= j < found ==> !occurs_at(text, pattern, j),
            None => forall|j: int| index <= j ==> !occurs_at(text, pattern, j),
        },
    decreases text.len() + 1 - index,
{
    if index <= text.len() && !occurs_at(text, pattern, index) {
        lemma_find(text, pattern, index + 1);
    }
}

/// The pattern stands somewhere in the text.
pub fn mentions(text: &str, pattern: &str) -> (result: bool)
    ensures
        result == contains(text@, pattern@),
{
    let all = characters(text);
    let sought = characters(pattern);
    proof {
        lemma_find(text@, pattern@, 0);
    }
    match find(all.as_slice(), sought.as_slice()) {
        Some(_) => true,
        None => false,
    }
}

/// What stands before and after the first occurrence of the pattern.
pub fn cut<'a>(text: &'a str, pattern: &str) -> (result: Option<(&'a str, &'a str)>)
    ensures
        match result {
            Some((before, after)) => split_once(text@, pattern@) == Some((before@, after@)),
            None => split_once(text@, pattern@) is None,
        },
{
    let all = characters(text);
    let sought = characters(pattern);
    match find(all.as_slice(), sought.as_slice()) {
        Some(index) => {
            let before = text.substring_char(0, index);
            let end = all.len();
            let after = text.substring_char(index + sought.len(), end);
            assert(before@ =~= text@.take(index as int));
            assert(after@ =~= text@.skip(index + pattern@.len()));
            Some((before, after))
        },
        None => None,
    }
}

/// The text starts with the prefix.
pub fn starts_with(text: &str, prefix: &str) -> (result: bool)
    ensures
        result == prefix@.is_prefix_of(text@),
{
    let all = characters(text);
    let sought = characters(prefix);
    if sought.len() > all.len() {
        return false;
    }
    let result = matches_at(all.as_slice(), sought.as_slice(), 0);
    assert(text@.subrange(0, prefix@.len() as int) =~= text@.take(prefix@.len() as int));
    result
}

/// What follows the prefix, where the text starts with it.
pub fn strip_prefix<'a>(text: &'a str, prefix: &str) -> (result: Option<&'a str>)
    ensures
        slice_of(result) == after_prefix(text@, prefix@),
{
    if starts_with(text, prefix) {
        let start = prefix.unicode_len();
        let end = text.unicode_len();
        let rest = text.substring_char(start, end);
        assert(rest@ =~= text@.skip(prefix@.len() as int));
        Some(rest)
    } else {
        None
    }
}

/// The pieces of the text between the occurrences of one character.
pub fn split(text: &str, separator: char) -> (result: Vec<String>)
    ensures
        texts(result@) == pieces(text@, separator),
        result@.len() > 0,
{
    let mut earlier: Vec<String> = Vec::new();
    let mut current = String::new();
    assert(texts(earlier@).push(current@) =~= seq![Seq::<char>::empty()]);
    assert(text@.take(0) =~= Seq::<char>::empty());
    for character in iter: text.chars()
        invariant
            iter.seq() == text@,
            texts(earlier@).push(current@) == pieces(text@.take(iter.index() as int), separator),
    {
        let ghost done = texts(earlier@).push(current@);
        let ghost taken = text@.take(iter.index() + 1);
        assert(taken.drop_last() =~= text@.take(iter.index() as int));
        assert(done.drop_last() =~= texts(earlier@));
        if character == separator {
            earlier.push(current);
            current = String::new();
            assert(texts(earlier@) =~= done);
            assert(texts(earlier@).push(current@) =~= done.push(Seq::empty()));
        } else {
            current.push(character);
            assert(texts(earlier@).push(current@) =~= done.drop_last().push(
                done.last().push(character),
            ));
        }
    }
    assert(text@.take(text@.len() as int) =~= text@);
    let ghost done = texts(earlier@).push(current@);
    earlier.push(current);
    assert(texts(earlier@) =~= done);
    earlier
}

/// The last of the pieces of the text between the occurrences of one character.
pub fn after_last<'a>(text: &'a str, separator: char) -> (result: &'a str)
    ensures
        result@ == pieces(text@, separator).last(),
{
    let all = characters(text);
    let mut start: usize = 0;
    assert(all@.take(0).subrange(0, 0) =~= all@.take(0));
    assert(pieces(all@.take(0), separator).last() =~= all@.subrange(0, 0));
    for i in 0..all.len()
        invariant
            start <= i,
            pieces(all@.take(i as int), separator).last() == all@.subrange(start as int, i as int),
    {
        let ghost taken = all@.take(i + 1);
        assert(taken.drop_last() =~= all@.take(i as int));
        if all[i] == separator {
            start = i + 1;
            assert(all@.subrange(i + 1, i + 1) =~= Seq::<char>::empty());
        } else {
            assert(all@.subrange(start as int, i + 1) =~= all@.subrange(start as int, i as int).push(
                all@[i as int],
            ));
        }
    }
    assert(all@.take(all@.len() as int) =~= all@);
    text.substring_char(start, all.len())
}

/// A text splits into at least one piece.
pub proof fn lemma_pieces_nonempty(text: Seq<char>, separator: char)
    ensures
        pieces(text, separator).len() > 0,
    decreases text.len(),
{
    if text.len() > 0 {
        lemma_pieces_nonempty(text.drop_last(), separator);
    }
}

/// The lines of the text.
pub fn lines(text: &str) -> (result: Vec<String>)
    ensures
        texts(result@) == lines_of(text@),
{
    let parts = split(text, '\n');
    let ghost spec_parts = pieces(text@, '\n');
    let mut result: Vec<String> = Vec::new();
    for i in 0..parts.len() - 1
        invariant
            parts@.len() > 0,
            texts(parts@) == spec_parts,
            texts(result@) == spec_parts.take(i as int).map_values(
                |line: Seq<char>| without_return(line),
            ),
    {
        let line = parts[i].as_str();
        assert(line@ == spec_parts[i as int]);
        let ghost before = texts(result@);
        let length = line.unicode_len();
        if length > 0 && line.get_char(length - 1) == '\r' {
            let cut = line.substring_char(0, length - 1);
            assert(cut@ =~= line@.drop_last());
            result.push(cut.to_owned());
        } else {
            result.push(line.to_owned());
        }
        assert(texts(result@) =~= before.push(without_return(line@)));
        assert(spec_parts.take(i + 1).map_values(|line: Seq<char>| without_return(line))
            =~= before.push(without_return(line@)));
    }
    assert(spec_parts.take(parts.len() - 1) =~= spec_parts.drop_last());
    let last = parts[parts.len() - 1].as_str();
    assert(last@ == spec_parts.last());
    if !last.is_empty() {
        let ghost before = texts(result@);
        result.push(last.to_owned());
        assert(texts(result@) =~= before.push(last@));
    }
    result
}

/// A text that may be missing is the given one.
pub fn is_given(text: Option<&str>, other: &str) -> (result: bool)
    ensures
        result == (slice_of(text) == Some(other@)),
{
    match text {
        Some(text) => same(text, other),
        None => false,
    }
}

/// A slice of a string that may be missing.
pub fn borrowed(text: &Option<String>) -> (result: Option<&str>)
    ensures
        slice_of(result) == text_of(*text),
{
    match text {
        Some(text) => Some(text.as_str()),
        None => None,
    }
}

/// A copy of a string that may be missing, or the default.
pub fn copied_or(text: &Option<String>, default: &str) -> (result: String)
    ensures
        result@ == or_else(text_of(*text), default@),
{
    match text {
        Some(text) => text.clone(),
        None => default.to_owned(),
    }
}

/// A copy of a string that may be missing.
pub fn copied_text(text: &Option<String>) -> (result: Option<String>)
    ensures
        text_of(result) == text_of(*text),
{
    match text {
        Some(text) => Some(text.clone()),
        None => None,
    }
}

/// The parts that are not blank, each without the white space around it.
pub fn keep_nonblank(parts: &[String]) -> (result: Vec<String>)
    ensures
        texts(result@) == nonblank(texts(parts@)),
{
    let mut result: Vec<String> = Vec::new();
    for i in 0..parts.len()
        invariant
            texts(result@) == nonblank(texts(parts@).take(i as int)),
    {
        let ghost before = texts(result@);
        assert(texts(parts@).take(i + 1).drop_last() =~= texts(parts@).take(i as int));
        let part = trim(parts[i].as_str());
        if !part.is_empty() {
            result.push(part.to_owned());
            assert(texts(result@) =~= before.push(part@));
        }
    }
    assert(texts(parts@).take(parts@.len() as int) =~= texts(parts@));
    result
}

pub fn to_lower(character: char) -> (result: char)
    ensures
        result == lower_letter(character),
{
    if 'A' <= character && character <= 'Z' {
        ((character as u8) + 32) as char
    } else {
        character
    }
}

/// The text with its ASCII letters in lower case.
pub fn lowercase(text: &str) -> (result: String)
    ensures
        result@ == lowered(text@),
{
    let mut result = String::new();
    for character in iter: text.chars()
        invariant
            iter.seq() == text@,
            result@ == lowered(text@.take(iter.index() as int)),
    {
        let ghost before = result@;
        result.push(to_lower(character));
        assert(lowered(text@.take(iter.index() + 1)) =~= before.push(lower_letter(character)));
    }
    assert(text@.take(text@.len() as int) =~= text@);
    result
}

/// The text with each line feed replaced by a space.
pub fn unfold(text: &str) -> (result: String)
    ensures
        result@ == unfolded(text@),
{
    let mut result = String::new();
    for character in iter: text.chars()
        invariant
            iter.seq() == text@,
            result@ == unfolded(text@.take(iter.index() as int)),
    {
        let shown: char = if character == '\n' {
            ' '
        } else {
            character
        };
        let ghost before = result@;
        result.push(shown);
        assert(unfolded(text@.take(iter.index() + 1)) =~= before.push(shown));
    }
    assert(text@.take(text@.len() as int) =~= text@);
    result
}

/// The strings, one after the other, with the separator between them.
pub fn join(parts: &[String], separator: &str) -> (result: String)
    ensures
        result@ == joined(texts(parts@), separator@),
{
    let mut result = String::new();
    for i in 0..parts.len()
        invariant
            result@ == joined(texts(parts@).take(i as int), separator@),
    {
        let ghost next = texts(parts@).take(i + 1);
        assert(next.drop_last() =~= texts(parts@).take(i as int));
        if i > 0 {
            result.append(separator);
            result.append(parts[i].as_str());
        } else {
            result = parts[i].clone();
        }
    }
    assert(texts(parts@).take(parts@.len() as int) =~= texts(parts@));
    result
}

/// Owned copies of a list of slices.
pub fn owned(list: &[&str]) -> (result: Vec<String>)
    ensures
        texts(result@) == slices(list@),
{
    let mut result: Vec<String> = Vec::new();
    for i in 0..list.len()
        invariant
            texts(result@) == slices(list@).take(i as int),
    {
        let ghost before = texts(result@);
        result.push(list[i].to_owned());
        assert(texts(result@) =~= before.push(list@[i as int]@));
        assert(slices(list@).take(i + 1) =~= before.push(list@[i as int]@));
    }
    assert(slices(list@).take(list@.len() as int) =~= slices(list@));
    result
}

/// The text, followed by spaces up to a width in characters.
pub fn pad(text: &str, width: usize) -> (result: String)
    ensures
        result@ == padded(text@, width as nat),
{
    let mut result = text.to_owned();
    let mut length = text.unicode_len();
    while length < width
        invariant
            text@.len() <= length,
            length <= width || length == text@.len(),
            result@ == padded(text@, length as nat),
        decreases width - length,
    {
        result.push(' ');
        length += 1;
        assert(result@ =~= padded(text@, length as nat));
    }
    assert(result@ =~= padded(text@, width as nat));
    result
}

/// A number in decimal digits.
pub fn number(value: usize) -> (result: String)
    ensures
        result@ == decimal(value as nat),
    decreases value,
{
    let last: char = (48 + (value % 10) as u8) as char;
    let mut result = if value < 10 {
        String::new()
    } else {
        number(value / 10)
    };
    result.push(last);
    assert(value < 10 ==> result@ =~= seq![digit(value as nat)]);
    result
}

/// The first text comes strictly before the second.
pub fn comes_before(left: &str, right: &str) -> (result: bool)
    ensures
        result == precedes(left@, right@),
{
    let left = characters(left);
    let right = characters(right);
    let mut i: usize = 0;
    assert(left@.skip(0) =~= left@);
    assert(right@.skip(0) =~= right@);
    while i < left.len() && i < right.len() && left[i] == right[i]
        invariant
            i <= left@.len(),
            i <= right@.len(),
            precedes(left@, right@) == precedes(left@.skip(i as int), right@.skip(i as int)),
        decreases left@.len() - i,
    {
        assert(left@.skip(i as int).drop_first() =~= left@.skip(i + 1));
        assert(right@.skip(i as int).drop_first() =~= right@.skip(i + 1));
        i += 1;
    }
    if i >= right.len() {
        false
    } else if i >= left.len() {
        true
    } else {
        left[i] < right[i]
    }
}

/// No piece holds the separator.
pub proof fn law_pieces_separated(text: Seq<char>, separator: char)
    ensures
        forall|i: int|
            0 <= i < pieces(text, separator).len() ==> !(#[trigger] pieces(
                text,
                separator,
            )[i]).contains(separator),
    decreases text.len(),
{
    let parts = pieces(text, separator);
    if text.len() > 0 {
        law_pieces_separated(text.drop_last(), separator);
        lemma_pieces_nonempty(text.drop_last(), separator);
        let earlier = pieces(text.drop_last(), separator);
        assert forall|i: int| 0 <= i < parts.len() implies !(#[trigger] parts[i]).contains(
            separator,
        ) by {
            if i < earlier.len() - 1 {
                assert(parts[i] == earlier[i]);
            } else if i < earlier.len() {
                assert(!earlier[i].contains(separator));
                if text.last() != separator && parts[i].contains(separator) {
                    let k = choose|k: int| 0 <= k < parts[i].len() && parts[i][k] == separator;
                    assert(earlier[i][k] == separator);
                }
            }
        }
    }
}

/// What stands in a line stands in the text.
pub proof fn lemma_line_characters(text: Seq<char>, index: int, character: char)
    requires
        0 <= index < lines_of(text).len(),
        lines_of(text)[index].contains(character),
    ensures
        text.contains(character),
{
    lemma_pieces_nonempty(text, '\n');
    let line = lines_of(text)[index];
    let part = pieces(text, '\n')[index];
    let k = choose|k: int| 0 <= k < line.len() && line[k] == character;
    assert(part[k] == character);
    lemma_piece_characters(text, '\n', index, character);
}

proof fn lemma_piece_characters(text: Seq<char>, separator: char, index: int, character: char)
    requires
        0 <= index < pieces(text, separator).len(),
        pieces(text, separator)[index].contains(character),
    ensures
        text.contains(character),
    decreases text.len(),
{
    if text.len() > 0 {
        let fewer = text.drop_last();
        let earlier = pieces(fewer, separator);
        let part = pieces(text, separator)[index];
        lemma_pieces_nonempty(fewer, separator);
        let k = choose|k: int| 0 <= k < part.len() && part[k] == character;
        assert(text[text.len() - 1] == text.last());
        if index < earlier.len() && k < earlier[index].len() {
            assert(earlier[index][k] == character);
            lemma_piece_characters(fewer, separator, index, character);
            let m = choose|m: int| 0 <= m < fewer.len() && fewer[m] == character;
            assert(text[m] == character);
        }
    }
}

/// No line holds a line feed.
pub proof fn law_lines_separated(text: Seq<char>)
    ensures
        forall|i: int|
            0 <= i < lines_of(text).len() ==> !(#[trigger] lines_of(text)[i]).contains('\n'),
{
    law_pieces_separated(text, '\n');
    lemma_pieces_nonempty(text, '\n');
    let parts = pieces(text, '\n');
    let all = lines_of(text);
    assert forall|i: int| 0 <= i < all.len() implies !(#[trigger] all[i]).contains('\n') by {
        assert(!parts[i].contains('\n'));
        if all[i].contains('\n') {
            let k = choose|k: int| 0 <= k < all[i].len() && all[i][k] == '\n';
            assert(parts[i][k] == '\n');
        }
    }
}

/// Characters that are not the separator only lengthen the last piece.
pub proof fn lemma_pieces_extend(text: Seq<char>, more: Seq<char>, separator: char)
    requires
        !more.contains(separator),
    ensures
        pieces(text + more, separator) == pieces(text, separator).drop_last().push(
            pieces(text, separator).last() + more,
        ),
    decreases more.len(),
{
    lemma_pieces_nonempty(text, separator);
    if more.len() == 0 {
        assert(text + more =~= text);
        assert(pieces(text, separator).last() + more =~= pieces(text, separator).last());
        assert(pieces(text, separator) =~= pieces(text, separator).drop_last().push(
            pieces(text, separator).last(),
        ));
    } else {
        let fewer = more.drop_last();
        assert(!fewer.contains(separator)) by {
            if fewer.contains(separator) {
                let k = choose|k: int| 0 <= k < fewer.len() && fewer[k] == separator;
                assert(more[k] == separator);
            }
        }
        lemma_pieces_extend(text, fewer, separator);
        assert(more.contains(more.last()));
        assert((text + more).drop_last() =~= text + fewer);
        let earlier = pieces(text + fewer, separator);
        assert(earlier.drop_last() =~= pieces(text, separator).drop_last());
        assert(earlier.last().push(more.last()) =~= pieces(text, separator).last() + more);
    }
}

/// The lines, each followed by a line feed.
pub open spec fn text_of_lines(lines: Seq<Seq<char>>) -> Seq<char>
    decreases lines.len(),
{
    if lines.len() == 0 {
        Seq::empty()
    } else {
        text_of_lines(lines.drop_last()) + lines.last() + seq!['\n']
    }
}

/// A line that reading gives back as it was written.
pub open spec fn is_plain_line(line: Seq<char>) -> bool {
    !line.contains('\n') && !(line.len() > 0 && line.last() == '\r')
}

proof fn lemma_pieces_of_lines(lines: Seq<Seq<char>>)
    requires
        forall|i: int| 0 <= i < lines.len() ==> !(#[trigger] lines[i]).contains('\n'),
    ensures
        pieces(text_of_lines(lines), '\n') == lines.push(Seq::empty()),
    decreases lines.len(),
{
    if lines.len() == 0 {
        assert(pieces(text_of_lines(lines), '\n') =~= lines.push(Seq::empty()));
    } else {
        let fewer = lines.drop_last();
        let start = text_of_lines(fewer);
        assert forall|i: int| 0 <= i < fewer.len() implies !(#[trigger] fewer[i]).contains('\n') by {
            assert(!lines[i].contains('\n'));
        }
        lemma_pieces_of_lines(fewer);
        assert(!lines[lines.len() - 1].contains('\n'));
        lemma_pieces_extend(start, lines.last(), '\n');
        let whole = start + lines.last() + seq!['\n'];
        assert(whole.drop_last() =~= start + lines.last());
        assert(Seq::<char>::empty() + lines.last() =~= lines.last());
        assert(pieces(start, '\n').drop_last() =~= fewer);
        assert(fewer.push(lines.last()) =~= lines);
    }
}

/// Lines that hold no line feed and end in no carriage return are read back as
/// they were written.
pub proof fn law_lines_read_back(lines: Seq<Seq<char>>)
    requires
        forall|i: int| 0 <= i < lines.len() ==> is_plain_line(#[trigger] lines[i]),
    ensures
        lines_of(text_of_lines(lines)) == lines,
{
    assert forall|i: int| 0 <= i < lines.len() implies !(#[trigger] lines[i]).contains('\n') by {
        assert(is_plain_line(lines[i]));
    }
    lemma_pieces_of_lines(lines);
    let parts = lines.push(Seq::empty());
    assert(parts.drop_last() =~= lines);
    assert forall|i: int| 0 <= i < lines.len() implies without_return(#[trigger] lines[i])
        == lines[i] by {
        assert(is_plain_line(lines[i]));
    }
    assert(lines.map_values(|line: Seq<char>| without_return(line)) =~= lines);
}

/// No text comes before itself.
pub proof fn law_order_irreflexive(text: Seq<char>)
    ensures
        !precedes(text, text),
    decreases text.len(),
{
    if text.len() > 0 {
        law_order_irreflexive(text.drop_first());
    }
}

/// The order of texts is transitive.
pub proof fn law_order_transitive(left: Seq<char>, middle: Seq<char>, right: Seq<char>)
    requires
        precedes(left, middle),
        precedes(middle, right),
    ensures
        precedes(left, right),
    decreases left.len(),
{
    if left.len() > 0 && left[0] == middle[0] && middle[0] == right[0] {
        law_order_transitive(left.drop_first(), middle.drop_first(), right.drop_first());
    }
}

/// Of two texts that differ, one comes before the other.
pub proof fn law_order_total(left: Seq<char>, right: Seq<char>)
    ensures
        left == right || precedes(left, right) || precedes(right, left),
    decreases left.len(),
{
    if left.len() > 0 && right.len() > 0 && left[0] == right[0] {
        law_order_total(left.drop_first(), right.drop_first());
        if left.drop_first() == right.drop_first() {
            assert(left =~= seq![left[0]] + left.drop_first());
            assert(right =~= seq![right[0]] + right.drop_first());
        }
    } else if left.len() == 0 && right.len() == 0 {
        assert(left =~= right);
    }
}

} // verus!
