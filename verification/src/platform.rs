//! How paths are written on a platform: what separates their parts, what stands
//! before the parts, how a path is joined to a directory, and which name is last.
use crate::text::{characters, pieces, same, split, text_of, texts};
use vstd::prelude::*;
use vstd::utf8::encode_utf8;

verus! {

/// The platforms, by how they write paths.
#[derive(Debug, Clone, Copy, PartialEq, Eq)]
pub enum Platform {
    /// A slash separates the parts of a path.
    Unix,
    /// A backslash does, or a slash; a drive, a share or a device may stand before
    /// the parts.
    Windows,
}

pub const SLASH: u8 = 47;

pub const BACKSLASH: u8 = 92;

/// The character separates parts on Windows, where a slash may or may not.
pub open spec fn breaks(character: char, slash: bool) -> bool {
    character == '\\' || (slash && character == '/')
}

/// The character separates parts on Windows, where a slash may or may not.
fn is_break(character: char, slash: bool) -> (result: bool)
    ensures
        result == breaks(character, slash),
{
    character == '\\' || (slash && character == '/')
}

/// A Windows path that is taken to the letter: it starts with `\\?\`, and no slash
/// separates its parts.
pub open spec fn is_verbatim(path: Seq<char>) -> bool {
    path.len() >= 4 && path[0] == '\\' && path[1] == '\\' && path[2] == '?' && path[3] == '\\'
}

/// A Windows path that is taken to the letter.
fn verbatim(path: &[char]) -> (result: bool)
    ensures
        result == is_verbatim(path@),
{
    path.len() >= 4 && path[0] == '\\' && path[1] == '\\' && path[2] == '?' && path[3] == '\\'
}

/// A Windows path that starts with the letter of a drive.
pub open spec fn has_drive(path: Seq<char>) -> bool {
    path.len() >= 2 && ('a' <= path[0] <= 'z' || 'A' <= path[0] <= 'Z') && path[1] == ':'
}

/// A Windows path that starts with the letter of a drive.
fn starts_with_drive(path: &[char]) -> (result: bool)
    ensures
        result == has_drive(path@),
{
    path.len() >= 2 && (('a' <= path[0] && path[0] <= 'z') || ('A' <= path[0] && path[0] <= 'Z'))
        && path[1] == ':'
}

/// Where the part that starts there ends: at the next separator, or with the path.
pub open spec fn part_end(path: Seq<char>, start: int, slash: bool) -> int
    decreases path.len() - start,
{
    if start < 0 || start >= path.len() || breaks(path[start], slash) {
        start
    } else {
        part_end(path, start + 1, slash)
    }
}

/// Where the part that starts there ends.
fn end_of_part(path: &[char], start: usize, slash: bool) -> (result: usize)
    requires
        start <= path@.len(),
    ensures
        result == part_end(path@, start as int, slash),
        start <= result <= path@.len(),
{
    let mut end: usize = start;
    while end < path.len() && !is_break(path[end], slash)
        invariant
            start <= end <= path@.len(),
            part_end(path@, start as int, slash) == part_end(path@, end as int, slash),
        decreases path@.len() - end,
    {
        end += 1;
    }
    end
}

/// Where the two parts that start there end: the names of a server and of a share
/// on it. Where no second part follows, the first alone.
pub open spec fn share_end(path: Seq<char>, start: int, slash: bool) -> int {
    let server = part_end(path, start, slash);
    let share = part_end(path, server + 1, slash);
    if server + 1 < share {
        share
    } else {
        server
    }
}

/// Where the two parts that start there end.
fn end_of_share(path: &[char], start: usize, slash: bool) -> (result: usize)
    requires
        start <= path@.len(),
    ensures
        result == share_end(path@, start as int, slash),
        start <= result <= path@.len(),
{
    let server = end_of_part(path, start, slash);
    if server == path.len() {
        return server;
    }
    let share = end_of_part(path, server + 1, slash);
    if server + 1 < share {
        share
    } else {
        server
    }
}

/// Where the prefix of a Windows path ends: what names the drive, the share or the
/// device, before the parts.
pub open spec fn prefix_end(path: Seq<char>) -> int {
    if is_verbatim(path) {
        if path.len() >= 8 && path[4] == 'U' && path[5] == 'N' && path[6] == 'C' && breaks(
            path[7],
            true,
        ) {
            share_end(path, 8, false)
        } else {
            part_end(path, 4, false)
        }
    } else if path.len() >= 2 && breaks(path[0], true) && breaks(path[1], true) {
        if path.len() >= 4 && path[2] == '.' && breaks(path[3], true) {
            part_end(path, 4, true)
        } else if 2 < part_end(path, 2, true) < share_end(path, 2, true) {
            share_end(path, 2, true)
        } else {
            0
        }
    } else if has_drive(path) {
        2
    } else {
        0
    }
}

/// Where the prefix of a Windows path ends.
fn end_of_prefix(path: &[char]) -> (result: usize)
    ensures
        result == prefix_end(path@),
        result <= path@.len(),
{
    if verbatim(path) {
        if path.len() >= 8 && path[4] == 'U' && path[5] == 'N' && path[6] == 'C' && is_break(
            path[7],
            true,
        ) {
            end_of_share(path, 8, false)
        } else {
            end_of_part(path, 4, false)
        }
    } else if path.len() >= 2 && is_break(path[0], true) && is_break(path[1], true) {
        if path.len() >= 4 && path[2] == '.' && is_break(path[3], true) {
            end_of_part(path, 4, true)
        } else {
            let server = end_of_part(path, 2, true);
            let share = end_of_share(path, 2, true);
            if 2 < server && server < share {
                share
            } else {
                0
            }
        }
    } else if starts_with_drive(path) {
        2
    } else {
        0
    }
}

/// The bytes as characters, one for each.
pub open spec fn letters_of(bytes: Seq<u8>) -> Seq<char> {
    bytes.map_values(|byte: u8| byte as char)
}

/// The bytes as characters, one for each.
fn letters(bytes: &[u8]) -> (result: Vec<char>)
    ensures
        result@ == letters_of(bytes@),
{
    let mut result: Vec<char> = Vec::new();
    for i in 0..bytes.len()
        invariant
            result@ == letters_of(bytes@.take(i as int)),
    {
        let ghost before = result@;
        result.push(bytes[i] as char);
        assert(letters_of(bytes@.take(i + 1)) =~= before.push(bytes@[i as int] as char));
    }
    assert(bytes@.take(bytes@.len() as int) =~= bytes@);
    result
}

/// The parts between backslashes, each behind one.
pub open spec fn squeezed(bytes: Seq<u8>) -> Seq<u8>
    decreases bytes.len(),
{
    if bytes.len() == 0 {
        Seq::empty()
    } else {
        let earlier = bytes.drop_last();
        if bytes.last() == BACKSLASH {
            squeezed(earlier)
        } else if earlier.len() == 0 || earlier.last() == BACKSLASH {
            squeezed(earlier).push(BACKSLASH).push(bytes.last())
        } else {
            squeezed(earlier).push(bytes.last())
        }
    }
}

/// The bytes with a backslash for each slash.
pub open spec fn backslashed(bytes: Seq<u8>) -> Seq<u8> {
    bytes.map_values(
        |byte: u8|
            if byte == SLASH {
                BACKSLASH
            } else {
                byte
            },
    )
}

/// A separator stands between a directory and a path below it, unless the
/// directory ends in one, is empty or is nothing but a drive.
pub open spec fn needs_separator(platform: Platform, directory: Seq<u8>) -> bool {
    directory.len() > 0 && match platform {
        Platform::Unix => directory.last() != SLASH,
        Platform::Windows => directory.last() != SLASH && directory.last() != BACKSLASH && !(
        directory.len() == 2 && has_drive(letters_of(directory))),
    }
}

/// A relative path below a directory. Where the directory is taken to the letter,
/// one backslash stands before each part, those of the path among them.
pub open spec fn path_below(platform: Platform, directory: Seq<u8>, tail: Seq<char>) -> Seq<u8> {
    let shown = letters_of(directory);
    if platform is Windows && is_verbatim(shown) {
        directory.take(prefix_end(shown)) + squeezed(directory.skip(prefix_end(shown))) + seq![
            BACKSLASH,
        ] + backslashed(encode_utf8(tail))
    } else if needs_separator(platform, directory) {
        directory.push(
            match platform {
                Platform::Unix => SLASH,
                Platform::Windows => BACKSLASH,
            },
        ) + encode_utf8(tail)
    } else {
        directory + encode_utf8(tail)
    }
}

/// A copy of some bytes.
pub fn copied(bytes: &[u8]) -> (result: Vec<u8>)
    ensures
        result@ == bytes@,
{
    let mut result: Vec<u8> = Vec::new();
    append_bytes(&mut result, bytes);
    assert(Seq::<u8>::empty() + bytes@ =~= bytes@);
    result
}

/// Appends bytes.
fn append_bytes(result: &mut Vec<u8>, bytes: &[u8])
    ensures
        final(result)@ == old(result)@ + bytes@,
{
    let ghost start = result@;
    assert(start + bytes@.take(0) =~= start);
    for i in 0..bytes.len()
        invariant
            result@ == start + bytes@.take(i as int),
    {
        result.push(bytes[i]);
        assert(result@ =~= start + bytes@.take(i + 1));
    }
    assert(bytes@.take(bytes@.len() as int) =~= bytes@);
}

/// Appends the parts between backslashes, each behind one.
fn append_squeezed(result: &mut Vec<u8>, bytes: &[u8])
    ensures
        final(result)@ == old(result)@ + squeezed(bytes@),
{
    let ghost start = result@;
    assert(start + squeezed(bytes@.take(0)) =~= start);
    for i in 0..bytes.len()
        invariant
            result@ == start + squeezed(bytes@.take(i as int)),
    {
        assert(bytes@.take(i + 1).drop_last() =~= bytes@.take(i as int));
        if bytes[i] != BACKSLASH {
            if i == 0 || bytes[i - 1] == BACKSLASH {
                result.push(BACKSLASH);
            }
            result.push(bytes[i]);
        }
        assert(result@ =~= start + squeezed(bytes@.take(i + 1)));
    }
    assert(bytes@.take(bytes@.len() as int) =~= bytes@);
}

/// Appends bytes with a backslash for each slash.
fn append_backslashed(result: &mut Vec<u8>, bytes: &[u8])
    ensures
        final(result)@ == old(result)@ + backslashed(bytes@),
{
    let ghost start = result@;
    assert(start + backslashed(bytes@.take(0)) =~= start);
    for i in 0..bytes.len()
        invariant
            result@ == start + backslashed(bytes@.take(i as int)),
    {
        result.push(
            if bytes[i] == SLASH {
                BACKSLASH
            } else {
                bytes[i]
            },
        );
        assert(result@ =~= start + backslashed(bytes@.take(i + 1)));
    }
    assert(bytes@.take(bytes@.len() as int) =~= bytes@);
}

/// A separator stands between a directory and a path below it.
fn separator_needed(platform: Platform, directory: &[u8]) -> (result: bool)
    ensures
        result == needs_separator(platform, directory@),
{
    if directory.len() == 0 {
        return false;
    }
    let last = directory[directory.len() - 1];
    match platform {
        Platform::Unix => last != SLASH,
        Platform::Windows => {
            let shown = letters(directory);
            last != SLASH && last != BACKSLASH && !(directory.len() == 2 && starts_with_drive(
                shown.as_slice(),
            ))
        },
    }
}

/// A relative path below a directory.
pub fn join_path(platform: Platform, directory: &[u8], tail: &str) -> (result: Vec<u8>)
    ensures
        result@ == path_below(platform, directory@, tail@),
{
    let separator: u8 = match platform {
        Platform::Unix => SLASH,
        Platform::Windows => {
            let shown = letters(directory);
            if verbatim(shown.as_slice()) {
                let end = end_of_prefix(shown.as_slice());
                let (prefix, parts) = directory.split_at(end);
                let mut result = copied(prefix);
                append_squeezed(&mut result, parts);
                let ghost start = result@;
                result.push(BACKSLASH);
                assert(result@ =~= start + seq![BACKSLASH]);
                append_backslashed(&mut result, tail.as_bytes());
                return result;
            }
            BACKSLASH
        },
    };
    let mut result = copied(directory);
    if separator_needed(platform, directory) {
        result.push(separator);
    }
    append_bytes(&mut result, tail.as_bytes());
    result
}

/// The path with one kind of separator: on Windows a slash becomes a backslash,
/// unless the path is taken to the letter.
pub open spec fn evened(platform: Platform, path: Seq<char>) -> Seq<char> {
    if platform is Windows && !is_verbatim(path) {
        path.map_values(
            |character: char|
                if character == '/' {
                    '\\'
                } else {
                    character
                },
        )
    } else {
        path
    }
}

/// The pieces between the separators, behind the prefix.
pub open spec fn pieces_of_path(platform: Platform, path: Seq<char>) -> Seq<Seq<char>> {
    match platform {
        Platform::Unix => pieces(path, '/'),
        Platform::Windows => pieces(evened(platform, path).skip(prefix_end(path)), '\\'),
    }
}

/// The last of the pieces that count: one that is empty does not, and neither does
/// a single dot, unless the path is taken to the letter.
pub open spec fn last_part(pieces: Seq<Seq<char>>, letter: bool) -> Option<Seq<char>>
    decreases pieces.len(),
{
    if pieces.len() == 0 {
        None
    } else if pieces.last().len() > 0 && (letter || pieces.last() != "."@) {
        Some(pieces.last())
    } else {
        last_part(pieces.drop_last(), letter)
    }
}

/// The name of the file or directory that a path leads to: its last part, unless
/// that only says where to go.
pub open spec fn file_name_of(platform: Platform, path: Seq<char>) -> Option<Seq<char>> {
    match last_part(
        pieces_of_path(platform, path),
        platform is Windows && is_verbatim(path),
    ) {
        Some(part) => if part == "."@ || part == ".."@ {
            None
        } else {
            Some(part)
        },
        None => None,
    }
}

/// What stands in a Windows path from there on, with one kind of separator.
fn evened_from(path: &[char], start: usize) -> (result: String)
    requires
        start <= path@.len(),
    ensures
        result@ == evened(Platform::Windows, path@).skip(start as int),
{
    let keep = verbatim(path);
    let mut result = String::new();
    let ghost whole = evened(Platform::Windows, path@);
    assert(whole.subrange(start as int, start as int) =~= Seq::<char>::empty());
    for i in start..path.len()
        invariant
            start <= path@.len(),
            keep == is_verbatim(path@),
            whole == evened(Platform::Windows, path@),
            result@ == whole.subrange(start as int, i as int),
    {
        let character: char = if path[i] == '/' && !keep {
            '\\'
        } else {
            path[i]
        };
        let ghost before = result@;
        result.push(character);
        assert(whole.subrange(start as int, i + 1) =~= before.push(character));
    }
    assert(whole.subrange(start as int, path@.len() as int) =~= whole.skip(start as int));
    result
}

/// The pieces between the separators, behind the prefix.
fn split_path(platform: Platform, path: &str) -> (result: Vec<String>)
    ensures
        texts(result@) == pieces_of_path(platform, path@),
{
    match platform {
        Platform::Unix => split(path, '/'),
        Platform::Windows => {
            let all = characters(path);
            let end = end_of_prefix(all.as_slice());
            let rest = evened_from(all.as_slice(), end);
            split(rest.as_str(), '\\')
        },
    }
}

/// The name of the file or directory that a path leads to.
pub fn file_name(platform: Platform, path: &str) -> (result: Option<String>)
    ensures
        text_of(result) == file_name_of(platform, path@),
{
    let letter = match platform {
        Platform::Unix => false,
        Platform::Windows => verbatim(characters(path).as_slice()),
    };
    let parts = split_path(platform, path);
    let mut end: usize = parts.len();
    let ghost all = texts(parts@);
    assert(all.take(end as int) =~= all);
    while end > 0
        invariant
            end <= parts@.len(),
            all == texts(parts@),
            all == pieces_of_path(platform, path@),
            letter == (platform is Windows && is_verbatim(path@)),
            last_part(all, letter) == last_part(all.take(end as int), letter),
        decreases end,
    {
        let part = parts[end - 1].as_str();
        assert(part@ == all[end - 1]);
        assert(all.take(end as int).drop_last() =~= all.take(end - 1));
        if !part.is_empty() && (letter || !same(part, ".")) {
            return if same(part, ".") || same(part, "..") {
                None
            } else {
                Some(part.to_owned())
            };
        }
        end -= 1;
    }
    None
}

} // verus!
