//! What the engine lists, as names: the lines of its output, each reduced
//! to the name that it starts with.

use vstd::prelude::*;
use vstd::string::*;
use crate::strings::{
    before_char, chars_before, chars_have, chars_lists_view, first_word, first_word_chars,
    from_chars, lines_of, split_lines, strings_view, strip_ansi_chars, stripped, to_chars,
    trim_chars, trimmed,
};

verus! {

/// What a listing lists, which decides how a line is read.
#[derive(Debug, Clone, Copy, PartialEq, Eq, Structural)]
pub enum ListKind {
    /// Bookmarks: the name stands before the colon.
    Bookmarks,
    /// Bookmarks, lines without a name left out.
    NamedBookmarks,
    /// Bookmarks of remotes: only names with an `@` count.
    TrackedBookmarks,
    /// Remotes: the name is the first word.
    Remotes,
    /// Paths, one to a line.
    Paths,
    /// Names, one to a line, as they stand.
    Plain,
    /// Workspaces: the name stands before the colon.
    Workspaces,
}

/// The name that a line of a bookmark listing starts with: the first word
/// before the colon, colours left out; the whole line where there is no
/// such word.
pub open spec fn bookmark_name(line: Seq<char>) -> Seq<char> {
    let clean = stripped(line);
    let head = first_word(trimmed(before_char(clean, ':')));
    if head.len() > 0 {
        head
    } else {
        clean
    }
}

/// The name that a line of a remote listing starts with.
pub open spec fn remote_name(line: Seq<char>) -> Seq<char> {
    let head = first_word(stripped(line));
    trimmed(if head.len() > 0 {
        head
    } else {
        line
    })
}

/// What a line of a listing stands for.
pub open spec fn line_value(kind: ListKind, line: Seq<char>) -> Seq<char> {
    match kind {
        ListKind::Bookmarks | ListKind::NamedBookmarks | ListKind::TrackedBookmarks => bookmark_name(
            line,
        ),
        ListKind::Remotes => remote_name(line),
        ListKind::Paths => trimmed(stripped(line)),
        ListKind::Plain => line,
        ListKind::Workspaces => trimmed(before_char(line, ':')),
    }
}

/// Whether a value counts in a listing.
pub open spec fn keeps(kind: ListKind, value: Seq<char>) -> bool {
    match kind {
        ListKind::NamedBookmarks | ListKind::Remotes | ListKind::Paths => value.len() > 0,
        ListKind::TrackedBookmarks => value.contains('@'),
        _ => true,
    }
}

/// The values of the lines that are not blank, as far as they count.
pub open spec fn listed(lines: Seq<Seq<char>>, kind: ListKind) -> Seq<Seq<char>>
    decreases lines.len(),
{
    if lines.len() == 0 {
        Seq::empty()
    } else {
        let before = listed(lines.drop_last(), kind);
        let line = trimmed(lines.last());
        if line.len() > 0 && keeps(kind, line_value(kind, line)) {
            before.push(line_value(kind, line))
        } else {
            before
        }
    }
}

/// What a listing lists.
pub open spec fn listed_names(output: Seq<char>, kind: ListKind) -> Seq<Seq<char>> {
    listed(split_lines(output), kind)
}

fn bookmark_name_chars(line: &Vec<char>) -> (r: Vec<char>)
    ensures
        r@ == bookmark_name(line@),
{
    let clean = strip_ansi_chars(line);
    let head = first_word_chars(&trim_chars(&chars_before(&clean, ':')));
    if head.len() > 0 {
        head
    } else {
        clean
    }
}

fn line_value_chars(kind: ListKind, line: Vec<char>) -> (r: Vec<char>)
    ensures
        r@ == line_value(kind, line@),
{
    match kind {
        ListKind::Bookmarks => bookmark_name_chars(&line),
        ListKind::NamedBookmarks => bookmark_name_chars(&line),
        ListKind::TrackedBookmarks => bookmark_name_chars(&line),
        ListKind::Remotes => {
            let head = first_word_chars(&strip_ansi_chars(&line));
            if head.len() > 0 {
                trim_chars(&head)
            } else {
                trim_chars(&line)
            }
        },
        ListKind::Paths => trim_chars(&strip_ansi_chars(&line)),
        ListKind::Plain => line,
        ListKind::Workspaces => trim_chars(&chars_before(&line, ':')),
    }
}

fn keeps_chars(kind: ListKind, value: &Vec<char>) -> (r: bool)
    ensures
        r == keeps(kind, value@),
{
    match kind {
        ListKind::NamedBookmarks => value.len() > 0,
        ListKind::Remotes => value.len() > 0,
        ListKind::Paths => value.len() > 0,
        ListKind::TrackedBookmarks => chars_have(value, '@'),
        _ => true,
    }
}

/// Reads what a listing lists.
pub fn parse_listing(output: &str, kind: ListKind) -> (names: Vec<String>)
    ensures
        strings_view(names@) == listed_names(output@, kind),
{
    let chars = to_chars(output);
    let lines = lines_of(&chars);
    let ghost all = chars_lists_view(lines@);
    let mut names: Vec<String> = Vec::new();
    let mut i: usize = 0;
    assert(all.take(0) =~= Seq::empty());
    assert(strings_view(names@) =~= Seq::empty());
    while i < lines.len()
        invariant
            i <= lines.len(),
            all == chars_lists_view(lines@),
            strings_view(names@) == listed(all.take(i as int), kind),
        decreases lines.len() - i,
    {
        proof {
            let upto = all.take(i + 1);
            assert(upto.drop_last() =~= all.take(i as int));
            assert(upto.last() == lines@[i as int]@);
        }
        let line = trim_chars(&lines[i]);
        if line.len() > 0 {
            let value = line_value_chars(kind, line);
            if keeps_chars(kind, &value) {
                let ghost before = strings_view(names@);
                names.push(from_chars(&value));
                assert(strings_view(names@) =~= before.push(value@));
            }
        }
        i = i + 1;
    }
    assert(all.take(lines.len() as int) =~= all);
    names
}

} // verus!
