//! Reading what the engine prints into nodes of the log tree.
//!
//! A diff in the format of `git diff` becomes file diffs with their hunks
//! and lines. A log whose commits each begin with a line of fields,
//! separated by the unit separator, becomes commits.

use vstd::prelude::*;
use vstd::string::*;
use crate::log_tree::{
    lemma_children_view, nodes_view, well_formed, KindView, LogTreeNode, NodeKind, NodeView,
    DIFF_HUNK_LINE_IDX,
};
use crate::strings::{
    chars_before, chars_lists_view, chars_start_with, from_chars, index_of, lines_of, slice_chars,
    split_lines, starts_with, strip_ansi_chars, stripped, to_chars,
};
use crate::text::{show_text, shown_text, Line, SpanView, Text};

verus! {

broadcast use vstd::string::group_string_axioms;

/// The character that separates the fields of the first line of a commit.
pub const FIELD_SEPARATOR: char = '\u{1f}';

/// The number that the digits at the start of a string stand for, cut off
/// at the largest line number; 0 where the string starts with no digit.
pub open spec fn leading_number(s: Seq<char>, so_far: nat) -> nat
    decreases s.len(),
{
    if s.len() > 0 && '0' <= s[0] && s[0] <= '9' {
        let next = so_far * 10 + (s[0] as int - '0' as int);
        leading_number(
            s.drop_first(),
            if next > u32::MAX {
                u32::MAX as nat
            } else {
                next as nat
            },
        )
    } else {
        so_far
    }
}

/// The line of the new file at which a hunk starts: the number behind the
/// first `+` of its header.
pub open spec fn hunk_start(header: Seq<char>) -> nat {
    let plus = index_of(header, '+');
    if plus < header.len() {
        leading_number(header.skip(plus as int + 1), 0)
    } else {
        0
    }
}

/// The first place at or behind `at` where `needle` occurs in `hay`; the
/// length of `hay` where there is none.
pub open spec fn find_from(hay: Seq<char>, needle: Seq<char>, at: int) -> int
    decreases hay.len() - at,
{
    if at < 0 || at >= hay.len() || at + needle.len() > hay.len() {
        hay.len() as int
    } else if hay.subrange(at, at + needle.len()) == needle {
        at
    } else {
        find_from(hay, needle, at + 1)
    }
}

/// The path of the file that the first line of a file diff names: what
/// follows ` b/`, or the line behind `diff --git ` where nothing does.
pub open spec fn diff_path(header: Seq<char>) -> Seq<char> {
    let rest = header.skip("diff --git "@.len() as int);
    let at = find_from(rest, " b/"@, 0);
    if at < rest.len() {
        rest.skip(at + 3)
    } else {
        rest
    }
}

/// A hunk that is being read.
pub struct OpenHunk {
    pub text: Seq<Seq<SpanView>>,
    pub lines: Seq<NodeView>,
    pub next_line: nat,
}

/// A file diff that is being read.
pub struct OpenFile {
    pub path: Seq<char>,
    pub text: Seq<Seq<SpanView>>,
    pub hunks: Seq<NodeView>,
    pub hunk: Option<OpenHunk>,
}

/// How far the reading of a diff has got.
pub struct DiffState {
    pub files: Seq<NodeView>,
    pub file: Option<OpenFile>,
}

pub open spec fn hunk_node(hunk: OpenHunk) -> NodeView {
    NodeView { kind: KindView::DiffHunk, text: hunk.text, unfolded: false, children: hunk.lines }
}

/// The hunks of a file with the open hunk closed.
pub open spec fn closed_hunks(file: OpenFile) -> Seq<NodeView> {
    match file.hunk {
        Some(hunk) => file.hunks.push(hunk_node(hunk)),
        None => file.hunks,
    }
}

pub open spec fn file_node(file: OpenFile) -> NodeView {
    NodeView {
        kind: KindView::FileDiff { path: file.path },
        text: file.text,
        unfolded: false,
        children: closed_hunks(file),
    }
}

/// The file diffs with the open file closed.
pub open spec fn closed_files(state: DiffState) -> Seq<NodeView> {
    match state.file {
        Some(file) => state.files.push(file_node(file)),
        None => state.files,
    }
}

/// The line of the new file that a line of a hunk shows: added lines and
/// context lines are counted, other lines show none.
pub open spec fn shown_line_number(clean: Seq<char>, next_line: nat) -> Option<u32> {
    if clean.len() > 0 && (clean[0] == '+' || clean[0] == ' ') && next_line <= u32::MAX {
        Some(next_line as u32)
    } else {
        None
    }
}

/// The state after one more line of the diff. A line that begins with
/// `diff --git ` opens a file diff, a line that begins with `@@` a hunk of
/// the open file. Any other line belongs to the open hunk, or, before the
/// first hunk, to the header of the open file; before the first file it is
/// passed over.
pub open spec fn diff_step(state: DiffState, raw: Seq<char>) -> DiffState {
    let clean = stripped(raw);
    if starts_with(clean, "diff --git "@) {
        DiffState {
            files: closed_files(state),
            file: Some(
                OpenFile {
                    path: diff_path(clean),
                    text: shown_text(raw),
                    hunks: Seq::empty(),
                    hunk: None,
                },
            ),
        }
    } else {
        match state.file {
            None => state,
            Some(file) => if starts_with(clean, "@@"@) {
                DiffState {
                    files: state.files,
                    file: Some(
                        OpenFile {
                            hunks: closed_hunks(file),
                            hunk: Some(
                                OpenHunk {
                                    text: shown_text(raw),
                                    lines: Seq::empty(),
                                    next_line: hunk_start(clean),
                                },
                            ),
                            ..file
                        },
                    ),
                }
            } else {
                match file.hunk {
                    None => DiffState {
                        files: state.files,
                        file: Some(OpenFile { text: file.text + shown_text(raw), ..file }),
                    },
                    Some(hunk) => {
                        let number = shown_line_number(clean, hunk.next_line);
                        let line = NodeView {
                            kind: KindView::DiffHunkLine { line_number: number },
                            text: shown_text(raw),
                            unfolded: false,
                            children: Seq::empty(),
                        };
                        DiffState {
                            files: state.files,
                            file: Some(
                                OpenFile {
                                    hunk: Some(
                                        OpenHunk {
                                            lines: hunk.lines.push(line),
                                            next_line: if number.is_some() {
                                                hunk.next_line + 1
                                            } else {
                                                hunk.next_line
                                            },
                                            ..hunk
                                        },
                                    ),
                                    ..file
                                },
                            ),
                        }
                    },
                }
            },
        }
    }
}

pub open spec fn diff_state(lines: Seq<Seq<char>>) -> DiffState
    decreases lines.len(),
{
    if lines.len() == 0 {
        DiffState { files: Seq::empty(), file: None }
    } else {
        diff_step(diff_state(lines.drop_last()), lines.last())
    }
}

/// The file diffs that a diff holds.
pub open spec fn parsed_diff(output: Seq<char>) -> Seq<NodeView> {
    closed_files(diff_state(split_lines(output)))
}

fn parse_leading_number(v: &Vec<char>, from: usize) -> (n: u32)
    requires
        from <= v.len(),
    ensures
        n == leading_number(v@.skip(from as int), 0),
{
    let mut n: u32 = 0;
    let mut i: usize = from;
    while i < v.len() && '0' <= v[i] && v[i] <= '9'
        invariant
            from <= i <= v.len(),
            leading_number(v@.skip(from as int), 0) == leading_number(v@.skip(i as int), n as nat),
        decreases v.len() - i,
    {
        proof {
            assert(v@.skip(i as int)[0] == v@[i as int]);
            assert(v@.skip(i as int).drop_first() =~= v@.skip(i + 1));
        }
        let digit = v[i] as u32 - '0' as u32;
        n = if n > (u32::MAX - digit) / 10 {
            u32::MAX
        } else {
            n * 10 + digit
        };
        i = i + 1;
    }
    proof {
        if i < v.len() {
            assert(v@.skip(i as int)[0] == v@[i as int]);
        }
    }
    n
}

fn parse_hunk_start(header: &Vec<char>) -> (n: u32)
    ensures
        n == hunk_start(header@),
{
    let before = chars_before(header, '+');
    proof {
        crate::strings::lemma_index_of(header@, '+');
    }
    if before.len() < header.len() {
        parse_leading_number(header, before.len() + 1)
    } else {
        0
    }
}

fn find_chars(hay: &Vec<char>, needle: &Vec<char>) -> (at: usize)
    ensures
        at == find_from(hay@, needle@, 0),
        at <= hay.len(),
{
    let mut at: usize = 0;
    while at < hay.len() && needle.len() <= hay.len() - at
        invariant
            at <= hay.len(),
            find_from(hay@, needle@, 0) == find_from(hay@, needle@, at as int),
        decreases hay.len() - at,
    {
        let mut j: usize = 0;
        while j < needle.len() && hay[at + j] == needle[j]
            invariant
                j <= needle.len(),
                at + needle.len() <= hay.len(),
                forall|k: int| 0 <= k < j ==> hay@[at + k] == needle@[k],
            decreases needle.len() - j,
        {
            j = j + 1;
        }
        if j == needle.len() {
            assert(hay@.subrange(at as int, at + needle.len()) =~= needle@);
            return at;
        }
        assert(hay@.subrange(at as int, at + needle.len())[j as int] != needle@[j as int]);
        at = at + 1;
    }
    assert(find_from(hay@, needle@, at as int) == hay.len());
    hay.len()
}

fn parse_diff_path(header: &Vec<char>) -> (path: String)
    requires
        starts_with(header@, "diff --git "@),
    ensures
        path@ == diff_path(header@),
{
    let prefix = to_chars("diff --git ");
    let rest = slice_chars(header, prefix.len(), header.len());
    assert(rest@ =~= header@.skip("diff --git "@.len() as int));
    let marker = to_chars(" b/");
    proof {
        reveal_strlit(" b/");
        assert(" b/"@.len() == 3);
    }
    let at = find_chars(&rest, &marker);
    if at < rest.len() {
        proof {
            assert(at + 3 <= rest.len()) by {
                lemma_found(rest@, marker@, 0);
            }
        }
        let path = slice_chars(&rest, at + 3, rest.len());
        assert(path@ =~= rest@.skip(at + 3));
        from_chars(&path)
    } else {
        from_chars(&rest)
    }
}

/// What was found lies within the text.
proof fn lemma_found(hay: Seq<char>, needle: Seq<char>, at: int)
    requires
        0 <= at,
    ensures
        find_from(hay, needle, at) < hay.len() ==> find_from(hay, needle, at) + needle.len()
            <= hay.len(),
        at <= hay.len() ==> at <= find_from(hay, needle, at),
    decreases hay.len() - at,
{
    if !(at >= hay.len() || at + needle.len() > hay.len()) && hay.subrange(at, at + needle.len())
        != needle {
        lemma_found(hay, needle, at + 1);
    }
}

fn new_node(kind: NodeKind, text: Text, children: Vec<LogTreeNode>) -> (node: LogTreeNode)
    ensures
        node@ == (NodeView { kind: kind@, text: text@, unfolded: false, children: nodes_view(children@) }),
{
    let node = LogTreeNode { kind, text, unfolded: false, flat_log_idx: 0, children };
    proof {
        lemma_children_view(node);
    }
    node
}

/// Reads the file diffs of a diff in the format of `git diff`. The colours
/// of the lines are kept for showing them; what a line is, is decided with
/// the colours left out.
pub fn parse_diff(output: &str) -> (files: Vec<LogTreeNode>)
    ensures
        nodes_view(files@) == parsed_diff(output@),
        well_formed(nodes_view(files@), 1),
{
    let chars = to_chars(output);
    let lines = lines_of(&chars);
    let ghost all = chars_lists_view(lines@);
    let file_prefix = to_chars("diff --git ");
    let hunk_prefix = to_chars("@@");
    let mut files: Vec<LogTreeNode> = Vec::new();
    // the open file: path, text, closed hunks
    let mut file: Option<(String, Vec<Line>, Vec<LogTreeNode>)> = None;
    // the open hunk: text, lines, next line number
    let mut hunk: Option<(Text, Vec<LogTreeNode>, u64)> = None;
    let mut i: usize = 0;
    proof {
        assert(all.take(0) =~= Seq::empty());
        assert(nodes_view(files@) =~= Seq::empty());
    }
    while i < lines.len()
        invariant
            i <= lines.len(),
            all == chars_lists_view(lines@),
            file_prefix@ == "diff --git "@,
            hunk_prefix@ == "@@"@,
            file.is_none() ==> hunk.is_none(),
            hunk.is_some() ==> hunk.unwrap().2 <= u32::MAX + i,
            well_formed(nodes_view(files@), 1),
            file.is_some() ==> well_formed(nodes_view(file.unwrap().2@), 2),
            hunk.is_some() ==> well_formed(nodes_view(hunk.unwrap().1@), 3),
            diff_state(all.take(i as int)) == (DiffState {
                files: nodes_view(files@),
                file: match file {
                    Some((path, text, hunks)) => Some(
                        OpenFile {
                            path: path@,
                            text: crate::help::lines_view(text@),
                            hunks: nodes_view(hunks@),
                            hunk: match hunk {
                                Some((text, lines, next)) => Some(
                                    OpenHunk { text: text@, lines: nodes_view(lines@), next_line: next as nat },
                                ),
                                None => None,
                            },
                        },
                    ),
                    None => None,
                },
            }),
        decreases lines.len() - i,
    {
        proof {
            let upto = all.take(i + 1);
            assert(upto.drop_last() =~= all.take(i as int));
            assert(upto.last() == lines@[i as int]@);
        }
        let raw = &lines[i];
        let clean = strip_ansi_chars(raw);
        let shown = show_text(from_chars(raw).as_str());
        if chars_start_with(&clean, &file_prefix) {
            let closed = close_file(file, hunk);
            match closed {
                Some(node) => {
                    let ghost before = nodes_view(files@);
                    files.push(node);
                    proof {
                        assert(nodes_view(files@) =~= before.push(node@));
                        assert(before.len() + 1 == files.len());
                        lemma_well_formed_push(before, node@, 1);
                    }
                },
                None => {},
            }
            let hunks: Vec<LogTreeNode> = Vec::new();
            assert(nodes_view(hunks@) =~= Seq::empty());
            file = Some((parse_diff_path(&clean), shown.lines, hunks));
            hunk = None;
        } else {
            match file {
                None => {},
                Some((path, mut text, mut hunks)) => {
                    if chars_start_with(&clean, &hunk_prefix) {
                        match close_hunk(hunk) {
                            Some(node) => {
                                let ghost before = nodes_view(hunks@);
                                hunks.push(node);
                                proof {
                                    assert(nodes_view(hunks@) =~= before.push(node@));
                                    assert(before.len() + 1 == hunks.len());
                                    lemma_well_formed_push(before, node@, 2);
                                }
                            },
                            None => {},
                        }
                        let lines_of_hunk: Vec<LogTreeNode> = Vec::new();
                        assert(nodes_view(lines_of_hunk@) =~= Seq::empty());
                        hunk = Some((shown, lines_of_hunk, parse_hunk_start(&clean) as u64));
                    } else {
                        match hunk {
                            None => {
                                let ghost a = crate::help::lines_view(text@);
                                let mut more = shown.lines;
                                let ghost b = crate::help::lines_view(more@);
                                text.append(&mut more);
                                assert(crate::help::lines_view(text@) =~= a + b);
                            },
                            Some((hunk_text, mut hunk_lines, next)) => {
                                let counted = clean.len() > 0 && (clean[0] == '+' || clean[0] == ' ')
                                    && next <= u32::MAX as u64;
                                let number = if counted {
                                    Some(next as u32)
                                } else {
                                    None
                                };
                                let no_children: Vec<LogTreeNode> = Vec::new();
                                assert(nodes_view(no_children@) =~= Seq::empty());
                                let node = new_node(
                                    NodeKind::DiffHunkLine { line_number: number },
                                    shown,
                                    no_children,
                                );
                                let ghost before = nodes_view(hunk_lines@);
                                hunk_lines.push(node);
                                proof {
                                    assert(nodes_view(hunk_lines@) =~= before.push(node@));
                                    assert(before.len() + 1 == hunk_lines.len());
                                    lemma_well_formed_push(before, node@, 3);
                                }
                                hunk = Some(
                                    (
                                        hunk_text,
                                        hunk_lines,
                                        if counted {
                                            next + 1
                                        } else {
                                            next
                                        },
                                    ),
                                );
                            },
                        }
                    }
                    file = Some((path, text, hunks));
                },
            }
        }
        i = i + 1;
    }
    assert(all.take(lines.len() as int) =~= all);
    match close_file(file, hunk) {
        Some(node) => {
            let ghost before = nodes_view(files@);
            files.push(node);
            proof {
                assert(nodes_view(files@) =~= before.push(node@));
                assert(before.len() + 1 == files.len());
                lemma_well_formed_push(before, node@, 1);
            }
        },
        None => {},
    }
    files
}

/// The node of the open hunk, if a hunk is open.
fn close_hunk(hunk: Option<(Text, Vec<LogTreeNode>, u64)>) -> (node: Option<LogTreeNode>)
    requires
        hunk.is_some() ==> well_formed(nodes_view(hunk.unwrap().1@), 3),
    ensures
        node.is_some() == hunk.is_some(),
        node.is_some() ==> well_formed(node.unwrap()@.children, 3),
        node.is_some() ==> node.unwrap()@ == hunk_node(
            OpenHunk {
                text: hunk.unwrap().0@,
                lines: nodes_view(hunk.unwrap().1@),
                next_line: hunk.unwrap().2 as nat,
            },
        ),
{
    match hunk {
        Some((text, lines, _)) => Some(new_node(NodeKind::DiffHunk, text, lines)),
        None => None,
    }
}

/// The node of the open file with its open hunk, if a file is open.
fn close_file(
    file: Option<(String, Vec<Line>, Vec<LogTreeNode>)>,
    hunk: Option<(Text, Vec<LogTreeNode>, u64)>,
) -> (node: Option<LogTreeNode>)
    requires
        file.is_some() ==> well_formed(nodes_view(file.unwrap().2@), 2),
        hunk.is_some() ==> well_formed(nodes_view(hunk.unwrap().1@), 3),
    ensures
        node.is_some() == file.is_some(),
        node.is_some() ==> well_formed(node.unwrap()@.children, 2),
        node.is_some() ==> node.unwrap()@ == file_node(
            OpenFile {
                path: file.unwrap().0@,
                text: crate::help::lines_view(file.unwrap().1@),
                hunks: nodes_view(file.unwrap().2@),
                hunk: match hunk {
                    Some((text, lines, next)) => Some(
                        OpenHunk { text: text@, lines: nodes_view(lines@), next_line: next as nat },
                    ),
                    None => None,
                },
            },
        ),
{
    match file {
        Some((path, text, mut hunks)) => {
            match close_hunk(hunk) {
                Some(node) => {
                    let ghost before = nodes_view(hunks@);
                    hunks.push(node);
                    proof {
                        assert(nodes_view(hunks@) =~= before.push(node@));
                        assert(before.len() + 1 == hunks.len());
                        lemma_well_formed_push(before, node@, 2);
                    }
                },
                None => {},
            }
            Some(new_node(NodeKind::FileDiff { path }, Text::from_lines(text), hunks))
        },
        None => None,
    }
}

/// Why a log could not be read.
#[derive(Debug, Clone, Copy, PartialEq, Eq, Structural)]
pub enum ParseError {
    /// The line with this index, counted from 0, begins the fields of a
    /// commit and breaks off before the last of them.
    MalformedCommit { line: usize },
}

/// A string cut at its first field separator, if it has one.
pub open spec fn cut(s: Seq<char>) -> Option<(Seq<char>, Seq<char>)> {
    let at = index_of(s, FIELD_SEPARATOR);
    if at < s.len() {
        Some((s.take(at as int), s.skip(at as int + 1)))
    } else {
        None
    }
}

/// What a line of the log is.
pub enum LogLine {
    /// A line without any field separator: it goes on with the commit.
    Plain,
    /// The first line of a commit: what stands before the fields, the
    /// change id, the mark of the working copy, the first line of the
    /// description, and the rest of the line.
    Head { prefix: Seq<char>, id: Seq<char>, mark: Seq<char>, description: Seq<char>, rest: Seq<char> },
    /// A line with fewer than four field separators.
    Broken,
}

pub open spec fn log_line(raw: Seq<char>) -> LogLine {
    match cut(raw) {
        None => LogLine::Plain,
        Some((prefix, r1)) => match cut(r1) {
            None => LogLine::Broken,
            Some((id, r2)) => match cut(r2) {
                None => LogLine::Broken,
                Some((mark, r3)) => match cut(r3) {
                    None => LogLine::Broken,
                    Some((description, rest)) => LogLine::Head { prefix, id, mark, description, rest },
                },
            },
        },
    }
}

/// How far the reading of a log has got.
pub struct LogState {
    pub commits: Seq<NodeView>,
    /// The index of the first broken line.
    pub error: Option<nat>,
}

/// The commit that a first line stands for; it shows the line without the
/// fields.
pub open spec fn head_commit(
    prefix: Seq<char>,
    id: Seq<char>,
    mark: Seq<char>,
    description: Seq<char>,
    rest: Seq<char>,
) -> NodeView {
    NodeView {
        kind: KindView::Commit {
            change_id: stripped(id),
            current_working_copy: stripped(mark).len() > 0,
            description_first_line: if stripped(description).len() > 0 {
                Some(stripped(description))
            } else {
                None
            },
        },
        text: shown_text(prefix + rest),
        unfolded: false,
        children: Seq::empty(),
    }
}

/// The state after the line with index `index`. A first line opens a
/// commit; a plain line is added to what shows the last commit, and passed
/// over before the first commit.
pub open spec fn log_step(state: LogState, index: nat, raw: Seq<char>) -> LogState {
    match log_line(raw) {
        LogLine::Head { prefix, id, mark, description, rest } => LogState {
            commits: state.commits.push(head_commit(prefix, id, mark, description, rest)),
            ..state
        },
        LogLine::Plain => if state.commits.len() > 0 {
            let last = state.commits.last();
            LogState {
                commits: state.commits.drop_last().push(
                    NodeView { text: last.text + shown_text(raw), ..last },
                ),
                ..state
            }
        } else {
            state
        },
        LogLine::Broken => LogState {
            error: if state.error.is_some() {
                state.error
            } else {
                Some(index)
            },
            ..state
        },
    }
}

pub open spec fn log_state(lines: Seq<Seq<char>>) -> LogState
    decreases lines.len(),
{
    if lines.len() == 0 {
        LogState { commits: Seq::empty(), error: None }
    } else {
        log_step(log_state(lines.drop_last()), (lines.len() - 1) as nat, lines.last())
    }
}

/// Cuts a string at its first field separator.
fn cut_chars(v: &Vec<char>) -> (r: Option<(Vec<char>, Vec<char>)>)
    ensures
        r.is_some() == cut(v@).is_some(),
        r.is_some() ==> r.unwrap().0@ == cut(v@).unwrap().0 && r.unwrap().1@ == cut(v@).unwrap().1,
{
    let before = chars_before(v, FIELD_SEPARATOR);
    proof {
        crate::strings::lemma_index_of(v@, FIELD_SEPARATOR);
    }
    if before.len() < v.len() {
        let after = slice_chars(v, before.len() + 1, v.len());
        assert(after@ =~= v@.skip(before.len() + 1));
        Some((before, after))
    } else {
        None
    }
}

/// Reads the commits of a log. The first line of every commit holds, at
/// any place, four fields that each end with the field separator: the
/// change id, a mark that is empty but for the working copy, and the first
/// line of the description. The line is shown without the fields. The lines
/// up to the next first line go on showing the commit.
pub fn parse_log(output: &str) -> (r: Result<Vec<LogTreeNode>, ParseError>)
    ensures
        match log_state(split_lines(output@)).error {
            Some(line) => r == Err::<Vec<LogTreeNode>, ParseError>(
                ParseError::MalformedCommit { line: line as usize },
            ),
            None => r.is_ok() && nodes_view(r.unwrap()@) == log_state(split_lines(output@)).commits
                && well_formed(nodes_view(r.unwrap()@), 0),
        },
{
    let chars = to_chars(output);
    let lines = lines_of(&chars);
    let ghost all = chars_lists_view(lines@);
    let mut commits: Vec<LogTreeNode> = Vec::new();
    let mut error: Option<usize> = None;
    let mut i: usize = 0;
    proof {
        assert(all.take(0) =~= Seq::empty());
        assert(nodes_view(commits@) =~= Seq::empty());
    }
    while i < lines.len()
        invariant
            i <= lines.len(),
            all == chars_lists_view(lines@),
            well_formed(nodes_view(commits@), 0),
            log_state(all.take(i as int)) == (LogState {
                commits: nodes_view(commits@),
                error: match error {
                    Some(k) => Some(k as nat),
                    None => None,
                },
            }),
        decreases lines.len() - i,
    {
        proof {
            let upto = all.take(i + 1);
            assert(upto.drop_last() =~= all.take(i as int));
            assert(upto.last() == lines@[i as int]@);
        }
        let raw = &lines[i];
        let ghost before = nodes_view(commits@);
        match cut_chars(raw) {
            None => {
                let n = commits.len();
                if n > 0 {
                    let mut more = show_text(from_chars(raw).as_str()).lines;
                    let ghost added = crate::help::lines_view(more@);
                    let ghost last = before.last();
                    proof {
                        lemma_children_view(commits@[n - 1]);
                    }
                    let commit = &mut commits[n - 1];
                    let ghost shown = commit.text@;
                    commit.text.lines.append(&mut more);
                    proof {
                        assert(commit.text@ =~= shown + added);
                        lemma_children_view(commits@[n - 1]);
                        assert(commits@[n - 1]@ == (NodeView { text: last.text + shown_text(raw@), ..last }));
                        assert(nodes_view(commits@) =~= before.drop_last().push(
                            NodeView { text: last.text + shown_text(raw@), ..last },
                        ));
                        lemma_well_formed_update(before, nodes_view(commits@), 0);
                    }
                }
            },
            Some((prefix, r1)) => {
                let head = match cut_chars(&r1) {
                    None => None,
                    Some((id, r2)) => match cut_chars(&r2) {
                        None => None,
                        Some((mark, r3)) => match cut_chars(&r3) {
                            None => None,
                            Some((description, rest)) => Some((id, mark, description, rest)),
                        },
                    },
                };
                match head {
                    None => {
                        if error.is_none() {
                            error = Some(i);
                        }
                    },
                    Some((id, mark, description, rest)) => {
                        let change_id = from_chars(&strip_ansi_chars(&id));
                        let working_copy = strip_ansi_chars(&mark).len() > 0;
                        let text = strip_ansi_chars(&description);
                        let description_first_line = if text.len() > 0 {
                            Some(from_chars(&text))
                        } else {
                            None
                        };
                        let mut line = prefix;
                        let mut rest = rest;
                        let ghost shown = line@ + rest@;
                        line.append(&mut rest);
                        assert(line@ =~= shown);
                        let no_children: Vec<LogTreeNode> = Vec::new();
                        assert(nodes_view(no_children@) =~= Seq::empty());
                        let node = new_node(
                            NodeKind::Commit {
                                change_id,
                                current_working_copy: working_copy,
                                description_first_line,
                            },
                            show_text(from_chars(&line).as_str()),
                            no_children,
                        );
                        commits.push(node);
                        proof {
                            assert(nodes_view(commits@) =~= before.push(node@));
                            assert(before.len() + 1 == commits.len());
                            lemma_well_formed_push(before, node@, 0);
                        }
                    },
                }
            },
        }
        i = i + 1;
    }
    assert(all.take(lines.len() as int) =~= all);
    match error {
        Some(line) => Err(ParseError::MalformedCommit { line }),
        None => Ok(commits),
    }
}

/// Nodes that follow the levels still do so with a node added at the end
/// that does.
pub proof fn lemma_well_formed_push(nodes: Seq<NodeView>, node: NodeView, level: nat)
    requires
        well_formed(nodes, level),
        node.kind.level() == level,
        level <= DIFF_HUNK_LINE_IDX,
        well_formed(node.children, level + 1),
        nodes.len() + 1 <= usize::MAX,
    ensures
        well_formed(nodes.push(node), level),
{
    let more = nodes.push(node);
    assert forall|i: int| 0 <= i < more.len() implies {
        &&& (#[trigger] more[i]).kind.level() == level
        &&& level <= DIFF_HUNK_LINE_IDX
        &&& well_formed(more[i].children, level + 1)
    } by {
        if i < nodes.len() {
            assert(more[i] == nodes[i]);
        }
    }
}

/// Nodes that follow the levels still do so where only what shows them has
/// changed.
pub proof fn lemma_well_formed_update(before: Seq<NodeView>, after: Seq<NodeView>, level: nat)
    requires
        well_formed(before, level),
        after.len() == before.len(),
        forall|i: int|
            0 <= i < before.len() ==> (#[trigger] after[i]).kind == before[i].kind && after[i].children
                == before[i].children,
    ensures
        well_formed(after, level),
{
    assert forall|i: int| 0 <= i < after.len() implies {
        &&& (#[trigger] after[i]).kind.level() == level
        &&& level <= DIFF_HUNK_LINE_IDX
        &&& well_formed(after[i].children, level + 1)
    } by {
        assert(before[i].kind.level() == level);
    }
}

} // verus!
