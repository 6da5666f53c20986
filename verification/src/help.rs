//! The help listing of a menu: its groups side by side in columns of fixed
//! width, long groups running on into further columns.

use vstd::prelude::*;
use vstd::string::*;
use crate::command_tree::{help_get_index, help_len, rows_view, HelpEntries, HelpRows, HelpView};
use crate::strings::{
    char_count, chars_le, lex_le, lowercase, pad_to, push_spaces, spaces, to_chars, to_lowercase,
};
use crate::text::{raw_span, Line, Span, SpanView, Text, TextColor, TextStyle};

verus! {

broadcast use vstd::string::group_string_axioms;

/// The width of a column of the help listing, in characters.
pub const COL_WIDTH: usize = 26;

/// The number of rows of a group that go into one column.
pub const MAX_ENTRIES_PER_COL: usize = 14;

/// Whether a row may stand before another: by the help texts, case left
/// aside.
pub open spec fn row_le(a: (Seq<char>, Seq<char>), b: (Seq<char>, Seq<char>)) -> bool {
    lex_le(lowercase(a.1), lowercase(b.1))
}

/// A sorted list with one more row: the row goes behind the last row that
/// may stand before it.
pub open spec fn insert_sorted(s: HelpRows, r: (Seq<char>, Seq<char>)) -> HelpRows
    decreases s.len(),
{
    if s.len() == 0 {
        seq![r]
    } else if row_le(s.last(), r) {
        s.push(r)
    } else {
        insert_sorted(s.drop_last(), r).push(s.last())
    }
}

/// The rows in the order of [`row_le`]; rows that compare equal keep the
/// order in which they were registered.
pub open spec fn sort_rows(s: HelpRows) -> HelpRows
    decreases s.len(),
{
    if s.len() == 0 {
        Seq::empty()
    } else {
        insert_sorted(sort_rows(s.drop_last()), s.last())
    }
}

/// Whether each row may stand before the next.
pub open spec fn rows_ordered(s: HelpRows) -> bool {
    forall|i: int, j: int| 0 <= i < j < s.len() ==> row_le(#[trigger] s[i], #[trigger] s[j])
}

/// A listing with the rows of every group sorted.
pub open spec fn sorted_help(h: HelpView) -> HelpView {
    h.map_values(|g: (Seq<char>, HelpRows)| (g.0, sort_rows(g.1)))
}

proof fn lemma_insert_sorted_at(s: HelpRows, r: (Seq<char>, Seq<char>), j: int)
    requires
        0 <= j <= s.len(),
        forall|t: int| j <= t < s.len() ==> !row_le(#[trigger] s[t], r),
        j > 0 ==> row_le(s[j - 1], r),
    ensures
        insert_sorted(s, r) == s.insert(j, r),
    decreases s.len(),
{
    if s.len() == 0 {
        assert(seq![r] =~= s.insert(j, r));
    } else if j == s.len() {
        assert(s.push(r) =~= s.insert(j, r));
    } else {
        assert(!row_le(s[s.len() - 1], r));
        let front = s.drop_last();
        assert forall|t: int| j <= t < front.len() implies !row_le(#[trigger] front[t], r) by {
            assert(front[t] == s[t]);
        }
        lemma_insert_sorted_at(front, r, j);
        assert(front.insert(j, r).push(s.last()) =~= s.insert(j, r));
    }
}

/// Inserting into an ordered list leaves it ordered and adds the row.
pub proof fn lemma_insert_sorted(s: HelpRows, r: (Seq<char>, Seq<char>))
    requires
        rows_ordered(s),
    ensures
        rows_ordered(insert_sorted(s, r)),
        insert_sorted(s, r).to_multiset() == s.to_multiset().insert(r),
        insert_sorted(s, r).len() == s.len() + 1,
    decreases s.len(),
{
    broadcast use vstd::seq_lib::group_to_multiset_ensures;

    if s.len() == 0 {
        assert(s =~= Seq::empty());
    } else if row_le(s.last(), r) {
        let t = s.push(r);
        assert forall|i: int, j: int| 0 <= i < j < t.len() implies row_le(
            #[trigger] t[i],
            #[trigger] t[j],
        ) by {
            if j == s.len() && i < s.len() - 1 {
                crate::strings::lemma_lex_le_transitive(
                    lowercase(s[i].1),
                    lowercase(s.last().1),
                    lowercase(r.1),
                );
            }
        }
    } else {
        let front = s.drop_last();
        assert(rows_ordered(front)) by {
            assert forall|i: int, j: int| 0 <= i < j < front.len() implies row_le(
                #[trigger] front[i],
                #[trigger] front[j],
            ) by {
                assert(front[i] == s[i] && front[j] == s[j]);
            }
        }
        lemma_insert_sorted(front, r);
        let u = insert_sorted(front, r);
        let t = u.push(s.last());
        crate::strings::lemma_lex_le_total(lowercase(s.last().1), lowercase(r.1));
        assert forall|i: int, j: int| 0 <= i < j < t.len() implies row_le(
            #[trigger] t[i],
            #[trigger] t[j],
        ) by {
            if j == u.len() {
                assert(u.to_multiset().count(u[i]) > 0);
                if u[i] == r {
                } else {
                    assert(front.to_multiset().count(u[i]) > 0);
                    let k = choose|k: int| 0 <= k < front.len() && front[k] == u[i];
                    assert(front[k] == s[k]);
                }
            }
        }
        assert(s =~= front.push(s.last()));
    }
}

/// Sorting gives an ordered list of the same rows.
pub proof fn lemma_sort_rows(s: HelpRows)
    ensures
        rows_ordered(sort_rows(s)),
        sort_rows(s).to_multiset() == s.to_multiset(),
        sort_rows(s).len() == s.len(),
    decreases s.len(),
{
    broadcast use vstd::seq_lib::group_to_multiset_ensures;

    if s.len() > 0 {
        lemma_sort_rows(s.drop_last());
        lemma_insert_sorted(sort_rows(s.drop_last()), s.last());
        assert(s =~= s.drop_last().push(s.last()));
    }
}

/// The rows of a group in sorted order.
pub fn sort_help_rows(rows: &Vec<(String, String)>) -> (sorted: Vec<(String, String)>)
    ensures
        rows_view(sorted@) == sort_rows(rows_view(rows@)),
{
    let mut out: Vec<(String, String)> = Vec::new();
    let mut keys: Vec<Vec<char>> = Vec::new();
    let mut i: usize = 0;
    assert(rows_view(rows@).take(0) =~= Seq::empty());
    assert(rows_view(out@) =~= Seq::empty());
    while i < rows.len()
        invariant
            i <= rows.len(),
            out.len() == i,
            keys.len() == i,
            rows_view(out@) == sort_rows(rows_view(rows@).take(i as int)),
            forall|t: int| 0 <= t < i ==> (#[trigger] keys@[t])@ == lowercase(out@[t].1@),
        decreases rows.len() - i,
    {
        let lower = to_lowercase(rows[i].1.as_str());
        let key = to_chars(lower.as_str());
        let ghost row = (rows@[i as int].0@, rows@[i as int].1@);
        let ghost before = rows_view(out@);
        let mut j: usize = out.len();
        while j > 0 && !chars_le(&keys[j - 1], &key)
            invariant
                j <= out.len(),
                out.len() == keys.len(),
                key@ == lowercase(row.1),
                before == rows_view(out@),
                forall|t: int| 0 <= t < out.len() ==> (#[trigger] keys@[t])@ == lowercase(out@[t].1@),
                forall|t: int| j <= t < out.len() ==> !row_le(#[trigger] before[t], row),
            decreases j,
        {
            j = j - 1;
        }
        proof {
            lemma_insert_sorted_at(before, row, j as int);
            let upto = rows_view(rows@).take(i + 1);
            assert(upto.drop_last() =~= rows_view(rows@).take(i as int));
            assert(upto.last() == row);
        }
        out.insert(j, (rows[i].0.clone(), rows[i].1.clone()));
        keys.insert(j, key);
        assert(rows_view(out@) =~= before.insert(j as int, row));
        i = i + 1;
    }
    assert(rows_view(rows@).take(rows.len() as int) =~= rows_view(rows@));
    out
}

/// The style of a group's name.
pub open spec fn heading_style() -> TextStyle {
    TextStyle::spec_fg(TextColor::Blue)
}

/// The style of a key's label.
pub open spec fn key_style() -> TextStyle {
    TextStyle::spec_fg(TextColor::Green)
}

/// The first line of a column: the group's name, padded to the width.
pub open spec fn header_line(name: Seq<char>) -> Seq<SpanView> {
    seq![SpanView { content: pad_to(name, COL_WIDTH as nat), style: heading_style() }]
}

/// The number of spaces that fill a row up to the width.
pub open spec fn row_padding(row: (Seq<char>, Seq<char>)) -> nat {
    let used = row.0.len() + 1 + row.1.len();
    if used >= COL_WIDTH {
        0
    } else {
        (COL_WIDTH - used) as nat
    }
}

/// The line of one row: the key's label, a space, the help text, padding.
pub open spec fn row_line(row: (Seq<char>, Seq<char>)) -> Seq<SpanView> {
    seq![
        SpanView { content: row.0, style: key_style() },
        raw_span(seq![' ']),
        raw_span(row.1),
        raw_span(spaces(row_padding(row))),
    ]
}

/// The number of columns that a group of `n` rows takes.
pub open spec fn column_count(n: nat) -> nat {
    if n == 0 {
        0
    } else {
        ((n - 1) / (MAX_ENTRIES_PER_COL as int) + 1) as nat
    }
}

/// Column `c` of a group: a header, which is blank from the second column
/// on, and the rows that fall into the column.
pub open spec fn group_column(name: Seq<char>, rows: HelpRows, c: int) -> Seq<Seq<SpanView>> {
    let from = c * MAX_ENTRIES_PER_COL;
    let to = if from + MAX_ENTRIES_PER_COL < rows.len() {
        from + MAX_ENTRIES_PER_COL
    } else {
        rows.len() as int
    };
    seq![header_line(if c == 0 {
        name
    } else {
        Seq::empty()
    })] + rows.subrange(from, to).map_values(|r: (Seq<char>, Seq<char>)| row_line(r))
}

/// The columns of a group, left to right.
pub open spec fn group_columns(name: Seq<char>, rows: HelpRows) -> Seq<Seq<Seq<SpanView>>> {
    Seq::new(column_count(rows.len()), |c: int| group_column(name, rows, c))
}

/// The columns of a listing: those of its groups, in the groups' order.
pub open spec fn help_columns(h: HelpView) -> Seq<Seq<Seq<SpanView>>>
    decreases h.len(),
{
    if h.len() == 0 {
        Seq::empty()
    } else {
        help_columns(h.drop_last()) + group_columns(h.last().0, h.last().1)
    }
}

/// Line `i` of a column, or blanks where the column is shorter.
pub open spec fn column_cell(col: Seq<Seq<SpanView>>, i: int) -> Seq<SpanView> {
    if 0 <= i < col.len() {
        col[i]
    } else {
        seq![raw_span(spaces(COL_WIDTH as nat))]
    }
}

/// Line `i` of the listing: a space, then line `i` of every column.
pub open spec fn listing_line(cols: Seq<Seq<Seq<SpanView>>>, i: int) -> Seq<SpanView>
    decreases cols.len(),
{
    if cols.len() == 0 {
        seq![raw_span(seq![' '])]
    } else {
        listing_line(cols.drop_last(), i) + column_cell(cols.last(), i)
    }
}

/// The height of the tallest column.
pub open spec fn max_height(cols: Seq<Seq<Seq<SpanView>>>) -> nat
    decreases cols.len(),
{
    if cols.len() == 0 {
        0
    } else if cols.last().len() > max_height(cols.drop_last()) {
        cols.last().len()
    } else {
        max_height(cols.drop_last())
    }
}

/// The help listing as text.
pub open spec fn help_text(h: HelpView) -> Seq<Seq<SpanView>> {
    let cols = help_columns(h);
    Seq::new(max_height(cols), |i: int| listing_line(cols, i))
}

pub open spec fn lines_view(lines: Seq<Line>) -> Seq<Seq<SpanView>> {
    lines.map_values(|l: Line| l@)
}

pub open spec fn columns_view(cols: Seq<Vec<Line>>) -> Seq<Seq<Seq<SpanView>>> {
    cols.map_values(|c: Vec<Line>| lines_view(c@))
}

fn make_header_line(name: &str) -> (l: Line)
    ensures
        l@ == header_line(name@),
{
    let mut content = String::from_str(name);
    let n = char_count(name);
    if n < COL_WIDTH {
        push_spaces(&mut content, COL_WIDTH - n);
    } else {
        assert(content@ =~= pad_to(name@, COL_WIDTH as nat));
    }
    let mut spans: Vec<Span> = Vec::new();
    spans.push(Span { content, style: TextStyle::fg(TextColor::Blue) });
    let l = Line { spans };
    assert(l@ =~= header_line(name@));
    l
}

fn make_row_line(row: &(String, String)) -> (l: Line)
    ensures
        l@ == row_line((row.0@, row.1@)),
{
    let key_len = char_count(row.0.as_str());
    let help_len = char_count(row.1.as_str());
    let mut padding = String::new();
    if key_len < COL_WIDTH && help_len < COL_WIDTH && key_len + 1 + help_len < COL_WIDTH {
        push_spaces(&mut padding, COL_WIDTH - (key_len + 1 + help_len));
    }
    assert(padding@ =~= spaces(row_padding((row.0@, row.1@))));
    let ghost blank = " "@;
    proof {
        reveal_strlit(" ");
        assert(blank =~= seq![' ']);
    }
    let mut spans: Vec<Span> = Vec::new();
    spans.push(Span::styled(row.0.as_str(), TextStyle::fg(TextColor::Green)));
    spans.push(Span::raw(" "));
    spans.push(Span::raw(row.1.as_str()));
    spans.push(Span { content: padding, style: TextStyle::plain() });
    let l = Line { spans };
    assert(l@ =~= row_line((row.0@, row.1@)));
    l
}

/// The columns of one group, added to `cols`.
fn push_group_columns(cols: &mut Vec<Vec<Line>>, name: &str, rows: &Vec<(String, String)>)
    ensures
        columns_view(final(cols)@) == columns_view(old(cols)@) + group_columns(
            name@,
            rows_view(rows@),
        ),
{
    let ghost start = columns_view(cols@);
    let ghost all = rows_view(rows@);
    let ghost want = group_columns(name@, all);
    let mut c: usize = 0;
    assert(columns_view(cols@) =~= start + want.take(0));
    while c < rows.len() / MAX_ENTRIES_PER_COL + 1 && c * MAX_ENTRIES_PER_COL < rows.len()
        invariant
            all == rows_view(rows@),
            want == group_columns(name@, all),
            c * MAX_ENTRIES_PER_COL <= rows.len() + MAX_ENTRIES_PER_COL,
            c <= want.len(),
            c * MAX_ENTRIES_PER_COL >= rows.len() ==> c == want.len(),
            columns_view(cols@) == start + want.take(c as int),
        decreases rows.len() / MAX_ENTRIES_PER_COL + 1 - c,
    {
        let from = c * MAX_ENTRIES_PER_COL;
        let to = if rows.len() - from > MAX_ENTRIES_PER_COL {
            from + MAX_ENTRIES_PER_COL
        } else {
            rows.len()
        };
        let mut col: Vec<Line> = Vec::new();
        col.push(make_header_line(if c == 0 {
            name
        } else {
            ""
        }));
        proof {
            reveal_strlit("");
            assert(""@ =~= Seq::<char>::empty());
        }
        let ghost head = lines_view(col@);
        let mut k: usize = from;
        assert(lines_view(col@) =~= head + all.subrange(from as int, k as int).map_values(
            |r: (Seq<char>, Seq<char>)| row_line(r),
        ));
        while k < to
            invariant
                from <= k <= to <= rows.len(),
                all == rows_view(rows@),
                lines_view(col@) == head + all.subrange(from as int, k as int).map_values(
                    |r: (Seq<char>, Seq<char>)| row_line(r),
                ),
            decreases to - k,
        {
            let ghost prev = lines_view(col@);
            col.push(make_row_line(&rows[k]));
            proof {
                assert(all[k as int] == (rows@[k as int].0@, rows@[k as int].1@));
                assert(lines_view(col@) =~= prev.push(row_line(all[k as int])));
                assert(all.subrange(from as int, k + 1) =~= all.subrange(from as int, k as int).push(
                    all[k as int],
                ));
            }
            assert(lines_view(col@) =~= head + all.subrange(from as int, k + 1).map_values(
                |r: (Seq<char>, Seq<char>)| row_line(r),
            ));
            k = k + 1;
        }
        assert(lines_view(col@) == want[c as int]);
        let ghost before = columns_view(cols@);
        cols.push(col);
        assert(columns_view(cols@) =~= before.push(want[c as int]));
        assert(start + want.take(c + 1) =~= (start + want.take(c as int)).push(want[c as int]));
        c = c + 1;
    }
    assert(want.take(want.len() as int) =~= want);
}

/// The columns of a help listing.
fn build_columns(entries: &HelpEntries) -> (cols: Vec<Vec<Line>>)
    ensures
        columns_view(cols@) == help_columns(crate::command_tree::help_view(*entries)),
{
    let ghost h = crate::command_tree::help_view(*entries);
    let mut cols: Vec<Vec<Line>> = Vec::new();
    let n = help_len(entries);
    let mut g: usize = 0;
    assert(h.take(0) =~= Seq::empty());
    assert(columns_view(cols@) =~= help_columns(h.take(0)));
    while g < n
        invariant
            g <= n,
            n == h.len(),
            h == crate::command_tree::help_view(*entries),
            columns_view(cols@) == help_columns(h.take(g as int)),
        decreases n - g,
    {
        match help_get_index(entries, g) {
            Some((name, rows)) => {
                proof {
                    let upto = h.take(g + 1);
                    assert(upto.drop_last() =~= h.take(g as int));
                    assert(upto.last() == h[g as int]);
                }
                push_group_columns(&mut cols, name.as_str(), rows);
            },
            None => {
                assert(false);
            },
        }
        g = g + 1;
    }
    assert(h.take(n as int) =~= h);
    cols
}

/// Line `i` of the listing made of the given columns.
fn build_listing_line(cols: &Vec<Vec<Line>>, i: usize) -> (l: Line)
    ensures
        l@ == listing_line(columns_view(cols@), i as int),
{
    let ghost all = columns_view(cols@);
    let mut spans: Vec<Span> = Vec::new();
    spans.push(Span::raw(" "));
    proof {
        reveal_strlit(" ");
        assert(" "@ =~= seq![' ']);
        assert(all.take(0) =~= Seq::empty());
    }
    let mut c: usize = 0;
    assert(spans@.map_values(|s: Span| s@) =~= listing_line(all.take(0), i as int));
    while c < cols.len()
        invariant
            c <= cols.len(),
            all == columns_view(cols@),
            spans@.map_values(|s: Span| s@) == listing_line(all.take(c as int), i as int),
        decreases cols.len() - c,
    {
        let ghost before = spans@.map_values(|s: Span| s@);
        proof {
            let upto = all.take(c + 1);
            assert(upto.drop_last() =~= all.take(c as int));
            assert(upto.last() == all[c as int]);
        }
        if i < cols[c].len() {
            let line = &cols[c][i];
            let mut k: usize = 0;
            while k < line.spans.len()
                invariant
                    k <= line.spans.len(),
                    spans@.map_values(|s: Span| s@) == before + line@.take(k as int),
                decreases line.spans.len() - k,
            {
                let ghost prev = spans@.map_values(|s: Span| s@);
                spans.push(line.spans[k].duplicate());
                proof {
                    assert(line@[k as int] == line.spans@[k as int]@);
                    assert(spans@.map_values(|s: Span| s@) =~= prev.push(line@[k as int]));
                    assert(line@.take(k + 1) =~= line@.take(k as int).push(line@[k as int]));
                }
                assert(spans@.map_values(|s: Span| s@) =~= before + line@.take(k + 1));
                k = k + 1;
            }
            assert(line@.take(line.spans.len() as int) =~= line@);
        } else {
            let mut blank = String::new();
            push_spaces(&mut blank, COL_WIDTH);
            assert(blank@ =~= spaces(COL_WIDTH as nat));
            spans.push(Span { content: blank, style: TextStyle::plain() });
            assert(spans@.map_values(|s: Span| s@) =~= before + column_cell(all[c as int], i as int));
        }
        c = c + 1;
    }
    assert(all.take(cols.len() as int) =~= all);
    Line { spans }
}

/// The height of the tallest of the given columns.
fn tallest(cols: &Vec<Vec<Line>>) -> (n: usize)
    ensures
        n == max_height(columns_view(cols@)),
{
    let ghost all = columns_view(cols@);
    let mut n: usize = 0;
    let mut c: usize = 0;
    assert(all.take(0) =~= Seq::empty());
    while c < cols.len()
        invariant
            c <= cols.len(),
            all == columns_view(cols@),
            n == max_height(all.take(c as int)),
        decreases cols.len() - c,
    {
        proof {
            let upto = all.take(c + 1);
            assert(upto.drop_last() =~= all.take(c as int));
            assert(upto.last() == all[c as int]);
        }
        if cols[c].len() > n {
            n = cols[c].len();
        }
        c = c + 1;
    }
    assert(all.take(cols.len() as int) =~= all);
    n
}

/// Lays a help listing out as text.
pub fn render_help_text(entries: &HelpEntries) -> (text: Text)
    ensures
        text@ == help_text(crate::command_tree::help_view(*entries)),
{
    let cols = build_columns(entries);
    let num_rows = tallest(&cols);
    let ghost all = columns_view(cols@);
    let mut lines: Vec<Line> = Vec::new();
    let mut i: usize = 0;
    while i < num_rows
        invariant
            i <= num_rows,
            all == columns_view(cols@),
            lines.len() == i,
            forall|k: int| 0 <= k < i ==> (#[trigger] lines@[k])@ == listing_line(all, k),
        decreases num_rows - i,
    {
        lines.push(build_listing_line(&cols, i));
        i = i + 1;
    }
    let text = Text { lines };
    assert(text@ =~= help_text(crate::command_tree::help_view(*entries)));
    text
}

} // verus!
