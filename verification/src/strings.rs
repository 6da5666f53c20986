//! Small verified helpers on strings, stated over their characters.

use vstd::prelude::*;
use vstd::string::*;

verus! {

broadcast use vstd::string::group_string_axioms;

/// Appends one character to a string. States what `String::push` documents:
/// the character is added at the end and nothing else changes.
#[verifier::external_body]
pub(crate) fn push_char(s: &mut String, c: char)
    ensures
        final(s)@ == old(s)@.push(c),
{
    s.push(c)
}

/// The characters of a string, in order.
pub fn to_chars(s: &str) -> (v: Vec<char>)
    ensures
        v@ == s@,
{
    let mut v: Vec<char> = Vec::new();
    for c in it: s.chars()
        invariant
            it.seq() == s@,
            v@ == s@.take(it.index() as int),
    {
        v.push(c);
    }
    v
}

/// The string made of the given characters.
pub fn from_chars(v: &Vec<char>) -> (s: String)
    ensures
        s@ == v@,
{
    let mut s = String::new();
    let mut i: usize = 0;
    while i < v.len()
        invariant
            i <= v.len(),
            s@ == v@.take(i as int),
        decreases v.len() - i,
    {
        push_char(&mut s, v[i]);
        i = i + 1;
    }
    s
}

/// Whether two strings hold the same characters.
pub fn str_eq(a: &str, b: &str) -> (r: bool)
    ensures
        r == (a@ == b@),
{
    let x = to_chars(a);
    let y = to_chars(b);
    if x.len() != y.len() {
        return false;
    }
    let mut i: usize = 0;
    while i < x.len()
        invariant
            x@ == a@,
            y@ == b@,
            x.len() == y.len(),
            i <= x.len(),
            x@.take(i as int) == y@.take(i as int),
        decreases x.len() - i,
    {
        if x[i] != y[i] {
            assert(a@[i as int] != b@[i as int]);
            return false;
        }
        proof {
            assert(x@.take(i + 1) =~= x@.take(i as int).push(x@[i as int]));
            assert(y@.take(i + 1) =~= y@.take(i as int).push(y@[i as int]));
        }
        i = i + 1;
    }
    proof {
        assert(x@ =~= x@.take(x.len() as int));
        assert(y@ =~= y@.take(y.len() as int));
    }
    true
}

/// The lowercase form of a string, as `str::to_lowercase` gives it.
pub uninterp spec fn lowercase(s: Seq<char>) -> Seq<char>;

/// `str::to_lowercase`: the lowercase equivalent of the string, by the
/// Unicode tables that std carries. The contract only names the result.
#[verifier::external_body]
pub(crate) fn to_lowercase(s: &str) -> (r: String)
    ensures
        r@ == lowercase(s@),
{
    s.to_lowercase()
}

/// Whether `a` comes before `b`, or is `b`, in the order of `String`:
/// character by character, a proper prefix first.
pub open spec fn lex_le(a: Seq<char>, b: Seq<char>) -> bool
    decreases a.len(),
{
    if a.len() == 0 {
        true
    } else if b.len() == 0 {
        false
    } else if a[0] != b[0] {
        a[0] < b[0]
    } else {
        lex_le(a.drop_first(), b.drop_first())
    }
}

/// Of two strings one comes before the other, or they are the same.
pub proof fn lemma_lex_le_total(a: Seq<char>, b: Seq<char>)
    ensures
        lex_le(a, b) || lex_le(b, a),
    decreases a.len(),
{
    if a.len() > 0 && b.len() > 0 && a[0] == b[0] {
        lemma_lex_le_total(a.drop_first(), b.drop_first());
    }
}

/// The order is transitive.
pub proof fn lemma_lex_le_transitive(a: Seq<char>, b: Seq<char>, c: Seq<char>)
    requires
        lex_le(a, b),
        lex_le(b, c),
    ensures
        lex_le(a, c),
    decreases a.len(),
{
    if a.len() > 0 && b.len() > 0 && c.len() > 0 {
        if a[0] == b[0] && b[0] == c[0] {
            lemma_lex_le_transitive(a.drop_first(), b.drop_first(), c.drop_first());
        }
    }
}

/// Decides [`lex_le`] on two lists of characters.
pub fn chars_le(a: &Vec<char>, b: &Vec<char>) -> (r: bool)
    ensures
        r == lex_le(a@, b@),
{
    let mut i: usize = 0;
    assert(a@.skip(0) =~= a@ && b@.skip(0) =~= b@);
    while i < a.len() && i < b.len()
        invariant
            i <= a.len(),
            i <= b.len(),
            lex_le(a@, b@) == lex_le(a@.skip(i as int), b@.skip(i as int)),
        decreases a.len() - i,
    {
        proof {
            assert(a@.skip(i as int)[0] == a@[i as int]);
            assert(b@.skip(i as int)[0] == b@[i as int]);
            assert(a@.skip(i as int).drop_first() =~= a@.skip(i + 1));
            assert(b@.skip(i as int).drop_first() =~= b@.skip(i + 1));
        }
        if a[i] != b[i] {
            return a[i] < b[i];
        }
        i = i + 1;
    }
    i == a.len()
}

/// The string of `n` spaces.
pub open spec fn spaces(n: nat) -> Seq<char> {
    Seq::new(n, |i: int| ' ')
}

/// `s` followed by as many spaces as it takes to reach `width` characters;
/// `s` itself where it is that long already.
pub open spec fn pad_to(s: Seq<char>, width: nat) -> Seq<char> {
    if s.len() >= width {
        s
    } else {
        s + spaces((width - s.len()) as nat)
    }
}

/// Appends `n` spaces to a string.
pub fn push_spaces(s: &mut String, n: usize)
    ensures
        final(s)@ == old(s)@ + spaces(n as nat),
{
    let mut i: usize = 0;
    assert(s@ =~= old(s)@ + spaces(0));
    while i < n
        invariant
            i <= n,
            s@ == old(s)@ + spaces(i as nat),
        decreases n - i,
    {
        push_char(s, ' ');
        assert(s@ =~= old(s)@ + spaces((i + 1) as nat));
        i = i + 1;
    }
}

/// The number of characters of a string.
pub fn char_count(s: &str) -> (n: usize)
    ensures
        n == s@.len(),
{
    s.unicode_len()
}

/// Whether a character is white space, as `char::is_whitespace` has it.
pub uninterp spec fn whitespace(c: char) -> bool;

/// `char::is_whitespace`: whether the character has the Unicode property
/// White_Space. The contract only names the result.
#[verifier::external_body]
pub(crate) fn is_whitespace(c: char) -> (r: bool)
    ensures
        r == whitespace(c),
{
    c.is_whitespace()
}

/// The characters of `v` from `from` up to `to`.
pub fn slice_chars(v: &Vec<char>, from: usize, to: usize) -> (r: Vec<char>)
    requires
        from <= to <= v.len(),
    ensures
        r@ == v@.subrange(from as int, to as int),
{
    let mut r: Vec<char> = Vec::new();
    let mut i: usize = from;
    assert(r@ =~= v@.subrange(from as int, i as int));
    while i < to
        invariant
            from <= i <= to <= v.len(),
            r@ == v@.subrange(from as int, i as int),
        decreases to - i,
    {
        r.push(v[i]);
        assert(r@ =~= v@.subrange(from as int, i + 1));
        i = i + 1;
    }
    r
}

/// The number of white-space characters at the start of a string.
pub open spec fn leading_spaces(s: Seq<char>) -> nat
    decreases s.len(),
{
    if s.len() > 0 && whitespace(s[0]) {
        1 + leading_spaces(s.drop_first())
    } else {
        0
    }
}

/// The number of white-space characters at the end of a string.
pub open spec fn trailing_spaces(s: Seq<char>) -> nat
    decreases s.len(),
{
    if s.len() > 0 && whitespace(s.last()) {
        1 + trailing_spaces(s.drop_last())
    } else {
        0
    }
}

pub proof fn lemma_leading_spaces(s: Seq<char>)
    ensures
        leading_spaces(s) <= s.len(),
    decreases s.len(),
{
    if s.len() > 0 && whitespace(s[0]) {
        lemma_leading_spaces(s.drop_first());
    }
}

pub proof fn lemma_trailing_spaces(s: Seq<char>)
    ensures
        trailing_spaces(s) <= s.len(),
    decreases s.len(),
{
    if s.len() > 0 && whitespace(s.last()) {
        lemma_trailing_spaces(s.drop_last());
    }
}

/// A string without the white space at its ends, as `str::trim` gives it.
pub open spec fn trimmed(s: Seq<char>) -> Seq<char> {
    let rest = s.skip(leading_spaces(s) as int);
    rest.take(rest.len() - trailing_spaces(rest))
}

/// Counts the white space at the start of `v[from..]`.
fn count_leading_spaces(v: &Vec<char>, from: usize) -> (n: usize)
    requires
        from <= v.len(),
    ensures
        n == leading_spaces(v@.skip(from as int)),
        from + n <= v.len(),
{
    let mut i: usize = from;
    while i < v.len() && is_whitespace(v[i])
        invariant
            from <= i <= v.len(),
            leading_spaces(v@.skip(from as int)) == (i - from) + leading_spaces(v@.skip(i as int)),
        decreases v.len() - i,
    {
        proof {
            assert(v@.skip(i as int)[0] == v@[i as int]);
            assert(v@.skip(i as int).drop_first() =~= v@.skip(i + 1));
        }
        i = i + 1;
    }
    proof {
        if i < v.len() {
            assert(v@.skip(i as int)[0] == v@[i as int]);
        }
    }
    i - from
}

/// The string without the white space at its ends.
pub fn trim_chars(v: &Vec<char>) -> (r: Vec<char>)
    ensures
        r@ == trimmed(v@),
{
    let start = count_leading_spaces(v, 0);
    assert(v@.skip(0) =~= v@);
    let ghost rest = v@.skip(start as int);
    let mut end: usize = v.len();
    assert(rest.take(end - start) =~= rest);
    while end > start && is_whitespace(v[end - 1])
        invariant
            start <= end <= v.len(),
            rest == v@.skip(start as int),
            trailing_spaces(rest) == (v.len() - end) + trailing_spaces(rest.take(end - start)),
        decreases end,
    {
        proof {
            let cur = rest.take(end - start);
            assert(cur.last() == v@[end - 1]);
            assert(cur.drop_last() =~= rest.take(end - 1 - start));
        }
        end = end - 1;
    }
    proof {
        let cur = rest.take(end - start);
        if end > start {
            assert(cur.last() == v@[end - 1]);
        }
        assert(trailing_spaces(cur) == 0);
        assert(rest.take(rest.len() - trailing_spaces(rest)) =~= v@.subrange(start as int, end as int));
    }
    slice_chars(v, start, end)
}

/// The index of the first `c` in a string, or the length of the string.
pub open spec fn index_of(s: Seq<char>, c: char) -> nat
    decreases s.len(),
{
    if s.len() == 0 || s[0] == c {
        0
    } else {
        1 + index_of(s.drop_first(), c)
    }
}

pub proof fn lemma_index_of(s: Seq<char>, c: char)
    ensures
        index_of(s, c) <= s.len(),
    decreases s.len(),
{
    if s.len() > 0 && s[0] != c {
        lemma_index_of(s.drop_first(), c);
    }
}

/// What stands before the first `c` of a string; all of it where there is
/// no `c`.
pub open spec fn before_char(s: Seq<char>, c: char) -> Seq<char> {
    s.take(index_of(s, c) as int)
}

/// What stands before the first `c`.
pub fn chars_before(v: &Vec<char>, c: char) -> (r: Vec<char>)
    ensures
        r@ == before_char(v@, c),
{
    let mut i: usize = 0;
    assert(v@.skip(0) =~= v@);
    while i < v.len() && v[i] != c
        invariant
            i <= v.len(),
            index_of(v@, c) == i + index_of(v@.skip(i as int), c),
        decreases v.len() - i,
    {
        proof {
            assert(v@.skip(i as int)[0] == v@[i as int]);
            assert(v@.skip(i as int).drop_first() =~= v@.skip(i + 1));
        }
        i = i + 1;
    }
    proof {
        if i < v.len() {
            assert(v@.skip(i as int)[0] == v@[i as int]);
        }
        assert(v@.take(i as int) =~= v@.subrange(0, i as int));
    }
    slice_chars(v, 0, i)
}

/// The number of characters at the start of a string that are no white
/// space.
pub open spec fn word_len(s: Seq<char>) -> nat
    decreases s.len(),
{
    if s.len() > 0 && !whitespace(s[0]) {
        1 + word_len(s.drop_first())
    } else {
        0
    }
}

/// The first word of a string: what stands between the white space at its
/// start and the next white space. Empty where the string has no word.
pub open spec fn first_word(s: Seq<char>) -> Seq<char> {
    let rest = s.skip(leading_spaces(s) as int);
    rest.take(word_len(rest) as int)
}

/// The first word of a string.
pub fn first_word_chars(v: &Vec<char>) -> (r: Vec<char>)
    ensures
        r@ == first_word(v@),
{
    let start = count_leading_spaces(v, 0);
    assert(v@.skip(0) =~= v@);
    let ghost rest = v@.skip(start as int);
    let mut end: usize = start;
    while end < v.len() && !is_whitespace(v[end])
        invariant
            start <= end <= v.len(),
            word_len(rest) == (end - start) + word_len(v@.skip(end as int)),
            rest == v@.skip(start as int),
        decreases v.len() - end,
    {
        proof {
            assert(v@.skip(end as int)[0] == v@[end as int]);
            assert(v@.skip(end as int).drop_first() =~= v@.skip(end + 1));
        }
        end = end + 1;
    }
    proof {
        if end < v.len() {
            assert(v@.skip(end as int)[0] == v@[end as int]);
        }
        assert(rest.take(word_len(rest) as int) =~= v@.subrange(start as int, end as int));
    }
    slice_chars(v, start, end)
}

/// How far the removal of escape sequences has got: the characters kept so
/// far, and whether an escape character or the inside of a sequence came
/// last.
pub struct StripState {
    pub kept: Seq<char>,
    pub mode: nat,
}

/// The escape character.
pub const ESCAPE: char = '\u{1b}';

/// Whether a character ends a control sequence.
pub open spec fn ends_sequence(c: char) -> bool {
    '@' <= c && c <= '~'
}

/// One character more: outside a sequence every character but the escape
/// character is kept; the escape character and a following `[` open a
/// sequence, which runs up to the first character that ends one.
pub open spec fn strip_step(state: StripState, c: char) -> StripState {
    if state.mode == 2 {
        StripState { kept: state.kept, mode: if ends_sequence(c) {
            0
        } else {
            2
        } }
    } else if c == ESCAPE {
        StripState { kept: state.kept, mode: 1 }
    } else if state.mode == 1 && c == '[' {
        StripState { kept: state.kept, mode: 2 }
    } else {
        StripState { kept: state.kept.push(c), mode: 0 }
    }
}

pub open spec fn strip_state(s: Seq<char>) -> StripState
    decreases s.len(),
{
    if s.len() == 0 {
        StripState { kept: Seq::empty(), mode: 0 }
    } else {
        strip_step(strip_state(s.drop_last()), s.last())
    }
}

/// A string without its ANSI control sequences.
pub open spec fn stripped(s: Seq<char>) -> Seq<char> {
    strip_state(s).kept
}

/// Removes the ANSI control sequences from a string.
pub fn strip_ansi_chars(v: &Vec<char>) -> (r: Vec<char>)
    ensures
        r@ == stripped(v@),
{
    let mut r: Vec<char> = Vec::new();
    let mut mode: u8 = 0;
    let mut i: usize = 0;
    assert(v@.take(0) =~= Seq::empty());
    while i < v.len()
        invariant
            i <= v.len(),
            mode <= 2,
            strip_state(v@.take(i as int)) == (StripState { kept: r@, mode: mode as nat }),
        decreases v.len() - i,
    {
        proof {
            let upto = v@.take(i + 1);
            assert(upto.drop_last() =~= v@.take(i as int));
            assert(upto.last() == v@[i as int]);
        }
        let c = v[i];
        if mode == 2 {
            if '@' <= c && c <= '~' {
                mode = 0;
            }
        } else if c == ESCAPE {
            mode = 1;
        } else if mode == 1 && c == '[' {
            mode = 2;
        } else {
            r.push(c);
            mode = 0;
        }
        i = i + 1;
    }
    assert(v@.take(v.len() as int) =~= v@);
    r
}

/// Removes the ANSI control sequences from a string.
pub fn strip_ansi(s: &str) -> (r: String)
    ensures
        r@ == stripped(s@),
{
    let chars = to_chars(s);
    let kept = strip_ansi_chars(&chars);
    from_chars(&kept)
}

/// How far the splitting into lines has got: the lines that are complete,
/// and the characters of the line that is not.
pub struct LinesState {
    pub done: Seq<Seq<char>>,
    pub open: Seq<char>,
}

/// A line without the carriage return that may end it.
pub open spec fn without_return(line: Seq<char>) -> Seq<char> {
    if line.len() > 0 && line.last() == '\r' {
        line.drop_last()
    } else {
        line
    }
}

pub open spec fn lines_state(s: Seq<char>) -> LinesState
    decreases s.len(),
{
    if s.len() == 0 {
        LinesState { done: Seq::empty(), open: Seq::empty() }
    } else {
        let before = lines_state(s.drop_last());
        if s.last() == '\n' {
            LinesState { done: before.done.push(without_return(before.open)), open: Seq::empty() }
        } else {
            LinesState { done: before.done, open: before.open.push(s.last()) }
        }
    }
}

/// The lines of a text, as `str::lines` gives them: split at line feeds, a
/// carriage return before a line feed dropped, no empty line at the end.
pub open spec fn split_lines(s: Seq<char>) -> Seq<Seq<char>> {
    let state = lines_state(s);
    if state.open.len() > 0 {
        state.done.push(state.open)
    } else {
        state.done
    }
}

pub open spec fn chars_lists_view(lines: Seq<Vec<char>>) -> Seq<Seq<char>> {
    lines.map_values(|l: Vec<char>| l@)
}

/// The lines of a text.
pub fn lines_of(v: &Vec<char>) -> (lines: Vec<Vec<char>>)
    ensures
        chars_lists_view(lines@) == split_lines(v@),
{
    let mut lines: Vec<Vec<char>> = Vec::new();
    let mut open: Vec<char> = Vec::new();
    let mut i: usize = 0;
    assert(v@.take(0) =~= Seq::empty());
    assert(chars_lists_view(lines@) =~= Seq::empty());
    while i < v.len()
        invariant
            i <= v.len(),
            lines_state(v@.take(i as int)) == (LinesState { done: chars_lists_view(lines@), open: open@ }),
        decreases v.len() - i,
    {
        proof {
            let upto = v@.take(i + 1);
            assert(upto.drop_last() =~= v@.take(i as int));
            assert(upto.last() == v@[i as int]);
        }
        let c = v[i];
        if c == '\n' {
            let n = open.len();
            let line = if n > 0 && open[n - 1] == '\r' {
                assert(open@.drop_last() =~= open@.subrange(0, n - 1));
                slice_chars(&open, 0, n - 1)
            } else {
                assert(open@ =~= open@.subrange(0, n as int));
                slice_chars(&open, 0, n)
            };
            let ghost before = chars_lists_view(lines@);
            lines.push(line);
            assert(chars_lists_view(lines@) =~= before.push(without_return(open@)));
            open = Vec::new();
        } else {
            open.push(c);
        }
        i = i + 1;
    }
    assert(v@.take(v.len() as int) =~= v@);
    if open.len() > 0 {
        let ghost before = chars_lists_view(lines@);
        let ghost last = open@;
        lines.push(open);
        assert(chars_lists_view(lines@) =~= before.push(last));
    }
    lines
}

/// Whether `needle` occurs in `hay` at `at`.
pub open spec fn occurs_at(hay: Seq<char>, needle: Seq<char>, at: int) -> bool {
    0 <= at && at + needle.len() <= hay.len() && hay.subrange(at, at + needle.len()) == needle
}

/// Whether `needle` occurs in `hay`.
pub open spec fn contains(hay: Seq<char>, needle: Seq<char>) -> bool {
    exists|at: int| occurs_at(hay, needle, at)
}

fn chars_occur_at(hay: &Vec<char>, needle: &Vec<char>, at: usize) -> (r: bool)
    requires
        at + needle.len() <= hay.len(),
    ensures
        r == occurs_at(hay@, needle@, at as int),
{
    let mut j: usize = 0;
    while j < needle.len()
        invariant
            j <= needle.len(),
            at + needle.len() <= hay.len(),
            forall|k: int| 0 <= k < j ==> hay@[at + k] == needle@[k],
        decreases needle.len() - j,
    {
        if hay[at + j] != needle[j] {
            assert(hay@.subrange(at as int, at + needle.len())[j as int] != needle@[j as int]);
            return false;
        }
        j = j + 1;
    }
    assert(hay@.subrange(at as int, at + needle.len()) =~= needle@);
    true
}

/// Decides whether `needle` occurs in `hay`.
pub fn chars_contain(hay: &Vec<char>, needle: &Vec<char>) -> (r: bool)
    ensures
        r == contains(hay@, needle@),
{
    if needle.len() > hay.len() {
        return false;
    }
    if needle.len() == 0 {
        assert(hay@.subrange(0, 0) =~= needle@);
        assert(occurs_at(hay@, needle@, 0));
        return true;
    }
    let last = hay.len() - needle.len();
    let mut at: usize = 0;
    while at <= last
        invariant
            at <= last + 1,
            last == hay.len() - needle.len(),
            0 < needle.len() <= hay.len(),
            forall|k: int| 0 <= k < at ==> !occurs_at(hay@, needle@, k),
        decreases last + 1 - at,
    {
        if chars_occur_at(hay, needle, at) {
            return true;
        }
        at = at + 1;
    }
    false
}

/// Whether a string holds a character.
pub fn chars_have(v: &Vec<char>, c: char) -> (r: bool)
    ensures
        r == v@.contains(c),
{
    let mut i: usize = 0;
    while i < v.len()
        invariant
            i <= v.len(),
            forall|k: int| 0 <= k < i ==> v@[k] != c,
        decreases v.len() - i,
    {
        if v[i] == c {
            return true;
        }
        i = i + 1;
    }
    false
}

/// How often a character occurs in a string.
pub open spec fn count_of(s: Seq<char>, c: char) -> nat
    decreases s.len(),
{
    if s.len() == 0 {
        0
    } else {
        count_of(s.drop_last(), c) + (if s.last() == c {
            1nat
        } else {
            0nat
        })
    }
}

pub proof fn lemma_count_of(s: Seq<char>, c: char)
    ensures
        count_of(s, c) <= s.len(),
    decreases s.len(),
{
    if s.len() > 0 {
        lemma_count_of(s.drop_last(), c);
    }
}

/// Counts how often a character occurs in a string.
pub fn count_chars(v: &Vec<char>, c: char) -> (n: usize)
    ensures
        n == count_of(v@, c),
{
    let mut n: usize = 0;
    let mut i: usize = 0;
    assert(v@.take(0) =~= Seq::empty());
    while i < v.len()
        invariant
            i <= v.len(),
            n == count_of(v@.take(i as int), c),
            n <= i,
        decreases v.len() - i,
    {
        proof {
            let upto = v@.take(i + 1);
            assert(upto.drop_last() =~= v@.take(i as int));
            assert(upto.last() == v@[i as int]);
        }
        if v[i] == c {
            n = n + 1;
        }
        i = i + 1;
    }
    assert(v@.take(v.len() as int) =~= v@);
    n
}

/// Whether a string begins with another.
pub open spec fn starts_with(s: Seq<char>, prefix: Seq<char>) -> bool {
    prefix.len() <= s.len() && s.take(prefix.len() as int) == prefix
}

/// Decides whether a string begins with another.
pub fn chars_start_with(v: &Vec<char>, prefix: &Vec<char>) -> (r: bool)
    ensures
        r == starts_with(v@, prefix@),
{
    if prefix.len() > v.len() {
        return false;
    }
    let r = chars_occur_at(v, prefix, 0);
    assert(v@.take(prefix.len() as int) =~= v@.subrange(0, 0 + prefix.len()));
    r
}

/// The string with a character put in at a place.
pub fn insert_char_at(s: &str, at: usize, c: char) -> (r: String)
    requires
        at <= s@.len(),
    ensures
        r@ == s@.insert(at as int, c),
{
    let mut chars = to_chars(s);
    chars.insert(at, c);
    from_chars(&chars)
}

/// The string without the character at a place.
pub fn remove_char_at(s: &str, at: usize) -> (r: String)
    requires
        at < s@.len(),
    ensures
        r@ == s@.remove(at as int),
{
    let mut chars = to_chars(s);
    chars.remove(at);
    from_chars(&chars)
}

/// The strings of a list as mathematical values.
pub open spec fn strings_view(strings: Seq<String>) -> Seq<Seq<char>> {
    strings.map_values(|s: String| s@)
}

/// A copy of a list of strings.
pub fn duplicate_strings(strings: &Vec<String>) -> (r: Vec<String>)
    ensures
        strings_view(r@) == strings_view(strings@),
{
    let mut r: Vec<String> = Vec::new();
    let mut i: usize = 0;
    while i < strings.len()
        invariant
            i <= strings.len(),
            r@.len() == i,
            forall|k: int| 0 <= k < i ==> (#[trigger] r@[k])@ == strings@[k]@,
        decreases strings.len() - i,
    {
        r.push(strings[i].clone());
        i = i + 1;
    }
    assert(strings_view(r@) =~= strings_view(strings@));
    r
}

/// Whether an item passes a filter: the filter occurs in it, case left
/// aside.
pub open spec fn passes_filter(item: Seq<char>, filter: Seq<char>) -> bool {
    contains(lowercase(item), lowercase(filter))
}

/// The items that pass a filter, in their order.
pub open spec fn filtered(items: Seq<Seq<char>>, filter: Seq<char>) -> Seq<Seq<char>>
    decreases items.len(),
{
    if items.len() == 0 {
        Seq::empty()
    } else if passes_filter(items.last(), filter) {
        filtered(items.drop_last(), filter).push(items.last())
    } else {
        filtered(items.drop_last(), filter)
    }
}

/// No more items pass a filter than there are.
pub proof fn lemma_filtered_len(items: Seq<Seq<char>>, filter: Seq<char>)
    ensures
        filtered(items, filter).len() <= items.len(),
    decreases items.len(),
{
    if items.len() > 0 {
        lemma_filtered_len(items.drop_last(), filter);
    }
}

/// The items that pass a filter.
pub fn filter_items(items: &Vec<String>, filter: &str) -> (r: Vec<String>)
    ensures
        strings_view(r@) == filtered(strings_view(items@), filter@),
{
    let filter_lower = to_chars(to_lowercase(filter).as_str());
    let mut r: Vec<String> = Vec::new();
    let mut i: usize = 0;
    let ghost all = strings_view(items@);
    assert(all.take(0) =~= Seq::empty());
    assert(strings_view(r@) =~= Seq::empty());
    while i < items.len()
        invariant
            i <= items.len(),
            all == strings_view(items@),
            filter_lower@ == lowercase(filter@),
            strings_view(r@) == filtered(all.take(i as int), filter@),
        decreases items.len() - i,
    {
        proof {
            let upto = all.take(i + 1);
            assert(upto.drop_last() =~= all.take(i as int));
            assert(upto.last() == items@[i as int]@);
        }
        let item_lower = to_chars(to_lowercase(items[i].as_str()).as_str());
        if chars_contain(&item_lower, &filter_lower) {
            let ghost before = strings_view(r@);
            r.push(items[i].clone());
            assert(strings_view(r@) =~= before.push(items@[i as int]@));
        }
        i = i + 1;
    }
    assert(all.take(items.len() as int) =~= all);
    r
}

} // verus!
