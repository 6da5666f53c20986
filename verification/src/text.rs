//! Styled text: spans, lines and blocks of lines.
//!
//! The library builds its own messages out of these types and receives the
//! engine's coloured output through [`ansi_into_text`]. The program around
//! the library turns them into terminal widgets.

use vstd::prelude::*;
use vstd::string::*;
use ansi_to_tui::IntoText;
use ratatui::style::Color as TuiColor;
use crate::strings::push_char;

verus! {

broadcast use vstd::string::group_string_axioms;

/// A terminal colour.
#[derive(Clone, Copy, Debug, PartialEq, Eq, Structural)]
pub enum TextColor {
    Reset,
    Black,
    Red,
    Green,
    Yellow,
    Blue,
    Magenta,
    Cyan,
    Gray,
    DarkGray,
    LightRed,
    LightGreen,
    LightYellow,
    LightBlue,
    LightMagenta,
    LightCyan,
    White,
    Rgb(u8, u8, u8),
    Indexed(u8),
}

/// Bit of [`TextStyle::add_modifier`] for bold text.
pub const MODIFIER_BOLD: u16 = 1;

/// How a span is drawn: colours, and the modifier bits to add and to remove.
#[derive(Clone, Copy, Debug, PartialEq, Eq, Structural)]
pub struct TextStyle {
    pub fg: Option<TextColor>,
    pub bg: Option<TextColor>,
    pub add_modifier: u16,
    pub sub_modifier: u16,
}

impl TextStyle {
    /// The style that changes nothing.
    pub open spec fn spec_plain() -> TextStyle {
        TextStyle { fg: None, bg: None, add_modifier: 0, sub_modifier: 0 }
    }

    /// The style that only sets the foreground colour.
    pub open spec fn spec_fg(color: TextColor) -> TextStyle {
        TextStyle { fg: Some(color), bg: None, add_modifier: 0, sub_modifier: 0 }
    }

    #[verifier::when_used_as_spec(spec_plain)]
    pub fn plain() -> (s: TextStyle)
        ensures
            s == TextStyle::spec_plain(),
    {
        TextStyle { fg: None, bg: None, add_modifier: 0, sub_modifier: 0 }
    }

    #[verifier::when_used_as_spec(spec_fg)]
    pub fn fg(color: TextColor) -> (s: TextStyle)
        ensures
            s == TextStyle::spec_fg(color),
    {
        TextStyle { fg: Some(color), bg: None, add_modifier: 0, sub_modifier: 0 }
    }
}

/// A run of characters drawn in one style.
#[derive(Clone, Debug, PartialEq, Eq)]
pub struct Span {
    pub content: String,
    pub style: TextStyle,
}

/// What a [`Span`] is, as a mathematical value.
pub struct SpanView {
    pub content: Seq<char>,
    pub style: TextStyle,
}

impl View for Span {
    type V = SpanView;

    open spec fn view(&self) -> SpanView {
        SpanView { content: self.content@, style: self.style }
    }
}

/// The unstyled span with the given content.
pub open spec fn raw_span(content: Seq<char>) -> SpanView {
    SpanView { content, style: TextStyle::spec_plain() }
}

impl Span {
    pub fn raw(content: &str) -> (s: Span)
        ensures
            s@ == raw_span(content@),
    {
        Span { content: String::from_str(content), style: TextStyle::plain() }
    }

    pub fn styled(content: &str, style: TextStyle) -> (s: Span)
        ensures
            s@ == (SpanView { content: content@, style }),
    {
        Span { content: String::from_str(content), style }
    }

    /// A copy of this span.
    pub fn duplicate(&self) -> (s: Span)
        ensures
            s@ == self@,
    {
        Span { content: self.content.clone(), style: self.style }
    }
}

/// One line of text, as a sequence of spans.
#[derive(Clone, Debug, PartialEq, Eq)]
pub struct Line {
    pub spans: Vec<Span>,
}

impl View for Line {
    type V = Seq<SpanView>;

    open spec fn view(&self) -> Seq<SpanView> {
        self.spans@.map_values(|s: Span| s@)
    }
}

/// The characters of a line with the styles left out.
pub open spec fn line_plain(line: Seq<SpanView>) -> Seq<char>
    decreases line.len(),
{
    if line.len() == 0 {
        Seq::empty()
    } else {
        line_plain(line.drop_last()) + line.last().content
    }
}

/// The line made of one unstyled span.
pub open spec fn raw_line(content: Seq<char>) -> Seq<SpanView> {
    seq![raw_span(content)]
}

impl Line {
    /// The line without any span.
    pub fn blank() -> (l: Line)
        ensures
            l@ == Seq::<SpanView>::empty(),
    {
        let l = Line { spans: Vec::new() };
        assert(l@ =~= Seq::<SpanView>::empty());
        l
    }

    pub fn raw(content: &str) -> (l: Line)
        ensures
            l@ == raw_line(content@),
    {
        let mut spans: Vec<Span> = Vec::new();
        spans.push(Span::raw(content));
        let l = Line { spans };
        assert(l@ =~= raw_line(content@));
        l
    }

    pub fn from_spans(spans: Vec<Span>) -> (l: Line)
        ensures
            l@ == spans@.map_values(|s: Span| s@),
    {
        Line { spans }
    }

    /// A copy of this line.
    pub fn duplicate(&self) -> (l: Line)
        ensures
            l@ == self@,
    {
        let mut spans: Vec<Span> = Vec::new();
        let mut i: usize = 0;
        while i < self.spans.len()
            invariant
                i <= self.spans.len(),
                spans@.len() == i,
                forall|j: int| 0 <= j < i ==> (#[trigger] spans@[j])@ == self.spans@[j]@,
            decreases self.spans.len() - i,
        {
            spans.push(self.spans[i].duplicate());
            i = i + 1;
        }
        let l = Line { spans };
        assert(l@ =~= self@);
        l
    }

    /// The characters of the line, styles left out.
    pub fn plain(&self) -> (s: String)
        ensures
            s@ == line_plain(self@),
    {
        let mut s = String::new();
        let mut i: usize = 0;
        while i < self.spans.len()
            invariant
                i <= self.spans.len(),
                s@ == line_plain(self@.take(i as int)),
            decreases self.spans.len() - i,
        {
            proof {
                let t = self@.take(i + 1);
                assert(t.drop_last() =~= self@.take(i as int));
                assert(t.last() == self@[i as int]);
            }
            s.append(self.spans[i].content.as_str());
            i = i + 1;
        }
        assert(self@.take(self.spans.len() as int) =~= self@);
        s
    }
}

/// A block of lines.
#[derive(Clone, Debug, PartialEq, Eq)]
pub struct Text {
    pub lines: Vec<Line>,
}

impl View for Text {
    type V = Seq<Seq<SpanView>>;

    open spec fn view(&self) -> Seq<Seq<SpanView>> {
        self.lines@.map_values(|l: Line| l@)
    }
}

/// A copy of a list of lines.
pub fn duplicate_lines(lines: &Vec<Line>) -> (r: Vec<Line>)
    ensures
        r@.map_values(|l: Line| l@) == lines@.map_values(|l: Line| l@),
{
    let mut r: Vec<Line> = Vec::new();
    let mut i: usize = 0;
    while i < lines.len()
        invariant
            i <= lines.len(),
            r@.len() == i,
            forall|j: int| 0 <= j < i ==> (#[trigger] r@[j])@ == lines@[j]@,
        decreases lines.len() - i,
    {
        r.push(lines[i].duplicate());
        i = i + 1;
    }
    assert(r@.map_values(|l: Line| l@) =~= lines@.map_values(|l: Line| l@));
    r
}

/// The text of a block as one sequence of characters, its lines joined by
/// line feeds.
pub open spec fn text_plain(text: Seq<Seq<SpanView>>) -> Seq<char>
    decreases text.len(),
{
    if text.len() == 0 {
        Seq::empty()
    } else if text.len() == 1 {
        line_plain(text[0])
    } else {
        text_plain(text.drop_last()) + seq!['\n'] + line_plain(text.last())
    }
}

impl Text {
    pub fn from_lines(lines: Vec<Line>) -> (t: Text)
        ensures
            t@ == lines@.map_values(|l: Line| l@),
            t.lines == lines,
    {
        Text { lines }
    }

    /// The block of one unstyled line.
    pub fn raw(content: &str) -> (t: Text)
        ensures
            t@ == seq![raw_line(content@)],
    {
        let mut lines: Vec<Line> = Vec::new();
        lines.push(Line::raw(content));
        let t = Text { lines };
        assert(t@ =~= seq![raw_line(content@)]);
        t
    }

    /// A copy of this block.
    pub fn duplicate(&self) -> (t: Text)
        ensures
            t@ == self@,
    {
        Text { lines: duplicate_lines(&self.lines) }
    }

    /// The number of lines the block takes on screen.
    pub fn height(&self) -> (n: usize)
        ensures
            n == self@.len(),
    {
        self.lines.len()
    }

    /// The characters of the block, its lines joined by line feeds.
    pub fn plain(&self) -> (s: String)
        ensures
            s@ == text_plain(self@),
    {
        let mut s = String::new();
        let mut i: usize = 0;
        while i < self.lines.len()
            invariant
                i <= self.lines.len(),
                s@ == text_plain(self@.take(i as int)),
            decreases self.lines.len() - i,
        {
            proof {
                let t = self@.take(i + 1);
                assert(t.drop_last() =~= self@.take(i as int));
                assert(t.last() == self@[i as int]);
                assert(t[0] == self@[0]);
            }
            if i > 0 {
                push_char(&mut s, '\n');
            }
            let l = self.lines[i].plain();
            s.append(l.as_str());
            i = i + 1;
        }
        assert(self@.take(self.lines.len() as int) =~= self@);
        s
    }
}

/// The lines of a text that may be absent.
pub open spec fn opt_text_view(text: Option<Text>) -> Option<Seq<Seq<SpanView>>> {
    match text {
        Some(t) => Some(t@),
        None => None,
    }
}

/// What the ANSI parser makes of a string: the lines of styled spans, or
/// nothing where it rejects the input.
pub uninterp spec fn ansi_text(s: Seq<char>) -> Option<Seq<Seq<SpanView>>>;

#[verifier::external_type_specification]
#[verifier::external_body]
pub struct ExTuiColor(TuiColor);

#[verifier::external_type_specification]
#[verifier::external_body]
pub struct ExTuiStyle(ratatui::style::Style);

/// Carries one of the sixteen named variants of `ratatui::style::Color`
/// over to [`TextColor`]. Nothing is claimed of the result.
#[verifier::external_body]
fn named_color_from_tui(color: TuiColor) -> (c: TextColor) {
    match color {
        TuiColor::Black => TextColor::Black, TuiColor::White => TextColor::White,
        TuiColor::Red => TextColor::Red, TuiColor::LightRed => TextColor::LightRed,
        TuiColor::Green => TextColor::Green, TuiColor::LightGreen => TextColor::LightGreen,
        TuiColor::Yellow => TextColor::Yellow, TuiColor::LightYellow => TextColor::LightYellow,
        TuiColor::Blue => TextColor::Blue, TuiColor::LightBlue => TextColor::LightBlue,
        TuiColor::Magenta => TextColor::Magenta, TuiColor::LightMagenta => TextColor::LightMagenta,
        TuiColor::Cyan => TextColor::Cyan, TuiColor::LightCyan => TextColor::LightCyan,
        TuiColor::Gray => TextColor::Gray, TuiColor::DarkGray => TextColor::DarkGray,
        _ => TextColor::Reset,
    }
}

/// Carries a `ratatui::style::Color` over to [`TextColor`], variant by
/// variant. Nothing is claimed of the result.
#[verifier::external_body]
fn color_from_tui(color: TuiColor) -> (c: TextColor) {
    match color {
        TuiColor::Reset => TextColor::Reset,
        TuiColor::Rgb(r, g, b) => TextColor::Rgb(r, g, b),
        TuiColor::Indexed(i) => TextColor::Indexed(i),
        named => named_color_from_tui(named),
    }
}

/// Carries a `ratatui::style::Style` over to [`TextStyle`], field by field; the
/// modifiers go by their bits. Nothing is claimed of the result.
#[verifier::external_body]
fn style_from_tui(style: ratatui::style::Style) -> (s: TextStyle) {
    TextStyle {
        fg: style.fg.map(color_from_tui),
        bg: style.bg.map(color_from_tui),
        add_modifier: style.add_modifier.bits(),
        sub_modifier: style.sub_modifier.bits(),
    }
}

/// Parses a string that may hold ANSI colour codes, by
/// `ansi_to_tui::IntoText::into_text`, and carries the lines and spans of the
/// result over to [`Text`]. The contract names the parser's result
/// [`ansi_text`] and claims that the call succeeds exactly where that result
/// exists; of the error's message nothing is claimed.
#[verifier::external_body]
pub(crate) fn ansi_into_text(s: &str) -> (r: Result<Text, String>)
    ensures
        r matches Ok(t) ==> ansi_text(s@) == Some(t@),
        r is Err ==> ansi_text(s@) is None,
{
    match s.into_text() {
        Ok(text) => Ok(Text {
            lines: text.lines.into_iter().map(|line| Line {
                spans: line.spans.into_iter().map(|span| Span {
                    content: span.content.into_owned(),
                    style: style_from_tui(span.style),
                }).collect(),
            }).collect(),
        }),
        Err(err) => Err(err.to_string()),
    }
}

/// The lines that show a text: what the ANSI parser makes of it, or the text
/// as one unstyled line where the parser rejects it.
pub open spec fn shown_text(text: Seq<char>) -> Seq<Seq<SpanView>> {
    match ansi_text(text) {
        Some(lines) => lines,
        None => seq![raw_line(text)],
    }
}

/// The lines that show a text, coloured as its ANSI codes say.
pub fn show_text(text: &str) -> (shown: Text)
    ensures
        shown@ == shown_text(text@),
{
    match ansi_into_text(text) {
        Ok(shown) => shown,
        Err(_) => Text::raw(text),
    }
}

} // verus!
