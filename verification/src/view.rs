//! The arithmetic of the screen: where popups go, which of their items are
//! shown, and how a description is split at the column limit. Drawing is
//! left to the program.

use vstd::prelude::*;
use vstd::string::*;
use crate::model::Rect;
use crate::strings::{from_chars, slice_chars, to_chars};
use crate::text::{Span, SpanView, Text, TextColor, TextStyle};

verus! {

broadcast use vstd::string::group_string_axioms;

/// The background of the node under the cursor.
pub open spec fn spec_selection_color() -> TextColor {
    TextColor::Rgb(40, 42, 54)
}

/// The background of the saved selection.
pub open spec fn spec_saved_selection_color() -> TextColor {
    TextColor::Rgb(33, 35, 45)
}

#[verifier::when_used_as_spec(spec_selection_color)]
pub fn selection_color() -> (c: TextColor)
    ensures
        c == spec_selection_color(),
{
    TextColor::Rgb(40, 42, 54)
}

#[verifier::when_used_as_spec(spec_saved_selection_color)]
pub fn saved_selection_color() -> (c: TextColor)
    ensures
        c == spec_saved_selection_color(),
{
    TextColor::Rgb(33, 35, 45)
}

/// The column up to which the first line of a description should run.
pub const SUBJECT_COLUMNS: usize = 50;

/// The column up to which the other lines of a description should run.
pub const BODY_COLUMNS: usize = 72;

/// The height of a popup that asks for a text.
pub const TEXT_PROMPT_HEIGHT: u16 = 7;

/// The lines of a popup that are not items: title, filter, spacers, help.
pub const POPUP_FRAME_LINES: u16 = 5;

/// `value` kept between `low` and `high`, as `value.min(high).max(low)`.
pub open spec fn clamp(value: int, low: int, high: int) -> int {
    if value < low || high < low {
        low
    } else if value > high {
        high
    } else {
        value
    }
}

/// Two thirds of a length, kept between `low` and `high`.
pub open spec fn popup_extent(length: u16, low: int, high: int) -> int {
    clamp(length * 2 / 3, low, high)
}

/// Where a popup of a width and a height goes in an area: in the middle,
/// or at the left or the top where the area is too small.
pub open spec fn centered(area: Rect, width: int, height: int) -> Rect {
    Rect {
        x: (if area.width >= width {
            (area.width - width) / 2
        } else {
            0
        }) as u16,
        y: (if area.height >= height {
            (area.height - height) / 2
        } else {
            0
        }) as u16,
        width: width as u16,
        height: height as u16,
    }
}

/// The style of the text that is typed.
pub open spec fn input_style() -> TextStyle {
    TextStyle::spec_fg(TextColor::Yellow)
}

/// The style of the text that runs beyond the column limit.
pub open spec fn grayed_out_style() -> TextStyle {
    TextStyle::spec_fg(TextColor::DarkGray)
}

fn two_thirds(length: u16, low: u16, high: u16) -> (r: u16)
    requires
        low <= high,
    ensures
        r == popup_extent(length, low as int, high as int),
{
    let scaled = length as u32 * 2 / 3;
    if scaled < low as u32 {
        low
    } else if scaled > high as u32 {
        high
    } else {
        scaled as u16
    }
}

fn center(area: Rect, width: u16, height: u16) -> (r: Rect)
    ensures
        r == centered(area, width as int, height as int),
{
    Rect {
        x: if area.width >= width {
            (area.width - width) / 2
        } else {
            0
        },
        y: if area.height >= height {
            (area.height - height) / 2
        } else {
            0
        },
        width,
        height,
    }
}

/// The place of a popup with a list: two thirds of the area each way, but
/// 40 to 60 cells wide and 10 to 20 cells high.
pub fn popup_area(area: Rect) -> (r: Rect)
    ensures
        r == centered(area, popup_extent(area.width, 40, 60), popup_extent(area.height, 10, 20)),
{
    center(area, two_thirds(area.width, 40, 60), two_thirds(area.height, 10, 20))
}

/// The place of a popup that asks for a text.
pub fn text_prompt_area(area: Rect) -> (r: Rect)
    ensures
        r == centered(area, popup_extent(area.width, 40, 60), TEXT_PROMPT_HEIGHT as int),
{
    center(area, two_thirds(area.width, 40, 60), TEXT_PROMPT_HEIGHT)
}

/// Which items of a popup are shown: the highlighted item, the first item
/// shown, and the number of items that fit.
#[derive(Debug, Clone, Copy, PartialEq, Eq, Structural)]
pub struct PopupWindow {
    pub selection: usize,
    pub scroll_offset: usize,
    pub max_visible_items: usize,
}

/// The window of a popup. The highlight stays within the items that pass
/// the filter, and the window follows it.
pub open spec fn spec_popup_window(selection: usize, item_count: usize, popup_height: u16) -> PopupWindow {
    let max_visible = if popup_height >= POPUP_FRAME_LINES {
        (popup_height - POPUP_FRAME_LINES) as usize
    } else {
        0usize
    };
    let last = if item_count > 0 {
        (item_count - 1) as usize
    } else {
        0usize
    };
    let shown = if selection > last {
        last
    } else {
        selection
    };
    PopupWindow {
        selection: shown,
        scroll_offset: if shown >= max_visible {
            (shown - max_visible + 1) as usize
        } else {
            0usize
        },
        max_visible_items: max_visible,
    }
}

#[verifier::when_used_as_spec(spec_popup_window)]
pub fn popup_window(selection: usize, item_count: usize, popup_height: u16) -> (w: PopupWindow)
    ensures
        w == spec_popup_window(selection, item_count, popup_height),
{
    let max_visible_items = if popup_height >= POPUP_FRAME_LINES {
        (popup_height - POPUP_FRAME_LINES) as usize
    } else {
        0
    };
    let last = if item_count > 0 {
        item_count - 1
    } else {
        0
    };
    let selection = if selection > last {
        last
    } else {
        selection
    };
    let scroll_offset = if selection >= max_visible_items {
        selection - max_visible_items + 1
    } else {
        0
    };
    PopupWindow { selection, scroll_offset, max_visible_items }
}

/// The height that the info text takes: its lines and a border above and
/// below, as far as a height can count.
pub fn info_height(info: &Option<Text>) -> (h: u16)
    ensures
        h == match info {
            Some(text) => if text@.len() + 2 > u16::MAX {
                u16::MAX
            } else {
                (text@.len() + 2) as u16
            },
            None => 0,
        },
{
    match info {
        Some(text) => {
            let n = text.height();
            if n > (u16::MAX - 2) as usize {
                u16::MAX
            } else {
                n as u16 + 2
            }
        },
        None => 0,
    }
}

/// The column limit of a line of a description.
pub open spec fn column_limit(line_idx: usize) -> nat {
    if line_idx == 0 {
        SUBJECT_COLUMNS as nat
    } else {
        BODY_COLUMNS as nat
    }
}

/// A line of a description as it is shown while it is edited: what runs
/// beyond the column limit is grayed out.
pub open spec fn description_spans(line: Seq<char>, line_idx: usize) -> Seq<SpanView> {
    let limit = column_limit(line_idx);
    if line.len() == 0 {
        Seq::empty()
    } else if line.len() <= limit {
        seq![SpanView { content: line, style: input_style() }]
    } else {
        seq![
            SpanView { content: line.take(limit as int), style: input_style() },
            SpanView { content: line.skip(limit as int), style: grayed_out_style() },
        ]
    }
}

/// Render a single line of description with column limit styling.
pub fn render_description_line(line_text: &str, line_idx: usize) -> (spans: Vec<Span>)
    ensures
        spans@.map_values(|s: Span| s@) == description_spans(line_text@, line_idx),
{
    let col_limit = if line_idx == 0 {
        SUBJECT_COLUMNS
    } else {
        BODY_COLUMNS
    };
    let chars = to_chars(line_text);
    let mut spans: Vec<Span> = Vec::new();
    if chars.len() == 0 {
        assert(spans@.map_values(|s: Span| s@) =~= description_spans(line_text@, line_idx));
    } else if chars.len() <= col_limit {
        spans.push(Span::styled(line_text, TextStyle::fg(TextColor::Yellow)));
        assert(spans@.map_values(|s: Span| s@) =~= description_spans(line_text@, line_idx));
    } else {
        let within = from_chars(&slice_chars(&chars, 0, col_limit));
        let beyond = from_chars(&slice_chars(&chars, col_limit, chars.len()));
        spans.push(Span::styled(within.as_str(), TextStyle::fg(TextColor::Yellow)));
        spans.push(Span::styled(beyond.as_str(), TextStyle::fg(TextColor::DarkGray)));
        proof {
            assert(within@ =~= line_text@.take(col_limit as int));
            assert(beyond@ =~= line_text@.skip(col_limit as int));
            assert(spans@.map_values(|s: Span| s@) =~= description_spans(line_text@, line_idx));
        }
    }
    spans
}

/// A text with a background behind all of its spans.
pub open spec fn highlighted(text: Seq<Seq<SpanView>>, color: TextColor) -> Seq<Seq<SpanView>> {
    text.map_values(
        |line: Seq<SpanView>|
            line.map_values(
                |span: SpanView| SpanView { style: TextStyle { bg: Some(color), ..span.style }, ..span },
            ),
    )
}

/// Puts the background of the saved selection behind a text.
pub fn apply_saved_selection_highlight(text: &mut Text)
    ensures
        final(text)@ == highlighted(old(text)@, saved_selection_color()),
{
    let ghost before = text@;
    let n = text.lines.len();
    let mut i: usize = 0;
    while i < n
        invariant
            i <= n,
            n == text.lines.len(),
            before.len() == n,
            forall|k: int| 0 <= k < i ==> (#[trigger] text.lines@[k])@ == highlighted(
                before,
                saved_selection_color(),
            )[k],
            forall|k: int| i <= k < n ==> (#[trigger] text.lines@[k])@ == before[k],
        decreases n - i,
    {
        let ghost line_before = text.lines@[i as int]@;
        let ghost lines_before = text.lines@;
        let line = &mut text.lines[i];
        let m = line.spans.len();
        let mut j: usize = 0;
        while j < m
            invariant
                j <= m,
                m == line.spans.len(),
                line_before.len() == m,
                forall|k: int| 0 <= k < j ==> (#[trigger] line.spans@[k])@ == (SpanView {
                    style: TextStyle { bg: Some(saved_selection_color()), ..line_before[k].style },
                    ..line_before[k]
                }),
                forall|k: int| j <= k < m ==> (#[trigger] line.spans@[k])@ == line_before[k],
            decreases m - j,
        {
            let span = &mut line.spans[j];
            span.style.bg = Some(saved_selection_color());
            j = j + 1;
        }
        proof {
            assert(text.lines@[i as int]@ =~= highlighted(before, saved_selection_color())[i as int]);
            assert forall|k: int| i < k < n implies (#[trigger] text.lines@[k])@ == before[k] by {
                assert(text.lines@[k] == lines_before[k]);
            }
            assert forall|k: int| 0 <= k < i implies (#[trigger] text.lines@[k])@ == highlighted(
                before,
                saved_selection_color(),
            )[k] by {
                assert(text.lines@[k] == lines_before[k]);
            }
        }
        i = i + 1;
    }
    assert(text@ =~= highlighted(before, saved_selection_color()));
}

} // verus!
