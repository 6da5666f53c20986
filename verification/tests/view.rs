use jjdag::model::Rect;
use jjdag::text::{Line, Span, Text, TextColor, TextStyle};
use jjdag::view::{
    apply_saved_selection_highlight, info_height, popup_area, popup_window, render_description_line,
    saved_selection_color, selection_color, text_prompt_area, PopupWindow,
};

fn area(width: u16, height: u16) -> Rect {
    Rect { x: 0, y: 0, width, height }
}

#[test]
fn popup_takes_two_thirds_within_its_limits() {
    assert_eq!(popup_area(area(90, 30)), Rect { x: 15, y: 5, width: 60, height: 20 });
    assert_eq!(popup_area(area(75, 24)), Rect { x: 12, y: 4, width: 50, height: 16 });
    assert_eq!(popup_area(area(50, 12)), Rect { x: 5, y: 1, width: 40, height: 10 });
    assert_eq!(popup_area(area(200, 100)), Rect { x: 70, y: 40, width: 60, height: 20 });
    assert_eq!(popup_area(area(30, 5)), Rect { x: 0, y: 0, width: 40, height: 10 });
    assert_eq!(popup_area(area(u16::MAX, u16::MAX)).width, 60);
}

#[test]
fn text_prompt_is_seven_lines_high() {
    assert_eq!(text_prompt_area(area(90, 30)), Rect { x: 15, y: 11, width: 60, height: 7 });
    assert_eq!(text_prompt_area(area(60, 4)), Rect { x: 10, y: 0, width: 40, height: 7 });
}

#[test]
fn popup_window_follows_the_highlight() {
    assert_eq!(
        popup_window(0, 30, 20),
        PopupWindow { selection: 0, scroll_offset: 0, max_visible_items: 15 }
    );
    assert_eq!(popup_window(14, 30, 20).scroll_offset, 0);
    assert_eq!(popup_window(15, 30, 20).scroll_offset, 1);
    assert_eq!(popup_window(29, 30, 20).scroll_offset, 15);
    assert_eq!(
        popup_window(99, 30, 20),
        PopupWindow { selection: 29, scroll_offset: 15, max_visible_items: 15 }
    );
    assert_eq!(
        popup_window(3, 0, 10),
        PopupWindow { selection: 0, scroll_offset: 0, max_visible_items: 5 }
    );
    assert_eq!(
        popup_window(2, 9, 4),
        PopupWindow { selection: 2, scroll_offset: 3, max_visible_items: 0 }
    );
}

#[test]
fn info_takes_its_lines_and_two() {
    assert_eq!(info_height(&None), 0);
    assert_eq!(info_height(&Some(Text::raw("one"))), 3);
    let lines = (0..5).map(|_| Line::blank()).collect();
    assert_eq!(info_height(&Some(Text::from_lines(lines))), 7);
    assert_eq!(info_height(&Some(Text::from_lines(vec![]))), 2);
}

#[test]
fn description_is_grayed_out_beyond_the_column_limit() {
    let yellow = TextStyle::fg(TextColor::Yellow);
    let gray = TextStyle::fg(TextColor::DarkGray);
    assert_eq!(render_description_line("", 0), vec![]);
    assert_eq!(render_description_line("short", 0), vec![Span::styled("short", yellow)]);
    let subject = "x".repeat(50);
    assert_eq!(render_description_line(&subject, 0), vec![Span::styled(&subject, yellow)]);
    let long = format!("{subject}yz");
    assert_eq!(
        render_description_line(&long, 0),
        vec![Span::styled(&subject, yellow), Span::styled("yz", gray)]
    );
    assert_eq!(render_description_line(&long, 1), vec![Span::styled(&long, yellow)]);
    let body = "\u{e9}".repeat(73);
    assert_eq!(
        render_description_line(&body, 3),
        vec![Span::styled(&"\u{e9}".repeat(72), yellow), Span::styled("\u{e9}", gray)]
    );
}

#[test]
fn saved_selection_gets_its_background() {
    let mut text = Text::from_lines(vec![
        Line::from_spans(vec![Span::raw("a"), Span::styled("b", TextStyle::fg(TextColor::Red))]),
        Line::blank(),
        Line::raw("c"),
    ]);
    apply_saved_selection_highlight(&mut text);
    assert_eq!(saved_selection_color(), TextColor::Rgb(33, 35, 45));
    assert_eq!(selection_color(), TextColor::Rgb(40, 42, 54));
    let styles: Vec<TextStyle> =
        text.lines.iter().flat_map(|l| l.spans.iter().map(|s| s.style)).collect();
    assert_eq!(styles.len(), 3);
    assert!(styles.iter().all(|s| s.bg == Some(TextColor::Rgb(33, 35, 45))));
    assert_eq!(styles[1].fg, Some(TextColor::Red));
    assert_eq!(text.plain(), "ab\n\nc");
}
