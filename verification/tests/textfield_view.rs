use raylib_interactive::drawing::Span;
use raylib_interactive::geometry::Point;
use raylib_interactive::input::{FrameInput, KeyState};
use raylib_interactive::metrics::GlyphMetrics;
use raylib_interactive::model::Mode;
use raylib_interactive::textfield::TextField;

fn chars(s: &str) -> Vec<char> {
    s.chars().collect()
}

fn narrow_field(text: &str) -> TextField {
    // 60 wide with 5 of padding on each side: 50 pixels, five characters of 10.
    let mut field = TextField::new(0, 0, 60, 30, 100);
    field.text = chars(text);
    field
}

fn key(make: impl Fn(&mut FrameInput)) -> FrameInput {
    let mut input = FrameInput::quiet(16_000);
    make(&mut input);
    input
}

fn outside() -> Point {
    Point::new(-10, -10)
}

#[test]
fn the_window_follows_the_cursor() {
    let mut field = narrow_field("0123456789");
    assert_eq!(field.viewport(), 50);
    assert_eq!(field.get_max_visible_chars(), 5);
    field.activate();
    assert_eq!(field.cursor_position, 10);
    assert_eq!(field.scroll_offset, 5);
    assert_eq!(field.get_max_visible_chars(), 5);
    let left = key(|i| i.left = KeyState::press());
    for _ in 0..5 {
        field.update(outside(), &left);
    }
    assert_eq!(field.cursor_position, 5);
    assert_eq!(field.scroll_offset, 5);
    field.update(outside(), &left);
    assert_eq!(field.cursor_position, 4);
    assert_eq!(field.scroll_offset, 4);
    field.update(outside(), &key(|i| i.end = KeyState::press()));
    assert_eq!(field.cursor_position, 10);
    assert_eq!(field.scroll_offset, 5);
    field.update(outside(), &key(|i| i.home = KeyState::press()));
    assert_eq!(field.cursor_position, 0);
    assert_eq!(field.scroll_offset, 0);
}

#[test]
fn the_window_goes_by_widths_not_by_counts() {
    let mut advances = vec![10u32; 128];
    advances['i' as usize] = 4;
    advances['w' as usize] = 16;
    let mut field = narrow_field("wwwiii").with_metrics(GlyphMetrics::from_table(advances, 10));
    // 16 + 16 + 16 = 48 fits in 50, one more i does not.
    assert_eq!(field.get_max_visible_chars(), 3);
    field.activate();
    // From 1: 16 + 16 + 4 + 4 + 4 = 44 fits; from 0 it is 60.
    assert_eq!(field.scroll_offset, 1);
    assert_eq!(field.get_max_visible_chars(), 5);
}

#[test]
fn deleting_the_text_left_of_the_window_moves_the_window() {
    let mut field = narrow_field("0123456789");
    field.activate();
    field.selection_anchor = Some(0);
    field.update(outside(), &key(|i| i.delete = KeyState::press()));
    assert!(field.text.is_empty());
    assert_eq!(field.cursor_position, 0);
    assert_eq!(field.scroll_offset, 0);
}

#[test]
fn a_viewport_narrower_than_a_character_shows_none() {
    let mut field = TextField::new(0, 0, 12, 30, 100);
    field.text = chars("abc");
    assert_eq!(field.viewport(), 2);
    assert_eq!(field.get_max_visible_chars(), 0);
    field.activate();
    assert_eq!(field.cursor_position, 3);
    assert_eq!(field.scroll_offset, 3);
    let narrower = TextField::new(0, 0, 8, 30, 100);
    assert_eq!(narrower.viewport(), 0);
}

#[test]
fn a_click_puts_the_cursor_at_the_nearest_boundary() {
    let mut field = TextField::new(100, 50, 200, 30, 50);
    field.text = chars("hello world");
    let click = key(|i| i.mouse_left = KeyState::press());
    // The text starts at 105. 24 pixels in, 20 is nearer than 30.
    field.update(Point::new(129, 60), &click);
    assert!(field.is_active);
    assert_eq!(field.cursor_position, 2);
    // Half way between two boundaries the left one wins.
    field.update(Point::new(130, 60), &click);
    assert_eq!(field.cursor_position, 2);
    field.update(Point::new(131, 60), &click);
    assert_eq!(field.cursor_position, 3);
    // Behind the text: the end.
    field.update(Point::new(290, 60), &click);
    assert_eq!(field.cursor_position, 11);
    // On the padding: the start.
    field.update(Point::new(100, 60), &click);
    assert_eq!(field.cursor_position, 0);
    assert_eq!(field.selection_anchor, None);
}

#[test]
fn a_click_with_shift_extends_the_selection() {
    let mut field = TextField::new(100, 50, 200, 30, 50);
    field.text = chars("hello world");
    field.update(Point::new(125, 60), &key(|i| i.mouse_left = KeyState::press()));
    assert_eq!(field.cursor_position, 2);
    let shift_click = key(|i| {
        i.mouse_left = KeyState::press();
        i.shift = true;
    });
    field.update(Point::new(175, 60), &shift_click);
    assert_eq!(field.selection_anchor, Some(2));
    assert_eq!(field.cursor_position, 7);
    field.update(Point::new(105, 60), &shift_click);
    assert_eq!(field.selection_anchor, Some(2));
    assert_eq!(field.cursor_position, 0);
}

#[test]
fn a_click_outside_takes_focus_and_selection() {
    let mut field = TextField::new(100, 50, 200, 30, 50);
    field.text = chars("hello world");
    field.activate();
    field.selection_anchor = Some(3);
    // The right and bottom edges are outside.
    field.update(Point::new(300, 60), &key(|i| i.mouse_left = KeyState::press()));
    assert!(!field.is_active);
    assert_eq!(field.selection_anchor, None);
    assert_eq!(field.cursor_position, 11);
    field.update(Point::new(299, 79), &key(|i| i.mouse_left = KeyState::press()));
    assert!(field.is_active);
    field.update(Point::new(299, 80), &key(|i| i.mouse_left = KeyState::press()));
    assert!(!field.is_active);
}

#[test]
fn a_click_lands_among_the_characters_that_show() {
    let mut field = narrow_field("0123456789");
    field.activate();
    assert_eq!(field.scroll_offset, 5);
    // 12 pixels into the viewport: the boundary behind the first visible character.
    field.update(Point::new(17, 10), &key(|i| i.mouse_left = KeyState::press()));
    assert_eq!(field.cursor_position, 6);
    assert_eq!(field.scroll_offset, 5);
}

#[test]
fn dragging_the_strip_scrolls_and_takes_the_cursor_along() {
    // 100 wide: 90 pixels of viewport, nine characters.
    let mut field = TextField::new(0, 0, 100, 30, 50);
    field.text = chars("abcdefghijklmnopqrst");
    // The strip is the lowest 12 pixels. Half way along: 45 pixels into the
    // text is as near to boundary 4 as to 5, and half of the 11 hidden
    // characters are scrolled away.
    field.update(Point::new(50, 25), &key(|i| i.mouse_left = KeyState::press()));
    assert!(field.is_active);
    assert!(field.is_scrolling);
    assert_eq!(field.scroll_offset, 5);
    assert_eq!(field.cursor_position, 5);
    // The drag goes on with the pointer anywhere; beyond the right edge it
    // scrolls to the end.
    field.update(Point::new(150, -20), &key(|i| i.mouse_left = KeyState::held()));
    assert_eq!(field.scroll_offset, 11);
    assert_eq!(field.cursor_position, 11);
    field.update(Point::new(20, 25), &key(|i| i.mouse_left = KeyState::held()));
    assert_eq!(field.scroll_offset, 2);
    assert_eq!(field.cursor_position, 11);
    field.update(Point::new(0, 25), &key(|i| i.mouse_left = KeyState::release()));
    assert!(!field.is_scrolling);
    assert_eq!(field.scroll_offset, 2);
    field.update(Point::new(90, 25), &key(|i| i.mouse_left = KeyState::held()));
    assert_eq!(field.scroll_offset, 2);
}

#[test]
fn a_press_above_the_strip_starts_no_drag() {
    let mut field = TextField::new(0, 0, 100, 30, 50);
    field.text = chars("abcdefghijklmnopqrst");
    field.update(Point::new(50, 17), &key(|i| i.mouse_left = KeyState::press()));
    assert!(field.is_active);
    assert!(!field.is_scrolling);
    assert_eq!(field.scroll_offset, 0);
    field.update(Point::new(50, 18), &key(|i| i.mouse_left = KeyState::press()));
    assert!(field.is_scrolling);
}

#[test]
fn drawing_shows_the_window() {
    let mut field = narrow_field("0123456789");
    field.is_active = true;
    field.scroll_offset = 2;
    field.cursor_position = 4;
    field.selection_anchor = Some(9);
    let drawing = field.draw();
    assert!(!drawing.placeholder);
    assert_eq!(drawing.text, chars("23456"));
    assert_eq!(drawing.text_top, 5);
    assert_eq!(drawing.line_height, 20);
    assert_eq!(drawing.cursor, Some(20));
    // The selection is 4..9, of which 4..7 shows.
    assert_eq!(drawing.highlight, Some(Span { x: 20, width: 30 }));
    // Half of the text shows; two of the five hidden characters are scrolled away.
    assert_eq!(drawing.thumb, Some(Span { x: 12, width: 30 }));
}

#[test]
fn the_cursor_shows_in_the_first_half_of_the_blink_cycle_of_a_focused_field() {
    let mut field = narrow_field("abc");
    field.cursor_position = 3;
    assert_eq!(field.draw().cursor, None);
    field.is_active = true;
    assert_eq!(field.draw().cursor, Some(30));
    field.cursor_blink_timer = 499_999;
    assert_eq!(field.draw().cursor, Some(30));
    field.cursor_blink_timer = 500_000;
    assert_eq!(field.draw().cursor, None);
}

#[test]
fn a_selection_that_does_not_show_has_no_highlight() {
    let mut field = narrow_field("0123456789");
    field.is_active = true;
    field.scroll_offset = 5;
    field.cursor_position = 5;
    field.selection_anchor = Some(1);
    let drawing = field.draw();
    assert_eq!(drawing.text, chars("56789"));
    assert_eq!(drawing.highlight, None);
    assert_eq!(drawing.cursor, Some(0));
    assert_eq!(drawing.thumb, Some(Span { x: 30, width: 30 }));
    field.selection_anchor = Some(5);
    assert_eq!(field.draw().highlight, None);
    field.selection_anchor = None;
    assert_eq!(field.draw().highlight, None);
}

#[test]
fn a_narrow_selection_is_highlighted_two_pixels_wide() {
    let mut field = narrow_field("ab").with_metrics(GlyphMetrics::fixed(1));
    field.is_active = true;
    field.selection_anchor = Some(0);
    field.cursor_position = 1;
    assert_eq!(field.draw().highlight, Some(Span { x: 0, width: 2 }));
    field.selection_anchor = Some(2);
    assert_eq!(field.draw().highlight, Some(Span { x: 1, width: 2 }));
    field.selection_anchor = Some(0);
    field.cursor_position = 2;
    assert_eq!(field.draw().highlight, Some(Span { x: 0, width: 2 }));
}

#[test]
fn the_highlight_ends_where_the_viewport_ends() {
    let mut advances = vec![10u32; 128];
    advances['i' as usize] = 1;
    // 51 wide with 5 of padding on each side: 41 pixels.
    let mut field = TextField::new(0, 0, 51, 30, 100).with_metrics(GlyphMetrics::from_table(advances, 10));
    field.text = chars("0000i");
    field.is_active = true;
    field.selection_anchor = Some(4);
    field.cursor_position = 5;
    assert_eq!(field.viewport(), 41);
    // The selected i starts at 40 and one pixel is left.
    assert_eq!(field.draw().highlight, Some(Span { x: 40, width: 1 }));
    field.selection_anchor = Some(3);
    assert_eq!(field.draw().highlight, Some(Span { x: 30, width: 11 }));
}

#[test]
fn the_placeholder_shows_while_the_text_is_empty() {
    let field = narrow_field("").with_placeholder("Type here");
    let drawing = field.draw();
    assert!(drawing.placeholder);
    assert!(drawing.text.is_empty());
    assert_eq!(drawing.thumb, None);
    assert_eq!(drawing.cursor, None);
    assert!(!narrow_field("").draw().placeholder);
    assert!(!narrow_field("a").with_placeholder("Type here").draw().placeholder);
}

#[test]
fn text_that_all_shows_has_no_scroll_indicator() {
    let mut field = narrow_field("abc");
    assert_eq!(field.draw().thumb, None);
    field.text = chars("abcdef");
    assert_eq!(field.draw().thumb, Some(Span { x: 0, width: 50 }));
}

#[test]
fn drawing_a_field_with_stale_indices_shows_what_is_there() {
    let mut field = narrow_field("abc");
    field.is_active = true;
    field.scroll_offset = 10;
    field.cursor_position = 20;
    field.selection_anchor = Some(30);
    let drawing = field.draw();
    assert!(drawing.text.is_empty());
    assert_eq!(drawing.cursor, None);
    assert_eq!(drawing.highlight, None);
    assert_eq!(drawing.thumb, Some(Span { x: 60, width: 0 }));
}

#[test]
fn a_font_taller_than_the_bounds_starts_above_them() {
    let field = TextField::new(0, 0, 100, 15, 10).with_layout(20, 5);
    assert_eq!(field.draw().text_top, -2);
    let field = TextField::new(0, 0, 100, 25, 10).with_layout(20, 5);
    assert_eq!(field.draw().text_top, 2);
}

#[test]
fn a_new_field_is_empty_and_without_focus() {
    let field = TextField::new(1, 2, 300, 40, 7);
    assert_eq!((field.bounds.x, field.bounds.y), (1, 2));
    assert_eq!((field.bounds.width, field.bounds.height), (300, 40));
    assert_eq!(field.max_length, 7);
    assert_eq!(field.padding, 5);
    assert_eq!(field.font_size, 20);
    assert_eq!(field.metrics.advance_of('W'), 10);
    assert_eq!(field.cursor_position, 0);
    assert_eq!(field.scroll_offset, 0);
    assert_eq!(field.selection_anchor, None);
    assert_eq!(field.allowed_pattern, None);
    assert_eq!(field.character_callback, None);
    assert!(field.placeholder.is_empty());
    assert!(!field.is_scrolling);
    assert_eq!(field.viewport(), 290);
}

#[test]
fn the_layout_sets_the_viewport() {
    let field = TextField::new(0, 0, 100, 30, 10).with_layout(16, 8);
    assert_eq!(field.font_size, 16);
    assert_eq!(field.padding, 8);
    assert_eq!(field.viewport(), 84);
    let field = TextField::new(0, 0, -100, 30, 10).with_layout(16, u32::MAX);
    assert_eq!(field.viewport(), 0);
}

#[test]
fn what_the_field_is_doing() {
    let mut field = narrow_field("abc");
    assert_eq!(field.mode(), Mode::Unfocused);
    field.selection_anchor = Some(1);
    assert_eq!(field.mode(), Mode::Unfocused);
    field.activate();
    assert_eq!(field.mode(), Mode::Selecting);
    field.selection_anchor = Some(3);
    assert_eq!(field.mode(), Mode::Idle);
    field.selection_anchor = None;
    assert_eq!(field.mode(), Mode::Idle);
    field.update(Point::new(10, 25), &key(|i| i.mouse_left = KeyState::press()));
    assert_eq!(field.mode(), Mode::Dragging);
    field.update(Point::new(10, 25), &key(|i| i.mouse_left = KeyState::release()));
    assert_eq!(field.mode(), Mode::Idle);
}

#[test]
fn a_sequence_of_frames_keeps_the_cursor_in_the_window() {
    let mut field = narrow_field("the quick brown fox jumps over the lazy dog");
    let frames = [
        key(|i| i.mouse_left = KeyState::press()),
        key(|i| i.end = KeyState::press()),
        key(|i| {
            i.ctrl = true;
            i.left = KeyState::press();
        }),
        key(|i| {
            i.shift = true;
            i.home = KeyState::press();
        }),
        key(|i| i.delete = KeyState::press()),
        key(|i| i.chars = vec!['a', 'b', 'c', 'd', 'e', 'f', 'g']),
        key(|i| {
            i.ctrl = true;
            i.key_a = true;
            i.key_x = true;
        }),
        key(|i| {
            i.ctrl = true;
            i.key_v = true;
            i.clipboard = Some(chars("0123456789"));
        }),
        key(|i| i.left = KeyState::press()),
    ];
    for frame in &frames {
        field.update(Point::new(30, 25), frame);
        assert!(field.cursor_position <= field.text.len());
        assert!(field.scroll_offset <= field.cursor_position);
        assert!(field.cursor_position <= field.scroll_offset + field.get_max_visible_chars());
        assert!(field.scroll_offset + field.get_max_visible_chars() <= field.text.len());
        assert!(field.text.len() <= field.max_length);
    }
    assert_eq!(field.text, chars("0123456789"));
    assert_eq!(field.cursor_position, 9);
}
