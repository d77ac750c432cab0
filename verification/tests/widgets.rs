use raylib_interactive::button::{blend, fit_label, mix, Button, Color};
use raylib_interactive::checkbox::Checkbox;
use raylib_interactive::dropdown::{Dropdown, RowDrawing};
use raylib_interactive::geometry::Point;
use raylib_interactive::input::{FrameInput, KeyState};
use raylib_interactive::metrics::GlyphMetrics;
use raylib_interactive::results::TestResults;

fn chars(s: &str) -> Vec<char> {
    s.chars().collect()
}

fn mouse(state: KeyState, frame_time: u32) -> FrameInput {
    let mut input = FrameInput::quiet(frame_time);
    input.mouse_left = state;
    input
}

fn labels(names: &[&str]) -> Vec<String> {
    names.iter().map(|s| s.to_string()).collect()
}

#[test]
fn a_button_follows_the_pointer() {
    let mut button = Button::new(10, 10, 100, 30, "OK");
    button.update(Point::new(50, 20), &mouse(KeyState::idle(), 0));
    assert!(button.is_hovered);
    assert!(!button.is_pressed);
    button.update(Point::new(50, 20), &mouse(KeyState::press(), 0));
    assert!(button.is_pressed);
    assert!(!button.is_clicked(&mouse(KeyState::held(), 0)));
    assert!(button.is_clicked(&mouse(KeyState::release(), 0)));
    button.update(Point::new(5, 20), &mouse(KeyState::held(), 0));
    assert!(!button.is_hovered);
    assert!(!button.is_pressed);
    assert!(!button.is_clicked(&mouse(KeyState::release(), 0)));
}

#[test]
fn a_button_moves_towards_its_look_at_eight_a_second() {
    let mut button = Button::new(0, 0, 100, 30, "OK");
    // Hovered: towards a half, a tenth of the whole in 12.5 ms.
    button.update(Point::new(1, 1), &mouse(KeyState::idle(), 12_500));
    assert_eq!(button.animation_progress, 100_000);
    button.update(Point::new(1, 1), &mouse(KeyState::idle(), 100_000));
    assert_eq!(button.animation_progress, 500_000);
    // Pressed: to the whole.
    button.update(Point::new(1, 1), &mouse(KeyState::press(), 50_000));
    assert_eq!(button.animation_progress, 900_000);
    button.update(Point::new(1, 1), &mouse(KeyState::held(), 50_000));
    assert_eq!(button.animation_progress, 1_000_000);
    // Left alone: back to nothing.
    button.update(Point::new(-1, 1), &mouse(KeyState::idle(), 100_000));
    assert_eq!(button.animation_progress, 200_000);
    button.update(Point::new(-1, 1), &mouse(KeyState::idle(), 100_000));
    assert_eq!(button.animation_progress, 0);
    // From above a half down to it.
    button.animation_progress = 520_000;
    button.update(Point::new(1, 1), &mouse(KeyState::idle(), 10_000));
    assert_eq!(button.animation_progress, 500_000);
}

#[test]
fn a_disabled_button_is_neither_hovered_nor_clicked() {
    let mut button = Button::new(0, 0, 100, 30, "OK");
    button.update(Point::new(1, 1), &mouse(KeyState::press(), 10_000));
    assert_eq!(button.animation_progress, 80_000);
    button.enabled = false;
    button.update(Point::new(1, 1), &mouse(KeyState::held(), 10_000));
    assert!(!button.is_hovered);
    assert!(!button.is_pressed);
    assert_eq!(button.animation_progress, 80_000);
    button.is_hovered = true;
    assert!(!button.is_clicked(&mouse(KeyState::release(), 0)));
}

#[test]
fn colours_mix_channel_by_channel() {
    assert_eq!(mix(0, 255, 0), 0);
    assert_eq!(mix(0, 255, 1_000_000), 255);
    assert_eq!(mix(0, 255, 500_000), 127);
    assert_eq!(mix(200, 100, 250_000), 175);
    assert_eq!(mix(200, 100, 3_000_000), 100);
    assert_eq!(mix(7, 7, 123_456), 7);
    let from = Color { r: 0, g: 100, b: 200, a: 255 };
    let to = Color { r: 100, g: 0, b: 200, a: 55 };
    assert_eq!(blend(from, to, 500_000), Color { r: 50, g: 50, b: 200, a: 155 });
}

#[test]
fn a_button_is_shaded_between_its_three_fills() {
    let rest = Color { r: 0, g: 0, b: 0, a: 255 };
    let hover = Color { r: 100, g: 100, b: 100, a: 255 };
    let pressed = Color { r: 200, g: 0, b: 100, a: 255 };
    let mut button = Button::new(0, 0, 100, 30, "OK");
    assert_eq!(button.shade(rest, hover, pressed), rest);
    button.animation_progress = 250_000;
    assert_eq!(button.shade(rest, hover, pressed), Color { r: 50, g: 50, b: 50, a: 255 });
    button.animation_progress = 500_000;
    assert_eq!(button.shade(rest, hover, pressed), hover);
    button.animation_progress = 750_000;
    assert_eq!(button.shade(rest, hover, pressed), Color { r: 150, g: 50, b: 100, a: 255 });
    button.animation_progress = 1_000_000;
    assert_eq!(button.shade(rest, hover, pressed), pressed);
    button.animation_progress = u32::MAX;
    assert_eq!(button.shade(rest, hover, pressed), pressed);
}

#[test]
fn a_label_that_does_not_fit_ends_in_dots() {
    let metrics = GlyphMetrics::fixed(10);
    assert_eq!(fit_label(&metrics, &chars("Submit"), 60), chars("Submit"));
    // 59 pixels: the dots take 30, two characters fit in the 29 left.
    assert_eq!(fit_label(&metrics, &chars("Submit"), 59), chars("Su..."));
    assert_eq!(fit_label(&metrics, &chars("Submit"), 30), chars("..."));
    assert_eq!(fit_label(&metrics, &chars("Submit"), 5), chars("..."));
    assert_eq!(fit_label(&metrics, &chars(""), 0), chars(""));
}

#[test]
fn a_checkbox_toggles_on_a_press_on_it() {
    let mut checkbox = Checkbox::new(0, 0, 20, "Check");
    checkbox.update(Point::new(30, 5), &mouse(KeyState::press(), 0));
    assert!(!checkbox.is_checked);
    assert!(!checkbox.is_hovered);
    checkbox.update(Point::new(5, 5), &mouse(KeyState::press(), 0));
    assert!(checkbox.is_checked);
    assert!(checkbox.is_hovered);
    assert!(checkbox.is_clicked);
    checkbox.update(Point::new(5, 5), &mouse(KeyState::held(), 0));
    assert!(checkbox.is_checked);
    assert!(checkbox.is_clicked);
    checkbox.update(Point::new(5, 5), &mouse(KeyState::release(), 0));
    assert!(checkbox.is_checked);
    assert!(!checkbox.is_clicked);
    checkbox.update(Point::new(5, 5), &mouse(KeyState::press(), 0));
    assert!(!checkbox.is_checked);
}

#[test]
fn the_mark_of_a_checkbox_grows_and_shrinks_at_four_a_second() {
    let mut checkbox = Checkbox::new(0, 0, 20, "Check");
    checkbox.update(Point::new(5, 5), &mouse(KeyState::press(), 100_000));
    assert_eq!(checkbox.animation_progress, 400_000);
    checkbox.update(Point::new(5, 5), &mouse(KeyState::held(), 100_000));
    assert_eq!(checkbox.animation_progress, 800_000);
    checkbox.update(Point::new(5, 5), &mouse(KeyState::release(), 100_000));
    assert_eq!(checkbox.animation_progress, 1_000_000);
    checkbox.toggle();
    assert!(!checkbox.is_checked);
    assert_eq!(checkbox.animation_progress, 1_000_000);
    checkbox.update(Point::new(50, 50), &mouse(KeyState::idle(), 200_000));
    assert_eq!(checkbox.animation_progress, 200_000);
    checkbox.update(Point::new(50, 50), &mouse(KeyState::idle(), 200_000));
    assert_eq!(checkbox.animation_progress, 0);
    checkbox.toggle();
    assert!(checkbox.is_checked);
    assert_eq!(checkbox.animation_progress, 0);
    // A press that unchecks starts the mark at nothing.
    checkbox.animation_progress = 700_000;
    checkbox.update(Point::new(5, 5), &mouse(KeyState::press(), 1_000));
    assert!(!checkbox.is_checked);
    assert_eq!(checkbox.animation_progress, 0);
    checkbox.update(Point::new(5, 5), &mouse(KeyState::idle(), u32::MAX));
    assert_eq!(checkbox.animation_progress, 0);
}

#[test]
fn a_dropdown_opens_and_picks() {
    let mut dropdown = Dropdown::new(10, 10, 100, 20, labels(&["a", "b", "c"]));
    dropdown.update(Point::new(20, 15), &mouse(KeyState::press(), 0));
    assert!(dropdown.is_open);
    // Row 1 spans y 50..70.
    dropdown.update(Point::new(20, 50), &mouse(KeyState::idle(), 0));
    assert_eq!(dropdown.hover_index, Some(1));
    assert_eq!(dropdown.selected_index, None);
    dropdown.update(Point::new(20, 69), &mouse(KeyState::press(), 0));
    assert_eq!(dropdown.selected_index, Some(1));
    assert!(!dropdown.is_open);
    assert_eq!(dropdown.hover_index, None);
    assert_eq!(dropdown.get_selected_item(), Some(&"b".to_string()));
}

#[test]
fn a_press_beside_the_rows_closes_the_dropdown() {
    let mut dropdown = Dropdown::new(10, 10, 100, 20, labels(&["a", "b", "c"]));
    dropdown.selected_index = Some(2);
    dropdown.open();
    // Below the third row, which ends at 90.
    dropdown.update(Point::new(20, 90), &mouse(KeyState::press(), 0));
    assert!(!dropdown.is_open);
    assert_eq!(dropdown.selected_index, Some(2));
    dropdown.open();
    dropdown.update(Point::new(110, 40), &mouse(KeyState::press(), 0));
    assert!(!dropdown.is_open);
    assert_eq!(dropdown.selected_index, Some(2));
    // A press on the box closes an open dropdown.
    dropdown.open();
    dropdown.update(Point::new(10, 10), &mouse(KeyState::press(), 0));
    assert!(!dropdown.is_open);
}

#[test]
fn escape_closes_the_dropdown_and_clears_the_selection() {
    let mut dropdown = Dropdown::new(10, 10, 100, 20, labels(&["a", "b", "c"]));
    dropdown.selected_index = Some(1);
    let mut escape = FrameInput::quiet(0);
    escape.escape = true;
    dropdown.update(Point::new(0, 0), &escape);
    assert_eq!(dropdown.selected_index, Some(1));
    dropdown.open();
    dropdown.update(Point::new(0, 0), &escape);
    assert!(!dropdown.is_open);
    assert_eq!(dropdown.selected_index, None);
}

#[test]
fn the_wheel_scrolls_an_open_dropdown_within_its_range() {
    let mut dropdown = Dropdown::new(10, 10, 100, 20, labels(&["a", "b", "c", "d", "e", "f", "g"]));
    dropdown.max_visible_items = 4;
    let mut wheel = FrameInput::quiet(0);
    wheel.wheel_move = -2;
    dropdown.update(Point::new(20, 35), &wheel);
    assert_eq!(dropdown.scroll_offset, 0);
    dropdown.open();
    dropdown.update(Point::new(20, 35), &wheel);
    assert_eq!(dropdown.scroll_offset, 2);
    assert_eq!(dropdown.hover_index, Some(2));
    dropdown.update(Point::new(20, 35), &wheel);
    assert_eq!(dropdown.scroll_offset, 3);
    // The fifth row does not show.
    dropdown.update(Point::new(20, 115), &mouse(KeyState::idle(), 0));
    assert_eq!(dropdown.hover_index, None);
    dropdown.update(Point::new(20, 109), &mouse(KeyState::press(), 0));
    assert_eq!(dropdown.selected_index, Some(6));
    dropdown.open();
    wheel.wheel_move = i32::MIN;
    dropdown.update(Point::new(20, 35), &wheel);
    assert_eq!(dropdown.scroll_offset, 3);
    wheel.wheel_move = i32::MAX;
    dropdown.update(Point::new(20, 35), &wheel);
    assert_eq!(dropdown.scroll_offset, 0);
}

#[test]
fn a_scroll_offset_beyond_the_range_is_taken_as_it_stands() {
    let names = ["a", "b", "c", "d", "e", "f", "g", "h"];
    let mut dropdown = Dropdown::new(10, 10, 100, 20, labels(&names));
    dropdown.scroll_offset = 6;
    dropdown.open();
    // Row 1 spans y 50..70: the item is 1 + 6, though the list has rows for 3..8 at most.
    dropdown.update(Point::new(20, 55), &mouse(KeyState::idle(), 0));
    assert_eq!(dropdown.hover_index, Some(7));
    assert_eq!(dropdown.scroll_offset, 6);
    dropdown.update(Point::new(20, 55), &mouse(KeyState::press(), 0));
    assert_eq!(dropdown.selected_index, Some(7));
    assert_eq!(dropdown.scroll_offset, 6);
    assert_eq!(dropdown.get_selected_item(), Some(&"h".to_string()));
    // Row 2 would show an item that is not there.
    dropdown.open();
    dropdown.update(Point::new(20, 75), &mouse(KeyState::press(), 0));
    assert_eq!(dropdown.selected_index, Some(8));
    assert_eq!(dropdown.get_selected_item(), None);
}

#[test]
fn the_wheel_brings_a_scroll_offset_beyond_the_range_back() {
    let names = ["a", "b", "c", "d", "e", "f", "g", "h"];
    let mut dropdown = Dropdown::new(10, 10, 100, 20, labels(&names));
    dropdown.scroll_offset = 6;
    dropdown.open();
    let mut wheel = FrameInput::quiet(0);
    wheel.wheel_move = 1;
    // 6 - 1 is beyond 8 - 5.
    dropdown.update(Point::new(20, 55), &wheel);
    assert_eq!(dropdown.scroll_offset, 3);
    assert_eq!(dropdown.hover_index, Some(4));
    dropdown.scroll_offset = 6;
    wheel.wheel_move = 4;
    dropdown.update(Point::new(20, 55), &wheel);
    assert_eq!(dropdown.scroll_offset, 2);
    // A list that shows all its items is not scrolled.
    dropdown.max_visible_items = 8;
    dropdown.scroll_offset = 6;
    dropdown.update(Point::new(20, 55), &wheel);
    assert_eq!(dropdown.scroll_offset, 6);
}

#[test]
fn an_item_index_beyond_the_largest_is_held_there() {
    let mut dropdown = Dropdown::new(10, 10, 100, 20, labels(&["a", "b", "c"]));
    dropdown.max_visible_items = 2;
    dropdown.scroll_offset = usize::MAX;
    dropdown.open();
    dropdown.update(Point::new(20, 55), &mouse(KeyState::idle(), 0));
    assert_eq!(dropdown.hover_index, Some(usize::MAX));
    dropdown.update(Point::new(20, 55), &mouse(KeyState::press(), 0));
    assert_eq!(dropdown.scroll_offset, usize::MAX);
    assert_eq!(dropdown.selected_index, Some(usize::MAX));
    assert_eq!(dropdown.get_selected_item(), None);
    let mut dropdown = dropdown.with_deselect_option("None");
    dropdown.open();
    dropdown.update(Point::new(20, 55), &mouse(KeyState::press(), 0));
    assert_eq!(dropdown.selected_index, Some(usize::MAX - 1));
    assert_eq!(dropdown.get_selected_item(), None);
    assert_eq!(Dropdown::item_index(usize::MAX - 1, 1), usize::MAX);
    assert_eq!(Dropdown::item_index(4, 3), 7);
}

#[test]
fn a_closed_dropdown_draws_no_rows() {
    let mut dropdown = Dropdown::new(10, 10, 100, 20, labels(&["a", "b", "c", "d", "e", "f", "g"]));
    dropdown.max_visible_items = 4;
    dropdown.scroll_offset = 1;
    let drawing = dropdown.draw();
    assert!(drawing.rows.is_empty());
    assert!(!drawing.more_above);
    assert!(!drawing.more_below);
}

#[test]
fn an_open_dropdown_draws_its_rows() {
    let mut dropdown = Dropdown::new(10, 10, 100, 20, labels(&["a", "b", "c", "d", "e", "f", "g"]));
    dropdown.max_visible_items = 4;
    dropdown.open();
    let drawing = dropdown.draw();
    let items: Vec<usize> = drawing.rows.iter().map(|row| row.item).collect();
    assert_eq!(items, vec![0, 1, 2, 3]);
    assert!(drawing.rows.iter().all(|row| !row.hovered));
    assert!(!drawing.more_above);
    assert!(drawing.more_below);
    dropdown.scroll_offset = 2;
    dropdown.hover_index = Some(3);
    let drawing = dropdown.draw();
    assert_eq!(
        drawing.rows,
        vec![
            RowDrawing { item: 2, hovered: false },
            RowDrawing { item: 3, hovered: true },
            RowDrawing { item: 4, hovered: false },
            RowDrawing { item: 5, hovered: false },
        ]
    );
    assert!(drawing.more_above);
    assert!(drawing.more_below);
    dropdown.scroll_offset = 3;
    let drawing = dropdown.draw();
    assert_eq!(drawing.rows.len(), 4);
    assert!(drawing.more_above);
    assert!(!drawing.more_below);
}

#[test]
fn rows_without_an_item_are_not_drawn() {
    let mut dropdown = Dropdown::new(10, 10, 100, 20, labels(&["a", "b", "c", "d", "e", "f", "g"]));
    dropdown.max_visible_items = 4;
    dropdown.open();
    dropdown.scroll_offset = 5;
    dropdown.hover_index = Some(6);
    let drawing = dropdown.draw();
    assert_eq!(
        drawing.rows,
        vec![RowDrawing { item: 5, hovered: false }, RowDrawing { item: 6, hovered: true }]
    );
    assert!(drawing.more_above);
    assert!(!drawing.more_below);
    dropdown.scroll_offset = 7;
    assert!(dropdown.draw().rows.is_empty());
    dropdown.scroll_offset = usize::MAX;
    assert!(dropdown.draw().rows.is_empty());
    // A list that shows all its items has nothing hidden, whatever the offset.
    dropdown.max_visible_items = 7;
    dropdown.scroll_offset = 2;
    let drawing = dropdown.draw();
    assert_eq!(drawing.rows.len(), 5);
    assert!(!drawing.more_above);
    assert!(!drawing.more_below);
}

#[test]
fn the_label_for_nothing_clears_the_selection() {
    let mut dropdown = Dropdown::new(10, 10, 100, 20, labels(&["a", "b"])).with_deselect_option("None");
    assert!(dropdown.has_deselect_option());
    assert_eq!(dropdown.items, labels(&["None", "a", "b"]));
    dropdown.open();
    // Row 2 holds "b", the second of the items that can be selected.
    dropdown.update(Point::new(20, 75), &mouse(KeyState::press(), 0));
    assert_eq!(dropdown.selected_index, Some(1));
    assert_eq!(dropdown.get_selected_item(), Some(&"b".to_string()));
    dropdown.open();
    dropdown.update(Point::new(20, 35), &mouse(KeyState::press(), 0));
    assert_eq!(dropdown.selected_index, None);
    assert_eq!(dropdown.get_selected_item(), None);
    dropdown.selected_index = Some(2);
    assert_eq!(dropdown.get_selected_item(), None);
}

#[test]
fn only_three_labels_stand_for_nothing() {
    for label in ["None", "Deselect", "Clear"] {
        assert!(Dropdown::new(0, 0, 1, 1, labels(&["a"])).with_deselect_option(label).has_deselect_option());
    }
    assert!(!Dropdown::new(0, 0, 1, 1, labels(&["a"])).with_deselect_option("none").has_deselect_option());
    assert!(!Dropdown::new(0, 0, 1, 1, labels(&["a", "None"])).has_deselect_option());
    assert!(!Dropdown::new(0, 0, 1, 1, Vec::new()).has_deselect_option());
}

#[test]
fn removing_an_item_keeps_the_selected_item_selected() {
    let mut dropdown = Dropdown::new(0, 0, 100, 20, labels(&["a", "b", "c", "d"]));
    dropdown.selected_index = Some(2);
    dropdown.remove_item(3);
    assert_eq!(dropdown.selected_index, Some(2));
    dropdown.remove_item(0);
    assert_eq!(dropdown.selected_index, Some(1));
    assert_eq!(dropdown.get_selected_item(), Some(&"c".to_string()));
    dropdown.remove_item(7);
    assert_eq!(dropdown.items, labels(&["b", "c"]));
    dropdown.remove_item(1);
    assert_eq!(dropdown.selected_index, None);
    assert_eq!(dropdown.items, labels(&["b"]));
}

#[test]
fn a_dropdown_without_height_has_no_rows_to_hit() {
    let mut dropdown = Dropdown::new(10, 10, 100, 0, labels(&["a", "b"]));
    dropdown.open();
    dropdown.update(Point::new(20, 10), &mouse(KeyState::idle(), 0));
    assert_eq!(dropdown.hover_index, None);
    assert_eq!(dropdown.row_under(Point::new(20, 10)), None);
    assert_eq!(dropdown.visible_rows(), 2);
}

#[test]
fn a_dropdown_from_values_shows_what_they_display_as() {
    let dropdown = Dropdown::from_enum(1, 2, 3, 4, &[10, 20, 30]);
    assert_eq!(dropdown.items, labels(&["10", "20", "30"]));
    assert_eq!(dropdown.bounds.height, 4);
    assert_eq!(dropdown.max_visible_items, 5);
}

#[test]
fn clearing_a_dropdown() {
    let mut dropdown = Dropdown::new(0, 0, 100, 20, labels(&["a", "b", "c"]));
    dropdown.selected_index = Some(1);
    dropdown.scroll_offset = 1;
    dropdown.clear_selection();
    assert_eq!(dropdown.selected_index, None);
    assert_eq!(dropdown.scroll_offset, 1);
    dropdown.selected_index = Some(1);
    dropdown.open();
    dropdown.clear_items();
    assert!(dropdown.items.is_empty());
    assert_eq!(dropdown.selected_index, None);
    assert_eq!(dropdown.scroll_offset, 0);
    assert!(dropdown.is_open);
    dropdown.close();
    assert!(!dropdown.is_open);
    dropdown.toggle();
    assert!(dropdown.is_open);
}

#[test]
fn all_groups_must_pass() {
    let mut results = TestResults::new();
    results.update_all_passed();
    assert!(!results.all_passed);
    results.button_tests = true;
    results.textfield_tests = true;
    results.checkbox_tests = true;
    results.dropdown_tests = true;
    results.update_all_passed();
    assert!(!results.all_passed);
    results.style_tests = true;
    results.update_all_passed();
    assert!(results.all_passed);
    results.checkbox_tests = false;
    assert!(results.all_passed);
    results.update_all_passed();
    assert!(!results.all_passed);
}
