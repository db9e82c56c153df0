use buj::event::{KeyCode, KeyEvent, KeyModifiers};
use buj::geometry::{Position, Rect};
use buj::input::{to_ascii_upper, Input, InputLayout, InputState};

fn key(code: KeyCode) -> KeyEvent {
    KeyEvent::plain(code)
}

fn shift(code: KeyCode) -> KeyEvent {
    KeyEvent { code, modifiers: KeyModifiers { shift: true, control: false } }
}

fn ctrl(code: KeyCode) -> KeyEvent {
    KeyEvent { code, modifiers: KeyModifiers { shift: false, control: true } }
}

fn field(text: &str) -> InputState {
    let mut state = InputState::new();
    state.change_all(text);
    state
}

fn snapshot(state: &InputState) -> (String, usize, usize, Option<(usize, usize)>) {
    (state.content(), state.cursor(), state.offset(), state.selection())
}

#[test]
fn new_field_is_empty() {
    let state = InputState::new();
    assert_eq!(snapshot(&state), (String::new(), 0, 0, None));
    assert!(state.is_well_formed());
    assert_eq!(snapshot(&InputState::default()), (String::new(), 0, 0, None));
}

#[test]
fn typing_inserts_at_the_cursor() {
    let mut state = InputState::new();
    for c in "abc".chars() {
        assert!(state.handle_key(key(KeyCode::Char(c))));
    }
    assert_eq!(snapshot(&state), ("abc".to_string(), 3, 0, None));
    state.move_left(false);
    state.push('X');
    assert_eq!(snapshot(&state), ("abXc".to_string(), 3, 0, None));
    state.move_home(false);
    state.push('>');
    assert_eq!(snapshot(&state), (">abXc".to_string(), 1, 0, None));
}

#[test]
fn shift_types_upper_case() {
    let mut state = InputState::new();
    state.handle_key(shift(KeyCode::Char('a')));
    state.handle_key(shift(KeyCode::Char('z')));
    state.handle_key(shift(KeyCode::Char('1')));
    state.handle_key(shift(KeyCode::Char('é')));
    assert_eq!(state.content(), "AZ1é");
    assert_eq!(to_ascii_upper('q'), 'Q');
    assert_eq!(to_ascii_upper('Q'), 'Q');
    assert_eq!(to_ascii_upper('{'), '{');
    assert_eq!(to_ascii_upper('`'), '`');
}

#[test]
fn characters_beyond_ascii_count_as_one() {
    let mut state = InputState::new();
    state.push('é');
    state.push('x');
    assert_eq!(snapshot(&state), ("éx".to_string(), 2, 0, None));
    state.backspace();
    state.backspace();
    assert_eq!(snapshot(&state), (String::new(), 0, 0, None));
}

#[test]
fn backspace_deletes_before_the_cursor() {
    let mut state = field("abcd");
    state.backspace();
    assert_eq!(snapshot(&state), ("abc".to_string(), 3, 0, None));
    state.move_left(false);
    state.backspace();
    assert_eq!(snapshot(&state), ("ac".to_string(), 1, 0, None));
}

#[test]
fn backspace_at_the_start_deletes_the_first_character() {
    let mut state = field("abc");
    state.move_home(false);
    state.backspace();
    assert_eq!(snapshot(&state), ("bc".to_string(), 0, 0, None));
    let mut empty = InputState::new();
    empty.backspace();
    assert_eq!(snapshot(&empty), (String::new(), 0, 0, None));
}

#[test]
fn select_all_then_type_replaces_everything() {
    let mut state = field("hello");
    assert!(state.handle_key(ctrl(KeyCode::Char('a'))));
    assert_eq!(snapshot(&state), ("hello".to_string(), 0, 0, Some((0, 5))));
    state.handle_key(key(KeyCode::Char('x')));
    assert_eq!(snapshot(&state), ("x".to_string(), 1, 0, None));
}

#[test]
fn select_all_then_backspace_empties() {
    let mut state = field("hello");
    state.select_all();
    state.handle_key(key(KeyCode::Backspace));
    assert_eq!(snapshot(&state), (String::new(), 0, 0, None));
}

#[test]
fn shift_right_grows_a_selection() {
    let mut state = field("abcdef");
    state.move_to(false, 3);
    state.handle_key(shift(KeyCode::Right));
    assert_eq!(state.selection(), Some((3, 1)));
    state.handle_key(shift(KeyCode::Right));
    assert_eq!(state.selection(), Some((3, 2)));
    assert_eq!(state.cursor(), 5);
    state.handle_key(shift(KeyCode::Left));
    assert_eq!(state.selection(), Some((3, 1)));
    // Back at the anchor the last cell stays selected.
    state.handle_key(shift(KeyCode::Left));
    assert_eq!(state.selection(), Some((3, 1)));
    state.handle_key(shift(KeyCode::Left));
    assert_eq!(state.selection(), Some((2, 2)));
    assert!(state.is_well_formed());
}

#[test]
fn shift_left_grows_and_shift_right_shrinks_from_the_left() {
    let mut state = field("abcdef");
    state.move_to(false, 3);
    state.handle_key(shift(KeyCode::Left));
    assert_eq!(state.selection(), Some((2, 1)));
    state.handle_key(shift(KeyCode::Left));
    assert_eq!(state.selection(), Some((1, 2)));
    state.handle_key(shift(KeyCode::Right));
    assert_eq!(state.selection(), Some((2, 1)));
    assert_eq!(state.cursor(), 2);
}

#[test]
fn shift_home_and_end_select_to_the_edges() {
    let mut state = field("abcdef");
    state.move_to(false, 2);
    state.handle_key(shift(KeyCode::End));
    assert_eq!(state.selection(), Some((2, 4)));
    assert_eq!(state.cursor(), 6);
    state.handle_key(shift(KeyCode::Home));
    assert_eq!(state.selection(), Some((0, 6)));
    assert_eq!(state.cursor(), 0);
}

#[test]
fn moving_without_shift_drops_the_selection() {
    let mut state = field("abc");
    state.select_all();
    state.handle_key(key(KeyCode::Right));
    assert_eq!(snapshot(&state), ("abc".to_string(), 1, 0, None));
}

#[test]
fn selecting_without_moving_keeps_the_selection() {
    let mut state = field("abc");
    state.select_all();
    state.handle_key(shift(KeyCode::Home));
    assert_eq!(state.selection(), Some((0, 3)));
    let mut at_end = field("abc");
    at_end.handle_key(shift(KeyCode::Right));
    assert_eq!(at_end.selection(), None);
}

#[test]
fn typing_over_a_selection_replaces_it() {
    let mut state = field("abcdef");
    state.move_to(false, 1);
    state.move_to(true, 2);
    state.move_right(true);
    state.move_right(true);
    assert_eq!(state.selection(), Some((1, 3)));
    state.push('-');
    assert_eq!(snapshot(&state), ("a-ef".to_string(), 2, 0, None));
}

#[test]
fn move_to_stops_at_the_end_of_the_text() {
    let mut state = field("abc");
    state.move_to(false, 99);
    assert_eq!(state.cursor(), 3);
    state.move_right(false);
    assert_eq!(state.cursor(), 3);
    state.move_home(false);
    state.move_left(false);
    assert_eq!(state.cursor(), 0);
}

#[test]
fn a_far_jump_into_the_selection_can_leave_the_field_ill_formed() {
    let mut state = field("0123456789");
    state.select_all();
    state.move_to(true, 9);
    assert_eq!(state.selection(), Some((9, 9)));
    assert!(!state.is_well_formed());
    state.clear();
    assert!(state.is_well_formed());
}

#[test]
fn other_keys_are_not_taken() {
    let mut state = field("abc");
    assert!(!state.handle_key(key(KeyCode::Enter)));
    assert!(!state.handle_key(key(KeyCode::Tab)));
    assert!(!state.handle_key(key(KeyCode::Other)));
    assert_eq!(snapshot(&state), ("abc".to_string(), 3, 0, None));
}

#[test]
fn clear_resets_everything() {
    let mut state = field("abc");
    state.select_all();
    state.clear();
    assert_eq!(snapshot(&state), (String::new(), 0, 0, None));
}

#[test]
fn layout_scrolls_the_cursor_into_view() {
    let mut state = field("0123456789abcdef");
    // Border of one cell: 8 cells of text.
    let area = Rect { x: 2, y: 1, width: 10, height: 3 };
    let layout = Input::layout(area, &mut state);
    assert_eq!(state.offset(), 8);
    assert_eq!(
        layout,
        InputLayout {
            area: Rect { x: 3, y: 2, width: 8, height: 1 },
            visible: Some((8, 16)),
            highlight: None,
        }
    );
    state.move_to(false, 3);
    let layout = Input::layout(area, &mut state);
    assert_eq!(state.offset(), 3);
    assert_eq!(layout.visible, Some((3, 11)));
}

#[test]
fn layout_highlights_the_visible_part_of_the_selection() {
    let mut state = field("0123456789abcdef");
    state.select_all();
    let area = Rect { x: 2, y: 1, width: 10, height: 3 };
    let layout = Input::layout(area, &mut state);
    assert_eq!(state.offset(), 0);
    assert_eq!(layout.visible, Some((0, 8)));
    assert_eq!(layout.highlight, Some((3, 8)));

    let mut part = field("abcdef");
    part.move_to(false, 2);
    part.move_right(true);
    part.move_right(true);
    let layout = Input::layout(area, &mut part);
    assert_eq!(layout.visible, Some((0, 6)));
    assert_eq!(layout.highlight, Some((5, 2)));
}

#[test]
fn layout_shows_nothing_when_the_window_passes_the_text() {
    let mut state = field("0123456789abcdef");
    let area = Rect { x: 0, y: 0, width: 10, height: 3 };
    Input::layout(area, &mut state);
    assert_eq!(state.offset(), 8);
    state.select_all();
    state.push('x');
    assert_eq!((state.content(), state.cursor(), state.offset()), ("x".to_string(), 1, 8));
    // The cursor pulls the window to offset 1, one past the only character.
    let layout = Input::layout(area, &mut state);
    assert_eq!(state.offset(), 1);
    assert_eq!(layout.visible, None);
    assert_eq!(layout.highlight, None);
}

#[test]
fn layout_of_an_area_too_small_for_its_border_is_empty() {
    let mut state = field("abc");
    let layout = Input::layout(Rect { x: 4, y: 4, width: 1, height: 1 }, &mut state);
    assert_eq!(layout.area, Rect { x: 0, y: 0, width: 0, height: 0 });
    assert_eq!(state.offset(), 3);
    assert_eq!(layout.visible, Some((3, 3)));
    assert_eq!(layout.highlight, None);
}

#[test]
fn cursor_cell_follows_cursor_and_offset() {
    let mut state = field("0123456789abcdef");
    let area = Rect { x: 2, y: 1, width: 10, height: 3 };
    assert_eq!(state.sync_cursor(area), Position { x: 3 + 16, y: 2 });
    Input::layout(area, &mut state);
    assert_eq!(state.sync_cursor(area), Position { x: 3 + 8, y: 2 });
    state.move_home(false);
    // Cursor left of the window: the distance counts all the same.
    assert_eq!(state.sync_cursor(area), Position { x: 3 + 8, y: 2 });
}
