use buj::geometry::{Position, Rect};
use buj::paint::{pill, round_button, Color, Paint};

fn at(x: u16, y: u16) -> Position {
    Position { x, y }
}

fn symbol(x: u16, y: u16, s: &str) -> Paint {
    Paint::Symbol { at: at(x, y), symbol: s.to_string() }
}

fn fg(x: u16, y: u16, color: Color) -> Paint {
    Paint::Fg { at: at(x, y), color }
}

fn bg(x: u16, y: u16, color: Color) -> Paint {
    Paint::Bg { at: at(x, y), color }
}

#[test]
fn pill_draws_both_ends() {
    let out = pill(Color::Green, Rect { x: 4, y: 2, width: 6, height: 3 });
    assert_eq!(
        out.paints,
        vec![
            symbol(4, 2, "◖"),
            fg(4, 2, Color::Green),
            symbol(9, 2, "◗"),
            fg(9, 2, Color::Green),
        ]
    );
    assert_eq!(out.inner, Rect { x: 5, y: 2, width: 4, height: 1 });
}

#[test]
fn pill_in_one_cell_has_a_left_end_only() {
    let out = pill(Color::Red, Rect { x: 4, y: 2, width: 1, height: 1 });
    assert_eq!(out.paints, vec![symbol(4, 2, "◖"), fg(4, 2, Color::Red)]);
    assert_eq!(out.inner, Rect { x: 0, y: 0, width: 0, height: 0 });
}

#[test]
fn pill_in_the_default_colour_draws_nothing() {
    let out = pill(Color::Reset, Rect { x: 4, y: 2, width: 6, height: 0 });
    assert!(out.paints.is_empty());
    assert_eq!(out.inner, Rect { x: 5, y: 2, width: 4, height: 0 });
    assert!(pill(Color::Blue, Rect { x: 4, y: 2, width: 0, height: 1 }).paints.is_empty());
}

#[test]
fn pill_inner_agrees_with_the_real_inset() {
    let area = ratatui::layout::Rect { x: 4, y: 2, width: 6, height: 1 };
    let inner = area.inner(ratatui::layout::Margin { horizontal: 1, vertical: 0 });
    let out = pill(Color::Green, Rect { x: 4, y: 2, width: 6, height: 1 });
    assert_eq!(
        (out.inner.x, out.inner.y, out.inner.width, out.inner.height),
        (inner.x, inner.y, inner.width, inner.height)
    );
}

#[test]
fn round_button_draws_ends_and_body() {
    let out = round_button(Color::Blue, Rect { x: 10, y: 5, width: 11, height: 2 });
    let mut expected = vec![
        Paint::Char { at: at(12, 5), ch: ' ' },
        symbol(10, 5, "🭤🭓"),
        fg(10, 5, Color::Blue),
        symbol(19, 5, "🭍🬾"),
        fg(19, 5, Color::Blue),
    ];
    for x in 12..19 {
        expected.push(bg(x, 5, Color::Blue));
    }
    assert_eq!(out.paints, expected);
    assert_eq!(out.inner, Rect { x: 13, y: 5, width: 5, height: 1 });
}

#[test]
fn round_button_of_exactly_four_cells_has_no_body() {
    let out = round_button(Color::LightRed, Rect { x: 0, y: 0, width: 4, height: 1 });
    assert_eq!(
        out.paints,
        vec![
            Paint::Char { at: at(2, 0), ch: ' ' },
            symbol(0, 0, "🭤🭓"),
            fg(0, 0, Color::LightRed),
            symbol(2, 0, "🭍🬾"),
            fg(2, 0, Color::LightRed),
        ]
    );
    assert_eq!(out.inner, Rect { x: 0, y: 0, width: 0, height: 0 });
}

#[test]
fn round_button_too_small_draws_nothing() {
    for width in 0..4 {
        let out = round_button(Color::Blue, Rect { x: 3, y: 3, width, height: 1 });
        assert!(out.paints.is_empty());
        assert_eq!(out.inner, Rect { x: 0, y: 0, width: 0, height: 0 });
    }
    let flat = round_button(Color::Blue, Rect { x: 3, y: 3, width: 10, height: 0 });
    assert!(flat.paints.is_empty());
    assert_eq!(flat.inner, Rect { x: 5, y: 3, width: 6, height: 0 });
}

#[test]
fn round_button_in_the_default_colour_only_leaves_room() {
    let out = round_button(Color::Reset, Rect { x: 10, y: 5, width: 11, height: 1 });
    assert!(out.paints.is_empty());
    assert_eq!(out.inner, Rect { x: 13, y: 5, width: 5, height: 1 });
}

use buj::paint::loading_bar;

#[test]
fn loading_bar_grows_from_the_middle() {
    let area = Rect { x: 2, y: 0, width: 10, height: 1 };
    // Eight of ten cells shown: two cells off either side.
    let paints = loading_bar(area, Color::Magenta, 8, None);
    let mut expected = vec![
        symbol(4, 0, "◖"),
        fg(4, 0, Color::Magenta),
        symbol(9, 0, "◗"),
        fg(9, 0, Color::Magenta),
        Paint::Reset { at: at(2, 0) },
        Paint::Reset { at: at(3, 0) },
    ];
    for x in 5..9 {
        expected.push(Paint::Reset { at: at(x, 0) });
        expected.push(bg(x, 0, Color::Magenta));
    }
    expected.push(Paint::Reset { at: at(10, 0) });
    expected.push(Paint::Reset { at: at(11, 0) });
    assert_eq!(paints, expected);
}

#[test]
fn loading_bar_shows_nothing_until_half_way() {
    let area = Rect { x: 2, y: 0, width: 10, height: 1 };
    for shown in 0..5 {
        let paints = loading_bar(area, Color::Magenta, shown, None);
        assert_eq!(paints, (2..12).map(|x| Paint::Reset { at: at(x, 0) }).collect::<Vec<_>>());
    }
    // Two cells: both ends and no body.
    let paints = loading_bar(area, Color::Magenta, 6, None);
    assert_eq!(paints.len(), 4 + 8);
    assert_eq!(paints[0], symbol(6, 0, "◖"));
    assert_eq!(paints[2], symbol(7, 0, "◗"));
}

#[test]
fn loading_bar_turns_transparent_from_the_middle() {
    let area = Rect { x: 0, y: 3, width: 10, height: 1 };
    let paints = loading_bar(area, Color::Blue, 10, Some(7));
    // Columns 3..7 are left alone.
    let mut expected = vec![
        symbol(0, 3, "◖"),
        fg(0, 3, Color::Blue),
        symbol(9, 3, "◗"),
        fg(9, 3, Color::Blue),
    ];
    for x in [1, 2, 7, 8] {
        expected.push(Paint::Reset { at: at(x, 3) });
        expected.push(bg(x, 3, Color::Blue));
    }
    assert_eq!(paints, expected);
}

#[test]
fn loading_bar_fully_transparent_keeps_only_the_pill_ends() {
    let area = Rect { x: 0, y: 0, width: 4, height: 1 };
    let paints = loading_bar(area, Color::Blue, 4, Some(4));
    assert_eq!(
        paints,
        vec![
            symbol(0, 0, "◖"),
            fg(0, 0, Color::Blue),
            symbol(3, 0, "◗"),
            fg(3, 0, Color::Blue),
        ]
    );
}
