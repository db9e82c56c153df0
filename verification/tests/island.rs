use buj::geometry::{Position, Rect};
use buj::island::{
    frame, is_inverted, slide_range, sliding, AnimatedIsland, Borders, Corner, Joint, Side,
    LAYOUT_SIDEBAR_WIDTH,
};

fn r(x: u16, y: u16, width: u16, height: u16) -> Rect {
    Rect { x, y, width, height }
}

const ALL: Borders = Borders { top: true, bottom: true, left: true, right: true };

#[test]
fn panels_left_of_column_30_are_inverted() {
    assert!(is_inverted(r(0, 0, 10, 10)));
    assert!(is_inverted(r(29, 0, 10, 10)));
    assert!(!is_inverted(r(30, 0, 10, 10)));
    assert_eq!(LAYOUT_SIDEBAR_WIDTH, 30);
}

#[test]
fn slide_ranges() {
    assert_eq!(slide_range(Side::Top, r(40, 5, 20, 10)), (0, 15));
    assert_eq!(slide_range(Side::Left, r(40, 5, 20, 10)), (30, 60));
    assert_eq!(slide_range(Side::Left, r(2, 5, 26, 10)), (0, 28));
}

#[test]
fn panel_hangs_down_from_the_top() {
    let area = r(40, 5, 20, 10);
    assert_eq!(sliding(Side::Top, area, 0), None);
    assert_eq!(sliding(Side::Top, area, 4), Some(r(40, 1, 20, 4)));
    assert_eq!(sliding(Side::Top, area, 10), Some(r(40, 1, 20, 10)));
    assert_eq!(sliding(Side::Top, area, 15), Some(r(40, 6, 20, 10)));
}

#[test]
fn panel_comes_out_from_under_the_sidebar() {
    let area = r(40, 5, 20, 10);
    assert_eq!(sliding(Side::Left, area, 30), None);
    assert_eq!(sliding(Side::Left, area, 35), Some(r(31, 5, 5, 10)));
    assert_eq!(sliding(Side::Left, area, 50), Some(r(31, 5, 20, 10)));
    assert_eq!(sliding(Side::Left, area, 60), Some(r(41, 5, 20, 10)));
    assert_eq!(sliding(Side::Left, area, 10), Some(r(31, 5, 0, 10)));
}

#[test]
fn panel_in_the_sidebar_grows_leftwards() {
    let area = r(2, 5, 26, 10);
    assert_eq!(sliding(Side::Left, area, 0), None);
    assert_eq!(sliding(Side::Left, area, 8), Some(r(22, 5, 8, 10)));
    assert_eq!(sliding(Side::Left, area, 28), Some(r(2, 5, 26, 10)));
    assert_eq!(sliding(Side::Left, area, 30), Some(r(0, 5, 26, 10)));
}

#[test]
fn free_standing_panel_has_a_full_border() {
    let out = frame(r(40, 5, 20, 10), r(0, 0, 100, 40), false);
    assert_eq!(out.area, r(40, 5, 20, 10));
    assert_eq!(out.border_area, r(39, 4, 22, 12));
    assert_eq!(out.borders, ALL);
    assert!(out.joints.is_empty());
}

#[test]
fn panel_is_cut_to_the_screen_inside_its_border() {
    let out = frame(r(90, 30, 20, 20), r(0, 0, 100, 40), false);
    assert_eq!(out.area, r(90, 30, 9, 9));
    assert_eq!(out.border_area, r(89, 29, 11, 11));
    // It reaches the screen's last rows: no bottom side.
    assert_eq!(out.borders, Borders { bottom: false, ..ALL });
    assert_eq!(
        out.joints,
        vec![
            Joint { at: Position { x: 89, y: 39 }, corner: Corner::BottomRight },
            Joint { at: Position { x: 99, y: 39 }, corner: Corner::BottomLeft },
        ]
    );
}

#[test]
fn panel_at_the_top_line_joins_it() {
    let out = frame(r(40, 1, 20, 10), r(0, 0, 100, 40), false);
    assert_eq!(out.borders, Borders { top: false, ..ALL });
    assert_eq!(
        out.joints,
        vec![
            Joint { at: Position { x: 39, y: 0 }, corner: Corner::TopRight },
            Joint { at: Position { x: 60, y: 0 }, corner: Corner::TopLeft },
        ]
    );
}

#[test]
fn panel_next_to_the_sidebar_joins_it() {
    let out = frame(r(31, 5, 20, 10), r(0, 0, 100, 40), false);
    assert_eq!(out.borders, Borders { left: false, ..ALL });
    assert_eq!(
        out.joints,
        vec![
            Joint { at: Position { x: 30, y: 4 }, corner: Corner::BottomLeft },
            Joint { at: Position { x: 30, y: 15 }, corner: Corner::TopLeft },
        ]
    );
}

#[test]
fn panel_in_the_sidebar_joins_its_right_edge() {
    let out = frame(r(2, 5, 28, 10), r(0, 0, 100, 40), true);
    assert_eq!(out.borders, Borders { right: false, ..ALL });
    assert_eq!(
        out.joints,
        vec![
            Joint { at: Position { x: 30, y: 4 }, corner: Corner::BottomRight },
            Joint { at: Position { x: 30, y: 15 }, corner: Corner::TopRight },
        ]
    );
    // The sidebar never loses its top or bottom side.
    let tall = frame(r(2, 1, 20, 38), r(0, 0, 100, 40), true);
    assert_eq!(tall.borders, ALL);
}

#[test]
fn three_sides_can_go_at_once() {
    let out = frame(r(31, 1, 68, 38), r(0, 0, 100, 40), false);
    assert_eq!(out.borders, Borders { top: false, bottom: false, left: false, right: true });
    assert_eq!(out.joints.len(), 6);
    assert_eq!(out.joints[0].corner, Corner::TopRight);
    assert_eq!(out.joints[2].corner, Corner::BottomRight);
    assert_eq!(out.joints[4], Joint { at: Position { x: 30, y: 0 }, corner: Corner::BottomLeft });
    assert_eq!(out.joints[5], Joint { at: Position { x: 30, y: 39 }, corner: Corner::TopLeft });
}

#[test]
fn island_slides_from_its_side_and_rests_in_its_area() {
    let island = AnimatedIsland::new();
    assert_eq!(island.side, Side::Top);
    let screen = r(0, 0, 100, 40);
    let rest = r(40, 5, 20, 10);
    assert!(island.draw(Some(0), rest, screen).is_none());
    assert_eq!(island.draw(Some(4), rest, screen).unwrap().area, r(40, 1, 20, 4));
    assert_eq!(island.draw(None, rest, screen).unwrap().area, rest);

    let left = island.direction(Side::Left);
    assert_eq!(left.draw(Some(35), rest, screen).unwrap().area, r(31, 5, 5, 10));
    // A panel at rest may have any side.
    let right = island.direction(Side::Right);
    assert_eq!(right.draw(None, rest, screen).unwrap().area, rest);
}
