use buj::island::AnimatedIsland;
use buj::popup::{EditPopup, NewJobPopup, PopupBuilder, PopupKind, RenamePopup};
use buj::geometry::Rect;
use buj::island::Side;
use buj::job::PtySize;
use buj::layout::{
    button_width, exit_badge_area, exit_color, job_row, job_status_row, popup_area,
    popup_can_open, sidebar_help_area, sidebar_jobs_area, status_color,
};
use buj::paint::Color;

fn r(x: u16, y: u16, width: u16, height: u16) -> Rect {
    Rect { x, y, width, height }
}

#[test]
fn new_job_popup_is_centred_below_the_top() {
    let main = r(30, 0, 90, 40);
    assert!(popup_can_open(PopupKind::NewJob, main));
    // Strip: x 40, y 10, 35 by 30; centred 8 rows high.
    assert_eq!(popup_area(PopupKind::NewJob, main), r(40, 21, 35, 8));
}

#[test]
fn edit_and_rename_popups_share_their_place() {
    let main = r(30, 0, 90, 40);
    // Strip: x 40, y 0, 35 by 20.
    assert_eq!(popup_area(PopupKind::Edit, main), r(40, 6, 35, 8));
    assert_eq!(popup_area(PopupKind::Rename, main), r(40, 6, 35, 8));
}

#[test]
fn popups_need_room() {
    assert!(!popup_can_open(PopupKind::Edit, r(30, 0, 90, 27)));
    assert!(popup_can_open(PopupKind::Edit, r(30, 0, 90, 28)));
    assert!(!popup_can_open(PopupKind::NewJob, r(30, 0, 90, 17)));
    assert!(popup_can_open(PopupKind::NewJob, r(30, 0, 90, 18)));
    assert_eq!(popup_area(PopupKind::NewJob, r(30, 0, 90, 18)), r(40, 10, 35, 8));
}

#[test]
fn popups_slide_in_from_the_left() {
    let main = r(30, 0, 90, 40);
    for kind in [PopupKind::Edit, PopupKind::NewJob, PopupKind::Rename] {
        let built = kind.build(PopupBuilder::new(), main);
        assert_eq!(built.island, AnimatedIsland { side: Side::Left });
        assert_eq!(built.area, popup_area(kind, main));
        assert_eq!(kind.duration(), 7);
        assert!(!kind.auto_close());
    }
    assert_eq!(EditPopup::build(PopupBuilder::new(), main).area, r(40, 6, 35, 8));
    assert_eq!(RenamePopup::build(PopupBuilder::new(), main).area, r(40, 6, 35, 8));
    assert_eq!(NewJobPopup::build(PopupBuilder::new(), main).area, r(40, 21, 35, 8));
}

#[test]
fn popup_builder_starts_without_a_place() {
    let builder = PopupBuilder::new();
    assert_eq!(builder.area, r(0, 0, 0, 0));
    assert_eq!(builder.island.side, Side::Top);
    let placed = builder.reserve(r(40, 6, 35, 8)).direction(Side::Left);
    assert_eq!(placed.area, r(40, 6, 35, 8));
    assert_eq!(placed.island.side, Side::Left);
    // At rest the popup stands in its place.
    let laid = placed.draw(None, r(0, 0, 120, 40)).unwrap();
    assert_eq!(laid.area, r(40, 6, 35, 8));
    // While it comes out from under the sidebar, its right edge moves.
    let laid = placed.draw(Some(50), r(0, 0, 120, 40)).unwrap();
    assert_eq!(laid.area, r(31, 6, 20, 8));
    assert!(placed.draw(Some(30), r(0, 0, 120, 40)).is_none());
}

#[test]
fn buttons_are_six_cells_wider_than_their_label() {
    assert_eq!(button_width("ESC".len()), 9);
    assert_eq!(button_width("Enter".len()), 11);
    assert_eq!(button_width(0), 6);
}

#[test]
fn sidebar_areas() {
    let foot = r(0, 35, 30, 5);
    assert_eq!(sidebar_help_area(foot), r(1, 35, 27, 5));
    let list = r(0, 0, 30, 35);
    assert_eq!(sidebar_jobs_area(list, 3, 0), r(1, 3, 27, 6));
    assert_eq!(sidebar_jobs_area(list, 3, 1), r(1, 2, 27, 6));
    assert_eq!(sidebar_jobs_area(list, 0, 2), r(1, 1, 27, 0));
}

#[test]
fn job_rows_are_two_apart() {
    let list = r(1, 3, 27, 6);
    assert_eq!(job_row(list, 0), r(1, 3, 27, 1));
    assert_eq!(job_row(list, 1), r(1, 5, 27, 1));
    assert_eq!(job_row(list, 2), r(1, 7, 27, 1));
    assert_eq!(job_status_row(job_row(list, 1)), r(1, 6, 26, 1));
}

#[test]
fn status_colours() {
    assert_eq!(status_color(None), Color::Gray);
    assert_eq!(status_color(Some(0)), Color::Green);
    assert_eq!(status_color(Some(1)), Color::Red);
    assert_eq!(status_color(Some(u32::MAX)), Color::Red);
}

#[test]
fn emulator_grid_has_at_least_one_cell() {
    let size = PtySize { rows: 0, cols: 80, pixel_width: 0, pixel_height: 0 };
    assert_eq!(size.grid(), (1, 80));
    let size = PtySize { rows: 24, cols: 0, pixel_width: 0, pixel_height: 0 };
    assert_eq!(size.grid(), (24, 1));
}

#[test]
fn exit_code_badge() {
    assert_eq!(exit_color(0), Color::Green);
    assert_eq!(exit_color(1), Color::Red);
    assert_eq!(exit_color(137), Color::Red);
    // Behind "Exit code: ", wide enough for "137" and the two ends.
    assert_eq!(exit_badge_area(r(32, 38, 16, 1), 11, 3), r(43, 38, 5, 1));
    assert_eq!(exit_badge_area(r(65530, 0, 16, 1), 11, 1), r(65519, 0, 3, 1));
}
