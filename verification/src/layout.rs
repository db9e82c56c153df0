//! Where the fixed parts of the interface go, and the colours that show a
//! job's status.

use crate::popup::PopupKind;
use crate::geometry::{Offset, Rect, Size};
use crate::paint::Color;
use vstd::prelude::*;

verus! {

/// Width of a popup.
pub const POPUP_WIDTH: u16 = 35;

/// Height of a popup.
pub const POPUP_HEIGHT: u16 = 8;

/// Cells added to a button's label: the two ends and the padding.
pub const BUTTON_PADDING: u16 = 6;

/// The strip in which a popup is centred. The new-job popup is centred in
/// the area less ten cells at its left and top; the other two in the area
/// less twenty rows, ten cells to the right.
pub open spec fn popup_strip(kind: PopupKind, area: Rect) -> Rect {
    match kind {
        PopupKind::NewJob => Rect {
            width: POPUP_WIDTH,
            ..area.reduce_offset_spec(Size { width: 10, height: 10 })
        },
        _ => (Rect {
            width: POPUP_WIDTH,
            ..area.reduce_spec(Size { width: 0, height: 20 })
        }).offset_spec(Offset { x: 10, y: 0 }),
    }
}

/// The place of the popup `kind` on a main area of `area`.
pub open spec fn popup_area_spec(kind: PopupKind, area: Rect) -> Rect {
    popup_strip(kind, area).centered_spec(Size { width: POPUP_WIDTH, height: POPUP_HEIGHT })
}

/// The main area is high enough to centre the popup `kind` in its strip.
pub open spec fn popup_fits(kind: PopupKind, area: Rect) -> bool {
    popup_strip(kind, area).height / 2 >= POPUP_HEIGHT / 2
}

/// See [`popup_fits`].
pub fn popup_can_open(kind: PopupKind, area: Rect) -> (out: bool)
    ensures
        out == popup_fits(kind, area),
{
    let cut: u16 = match kind {
        PopupKind::NewJob => 10,
        _ => 20,
    };
    area.height.saturating_sub(cut) / 2 >= POPUP_HEIGHT / 2
}

/// See [`popup_area_spec`].
pub fn popup_area(kind: PopupKind, area: Rect) -> (out: Rect)
    requires
        popup_fits(kind, area),
    ensures
        out == popup_area_spec(kind, area),
{
    let strip = match kind {
        PopupKind::NewJob => area.reduce_offset(Size { width: 10, height: 10 }).set_width(
            POPUP_WIDTH,
        ),
        _ => area.reduce(Size { width: 0, height: 20 }).set_width(POPUP_WIDTH).offset(
            Offset::x(10),
        ),
    };
    strip.centered(Size { width: POPUP_WIDTH, height: POPUP_HEIGHT })
}

/// The width of a button with a label of `label` cells. Only the low 16
/// bits of the label's length count.
pub fn button_width(label: usize) -> (out: u16)
    requires
        label % 65536 + BUTTON_PADDING <= u16::MAX,
    ensures
        out == label % 65536 + BUTTON_PADDING,
{
    (label % 65536) as u16 + BUTTON_PADDING
}

/// The place of the key hints at the foot of the sidebar: one cell in from
/// the left, two cells narrower still.
pub fn sidebar_help_area(area: Rect) -> (out: Rect)
    ensures
        out == area.inner_x_spec(1).reduce_spec(Size { width: 2, height: 0 }),
{
    area.inner_x(1).reduce(Size { width: 2, height: 0 })
}

/// The place of the list of jobs in the sidebar, two rows for each of
/// `jobs` jobs, lifted by `lift` rows at the end of the sidebar's animation.
pub open spec fn sidebar_jobs_area_spec(area: Rect, jobs: usize, lift: i32) -> Rect {
    (Rect {
        height: ((jobs % 65536) * 2) as u16,
        ..area.inner_y_spec(2).inner_x_spec(1).reduce_spec(Size { width: 2, height: 0 })
    }).offset_spec(Offset { x: 0, y: (1 - lift) as i32 })
}

/// See [`sidebar_jobs_area_spec`]. The list has room for 32767 jobs.
pub fn sidebar_jobs_area(area: Rect, jobs: usize, lift: i32) -> (out: Rect)
    requires
        (jobs % 65536) * 2 <= u16::MAX,
        lift > i32::MIN + 1,
    ensures
        out == sidebar_jobs_area_spec(area, jobs, lift),
{
    let items: u16 = (jobs % 65536) as u16;
    area.inner_y(2).inner_x(1).reduce(Size { width: 2, height: 0 }).set_height(items * 2).offset(
        Offset::y(1 - lift),
    )
}

/// The row of the job at `index` in the list: its title's row.
pub fn job_row(area: Rect, index: usize) -> (out: Rect)
    requires
        index * 2 <= i32::MAX,
    ensures
        out == (Rect { height: 1, ..area.inner_y_spec((index * 2) as i32) }),
{
    area.inner_y((index * 2) as i32).set_height(1)
}

/// The row below a job's title, where its status shows at the right.
pub fn job_status_row(row: Rect) -> (out: Rect)
    ensures
        out == (Rect {
            height: 1,
            ..row.inner_y_spec(1).reduce_spec(Size { width: 1, height: 0 })
        }),
{
    row.inner_y(1).reduce(Size { width: 1, height: 0 }).set_height(1)
}

/// The colour of a job's status dot: grey while there is no exit code,
/// green for zero, red for anything else.
pub open spec fn status_color_spec(status: Option<u32>) -> Color {
    match status {
        None => Color::Gray,
        Some(code) => if code == 0 {
            Color::Green
        } else {
            Color::Red
        },
    }
}

/// See [`status_color_spec`].
pub fn status_color(status: Option<u32>) -> (out: Color)
    ensures
        out == status_color_spec(status),
{
    match status {
        None => Color::Gray,
        Some(code) => {
            if code == 0 {
                Color::Green
            } else {
                Color::Red
            }
        },
    }
}

/// The colour of an exit code in the footer: green for zero, red otherwise.
pub fn exit_color(code: u32) -> (out: Color)
    ensures
        out == status_color_spec(Some(code)),
{
    status_color(Some(code))
}

/// The place of the exit code's badge in the footer: behind a label of
/// `label` cells, as wide as the `digits` of the code and its two ends.
/// Only the low 16 bits of the two lengths count.
pub fn exit_badge_area(area: Rect, label: usize, digits: usize) -> (out: Rect)
    requires
        label <= i32::MAX,
        digits % 65536 + 2 <= u16::MAX,
    ensures
        out == (Rect {
            width: (digits % 65536 + 2) as u16,
            ..area.offset_spec(Offset { x: label as i32, y: 0 })
        }),
{
    area.offset(Offset::x(label as i32)).set_width((digits % 65536) as u16 + 2)
}

} // verus!
