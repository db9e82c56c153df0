//! Panels that slide in from an edge: where they stand while sliding, and
//! which sides of their border are drawn once they touch a neighbour.

use crate::geometry::{Margin, Position, Rect, Size};
use vstd::prelude::*;

verus! {

/// The edge that a panel slides in from.
#[derive(Clone, Copy, Debug, PartialEq, Eq, Structural)]
pub enum Side {
    Top,
    Bottom,
    Left,
    Right,
}

/// Columns that the sidebar takes up.
pub const LAYOUT_SIDEBAR_WIDTH: u16 = 30;

/// A panel that begins left of the sidebar's right edge lives in the
/// sidebar and slides the other way.
pub open spec fn is_inverted_spec(area: Rect) -> bool {
    area.x < LAYOUT_SIDEBAR_WIDTH
}

/// See [`is_inverted_spec`].
pub fn is_inverted(area: Rect) -> (out: bool)
    ensures
        out == is_inverted_spec(area),
{
    area.left() < LAYOUT_SIDEBAR_WIDTH
}

/// The stretch over which a sliding panel's moving edge travels: from the
/// first to the second coordinate as the animation runs. Panels slide from
/// the top and from the left only.
pub open spec fn slide_range_spec(side: Side, area: Rect) -> (u16, u16) {
    match side {
        Side::Top => (0u16, area.bottom_spec() as u16),
        _ => if is_inverted_spec(area) {
            (0u16, (LAYOUT_SIDEBAR_WIDTH - area.x) as u16)
        } else {
            (LAYOUT_SIDEBAR_WIDTH, area.right_spec() as u16)
        },
    }
}

/// See [`slide_range_spec`].
pub fn slide_range(side: Side, area: Rect) -> (out: (u16, u16))
    requires
        side == Side::Top || side == Side::Left,
    ensures
        out == slide_range_spec(side, area),
{
    match side {
        Side::Top => (0, area.bottom()),
        _ => {
            if is_inverted(area) {
                (0, LAYOUT_SIDEBAR_WIDTH - area.left())
            } else {
                (LAYOUT_SIDEBAR_WIDTH, area.right())
            }
        },
    }
}

/// The smaller of two numbers.
pub open spec fn least(a: int, b: int) -> int {
    if a < b {
        a
    } else {
        b
    }
}

/// Where a panel that rests in `area` stands while its moving edge is at
/// `edge`, or `None` while it is still out of sight.
///
/// From the top, `edge` is the panel's bottom row: the panel hangs down from
/// above the screen. From the left, outside the sidebar, `edge` is the
/// panel's right column and the panel comes out from under the sidebar.
/// Inside the sidebar, `edge` is the panel's width, and it grows leftwards
/// from the sidebar's right edge.
pub open spec fn sliding_spec(side: Side, area: Rect, edge: u16) -> Option<Rect> {
    match side {
        Side::Top => if edge == 0 {
            None
        } else {
            Some(
                Rect {
                    y: least(crate::geometry::sat_sub(edge as int, area.height as int) + 1, u16::MAX as int) as u16,
                    height: least(area.height as int, edge as int) as u16,
                    ..area
                },
            )
        },
        _ => if is_inverted_spec(area) {
            if edge == 0 {
                None
            } else {
                Some(
                    Rect {
                        x: (LAYOUT_SIDEBAR_WIDTH - edge) as u16,
                        width: least(area.width as int, edge as int) as u16,
                        ..area
                    },
                )
            }
        } else {
            if edge == LAYOUT_SIDEBAR_WIDTH {
                None
            } else {
                let from = crate::geometry::sat_sub(edge as int, area.width as int);
                let held: int = if from > LAYOUT_SIDEBAR_WIDTH {
                    from
                } else {
                    LAYOUT_SIDEBAR_WIDTH as int
                };
                Some(
                    Rect {
                        x: least(held + 1, u16::MAX as int) as u16,
                        width: least(
                            area.width as int,
                            crate::geometry::sat_sub(edge as int, LAYOUT_SIDEBAR_WIDTH as int),
                        ) as u16,
                        ..area
                    },
                )
            }
        },
    }
}

/// See [`sliding_spec`]. Inside the sidebar the edge cannot lie beyond the
/// sidebar's width.
pub fn sliding(side: Side, area: Rect, edge: u16) -> (out: Option<Rect>)
    requires
        side == Side::Top || side == Side::Left,
        side == Side::Left && is_inverted_spec(area) ==> edge <= LAYOUT_SIDEBAR_WIDTH,
    ensures
        out == sliding_spec(side, area, edge),
{
    let mut area = area;
    match side {
        Side::Top => {
            let bottom = edge;
            let y = bottom.saturating_sub(area.height);

            area.y = y.saturating_add(1);
            area.height = if area.height < bottom {
                area.height
            } else {
                bottom
            };

            // Nothing of the panel is in sight yet.
            if bottom == 0 {
                return None;
            }
        },
        _ => {
            if is_inverted(area) {
                let width = edge;
                let right = LAYOUT_SIDEBAR_WIDTH - width;

                area.x = right;
                area.width = if area.width < width {
                    area.width
                } else {
                    width
                };

                // Nothing of the panel is in sight yet.
                if right == LAYOUT_SIDEBAR_WIDTH {
                    return None;
                }
            } else {
                let right = edge;
                let from = right.saturating_sub(area.width);
                let x = if from > LAYOUT_SIDEBAR_WIDTH {
                    from
                } else {
                    LAYOUT_SIDEBAR_WIDTH
                };
                let room = right.saturating_sub(LAYOUT_SIDEBAR_WIDTH);

                area.x = x.saturating_add(1);
                area.width = if area.width < room {
                    area.width
                } else {
                    room
                };

                // Nothing of the panel is in sight yet.
                if right == LAYOUT_SIDEBAR_WIDTH {
                    return None;
                }
            }
        },
    }
    Some(area)
}

/// The sides of a border.
#[derive(Clone, Copy, Debug, PartialEq, Eq, Structural)]
pub struct Borders {
    pub top: bool,
    pub bottom: bool,
    pub left: bool,
    pub right: bool,
}

/// A rounded corner of the frame's line set, named after the corner of a
/// box that it forms.
#[derive(Clone, Copy, Debug, PartialEq, Eq, Structural)]
pub enum Corner {
    TopLeft,
    TopRight,
    BottomLeft,
    BottomRight,
}

/// A corner drawn where a panel's border runs into a neighbouring line.
#[derive(Clone, Copy, Debug, PartialEq, Eq, Structural)]
pub struct Joint {
    pub at: Position,
    pub corner: Corner,
}

/// Where a panel and its border go.
#[derive(Debug)]
pub struct Frame {
    /// The panel's content.
    pub area: Rect,
    /// The content with its border.
    pub border_area: Rect,
    /// The sides of the border that are drawn.
    pub borders: Borders,
    /// The corners that join the border to the lines around it, two for
    /// each side that is left out, in the order top, bottom, left, right.
    pub joints: Vec<Joint>,
}

/// The content's place: the panel cut to the screen less the screen's own
/// border of one cell.
pub open spec fn content_spec(area: Rect, screen: Rect) -> Rect {
    area.intersection_spec(screen.inner_spec(Margin { horizontal: 1, vertical: 1 }))
}

/// The sides that are drawn around content at `area`. Right of the sidebar a
/// panel that touches the screen's top or bottom line leaves that side out.
/// A panel that touches the sidebar leaves the side towards it out: its
/// left side outside the sidebar, its right side inside.
pub open spec fn borders_spec(area: Rect, screen: Rect, inverted: bool) -> Borders {
    let clear_of_sidebar = area.x > LAYOUT_SIDEBAR_WIDTH;
    Borders {
        top: !(clear_of_sidebar && area.y <= 1),
        bottom: !(clear_of_sidebar && area.bottom_spec() >= crate::geometry::sat_sub(
            screen.bottom_spec(),
            2,
        )),
        left: !(!inverted && area.x <= LAYOUT_SIDEBAR_WIDTH + 1),
        right: !(inverted && area.right_spec() == LAYOUT_SIDEBAR_WIDTH),
    }
}

/// The two corners that stand in for a side that is left out.
pub open spec fn side_joints(left_out: bool, first: Joint, second: Joint) -> Seq<Joint> {
    if left_out {
        seq![first, second]
    } else {
        Seq::empty()
    }
}

/// The corners for the sides that `borders` leaves out of the border around
/// `border_area`, on a screen whose last row is just above `screen_bottom`.
pub open spec fn joints_spec(border_area: Rect, borders: Borders, screen_bottom: int) -> Seq<Joint> {
    let left = border_area.x;
    let last = crate::geometry::sat_sub(border_area.right_spec(), 1) as u16;
    let floor = crate::geometry::sat_sub(screen_bottom, 1) as u16;
    let top = border_area.y;
    let low = crate::geometry::sat_sub(border_area.bottom_spec(), 1) as u16;
    let edge = LAYOUT_SIDEBAR_WIDTH;
    side_joints(
        !borders.top,
        Joint { at: Position { x: left, y: 0 }, corner: Corner::TopRight },
        Joint { at: Position { x: last, y: 0 }, corner: Corner::TopLeft },
    ) + side_joints(
        !borders.bottom,
        Joint { at: Position { x: left, y: floor }, corner: Corner::BottomRight },
        Joint { at: Position { x: last, y: floor }, corner: Corner::BottomLeft },
    ) + side_joints(
        !borders.left,
        Joint { at: Position { x: edge, y: top }, corner: Corner::BottomLeft },
        Joint { at: Position { x: edge, y: low }, corner: Corner::TopLeft },
    ) + side_joints(
        !borders.right,
        Joint { at: Position { x: edge, y: top }, corner: Corner::BottomRight },
        Joint { at: Position { x: edge, y: low }, corner: Corner::TopRight },
    )
}

/// Appends the two corners of a side that is left out.
fn put_joints(joints: &mut Vec<Joint>, left_out: bool, first: Joint, second: Joint)
    ensures
        final(joints)@ == old(joints)@ + side_joints(left_out, first, second),
{
    if left_out {
        joints.push(first);
        joints.push(second);
    }
    assert(joints@ =~= old(joints)@ + side_joints(left_out, first, second));
}

/// Lays out a panel that stands at `area` on a screen of `screen`:
/// where its content and border go, which sides of the border are drawn,
/// and the corners that take the place of the others. `inverted` says
/// whether the panel lives in the sidebar.
pub fn frame(area: Rect, screen: Rect, inverted: bool) -> (out: Frame)
    ensures
        frames(out, area, screen, inverted),
{
    let area = area.intersection(screen.inner(Margin::both(1)));
    let border_area = area.outline(Size { width: 1, height: 1 });
    let frame_bottom = screen.bottom();

    let mut borders = Borders { top: true, bottom: true, left: true, right: true };
    if area.x > 30 {
        if area.y <= 1 {
            borders.top = false;
        }
        if area.bottom() >= frame_bottom.saturating_sub(2) {
            borders.bottom = false;
        }
    }
    if !inverted && area.x <= LAYOUT_SIDEBAR_WIDTH + 1 {
        borders.left = false;
    }
    if inverted && area.right() == LAYOUT_SIDEBAR_WIDTH {
        borders.right = false;
    }
    let left = border_area.left();
    let last = border_area.right().saturating_sub(1);
    let floor = frame_bottom.saturating_sub(1);
    let top = border_area.top();
    let low = border_area.bottom().saturating_sub(1);
    let edge = LAYOUT_SIDEBAR_WIDTH;

    let mut joints: Vec<Joint> = Vec::new();
    put_joints(
        &mut joints,
        !borders.top,
        Joint { at: Position { x: left, y: 0 }, corner: Corner::TopRight },
        Joint { at: Position { x: last, y: 0 }, corner: Corner::TopLeft },
    );
    put_joints(
        &mut joints,
        !borders.bottom,
        Joint { at: Position { x: left, y: floor }, corner: Corner::BottomRight },
        Joint { at: Position { x: last, y: floor }, corner: Corner::BottomLeft },
    );
    put_joints(
        &mut joints,
        !borders.left,
        Joint { at: Position { x: edge, y: top }, corner: Corner::BottomLeft },
        Joint { at: Position { x: edge, y: low }, corner: Corner::TopLeft },
    );
    put_joints(
        &mut joints,
        !borders.right,
        Joint { at: Position { x: edge, y: top }, corner: Corner::BottomRight },
        Joint { at: Position { x: edge, y: low }, corner: Corner::TopRight },
    );
    Frame { area, border_area, borders, joints }
}

/// A panel that slides in from one side.
#[derive(Clone, Copy, Debug, PartialEq, Eq, Structural)]
pub struct AnimatedIsland {
    pub side: Side,
}

/// Where a panel stands that rests in `area`: at rest when `edge` is
/// `None`, and at `edge` on its way in otherwise.
pub open spec fn standing_spec(side: Side, edge: Option<u16>, area: Rect) -> Option<Rect> {
    match edge {
        Some(edge) => sliding_spec(side, area, edge),
        None => Some(area),
    }
}

/// The panel can be placed: it slides from the top or the left, and inside
/// the sidebar its moving edge lies within the sidebar's width.
pub open spec fn can_stand(side: Side, edge: Option<u16>, area: Rect) -> bool {
    edge matches Some(e) ==> {
        &&& side == Side::Top || side == Side::Left
        &&& side == Side::Left && is_inverted_spec(area) ==> e <= LAYOUT_SIDEBAR_WIDTH
    }
}

/// `frame` is the layout of a panel that stands at `standing`.
pub open spec fn frames(frame: Frame, standing: Rect, screen: Rect, inverted: bool) -> bool {
    &&& frame.area == content_spec(standing, screen)
    &&& frame.border_area == frame.area.outline_spec(Size { width: 1, height: 1 })
    &&& frame.borders == borders_spec(frame.area, screen, inverted)
    &&& frame.joints@ == joints_spec(frame.border_area, frame.borders, screen.bottom_spec())
}

/// `out` is the layout of the panel that rests in `area`, or `None` where
/// the panel is out of sight.
pub open spec fn drawn(out: Option<Frame>, side: Side, edge: Option<u16>, area: Rect, screen: Rect) -> bool {
    match (out, standing_spec(side, edge, area)) {
        (Some(frame), Some(standing)) => frames(frame, standing, screen, is_inverted_spec(area)),
        (None, None) => true,
        _ => false,
    }
}

impl AnimatedIsland {
    /// A panel that slides in from the top.
    pub fn new() -> (out: AnimatedIsland)
        ensures
            out.side == Side::Top,
    {
        AnimatedIsland { side: Side::Top }
    }

    /// The same panel, sliding in from `dir`.
    pub fn direction(self, dir: Side) -> (out: AnimatedIsland)
        ensures
            out.side == dir,
    {
        AnimatedIsland { side: dir }
    }

    /// Lays the panel out on a screen of `screen`. The panel rests in
    /// `area`; while it slides in, `edge` is where its moving edge stands,
    /// a point of [`slide_range`]. Returns `None` while the panel is still
    /// out of sight.
    pub fn draw(self, edge: Option<u16>, area: Rect, screen: Rect) -> (out: Option<Frame>)
        requires
            can_stand(self.side, edge, area),
        ensures
            drawn(out, self.side, edge, area, screen),
    {
        let inverted = is_inverted(area);
        let standing = match edge {
            Some(edge) => match sliding(self.side, area, edge) {
                Some(standing) => standing,
                None => {
                    return None;
                },
            },
            None => area,
        };
        Some(frame(standing, screen, inverted))
    }
}

} // verus!
