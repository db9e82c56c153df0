//! Cell coordinates on the terminal grid and the arithmetic on areas that
//! the layout relies on.
//!
//! The types mirror those of `ratatui::layout` field by field, so that a
//! caller converts by moving fields. Insetting, intersecting and moving an
//! area are done by `ratatui` itself.

use vstd::prelude::*;

verus! {

/// Width and height of an area, in cells.
#[derive(Clone, Copy, Debug, PartialEq, Eq, Structural)]
pub struct Size {
    pub width: u16,
    pub height: u16,
}

/// A cell of the grid.
#[derive(Clone, Copy, Debug, PartialEq, Eq, Structural)]
pub struct Position {
    pub x: u16,
    pub y: u16,
}

/// Space left free on the sides of an area.
#[derive(Clone, Copy, Debug, PartialEq, Eq, Structural)]
pub struct Margin {
    pub horizontal: u16,
    pub vertical: u16,
}

/// Amounts by which to move an area: positive to the right and down.
#[derive(Clone, Copy, Debug, PartialEq, Eq, Structural)]
pub struct Offset {
    pub x: i32,
    pub y: i32,
}

/// A rectangle of cells: its top left corner and its extent.
#[derive(Clone, Copy, Debug, PartialEq, Eq, Structural)]
pub struct Rect {
    pub x: u16,
    pub y: u16,
    pub width: u16,
    pub height: u16,
}

/// `a + b`, held at the largest `u16`.
pub open spec fn sat_add(a: int, b: int) -> int {
    if a + b > u16::MAX {
        u16::MAX as int
    } else {
        a + b
    }
}

/// `a - b`, held at zero.
pub open spec fn sat_sub(a: int, b: int) -> int {
    if a - b < 0 {
        0
    } else {
        a - b
    }
}

/// `v` held within `low..=high`.
pub open spec fn clamp(v: int, low: int, high: int) -> int {
    if v < low {
        low
    } else if v > high {
        high
    } else {
        v
    }
}

impl Size {
    pub fn new(width: u16, height: u16) -> (out: Size)
        ensures
            out == (Size { width, height }),
    {
        Size { width, height }
    }
}

impl Offset {
    /// A move along the x axis only.
    pub fn x(value: i32) -> (out: Offset)
        ensures
            out == (Offset { x: value, y: 0 }),
    {
        Offset { x: value, y: 0 }
    }

    /// A move along the y axis only.
    pub fn y(value: i32) -> (out: Offset)
        ensures
            out == (Offset { x: 0, y: value }),
    {
        Offset { y: value, x: 0 }
    }

    /// The same move along both axes.
    pub fn both(value: i32) -> (out: Offset)
        ensures
            out == (Offset { x: value, y: value }),
    {
        Offset { y: value, x: value }
    }
}

impl Margin {
    pub fn new(horizontal: u16, vertical: u16) -> (out: Margin)
        ensures
            out == (Margin { horizontal, vertical }),
    {
        Margin { horizontal, vertical }
    }

    /// A margin on the left and right only.
    pub fn horizontal(value: u16) -> (out: Margin)
        ensures
            out == (Margin { horizontal: value, vertical: 0 }),
    {
        Margin { horizontal: value, vertical: 0 }
    }

    /// A margin above and below only.
    pub fn vertical(value: u16) -> (out: Margin)
        ensures
            out == (Margin { horizontal: 0, vertical: value }),
    {
        Margin { vertical: value, horizontal: 0 }
    }

    /// The same margin on all four sides.
    pub fn both(value: u16) -> (out: Margin)
        ensures
            out == (Margin { horizontal: value, vertical: value }),
    {
        Margin { horizontal: value, vertical: value }
    }
}

impl Rect {
    /// The area without extent at the origin.
    pub open spec fn zero() -> Rect {
        Rect { x: 0, y: 0, width: 0, height: 0 }
    }

    /// First column right of the area, held at the largest `u16`.
    pub open spec fn right_spec(self) -> int {
        sat_add(self.x as int, self.width as int)
    }

    /// First row below the area, held at the largest `u16`.
    pub open spec fn bottom_spec(self) -> int {
        sat_add(self.y as int, self.height as int)
    }

    /// Whether `position` lies inside the area.
    pub open spec fn contains_spec(self, position: Position) -> bool {
        &&& self.x <= position.x < self.right_spec()
        &&& self.y <= position.y < self.bottom_spec()
    }

    /// The area with `margin` taken off each side; nothing is left of an
    /// area that is smaller than twice the margin.
    pub open spec fn inner_spec(self, margin: Margin) -> Rect {
        let across = sat_add(margin.horizontal as int, margin.horizontal as int);
        let down = sat_add(margin.vertical as int, margin.vertical as int);
        if self.width < across || self.height < down {
            Rect::zero()
        } else {
            Rect {
                x: sat_add(self.x as int, margin.horizontal as int) as u16,
                y: sat_add(self.y as int, margin.vertical as int) as u16,
                width: (self.width - across) as u16,
                height: (self.height - down) as u16,
            }
        }
    }

    /// The cells that lie in both areas; without extent where they share none.
    pub open spec fn intersection_spec(self, other: Rect) -> Rect {
        let x1 = if self.x > other.x {
            self.x
        } else {
            other.x
        };
        let y1 = if self.y > other.y {
            self.y
        } else {
            other.y
        };
        let x2 = if self.right_spec() < other.right_spec() {
            self.right_spec()
        } else {
            other.right_spec()
        };
        let y2 = if self.bottom_spec() < other.bottom_spec() {
            self.bottom_spec()
        } else {
            other.bottom_spec()
        };
        Rect { x: x1, y: y1, width: sat_sub(x2, x1 as int) as u16, height: sat_sub(y2, y1 as int) as u16 }
    }

    /// The area moved by `offset`, held so that no edge leaves the grid.
    pub open spec fn offset_spec(self, offset: Offset) -> Rect {
        Rect {
            x: clamp(self.x + offset.x, 0, u16::MAX - self.width) as u16,
            y: clamp(self.y + offset.y, 0, u16::MAX - self.height) as u16,
            ..self
        }
    }

    pub fn new(x: u16, y: u16, width: u16, height: u16) -> (out: Rect)
        ensures
            out == (Rect { x, y, width, height }),
    {
        Rect { x, y, width, height }
    }

    pub fn left(self) -> (out: u16)
        ensures
            out == self.x,
    {
        self.x
    }

    pub fn top(self) -> (out: u16)
        ensures
            out == self.y,
    {
        self.y
    }

    pub fn right(self) -> (out: u16)
        ensures
            out == self.right_spec(),
    {
        self.x.saturating_add(self.width)
    }

    pub fn bottom(self) -> (out: u16)
        ensures
            out == self.bottom_spec(),
    {
        self.y.saturating_add(self.height)
    }

    pub fn contains(self, position: Position) -> (out: bool)
        ensures
            out == self.contains_spec(position),
    {
        position.x >= self.x && position.x < self.right() && position.y >= self.y && position.y
            < self.bottom()
    }

    pub fn as_size(self) -> (out: Size)
        ensures
            out == (Size { width: self.width, height: self.height }),
    {
        Size { width: self.width, height: self.height }
    }

    pub fn as_position(self) -> (out: Position)
        ensures
            out == (Position { x: self.x, y: self.y }),
    {
        Position { x: self.x, y: self.y }
    }

    /// Calls `ratatui::layout::Rect::inner`: the margin is taken off each
    /// side with saturating arithmetic, and an area too small for it
    /// collapses to the zero area.
    #[verifier::external_body]
    pub(crate) fn inner(self, margin: Margin) -> (out: Rect)
        ensures
            out == self.inner_spec(margin),
    {
        let r = ratatui::layout::Rect { x: self.x, y: self.y, width: self.width, height: self.height }
            .inner(ratatui::layout::Margin { horizontal: margin.horizontal, vertical: margin.vertical });
        Rect { x: r.x, y: r.y, width: r.width, height: r.height }
    }

    /// Calls `ratatui::layout::Rect::intersection`: the larger of the two
    /// left and top edges, the smaller of the two right and bottom edges,
    /// and an extent of zero where they cross.
    #[verifier::external_body]
    pub(crate) fn intersection(self, other: Rect) -> (out: Rect)
        ensures
            out == self.intersection_spec(other),
    {
        let a = ratatui::layout::Rect { x: self.x, y: self.y, width: self.width, height: self.height };
        let b = ratatui::layout::Rect { x: other.x, y: other.y, width: other.width, height: other.height };
        let r = a.intersection(b);
        Rect { x: r.x, y: r.y, width: r.width, height: r.height }
    }

    /// Calls `ratatui::layout::Rect::offset`: the corner moves by the
    /// offset and is held between zero and the last position at which the
    /// area still fits the grid; the extent stays.
    #[verifier::external_body]
    pub(crate) fn offset(self, offset: Offset) -> (out: Rect)
        ensures
            out == self.offset_spec(offset),
    {
        let r = ratatui::layout::Rect { x: self.x, y: self.y, width: self.width, height: self.height }
            .offset(ratatui::layout::Offset { x: offset.x, y: offset.y });
        Rect { x: r.x, y: r.y, width: r.width, height: r.height }
    }
}

/// Twice `v`, held at the largest `u16`.
fn doubled(v: u16) -> (out: u16)
    ensures
        out == sat_add(v as int, v as int),
{
    v.saturating_add(v)
}

/// `width` less the signed `by`, held within `u16`.
fn less_signed(width: u16, by: i16) -> (out: u16)
    ensures
        out == clamp(width - by, 0, u16::MAX as int),
{
    if by >= 0 {
        width.saturating_sub(by as u16)
    } else {
        let grow: u16 = (-(by as i32)) as u16;
        width.saturating_add(grow)
    }
}

impl Rect {
    /// The area made smaller by `size`, its corner kept.
    pub open spec fn reduce_spec(self, size: Size) -> Rect {
        Rect {
            width: sat_sub(self.width as int, size.width as int) as u16,
            height: sat_sub(self.height as int, size.height as int) as u16,
            ..self
        }
    }

    /// The area with `size` cut off at its left and top.
    pub open spec fn reduce_offset_spec(self, size: Size) -> Rect {
        Rect {
            x: sat_add(self.x as int, size.width as int) as u16,
            y: sat_add(self.y as int, size.height as int) as u16,
            width: sat_sub(self.width as int, size.width as int) as u16,
            height: sat_sub(self.height as int, size.height as int) as u16,
        }
    }

    /// The area grown by `size` on every side.
    pub open spec fn outline_spec(self, size: Size) -> Rect {
        Rect {
            x: sat_sub(self.x as int, size.width as int) as u16,
            y: sat_sub(self.y as int, size.height as int) as u16,
            width: sat_add(self.width as int, sat_add(size.width as int, size.width as int)) as u16,
            height: sat_add(
                self.height as int,
                sat_add(size.height as int, size.height as int),
            ) as u16,
        }
    }

    /// An area of `size` around the middle of this one, cut to this one.
    pub open spec fn centered_spec(self, size: Size) -> Rect {
        Rect {
            x: sat_add(self.x as int, self.width / 2 - size.width / 2) as u16,
            y: sat_add(self.y as int, self.height / 2 - size.height / 2) as u16,
            width: size.width,
            height: size.height,
        }.intersection_spec(self)
    }

    /// The area moved right by `value` and made narrower by as much.
    pub open spec fn inner_x_spec(self, value: i32) -> Rect {
        Rect {
            width: clamp(self.width - (value as i16), 0, u16::MAX as int) as u16,
            ..self.offset_spec(Offset { x: value, y: 0 })
        }
    }

    /// The area moved down by `value` and made lower by as much.
    pub open spec fn inner_y_spec(self, value: i32) -> Rect {
        Rect {
            height: clamp(self.height - (value as i16), 0, u16::MAX as int) as u16,
            ..self.offset_spec(Offset { x: 0, y: value })
        }
    }

    /// Shrinks the extent by `size`, stopping at zero.
    pub fn reduce(self, size: Size) -> (out: Rect)
        ensures
            out == self.reduce_spec(size),
    {
        Rect {
            x: self.x,
            y: self.y,
            width: self.width.saturating_sub(size.width),
            height: self.height.saturating_sub(size.height),
        }
    }

    /// Moves the corner in by `size` and shrinks the extent by as much.
    pub fn reduce_offset(self, size: Size) -> (out: Rect)
        ensures
            out == self.reduce_offset_spec(size),
    {
        Rect {
            x: self.x.saturating_add(size.width),
            y: self.y.saturating_add(size.height),
            width: self.width.saturating_sub(size.width),
            height: self.height.saturating_sub(size.height),
        }
    }

    /// The area of a border of thickness `size` drawn around this one.
    pub fn outline(self, size: Size) -> (out: Rect)
        ensures
            out == self.outline_spec(size),
    {
        Rect {
            x: self.x.saturating_sub(size.width),
            y: self.y.saturating_sub(size.height),
            width: self.width.saturating_add(doubled(size.width)),
            height: self.height.saturating_add(doubled(size.height)),
        }
    }

    /// Centres an area of `size` in this one. The size may exceed this
    /// area by at most one cell per axis, so that half of it does not exceed
    /// half of this area.
    pub fn centered(self, size: Size) -> (out: Rect)
        requires
            size.width / 2 <= self.width / 2,
            size.height / 2 <= self.height / 2,
        ensures
            out == self.centered_spec(size),
    {
        let moved = Rect {
            x: self.x.saturating_add(self.width / 2 - size.width / 2),
            y: self.y.saturating_add(self.height / 2 - size.height / 2),
            width: size.width,
            height: size.height,
        };
        moved.intersection(self)
    }

    pub fn set_height(self, value: u16) -> (out: Rect)
        ensures
            out == (Rect { height: value, ..self }),
    {
        Rect { x: self.x, y: self.y, width: self.width, height: value }
    }

    pub fn set_width(self, value: u16) -> (out: Rect)
        ensures
            out == (Rect { width: value, ..self }),
    {
        Rect { x: self.x, y: self.y, width: value, height: self.height }
    }

    /// Moves the left edge by `value` while the right edge stays, as far as
    /// the grid allows. Only the low 16 bits of `value` count for the width.
    pub fn inner_x(self, value: i32) -> (out: Rect)
        ensures
            out == self.inner_x_spec(value),
    {
        let by: i16 = #[verifier::truncate] (value as i16);
        self.offset(Offset::x(value)).set_width(less_signed(self.width, by))
    }

    /// Moves the top edge by `value` while the bottom edge stays, as far as
    /// the grid allows. Only the low 16 bits of `value` count for the height.
    pub fn inner_y(self, value: i32) -> (out: Rect)
        ensures
            out == self.inner_y_spec(value),
    {
        let by: i16 = #[verifier::truncate] (value as i16);
        self.offset(Offset::y(value)).set_height(less_signed(self.height, by))
    }
}

} // verus!
