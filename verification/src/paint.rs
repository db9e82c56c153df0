//! What is to be drawn, as a list of changes to single cells.
//!
//! The functions here decide which cells change and how. The caller applies
//! the list, in order, to the buffer it draws on.

use crate::geometry::{Margin, Position, Rect};
use vstd::prelude::*;
use vstd::string::*;

verus! {

/// A colour of the terminal's palette.
#[derive(Clone, Copy, Debug, PartialEq, Eq, Structural)]
pub enum Color {
    /// Whatever the terminal shows by default.
    Reset,
    Black,
    Red,
    Green,
    Yellow,
    Blue,
    Magenta,
    Cyan,
    Gray,
    DarkGray,
    LightRed,
    LightGreen,
    LightYellow,
    LightBlue,
    LightMagenta,
    LightCyan,
    White,
    Rgb(u8, u8, u8),
    Indexed(u8),
}

/// The text attributes that a terminal cell can carry over from a job.
#[derive(Clone, Copy, Debug, PartialEq, Eq, Structural)]
pub struct Modifiers {
    pub bold: bool,
    pub italic: bool,
    pub underlined: bool,
    pub reversed: bool,
}

/// One change to one cell.
#[derive(Clone, Debug, PartialEq, Eq)]
pub enum Paint {
    /// Put this text into the cell.
    Symbol { at: Position, symbol: String },
    /// Put this character into the cell.
    Char { at: Position, ch: char },
    /// Set the foreground colour.
    Fg { at: Position, color: Color },
    /// Set the background colour.
    Bg { at: Position, color: Color },
    /// Make the cell blank, with default colours and no attributes.
    Reset { at: Position },
    /// Give the cell default colours and exactly these attributes.
    Style { at: Position, modifiers: Modifiers },
    /// Make every cell of the area blank.
    Clear { area: Rect },
}

/// [`Paint`] with its text as a sequence of characters.
pub enum PaintView {
    Symbol { at: Position, symbol: Seq<char> },
    Char { at: Position, ch: char },
    Fg { at: Position, color: Color },
    Bg { at: Position, color: Color },
    Reset { at: Position },
    Style { at: Position, modifiers: Modifiers },
    Clear { area: Rect },
}

impl View for Paint {
    type V = PaintView;

    open spec fn view(&self) -> PaintView {
        match self {
            Paint::Symbol { at, symbol } => PaintView::Symbol { at: *at, symbol: symbol@ },
            Paint::Char { at, ch } => PaintView::Char { at: *at, ch: *ch },
            Paint::Fg { at, color } => PaintView::Fg { at: *at, color: *color },
            Paint::Bg { at, color } => PaintView::Bg { at: *at, color: *color },
            Paint::Reset { at } => PaintView::Reset { at: *at },
            Paint::Style { at, modifiers } => PaintView::Style { at: *at, modifiers: *modifiers },
            Paint::Clear { area } => PaintView::Clear { area: *area },
        }
    }
}

/// The views of a list of paints.
pub open spec fn paint_views(paints: Seq<Paint>) -> Seq<PaintView> {
    Seq::new(paints.len(), |i: int| paints[i]@)
}

/// Appends `paint` to `paints`.
pub(crate) fn put(paints: &mut Vec<Paint>, paint: Paint)
    ensures
        paint_views(final(paints)@) == paint_views(old(paints)@).push(paint@),
{
    paints.push(paint);
    assert(paint_views(paints@) =~= paint_views(old(paints)@).push(paint@));
}

/// A text with the colour it is drawn in.
pub open spec fn cap(at: Position, symbol: Seq<char>, color: Color) -> Seq<PaintView> {
    seq![PaintView::Symbol { at, symbol }, PaintView::Fg { at, color }]
}

/// Appends a text and its colour.
fn put_cap(paints: &mut Vec<Paint>, at: Position, symbol: &str, color: Color)
    ensures
        paint_views(final(paints)@) == paint_views(old(paints)@) + cap(at, symbol@, color),
{
    put(paints, Paint::Symbol { at, symbol: symbol.to_owned() });
    put(paints, Paint::Fg { at, color });
    assert(paint_views(paints@) =~= paint_views(old(paints)@) + cap(at, symbol@, color));
}

/// The rounded left end of a pill.
pub open spec fn pill_left() -> Seq<char> {
    "\u{25D6}"@
}

/// The rounded right end of a pill.
pub open spec fn pill_right() -> Seq<char> {
    "\u{25D7}"@
}

/// The slanted left end of a button, two cells wide.
pub open spec fn button_left() -> Seq<char> {
    "\u{1FB64}\u{1FB53}"@
}

/// The slanted right end of a button, two cells wide.
pub open spec fn button_right() -> Seq<char> {
    "\u{1FB4D}\u{1FB3E}"@
}

/// A list of paints together with the area left for content.
#[derive(Debug)]
pub struct Framed {
    pub paints: Vec<Paint>,
    pub inner: Rect,
}

/// The first row of `area`.
pub open spec fn first_row(area: Rect) -> Rect {
    Rect {
        height: if area.height < 1 {
            area.height
        } else {
            1
        },
        ..area
    }
}

/// The ends of a pill on the first row of `area`: none for the default
/// colour or an area without width, the left end alone in a single cell.
pub open spec fn pill_paints(bg: Color, area: Rect) -> Seq<PaintView> {
    if bg == Color::Reset || area.width == 0 {
        Seq::empty()
    } else {
        let left = cap(Position { x: area.x, y: area.y }, pill_left(), bg);
        if area.width > 1 {
            left + cap(
                Position { x: (area.right_spec() - 1) as u16, y: area.y },
                pill_right(),
                bg,
            )
        } else {
            left
        }
    }
}

/// Draws the two rounded ends of a pill in colour `bg` on the first row of
/// `area`. The area left for the pill's content is that row without its
/// first and last cell.
pub fn pill(bg: Color, area: Rect) -> (out: Framed)
    ensures
        paint_views(out.paints@) == pill_paints(bg, area),
        out.inner == first_row(area).inner_spec(Margin { horizontal: 1, vertical: 0 }),
{
    let mut paints: Vec<Paint> = Vec::new();
    assert(paint_views(paints@) =~= Seq::empty());
    if bg != Color::Reset && area.width > 0 {
        put_cap(&mut paints, Position { x: area.left(), y: area.y }, "\u{25D6}", bg);
        if area.width > 1 {
            put_cap(&mut paints, Position { x: area.right() - 1, y: area.y }, "\u{25D7}", bg);
        }
    }
    let mut area = area;
    area.height = if area.height < 1 {
        area.height
    } else {
        1
    };
    Framed { paints, inner: area.inner(Margin::horizontal(1)) }
}

/// The background of the cells of `row` from column `from` up to `to`.
pub open spec fn fill(from: int, to: int, row: u16, color: Color) -> Seq<PaintView> {
    Seq::new(
        if to > from {
            (to - from) as nat
        } else {
            0
        },
        |i: int| PaintView::Bg { at: Position { x: (from + i) as u16, y: row }, color },
    )
}

/// The body of a button: the first row of `area` without two cells at
/// either end.
pub open spec fn button_body(area: Rect) -> Rect {
    first_row(area).inner_spec(Margin { horizontal: 2, vertical: 0 })
}

/// The slanted ends and the filled body of a button; nothing for the
/// default colour and for an area too small to hold both ends.
pub open spec fn button_paints(bg: Color, area: Rect) -> Seq<PaintView> {
    let body = button_body(area);
    if body.height == 0 || bg == Color::Reset {
        Seq::empty()
    } else {
        seq![PaintView::Char { at: Position { x: body.x, y: body.y }, ch: ' ' }] + cap(
            Position { x: (body.x - 2) as u16, y: body.y },
            button_left(),
            bg,
        ) + cap(Position { x: body.right_spec() as u16, y: body.y }, button_right(), bg) + fill(
            body.x as int,
            body.right_spec(),
            body.y,
            bg,
        )
    }
}

/// Draws a button in colour `bg` on the first row of `area`: a slanted end
/// of two cells on either side and a filled body between them. The area
/// left for the label is the body without its first and last cell.
pub fn round_button(bg: Color, area: Rect) -> (out: Framed)
    ensures
        paint_views(out.paints@) == button_paints(bg, area),
        out.inner == (if button_body(area).height == 0 {
            button_body(area)
        } else {
            button_body(area).inner_spec(Margin { horizontal: 1, vertical: 0 })
        }),
{
    let mut paints: Vec<Paint> = Vec::new();
    assert(paint_views(paints@) =~= Seq::empty());
    let mut area = area;
    area.height = if area.height < 1 {
        area.height
    } else {
        1
    };
    let orig_width = area.width;
    let area = area.inner(Margin::horizontal(2));

    if area.height == 0 {
        return Framed { paints, inner: area };
    }
    if bg != Color::Reset && orig_width > 2 {
        put(&mut paints, Paint::Char { at: Position { x: area.left(), y: area.y }, ch: ' ' });
        put_cap(&mut paints, Position { x: area.left() - 2, y: area.y }, "\u{1FB64}\u{1FB53}", bg);
        if orig_width > 3 {
            put_cap(&mut paints, Position { x: area.right(), y: area.y }, "\u{1FB4D}\u{1FB3E}", bg);
            let ghost before = paint_views(paints@);
            let right = area.right();
            let mut x = area.left();
            while x < right
                invariant
                    area.x <= x <= right || right < area.x == x,
                    right == area.right_spec(),
                    paint_views(paints@) == before + fill(area.x as int, x as int, area.y, bg),
                decreases right - x,
            {
                put(&mut paints, Paint::Bg { at: Position { x, y: area.y }, color: bg });
                assert(fill(area.x as int, x + 1, area.y, bg) =~= fill(
                    area.x as int,
                    x as int,
                    area.y,
                    bg,
                ).push(PaintView::Bg { at: Position { x, y: area.y }, color: bg }));
                x += 1;
            }
        }
    }
    Framed { paints, inner: area.inner(Margin::horizontal(1)) }
}

/// The part of `area` that a progress of `shown` cells leaves: the area
/// with as many cells taken off either side as are not shown yet.
pub open spec fn revealed(area: Rect, shown: u16) -> Rect {
    area.inner_spec(Margin { horizontal: (area.width - shown) as u16, vertical: 0 })
}

/// What the loading bar does to the cell in column `x` of its row. A cell
/// under the part that has turned transparent is left alone. A cell outside
/// the pill is blanked. A cell of the pill's body is blanked and filled; the
/// pill's two ends are left as [`pill`] drew them.
pub open spec fn bar_cell(area: Rect, bg: Color, shown: u16, cleared: Option<u16>, x: u16) -> Seq<
    PaintView,
> {
    let at = Position { x, y: area.y };
    let transparent = match cleared {
        Some(c) => revealed(area, c),
        None => Rect::zero(),
    };
    let pill_area = revealed(area, shown);
    let body = first_row(pill_area).inner_spec(Margin { horizontal: 1, vertical: 0 });
    if transparent.contains_spec(at) {
        Seq::empty()
    } else if !pill_area.contains_spec(at) {
        seq![PaintView::Reset { at }]
    } else if !body.contains_spec(at) {
        Seq::empty()
    } else {
        seq![PaintView::Reset { at }, PaintView::Bg { at, color: bg }]
    }
}

/// The cells of the bar's row from its left edge up to column `upto`.
pub open spec fn bar_cells(area: Rect, bg: Color, shown: u16, cleared: Option<u16>, upto: int) -> Seq<
    PaintView,
>
    decreases upto - area.x,
{
    if upto <= area.x {
        Seq::empty()
    } else {
        bar_cells(area, bg, shown, cleared, upto - 1) + bar_cell(
            area,
            bg,
            shown,
            cleared,
            (upto - 1) as u16,
        )
    }
}

/// The loading bar on the first row of `area`: a pill of colour `bg` that
/// grows from the middle as `shown` goes from zero to the area's width, and
/// from whose middle a transparent part grows as `cleared` does the same.
pub fn loading_bar(area: Rect, bg: Color, shown: u16, cleared: Option<u16>) -> (out: Vec<Paint>)
    requires
        shown <= area.width,
        cleared matches Some(c) ==> c <= area.width,
    ensures
        paint_views(out@) == pill_paints(bg, revealed(area, shown)) + bar_cells(
            area,
            bg,
            shown,
            cleared,
            area.right_spec(),
        ),
{
    let transparent_area = match cleared {
        Some(c) => area.inner(Margin::horizontal(area.width - c)),
        None => Rect { x: 0, y: 0, width: 0, height: 0 },
    };
    let pill_area = area.inner(Margin::horizontal(area.width - shown));
    let framed = pill(bg, pill_area);
    let opaque_area = framed.inner;
    let mut paints = framed.paints;
    let ghost drawn = paint_views(paints@);

    let right = area.right();
    let mut x = area.left();
    while x < right
        invariant
            area.x <= x <= right || right < area.x == x,
            right == area.right_spec(),
            transparent_area == (match cleared {
                Some(c) => revealed(area, c),
                None => Rect::zero(),
            }),
            pill_area == revealed(area, shown),
            opaque_area == first_row(pill_area).inner_spec(Margin { horizontal: 1, vertical: 0 }),
            paint_views(paints@) == drawn + bar_cells(area, bg, shown, cleared, x as int),
        decreases right - x,
    {
        let pos = Position { x, y: area.y };
        let ghost before = paint_views(paints@);
        if transparent_area.contains(pos) {
        } else if !pill_area.contains(pos) {
            put(&mut paints, Paint::Reset { at: pos });
        } else if !opaque_area.contains(pos) {
        } else {
            put(&mut paints, Paint::Reset { at: pos });
            put(&mut paints, Paint::Bg { at: pos, color: bg });
        }
        assert(paint_views(paints@) =~= before + bar_cell(area, bg, shown, cleared, x));
        x += 1;
    }
    paints
}

} // verus!
