//! Drawing a job's terminal: the cells of the emulator's screen, turned into
//! changes to the cells of the area that shows them.

use crate::geometry::{Position, Rect};
use crate::paint::{paint_views, put, Color, Modifiers, Paint, PaintView};
use vstd::prelude::*;
use vstd::string::*;

verus! {

/// A colour as the emulator reports it.
#[derive(Clone, Copy, Debug, PartialEq, Eq, Structural)]
pub enum TermColor {
    /// The terminal's default.
    Default,
    /// One of the 256 indexed colours.
    Idx(u8),
    /// Red, green, blue.
    Rgb(u8, u8, u8),
}

/// One cell of the emulator's screen.
#[derive(Clone, Debug, PartialEq, Eq)]
pub struct ScreenCell {
    /// The text in the cell; empty where nothing was written.
    pub contents: String,
    pub fg: TermColor,
    pub bg: TermColor,
    pub bold: bool,
    pub italic: bool,
    pub underline: bool,
    pub inverse: bool,
}

/// [`ScreenCell`] with its text as a sequence of characters.
pub struct ScreenCellView {
    pub contents: Seq<char>,
    pub fg: TermColor,
    pub bg: TermColor,
    pub bold: bool,
    pub italic: bool,
    pub underline: bool,
    pub inverse: bool,
}

impl View for ScreenCell {
    type V = ScreenCellView;

    open spec fn view(&self) -> ScreenCellView {
        ScreenCellView {
            contents: self.contents@,
            fg: self.fg,
            bg: self.bg,
            bold: self.bold,
            italic: self.italic,
            underline: self.underline,
            inverse: self.inverse,
        }
    }
}

impl ScreenCell {
    pub fn new(
        contents: String,
        colors: (TermColor, TermColor),
        bold: bool,
        italic: bool,
        underline: bool,
        inverse: bool,
    ) -> (out: ScreenCell)
        ensures
            out == (ScreenCell { contents, fg: colors.0, bg: colors.1, bold, italic, underline, inverse }),
    {
        ScreenCell { contents, fg: colors.0, bg: colors.1, bold, italic, underline, inverse }
    }
}

/// The screen of the `vt100` emulator.
#[verifier::external_type_specification]
#[verifier::external_body]
pub struct ExScreen(vt100::Screen);

/// The visible cells of a screen, by row and column.
pub uninterp spec fn screen_cells(screen: vt100::Screen) -> Map<(u16, u16), ScreenCellView>;

/// The cell at `row`, `col` of `cells`, if there is one.
pub open spec fn cell_at(cells: Map<(u16, u16), ScreenCellView>, row: u16, col: u16) -> Option<
    ScreenCellView,
> {
    if cells.contains_key((row, col)) {
        Some(cells[(row, col)])
    } else {
        None
    }
}

/// An optional cell with its text as a sequence of characters.
pub open spec fn cell_view(cell: Option<ScreenCell>) -> Option<ScreenCellView> {
    match cell {
        Some(c) => Some(c@),
        None => None,
    }
}

/// Calls `vt100::Screen::cell` and copies what the cell's getters return:
/// its text, its two colours and its four attributes. The result is the
/// screen's cell at that place, or `None` where the screen has none.
#[verifier::external_body]
fn screen_cell(screen: &vt100::Screen, row: u16, col: u16) -> (out: Option<ScreenCell>)
    ensures
        cell_view(out) == cell_at(screen_cells(*screen), row, col),
{
    let cell = screen.cell(row, col)?;
    let color = |c: vt100::Color| match c {
        vt100::Color::Default => TermColor::Default,
        vt100::Color::Idx(i) => TermColor::Idx(i),
        vt100::Color::Rgb(r, g, b) => TermColor::Rgb(r, g, b),
    };
    let colors = (color(cell.fgcolor()), color(cell.bgcolor()));
    let text = cell.contents().to_string();
    Some(ScreenCell::new(text, colors, cell.bold(), cell.italic(), cell.underline(), cell.inverse()))
}

/// The palette colour for a colour of the emulator.
pub open spec fn color_map_spec(color: TermColor) -> Color {
    match color {
        TermColor::Default => Color::Reset,
        TermColor::Idx(i) => Color::Indexed(i),
        TermColor::Rgb(r, g, b) => Color::Rgb(r, g, b),
    }
}

/// See [`color_map_spec`].
pub fn color_map(color: TermColor) -> (out: Color)
    ensures
        out == color_map_spec(color),
{
    match color {
        TermColor::Default => Color::Reset,
        TermColor::Idx(i) => Color::Indexed(i),
        TermColor::Rgb(r, g, b) => Color::Rgb(r, g, b),
    }
}

/// How a screen cell shows at `at`: its text if it has any, then exactly
/// its attributes, then its two colours.
pub open spec fn cell_paints(cell: ScreenCellView, at: Position) -> Seq<PaintView> {
    let text = if cell.contents.len() > 0 {
        seq![PaintView::Symbol { at, symbol: cell.contents }]
    } else {
        Seq::empty()
    };
    text + seq![
        PaintView::Style {
            at,
            modifiers: Modifiers {
                bold: cell.bold,
                italic: cell.italic,
                underlined: cell.underline,
                reversed: cell.inverse,
            },
        },
        PaintView::Fg { at, color: color_map_spec(cell.fg) },
        PaintView::Bg { at, color: color_map_spec(cell.bg) },
    ]
}

/// Appends to `paints` how `cell` shows at `at`.
pub fn apply_cell_styles(cell: &ScreenCell, at: Position, paints: &mut Vec<Paint>)
    ensures
        paint_views(final(paints)@) == paint_views(old(paints)@) + cell_paints(cell@, at),
{
    let fg = color_map(cell.fg);
    let bg = color_map(cell.bg);
    if !cell.contents.as_str().is_empty() {
        put(paints, Paint::Symbol { at, symbol: cell.contents.clone() });
    }
    let modifiers = Modifiers {
        bold: cell.bold,
        italic: cell.italic,
        underlined: cell.underline,
        reversed: cell.inverse,
    };
    put(paints, Paint::Style { at, modifiers });
    put(paints, Paint::Fg { at, color: fg });
    put(paints, Paint::Bg { at, color: bg });
    assert(paint_views(paints@) =~= paint_views(old(paints)@) + cell_paints(cell@, at));
}

/// How the cell at `row`, `col` of the screen shows in `area`; nothing
/// where the screen has no cell.
pub open spec fn paints_at(cells: Map<(u16, u16), ScreenCellView>, area: Rect, row: u16, col: u16) -> Seq<
    PaintView,
> {
    match cell_at(cells, row, col) {
        Some(cell) => cell_paints(
            cell,
            Position { x: (area.x + col) as u16, y: (area.y + row) as u16 },
        ),
        None => Seq::empty(),
    }
}

/// The first `cols` cells of row `row`, left to right.
pub open spec fn row_paints(cells: Map<(u16, u16), ScreenCellView>, area: Rect, row: u16, cols: nat) -> Seq<
    PaintView,
>
    decreases cols,
{
    if cols == 0 {
        Seq::empty()
    } else {
        row_paints(cells, area, row, (cols - 1) as nat) + paints_at(
            cells,
            area,
            row,
            (cols - 1) as u16,
        )
    }
}

/// The first `rows` rows of the area, top to bottom, each in full.
pub open spec fn rows_paints(cells: Map<(u16, u16), ScreenCellView>, area: Rect, rows: nat) -> Seq<
    PaintView,
>
    decreases rows,
{
    if rows == 0 {
        Seq::empty()
    } else {
        rows_paints(cells, area, (rows - 1) as nat) + row_paints(
            cells,
            area,
            (rows - 1) as u16,
            area.width as nat,
        )
    }
}

/// The whole screen as it shows in `area`: the area is cleared, then every
/// cell of the screen that falls into it is drawn, row by row.
pub open spec fn screen_paints(cells: Map<(u16, u16), ScreenCellView>, area: Rect) -> Seq<PaintView> {
    seq![PaintView::Clear { area }] + rows_paints(cells, area, area.height as nat)
}

/// A job's terminal as it is drawn.
pub struct VTermWidget<'a> {
    screen: &'a vt100::Screen,
}

impl<'a> VTermWidget<'a> {
    /// The widget that shows `screen`.
    pub fn new(screen: &'a vt100::Screen) -> (out: VTermWidget<'a>)
        ensures
            out.screen_spec() == screen,
    {
        VTermWidget { screen }
    }

    pub closed spec fn screen_spec(&self) -> &'a vt100::Screen {
        self.screen
    }

    /// The screen that the widget shows.
    pub fn screen(&self) -> (out: &vt100::Screen)
        ensures
            out == self.screen_spec(),
    {
        self.screen
    }

    /// Draws the screen into `area`; see [`render_screen`].
    pub fn render(self, area: Rect) -> (out: Vec<Paint>)
        requires
            area.x + area.width <= u16::MAX,
            area.y + area.height <= u16::MAX,
        ensures
            paint_views(out@) == screen_paints(screen_cells(*self.screen_spec()), area),
    {
        render_screen(self.screen, area)
    }
}

/// Draws the emulator's screen into `area`, the screen's top left cell at
/// the area's top left.
pub fn render_screen(screen: &vt100::Screen, area: Rect) -> (out: Vec<Paint>)
    requires
        area.x + area.width <= u16::MAX,
        area.y + area.height <= u16::MAX,
    ensures
        paint_views(out@) == screen_paints(screen_cells(*screen), area),
{
    let ghost cells = screen_cells(*screen);
    let mut paints: Vec<Paint> = Vec::new();
    assert(paint_views(paints@) =~= Seq::empty());
    put(&mut paints, Paint::Clear { area });
    let ghost cleared = paint_views(paints@);
    assert(cleared =~= seq![PaintView::Clear { area }]);

    let mut row: u16 = 0;
    while row < area.height
        invariant
            row <= area.height,
            area.x + area.width <= u16::MAX,
            area.y + area.height <= u16::MAX,
            cells == screen_cells(*screen),
            paint_views(paints@) == cleared + rows_paints(cells, area, row as nat),
        decreases area.height - row,
    {
        let ghost before = paint_views(paints@);
        let mut col: u16 = 0;
        while col < area.width
            invariant
                col <= area.width,
                row < area.height,
                area.x + area.width <= u16::MAX,
                area.y + area.height <= u16::MAX,
                cells == screen_cells(*screen),
                paint_views(paints@) == before + row_paints(cells, area, row, col as nat),
            decreases area.width - col,
        {
            let at = Position { x: area.x + col, y: area.y + row };
            match screen_cell(screen, row, col) {
                Some(cell) => {
                    apply_cell_styles(&cell, at, &mut paints);
                },
                None => {},
            }
            assert(paint_views(paints@) =~= before + row_paints(cells, area, row, (col + 1) as nat));
            col += 1;
        }
        assert(paint_views(paints@) =~= cleared + rows_paints(cells, area, (row + 1) as nat));
        row += 1;
    }
    paints
}

} // verus!
