//! The pattern of the opening animation: a lattice of diamonds that grow
//! with the level at which they are drawn.

use vstd::prelude::*;

verus! {

/// Left half of a diamond's tip, as seen right of the centre.
pub const TIP_LEFT: char = '\u{1FBDF}';

/// Right half of a diamond's tip, as seen right of the centre.
pub const TIP_RIGHT: char = '\u{1FBDD}';

/// The glyph of the smallest diamond.
pub const SEED: char = '\u{1FBAE}';

/// The four glyphs that a diamond is drawn with at a cell. Left of the
/// centre the tips swap; in the two quadrants where exactly one coordinate
/// is negative the slashes swap.
pub struct Strokes {
    pub tip_left: char,
    pub tip_right: char,
    pub slash_left: char,
    pub slash_right: char,
}

/// The strokes for the cell at `x`, `y` from the centre.
pub open spec fn strokes_at(x: int, y: int) -> Strokes {
    let mirrored = (x < 0) != (y < 0);
    Strokes {
        tip_left: if x < 0 {
            TIP_RIGHT
        } else {
            TIP_LEFT
        },
        tip_right: if x < 0 {
            TIP_LEFT
        } else {
            TIP_RIGHT
        },
        slash_left: if mirrored {
            '\\'
        } else {
            '/'
        },
        slash_right: if mirrored {
            '/'
        } else {
            '\\'
        },
    }
}

/// The distance of a column from the centre. Columns left of the centre
/// are counted from -1, so that the two halves mirror each other.
pub open spec fn column_distance(x: int) -> int {
    if x < 0 {
        -(x + 1)
    } else {
        x
    }
}

/// The distance of a row from the centre, held at the largest `i32`.
pub open spec fn row_distance(y: int) -> int {
    if y <= i32::MIN {
        i32::MAX as int
    } else if y < 0 {
        -y
    } else {
        y
    }
}

/// The glyph of a diamond of half-height `size >= 1` at column `col` and row
/// `row` of its tile. A tile is `2 * size + 2` columns wide and `2 * size`
/// rows high. Row 0 holds the upper tip, row `size` the two side tips, and
/// the rows between and after hold the slanted edges.
pub open spec fn diamond_glyph(size: int, col: int, row: int, strokes: Strokes) -> char {
    let width = 2 * size + 2;
    if row == 0 {
        if col == size {
            strokes.tip_left
        } else if col == size + 1 {
            strokes.tip_right
        } else {
            ' '
        }
    } else if row == size {
        if col == 0 {
            strokes.tip_right
        } else if col == width - 1 {
            strokes.tip_left
        } else {
            ' '
        }
    } else if row < size {
        if col == size - row {
            strokes.slash_left
        } else if width - col - 1 == size - row {
            strokes.slash_right
        } else {
            ' '
        }
    } else {
        if col == row - size {
            strokes.slash_right
        } else if width - col - 1 == row - size {
            strokes.slash_left
        } else {
            ' '
        }
    }
}

/// The glyph drawn at `x`, `y` from the centre at `level`. Level 0 draws
/// nothing and level 1 a seed in every cell. Level 2 draws tips in a
/// checkerboard. From level 3 on the plane is tiled with diamonds of
/// half-height `level - 2`.
pub open spec fn glyph_at(level: int, x: int, y: int) -> Option<char> {
    let strokes = strokes_at(x, y);
    let dx = column_distance(x);
    let dy = row_distance(y);
    if level == 0 {
        None
    } else if level == 1 {
        Some(SEED)
    } else if level == 2 {
        let shift: int = if dy % 2 == 0 {
            1
        } else {
            0
        };
        if (shift + dx) % 2 == 0 {
            Some(strokes.tip_left)
        } else {
            Some(strokes.tip_right)
        }
    } else {
        let size = level - 2;
        Some(diamond_glyph(size, dx % (2 * size + 2), dy % (2 * size), strokes))
    }
}

/// The inputs for which the glyph can be computed in machine integers: the
/// tile's width fits, and at level 2 the shifted column distance does.
pub open spec fn glyph_computable(level: usize, x: i32, y: i32) -> bool {
    &&& level >= 2 ==> 2 * (level - 2) + 2 <= usize::MAX
    &&& level == 2 && row_distance(y as int) % 2 == 0 ==> column_distance(x as int) < i32::MAX
}

/// The glyph drawn at `x`, `y` from the centre at `level`.
pub fn render_char_at(level: usize, x: i32, y: i32) -> (out: Option<char>)
    requires
        glyph_computable(level, x, y),
    ensures
        out == glyph_at(level as int, x as int, y as int),
{
    if level == 0 {
        return None;
    }
    if level == 1 {
        return Some(SEED);
    }
    let mirrored = (x < 0) != (y < 0);
    let tip_left = if x < 0 {
        TIP_RIGHT
    } else {
        TIP_LEFT
    };
    let tip_right = if x < 0 {
        TIP_LEFT
    } else {
        TIP_RIGHT
    };
    let slash_left = if mirrored {
        '\\'
    } else {
        '/'
    };
    let slash_right = if mirrored {
        '/'
    } else {
        '\\'
    };

    // Columns left of the centre count from -1, so that both halves mirror.
    let across: i32 = if x < 0 {
        -(x + 1)
    } else {
        x
    };
    let down: i32 = if y == i32::MIN {
        i32::MAX
    } else if y < 0 {
        -y
    } else {
        y
    };

    if level == 2 {
        // Tips alternate along rows and columns.
        let shift: i32 = if down % 2 == 0 {
            1
        } else {
            0
        };
        return if (shift + across) % 2 == 0 {
            Some(tip_left)
        } else {
            Some(tip_right)
        };
    }
    let size = level - 2;
    let height = size * 2;
    let width = 2 + height;

    let col = across as usize % width;
    let row = down as usize % height;

    let glyph = if row == 0 {
        // The upper tip, in the middle of the tile.
        if col == size {
            tip_left
        } else if col == size + 1 {
            tip_right
        } else {
            ' '
        }
    } else if row == size {
        // The side tips, at the tile's two edges.
        if col == 0 {
            tip_right
        } else if col == width - 1 {
            tip_left
        } else {
            ' '
        }
    } else if row < size {
        // The upper edges run outwards.
        if col == size - row {
            slash_left
        } else if width - col - 1 == size - row {
            slash_right
        } else {
            ' '
        }
    } else {
        // The lower edges run back in.
        if col == row - size {
            slash_right
        } else if width - col - 1 == row - size {
            slash_left
        } else {
            ' '
        }
    };
    Some(glyph)
}

/// Ticks that the overlay is shown for.
pub const OVERLAY_TICKS: usize = 50;

/// How far the overlay has come at tick `tick` of the opening animation:
/// 49 at the start, down to 0 when tick 50 is reached.
pub open spec fn overlay_stage_spec(tick: usize) -> usize {
    if tick < 1 {
        49
    } else if tick > 50 {
        0
    } else {
        (50 - tick) as usize
    }
}

/// Milliseconds per tick of the opening animation while the overlay is at
/// `stage`, for the stages from 1 on at which it is drawn: no delay while
/// the pattern is large, then slower as it closes.
pub open spec fn stage_duration_spec(stage: usize) -> u64 {
    if stage >= 10 {
        0
    } else if stage >= 5 {
        25
    } else if stage >= 2 {
        50
    } else {
        20
    }
}

/// See [`overlay_stage_spec`].
pub fn overlay_stage(tick: usize) -> (out: usize)
    ensures
        out == overlay_stage_spec(tick),
        out <= 49,
{
    if tick < 1 {
        49
    } else if tick > 50 {
        0
    } else {
        50 - tick
    }
}

/// See [`stage_duration_spec`].
pub fn stage_duration(stage: usize) -> (out: u64)
    requires
        stage >= 1,
    ensures
        out == stage_duration_spec(stage),
{
    if stage >= 10 {
        0
    } else if stage >= 5 {
        25
    } else if stage >= 2 {
        50
    } else {
        20
    }
}

/// The level at which a cell is drawn: the overlay's stage plus the
/// cell's own delay, less the largest delay on screen, held at zero.
pub fn cell_level(stage: usize, delay: usize, max_delay: usize) -> (out: usize)
    requires
        stage + delay <= usize::MAX,
    ensures
        out == (if stage + delay > max_delay {
            stage + delay - max_delay
        } else {
            0
        }),
{
    (stage + delay).saturating_sub(max_delay)
}

} // verus!
