//! The playfield rectangle and the centering helpers that the embedding
//! layer uses to place it on a larger character grid.
use vstd::math::{max, min};
use vstd::prelude::*;

verus! {

/// Smallest width a playfield may have: the interior (width minus the two
/// border columns) must be wide enough for the paddle bands and the
/// post-bounce snap offsets of the physics step.
pub const MIN_AREA_WIDTH: u16 = 12;

/// Smallest height a playfield may have: the interior must hold a whole
/// paddle, and a freshly centered paddle must fit below the midline.
pub const MIN_AREA_HEIGHT: u16 = 9;

/// A rectangle on the character grid, in columns and rows.
///
/// The playfield owned by a match is such a rectangle; its playable
/// interior excludes one border column on each side and one border row
/// at top and bottom.
#[derive(Clone, Copy, Debug, PartialEq, Eq, Structural)]
pub struct GameArea {
    pub x: u16,
    pub y: u16,
    pub width: u16,
    pub height: u16,
}

/// A playfield large enough for the physics and agent steps to keep the
/// ball and both paddles inside the interior.
pub open spec fn valid_area(area: GameArea) -> bool {
    &&& area.width >= MIN_AREA_WIDTH
    &&& area.height >= MIN_AREA_HEIGHT
}

/// Width of the playable interior: the area minus both border columns.
pub open spec fn interior_width(area: GameArea) -> int
    recommends
        valid_area(area),
{
    area.width - 2
}

/// Height of the playable interior: the area minus both border rows.
pub open spec fn interior_height(area: GameArea) -> int
    recommends
        valid_area(area),
{
    area.height - 2
}

impl GameArea {
    /// A new rectangle from its corner and size.
    pub fn new(x: u16, y: u16, width: u16, height: u16) -> (r: GameArea)
        ensures
            r == (GameArea { x, y, width, height }),
    {
        GameArea { x, y, width, height }
    }
}

/// A rectangle of the given size centered on a `cols` x `rows` grid.
pub fn centered_rect(width: u16, height: u16, cols: u16, rows: u16) -> (r: GameArea)
    requires
        width <= cols,
        height <= rows,
    ensures
        r.x == (cols - width) / 2,
        r.y == (rows - height) / 2,
        r.width == width,
        r.height == height,
{
    let x = (cols - width) / 2;
    let y = (rows - height) / 2;
    GameArea { x, y, width, height }
}

/// A rectangle taking the given percentage of a `cols` x `rows` grid,
/// centered; its height is raised to at least 5 rows where the grid
/// allows, and never exceeds the grid.
pub fn centered_rect_with_percentage(percent_x: u16, percent_y: u16, cols: u16, rows: u16) -> (r:
    GameArea)
    requires
        percent_x <= 100,
        percent_y <= 100,
    ensures
        r.width == cols * percent_x / 100,
        r.height == min(max(rows * percent_y / 100, 5), rows as int),
        r.x == (cols - r.width) / 2,
        r.y == (rows - r.height) / 2,
{
    proof {
        assert((cols as int) * (percent_x as int) / 100 <= cols as int) by (nonlinear_arith)
            requires
                percent_x <= 100,
                cols >= 0,
        ;
        assert((rows as int) * (percent_y as int) / 100 <= rows as int) by (nonlinear_arith)
            requires
                percent_y <= 100,
                rows >= 0,
        ;
    }
    let width = ((cols as u32) * (percent_x as u32) / 100) as u16;
    let scaled = ((rows as u32) * (percent_y as u32) / 100) as u16;
    let raised: u16 = if scaled >= 5 {
        scaled
    } else {
        5
    };
    let height: u16 = if raised <= rows {
        raised
    } else {
        rows
    };
    GameArea { x: (cols - width) / 2, y: (rows - height) / 2, width, height }
}

} // verus!
