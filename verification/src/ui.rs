//! Geometry primitives shared by all rendering: colors, positions and
//! rectangular areas.

use vstd::prelude::*;

verus! {

/// Addition that saturates at the largest `usize` value.
pub open spec fn sat_add(a: int, b: int) -> int {
    if a + b > usize::MAX {
        usize::MAX as int
    } else {
        a + b
    }
}

/// Subtraction that saturates at zero.
pub open spec fn sat_sub(a: int, b: int) -> int {
    if a - b < 0 {
        0
    } else {
        a - b
    }
}

/// Colors supported by the editor.
#[derive(Debug, Clone, Copy, PartialEq, Eq, Structural)]
pub enum Color {
    Reset,
    Black,
    Red,
    Green,
    Yellow,
    Blue,
    Magenta,
    Cyan,
    Gray,
    DarkGray,
    LightRed,
    LightGreen,
    LightYellow,
    LightBlue,
    LightMagenta,
    LightCyan,
    White,
    Rgb(u8, u8, u8),
    AnsiValue(u8),
}

impl Default for Color {
    fn default() -> (r: Self)
        ensures
            r == Color::Reset,
    {
        Color::Reset
    }
}

/// A position in ui space.
#[derive(Debug, Clone, Copy, PartialEq, Eq, Structural)]
pub struct Position {
    pub col: usize,
    pub row: usize,
}

impl Position {
    /// Create a new Position.
    pub fn new(col: usize, row: usize) -> (r: Self)
        ensures
            r.col == col,
            r.row == row,
    {
        Self { col, row }
    }
}

impl Default for Position {
    fn default() -> (r: Self)
        ensures
            r.col == 0,
            r.row == 0,
    {
        Position { col: 0, row: 0 }
    }
}

/// Rect represents an area/container in the ui.
#[derive(Debug, Clone, Copy, PartialEq, Eq, Structural)]
pub struct Rect {
    pub width: usize,
    pub height: usize,
    pub position: Position,
}

impl Rect {
    /// A Rect can be measured and placed without overflowing a `usize`:
    /// it is at least one cell wide and tall, and its inclusive right and
    /// bottom edges are representable.
    pub open spec fn wf(self) -> bool {
        &&& self.width >= 1
        &&& self.height >= 1
        &&& self.position.col + self.width <= usize::MAX
        &&& self.position.row + self.height <= usize::MAX
    }

    /// The leftmost column covered by the Rect.
    pub open spec fn spec_left(self) -> int {
        self.position.col as int
    }

    /// The rightmost column covered by the Rect (inclusive).
    pub open spec fn spec_right(self) -> int {
        self.position.col + self.width - 1
    }

    /// The topmost row covered by the Rect.
    pub open spec fn spec_top(self) -> int {
        self.position.row as int
    }

    /// The bottommost row covered by the Rect (inclusive).
    pub open spec fn spec_bottom(self) -> int {
        self.position.row + self.height - 1
    }

    /// Whether a position falls inside the Rect; both bounds are inclusive.
    pub open spec fn spec_contains(self, position: Position) -> bool {
        &&& self.spec_left() <= position.col <= self.spec_right()
        &&& self.spec_top() <= position.row <= self.spec_bottom()
    }

    /// Create a new Rect with default Position (0, 0).
    pub fn new(width: usize, height: usize) -> (r: Self)
        ensures
            r.width == width,
            r.height == height,
            r.position.col == 0,
            r.position.row == 0,
    {
        Self { width, height, position: Position::default() }
    }

    /// Create a new Rect with a set Position.
    pub fn positioned(width: usize, height: usize, col: usize, row: usize) -> (r: Self)
        ensures
            r.width == width,
            r.height == height,
            r.position.col == col,
            r.position.row == row,
    {
        Self { width, height, position: Position::new(col, row) }
    }

    /// Returns the area of the Rect, saturating at `usize::MAX`.
    pub fn area(&self) -> (r: usize)
        ensures
            self.width * self.height <= usize::MAX ==> r == self.width * self.height,
            self.width * self.height > usize::MAX ==> r == usize::MAX,
    {
        match self.width.checked_mul(self.height) {
            Some(a) => a,
            None => usize::MAX,
        }
    }

    /// Returns the leftmost possible value of the Rect. **Note**: This is zero based.
    pub fn left(&self) -> (r: usize)
        ensures
            r == self.spec_left(),
    {
        self.position.col
    }

    /// Returns the rightmost possible value of the Rect. **Note**: This is zero based.
    pub fn right(&self) -> (r: usize)
        requires
            self.wf(),
        ensures
            r == self.spec_right(),
    {
        self.position.col + self.width - 1
    }

    /// Returns the topmost possible value of the Rect. **Note**: This is zero based.
    pub fn top(&self) -> (r: usize)
        ensures
            r == self.spec_top(),
    {
        self.position.row
    }

    /// Returns the bottommost possible value of the Rect. **Note**: This is zero based.
    pub fn bottom(&self) -> (r: usize)
        requires
            self.wf(),
        ensures
            r == self.spec_bottom(),
    {
        self.position.row + self.height - 1
    }

    /// Check if the given position is within the Rect, taking the Rect's
    /// Position into consideration.
    pub fn contains(&self, position: &Position) -> (r: bool)
        requires
            self.wf(),
        ensures
            r == self.spec_contains(*position),
    {
        let col = position.col;
        let row = position.row;

        col >= self.left() && col <= self.right() && row >= self.top() && row <= self.bottom()
    }
}

impl Default for Rect {
    fn default() -> (r: Self)
        ensures
            r.width == 0,
            r.height == 0,
            r.position.col == 0,
            r.position.row == 0,
    {
        Rect { width: 0, height: 0, position: Position { col: 0, row: 0 } }
    }
}

} // verus!
