//! The frame/viewport diff-render engine: a double-buffered cell grid,
//! dirty-cell diffing and cursor placement. Only cells that changed since
//! the previous frame are sent to the drawing surface.

use crate::row::lemma_views_push;
use crate::ui::{Color, Position, Rect};
use vstd::prelude::*;

verus! {

/// An error of the drawing surface, carrying the text of what failed.
#[derive(Debug)]
pub struct CanvasError {
    pub message: String,
}

/// Canvas is an interface to the ui. It could be the terminal or web ui.
/// The editor drives it through the `Viewport`; the implementation is
/// supplied by the surrounding application.
pub trait Canvas {
    /// Clear the ui.
    fn clear(&mut self) -> Result<(), CanvasError>;

    /// Draw the given cells in the ui's current buffer.
    fn draw(&mut self, cells: &Vec<&Cell>) -> Result<(), CanvasError>;

    /// Flush the ui's current buffer.
    fn flush(&mut self) -> Result<(), CanvasError>;

    /// Hide the cursor.
    fn hide_cursor(&mut self) -> Result<(), CanvasError>;

    /// Position the cursor at the given row and column.
    fn position_cursor(&mut self, row: usize, col: usize) -> Result<(), CanvasError>;

    /// Show the cursor.
    fn show_cursor(&mut self) -> Result<(), CanvasError>;

    /// Get the size of the ui.
    fn size(&self) -> Result<Rect, CanvasError>;
}

/// The abstract state of a `Cell`: its position, its display symbol as a
/// character sequence, and its colors.
pub struct CellV {
    pub position: Position,
    pub symbol: Seq<char>,
    pub foreground: Color,
    pub background: Color,
}

/// A single cell within the frame. Each cell has a position, symbol (the
/// shown character) and style information.
#[derive(Debug)]
pub struct Cell {
    position: Position,
    symbol: String,
    foreground: Color,
    background: Color,
}

impl View for Cell {
    type V = CellV;

    closed spec fn view(&self) -> CellV {
        CellV {
            position: self.position,
            symbol: self.symbol@,
            foreground: self.foreground,
            background: self.background,
        }
    }
}

impl DeepView for Cell {
    type V = CellV;

    open spec fn deep_view(&self) -> CellV {
        self.view()
    }
}

/// The cell with its symbol reset to a single blank, colors kept.
pub open spec fn cell_reset(c: CellV) -> CellV {
    CellV { position: c.position, symbol: seq![' '], foreground: c.foreground, background: c.background }
}

impl Cell {
    /// Create a new Cell.
    pub fn new(col: usize, row: usize, symbol: &str, foreground: Color, background: Color) -> (r:
        Self)
        ensures
            r@ == (CellV {
                position: Position { col, row },
                symbol: symbol@,
                foreground,
                background,
            }),
    {
        Self {
            position: Position::new(col, row),
            symbol: String::from_str(symbol),
            foreground,
            background,
        }
    }

    /// Returns the Position of the Cell.
    pub fn position(&self) -> (r: &Position)
        ensures
            *r == self@.position,
    {
        &self.position
    }

    /// Reset the Cell's symbol to an empty space, keeping its colors.
    pub fn reset(&mut self)
        ensures
            final(self)@ == cell_reset(old(self)@),
    {
        let blank = String::from_str(" ");
        proof {
            reveal_strlit(" ");
            assert(blank@ =~= seq![' ']);
        }
        self.symbol = blank;
    }

    /// Returns the Cell's symbol.
    pub fn symbol(&self) -> (r: &String)
        ensures
            r@ == self@.symbol,
    {
        &self.symbol
    }

    /// Returns the foreground color of this cell.
    pub fn foreground(&self) -> (r: Color)
        ensures
            r == self@.foreground,
    {
        self.foreground
    }

    /// Returns the background color of this cell.
    pub fn background(&self) -> (r: Color)
        ensures
            r == self@.background,
    {
        self.background
    }
}

impl PartialEq for Cell {
    /// Two cells are equal when their positions, symbols and colors agree.
    fn eq(&self, other: &Self) -> (r: bool) {
        self.position == other.position && self.symbol == other.symbol && self.foreground
            == other.foreground && self.background == other.background
    }
}

impl vstd::std_specs::cmp::PartialEqSpecImpl for Cell {
    open spec fn obeys_eq_spec() -> bool {
        true
    }

    open spec fn eq_spec(&self, other: &Self) -> bool {
        self@ == other@
    }
}

/// Raised by the Frame when trying to access a cell that is out of bounds.
#[derive(Debug, Clone, Copy, PartialEq, Eq, Structural)]
pub struct OutOfBoundsError;

impl OutOfBoundsError {
    /// A short description of the error.
    pub fn message(&self) -> (r: &'static str)
        ensures
            r@ == "trying to access index out of bounds"@,
    {
        "trying to access index out of bounds"
    }
}

/// The abstract state of a `Frame`: its area, its cells in row-major
/// order, and the cursor position requested for the frame being built.
pub struct FrameV {
    pub area: Rect,
    pub cells: Seq<CellV>,
    pub cursor_position: Position,
}

/// The position of the cell at row-major index `i` in a grid of the given
/// width, anchored at the origin.
pub open spec fn cell_position(width: int, i: int) -> Position {
    Position { col: (i % width) as usize, row: (i / width) as usize }
}

/// A well-formed frame: its area sits at the origin and is at least one
/// cell in each direction, its cell count is exactly the area, and each
/// cell records its own row-major position.
pub open spec fn frame_wf(f: FrameV) -> bool {
    &&& f.area.wf()
    &&& f.area.position.col == 0
    &&& f.area.position.row == 0
    &&& f.area.width * f.area.height <= usize::MAX
    &&& f.cells.len() == f.area.width * f.area.height
    &&& forall|i: int|
        0 <= i < f.cells.len() ==> (#[trigger] f.cells[i].position) == cell_position(
            f.area.width as int,
            i,
        )
}

/// The cells of a freshly filled frame of the given geometry.
pub open spec fn filled_cells(
    width: int,
    symbol: Seq<char>,
    foreground: Color,
    background: Color,
    count: int,
) -> Seq<CellV> {
    Seq::new(
        count as nat,
        |i: int|
            CellV { position: cell_position(width, i), symbol, foreground, background },
    )
}

/// The cells of a frame after a full-width line write at cell index
/// `base`: `written` symbols are in place, the cells from the end of the
/// symbols up to `blanked` columns after `base` are reset, the rest is
/// untouched.
pub open spec fn line_cells(
    cells: Seq<CellV>,
    base: int,
    symbols: Seq<Seq<char>>,
    foreground: Color,
    background: Color,
    written: int,
    blanked: int,
) -> Seq<CellV> {
    Seq::new(
        cells.len(),
        |k: int|
            if base <= k < base + written {
                CellV {
                    position: cells[k].position,
                    symbol: symbols[k - base],
                    foreground,
                    background,
                }
            } else if base + symbols.len() <= k < base + blanked {
                cell_reset(cells[k])
            } else {
                cells[k]
            },
    )
}

/// A mapping of Cells for a given area.
///
/// All drawing within the editor is mapped to a `Frame`. The `Frame` can
/// then be diffed with another `Frame` to detect changes that occurred
/// within the last draw loop, so that only changed cells are sent to the
/// drawing surface.
#[derive(Debug)]
pub struct Frame {
    area: Rect,
    cells: Vec<Cell>,
    cursor_position: Position,
}

impl View for Frame {
    type V = FrameV;

    closed spec fn view(&self) -> FrameV {
        FrameV {
            area: self.area,
            cells: self.cells.deep_view(),
            cursor_position: self.cursor_position,
        }
    }
}

/// The differing cells of two equally long prefixes: the cells of `b`
/// whose content or colors differ from the cell of `a` at the same index,
/// in index order.
pub open spec fn diff_upto(a: Seq<CellV>, b: Seq<CellV>, n: int) -> Seq<CellV>
    decreases n,
{
    if n <= 0 {
        Seq::empty()
    } else {
        diff_upto(a, b, n - 1) + (if a[n - 1] == b[n - 1] {
            Seq::<CellV>::empty()
        } else {
            seq![b[n - 1]]
        })
    }
}

/// The cells of `b` that differ from `a` at the same index, over the
/// indices both frames share.
pub open spec fn diff_cells(a: Seq<CellV>, b: Seq<CellV>) -> Seq<CellV> {
    diff_upto(a, b, crate::row::spec_min(a.len() as int, b.len() as int))
}

impl Frame {
    /// Create a `Frame` with all `Cell`s having the symbol " ".
    pub fn empty(area: Rect) -> (r: Self)
        requires
            area.wf(),
            area.position.col == 0,
            area.position.row == 0,
            area.width * area.height <= usize::MAX,
        ensures
            frame_wf(r@),
            r@.area == area,
            r@.cursor_position == (Position { col: 0, row: 0 }),
            r@.cells == filled_cells(
                area.width as int,
                seq![' '],
                Color::Reset,
                Color::Reset,
                area.width * area.height,
            ),
    {
        let r = Self::filled(area, " ");
        proof {
            reveal_strlit(" ");
            assert(" "@ =~= seq![' ']);
            assert(filled_cells(
                area.width as int,
                " "@,
                Color::Reset,
                Color::Reset,
                area.width * area.height,
            ) =~= filled_cells(
                area.width as int,
                seq![' '],
                Color::Reset,
                Color::Reset,
                area.width * area.height,
            ));
        }
        r
    }

    /// Create a `Frame` with all `Cell`s set to the given symbol.
    pub fn filled(area: Rect, symbol: &str) -> (r: Self)
        requires
            area.wf(),
            area.position.col == 0,
            area.position.row == 0,
            area.width * area.height <= usize::MAX,
        ensures
            frame_wf(r@),
            r@.area == area,
            r@.cursor_position == (Position { col: 0, row: 0 }),
            r@.cells == filled_cells(
                area.width as int,
                symbol@,
                Color::Reset,
                Color::Reset,
                area.width * area.height,
            ),
    {
        let size = area.area();
        let width = area.width;
        let ghost target = filled_cells(
            width as int,
            symbol@,
            Color::Reset,
            Color::Reset,
            size as int,
        );

        let mut cells: Vec<Cell> = Vec::new();
        let mut i: usize = 0;
        while i < size
            invariant
                i <= size,
                width == area.width,
                1 <= width,
                size == area.width * area.height,
                target == filled_cells(
                    width as int,
                    symbol@,
                    Color::Reset,
                    Color::Reset,
                    size as int,
                ),
                cells.deep_view() == target.subrange(0, i as int),
            decreases size - i,
        {
            let ghost pre = cells@;
            let cell = Cell::new(i % width, i / width, symbol, Color::Reset, Color::Reset);
            cells.push(cell);
            proof {
                lemma_views_push(pre, cells@, cell);
                assert(cells.deep_view() =~= target.subrange(0, i + 1));
            }
            i += 1;
        }
        proof {
            assert(target.subrange(0, target.len() as int) =~= target);
            assert(forall|k: int|
                0 <= k < target.len() ==> (#[trigger] target[k].position) == cell_position(
                    width as int,
                    k,
                ));
        }
        Self { cells, area, cursor_position: Position::default() }
    }

    /// Diff this `Frame` (the previously shown one) with the other `Frame`
    /// to get the cells of the other frame that changed.
    pub fn diff<'a>(&self, other: &'a Frame) -> (r: Vec<&'a Cell>)
        ensures
            r.deep_view() == diff_cells(self@.cells, other@.cells),
    {
        let n = if self.cells.len() < other.cells.len() {
            self.cells.len()
        } else {
            other.cells.len()
        };

        let mut updates: Vec<&Cell> = Vec::new();
        let mut i: usize = 0;
        while i < n
            invariant
                i <= n,
                n == crate::row::spec_min(self@.cells.len() as int, other@.cells.len() as int),
                updates.deep_view() == diff_upto(self@.cells, other@.cells, i as int),
            decreases n - i,
        {
            let ghost pre = updates@;
            if !(self.cells[i] == other.cells[i]) {
                let c = &other.cells[i];
                updates.push(c);
                proof {
                    lemma_views_push(pre, updates@, c);
                    assert(updates.deep_view() =~= diff_upto(
                        self@.cells,
                        other@.cells,
                        i + 1,
                    ));
                }
            }
            i += 1;
        }
        updates
    }

    /// The row-major cell index of a position inside the frame's area; a
    /// position outside the area is out of bounds.
    pub fn index_of(&self, position: &Position) -> (r: Result<usize, OutOfBoundsError>)
        requires
            frame_wf(self@),
        ensures
            match r {
                Ok(i) => self@.area.spec_contains(*position) && i == position.row
                    * self@.area.width + position.col && i < self@.cells.len(),
                Err(_) => !self@.area.spec_contains(*position),
            },
    {
        if self.area.contains(position) {
            proof {
                let w = self@.area.width as int;
                let h = self@.area.height as int;
                let row = position.row as int;
                let col = position.col as int;
                assert(row * w + col < h * w) by (nonlinear_arith)
                    requires
                        row <= h - 1,
                        col <= w - 1,
                        w >= 1,
                        h >= 1,
                ;
                assert(h * w == w * h) by (nonlinear_arith);
            }
            let i = (position.row - self.area.position.row) * self.area.width + (position.col
                - self.area.position.col);
            Ok(i)
        } else {
            Err(OutOfBoundsError)
        }
    }

    /// Reset the Frame to its blank state: every cell's symbol becomes a
    /// single space; colors, area and cursor are untouched.
    pub fn reset(&mut self)
        ensures
            final(self)@.area == old(self)@.area,
            final(self)@.cursor_position == old(self)@.cursor_position,
            final(self)@.cells == old(self)@.cells.map_values(|c: CellV| cell_reset(c)),
    {
        let ghost orig = self.cells@;
        let n = self.cells.len();
        let mut i: usize = 0;
        while i < n
            invariant
                i <= n,
                self.cells@.len() == n,
                orig.len() == n,
                self.area == old(self).area,
                self.cursor_position == old(self).cursor_position,
                forall|k: int|
                    0 <= k < n ==> (#[trigger] self.cells@[k])@ == (if k < i {
                        cell_reset(orig[k]@)
                    } else {
                        orig[k]@
                    }),
            decreases n - i,
        {
            let ghost pre = self.cells@;
            let cell = &mut self.cells[i];
            cell.reset();
            proof {
                assert(forall|k: int| 0 <= k < n && k != i ==> self.cells@[k] == pre[k]);
            }
            i += 1;
        }
        proof {
            assert(self.cells.deep_view() =~= old(self)@.cells.map_values(
                |c: CellV| cell_reset(c),
            ));
        }
    }

    /// Write a line of display symbols into the `Frame`, one cell per
    /// symbol starting at column zero of the given row; the rest of the
    /// line is blanked. A line write is always a full-width replace.
    pub fn write_line(
        &mut self,
        row_number: usize,
        symbols: &Vec<String>,
        foreground: Color,
        background: Color,
    )
        requires
            frame_wf(old(self)@),
            row_number < old(self)@.area.height,
            symbols@.len() <= old(self)@.area.width,
        ensures
            frame_wf(final(self)@),
            final(self)@.area == old(self)@.area,
            final(self)@.cursor_position == old(self)@.cursor_position,
            final(self)@.cells == line_cells(
                old(self)@.cells,
                row_number * old(self)@.area.width,
                symbols.deep_view(),
                foreground,
                background,
                symbols@.len() as int,
                old(self)@.area.width as int,
            ),
    {
        let ghost orig = self.cells@;
        let width = self.area.width;
        let ghost sv = symbols.deep_view();
        let ghost w = old(self)@.area.width as int;
        let ghost h = old(self)@.area.height as int;
        let ghost n = self.cells@.len();

        proof {
            assert(row_number * w + w <= h * w && row_number * w >= 0) by (nonlinear_arith)
                requires
                    row_number + 1 <= h,
                    w >= 0,
                    row_number >= 0,
            ;
            assert(h * w == w * h) by (nonlinear_arith);
        }

        let index = row_number * width;
        let ghost base = index as int;
        let count = symbols.len();

        let mut i: usize = 0;
        while i < count
            invariant
                i <= count,
                count == sv.len(),
                sv == symbols.deep_view(),
                index as int == base,
                base >= 0,
                base + w <= n,
                n == self.cells@.len(),
                n <= usize::MAX,
                orig.len() == n,
                w == self.area.width,
                count <= w,
                self.area == old(self).area,
                self.cursor_position == old(self).cursor_position,
                forall|k: int|
                    0 <= k < n ==> (#[trigger] self.cells@[k])@ == (if base <= k < base + i {
                        CellV {
                            position: orig[k]@.position,
                            symbol: sv[k - base],
                            foreground,
                            background,
                        }
                    } else {
                        orig[k]@
                    }),
            decreases count - i,
        {
            let ghost pre = self.cells@;
            let idx = index + i;
            let col = self.cells[idx].position().col;
            let row = self.cells[idx].position().row;
            let cell = Cell::new(col, row, symbols[i].as_str(), foreground, background);
            self.cells[idx] = cell;
            proof {
                assert(forall|k: int| 0 <= k < n && k != idx ==> self.cells@[k] == pre[k]);
                assert(symbols.deep_view()[i as int] == symbols@[i as int]@);
            }
            i += 1;
        }

        let mut j: usize = count;
        while j < width
            invariant
                count <= j <= width,
                count == sv.len(),
                sv == symbols.deep_view(),
                index as int == base,
                base >= 0,
                base + w <= n,
                n == self.cells@.len(),
                n <= usize::MAX,
                orig.len() == n,
                w == self.area.width,
                width == w,
                self.area == old(self).area,
                self.cursor_position == old(self).cursor_position,
                forall|k: int|
                    0 <= k < n ==> (#[trigger] self.cells@[k])@ == (if base <= k < base + count {
                        CellV {
                            position: orig[k]@.position,
                            symbol: sv[k - base],
                            foreground,
                            background,
                        }
                    } else if base + count <= k < base + j {
                        cell_reset(orig[k]@)
                    } else {
                        orig[k]@
                    }),
            decreases width - j,
        {
            let ghost pre = self.cells@;
            let idx = index + j;
            let cell = &mut self.cells[idx];
            cell.reset();
            proof {
                assert(forall|k: int| 0 <= k < n && k != idx ==> self.cells@[k] == pre[k]);
            }
            j += 1;
        }
        proof {
            assert(self.cells.deep_view() =~= line_cells(
                old(self)@.cells,
                base,
                sv,
                foreground,
                background,
                count as int,
                w,
            ));
            assert(forall|k: int|
                0 <= k < self.cells.deep_view().len() ==> (
                #[trigger] self.cells.deep_view()[k].position) == old(self)@.cells[k].position);
        }
    }

    /// Set the cursor position for the final frame render.
    pub fn set_cursor_position(&mut self, position: Position)
        ensures
            final(self)@.area == old(self)@.area,
            final(self)@.cells == old(self)@.cells,
            final(self)@.cursor_position == position,
    {
        self.cursor_position = position;
    }

    /// The cursor position requested for the frame being built.
    pub fn cursor_position(&self) -> (r: Position)
        ensures
            r == self@.cursor_position,
    {
        self.cursor_position
    }

    /// The area the frame covers.
    pub fn area(&self) -> (r: Rect)
        ensures
            r == self@.area,
    {
        self.area
    }
}


/// Every prefix where the two frames agree contributes no diff.
proof fn lemma_diff_upto_all_eq(a: Seq<CellV>, b: Seq<CellV>, n: int)
    requires
        n <= a.len(),
        n <= b.len(),
        forall|j: int| 0 <= j < n ==> a[j] == b[j],
    ensures
        diff_upto(a, b, n) == Seq::<CellV>::empty(),
    decreases n,
{
    if n > 0 {
        lemma_diff_upto_all_eq(a, b, n - 1);
        assert(diff_upto(a, b, n) =~= Seq::<CellV>::empty());
    }
}

/// Once past the single differing index, the diff stays that one cell.
proof fn lemma_diff_upto_from(a: Seq<CellV>, b: Seq<CellV>, i: int, n: int)
    requires
        a.len() == b.len(),
        0 <= i < n <= a.len(),
        a[i] != b[i],
        forall|j: int| 0 <= j < a.len() && j != i ==> a[j] == b[j],
    ensures
        diff_upto(a, b, n) == seq![b[i]],
    decreases n,
{
    if n == i + 1 {
        lemma_diff_upto_all_eq(a, b, i);
        assert(diff_upto(a, b, n) =~= seq![b[i]]);
    } else {
        lemma_diff_upto_from(a, b, i, n - 1);
        assert(diff_upto(a, b, n) =~= seq![b[i]]);
    }
}

/// For two frames of identical geometry differing in exactly one cell,
/// the diff is exactly that one cell of the newer frame, at its position.
pub proof fn lemma_diff_single_difference(a: Seq<CellV>, b: Seq<CellV>, i: int)
    requires
        a.len() == b.len(),
        0 <= i < a.len(),
        a[i] != b[i],
        forall|j: int| 0 <= j < a.len() && j != i ==> a[j] == b[j],
    ensures
        diff_cells(a, b) == seq![b[i]],
{
    lemma_diff_upto_from(a, b, i, a.len() as int);
}

/// Two frames with no differing cell have an empty diff.
pub proof fn lemma_diff_no_difference(a: Seq<CellV>, b: Seq<CellV>)
    requires
        a.len() == b.len(),
        forall|j: int| 0 <= j < a.len() ==> a[j] == b[j],
    ensures
        diff_cells(a, b) == Seq::<CellV>::empty(),
{
    lemma_diff_upto_all_eq(a, b, a.len() as int);
}

/// Whether every cell of the sequence shows a single blank.
pub open spec fn blank_cells(cells: Seq<CellV>) -> bool {
    forall|i: int| 0 <= i < cells.len() ==> (#[trigger] cells[i].symbol) == seq![' ']
}

/// `Draw` is implemented by any component that can draw itself to the
/// `Viewport`. `fits` says which frame areas the component can draw on,
/// and `renders` says exactly how the drawn frame relates to the frame it
/// was drawn over.
pub trait Draw {
    /// Whether this component can draw itself on a frame of the given
    /// area.
    spec fn fits(&self, area: Rect) -> bool;

    /// How the frame after drawing relates to the frame before.
    spec fn renders(&self, before: FrameV, after: FrameV) -> bool;

    /// Draw the component onto the frame.
    fn render_to(&self, frame: &mut Frame)
        requires
            frame_wf(old(frame)@),
            self.fits(old(frame)@.area),
        ensures
            frame_wf(final(frame)@),
            final(frame)@.area == old(frame)@.area,
            self.renders(old(frame)@, final(frame)@),
    ;
}

/// The abstract state of a `Viewport`: its area, the frame currently
/// shown on the drawing surface, and the work frame the next render is
/// drawn into.
pub struct ViewportV {
    pub area: Rect,
    pub shown: FrameV,
    pub work: FrameV,
}

/// A well-formed viewport: both frames are well-formed and cover the
/// viewport's own area.
pub open spec fn viewport_wf(v: ViewportV) -> bool {
    &&& frame_wf(v.shown)
    &&& frame_wf(v.work)
    &&& v.shown.area == v.area
    &&& v.work.area == v.area
}

/// The area of the screen that we can draw to. The Viewport is
/// responsible for handling interactions with the `Canvas` and drawing:
/// it owns the two ping-pong frames and the drawing surface itself.
pub struct Viewport<C: Canvas> {
    area: Rect,
    canvas: C,
    shown: Frame,
    work: Frame,
}

impl<C: Canvas> View for Viewport<C> {
    type V = ViewportV;

    closed spec fn view(&self) -> ViewportV {
        ViewportV { area: self.area, shown: self.shown@, work: self.work@ }
    }
}

impl<C: Canvas> Viewport<C> {
    /// Create a new Viewport over the provided Canvas, sized to what the
    /// canvas reports. A size that is degenerate (no cells, not anchored
    /// at the origin, or too large to index) is refused.
    pub fn new(canvas: C) -> (r: Result<Self, CanvasError>)
        ensures
            r matches Ok(v) ==> viewport_wf(v@) && blank_cells(v@.shown.cells) && blank_cells(
                v@.work.cells,
            ),
    {
        let area = match canvas.size() {
            Ok(a) => a,
            Err(e) => {
                return Err(e);
            },
        };
        if area.width < 1 || area.height < 1 || area.position.col != 0 || area.position.row != 0 {
            return Err(
                CanvasError { message: String::from_str("unable to set Viewport area") },
            );
        }
        match area.width.checked_mul(area.height) {
            Some(_) => Ok(Self::with_area(canvas, area)),
            None => Err(CanvasError { message: String::from_str("unable to set Viewport area") }),
        }
    }

    /// Create a Viewport of the given area over the provided Canvas, with
    /// both frames blank.
    pub fn with_area(canvas: C, area: Rect) -> (r: Self)
        requires
            area.wf(),
            area.position.col == 0,
            area.position.row == 0,
            area.width * area.height <= usize::MAX,
        ensures
            viewport_wf(r@),
            r@.area == area,
            blank_cells(r@.shown.cells),
            blank_cells(r@.work.cells),
    {
        let shown = Frame::empty(area);
        let work = Frame::empty(area);
        Self { area, canvas, shown, work }
    }

    /// The area represented by the viewport.
    pub fn area(&self) -> (r: Rect)
        ensures
            r == self@.area,
    {
        self.area
    }

    /// Draw the given view to the screen: render it into the work frame,
    /// diff against the frame currently shown, send only the changed
    /// cells to the canvas, place the cursor, and swap the frames so that
    /// the next render starts from a blank work frame.
    pub fn render<V: Draw>(&mut self, view: &V) -> (r: Result<(), CanvasError>)
        requires
            viewport_wf(old(self)@),
            view.fits(old(self)@.area),
        ensures
            viewport_wf(final(self)@),
            final(self)@.area == old(self)@.area,
            r is Ok ==> view.renders(old(self)@.work, final(self)@.shown) && blank_cells(
                final(self)@.work.cells,
            ),
    {
        match self.canvas.hide_cursor() {
            Ok(u) => u,
            Err(e) => {
                return Err(e);
            },
        };

        view.render_to(&mut self.work);

        let next_cursor_pos = self.work.cursor_position();
        let changes = self.shown.diff(&self.work);

        match self.canvas.draw(&changes) {
            Ok(u) => u,
            Err(e) => {
                return Err(e);
            },
        };
        match self.canvas.position_cursor(next_cursor_pos.row, next_cursor_pos.col) {
            Ok(u) => u,
            Err(e) => {
                return Err(e);
            },
        };
        match self.canvas.show_cursor() {
            Ok(u) => u,
            Err(e) => {
                return Err(e);
            },
        };

        self.swap_buffers();

        match self.canvas.flush() {
            Ok(u) => u,
            Err(e) => {
                return Err(e);
            },
        };
        Ok(())
    }

    /// Reset the frame that was shown until now and make it the next work
    /// frame; the freshly rendered frame becomes the shown one.
    fn swap_buffers(&mut self)
        ensures
            final(self)@.area == old(self)@.area,
            final(self)@.shown == old(self)@.work,
            final(self)@.work.area == old(self)@.shown.area,
            final(self)@.work.cursor_position == old(self)@.shown.cursor_position,
            final(self)@.work.cells == old(self)@.shown.cells.map_values(
                |c: CellV| cell_reset(c),
            ),
            blank_cells(final(self)@.work.cells),
    {
        self.shown.reset();
        core::mem::swap(&mut self.shown, &mut self.work);
        proof {
            assert(blank_cells(self@.work.cells));
        }
    }
}


/// The first `n` elements of the sequence, or all of it if it is
/// shorter.
pub open spec fn clip<A>(s: Seq<A>, n: int) -> Seq<A> {
    s.subrange(0, crate::row::spec_min(n, s.len() as int))
}

/// The frame after a full-width line write of the given symbols at the
/// given row: the functional model of `Frame::write_line`.
pub open spec fn frame_write(
    f: FrameV,
    row: int,
    symbols: Seq<Seq<char>>,
    foreground: Color,
    background: Color,
) -> FrameV {
    FrameV {
        area: f.area,
        cursor_position: f.cursor_position,
        cells: line_cells(
            f.cells,
            row * f.area.width,
            symbols,
            foreground,
            background,
            symbols.len() as int,
            f.area.width as int,
        ),
    }
}

/// One display symbol per character of the vector.
pub fn chars_to_symbols(v: &Vec<char>) -> (r: Vec<String>)
    ensures
        r.deep_view() == v@.map_values(|c: char| seq![c]),
{
    let ghost target = v@.map_values(|c: char| seq![c]);
    let mut r: Vec<String> = Vec::new();
    let mut i: usize = 0;
    while i < v.len()
        invariant
            i <= v@.len(),
            target == v@.map_values(|c: char| seq![c]),
            r.deep_view() == target.subrange(0, i as int),
        decreases v@.len() - i,
    {
        let ghost pre = r@;
        let mut single = String::new();
        crate::row::push_char(&mut single, v[i]);
        proof {
            assert(single@ =~= seq![v@[i as int]]);
        }
        r.push(single);
        proof {
            crate::row::lemma_views_push(pre, r@, single);
            assert(r.deep_view() =~= target.subrange(0, i + 1));
        }
        i += 1;
    }
    proof {
        assert(target.subrange(0, target.len() as int) =~= target);
    }
    r
}

/// One display symbol per character of the string.
pub fn char_symbols(s: &str) -> (r: Vec<String>)
    ensures
        r.deep_view() == s@.map_values(|c: char| seq![c]),
{
    let v = crate::row::chars_of(s);
    let r = chars_to_symbols(&v);
    proof {
        assert(r.deep_view() =~= s@.map_values(|c: char| seq![c]));
    }
    r
}

} // verus!
