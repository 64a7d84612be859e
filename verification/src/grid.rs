//! Grids of cells: the content of a terminal screen, with its cursor.
use crate::cell::Cell;
use crate::cell::CellAttributes;
use crate::cell::CellView;
use crate::colour::ColourAttribute;
use vstd::prelude::*;

verus! {

/// The shape in which a terminal draws its cursor.
#[derive(Clone, Copy, Debug, PartialEq, Eq, Structural)]
pub enum CursorShape {
    Default,
    BlinkingBlock,
    SteadyBlock,
    BlinkingUnderline,
    SteadyUnderline,
    BlinkingBar,
    SteadyBar,
}

/// Whether a terminal draws its cursor at all.
#[derive(Clone, Copy, Debug, PartialEq, Eq, Structural)]
pub enum CursorVisibility {
    Hidden,
    Visible,
}

/// Where the cursor of a grid is, and how it looks.
#[derive(Clone, Copy, Debug, PartialEq, Eq, Structural)]
pub struct Cursor {
    pub x: usize,
    pub y: usize,
    pub shape: Option<CursorShape>,
    pub visibility: CursorVisibility,
}

/// A rectangle of cells, row by row from the top, and a cursor.
#[derive(Debug)]
pub struct Grid {
    pub width: usize,
    pub height: usize,
    pub rows: Vec<Vec<Cell>>,
    pub cursor: Cursor,
}

/// The view of a blank cell.
pub open spec fn blank_cell() -> CellView {
    CellView {
        text: seq![' '],
        attrs: CellAttributes {
            foreground: ColourAttribute::Default,
            background: ColourAttribute::Default,
            style: 0,
        },
    }
}

impl Grid {
    /// Every row is there, and every row is as wide as the grid.
    pub open spec fn wf(&self) -> bool {
        &&& self.rows.len() == self.height
        &&& forall|y: int| 0 <= y < self.rows.len() ==> (#[trigger] self.rows[y]).len() == self.width
    }

    /// Whether the grid has a cell in column `x` of row `y`.
    pub open spec fn contains(&self, x: int, y: int) -> bool {
        0 <= x < self.width && 0 <= y < self.height
    }

    /// The cell in column `x` of row `y`.
    pub open spec fn cell(&self, x: int, y: int) -> CellView
        recommends
            self.wf(),
            self.contains(x, y),
    {
        self.rows[y][x]@
    }

    /// Whether two grids have the same size.
    pub open spec fn same_size(&self, other: &Grid) -> bool {
        self.width == other.width && self.height == other.height
    }

    /// Whether every cell but the one in column `x` of row `y` is the same in both grids.
    pub open spec fn same_but_at(&self, other: &Grid, x: int, y: int) -> bool {
        &&& self.same_size(other)
        &&& self.cursor == other.cursor
        &&& forall|i: int, j: int|
            self.contains(i, j) && !(i == x && j == y) ==> #[trigger] self.cell(i, j)
                == other.cell(i, j)
    }

    /// A grid of blank cells, with a visible cursor in its top left corner.
    pub fn new(width: usize, height: usize) -> (grid: Grid)
        ensures
            grid.wf(),
            grid.width == width,
            grid.height == height,
            grid.cursor == (Cursor {
                x: 0,
                y: 0,
                shape: None,
                visibility: CursorVisibility::Visible,
            }),
            forall|x: int, y: int| grid.contains(x, y) ==> #[trigger] grid.cell(x, y) == blank_cell(),
    {
        let mut rows: Vec<Vec<Cell>> = Vec::new();
        let mut y: usize = 0;
        while y < height
            invariant
                y <= height,
                rows.len() == y,
                forall|j: int| 0 <= j < rows.len() ==> (#[trigger] rows[j]).len() == width,
                forall|i: int, j: int|
                    0 <= j < rows.len() && 0 <= i < width ==> (#[trigger] rows[j][i])@
                        == blank_cell(),
            decreases height - y,
        {
            let mut row: Vec<Cell> = Vec::new();
            let mut x: usize = 0;
            while x < width
                invariant
                    x <= width,
                    row.len() == x,
                    forall|i: int| 0 <= i < row.len() ==> (#[trigger] row[i])@ == blank_cell(),
                decreases width - x,
            {
                row.push(Cell::blank());
                x = x + 1;
            }
            rows.push(row);
            y = y + 1;
        }
        Grid {
            width,
            height,
            rows,
            cursor: Cursor { x: 0, y: 0, shape: None, visibility: CursorVisibility::Visible },
        }
    }

    /// Width and height.
    pub fn dimensions(&self) -> (size: (usize, usize))
        ensures
            size == (self.width, self.height),
    {
        (self.width, self.height)
    }

    /// Where the cursor is: column, then row.
    pub fn cursor_position(&self) -> (position: (usize, usize))
        ensures
            position == (self.cursor.x, self.cursor.y),
    {
        (self.cursor.x, self.cursor.y)
    }

    /// The cell in column `x` of row `y`, if the grid has one there.
    pub fn get(&self, x: usize, y: usize) -> (found: Option<&Cell>)
        requires
            self.wf(),
        ensures
            found is Some <==> self.contains(x as int, y as int),
            found is Some ==> found->0@ == self.cell(x as int, y as int),
    {
        if y < self.height && x < self.width {
            Some(&self.rows[y][x])
        } else {
            None
        }
    }

    /// Puts `cell` in column `x` of row `y`.
    pub fn set(&mut self, x: usize, y: usize, cell: Cell)
        requires
            old(self).wf(),
            old(self).contains(x as int, y as int),
        ensures
            final(self).wf(),
            final(self).same_but_at(old(self), x as int, y as int),
            final(self).cell(x as int, y as int) == cell@,
    {
        self.rows[y][x] = cell;
    }

    /// A copy of the grid.
    pub fn duplicate(&self) -> (copy: Grid)
        requires
            self.wf(),
        ensures
            copy.wf(),
            copy.same_size(self),
            copy.cursor == self.cursor,
            forall|x: int, y: int| self.contains(x, y) ==> #[trigger] copy.cell(x, y) == self.cell(x, y),
    {
        let mut rows: Vec<Vec<Cell>> = Vec::new();
        let mut y: usize = 0;
        while y < self.height
            invariant
                self.wf(),
                y <= self.height,
                rows.len() == y,
                forall|j: int| 0 <= j < rows.len() ==> (#[trigger] rows[j]).len() == self.width,
                forall|i: int, j: int|
                    0 <= j < rows.len() && 0 <= i < self.width ==> (#[trigger] rows[j][i])@
                        == self.rows[j][i]@,
            decreases self.height - y,
        {
            let mut row: Vec<Cell> = Vec::new();
            let mut x: usize = 0;
            while x < self.width
                invariant
                    self.wf(),
                    y < self.height,
                    x <= self.width,
                    row.len() == x,
                    forall|i: int| 0 <= i < row.len() ==> (#[trigger] row[i])@ == self.rows[y as int][i]@,
                decreases self.width - x,
            {
                row.push(self.rows[y][x].clone());
                x = x + 1;
            }
            rows.push(row);
            y = y + 1;
        }
        Grid { width: self.width, height: self.height, rows, cursor: self.cursor }
    }
}

} // verus!
