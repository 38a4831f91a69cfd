use vstd::prelude::*;
use crate::geometry::{Direction, Position};
use crate::values::{Block, PositionedBlock};

verus! {

/// Mathematical model of the grid: its size and the resting blocks by
/// (column, row).
pub struct GridView {
    pub width: int,
    pub height: int,
    pub cells: Map<(int, int), Block>,
}

impl GridView {
    /// Every resting block lies inside the grid.
    pub open spec fn wf(self) -> bool {
        &&& 0 <= self.width
        &&& 0 <= self.height
        &&& forall|x: int, y: int| #[trigger]
            self.cells.contains_key((x, y)) ==> 0 <= x < self.width && 0 <= y < self.height
    }

    /// Whether (x, y) is a cell of the grid.
    pub open spec fn in_grid(self, x: int, y: int) -> bool {
        0 <= x < self.width && 0 <= y < self.height
    }

    /// Whether `p` is in a column of the grid and not below the floor. Rows
    /// above the top count as in bounds.
    pub open spec fn in_bounds(self, p: Position) -> bool {
        0 <= p.x < self.width && 0 <= p.y
    }

    /// The resting block at `p`, if there is one.
    pub open spec fn at(self, p: Position) -> Option<Block> {
        if self.cells.contains_key((p.x as int, p.y as int)) {
            Some(self.cells[(p.x as int, p.y as int)])
        } else {
            None
        }
    }

    /// Whether a falling block may be at column `x`, row `y`: the column
    /// exists, the row is not below the floor, and no block rests there.
    /// Rows above the top are free.
    pub open spec fn free(self, x: int, y: int) -> bool {
        &&& 0 <= x < self.width
        &&& 0 <= y
        &&& !self.cells.contains_key((x, y))
    }

    pub open spec fn is_empty(self, p: Position) -> bool {
        self.free(p.x as int, p.y as int)
    }

    /// The row at which a block let go at (x, y) comes to rest: the first row
    /// on the way down that is the floor or has no free cell below it.
    pub open spec fn rest_row(self, x: int, y: int) -> int
        decreases y,
    {
        if y <= 0 || !self.free(x, y - 1) {
            y
        } else {
            self.rest_row(x, y - 1)
        }
    }

    /// Where a block let go at `p` comes to rest: the same column, at the
    /// resting row.
    pub open spec fn rest(self, p: Position) -> Position {
        Position { x: p.x, y: self.rest_row(p.x as int, p.y as int) as i8 }
    }

    /// The grid with `value` written at `p`; unchanged where `p` is no cell
    /// of the grid.
    pub open spec fn put(self, p: Position, value: Option<Block>) -> GridView {
        if self.in_grid(p.x as int, p.y as int) {
            GridView {
                width: self.width,
                height: self.height,
                cells: match value {
                    Some(block) => self.cells.insert((p.x as int, p.y as int), block),
                    None => self.cells.remove((p.x as int, p.y as int)),
                },
            }
        } else {
            self
        }
    }

    /// The resting row lies between the floor and the starting row, every
    /// cell passed on the way down is free, and the fall stops only on the
    /// floor or on a cell that is not free.
    pub proof fn lemma_rest_row(self, x: int, y: int)
        ensures
            self.rest_row(x, y) <= y,
            y >= 0 ==> self.rest_row(x, y) >= 0,
            y <= 0 ==> self.rest_row(x, y) == y,
            forall|r: int| self.rest_row(x, y) <= r < y ==> self.free(x, r),
            self.rest_row(x, y) <= 0 || !self.free(x, self.rest_row(x, y) - 1),
        decreases y,
    {
        if y <= 0 || !self.free(x, y - 1) {
        } else {
            self.lemma_rest_row(x, y - 1);
        }
    }

    /// A row with these three properties is the resting row: no other row
    /// has them.
    pub proof fn lemma_rest_row_unique(self, x: int, y: int, r: int)
        requires
            0 <= r <= y,
            forall|k: int| r <= k < y ==> self.free(x, k),
            r == 0 || !self.free(x, r - 1),
        ensures
            self.rest_row(x, y) == r,
        decreases y,
    {
        if y <= 0 || !self.free(x, y - 1) {
            if r < y {
                assert(self.free(x, y - 1));
            }
        } else {
            if r == y {
                assert(!self.free(x, r - 1));
            }
            self.lemma_rest_row_unique(x, y - 1, r);
        }
    }

    /// Dropping from the resting row goes nowhere.
    pub proof fn lemma_rest_row_idempotent(self, x: int, y: int)
        ensures
            self.rest_row(x, self.rest_row(x, y)) == self.rest_row(x, y),
    {
        self.lemma_rest_row(x, y);
    }
}

/// A grid of fixed width and height that records which cells hold a resting
/// block. Column `x`, row `y` is kept at `cells[x][y]`.
pub struct BlockGrid {
    width: usize,
    height: usize,
    cells: Vec<Vec<Option<Block>>>,
}

impl View for BlockGrid {
    type V = GridView;

    closed spec fn view(&self) -> GridView {
        GridView {
            width: self.width as int,
            height: self.height as int,
            cells: Map::new(
                |k: (int, int)|
                    0 <= k.0 < self.width && 0 <= k.1 < self.height
                        && self.cells@[k.0]@[k.1] is Some,
                |k: (int, int)| self.cells@[k.0]@[k.1]->Some_0,
            ),
        }
    }
}

impl BlockGrid {
    /// The columns and rows are as many as the width and height say.
    pub closed spec fn wf(&self) -> bool {
        &&& self.cells@.len() == self.width
        &&& forall|x: int| 0 <= x < self.width ==> (#[trigger] self.cells@[x])@.len() == self.height
    }

    /// From a well-formed grid comes a well-formed model.
    pub proof fn lemma_view_wf(&self)
        requires
            self.wf(),
        ensures
            self@.wf(),
    {
    }

    /// A grid of the given size with every cell empty.
    pub fn new(width: usize, height: usize) -> (grid: BlockGrid)
        ensures
            grid.wf(),
            grid@ == (GridView { width: width as int, height: height as int, cells: Map::empty() }),
    {
        let mut cells: Vec<Vec<Option<Block>>> = Vec::new();
        let mut x: usize = 0;
        while x < width
            invariant
                x <= width,
                cells@.len() == x,
                forall|i: int| 0 <= i < x ==> (#[trigger] cells@[i])@.len() == height,
                forall|i: int, j: int| 0 <= i < x && 0 <= j < height ==> cells@[i]@[j] is None,
            decreases width - x,
        {
            let mut column: Vec<Option<Block>> = Vec::new();
            let mut y: usize = 0;
            while y < height
                invariant
                    y <= height,
                    column@.len() == y,
                    forall|j: int| 0 <= j < y ==> column@[j] is None,
                decreases height - y,
            {
                column.push(None);
                y += 1;
            }
            cells.push(column);
            x += 1;
        }
        let grid = BlockGrid { width, height, cells };
        assert(grid@.cells =~= Map::empty());
        grid
    }

    pub fn width(&self) -> (width: usize)
        ensures
            width == self@.width,
    {
        self.width
    }

    pub fn height(&self) -> (height: usize)
        ensures
            height == self@.height,
    {
        self.height
    }

    /// The resting block at `position`; `None` for an empty cell and for
    /// every position outside the grid.
    pub fn get(&self, position: Position) -> (found: Option<Block>)
        requires
            self.wf(),
        ensures
            found == self@.at(position),
    {
        if position.x < 0 || position.y < 0 {
            return None;
        }
        let x: usize = position.x as usize;
        let y: usize = position.y as usize;
        if x >= self.width || y >= self.height {
            return None;
        }
        self.cells[x][y]
    }

    /// Whether `position` is in a column of the grid and not below the
    /// floor.
    pub fn in_bounds(&self, position: Position) -> (inside: bool)
        requires
            self.wf(),
        ensures
            inside == self@.in_bounds(position),
    {
        if position.x < 0 || position.y < 0 {
            return false;
        }
        let x: usize = position.x as usize;
        x < self.width
    }

    /// Whether a falling block may be at `position`. Positions left or right
    /// of the grid and below the floor are never empty; rows above the top
    /// always are.
    pub fn empty(&self, position: Position) -> (free: bool)
        requires
            self.wf(),
        ensures
            free == self@.is_empty(position),
            free ==> self@.in_bounds(position),
    {
        if !self.in_bounds(position) {
            return false;
        }
        let x: usize = position.x as usize;
        let y: usize = position.y as usize;
        if y >= self.height {
            return true;
        }
        self.cells[x][y].is_none()
    }

    /// Writes `value` at `position`. A position outside the grid is left
    /// alone: nothing changes.
    pub fn set(&mut self, position: Position, value: Option<Block>)
        requires
            old(self).wf(),
        ensures
            final(self).wf(),
            final(self)@ == old(self)@.put(position, value),
    {
        if position.x < 0 || position.y < 0 {
            return;
        }
        let x: usize = position.x as usize;
        let y: usize = position.y as usize;
        if x >= self.width || y >= self.height {
            return;
        }
        self.cells[x].set(y, value);
        assert(self@.cells =~= old(self)@.put(position, value).cells);
    }

    /// Whether a block at `position` has a row below it to fall into.
    pub fn can_fall(&self, position: Position) -> (falls: bool)
        requires
            self.wf(),
        ensures
            falls == (position.y > 0 && self@.free(position.x as int, position.y - 1)),
    {
        position.y > 0 && self.empty(position.translate(Direction::Down))
    }

    /// Where `placed` comes to rest when let go: the same block in the same
    /// column, at the first row on the way down that is the floor or lies on
    /// a cell that is not empty.
    pub fn bottom(&self, placed: PositionedBlock) -> (rested: PositionedBlock)
        requires
            self.wf(),
        ensures
            rested.block == placed.block,
            rested.position.x == placed.position.x,
            rested.position.y == self@.rest_row(placed.position.x as int, placed.position.y as int),
    {
        let mut current: Position = placed.position;
        while self.can_fall(current)
            invariant
                self.wf(),
                current.x == placed.position.x,
                current.y <= placed.position.y,
                self@.rest_row(current.x as int, current.y as int) == self@.rest_row(
                    placed.position.x as int,
                    placed.position.y as int,
                ),
            decreases current.y,
        {
            current = current.translate(Direction::Down);
        }
        PositionedBlock::new(placed.block, current)
    }
}

} // verus!
