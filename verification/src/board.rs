//! Board-state data model: cell values, pages and whole boards.

use vstd::prelude::*;

verus! {

/// Number of columns in a page's grid.
pub const GRID_WIDTH: usize = 10;
/// Number of rows in a page's grid, hidden buffer rows included.
pub const GRID_HEIGHT: usize = 23;
/// Number of rows at the top of the grid that are never rendered.
pub const HIDDEN_ROWS: usize = 3;
/// Number of grid rows that are actually drawn.
pub const VISIBLE_ROWS: usize = 20;
/// Total number of cells in a page's grid.
pub const GRID_CELLS: usize = GRID_WIDTH * GRID_HEIGHT;

/// One cell of the board grid: empty, or one of the eight piece shapes.
#[derive(Clone, Copy, Debug, PartialEq, Eq, Structural)]
pub enum BlockKind {
    Empty,
    Z,
    L,
    O,
    S,
    I,
    J,
    T,
    Gray,
}

/// Position of a non-empty kind's tile in the sprite set. `Empty` has no
/// tile; its arm only keeps the match total and is never reached under
/// the emptiness guard every caller carries.
pub open spec fn sprite_index_spec(kind: BlockKind) -> int {
    match kind {
        BlockKind::Empty => 0,
        BlockKind::Z => 0,
        BlockKind::L => 1,
        BlockKind::O => 2,
        BlockKind::S => 3,
        BlockKind::I => 4,
        BlockKind::J => 5,
        BlockKind::T => 6,
        BlockKind::Gray => 7,
    }
}

/// Look up the sprite-set position of a non-empty cell kind.
pub fn sprite_index(kind: BlockKind) -> (i: usize)
    requires
        !(kind is Empty),
    ensures
        i == sprite_index_spec(kind),
        i < 8,
{
    match kind {
        BlockKind::Empty => 0,
        BlockKind::Z => 0,
        BlockKind::L => 1,
        BlockKind::O => 2,
        BlockKind::S => 3,
        BlockKind::I => 4,
        BlockKind::J => 5,
        BlockKind::T => 6,
        BlockKind::Gray => 7,
    }
}

/// One frame of board state: a fixed-size grid of cells and a free-text
/// annotation.
pub struct Page {
    /// Cell at column `x`, row `y` sits at index `x + y * 10`.
    pub grid: Vec<BlockKind>,
    /// Free-text annotation attached to the page.
    pub comment: String,
}

impl Page {
    /// A page is well formed when its grid holds exactly one value per cell.
    pub open spec fn wf(self) -> bool {
        self.grid@.len() == GRID_CELLS
    }
}

/// Cell at visible column `x` and visible row `y` of a page grid; the
/// three hidden rows above the visible area are skipped.
pub open spec fn grid_cell(grid: Seq<BlockKind>, x: int, y: int) -> BlockKind {
    grid[x + (y + HIDDEN_ROWS as int) * (GRID_WIDTH as int)]
}

/// A whole board state: a non-empty ordered sequence of pages.
pub struct BoardState {
    pub pages: Vec<Page>,
}

impl BoardState {
    /// A board is well formed when it has at least one page and every page
    /// is well formed.
    pub open spec fn wf(self) -> bool {
        &&& self.pages@.len() >= 1
        &&& forall|i: int| 0 <= i < self.pages@.len() ==> (#[trigger] self.pages@[i]).wf()
    }
}

} // verus!
