//! Compositing one page of board state onto the background image.

use vstd::prelude::*;
use crate::board::{
    grid_cell, sprite_index, sprite_index_spec, BlockKind, BoardState, GRID_WIDTH, HIDDEN_ROWS,
    VISIBLE_ROWS,
};
use crate::raster::{blit, clone_image, lemma_byte_index, Image};
use crate::assets::{Assets, TILE_SIZE};

verus! {

/// Horizontal pixel offset of the board grid inside the background.
pub const BOARD_OFFSET_X: usize = 124;
/// Vertical pixel offset of the board grid inside the background.
pub const BOARD_OFFSET_Y: usize = 75;

/// Whether pixel `(px, py)` lies inside the drawn board area: ten tile
/// columns starting at x = 124 and twenty tile rows starting at y = 75,
/// each tile 23 pixels square.
pub open spec fn on_board(px: int, py: int) -> bool {
    124 <= px < 124 + 230 && 75 <= py < 75 + 460
}

/// Visible grid column of a board-area pixel.
pub open spec fn cell_col(px: int) -> int {
    (px - 124) / 23
}

/// Visible grid row of a board-area pixel.
pub open spec fn cell_row(py: int) -> int {
    (py - 75) / 23
}

/// The value of pixel `(px, py)` of a composited frame: the sprite tile of
/// the cell covering that pixel where one does, the background elsewhere.
pub open spec fn composed_pix(assets: Assets, grid: Seq<BlockKind>, px: int, py: int) -> Seq<u8> {
    if on_board(px, py) && !(grid_cell(grid, cell_col(px), cell_row(py)) is Empty) {
        assets.sprites@[sprite_index_spec(grid_cell(grid, cell_col(px), cell_row(py)))].pix(
            (px - 124) % 23,
            (py - 75) % 23,
        )
    } else {
        assets.background.pix(px, py)
    }
}

/// The value of pixel `(px, py)` after the first `done` cells, in drawing
/// order (column by column, top to bottom inside a column), have been
/// drawn. Cell `(x, y)` is drawn at step `20 * x + y`.
pub open spec fn partial_pix(
    assets: Assets,
    grid: Seq<BlockKind>,
    done: int,
    px: int,
    py: int,
) -> Seq<u8> {
    if on_board(px, py) && 20 * cell_col(px) + cell_row(py) < done && !(grid_cell(
        grid,
        cell_col(px),
        cell_row(py),
    ) is Empty) {
        assets.sprites@[sprite_index_spec(grid_cell(grid, cell_col(px), cell_row(py)))].pix(
            (px - 124) % 23,
            (py - 75) % 23,
        )
    } else {
        assets.background.pix(px, py)
    }
}

/// The whole pixel buffer of a composited frame, sized like the background.
pub open spec fn composed_pixels(assets: Assets, grid: Seq<BlockKind>) -> Seq<u8> {
    Seq::new(
        assets.background.pixels@.len(),
        |i: int| composed_pix(
            assets,
            grid,
            (i / 4) % (assets.background.width as int),
            (i / 4) / (assets.background.width as int),
        )[i % 4],
    )
}

/// A pixel inside the tile rectangle of visible cell `(cx, cy)` maps back
/// to exactly that cell, at the expected offset within the tile.
pub proof fn lemma_cell_of_pixel(cx: int, cy: int, px: int, py: int)
    requires
        0 <= cx < 10,
        0 <= cy < 20,
        124 + 23 * cx <= px < 124 + 23 * cx + 23,
        75 + 23 * cy <= py < 75 + 23 * cy + 23,
    ensures
        on_board(px, py),
        cell_col(px) == cx,
        cell_row(py) == cy,
        (px - 124) % 23 == px - (124 + 23 * cx),
        (py - 75) % 23 == py - (75 + 23 * cy),
{
    vstd::arithmetic::div_mod::lemma_fundamental_div_mod_converse(
        px - 124,
        23,
        cx,
        px - 124 - 23 * cx,
    );
    vstd::arithmetic::div_mod::lemma_fundamental_div_mod_converse(
        py - 75,
        23,
        cy,
        py - 75 - 23 * cy,
    );
}

/// A board-area pixel lies inside the tile rectangle of its own cell, and
/// that cell is a visible one.
pub proof fn lemma_pixel_cell_bounds(px: int, py: int)
    requires
        on_board(px, py),
    ensures
        0 <= cell_col(px) < 10,
        0 <= cell_row(py) < 20,
        124 + 23 * cell_col(px) <= px < 124 + 23 * cell_col(px) + 23,
        75 + 23 * cell_row(py) <= py < 75 + 23 * cell_row(py) + 23,
{
    vstd::arithmetic::div_mod::lemma_fundamental_div_mod(px - 124, 23);
    vstd::arithmetic::div_mod::lemma_mod_bound(px - 124, 23);
    vstd::arithmetic::div_mod::lemma_fundamental_div_mod(py - 75, 23);
    vstd::arithmetic::div_mod::lemma_mod_bound(py - 75, 23);
}

/// Composite one page of the board onto a fresh copy of the background.
/// Every pixel of the result is pinned down: sprite tiles cover the cells
/// that hold a piece, the background shows through everywhere else.
#[verifier::loop_isolation(false)]
#[verifier::rlimit(60)]
pub fn compose(assets: &Assets, board: &BoardState, page_index: usize) -> (frame: Image)
    requires
        assets.wf(),
        board.wf(),
        page_index < board.pages@.len(),
    ensures
        frame.wf(),
        frame.width == assets.background.width,
        frame.height == assets.background.height,
        forall|px: int, py: int|
            0 <= px < frame.width && 0 <= py < frame.height ==> frame.pix(px, py)
                == composed_pix(*assets, board.pages@[page_index as int].grid@, px, py),
        frame.pixels@ == composed_pixels(*assets, board.pages@[page_index as int].grid@),
{
    let page = &board.pages[page_index];
    let ghost grid = page.grid@;
    let mut frame = clone_image(&assets.background);
    assert(forall|px: int, py: int|
        0 <= px < frame.width && 0 <= py < frame.height ==> #[trigger] frame.pix(px, py)
            == assets.background.pix(px, py)) by {
        assert(frame.pixels@ =~= assets.background.pixels@);
    }
    let mut cx: usize = 0;
    while cx < GRID_WIDTH
        invariant
            cx <= 10,
            frame.wf(),
            frame.width == assets.background.width,
            frame.height == assets.background.height,
            forall|px: int, py: int|
                0 <= px < frame.width && 0 <= py < frame.height ==> #[trigger] frame.pix(px, py)
                    == partial_pix(*assets, grid, 20 * (cx as int), px, py),
        decreases 10 - cx,
    {
        let mut cy: usize = 0;
        while cy < VISIBLE_ROWS
            invariant
                cy <= 20,
                cx < 10,
                frame.wf(),
                frame.width == assets.background.width,
                frame.height == assets.background.height,
                forall|px: int, py: int|
                    0 <= px < frame.width && 0 <= py < frame.height ==> #[trigger] frame.pix(
                        px,
                        py,
                    ) == partial_pix(*assets, grid, 20 * (cx as int) + cy as int, px, py),
            decreases 20 - cy,
        {
            let ghost frame_before = frame;
            let kind = page.grid[cx + (cy + HIDDEN_ROWS) * GRID_WIDTH];
            match kind {
                BlockKind::Empty => {
                    proof {
                        assert forall|px: int, py: int|
                            0 <= px < frame.width && 0 <= py < frame.height implies #[trigger] frame
                            .pix(px, py) == partial_pix(
                            *assets,
                            grid,
                            20 * (cx as int) + cy as int + 1,
                            px,
                            py,
                        ) by {
                            if on_board(px, py) {
                                lemma_pixel_cell_bounds(px, py);
                            }
                        }
                    }
                },
                _ => {
                    let si = sprite_index(kind);
                    let sprite = &assets.sprites[si];
                    let ox = BOARD_OFFSET_X + cx * TILE_SIZE;
                    let oy = BOARD_OFFSET_Y + cy * TILE_SIZE;
                    blit(&mut frame, sprite, ox, oy);
                    proof {
                        assert forall|px: int, py: int|
                            0 <= px < frame.width && 0 <= py < frame.height implies #[trigger] frame
                            .pix(px, py) == partial_pix(
                            *assets,
                            grid,
                            20 * (cx as int) + cy as int + 1,
                            px,
                            py,
                        ) by {
                            if ox <= px < ox + 23 && oy <= py < oy + 23 {
                                lemma_cell_of_pixel(cx as int, cy as int, px, py);
                            } else if on_board(px, py) {
                                lemma_pixel_cell_bounds(px, py);
                                lemma_cell_of_pixel(
                                    cell_col(px),
                                    cell_row(py),
                                    px,
                                    py,
                                );
                                assert(frame.pix(px, py) == frame_before.pix(px, py));
                            }
                        }
                    }
                },
            }
            cy += 1;
        }
        cx += 1;
    }
    proof {
        assert forall|px: int, py: int|
            0 <= px < frame.width && 0 <= py < frame.height implies #[trigger] frame.pix(px, py)
            == composed_pix(*assets, grid, px, py) by {
            if on_board(px, py) {
                lemma_pixel_cell_bounds(px, py);
            }
        }
        assert forall|i: int| 0 <= i < frame.pixels@.len() implies frame.pixels@[i]
            == composed_pixels(*assets, grid)[i] by {
            lemma_byte_index(frame, i);
        }
        assert(frame.pixels@ =~= composed_pixels(*assets, grid));
    }
    frame
}

/// A page whose grid is entirely empty composites to the background,
/// pixel for pixel.
pub proof fn lemma_empty_grid_transparent(assets: Assets, grid: Seq<BlockKind>)
    requires
        assets.wf(),
        grid.len() == 230,
        forall|i: int| 0 <= i < grid.len() ==> grid[i] is Empty,
    ensures
        composed_pixels(assets, grid) == assets.background.pixels@,
{
    let bg = assets.background;
    assert forall|i: int| 0 <= i < bg.pixels@.len() implies composed_pixels(assets, grid)[i]
        == bg.pixels@[i] by {
        lemma_byte_index(bg, i);
        let px = (i / 4) % (bg.width as int);
        let py = (i / 4) / (bg.width as int);
        if on_board(px, py) {
            lemma_pixel_cell_bounds(px, py);
        }
    }
    assert(composed_pixels(assets, grid) =~= bg.pixels@);
}

/// The tile of visible cell `(cx, cy)` is drawn with its top-left corner
/// at pixel `(124 + 23 * cx, 75 + 23 * cy)`: when the cell holds a
/// non-empty kind, tile pixel `(tx, ty)` of that kind's sprite shows at
/// exactly that offset.
pub proof fn lemma_tile_placement(
    assets: Assets,
    grid: Seq<BlockKind>,
    cx: int,
    cy: int,
    tx: int,
    ty: int,
)
    requires
        assets.wf(),
        grid.len() == 230,
        0 <= cx < 10,
        0 <= cy < 20,
        0 <= tx < 23,
        0 <= ty < 23,
        !(grid_cell(grid, cx, cy) is Empty),
    ensures
        composed_pix(assets, grid, 124 + 23 * cx + tx, 75 + 23 * cy + ty)
            == assets.sprites@[sprite_index_spec(grid_cell(grid, cx, cy))].pix(tx, ty),
{
    lemma_cell_of_pixel(cx, cy, 124 + 23 * cx + tx, 75 + 23 * cy + ty);
}

/// A page with every visible cell set to the same non-empty kind renders
/// two hundred tile placements that cover the board area exactly: every
/// board-area pixel shows its own cell's tile, and belongs to exactly one
/// tile rectangle, with no overlap and no gap.
pub proof fn lemma_full_grid_coverage(assets: Assets, grid: Seq<BlockKind>, kind: BlockKind)
    requires
        assets.wf(),
        grid.len() == 230,
        !(kind is Empty),
        forall|x: int, y: int| 0 <= x < 10 && 0 <= y < 20 ==> grid_cell(grid, x, y) == kind,
    ensures
        forall|px: int, py: int|
            on_board(px, py) ==> #[trigger] composed_pix(assets, grid, px, py)
                == assets.sprites@[sprite_index_spec(kind)].pix(
                px - (124 + 23 * cell_col(px)),
                py - (75 + 23 * cell_row(py)),
            ),
        forall|px: int, py: int|
            on_board(px, py) ==> 0 <= #[trigger] cell_col(px) < 10 && 0 <= #[trigger] cell_row(py)
                < 20 && 124 + 23 * cell_col(px) <= px < 124 + 23 * cell_col(px) + 23 && 75 + 23
                * cell_row(py) <= py < 75 + 23 * cell_row(py) + 23,
{
    assert forall|px: int, py: int| on_board(px, py) implies #[trigger] composed_pix(
        assets,
        grid,
        px,
        py,
    ) == assets.sprites@[sprite_index_spec(kind)].pix(
        px - (124 + 23 * cell_col(px)),
        py - (75 + 23 * cell_row(py)),
    ) by {
        lemma_pixel_cell_bounds(px, py);
        lemma_cell_of_pixel(cell_col(px), cell_row(py), px, py);
    }
    assert forall|px: int, py: int| on_board(px, py) implies 0 <= #[trigger] cell_col(px) < 10 && 0
        <= #[trigger] cell_row(py) < 20 && 124 + 23 * cell_col(px) <= px < 124 + 23 * cell_col(px)
        + 23 && 75 + 23 * cell_row(py) <= py < 75 + 23 * cell_row(py) + 23 by {
        lemma_pixel_cell_bounds(px, py);
    }
}

/// Cells in the three hidden grid rows never influence composited output:
/// two grids that agree on the visible rows composite identically, however
/// the hidden rows differ.
pub proof fn lemma_hidden_rows_excluded(assets: Assets, g1: Seq<BlockKind>, g2: Seq<BlockKind>)
    requires
        assets.wf(),
        g1.len() == 230,
        g2.len() == 230,
        forall|i: int| 30 <= i < 230 ==> g1[i] == g2[i],
    ensures
        composed_pixels(assets, g1) == composed_pixels(assets, g2),
{
    let bg = assets.background;
    assert forall|i: int| 0 <= i < bg.pixels@.len() implies composed_pixels(assets, g1)[i]
        == composed_pixels(assets, g2)[i] by {
        lemma_byte_index(bg, i);
        let px = (i / 4) % (bg.width as int);
        let py = (i / 4) / (bg.width as int);
        if on_board(px, py) {
            lemma_pixel_cell_bounds(px, py);
            assert(30 <= cell_col(px) + (cell_row(py) + 3) * 10 < 230);
        }
    }
    assert(composed_pixels(assets, g1) =~= composed_pixels(assets, g2));
}

} // verus!
