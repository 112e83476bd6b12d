//! The row of blocks and the paddle: what is shared by every layout of the
//! playing field.

use vstd::prelude::*;
use crate::raster::{Raster, SIZE, LIT, at, light, set_brightness};

verus! {

/// Hits a block takes before it is gone.
pub const BLOCK_LIFE: u8 = 2;

/// Brightness of a block that has taken a hit but is not yet gone.
pub const DIM: u8 = 4;

/// Brightness at which a block with `hits` hits left is drawn: full while
/// it is whole, dimmed once it has been hit, dark once it is gone.
pub open spec fn block_brightness(hits: u8) -> u8 {
    if hits >= BLOCK_LIFE {
        LIT
    } else if hits > 0 {
        DIM
    } else {
        0
    }
}

/// Whether every block is gone.
pub open spec fn cleared(blocks: [u8; 5]) -> bool {
    forall|c: int| 0 <= c < 5 ==> blocks@[c] == 0
}

/// Hits left in the first `n` blocks.
pub open spec fn hits_left_upto(blocks: [u8; 5], n: int) -> int
    decreases n,
{
    if n <= 0 {
        0
    } else {
        hits_left_upto(blocks, n - 1) + blocks@[n - 1]
    }
}

/// Hits left in the whole wall.
pub open spec fn hits_left(blocks: [u8; 5]) -> int {
    hits_left_upto(blocks, 5)
}

/// The wall after the block in column `col` takes one hit.
pub open spec fn worn(blocks: [u8; 5], col: int) -> [u8; 5] {
    vstd::array::spec_array_update(blocks, col, (blocks@[col] - 1) as u8)
}

/// A hit wears one block by one: that block loses a hit, no other changes,
/// and the hits left in the wall drop by one.
pub proof fn lemma_worn(blocks: [u8; 5], col: int)
    requires
        0 <= col < 5,
        blocks@[col] > 0,
    ensures
        forall|c: int|
            0 <= c < 5 ==> #[trigger] worn(blocks, col)@[c] == if c == col {
                blocks@[col] - 1
            } else {
                blocks@[c] as int
            },
        hits_left(worn(blocks, col)) == hits_left(blocks) - 1,
{
    lemma_hits_left_upto_update(blocks, col, (blocks@[col] - 1) as u8, 5);
}

proof fn lemma_hits_left_upto_update(blocks: [u8; 5], col: int, v: u8, n: int)
    requires
        0 <= col < 5,
        0 <= n <= 5,
    ensures
        hits_left_upto(vstd::array::spec_array_update(blocks, col, v), n) == hits_left_upto(
            blocks,
            n,
        ) - (if col < n { blocks@[col] - v } else { 0 }),
    decreases n,
{
    if n > 0 {
        lemma_hits_left_upto_update(blocks, col, v, n - 1);
    }
}

/// No wall has a negative number of hits left.
pub proof fn lemma_hits_left_nonneg(blocks: [u8; 5], n: int)
    requires
        0 <= n <= 5,
    ensures
        hits_left_upto(blocks, n) >= 0,
    decreases n,
{
    if n > 0 {
        lemma_hits_left_nonneg(blocks, n - 1);
    }
}

/// The wall is gone exactly when no hit is left in it, and any standing
/// block keeps it from being gone.
pub proof fn lemma_cleared_iff_no_hits_left(blocks: [u8; 5])
    ensures
        cleared(blocks) <==> hits_left(blocks) == 0,
        forall|c: int| 0 <= c < 5 && #[trigger] blocks@[c] > 0 ==> !cleared(blocks),
{
    lemma_zero_sum(blocks, 5);
}

proof fn lemma_zero_sum(blocks: [u8; 5], n: int)
    requires
        0 <= n <= 5,
    ensures
        hits_left_upto(blocks, n) == 0 <==> forall|c: int| 0 <= c < n ==> blocks@[c] == 0,
    decreases n,
{
    if n > 0 {
        lemma_zero_sum(blocks, n - 1);
        lemma_hits_left_nonneg(blocks, n - 1);
    }
}

/// A wall of five whole blocks has ten hits left.
pub proof fn lemma_full_wall(blocks: [u8; 5])
    requires
        forall|c: int| 0 <= c < 5 ==> blocks@[c] == BLOCK_LIFE,
    ensures
        hits_left(blocks) == 10,
{
    reveal_with_fuel(hits_left_upto, 6);
}

/// The cell index of a rounded coordinate: the field has cells `0..=4`,
/// and a coordinate past the last cell stands in the last one.
pub open spec fn spec_cell(n: usize) -> usize {
    if n > 4 { 4 } else { n }
}

/// A coordinate on the field is its own cell; one past the field stands in
/// the last cell.
pub proof fn cell_clamps(n: usize)
    ensures
        n < 5 ==> spec_cell(n) == n,
        n >= 5 ==> spec_cell(n) == 4,
{
}

/// Clamps a rounded coordinate to a cell index of the field.
pub fn cell(n: usize) -> (c: usize)
    ensures
        c == spec_cell(n),
        c < SIZE,
{
    if n > 4 { 4 } else { n }
}

/// Whether every block is gone.
pub fn is_cleared(blocks: &[u8; 5]) -> (r: bool)
    ensures
        r == cleared(*blocks),
{
    let mut c: usize = 0;
    while c < 5
        invariant
            c <= 5,
            forall|k: int| 0 <= k < c ==> blocks@[k] == 0,
        decreases 5 - c,
    {
        if blocks[c] != 0 {
            return false;
        }
        c = c + 1;
    }
    true
}

/// `after` is `before` with these LEDs set: where `ball_shown`, the ball's
/// cell `(ball_row, ball_col)` at full brightness; otherwise, in row `row`,
/// each column whose block is left at that block's brightness; in row
/// `paddle_row`, each column that `cover` marks at full brightness. Every
/// other LED keeps its brightness.
pub open spec fn shows(
    before: Raster,
    after: Raster,
    blocks: [u8; 5],
    row: int,
    cover: [bool; 5],
    paddle_row: int,
    ball_shown: bool,
    ball_row: int,
    ball_col: int,
) -> bool {
    forall|i: int, j: int|
        0 <= i < 5 && 0 <= j < 5 ==> at(after, i, j) == if ball_shown && i == ball_row && j
            == ball_col {
            LIT
        } else if i == row && blocks@[j] > 0 {
            block_brightness(blocks@[j])
        } else if i == paddle_row && cover@[j] {
            LIT
        } else {
            at(before, i, j)
        }
}

/// What a drawn frame shows in one LED: the ball's cell at full
/// brightness; elsewhere, in the block row, a whole block at full
/// brightness, a block with one hit left at a brightness strictly between
/// dark and full, and a gone block's LED as it was; in the paddle row, the
/// paddle's columns at full brightness and the others as they were; every
/// other row as it was.
pub proof fn frame_cell(
    before: Raster,
    after: Raster,
    blocks: [u8; 5],
    row: int,
    cover: [bool; 5],
    paddle_row: int,
    ball_shown: bool,
    ball_row: int,
    ball_col: int,
    i: int,
    j: int,
)
    requires
        shows(before, after, blocks, row, cover, paddle_row, ball_shown, ball_row, ball_col),
        row != paddle_row,
        0 <= i < 5,
        0 <= j < 5,
    ensures
        ball_shown && i == ball_row && j == ball_col ==> at(after, i, j) == 9,
        !(ball_shown && i == ball_row && j == ball_col) ==> {
            &&& i == row && blocks@[j] >= 2 ==> at(after, i, j) == 9
            &&& i == row && blocks@[j] == 1 ==> 0 < at(after, i, j) < 9
            &&& i == row && blocks@[j] == 0 ==> at(after, i, j) == at(before, i, j)
            &&& i == paddle_row && cover@[j] ==> at(after, i, j) == 9
            &&& i == paddle_row && !cover@[j] ==> at(after, i, j) == at(before, i, j)
            &&& i != row && i != paddle_row ==> at(after, i, j) == at(before, i, j)
        },
{
}

/// Draws the blocks that are left in row `row`, each at its brightness, and
/// the paddle in row `paddle_row`, over the columns that `cover` marks.
pub fn draw_wall_and_paddle(
    raster: &mut Raster,
    blocks: &[u8; 5],
    row: usize,
    cover: &[bool; 5],
    paddle_row: usize,
)
    requires
        row < SIZE,
        paddle_row < SIZE,
        row != paddle_row,
    ensures
        shows(*old(raster), *final(raster), *blocks, row as int, *cover, paddle_row as int, false, 0, 0),
{
    let ghost start = *raster;
    let mut c: usize = 0;
    while c < 5
        invariant
            c <= 5,
            row < 5,
            paddle_row < 5,
            row != paddle_row,
            forall|i: int, j: int|
                0 <= i < 5 && 0 <= j < 5 ==> at(*raster, i, j) == if j < c && i == row
                    && blocks@[j] > 0 {
                    block_brightness(blocks@[j])
                } else if j < c && i == paddle_row && cover@[j] {
                    LIT
                } else {
                    at(start, i, j)
                },
        decreases 5 - c,
    {
        if blocks[c] >= BLOCK_LIFE {
            light(raster, row, c);
        } else if blocks[c] > 0 {
            set_brightness(raster, row, c, DIM);
        }
        if cover[c] {
            light(raster, paddle_row, c);
        }
        c = c + 1;
    }
}

/// Takes one hit off the block in column `col`.
pub fn hit_block(blocks: &mut [u8; 5], col: usize)
    requires
        col < SIZE,
        old(blocks)@[col as int] > 0,
    ensures
        *final(blocks) == worn(*old(blocks), col as int),
{
    blocks[col] = blocks[col] - 1;
    assert(*blocks =~= worn(*old(blocks), col as int));
}

} // verus!
