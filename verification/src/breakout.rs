//! The rules of the classic layout of the game: the paddle in row 0, the
//! blocks in row 3, and a ball that bounces off every edge of the field, so
//! that the game ends only when the wall is gone.

use vstd::prelude::*;
use crate::raster::{Raster, light};
use crate::wall::{
    BLOCK_LIFE, cleared, hits_left, worn, lemma_worn, lemma_full_wall, lemma_hits_left_nonneg,
    lemma_cleared_iff_no_hits_left, spec_cell, shows, cell,
    is_cleared, draw_wall_and_paddle, hit_block,
};

verus! {

/// Row of the blocks.
pub const BLOCK_ROW: usize = 3;

/// Row of the paddle.
pub const PADDLE_ROW: usize = 0;

/// Balls a game starts with.
pub const BALLS: u8 = 3;

/// Where the ball stands after it has moved, and what the frame is to show.
pub struct Observation {
    /// The ball's row coordinate, rounded to the nearest whole number.
    pub row: usize,
    /// The ball's column coordinate, rounded to the nearest whole number.
    pub col: usize,
    /// Whether the ball's row coordinate is outside `0.001..=4.999`.
    pub row_off_field: bool,
    /// Whether the ball's column coordinate is outside `0.001..=4.999`.
    pub col_off_field: bool,
    /// Whether the ball's column coordinate is within half a paddle width of
    /// the paddle's centre.
    pub over_paddle: bool,
    /// For each column, whether it lies within half a paddle width of the
    /// paddle's centre.
    pub paddle: [bool; 5],
}

/// What one step decided.
pub struct Outcome {
    /// Every block is gone.
    pub finished: bool,
    /// The ball's row direction turns around.
    pub flip_row: bool,
    /// The ball's column direction turns around.
    pub flip_col: bool,
    /// The ball hit a block.
    pub block_hit: bool,
}

/// The discrete state of a game in this layout: the hits left in each block
/// and the number of balls.
pub struct Board {
    blocks: [u8; 5],
    ball_count: u8,
}

impl Board {
    /// Hits left in each block.
    pub closed spec fn wall(self) -> [u8; 5] {
        self.blocks
    }

    /// Number of balls.
    pub closed spec fn balls(self) -> u8 {
        self.ball_count
    }

    /// The ball stands in the block row over a block that is left, and is
    /// not off the field's top or bottom edge.
    pub open spec fn hits_block(self, obs: Observation) -> bool {
        &&& !obs.row_off_field
        &&& spec_cell(obs.row) == BLOCK_ROW
        &&& self.wall()@[spec_cell(obs.col) as int] > 0
    }

    /// The ball stands in the paddle row over the paddle.
    pub open spec fn returned(obs: Observation) -> bool {
        spec_cell(obs.row) == PADDLE_ROW && obs.over_paddle
    }

    /// The wall after the step.
    pub open spec fn wall_after(self, obs: Observation) -> [u8; 5] {
        if self.hits_block(obs) {
            worn(self.wall(), spec_cell(obs.col) as int)
        } else {
            self.wall()
        }
    }

    /// Whether the ball's row direction turns around in the step.
    pub open spec fn row_turns(self, obs: Observation) -> bool {
        obs.row_off_field || self.hits_block(obs) || Self::returned(obs)
    }

    /// Whether the game is over after the step.
    pub open spec fn ends_game(self, obs: Observation) -> bool {
        cleared(self.wall_after(obs))
    }

    /// The board after the step: only the wall changes.
    pub closed spec fn next(self, obs: Observation) -> Board {
        Board { blocks: self.wall_after(obs), ball_count: self.ball_count }
    }

    /// Hits left in each block.
    pub fn blocks(&self) -> (b: [u8; 5])
        ensures
            b == self.wall(),
    {
        self.blocks
    }

    /// Number of balls.
    pub fn ball_count(&self) -> (n: u8)
        ensures
            n == self.balls(),
    {
        self.ball_count
    }

    /// Applies the rules to one move of the ball and draws the frame.
    ///
    /// In order: a ball off the field's top or bottom edge bounces; otherwise
    /// a ball on a block takes a hit off it and bounces; otherwise a ball on
    /// the paddle bounces. A ball off a side edge bounces sideways. The frame
    /// gets the blocks that are left (whole ones at full brightness, hit ones
    /// dimmed), the paddle and, drawn over them, the ball. The game is
    /// finished when the wall is gone.
    pub fn step(&mut self, raster: &mut Raster, obs: &Observation) -> (out: Outcome)
        ensures
            out.finished == cleared(final(self).wall()),
            out.block_hit == old(self).hits_block(*obs),
            out.flip_row == old(self).row_turns(*obs),
            out.finished == old(self).ends_game(*obs),
            out.flip_row == (obs.row_off_field || old(self).hits_block(*obs) || Self::returned(
                *obs,
            )),
            out.flip_col == obs.col_off_field,
            *final(self) == old(self).next(*obs),
            final(self).wall() == old(self).wall_after(*obs),
            final(self).balls() == old(self).balls(),
            shows(
                *old(raster),
                *final(raster),
                final(self).wall(),
                BLOCK_ROW as int,
                obs.paddle,
                PADDLE_ROW as int,
                true,
                spec_cell(obs.row) as int,
                spec_cell(obs.col) as int,
            ),
    {
        let ur = cell(obs.row);
        let uc = cell(obs.col);
        let mut flip_row = false;
        let mut block_hit = false;
        if obs.row_off_field {
            flip_row = true;
        } else if ur == BLOCK_ROW && self.blocks[uc] > 0 {
            hit_block(&mut self.blocks, uc);
            flip_row = true;
            block_hit = true;
        } else if ur == PADDLE_ROW && obs.over_paddle {
            flip_row = true;
        }
        let flip_col = obs.col_off_field;
        draw_wall_and_paddle(raster, &self.blocks, BLOCK_ROW, &obs.paddle, PADDLE_ROW);
        light(raster, ur, uc);
        let finished = is_cleared(&self.blocks);
        Outcome { finished, flip_row, flip_col, block_hit }
    }
}

impl Default for Board {
    /// A new game: every block at full life, three balls.
    fn default() -> (board: Self)
        ensures
            forall|c: int| 0 <= c < 5 ==> board.wall()@[c] == BLOCK_LIFE,
            board.balls() == BALLS,
    {
        Board { blocks: [BLOCK_LIFE; 5], ball_count: BALLS }
    }
}

/// The board after playing `obs` in order.
pub open spec fn run(board: Board, obs: Seq<Observation>) -> Board
    decreases obs.len(),
{
    if obs.len() == 0 {
        board
    } else {
        run(board, obs.drop_last()).next(obs.last())
    }
}

/// Steps of `obs` in which the ball hits a block.
pub open spec fn hits_during(board: Board, obs: Seq<Observation>) -> int
    decreases obs.len(),
{
    if obs.len() == 0 {
        0
    } else {
        hits_during(board, obs.drop_last()) + if run(board, obs.drop_last()).hits_block(
            obs.last(),
        ) {
            1int
        } else {
            0
        }
    }
}

/// A step only wears the wall down: no block gains a hit, the hits left in
/// the whole wall drop by one when the ball hits a block and stay put
/// otherwise, and the number of balls never changes.
pub proof fn step_wears_wall(board: Board, obs: Observation)
    ensures
        board.next(obs).wall() == board.wall_after(obs),
        forall|c: int| 0 <= c < 5 ==> #[trigger] board.next(obs).wall()@[c] <= board.wall()@[c],
        hits_left(board.next(obs).wall()) == hits_left(board.wall()) - if board.hits_block(obs) {
            1int
        } else {
            0
        },
        board.next(obs).balls() == board.balls(),
{
    if board.hits_block(obs) {
        lemma_worn(board.wall(), spec_cell(obs.col) as int);
    }
}

/// Once the wall is gone no block can be hit and the wall stays gone, so
/// every further step reports the game finished.
pub proof fn cleared_wall_stays_cleared(board: Board, obs: Observation)
    requires
        cleared(board.wall()),
    ensures
        !board.hits_block(obs),
        cleared(board.next(obs).wall()),
{
}

/// Over any run of steps the hits made plus the hits left are the hits
/// there were; a game from a full wall therefore sees at most ten hits.
pub proof fn run_is_bounded(board: Board, obs: Seq<Observation>)
    ensures
        hits_during(board, obs) + hits_left(run(board, obs).wall()) == hits_left(board.wall()),
        (forall|c: int| 0 <= c < 5 ==> board.wall()@[c] == BLOCK_LIFE) ==> hits_during(board, obs)
            <= 10,
    decreases obs.len(),
{
    if obs.len() > 0 {
        run_is_bounded(board, obs.drop_last());
        step_wears_wall(run(board, obs.drop_last()), obs.last());
    }
    if forall|c: int| 0 <= c < 5 ==> board.wall()@[c] == BLOCK_LIFE {
        lemma_full_wall(board.wall());
    }
    lemma_hits_left_nonneg(run(board, obs).wall(), 5);
}

/// A ball inside the field's top and bottom edges in the block row over a
/// block with hits left always hits that block, whether or not it is in a
/// column under the paddle: the block loses exactly one hit, no other block
/// changes, and the ball's row direction turns around.
pub proof fn block_in_the_way_is_hit(board: Board, obs: Observation)
    requires
        !obs.row_off_field,
        spec_cell(obs.row) == 3,
        board.wall()@[spec_cell(obs.col) as int] > 0,
    ensures
        board.hits_block(obs),
        board.row_turns(obs),
        forall|c: int|
            0 <= c < 5 ==> #[trigger] board.wall_after(obs)@[c] == if c == spec_cell(obs.col) {
                board.wall()@[c] - 1
            } else {
                board.wall()@[c] as int
            },
        hits_left(board.wall_after(obs)) == hits_left(board.wall()) - 1,
        (!board.ends_game(obs)) <==> hits_left(board.wall()) > 1,
{
    lemma_worn(board.wall(), spec_cell(obs.col) as int);
    lemma_cleared_iff_no_hits_left(board.wall_after(obs));
    lemma_hits_left_nonneg(board.wall_after(obs), 5);
}

/// Without a ball on a standing block in the block row (or with the ball off
/// the top or bottom edge), no block is hit and the wall stays as it was.
pub proof fn no_block_no_hit(board: Board, obs: Observation)
    requires
        obs.row_off_field || spec_cell(obs.row) != 3 || board.wall()@[spec_cell(obs.col) as int]
            == 0,
    ensures
        !board.hits_block(obs),
        board.wall_after(obs) == board.wall(),
{
}

/// The ball's row direction turns around exactly when it is off the top or
/// bottom edge, on a standing block in the block row, or over the paddle in
/// the paddle row.
pub proof fn row_turn_causes(board: Board, obs: Observation)
    ensures
        board.row_turns(obs) <==> (obs.row_off_field || (spec_cell(obs.row) == 3
            && board.wall()@[spec_cell(obs.col) as int] > 0) || (spec_cell(obs.row) == 0
            && obs.over_paddle)),
{
}

/// The game is over after a step exactly when no block has a hit left.
pub proof fn game_end_causes(board: Board, obs: Observation)
    ensures
        board.ends_game(obs) <==> hits_left(board.wall_after(obs)) == 0,
{
    lemma_cleared_iff_no_hits_left(board.wall_after(obs));
}

} // verus!
