//! The rules of the game: a wall of blocks in row 1, the paddle in row 4,
//! and a reserve of balls that is used up when the ball gets past the
//! paddle while the paddle follows the buttons rather than the knob.

use vstd::prelude::*;
use crate::raster::{Raster, light};
use crate::wall::{
    BLOCK_LIFE, cleared, hits_left, worn, lemma_worn, lemma_full_wall, lemma_hits_left_nonneg,
    lemma_cleared_iff_no_hits_left, spec_cell, shows, cell,
    is_cleared, draw_wall_and_paddle, hit_block,
};

verus! {

/// Row of the blocks.
pub const BLOCK_ROW: usize = 1;

/// Row of the paddle.
pub const PADDLE_ROW: usize = 4;

/// Balls in reserve at the start of a game.
pub const BALLS: u8 = 3;

/// Where the ball stands after it has moved, and what the frame is to show:
/// everything about the ball's flight that the rules look at.
pub struct Observation {
    /// The ball's row coordinate, rounded to the nearest whole number.
    pub row: usize,
    /// The ball's column coordinate, rounded to the nearest whole number.
    pub col: usize,
    /// Whether the knob is steering the paddle.
    pub knob_present: bool,
    /// Whether the ball is below row 4.25 and still moving down.
    pub escaping: bool,
    /// Whether the ball's row coordinate is outside `0.001..=4.999`.
    pub row_off_field: bool,
    /// Whether the ball's column coordinate is outside `0.001..=4.999`.
    pub col_off_field: bool,
    /// Whether the ball is above row 1.5, moving down, and within half a
    /// paddle width of the paddle's centre.
    pub paddle_return: bool,
    /// For each column, whether it lies within half a paddle width of the
    /// paddle's centre.
    pub paddle: [bool; 5],
}

/// What one step decided.
pub struct Outcome {
    /// The game is over: the last ball was lost or every block is gone.
    pub finished: bool,
    /// The ball's row direction turns around.
    pub flip_row: bool,
    /// The ball's column direction turns around.
    pub flip_col: bool,
    /// A ball was lost and the next one is served from the start position.
    pub new_ball: bool,
    /// The ball hit a block.
    pub block_hit: bool,
}

/// The discrete state of a game: the hits left in each block and the balls
/// in reserve.
pub struct Board {
    blocks: [u8; 5],
    ball_count: u8,
}

/// Whether the ball gets past the paddle: it is escaping while the buttons,
/// not the knob, steer the paddle.
pub open spec fn ball_escapes(obs: Observation) -> bool {
    !obs.knob_present && obs.escaping
}

impl Board {
    /// Hits left in each block.
    pub closed spec fn wall(self) -> [u8; 5] {
        self.blocks
    }

    /// Balls in reserve.
    pub closed spec fn balls(self) -> u8 {
        self.ball_count
    }

    /// Every block has at most its starting life and the reserve at most its
    /// starting size.
    pub open spec fn wf(self) -> bool {
        &&& forall|c: int| 0 <= c < 5 ==> self.wall()@[c] <= BLOCK_LIFE
        &&& self.balls() <= BALLS
    }

    /// The ball gets past the paddle with no ball left in reserve.
    pub open spec fn out_of_balls(self, obs: Observation) -> bool {
        ball_escapes(obs) && self.balls() == 0
    }

    /// The ball stands in the block row over a block that is left, and no
    /// earlier rule (escape, wall bounce) applies.
    pub open spec fn hits_block(self, obs: Observation) -> bool {
        &&& !ball_escapes(obs)
        &&& !obs.row_off_field
        &&& spec_cell(obs.row) == BLOCK_ROW
        &&& self.wall()@[spec_cell(obs.col) as int] > 0
    }

    /// The wall after the step.
    pub open spec fn wall_after(self, obs: Observation) -> [u8; 5] {
        if self.hits_block(obs) {
            worn(self.wall(), spec_cell(obs.col) as int)
        } else {
            self.wall()
        }
    }

    /// The reserve after the step.
    pub open spec fn balls_after(self, obs: Observation) -> u8 {
        if ball_escapes(obs) && self.balls() > 0 {
            (self.balls() - 1) as u8
        } else {
            self.balls()
        }
    }

    /// Whether the ball's row direction turns around in the step.
    pub open spec fn row_turns(self, obs: Observation) -> bool {
        !ball_escapes(obs) && (obs.row_off_field || self.hits_block(obs) || obs.paddle_return)
    }

    /// Whether the ball's column direction turns around in the step.
    pub open spec fn col_turns(self, obs: Observation) -> bool {
        !self.out_of_balls(obs) && obs.col_off_field
    }

    /// Whether the step serves a new ball in place of a lost one.
    pub open spec fn serves_new_ball(self, obs: Observation) -> bool {
        ball_escapes(obs) && self.balls() > 0
    }

    /// Whether the game is over after the step.
    pub open spec fn ends_game(self, obs: Observation) -> bool {
        self.out_of_balls(obs) || cleared(self.wall_after(obs))
    }

    /// The board after the step.
    pub closed spec fn next(self, obs: Observation) -> Board {
        Board { blocks: self.wall_after(obs), ball_count: self.balls_after(obs) }
    }

    /// A new game: every block at full life, a full reserve of balls.
    pub fn new() -> (board: Self)
        ensures
            forall|c: int| 0 <= c < 5 ==> board.wall()@[c] == BLOCK_LIFE,
            board.balls() == BALLS,
            board.wf(),
    {
        Board { blocks: [BLOCK_LIFE; 5], ball_count: BALLS }
    }

    /// Hits left in each block.
    pub fn blocks(&self) -> (b: [u8; 5])
        ensures
            b == self.wall(),
    {
        self.blocks
    }

    /// Balls in reserve.
    pub fn ball_count(&self) -> (n: u8)
        ensures
            n == self.balls(),
    {
        self.ball_count
    }

    /// Applies the rules to one move of the ball and draws the frame.
    ///
    /// In order: a ball that gets past the paddle is lost, or ends the game
    /// when none is left in reserve (then nothing is drawn); otherwise a ball
    /// off the field's top or bottom edge bounces; otherwise a ball on a block
    /// takes a hit off it and bounces; otherwise a ball the paddle returns
    /// bounces. A ball off a side edge bounces sideways. The frame gets the
    /// blocks that are left (whole ones at full brightness, hit ones
    /// dimmed), the paddle, and, drawn over them, the ball unless a new one
    /// is served. The game is finished when the last ball is lost or the wall is
    /// gone.
    pub fn step(&mut self, raster: &mut Raster, obs: &Observation) -> (out: Outcome)
        ensures
            out.finished == (old(self).out_of_balls(*obs) || cleared(final(self).wall())),
            out.new_ball == (ball_escapes(*obs) && old(self).balls() > 0),
            out.block_hit == old(self).hits_block(*obs),
            out.finished == old(self).ends_game(*obs),
            out.new_ball == old(self).serves_new_ball(*obs),
            out.flip_row == old(self).row_turns(*obs),
            out.flip_col == old(self).col_turns(*obs),
            out.flip_row == (!ball_escapes(*obs) && (obs.row_off_field || old(self).hits_block(
                *obs,
            ) || obs.paddle_return)),
            out.flip_col == (!old(self).out_of_balls(*obs) && obs.col_off_field),
            *final(self) == old(self).next(*obs),
            final(self).wall() == old(self).wall_after(*obs),
            final(self).balls() == old(self).balls_after(*obs),
            old(self).out_of_balls(*obs) ==> *final(raster) == *old(raster),
            !old(self).out_of_balls(*obs) ==> shows(
                *old(raster),
                *final(raster),
                final(self).wall(),
                BLOCK_ROW as int,
                obs.paddle,
                PADDLE_ROW as int,
                !out.new_ball,
                spec_cell(obs.row) as int,
                spec_cell(obs.col) as int,
            ),
    {
        let ur = cell(obs.row);
        let uc = cell(obs.col);
        let mut flip_row = false;
        let mut new_ball = false;
        let mut block_hit = false;
        if !obs.knob_present && obs.escaping {
            if self.ball_count > 0 {
                self.ball_count = self.ball_count - 1;
                new_ball = true;
            } else {
                return Outcome {
                    finished: true,
                    flip_row: false,
                    flip_col: false,
                    new_ball: false,
                    block_hit: false,
                };
            }
        } else if obs.row_off_field {
            flip_row = true;
        } else if ur == BLOCK_ROW && self.blocks[uc] > 0 {
            hit_block(&mut self.blocks, uc);
            flip_row = true;
            block_hit = true;
        } else if obs.paddle_return {
            flip_row = true;
        }
        let flip_col = obs.col_off_field;
        draw_wall_and_paddle(raster, &self.blocks, BLOCK_ROW, &obs.paddle, PADDLE_ROW);
        if !new_ball {
            light(raster, ur, uc);
        }
        let finished = is_cleared(&self.blocks);
        Outcome { finished, flip_row, flip_col, new_ball, block_hit }
    }
}

/// The board after playing `obs` in order.
pub open spec fn run(board: Board, obs: Seq<Observation>) -> Board
    decreases obs.len(),
{
    if obs.len() == 0 {
        board
    } else {
        run(board, obs.drop_last()).next(obs.last())
    }
}

/// Steps of `obs` in which the ball hits a block.
pub open spec fn hits_during(board: Board, obs: Seq<Observation>) -> int
    decreases obs.len(),
{
    if obs.len() == 0 {
        0
    } else {
        hits_during(board, obs.drop_last()) + if run(board, obs.drop_last()).hits_block(
            obs.last(),
        ) {
            1int
        } else {
            0
        }
    }
}

/// Steps of `obs` in which a ball is lost and a new one served.
pub open spec fn losses_during(board: Board, obs: Seq<Observation>) -> int
    decreases obs.len(),
{
    if obs.len() == 0 {
        0
    } else {
        losses_during(board, obs.drop_last()) + if ball_escapes(obs.last()) && run(
            board,
            obs.drop_last(),
        ).balls() > 0 {
            1int
        } else {
            0
        }
    }
}

/// A step only wears the wall down: no block gains a hit, and the hits left
/// in the whole wall drop by one when the ball hits a block and stay put
/// otherwise.
pub proof fn step_wears_wall(board: Board, obs: Observation)
    ensures
        board.next(obs).wall() == board.wall_after(obs),
        forall|c: int| 0 <= c < 5 ==> #[trigger] board.next(obs).wall()@[c] <= board.wall()@[c],
        hits_left(board.next(obs).wall()) == hits_left(board.wall()) - if board.hits_block(obs) {
            1int
        } else {
            0
        },
{
    if board.hits_block(obs) {
        lemma_worn(board.wall(), spec_cell(obs.col) as int);
    }
}

/// The reserve of balls never grows, and it shrinks by one exactly when a
/// lost ball is replaced by a new one.
pub proof fn step_spends_balls(board: Board, obs: Observation)
    ensures
        board.next(obs).balls() == board.balls_after(obs),
        board.next(obs).balls() <= board.balls(),
        board.next(obs).balls() == board.balls() - if ball_escapes(obs) && board.balls() > 0 {
            1int
        } else {
            0
        },
{
}

/// Every board reached from a new game has blocks no stronger than at the
/// start and no more balls than at the start.
pub proof fn step_keeps_wf(board: Board, obs: Observation)
    requires
        board.wf(),
    ensures
        board.next(obs).wf(),
{
    step_wears_wall(board, obs);
}

/// Once the wall is gone no block can be hit, the wall stays gone, and so
/// every further step reports the game finished.
pub proof fn cleared_wall_stays_cleared(board: Board, obs: Observation)
    requires
        cleared(board.wall()),
    ensures
        !board.hits_block(obs),
        cleared(board.next(obs).wall()),
{
}

/// Over any run of steps, each block hit uses up one of the wall's hits and
/// each lost ball one ball of the reserve: the hits made plus the hits left
/// are the hits there were, and the balls lost plus the balls left are the
/// balls there were.
pub proof fn run_is_bounded(board: Board, obs: Seq<Observation>)
    ensures
        hits_during(board, obs) + hits_left(run(board, obs).wall()) == hits_left(board.wall()),
        losses_during(board, obs) + run(board, obs).balls() == board.balls(),
        board.wf() ==> run(board, obs).wf(),
    decreases obs.len(),
{
    if obs.len() > 0 {
        run_is_bounded(board, obs.drop_last());
        let before = run(board, obs.drop_last());
        step_wears_wall(before, obs.last());
        step_spends_balls(before, obs.last());
        if board.wf() {
            step_keeps_wf(before, obs.last());
        }
    }
}

/// A game from a new board hits blocks at most ten times (five blocks of two
/// hits) and loses at most three balls, whatever the ball does.
pub proof fn new_game_is_bounded(board: Board, obs: Seq<Observation>)
    requires
        forall|c: int| 0 <= c < 5 ==> board.wall()@[c] == BLOCK_LIFE,
        board.balls() == BALLS,
    ensures
        hits_during(board, obs) <= 10,
        losses_during(board, obs) <= 3,
{
    run_is_bounded(board, obs);
    if forall|c: int| 0 <= c < 5 ==> board.wall()@[c] == BLOCK_LIFE {
        lemma_full_wall(board.wall());
    }
    lemma_hits_left_nonneg(run(board, obs).wall(), 5);
}

/// A ball that is in play, inside the field's top and bottom edges and in
/// the block row over a block with hits left always hits that block, whatever
/// the paddle is doing: the block loses exactly one hit, no other block
/// changes, and the ball's row direction turns around.
pub proof fn block_in_the_way_is_hit(board: Board, obs: Observation)
    requires
        obs.knob_present || !obs.escaping,
        !obs.row_off_field,
        spec_cell(obs.row) == 1,
        board.wall()@[spec_cell(obs.col) as int] > 0,
    ensures
        board.hits_block(obs),
        board.row_turns(obs),
        forall|c: int|
            0 <= c < 5 ==> #[trigger] board.wall_after(obs)@[c] == if c == spec_cell(obs.col) {
                board.wall()@[c] - 1
            } else {
                board.wall()@[c] as int
            },
        hits_left(board.wall_after(obs)) == hits_left(board.wall()) - 1,
        !board.ends_game(obs) <==> hits_left(board.wall()) > 1,
{
    lemma_worn(board.wall(), spec_cell(obs.col) as int);
    lemma_cleared_iff_no_hits_left(board.wall_after(obs));
    lemma_hits_left_nonneg(board.wall_after(obs), 5);
}

/// Without a ball on a standing block in the block row (or with the ball
/// lost or off the top or bottom edge), no block is hit and the wall stays
/// as it was.
pub proof fn no_block_no_hit(board: Board, obs: Observation)
    requires
        (!obs.knob_present && obs.escaping) || obs.row_off_field || spec_cell(obs.row) != 1
            || board.wall()@[spec_cell(obs.col) as int] == 0,
    ensures
        !board.hits_block(obs),
        board.wall_after(obs) == board.wall(),
{
}

/// The ball's row direction turns around exactly when the ball is still in
/// play and it is off the top or bottom edge, on a standing block in the
/// block row, or returned by the paddle.
pub proof fn row_turn_causes(board: Board, obs: Observation)
    ensures
        board.row_turns(obs) <==> (!(!obs.knob_present && obs.escaping) && (obs.row_off_field
            || obs.paddle_return || (spec_cell(obs.row) == 1 && board.wall()@[spec_cell(
            obs.col,
        ) as int] > 0))),
{
}

/// The ball's column direction turns around exactly when it is off a side
/// edge, unless the last ball was just lost.
pub proof fn col_turn_causes(board: Board, obs: Observation)
    ensures
        board.col_turns(obs) <==> (obs.col_off_field && !(!obs.knob_present && obs.escaping
            && board.balls() == 0)),
{
}

/// While the knob steers, no ball is ever lost; without it, an escaping ball
/// costs exactly one ball of the reserve, or the game when none is left; a
/// ball that is not escaping costs nothing.
pub proof fn ball_loss_rules(board: Board, obs: Observation)
    ensures
        obs.knob_present ==> !board.serves_new_ball(obs) && !board.out_of_balls(obs)
            && board.balls_after(obs) == board.balls(),
        !obs.escaping ==> !board.serves_new_ball(obs) && !board.out_of_balls(obs)
            && board.balls_after(obs) == board.balls(),
        !obs.knob_present && obs.escaping && board.balls() > 0 ==> board.serves_new_ball(obs)
            && board.balls_after(obs) == board.balls() - 1 && !board.ends_game(obs) == (hits_left(
            board.wall(),
        ) > 0),
        !obs.knob_present && obs.escaping && board.balls() == 0 ==> board.ends_game(obs)
            && board.balls_after(obs) == 0 && board.wall_after(obs) == board.wall(),
{
    lemma_cleared_iff_no_hits_left(board.wall());
    lemma_hits_left_nonneg(board.wall(), 5);
}

/// The game is over after a step exactly when the last ball was lost or no
/// block has a hit left.
pub proof fn game_end_causes(board: Board, obs: Observation)
    ensures
        board.ends_game(obs) <==> ((!obs.knob_present && obs.escaping && board.balls() == 0)
            || hits_left(board.wall_after(obs)) == 0),
{
    lemma_cleared_iff_no_hits_left(board.wall_after(obs));
}

} // verus!
