use breakout::breakout::{Board, Observation, BALLS, BLOCK_ROW, PADDLE_ROW};
use breakout::raster::blank;
use breakout::wall::DIM;

fn at(row: usize, col: usize) -> Observation {
    Observation {
        row,
        col,
        row_off_field: false,
        col_off_field: false,
        over_paddle: false,
        paddle: [true, true, false, false, false],
    }
}

#[test]
fn default_board_is_full() {
    let b = Board::default();
    assert_eq!(b.blocks(), [2; 5]);
    assert_eq!(b.ball_count(), BALLS);
    assert_eq!(BLOCK_ROW, 3);
    assert_eq!(PADDLE_ROW, 0);
}

#[test]
fn classic_frame_has_paddle_on_top_and_wall_on_row_three() {
    let mut b = Board::default();
    let mut r = blank();
    let out = b.step(&mut r, &at(2, 4));
    assert!(!out.finished && !out.flip_row && !out.flip_col && !out.block_hit);
    assert_eq!(r[0], [9, 9, 0, 0, 0]);
    assert_eq!(r[1], [0; 5]);
    assert_eq!(r[2], [0, 0, 0, 0, 9]);
    assert_eq!(r[3], [9; 5]);
    assert_eq!(r[4], [0; 5]);
}

#[test]
fn classic_block_hit_and_bounce() {
    let mut b = Board::default();
    let mut r = blank();
    let out = b.step(&mut r, &at(3, 1));
    assert!(out.block_hit && out.flip_row);
    assert_eq!(b.blocks(), [2, 1, 2, 2, 2]);
    assert_eq!(r[3], [9; 5]);
}

#[test]
fn classic_edge_bounce_comes_first() {
    let mut b = Board::default();
    let mut obs = at(3, 1);
    obs.row_off_field = true;
    obs.col_off_field = true;
    let out = b.step(&mut blank(), &obs);
    assert!(out.flip_row && out.flip_col && !out.block_hit);
    assert_eq!(b.blocks(), [2; 5]);
}

#[test]
fn classic_paddle_returns_only_in_its_row() {
    let mut b = Board::default();
    let mut obs = at(0, 1);
    obs.over_paddle = true;
    assert!(b.step(&mut blank(), &obs).flip_row);
    let mut obs = at(1, 1);
    obs.over_paddle = true;
    assert!(!b.step(&mut blank(), &obs).flip_row);
    assert!(!b.step(&mut blank(), &at(0, 1)).flip_row);
}

#[test]
fn classic_game_ends_when_wall_is_gone() {
    let mut b = Board::default();
    let mut hits = 0;
    for i in 0..100usize {
        let out = b.step(&mut blank(), &at(3, i % 7));
        if out.block_hit {
            hits += 1;
        }
        assert_eq!(out.finished, hits == 10);
        assert_eq!(b.ball_count(), 3);
    }
    assert_eq!(hits, 10);
    assert_eq!(b.blocks(), [0; 5]);
}

#[test]
fn classic_hit_block_is_drawn_dimmed() {
    let mut b = Board::default();
    b.step(&mut blank(), &at(3, 2));
    let mut r = blank();
    b.step(&mut r, &at(1, 1));
    assert_eq!(r[3], [9, 9, DIM, 9, 9]);
    assert_eq!(r[1], [0, 9, 0, 0, 0]);
}
