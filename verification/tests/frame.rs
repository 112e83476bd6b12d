use breakout::raster::{blank, light, Raster, LIT, SIZE};
use breakout::wall::{cell, draw_wall_and_paddle, hit_block, is_cleared, BLOCK_LIFE, DIM};

#[test]
fn blank_frame_is_dark() {
    let r = blank();
    assert_eq!(r, [[0u8; 5]; 5]);
    assert_eq!(SIZE, 5);
}

#[test]
fn light_sets_one_led() {
    let mut r = blank();
    light(&mut r, 2, 3);
    let mut expected: Raster = [[0u8; 5]; 5];
    expected[2][3] = LIT;
    assert_eq!(r, expected);
    assert_eq!(LIT, 9);
}

#[test]
fn light_keeps_other_brightness() {
    let mut r: Raster = [[4u8; 5]; 5];
    light(&mut r, 0, 0);
    assert_eq!(r[0][0], 9);
    assert_eq!(r[0][1], 4);
    assert_eq!(r[4][4], 4);
}

#[test]
fn cell_clamps_to_last_column() {
    assert_eq!(cell(0), 0);
    assert_eq!(cell(3), 3);
    assert_eq!(cell(4), 4);
    assert_eq!(cell(5), 4);
    assert_eq!(cell(usize::MAX), 4);
}

#[test]
fn cleared_only_when_every_block_gone() {
    assert!(is_cleared(&[0, 0, 0, 0, 0]));
    assert!(!is_cleared(&[0, 0, 0, 0, 1]));
    assert!(!is_cleared(&[2, 0, 0, 0, 0]));
    assert!(!is_cleared(&[BLOCK_LIFE; 5]));
}

#[test]
fn wall_and_paddle_drawn_in_their_rows() {
    let mut r = blank();
    draw_wall_and_paddle(&mut r, &[1, 0, 2, 0, 0], 1, &[false, false, true, true, true], 4);
    assert_eq!(r[1], [DIM, 0, 9, 0, 0]);
    assert_eq!(DIM, 4);
    assert_eq!(r[4], [0, 0, 9, 9, 9]);
    assert_eq!(r[0], [0; 5]);
    assert_eq!(r[2], [0; 5]);
    assert_eq!(r[3], [0; 5]);
}

#[test]
fn hit_block_takes_one_hit() {
    let mut b = [2u8, 2, 1, 2, 2];
    hit_block(&mut b, 2);
    assert_eq!(b, [2, 2, 0, 2, 2]);
    hit_block(&mut b, 0);
    assert_eq!(b, [1, 2, 0, 2, 2]);
}

#[test]
fn set_brightness_sets_one_led() {
    let mut r = blank();
    breakout::raster::set_brightness(&mut r, 4, 0, 3);
    assert_eq!(r[4], [3, 0, 0, 0, 0]);
    assert_eq!(r[0], [0; 5]);
}

#[test]
fn gone_blocks_leave_the_frame_as_it_was() {
    let mut r: Raster = [[7u8; 5]; 5];
    draw_wall_and_paddle(&mut r, &[0, 1, 2, 3, 0], 3, &[true, false, false, false, false], 0);
    assert_eq!(r[3], [7, DIM, 9, 9, 7]);
    assert_eq!(r[0], [9, 7, 7, 7, 7]);
}
