//! The LED frame: a 5×5 array of brightness values, row-major, with
//! `(0, 0)` at the top left.

use vstd::prelude::*;

verus! {

/// Number of rows and of columns of the LED matrix.
pub const SIZE: usize = 5;

/// Brightness of a lit LED.
pub const LIT: u8 = 9;

/// LED array proxy for rendering.
pub type Raster = [[u8; 5]; 5];

/// Brightness of the LED in row `i`, column `j`.
pub open spec fn at(raster: Raster, i: int, j: int) -> u8 {
    raster@[i]@[j]
}

/// A frame with every LED dark.
pub fn blank() -> (raster: Raster)
    ensures
        forall|i: int, j: int| 0 <= i < 5 && 0 <= j < 5 ==> at(raster, i, j) == 0,
{
    [[0u8; 5]; 5]
}

/// Lights the LED in row `row`, column `col` at full brightness.
pub fn light(raster: &mut Raster, row: usize, col: usize)
    requires
        row < SIZE,
        col < SIZE,
    ensures
        forall|i: int, j: int|
            0 <= i < 5 && 0 <= j < 5 ==> at(*final(raster), i, j) == if i == row && j == col {
                LIT
            } else {
                at(*old(raster), i, j)
            },
{
    set_brightness(raster, row, col, LIT);
}

/// Sets the LED in row `row`, column `col` to brightness `level`.
pub fn set_brightness(raster: &mut Raster, row: usize, col: usize, level: u8)
    requires
        row < SIZE,
        col < SIZE,
    ensures
        forall|i: int, j: int|
            0 <= i < 5 && 0 <= j < 5 ==> at(*final(raster), i, j) == if i == row && j == col {
                level
            } else {
                at(*old(raster), i, j)
            },
{
    raster[row][col] = level;
}

} // verus!
