//! The rules of a breakout game played on a 5×5 LED matrix: the wall of
//! blocks, the balls in reserve, what a frame shows, and the sound that
//! marks a hit, all over plain integer state. The ball's flight is
//! computed elsewhere and reaches these rules as an observation of where
//! the ball stands.

pub mod raster;
pub mod wall;
pub mod game;
pub mod breakout;
pub mod beep;
pub mod control;
