//! The simulation core of an arcade game: a player-controlled circle dodges
//! and shoots falling squares.
//!
//! Every quantity is an exact integer. Lengths and coordinates are counted in
//! thousandths of a pixel, speeds in thousandths of a pixel per second, and
//! times in microseconds, so that each rule of the game is an exact
//! statement about integers.

pub mod units;
pub mod shape;
pub mod combat;
pub mod fire;
pub mod screen;
pub mod spawner;
pub mod motion;
pub mod collision;
pub mod state;
pub mod game;
pub mod record;
