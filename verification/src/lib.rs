//! The simulation core of a falling-block puzzle game: the playfield, the
//! falling piece, the timing of held sideways movement, and the session that
//! ties them to a clock.

pub mod das;
pub mod game;
pub mod grid;
pub mod shapes;
pub mod tetromino;
