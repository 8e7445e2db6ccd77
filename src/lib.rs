pub mod clock;
pub mod game;
pub mod grid;
pub mod input;
pub mod laws;
