//! A verified tic-tac-toe engine: a three-by-three board, two alternating
//! marks, and the rules that decide when a game is won or drawn.

mod chance;
pub mod game;
pub mod grid;
pub mod moves;
pub mod player;
pub mod session;
pub mod terminal;
pub mod text;
