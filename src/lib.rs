//! A two-paddle ball game on a character grid: the state of the play field,
//! the rules that move the ball and the paddles, and the decisions of one
//! iteration of the game loop, expressed as drawing operations for a display.

pub mod position;
pub mod velocity;
pub mod draw;
pub mod paddle;
pub mod ball;
pub mod command;
pub mod pong;
