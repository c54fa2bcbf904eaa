//! A small grid game: a player moves on a fixed board one cell at a time,
//! grows a trailing body as it eats spawned food, and the run ends when it
//! hits the edge of the board or its own body.
//!
//! The simulation is verified: every public function carries a contract over
//! the mathematical view of the state it reads or changes. The host drives
//! it through `Game::tick` and `Game::key`, and carries out the drawing
//! commands that a tick returns.

pub mod board;
pub mod food;
pub mod game;
pub mod player;
pub mod random;
pub mod screen;

pub use board::{contains, Duple, Heading, BOARD_HEIGHT, BOARD_WIDTH};
pub use food::{interior_cell, Food, SpawnError, FOOD_SEED, SPAWN_ATTEMPTS};
pub use game::{Game, KeyEvent, FOOD_TARGET, PLAYER_SEED};
pub use player::{Player, TRAIL_CAPACITY};
pub use screen::{Color, Draw, Message, Refresh, FOOD_SYMBOL, SCORE_COLUMN, SEGMENT_SYMBOL};
