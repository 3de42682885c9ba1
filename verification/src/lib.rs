//! Simulation core of a grid-based snake game.
//!
//! The library owns the authoritative game state (grid dimensions, snake
//! body, heading, food position, and a tri-state game-state flag) and
//! advances it one discrete step at a time. Input handling, timing, and
//! rendering are left to an outside driver.

pub mod game_context;
