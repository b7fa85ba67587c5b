//! Grid-based snake game core: the game state machine, its per-tick update
//! rule, and the direction-change policy. Rendering and the input pump live
//! outside this crate; they read the `Game` value and feed plain events in.

pub mod game;
