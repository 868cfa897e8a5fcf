//! Game logic of an endless runner: rectangles and collisions, collectible
//! items and obstacles, terrain segments, power-ups and the decisions that
//! drive each screen of the game.
pub mod rect;
pub mod types;
pub mod powers;
pub mod physics;
pub mod random;
pub mod proceduralgen;
pub mod runner;
pub mod objects;
pub mod screens;
pub mod demo;
pub mod laws;
