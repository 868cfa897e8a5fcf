//! The kinds of things the game is made of: screens, terrain, objects and
//! power-ups, and the state a screen hands back when it ends.
use vstd::prelude::*;

verus! {

/// The screen the game shows next.
#[derive(Clone, Copy, Debug, PartialEq, Eq, Structural)]
pub enum GameStatus {
    Main,
    Game,
    Credits,
    Instruct,
    BezierSim,
}

/// The surface of a terrain segment.
#[derive(Clone, Copy, Debug, PartialEq, Eq, Structural)]
pub enum TerrainType {
    Grass,
    Asphalt,
    Sand,
    Water,
}

/// The objects that can be placed on the terrain.
#[derive(Clone, Copy, Debug, PartialEq, Eq, Structural)]
pub enum StaticObject {
    Coin,
    Power,
    Statue,
    Balloon,
    Chest,
    Bench,
}

/// The power-ups a player can hold.
#[derive(Clone, Copy, Debug, PartialEq, Eq, Structural)]
pub enum PowerType {
    SpeedBoost,
    ScoreMultiplier,
    BouncyShoes,
    LowerGravity,
    Shield,
}

/// The obstacles a player can run into.
#[derive(Clone, Copy, Debug, PartialEq, Eq, Structural)]
pub enum ObstacleType {
    Statue,
    Balloon,
    Chest,
    Bench,
}

/// What a screen reports when it ends: the screen to show next (`None` to
/// quit) and the score reached.
#[derive(Clone, Copy, Debug, PartialEq, Eq, Structural)]
pub struct GameState {
    pub status: Option<GameStatus>,
    pub score: i32,
}

} // verus!
