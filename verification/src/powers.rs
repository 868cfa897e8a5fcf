//! Picking up a random power-up, and the effects of the power-ups. Each
//! effect reports whether it did anything; none of them acts on the game
//! state yet.
use vstd::prelude::*;
use crate::random::random_between;

verus! {

/// The power-ups a player can pick up.
#[derive(Clone, Copy, Debug, PartialEq, Eq, Structural)]
pub enum PowerUps {
    SpeedBoost,
    ScoreMultiplier,
    BouncyShoes,
    LowerGravity,
    Shield,
}

/// The power-up that a roll of the pick-up die over `[0, 4]` stands for.
pub open spec fn power_up_for_roll(roll: int) -> PowerUps {
    if roll == 0 {
        PowerUps::SpeedBoost
    } else if roll == 1 {
        PowerUps::ScoreMultiplier
    } else if roll == 2 {
        PowerUps::BouncyShoes
    } else if roll == 3 {
        PowerUps::LowerGravity
    } else {
        PowerUps::Shield
    }
}

/// The power-up that a roll of the pick-up die stands for.
pub fn power_up_of_roll(roll: i32) -> (p: PowerUps)
    ensures
        p == power_up_for_roll(roll as int),
{
    match roll {
        0 => PowerUps::SpeedBoost,
        1 => PowerUps::ScoreMultiplier,
        2 => PowerUps::BouncyShoes,
        3 => PowerUps::LowerGravity,
        _ => PowerUps::Shield,
    }
}

/// Picks up a random power-up, each of the five by one face of a die over
/// `[0, 4]`.
pub fn pickup_power() -> (r: Option<PowerUps>)
    ensures
        exists|roll: int| 0 <= roll <= 4 && r == Some(power_up_for_roll(roll)),
{
    let roll = random_between(0, 4);
    Some(power_up_of_roll(roll))
}

/// Runs the effect of the given power-up; `None` has no effect.
/// Returns whether the effect acted.
pub fn handler(power: Option<PowerUps>) -> (r: bool)
    ensures
        !r,
{
    match power {
        Some(PowerUps::SpeedBoost) => speed_boost(),
        Some(PowerUps::ScoreMultiplier) => score_mul(),
        Some(PowerUps::BouncyShoes) => bouncy_shoes(),
        Some(PowerUps::LowerGravity) => lower_gravity(),
        Some(PowerUps::Shield) => shield(),
        None => false,
    }
}

/// Faster increase of velocity while active; not in effect yet.
pub fn speed_boost() -> (r: bool)
    ensures
        !r,
{
    false
}

/// Multiplies the points gained while active; not in effect yet.
pub fn score_mul() -> (r: bool)
    ensures
        !r,
{
    false
}

/// Starts another, lower jump on landing while active; not in effect yet.
pub fn bouncy_shoes() -> (r: bool)
    ensures
        !r,
{
    false
}

/// Weaker gravity while active; not in effect yet.
pub fn lower_gravity() -> (r: bool)
    ensures
        !r,
{
    false
}

/// No crash from a bad flip or an obstacle while active; not in effect yet.
pub fn shield() -> (r: bool)
    ensures
        !r,
{
    false
}

} // verus!
