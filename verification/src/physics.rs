//! The things that move or can be touched in the game, and how they collide.
//!
//! Each type here holds the whole-pixel and boolean state that the game's
//! decisions read: hitboxes, flags and values. Continuous quantities
//! (positions in sub-pixel precision, velocities, angles) are kept by the
//! caller, which hands in the results of its comparisons where a decision
//! depends on them.
use vstd::prelude::*;
use crate::rect::{Rect, RectView, Point, clamp_position};
use crate::types::{ObstacleType, PowerType};

verus! {

/// Anything with a hitbox on the screen.
pub trait Entity {
    spec fn hitbox_view(&self) -> RectView;

    fn hitbox(&self) -> (r: Rect)
        ensures
            r@ == self.hitbox_view(),
    ;

    /// The left edge of the hitbox.
    fn x(&self) -> (r: i32)
        ensures
            r == self.hitbox_view().x,
    {
        self.hitbox().x()
    }

    /// The top edge of the hitbox.
    fn y(&self) -> (r: i32)
        ensures
            r == self.hitbox_view().y,
    {
        self.hitbox().y()
    }

    /// The center of the hitbox, rounding down.
    fn center(&self) -> (p: Point)
        ensures
            p@ == (clamp_position(self.hitbox_view().center().0), clamp_position(
                self.hitbox_view().center().1,
            )),
    {
        self.hitbox().center()
    }
}

/// An item that lies on the terrain until the player picks it up.
pub trait Collectible: Entity {
    spec fn is_collected(&self) -> bool;

    spec fn position(&self) -> (int, int);

    /// Places the item at `(x, y)`; the hitbox follows on the next alignment.
    fn update_pos(&mut self, x: i32, y: i32)
        ensures
            final(self).position() == (x as int, y as int),
            final(self).is_collected() == old(self).is_collected(),
            final(self).hitbox_view() == old(self).hitbox_view(),
    ;

    /// Marks the item as picked up.
    fn collect(&mut self)
        ensures
            final(self).is_collected(),
            final(self).position() == old(self).position(),
            final(self).hitbox_view() == old(self).hitbox_view(),
    ;

    fn collected(&self) -> (r: bool)
        ensures
            r == self.is_collected(),
    ;
}

/// Collision tests between entities.
pub struct Physics;

impl Physics {
    /// The hitboxes of the two entities overlap.
    pub fn check_collision<A: Entity, B: Entity>(entity_a: &A, entity_b: &B) -> (r: bool)
        ensures
            r == entity_a.hitbox_view().overlaps(entity_b.hitbox_view()),
    {
        entity_a.hitbox().has_intersection(entity_b.hitbox())
    }

    /// The player has not landed on their head. A player whose hitbox holds
    /// the ground point is on the ground and stops counting as having flipped;
    /// such a player is upright exactly when `tilt_ok` (the rotation lies in the
    /// allowed range around the ground's angle) or the player holds the shield,
    /// which keeps a bad flip from crashing. A player in the air is upright.
    pub fn check_player_upright(player: &mut Player, ground: Point, tilt_ok: bool) -> (r: bool)
        ensures
            ({
                let on_ground = old(player)@.hitbox.contains(ground@.0, ground@.1);
                let shielded = old(player)@.power_up == Some(PowerType::Shield);
                &&& r == (!on_ground || tilt_ok || shielded)
                &&& final(player)@ == (if on_ground {
                    PlayerView { was_flipping: false, ..old(player)@ }
                } else {
                    old(player)@
                })
            }),
    {
        let on_ground = player.hitbox.contains_point(ground);
        if on_ground {
            player.was_flipping = false;
        }
        let shielded = match player.power_up {
            Some(PowerType::Shield) => true,
            _ => false,
        };
        !on_ground || tilt_ok || shielded
    }
}

/// The content of a coin.
pub struct CoinView {
    pub pos: (int, int),
    pub hitbox: RectView,
    pub value: int,
    pub collected: bool,
}

impl CoinView {
    /// Shifting left by `d` keeps the position within `i32`.
    pub open spec fn travel_fits(self, d: int) -> bool {
        i32::MIN <= self.pos.0 - d <= i32::MAX
    }

    /// Shifted left by `d`; the hitbox stays until the next alignment.
    pub open spec fn traveled(self, d: int) -> CoinView {
        CoinView { pos: (self.pos.0 - d, self.pos.1), ..self }
    }

    /// Moving by `(dx, dy)` keeps the position within `i32`.
    pub open spec fn camera_fits(self, dx: int, dy: int) -> bool {
        &&& i32::MIN <= self.pos.0 + dx <= i32::MAX
        &&& i32::MIN <= self.pos.1 + dy <= i32::MAX
    }

    /// Moved by `(dx, dy)`, with the hitbox aligned to the new position.
    pub open spec fn camera_moved(self, dx: int, dy: int) -> CoinView {
        CoinView {
            pos: (self.pos.0 + dx, self.pos.1 + dy),
            hitbox: RectView {
                x: clamp_position(self.pos.0 + dx),
                y: clamp_position(self.pos.1 + dy),
                ..self.hitbox
            },
            ..self
        }
    }
}

/// A coin lying on the terrain, worth `value` points.
pub struct Coin {
    pub pos: (i32, i32),
    hitbox: Rect,
    value: i32,
    collected: bool,
}

impl View for Coin {
    type V = CoinView;

    closed spec fn view(&self) -> CoinView {
        CoinView {
            pos: (self.pos.0 as int, self.pos.1 as int),
            hitbox: self.hitbox@,
            value: self.value as int,
            collected: self.collected,
        }
    }
}

impl Coin {
    /// A coin placed at the corner of its hitbox, not yet collected.
    pub fn new(hitbox: Rect, value: i32) -> (c: Coin)
        ensures
            c@ == (CoinView {
                pos: (hitbox@.x, hitbox@.y),
                hitbox: hitbox@,
                value: value as int,
                collected: false,
            }),
    {
        Coin { pos: (hitbox.x(), hitbox.y()), hitbox, value, collected: false }
    }

    pub fn value(&self) -> (r: i32)
        ensures
            r == self@.value,
    {
        self.value
    }

    /// Shifts the coin left by `travel_adj` as the terrain scrolls.
    pub fn travel_update(&mut self, travel_adj: i32)
        requires
            old(self)@.travel_fits(travel_adj as int),
        ensures
            final(self)@ == old(self)@.traveled(travel_adj as int),
    {
        self.pos.0 = self.pos.0 - travel_adj;
    }

    /// Moves the hitbox to the coin's position.
    pub fn align_hitbox_to_pos(&mut self)
        ensures
            final(self)@ == (CoinView {
                hitbox: RectView {
                    x: clamp_position(old(self)@.pos.0),
                    y: clamp_position(old(self)@.pos.1),
                    ..old(self)@.hitbox
                },
                ..old(self)@
            }),
    {
        self.hitbox.set_x(self.pos.0);
        self.hitbox.set_y(self.pos.1);
    }

    /// Moves the coin by `(x_adj, y_adj)` as the camera follows the ground,
    /// and its hitbox with it.
    pub fn camera_adj(&mut self, x_adj: i32, y_adj: i32)
        requires
            old(self)@.camera_fits(x_adj as int, y_adj as int),
        ensures
            final(self)@ == old(self)@.camera_moved(x_adj as int, y_adj as int),
    {
        self.pos.0 = self.pos.0 + x_adj;
        self.pos.1 = self.pos.1 + y_adj;
        self.align_hitbox_to_pos();
    }
}

impl Entity for Coin {
    open spec fn hitbox_view(&self) -> RectView {
        self@.hitbox
    }

    fn hitbox(&self) -> (r: Rect) {
        self.hitbox
    }
}

impl Collectible for Coin {
    open spec fn is_collected(&self) -> bool {
        self@.collected
    }

    open spec fn position(&self) -> (int, int) {
        self@.pos
    }

    fn update_pos(&mut self, x: i32, y: i32)
        ensures
            final(self)@ == (CoinView { pos: (x as int, y as int), ..old(self)@ }),
    {
        self.pos.0 = x;
        self.pos.1 = y;
    }

    fn collect(&mut self)
        ensures
            final(self)@ == (CoinView { collected: true, ..old(self)@ }),
    {
        self.collected = true;
    }

    fn collected(&self) -> (r: bool) {
        self.collected
    }
}

/// The content of a power-up lying on the terrain.
pub struct PowerView {
    pub pos: (int, int),
    pub hitbox: RectView,
    pub power_type: PowerType,
    pub collected: bool,
}

impl PowerView {
    /// Shifting left by `d` keeps the position within `i32`.
    pub open spec fn travel_fits(self, d: int) -> bool {
        i32::MIN <= self.pos.0 - d <= i32::MAX
    }

    /// Shifted left by `d`; the hitbox stays until the next alignment.
    pub open spec fn traveled(self, d: int) -> PowerView {
        PowerView { pos: (self.pos.0 - d, self.pos.1), ..self }
    }

    /// Moving by `(dx, dy)` keeps the position within `i32`.
    pub open spec fn camera_fits(self, dx: int, dy: int) -> bool {
        &&& i32::MIN <= self.pos.0 + dx <= i32::MAX
        &&& i32::MIN <= self.pos.1 + dy <= i32::MAX
    }

    /// Moved by `(dx, dy)`, with the hitbox aligned to the new position.
    pub open spec fn camera_moved(self, dx: int, dy: int) -> PowerView {
        PowerView {
            pos: (self.pos.0 + dx, self.pos.1 + dy),
            hitbox: RectView {
                x: clamp_position(self.pos.0 + dx),
                y: clamp_position(self.pos.1 + dy),
                ..self.hitbox
            },
            ..self
        }
    }
}

/// A power-up lying on the terrain, granting `power_type` when picked up.
pub struct Power {
    pub pos: (i32, i32),
    hitbox: Rect,
    power_type: PowerType,
    collected: bool,
}

impl View for Power {
    type V = PowerView;

    closed spec fn view(&self) -> PowerView {
        PowerView {
            pos: (self.pos.0 as int, self.pos.1 as int),
            hitbox: self.hitbox@,
            power_type: self.power_type,
            collected: self.collected,
        }
    }
}

impl Power {
    /// A power-up placed at the corner of its hitbox, not yet collected.
    pub fn new(hitbox: Rect, power_type: PowerType) -> (p: Power)
        ensures
            p@ == (PowerView {
                pos: (hitbox@.x, hitbox@.y),
                hitbox: hitbox@,
                power_type: power_type,
                collected: false,
            }),
    {
        Power { pos: (hitbox.x(), hitbox.y()), hitbox, collected: false, power_type }
    }

    pub fn power_type(&self) -> (r: PowerType)
        ensures
            r == self@.power_type,
    {
        self.power_type
    }

    /// Shifts the power-up left by `travel_adj` as the terrain scrolls.
    pub fn travel_update(&mut self, travel_adj: i32)
        requires
            old(self)@.travel_fits(travel_adj as int),
        ensures
            final(self)@ == old(self)@.traveled(travel_adj as int),
    {
        self.pos.0 = self.pos.0 - travel_adj;
    }

    /// Moves the hitbox to the power-up's position.
    pub fn align_hitbox_to_pos(&mut self)
        ensures
            final(self)@ == (PowerView {
                hitbox: RectView {
                    x: clamp_position(old(self)@.pos.0),
                    y: clamp_position(old(self)@.pos.1),
                    ..old(self)@.hitbox
                },
                ..old(self)@
            }),
    {
        self.hitbox.set_x(self.pos.0);
        self.hitbox.set_y(self.pos.1);
    }

    /// Moves the power-up by `(x_adj, y_adj)` as the camera follows the
    /// ground, and its hitbox with it.
    pub fn camera_adj(&mut self, x_adj: i32, y_adj: i32)
        requires
            old(self)@.camera_fits(x_adj as int, y_adj as int),
        ensures
            final(self)@ == old(self)@.camera_moved(x_adj as int, y_adj as int),
    {
        self.pos.0 = self.pos.0 + x_adj;
        self.pos.1 = self.pos.1 + y_adj;
        self.align_hitbox_to_pos();
    }
}

impl Entity for Power {
    open spec fn hitbox_view(&self) -> RectView {
        self@.hitbox
    }

    fn hitbox(&self) -> (r: Rect) {
        self.hitbox
    }
}

impl Collectible for Power {
    open spec fn is_collected(&self) -> bool {
        self@.collected
    }

    open spec fn position(&self) -> (int, int) {
        self@.pos
    }

    fn update_pos(&mut self, x: i32, y: i32)
        ensures
            final(self)@ == (PowerView { pos: (x as int, y as int), ..old(self)@ }),
    {
        self.pos.0 = x;
        self.pos.1 = y;
    }

    fn collect(&mut self)
        ensures
            final(self)@ == (PowerView { collected: true, ..old(self)@ }),
    {
        self.collected = true;
    }

    fn collected(&self) -> (r: bool) {
        self.collected
    }
}

/// The content of an obstacle.
pub struct ObstacleView {
    pub hitbox: RectView,
    pub value: int,
    pub obstacle_type: ObstacleType,
    pub collided: bool,
    pub collected: bool,
    pub spawned: bool,
    pub delete_me: bool,
}

/// An obstacle standing on the terrain. `collided` records that the player
/// has run into it, `collected` that the player has used it (landed on it or
/// bounced off it).
pub struct Obstacle {
    hitbox: Rect,
    pub value: i32,
    obstacle_type: ObstacleType,
    pub collided: bool,
    pub collected: bool,
    pub spawned: bool,
    pub delete_me: bool,
}

impl View for Obstacle {
    type V = ObstacleView;

    closed spec fn view(&self) -> ObstacleView {
        ObstacleView {
            hitbox: self.hitbox@,
            value: self.value as int,
            obstacle_type: self.obstacle_type,
            collided: self.collided,
            collected: self.collected,
            spawned: self.spawned,
            delete_me: self.delete_me,
        }
    }
}

impl Obstacle {
    /// An obstacle that nothing has touched yet.
    pub fn new(hitbox: Rect, value: i32, obstacle_type: ObstacleType) -> (o: Obstacle)
        ensures
            o@ == (ObstacleView {
                hitbox: hitbox@,
                value: value as int,
                obstacle_type: obstacle_type,
                collided: false,
                collected: false,
                spawned: false,
                delete_me: false,
            }),
    {
        Obstacle {
            hitbox,
            value,
            obstacle_type,
            collided: false,
            collected: false,
            spawned: false,
            delete_me: false,
        }
    }

    pub fn obstacle_type(&self) -> (r: ObstacleType)
        ensures
            r == self@.obstacle_type,
    {
        self.obstacle_type
    }

    pub fn collided(&self) -> (r: bool)
        ensures
            r == self@.collided,
    {
        self.collided
    }

    pub fn collected(&self) -> (r: bool)
        ensures
            r == self@.collected,
    {
        self.collected
    }

    pub fn value(&self) -> (r: i32)
        ensures
            r == self@.value,
    {
        self.value
    }

    /// Moves the hitbox to `pos`, the obstacle's position in whole pixels.
    pub fn align_hitbox_to_pos(&mut self, pos: (i32, i32))
        ensures
            final(self)@ == (ObstacleView {
                hitbox: RectView {
                    x: clamp_position(pos.0 as int),
                    y: clamp_position(pos.1 as int),
                    ..old(self)@.hitbox
                },
                ..old(self)@
            }),
    {
        self.hitbox.set_x(pos.0);
        self.hitbox.set_y(pos.1);
    }
}

impl Entity for Obstacle {
    open spec fn hitbox_view(&self) -> RectView {
        self@.hitbox
    }

    fn hitbox(&self) -> (r: Rect) {
        self.hitbox
    }
}

/// The content of the player's state that the game's decisions read.
pub struct PlayerView {
    pub hitbox: RectView,
    pub power_up: Option<PowerType>,
    pub jumping: bool,
    pub lock_jump_time: bool,
    pub flipping: bool,
    pub was_flipping: bool,
}

/// What happens to the player and the obstacle after they collide.
#[derive(Clone, Copy, Debug, PartialEq, Eq, Structural)]
pub enum ObstacleResponse {
    /// Nothing happens.
    Pass,
    /// The player ran into the side of a solid obstacle, which is knocked
    /// away; unless the player is shielded, the player is thrown back too.
    Knock { player_moves: bool },
    /// The player landed on top of the obstacle and now stands on it;
    /// `upright` tells whether the player landed on their feet.
    Land { upright: bool },
    /// The player bounces off the top of the obstacle.
    Bounce,
}

/// The player hit the side of the obstacle: the overlap is taller than wide
/// and the player is to the left of the obstacle.
pub open spec fn side_hit(player: RectView, obstacle: RectView) -> bool {
    let i = player.intersection(obstacle);
    i.h > i.w && player.x < obstacle.x
}

/// The outcome of a collision between the player and an obstacle: the states
/// afterwards, whether the game is over, and the response to carry out.
/// `descending` tells whether the player is moving down, `upright` whether the
/// player's rotation counts as standing.
pub open spec fn obstacle_collision(
    p: PlayerView,
    o: ObstacleView,
    descending: bool,
    upright: bool,
) -> (PlayerView, ObstacleView, bool, ObstacleResponse) {
    let shielded = p.power_up == Some(PowerType::Shield);
    if side_hit(p.hitbox, o.hitbox) {
        if o.obstacle_type == ObstacleType::Balloon || o.collided {
            (p, o, false, ObstacleResponse::Pass)
        } else {
            (
                p,
                ObstacleView { collided: true, ..o },
                !shielded,
                ObstacleResponse::Knock { player_moves: !shielded },
            )
        }
    } else if p.jumping && descending {
        match o.obstacle_type {
            ObstacleType::Chest | ObstacleType::Bench => {
                if o.collided {
                    (p, o, false, ObstacleResponse::Pass)
                } else {
                    (
                        PlayerView { jumping: false, lock_jump_time: false, ..p },
                        ObstacleView { collided: true, collected: true, ..o },
                        !upright && !shielded,
                        ObstacleResponse::Land { upright: upright },
                    )
                }
            },
            ObstacleType::Statue => (
                p,
                ObstacleView { collided: true, ..o },
                !shielded,
                ObstacleResponse::Bounce,
            ),
            ObstacleType::Balloon => (
                p,
                ObstacleView { collected: true, ..o },
                false,
                ObstacleResponse::Bounce,
            ),
        }
    } else {
        (p, o, false, ObstacleResponse::Pass)
    }
}

/// The player collides with a coin: the coin ends collected, the player is
/// unchanged, and the coin counts exactly when it had not been collected.
pub open spec fn coin_collision(p: PlayerView, c: CoinView) -> (PlayerView, CoinView, bool) {
    (p, CoinView { collected: true, ..c }, !c.collected)
}

/// The player collides with a power-up: the power-up ends collected, and
/// unless it had been collected already, the player receives its kind and it
/// counts.
pub open spec fn power_collision(p: PlayerView, q: PowerView) -> (PlayerView, PowerView, bool) {
    (
        if !q.collected {
            PlayerView { power_up: Some(q.power_type), ..p }
        } else {
            p
        },
        PowerView { collected: true, ..q },
        !q.collected,
    )
}

/// The player's whole-pixel hitbox, held power-up and movement flags.
pub struct Player {
    hitbox: Rect,
    power_up: Option<PowerType>,
    jumping: bool,
    lock_jump_time: bool,
    flipping: bool,
    was_flipping: bool,
}

impl View for Player {
    type V = PlayerView;

    closed spec fn view(&self) -> PlayerView {
        PlayerView {
            hitbox: self.hitbox@,
            power_up: self.power_up,
            jumping: self.jumping,
            lock_jump_time: self.lock_jump_time,
            flipping: self.flipping,
            was_flipping: self.was_flipping,
        }
    }
}

impl Player {
    /// A player without a power-up, starting in the air.
    pub fn new(hitbox: Rect) -> (p: Player)
        ensures
            p@ == (PlayerView {
                hitbox: hitbox@,
                power_up: None,
                jumping: true,
                lock_jump_time: false,
                flipping: false,
                was_flipping: false,
            }),
    {
        Player {
            hitbox,
            power_up: None,
            jumping: true,
            lock_jump_time: false,
            flipping: false,
            was_flipping: false,
        }
    }

    pub fn is_jumping(&self) -> (r: bool)
        ensures
            r == self@.jumping,
    {
        self.jumping
    }

    pub fn jumpmoment_lock(&self) -> (r: bool)
        ensures
            r == self@.lock_jump_time,
    {
        self.lock_jump_time
    }

    pub fn is_flipping(&self) -> (r: bool)
        ensures
            r == self@.flipping,
    {
        self.flipping
    }

    pub fn was_flipping(&self) -> (r: bool)
        ensures
            r == self@.was_flipping,
    {
        self.was_flipping
    }

    /// The power-up the player holds, if any.
    pub fn power_up(&self) -> (r: Option<PowerType>)
        ensures
            r == self@.power_up,
    {
        self.power_up
    }

    pub fn set_power_up(&mut self, power_up: Option<PowerType>)
        ensures
            final(self)@ == (PlayerView { power_up: power_up, ..old(self)@ }),
    {
        self.power_up = power_up;
    }

    /// Stops the player's rotation.
    pub fn stop_flipping(&mut self)
        ensures
            final(self)@ == (PlayerView { flipping: false, ..old(self)@ }),
    {
        self.flipping = false;
    }

    /// Sets the player rotating; the player now counts as having flipped.
    pub fn resume_flipping(&mut self)
        ensures
            final(self)@ == (PlayerView { flipping: true, was_flipping: true, ..old(self)@ }),
    {
        self.flipping = true;
        self.was_flipping = true;
    }

    /// Records that the moment a jump key went down has been taken.
    pub fn set_jumpmoment(&mut self)
        ensures
            final(self)@ == (PlayerView { lock_jump_time: true, ..old(self)@ }),
    {
        self.lock_jump_time = true;
    }

    /// Starts a jump if the player stands on the ground, with some give: the
    /// bottom of the hitbox stretched by a twentieth of its height reaches
    /// below the ground point. Returns whether a jump started.
    pub fn jump(&mut self, ground: Point) -> (r: bool)
        requires
            old(self)@.hitbox.y + old(self)@.hitbox.h * 21 / 20 <= i32::MAX,
        ensures
            r == (old(self)@.hitbox.y + old(self)@.hitbox.h * 21 / 20 > ground@.1),
            final(self)@ == (if r {
                PlayerView { jumping: true, ..old(self)@ }
            } else {
                old(self)@
            }),
    {
        let height = self.hitbox.height();
        let reach = ((height as u64) * 21 / 20) as i32;
        if self.hitbox.y() + reach > ground.y() {
            self.jumping = true;
            true
        } else {
            false
        }
    }

    /// Lands the player when the hitbox holds the ground point and the ground
    /// is not water: a jump ends, together with its locked moment and its
    /// flip. Returns whether the player is on the ground.
    pub fn update_pos(&mut self, ground: Point, on_water: bool) -> (r: bool)
        ensures
            r == (old(self)@.hitbox.contains(ground@.0, ground@.1) && !on_water),
            final(self)@ == (if r && old(self)@.jumping {
                PlayerView {
                    jumping: false,
                    lock_jump_time: false,
                    was_flipping: false,
                    ..old(self)@
                }
            } else {
                old(self)@
            }),
    {
        let on_ground = self.hitbox.contains_point(ground) && !on_water;
        if on_ground && self.jumping {
            self.jumping = false;
            self.lock_jump_time = false;
            self.was_flipping = false;
        }
        on_ground
    }

    /// Moves the hitbox to `pos`, the player's position in whole pixels.
    pub fn align_hitbox_to_pos(&mut self, pos: (i32, i32))
        ensures
            final(self)@ == (PlayerView {
                hitbox: RectView {
                    x: clamp_position(pos.0 as int),
                    y: clamp_position(pos.1 as int),
                    ..old(self)@.hitbox
                },
                ..old(self)@
            }),
    {
        self.hitbox.set_x(pos.0);
        self.hitbox.set_y(pos.1);
    }

    /// Collects a coin. Returns true if the coin was collected now, false if
    /// it had been collected already.
    pub fn collide_coin(&mut self, coin: &mut Coin) -> (r: bool)
        ensures
            (final(self)@, final(coin)@, r) == coin_collision(old(self)@, old(coin)@),
    {
        if !coin.collected() {
            coin.collect();
            true
        } else {
            false
        }
    }

    /// Receives the power-up of `power` unless it was collected already.
    /// Returns whether it was received.
    pub fn collide_power(&mut self, power: &mut Power) -> (r: bool)
        ensures
            (final(self)@, final(power)@, r) == power_collision(old(self)@, old(power)@),
    {
        if !power.collected() {
            self.set_power_up(Some(power.power_type()));
            power.collect();
            true
        } else {
            false
        }
    }

    /// Handles a collision of the player with an obstacle whose hitbox
    /// overlaps the player's. `descending` tells whether the player is moving
    /// down, `upright` whether the player's rotation counts as standing.
    /// Returns whether the collision ends the game, and the response for the
    /// caller to carry out on positions and velocities.
    pub fn collide_obstacle(
        &mut self,
        obstacle: &mut Obstacle,
        descending: bool,
        upright: bool,
    ) -> (r: (bool, ObstacleResponse))
        requires
            old(self)@.hitbox.overlaps(old(obstacle)@.hitbox),
        ensures
            ({
                let (p, o, over, resp) = obstacle_collision(
                    old(self)@,
                    old(obstacle)@,
                    descending,
                    upright,
                );
                &&& final(self)@ == p
                &&& final(obstacle)@ == o
                &&& r == (over, resp)
            }),
    {
        let shielded = match self.power_up {
            Some(PowerType::Shield) => true,
            _ => false,
        };
        let overlap = self.hitbox.intersection(obstacle.hitbox);
        let overlap = match overlap {
            Some(i) => i,
            None => {
                return (false, ObstacleResponse::Pass);
            },
        };
        if overlap.height() > overlap.width() && self.hitbox.x() < obstacle.hitbox.x() {
            match obstacle.obstacle_type {
                ObstacleType::Statue | ObstacleType::Chest | ObstacleType::Bench => {
                    if obstacle.collided() {
                        (false, ObstacleResponse::Pass)
                    } else {
                        obstacle.collided = true;
                        if shielded {
                            (false, ObstacleResponse::Knock { player_moves: false })
                        } else {
                            (true, ObstacleResponse::Knock { player_moves: true })
                        }
                    }
                },
                ObstacleType::Balloon => (false, ObstacleResponse::Pass),
            }
        } else if self.jumping && descending {
            match obstacle.obstacle_type {
                ObstacleType::Chest | ObstacleType::Bench => {
                    if !obstacle.collided() {
                        self.jumping = false;
                        self.lock_jump_time = false;
                        obstacle.collided = true;
                        obstacle.collected = true;
                        (!upright && !shielded, ObstacleResponse::Land { upright })
                    } else {
                        (false, ObstacleResponse::Pass)
                    }
                },
                ObstacleType::Statue => {
                    obstacle.collided = true;
                    (!shielded, ObstacleResponse::Bounce)
                },
                ObstacleType::Balloon => {
                    obstacle.collected = true;
                    (false, ObstacleResponse::Bounce)
                },
            }
        } else {
            (false, ObstacleResponse::Pass)
        }
    }
}

impl Entity for Player {
    open spec fn hitbox_view(&self) -> RectView {
        self@.hitbox
    }

    fn hitbox(&self) -> (r: Rect) {
        self.hitbox
    }
}

} // verus!
