//! The objects lying on the terrain of a run: obstacles, coins and power-ups.
//! There are never more than `MAX_NUM_OBJECTS` of them at once: a run starts
//! with none, and each operation here keeps the bound.
use vstd::prelude::*;
use crate::rect::{Rect, RectView, Point};
use crate::types::{ObstacleType, StaticObject};
use crate::physics::{Player, PlayerView, Coin, CoinView, Power, PowerView};
use crate::proceduralgen::{choose_power_up, power_for_roll};
use crate::runner::{
    RunnerState, spawn_gap, spawn_box, obstacle_for, obstacle_of, coin_pass, coin_stays, power_pass,
    power_stays, kept_onscreen, coin_onscreen, power_onscreen, travel_coins,
    travel_powers, camera_adj_coins, camera_adj_powers, remove_offscreen, remove_offscreen_coins,
    remove_offscreen_powers, MAX_NUM_OBJECTS, TILE_SIZE, COIN_VALUE, POWER_DURATION,
};

verus! {

/// The obstacles, coins and power-ups on the terrain. The obstacles are of
/// the caller's type `T`, which holds whatever moves them.
pub struct Objects<T> {
    obstacles: Vec<T>,
    coins: Vec<Coin>,
    powers: Vec<Power>,
}

/// The box in which an object spawns on the ground point `ground`.
pub open spec fn spawn_box_view(ground: (int, int)) -> RectView {
    RectView::clamped(ground.0, ground.1 - TILE_SIZE, TILE_SIZE as int, TILE_SIZE as int)
}

impl<T> Objects<T> {
    pub closed spec fn obstacles_view(&self) -> Seq<T> {
        self.obstacles@
    }

    pub closed spec fn coins_view(&self) -> Seq<Coin> {
        self.coins@
    }

    pub closed spec fn powers_view(&self) -> Seq<Power> {
        self.powers@
    }

    /// The number of objects on the terrain.
    pub open spec fn count(&self) -> int {
        (self.obstacles_view().len() + self.coins_view().len() + self.powers_view().len()) as int
    }

    /// The bound every state keeps: at most `MAX_NUM_OBJECTS` objects.
    pub open spec fn wf(&self) -> bool {
        self.count() <= MAX_NUM_OBJECTS
    }

    /// No objects yet.
    pub fn new() -> (o: Self)
        ensures
            o.wf(),
            o.obstacles_view() == Seq::<T>::empty(),
            o.coins_view() == Seq::<Coin>::empty(),
            o.powers_view() == Seq::<Power>::empty(),
    {
        Objects { obstacles: Vec::new(), coins: Vec::new(), powers: Vec::new() }
    }

    /// The number of objects on the terrain.
    pub fn len(&self) -> (n: usize)
        requires
            self.wf(),
        ensures
            n == self.count(),
    {
        self.obstacles.len() + self.coins.len() + self.powers.len()
    }

    pub fn obstacles(&self) -> (r: &Vec<T>)
        ensures
            r@ == self.obstacles_view(),
    {
        &self.obstacles
    }

    pub fn coins(&self) -> (r: &Vec<Coin>)
        ensures
            r@ == self.coins_view(),
    {
        &self.coins
    }

    pub fn powers(&self) -> (r: &Vec<Power>)
        ensures
            r@ == self.powers_view(),
    {
        &self.powers
    }

    /// The obstacle at `i`, to update in place.
    pub fn obstacle_mut(&mut self, i: usize) -> (r: &mut T)
        requires
            i < old(self).obstacles_view().len(),
        ensures
            *r == old(self).obstacles_view()[i as int],
            final(self).obstacles_view() == old(self).obstacles_view().update(i as int, *final(r)),
            final(self).coins_view() == old(self).coins_view(),
            final(self).powers_view() == old(self).powers_view(),
    {
        &mut self.obstacles[i]
    }
    /// Collects the coins and then the power-ups the player touches and that
    /// were not collected before, as `RunnerState::collect_coins` and
    /// `RunnerState::collect_powers` do. Returns the points of the frame.
    pub fn collect(&mut self, state: &mut RunnerState, player: &mut Player, step_score: i32) -> (r: i32)
        requires
            old(self).wf(),
            forall|n: int|
                0 <= n <= old(self).coins_view().len() ==> {
                    let t = #[trigger] coin_pass(old(player)@.hitbox, old(self).coins_view(), n);
                    &&& old(state).coin_count + t.0 <= i32::MAX
                    &&& i32::MIN <= step_score + t.1 <= i32::MAX
                },
        ensures
            final(self).wf(),
            ({
                let p = old(player)@.hitbox;
                let t = coin_pass(p, old(self).coins_view(), old(self).coins_view().len() as int);
                let q = power_pass(p, old(self).powers_view(), old(self).powers_view().len() as int);
                let counted = RunnerState {
                    coin_count: (old(state).coin_count + t.0) as i32,
                    ..*old(state)
                };
                &&& r == step_score + t.1
                &&& *final(state) == (if q is Some {
                    RunnerState { power_timer: POWER_DURATION, ..counted }
                } else {
                    counted
                })
                &&& final(player)@ == (if q is Some {
                    PlayerView { power_up: q, ..old(player)@ }
                } else {
                    old(player)@
                })
                &&& final(self).coins_view() == old(self).coins_view().filter(coin_stays(p))
                &&& final(self).powers_view() == old(self).powers_view().filter(power_stays(p))
                &&& final(self).obstacles_view() == old(self).obstacles_view()
            }),
    {
        let r = state.collect_coins(player, &mut self.coins, step_score);
        state.collect_powers(player, &mut self.powers);
        r
    }

    /// Shifts the coins and power-ups left by `travel_adj` as the terrain
    /// scrolls; the obstacles move with the caller's own motion.
    pub fn travel(&mut self, travel_adj: i32)
        requires
            old(self).wf(),
            forall|i: int|
                0 <= i < old(self).coins_view().len() ==> (#[trigger] old(self).coins_view()[i])@.travel_fits(
                    travel_adj as int,
                ),
            forall|i: int|
                0 <= i < old(self).powers_view().len() ==> (#[trigger] old(self).powers_view()[i])@.travel_fits(
                    travel_adj as int,
                ),
        ensures
            final(self).wf(),
            final(self).obstacles_view() == old(self).obstacles_view(),
            final(self).coins_view().len() == old(self).coins_view().len(),
            forall|i: int|
                0 <= i < final(self).coins_view().len() ==> (#[trigger] final(self).coins_view()[i])@
                    == old(self).coins_view()[i]@.traveled(travel_adj as int),
            final(self).powers_view().len() == old(self).powers_view().len(),
            forall|i: int|
                0 <= i < final(self).powers_view().len() ==> (#[trigger] final(self).powers_view()[i])@
                    == old(self).powers_view()[i]@.traveled(travel_adj as int),
    {
        travel_coins(&mut self.coins, travel_adj);
        travel_powers(&mut self.powers, travel_adj);
    }

    /// Moves the coins and power-ups by `(x_adj, y_adj)` as the camera follows
    /// the ground; the obstacles move with the caller's own motion.
    pub fn camera_adj(&mut self, x_adj: i32, y_adj: i32)
        requires
            old(self).wf(),
            forall|i: int|
                0 <= i < old(self).coins_view().len() ==> (#[trigger] old(self).coins_view()[i])@.camera_fits(
                    x_adj as int,
                    y_adj as int,
                ),
            forall|i: int|
                0 <= i < old(self).powers_view().len() ==> (#[trigger] old(self).powers_view()[i])@.camera_fits(
                    x_adj as int,
                    y_adj as int,
                ),
        ensures
            final(self).wf(),
            final(self).obstacles_view() == old(self).obstacles_view(),
            final(self).coins_view().len() == old(self).coins_view().len(),
            forall|i: int|
                0 <= i < final(self).coins_view().len() ==> (#[trigger] final(self).coins_view()[i])@
                    == old(self).coins_view()[i]@.camera_moved(x_adj as int, y_adj as int),
            final(self).powers_view().len() == old(self).powers_view().len(),
            forall|i: int|
                0 <= i < final(self).powers_view().len() ==> (#[trigger] final(self).powers_view()[i])@
                    == old(self).powers_view()[i]@.camera_moved(x_adj as int, y_adj as int),
    {
        camera_adj_coins(&mut self.coins, x_adj, y_adj);
        camera_adj_powers(&mut self.powers, x_adj, y_adj);
    }

    /// Removes everything that lies at least a tile left of the screen: the
    /// obstacles whose right edge, given at the same index of
    /// `obstacle_rights`, lies there, and the coins and power-ups whose tile
    /// does. Everything else stays, in its order.
    pub fn remove_offscreen(&mut self, obstacle_rights: &Vec<i32>)
        requires
            old(self).wf(),
            obstacle_rights@.len() == old(self).obstacles_view().len(),
        ensures
            final(self).wf(),
            final(self).obstacles_view() == kept_onscreen(
                old(self).obstacles_view(),
                obstacle_rights@,
                obstacle_rights@.len() as int,
            ),
            final(self).coins_view() == old(self).coins_view().filter(coin_onscreen()),
            final(self).powers_view() == old(self).powers_view().filter(power_onscreen()),
    {
        remove_offscreen(&mut self.obstacles, obstacle_rights);
        remove_offscreen_coins(&mut self.coins);
        remove_offscreen_powers(&mut self.powers);
    }
    /// Decides about spawning in this frame with `RunnerState::spawn_tick`,
    /// given the number of objects on the terrain, and places what spawns in
    /// a tile standing on the ground point `ground`: a coin worth
    /// `COIN_VALUE`, a random power-up, or an obstacle that `make` builds from
    /// its box and kind. A bench spawns nothing. Returns what was chosen.
    pub fn spawn<F: Fn(Rect, ObstacleType) -> T>(
        &mut self,
        state: &mut RunnerState,
        ground: Point,
        make: F,
    ) -> (r: Option<StaticObject>)
        requires
            old(self).wf(),
            old(state).wf(),
            forall|b: Rect, t: ObstacleType| make.requires((b, t)),
        ensures
            final(self).wf(),
            final(state).wf(),
            *final(state) == (RunnerState { spawn_timer: final(state).spawn_timer, ..*old(state) }),
            old(state).spawn_timer > 0 ==> r is None && final(state).spawn_timer == old(
                state,
            ).spawn_timer - 1,
            old(state).spawn_timer == 0 && r is Some ==> final(state).spawn_timer == spawn_gap(
                old(state).total_score as int,
            ),
            old(state).spawn_timer == 0 && r is None ==> 0 <= final(state).spawn_timer < spawn_gap(
                old(state).total_score as int,
            ),
            r is Some ==> old(self).count() < MAX_NUM_OBJECTS,
            old(state).spawn_timer == 0 && old(self).count() == 0 ==> r is Some,
            r == Some(StaticObject::Coin) ==> {
                &&& final(self).coins_view().len() == old(self).coins_view().len() + 1
                &&& final(self).coins_view().drop_last() == old(self).coins_view()
                &&& final(self).coins_view().last()@ == (CoinView {
                    pos: (spawn_box_view(ground@).x, spawn_box_view(ground@).y),
                    hitbox: spawn_box_view(ground@),
                    value: COIN_VALUE as int,
                    collected: false,
                })
            },
            r != Some(StaticObject::Coin) ==> final(self).coins_view() == old(self).coins_view(),
            r == Some(StaticObject::Power) ==> {
                &&& final(self).powers_view().len() == old(self).powers_view().len() + 1
                &&& final(self).powers_view().drop_last() == old(self).powers_view()
                &&& exists|roll: int|
                    0 <= roll <= 4 && final(self).powers_view().last()@ == (PowerView {
                        pos: (spawn_box_view(ground@).x, spawn_box_view(ground@).y),
                        hitbox: spawn_box_view(ground@),
                        power_type: power_for_roll(roll),
                        collected: false,
                    })
            },
            r != Some(StaticObject::Power) ==> final(self).powers_view() == old(self).powers_view(),
            (r matches Some(o) && obstacle_of(o) is Some) ==> {
                &&& final(self).obstacles_view().len() == old(self).obstacles_view().len() + 1
                &&& final(self).obstacles_view().drop_last() == old(self).obstacles_view()
                &&& exists|b: Rect|
                    b@ == spawn_box_view(ground@) && call_ensures(
                        make,
                        (b, obstacle_of(r->0)->0),
                        final(self).obstacles_view().last(),
                    )
            },
            !(r matches Some(o) && obstacle_of(o) is Some) ==> final(self).obstacles_view()
                == old(self).obstacles_view(),
    {
        let n = self.obstacles.len() + self.coins.len() + self.powers.len();
        let chosen = state.spawn_tick(n);
        match chosen {
            Some(StaticObject::Coin) => {
                let b = spawn_box(ground);
                self.coins.push(Coin::new(b, COIN_VALUE));
            },
            Some(StaticObject::Power) => {
                let b = spawn_box(ground);
                let kind = choose_power_up();
                self.powers.push(Power::new(b, kind));
            },
            Some(object) => {
                match obstacle_for(object) {
                    Some(t) => {
                        let b = spawn_box(ground);
                        let o = make(b, t);
                        self.obstacles.push(o);
                    },
                    None => {},
                }
            },
            None => {},
        }
        chosen
    }
}

} // verus!
