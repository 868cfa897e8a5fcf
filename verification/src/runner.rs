//! The decisions of the running game, one frame at a time: input, power-ups,
//! score, spawning, scenery animation, camera and clean-up of what has left
//! the screen.
//!
//! The frame loop itself, drawing and the continuous physics belong to the
//! caller, which calls these steps in the order of a frame.
use vstd::prelude::*;
use crate::rect::{Rect, RectView, Point, clamp_position};
use crate::types::{GameStatus, ObstacleType, PowerType, StaticObject, TerrainType};
use crate::physics::{Player, PlayerView, Physics, Coin, CoinView, Power, PowerView, Entity, Collectible};
use crate::proceduralgen::{TerrainSegment, TerrainView};

verus! {

/// Width of the screen in pixels.
pub const CAM_W: u32 = 1280;

/// Height of the screen in pixels.
pub const CAM_H: u32 = 720;

/// Side of a tile, the unit of size of the player and of objects.
pub const TILE_SIZE: u32 = 100;

/// The camera keeps the ground at or below this height.
pub const TERRAIN_UPPER_BOUND: i32 = 200;

/// The camera keeps the ground (plus a tile) at or above this height.
pub const TERRAIN_LOWER_BOUND: i32 = 520;

/// The column of the screen where the player stands.
pub const PLAYER_X: i32 = 200;

/// Most coins, obstacles and power-ups that may exist at once.
pub const MAX_NUM_OBJECTS: i32 = 10;

/// Number of columns of each row of background hills.
pub const BG_CURVES_SIZE: usize = 128;

/// Frames a power-up stays active after its timer is set.
pub const POWER_DURATION: i32 = 360;

/// Frames the game goes on after the player has lost.
pub const GAME_OVER_DELAY: i32 = 120;

/// Frames before the first object may spawn.
pub const FIRST_SPAWN_DELAY: i32 = 500;

/// Points a coin is worth.
pub const COIN_VALUE: i32 = 1000;

/// The keys the game reacts to.
#[derive(Clone, Copy, Debug, PartialEq, Eq, Structural)]
pub enum Key {
    W,
    Up,
    Space,
    Escape,
    Q,
    R,
    M,
    P,
    C,
    I,
    T,
    Other,
}

/// An input event.
#[derive(Clone, Copy, Debug, PartialEq, Eq, Structural)]
pub enum Input {
    /// The window was closed.
    Quit,
    KeyDown(Key),
    KeyUp(Key),
    Other,
}

/// One of the keys that make the player jump.
pub open spec fn is_jump_key(k: Key) -> bool {
    k == Key::W || k == Key::Up || k == Key::Space
}

/// What an input did while the game was running.
#[derive(Clone, Copy, Debug, PartialEq, Eq, Structural)]
pub enum PlayOutcome {
    /// Nothing to carry out.
    Nothing,
    /// Leave the game.
    Exit,
    /// The player, in the air, started rotating.
    FlipResumed,
    /// A jump key went down on the ground: the caller notes the moment.
    MomentTaken,
    /// A jump key was released; `jumped` tells whether a jump started.
    Released { jumped: bool },
}

/// The running game.
pub struct Runner;

impl Runner {
    pub fn init() -> (r: Result<Runner, String>)
        ensures
            r is Ok,
    {
        Ok(Runner)
    }
}

/// The index of the last segment that starts at or before column `x` among
/// the first `n` segments, or -1 if none does.
pub open spec fn ground_index(s: Seq<TerrainSegment>, x: int, n: int) -> int
    decreases n,
{
    if n <= 0 {
        -1
    } else if s[n - 1]@.pos.x <= x {
        n - 1
    } else {
        ground_index(s, x, n - 1)
    }
}

/// The ground under column `screen_x` can be read: if a segment starts at or
/// before the column, the column falls within the last such segment's curve.
pub open spec fn ground_readable(s: Seq<TerrainSegment>, screen_x: int) -> bool {
    let k = ground_index(s, screen_x, s.len() as int);
    k >= 0 ==> {
        &&& screen_x - s[k]@.pos.x <= i32::MAX
        &&& screen_x - s[k]@.pos.x < s[k]@.curve.len()
    }
}

/// The point of the ground under column `screen_x`: the curve point of the
/// last segment starting at or before the column, or `(-1, -1)`.
pub open spec fn ground_point(s: Seq<TerrainSegment>, screen_x: int) -> (int, int) {
    let k = ground_index(s, screen_x, s.len() as int);
    if k < 0 {
        (-1, -1)
    } else {
        let p = s[k]@.curve[screen_x - s[k]@.pos.x];
        (clamp_position(p.0 as int), clamp_position(p.1 as int))
    }
}

/// The ground under the given column of the screen.
pub fn get_ground_coord(all_terrain: &Vec<TerrainSegment>, screen_x: i32) -> (p: Point)
    requires
        ground_readable(all_terrain@, screen_x as int),
    ensures
        p@ == ground_point(all_terrain@, screen_x as int),
{
    let ghost s = all_terrain@;
    let mut i = all_terrain.len();
    while i > 0
        invariant
            s == all_terrain@,
            i <= s.len(),
            ground_readable(s, screen_x as int),
            ground_index(s, screen_x as int, i as int) == ground_index(
                s,
                screen_x as int,
                s.len() as int,
            ),
        decreases i,
    {
        i = i - 1;
        let ground = &all_terrain[i];
        if ground.x() <= screen_x {
            let point_ind = (screen_x - ground.x()) as usize;
            let curve = ground.curve();
            let q = curve[point_ind];
            return Point::new(q.0, q.1);
        }
    }
    Point::new(-1, -1)
}

/// The surface under column `screen_x`: that of the last segment starting at
/// or before the column, or grass.
pub open spec fn ground_type(s: Seq<TerrainSegment>, screen_x: int) -> TerrainType {
    let k = ground_index(s, screen_x, s.len() as int);
    if k < 0 {
        TerrainType::Grass
    } else {
        s[k]@.terrain_type
    }
}

/// The surface under the given column of the screen.
pub fn get_ground_type(all_terrain: &Vec<TerrainSegment>, screen_x: i32) -> (t: TerrainType)
    ensures
        t == ground_type(all_terrain@, screen_x as int),
{
    let ghost s = all_terrain@;
    let mut i = all_terrain.len();
    while i > 0
        invariant
            s == all_terrain@,
            i <= s.len(),
            ground_index(s, screen_x as int, i as int) == ground_index(
                s,
                screen_x as int,
                s.len() as int,
            ),
        decreases i,
    {
        i = i - 1;
        let ground = &all_terrain[i];
        if ground.x() <= screen_x {
            return *ground.get_type();
        }
    }
    TerrainType::Grass
}

/// The gap between spawns at a given score: 500 frames up to 10000 points,
/// then 20 frames less for each further 10000 points started, down to 300
/// frames above 100000 points.
pub open spec fn spawn_gap(total_score: int) -> int {
    let steps = if total_score <= 10000 {
        0
    } else if total_score > 100000 {
        10
    } else {
        (total_score - 1) / 10000
    };
    500 - 20 * steps
}

/// Frames to wait after spawning an object; shrinks as the score grows.
pub fn min_spawn_gap(total_score: i32) -> (g: i32)
    ensures
        g == spawn_gap(total_score as int),
{
    if total_score > 100000 {
        300
    } else if total_score > 90000 {
        320
    } else if total_score > 80000 {
        340
    } else if total_score > 70000 {
        360
    } else if total_score > 60000 {
        380
    } else if total_score > 50000 {
        400
    } else if total_score > 40000 {
        420
    } else if total_score > 30000 {
        440
    } else if total_score > 20000 {
        460
    } else if total_score > 10000 {
        480
    } else {
        500
    }
}

/// How far the camera moves the world vertically so that the ground under the
/// player stays between the two bounds.
pub open spec fn camera_shift(ground_y: int) -> int {
    if ground_y < TERRAIN_UPPER_BOUND {
        TERRAIN_UPPER_BOUND - ground_y
    } else if ground_y + TILE_SIZE > TERRAIN_LOWER_BOUND {
        TERRAIN_LOWER_BOUND - ground_y
    } else {
        0
    }
}

/// The vertical camera adjustment for the ground point under the player.
pub fn camera_adj_y(ground: Point) -> (r: i32)
    ensures
        r == camera_shift(ground@.1),
{
    let y = ground.y();
    if y < TERRAIN_UPPER_BOUND {
        TERRAIN_UPPER_BOUND - y
    } else if y + TILE_SIZE as i32 > TERRAIN_LOWER_BOUND {
        TERRAIN_LOWER_BOUND - y
    } else {
        0
    }
}

/// The box in which an object spawns: one tile standing on the ground point.
pub fn spawn_box(spawn: Point) -> (r: Rect)
    ensures
        r@ == RectView::clamped(spawn@.0, spawn@.1 - TILE_SIZE, TILE_SIZE as int, TILE_SIZE as int),
{
    Rect::new(spawn.x(), spawn.y() - TILE_SIZE as i32, TILE_SIZE, TILE_SIZE)
}

/// The obstacle that a spawned object stands for, if it is one that the
/// game places as an obstacle.
pub open spec fn obstacle_of(object: StaticObject) -> Option<ObstacleType> {
    match object {
        StaticObject::Statue => Some(ObstacleType::Statue),
        StaticObject::Balloon => Some(ObstacleType::Balloon),
        StaticObject::Chest => Some(ObstacleType::Chest),
        _ => None,
    }
}

/// The obstacle that a spawned object stands for, if it is one that the
/// game places as an obstacle.
pub fn obstacle_for(object: StaticObject) -> (r: Option<ObstacleType>)
    ensures
        r == obstacle_of(object),
{
    match object {
        StaticObject::Statue => Some(ObstacleType::Statue),
        StaticObject::Balloon => Some(ObstacleType::Balloon),
        StaticObject::Chest => Some(ObstacleType::Chest),
        _ => None,
    }
}

/// Moves every value of a row of background hills one column to the left and
/// puts `chunk` in the last column.
pub fn shift_curve(curve: &mut [i16; BG_CURVES_SIZE], chunk: i16)
    ensures
        final(curve)@ == old(curve)@.drop_first().push(chunk),
{
    let ghost c0 = curve@;
    let mut i: usize = 0;
    while i < BG_CURVES_SIZE - 1
        invariant
            c0.len() == BG_CURVES_SIZE,
            curve@.len() == BG_CURVES_SIZE,
            i <= BG_CURVES_SIZE - 1,
            forall|j: int| 0 <= j < i ==> #[trigger] curve@[j] == c0[j + 1],
            forall|j: int| i <= j < BG_CURVES_SIZE ==> #[trigger] curve@[j] == c0[j],
        decreases BG_CURVES_SIZE - 1 - i,
    {
        let next = curve[i + 1];
        curve[i] = next;
        i = i + 1;
    }
    curve[BG_CURVES_SIZE - 1] = chunk;
    assert(curve@ =~= c0.drop_first().push(chunk));
}

/// What the spawner decides in a frame.
#[derive(Clone, Copy, Debug, PartialEq, Eq, Structural)]
pub enum SpawnPlan {
    /// The spawn timer is still running: count it down.
    Wait,
    /// Spawn a new object and wait the full gap.
    Spawn,
    /// Too many objects for this roll: wait a random part of the gap.
    Reschedule,
}

/// The spawner's decision for a running timer, a roll of the spawn die in
/// `[0, MAX_NUM_OBJECTS)` and the number of objects present. The more objects
/// exist, the less likely a roll lets a new one spawn.
pub fn spawn_plan(spawn_timer: i32, spawn_trigger: i32, curr_num_objects: usize) -> (r: SpawnPlan)
    ensures
        r == (if spawn_timer > 0 {
            SpawnPlan::Wait
        } else if spawn_trigger >= curr_num_objects as i32 {
            SpawnPlan::Spawn
        } else {
            SpawnPlan::Reschedule
        }),
{
    if spawn_timer > 0 {
        SpawnPlan::Wait
    } else if spawn_trigger >= curr_num_objects as i32 {
        SpawnPlan::Spawn
    } else {
        SpawnPlan::Reschedule
    }
}

/// The frame-to-frame state of the running game, apart from the player, the
/// terrain and the objects.
pub struct RunnerState {
    /// Frames the held power-up has left; it expires when this reaches 0.
    pub power_timer: i32,
    /// Coins collected.
    pub coin_count: i32,
    /// Score of the run.
    pub total_score: i32,
    pub game_paused: bool,
    /// The pause screen still has to be drawn.
    pub initial_pause: bool,
    pub game_over: bool,
    /// Frames left before the game ends once it is over.
    pub game_over_timer: i32,
    /// Frames left before an object may spawn.
    pub spawn_timer: i32,
    /// Horizontal offset of the background images.
    pub bg_buff: i32,
    /// Frame counter of the scenery, from 0 to 14.
    pub bg_tick: i32,
    /// How far the middle row of hills has scrolled.
    pub buff_1: usize,
    /// How far the back row of hills has scrolled.
    pub buff_2: usize,
    /// Frame of the coin animation, from 0 to 59.
    pub coin_anim: i32,
    /// The screen to show when the game ends.
    pub next_status: GameStatus,
}

impl RunnerState {
    /// The bounds every step keeps.
    pub open spec fn wf(&self) -> bool {
        &&& -1 <= self.power_timer <= POWER_DURATION
        &&& 0 < self.game_over_timer <= GAME_OVER_DELAY
        &&& 0 <= self.spawn_timer <= FIRST_SPAWN_DELAY
        &&& 0 <= self.bg_tick < 15
        &&& -(CAM_W as int) < self.bg_buff <= 0
        &&& 0 <= self.coin_anim < 60
    }

    /// The state at the start of a run.
    pub fn new() -> (st: RunnerState)
        ensures
            st.wf(),
            st.power_timer == 0,
            st.coin_count == 0,
            st.total_score == 0,
            !st.game_paused,
            !st.initial_pause,
            !st.game_over,
            st.game_over_timer == GAME_OVER_DELAY,
            st.spawn_timer == FIRST_SPAWN_DELAY,
            st.bg_buff == 0,
            st.bg_tick == 0,
            st.buff_1 == 0,
            st.buff_2 == 0,
            st.coin_anim == 0,
            st.next_status == GameStatus::Main,
    {
        RunnerState {
            power_timer: 0,
            coin_count: 0,
            total_score: 0,
            game_paused: false,
            initial_pause: false,
            game_over: false,
            game_over_timer: GAME_OVER_DELAY,
            spawn_timer: FIRST_SPAWN_DELAY,
            bg_buff: 0,
            bg_tick: 0,
            buff_1: 0,
            buff_2: 0,
            coin_anim: 0,
            next_status: GameStatus::Main,
        }
    }

    /// Handles an input while the game is paused. Returns whether to leave the
    /// game, with `next_status` set to the screen to go to: Q or closing the
    /// window goes to the credits, R restarts, M goes to the main menu.
    /// Escape, or releasing space, resumes play.
    pub fn pause_event(&mut self, input: Input) -> (leave: bool)
        ensures
            leave == (input == Input::Quit || input == Input::KeyDown(Key::Q) || input
                == Input::KeyDown(Key::R) || input == Input::KeyDown(Key::M)),
            final(self).next_status == (if input == Input::Quit || input == Input::KeyDown(Key::Q) {
                GameStatus::Credits
            } else if input == Input::KeyDown(Key::R) {
                GameStatus::Game
            } else if input == Input::KeyDown(Key::M) {
                GameStatus::Main
            } else {
                old(self).next_status
            }),
            final(self).game_paused == (old(self).game_paused && !(input == Input::KeyDown(
                Key::Escape,
            ) || input == Input::KeyUp(Key::Space))),
            *final(self) == (RunnerState {
                next_status: final(self).next_status,
                game_paused: final(self).game_paused,
                ..*old(self)
            }),
    {
        match input {
            Input::Quit | Input::KeyDown(Key::Q) => {
                self.next_status = GameStatus::Credits;
                true
            },
            Input::KeyDown(Key::Escape) => {
                self.game_paused = false;
                false
            },
            Input::KeyDown(Key::R) => {
                self.next_status = GameStatus::Game;
                true
            },
            Input::KeyDown(Key::M) => {
                self.next_status = GameStatus::Main;
                true
            },
            Input::KeyUp(Key::Space) => {
                self.game_paused = false;
                false
            },
            _ => false,
        }
    }

    /// Handles an input while the game runs. Closing the window leaves the
    /// game. A jump key going down makes a player in the air rotate, and on
    /// the ground takes the moment of the key press unless one is taken
    /// already. Escape pauses. Releasing a jump key jumps, if the player stands
    /// on the ground point `ground`, and stops the rotation.
    pub fn play_event(&mut self, player: &mut Player, ground: Point, input: Input) -> (r:
        PlayOutcome)
        requires
            input matches Input::KeyUp(k) && is_jump_key(k) ==> old(player)@.hitbox.y + old(
                player,
            )@.hitbox.h * 21 / 20 <= i32::MAX,
        ensures
            ({
                let p = old(player)@;
                match input {
                    Input::Quit => r == PlayOutcome::Exit && final(player)@ == p && *final(self)
                        == *old(self),
                    Input::KeyDown(k) => if is_jump_key(k) {
                        &&& *final(self) == *old(self)
                        &&& if p.jumping {
                            r == PlayOutcome::FlipResumed && final(player)@ == (PlayerView {
                                flipping: true,
                                was_flipping: true,
                                ..p
                            })
                        } else if !p.lock_jump_time {
                            r == PlayOutcome::MomentTaken && final(player)@ == (PlayerView {
                                lock_jump_time: true,
                                ..p
                            })
                        } else {
                            r == PlayOutcome::Nothing && final(player)@ == p
                        }
                    } else if k == Key::Escape {
                        &&& r == PlayOutcome::Nothing
                        &&& final(player)@ == p
                        &&& *final(self) == (RunnerState {
                            game_paused: true,
                            initial_pause: true,
                            ..*old(self)
                        })
                    } else {
                        r == PlayOutcome::Nothing && final(player)@ == p && *final(self)
                            == *old(self)
                    },
                    Input::KeyUp(k) => if is_jump_key(k) {
                        let jumped = p.hitbox.y + p.hitbox.h * 21 / 20 > ground@.1;
                        &&& r == PlayOutcome::Released { jumped: jumped }
                        &&& final(player)@ == PlayerView {
                            jumping: p.jumping || jumped,
                            flipping: false,
                            ..p
                        }
                        &&& *final(self) == *old(self)
                    } else {
                        r == PlayOutcome::Nothing && final(player)@ == p && *final(self)
                            == *old(self)
                    },
                    Input::Other => r == PlayOutcome::Nothing && final(player)@ == p
                        && *final(self) == *old(self),
                }
            }),
    {
        match input {
            Input::Quit => PlayOutcome::Exit,
            Input::KeyDown(k) => match k {
                Key::W | Key::Up | Key::Space => {
                    if player.is_jumping() {
                        player.resume_flipping();
                        PlayOutcome::FlipResumed
                    } else if !player.jumpmoment_lock() {
                        player.set_jumpmoment();
                        PlayOutcome::MomentTaken
                    } else {
                        PlayOutcome::Nothing
                    }
                },
                Key::Escape => {
                    self.game_paused = true;
                    self.initial_pause = true;
                    PlayOutcome::Nothing
                },
                _ => PlayOutcome::Nothing,
            },
            Input::KeyUp(k) => match k {
                Key::W | Key::Up | Key::Space => {
                    let jumped = player.jump(ground);
                    player.stop_flipping();
                    PlayOutcome::Released { jumped }
                },
                _ => PlayOutcome::Nothing,
            },
            Input::Other => PlayOutcome::Nothing,
        }
    }

    /// Counts down the frames left once the game is over. Returns whether the
    /// game ends now.
    pub fn count_down_game_over(&mut self) -> (end: bool)
        requires
            old(self).wf(),
        ensures
            end == (old(self).game_over && old(self).game_over_timer == 1),
            *final(self) == (if old(self).game_over {
                RunnerState { game_over_timer: (old(self).game_over_timer - 1) as i32, ..*old(self) }
            } else {
                *old(self)
            }),
            !end ==> final(self).wf(),
    {
        if self.game_over {
            self.game_over_timer = self.game_over_timer - 1;
            self.game_over_timer == 0
        } else {
            false
        }
    }

    /// Counts down the held power-up. When the timer runs out the power-up is
    /// taken from the player and the timer stops at -1.
    pub fn tick_power(&mut self, player: &mut Player)
        requires
            old(self).wf(),
        ensures
            *final(self) == (RunnerState {
                power_timer: power_tick(old(self).power_timer as int) as i32,
                ..*old(self)
            }),
            final(player)@ == (if old(self).power_timer == 0 {
                PlayerView { power_up: None, ..old(player)@ }
            } else {
                old(player)@
            }),
            final(self).wf(),
    {
        if self.power_timer == 0 {
            self.power_timer = self.power_timer - 1;
            player.set_power_up(None);
        } else if self.power_timer > 0 {
            self.power_timer = self.power_timer - 1;
        }
    }

    /// Bouncy shoes make a player on the ground jump again by themselves.
    /// Returns whether a jump started.
    pub fn apply_bouncy_shoes(&self, player: &mut Player, ground: Point) -> (jumped: bool)
        requires
            old(player)@.power_up == Some(PowerType::BouncyShoes) && !old(player)@.jumping ==> old(
                player,
            )@.hitbox.y + old(player)@.hitbox.h * 21 / 20 <= i32::MAX,
        ensures
            jumped == (old(player)@.power_up == Some(PowerType::BouncyShoes) && !old(
                player,
            )@.jumping && old(player)@.hitbox.y + old(player)@.hitbox.h * 21 / 20 > ground@.1),
            final(player)@ == (if jumped {
                PlayerView { jumping: true, ..old(player)@ }
            } else {
                old(player)@
            }),
    {
        match player.power_up() {
            Some(PowerType::BouncyShoes) => {
                if !player.is_jumping() {
                    player.jump(ground)
                } else {
                    false
                }
            },
            _ => false,
        }
    }

    /// Adds the points of this frame to the score unless the game is over:
    /// `step_score` collected plus one for surviving the frame, doubled by the
    /// score multiplier.
    pub fn update_score(&mut self, step_score: i32, multiplier: bool)
        requires
            !old(self).game_over ==> i32::MIN <= old(self).total_score + frame_points(
                step_score as int,
                multiplier,
            ) <= i32::MAX,
            !old(self).game_over ==> i32::MIN <= frame_points(step_score as int, multiplier) <= i32::MAX,
        ensures
            *final(self) == (RunnerState {
                total_score: if old(self).game_over {
                    old(self).total_score
                } else {
                    (old(self).total_score + frame_points(step_score as int, multiplier)) as i32
                },
                ..*old(self)
            }),
    {
        if !self.game_over {
            let mut curr = step_score + 1;
            if multiplier {
                curr = curr * 2;
            }
            self.total_score = self.total_score + curr;
        }
    }

    /// Decides about spawning in this frame: rolls the spawn die, and counts
    /// down the timer, or spawns a random object and waits the full gap for
    /// the score, or waits a random part of that gap. Returns the object to
    /// spawn, if any.
    pub fn spawn_tick(&mut self, curr_num_objects: usize) -> (r: Option<StaticObject>)
        requires
            old(self).wf(),
        ensures
            final(self).wf(),
            *final(self) == (RunnerState { spawn_timer: final(self).spawn_timer, ..*old(self) }),
            old(self).spawn_timer > 0 ==> r is None && final(self).spawn_timer == old(
                self,
            ).spawn_timer - 1,
            old(self).spawn_timer == 0 && r is Some ==> final(self).spawn_timer == spawn_gap(
                old(self).total_score as int,
            ),
            old(self).spawn_timer == 0 && r is None ==> 0 <= final(self).spawn_timer < spawn_gap(
                old(self).total_score as int,
            ),
            r is Some ==> (curr_num_objects as i32) < MAX_NUM_OBJECTS,
            old(self).spawn_timer == 0 && curr_num_objects == 0 ==> r is Some,
    {
        let gap = min_spawn_gap(self.total_score);
        let spawn_trigger = crate::random::random_below(0, MAX_NUM_OBJECTS);
        match spawn_plan(self.spawn_timer, spawn_trigger, curr_num_objects) {
            SpawnPlan::Wait => {
                self.spawn_timer = self.spawn_timer - 1;
                None
            },
            SpawnPlan::Spawn => {
                let object = crate::proceduralgen::choose_static_object();
                self.spawn_timer = gap;
                Some(object)
            },
            SpawnPlan::Reschedule => {
                self.spawn_timer = crate::random::random_below(0, gap);
                None
            },
        }
    }

    /// Starts the scroll of the middle row of hills every third frame of the
    /// scenery. Returns whether it scrolls; the caller then shifts in the
    /// column at `BG_CURVES_SIZE - 1 + buff_1`.
    pub fn scroll_mid_hills(&mut self) -> (scrolls: bool)
        requires
            old(self).buff_1 < usize::MAX,
        ensures
            scrolls == (old(self).bg_tick % 3 == 0),
            *final(self) == (RunnerState {
                buff_1: if scrolls {
                    (old(self).buff_1 + 1) as usize
                } else {
                    old(self).buff_1
                },
                ..*old(self)
            }),
    {
        if self.bg_tick % 3 == 0 {
            self.buff_1 = self.buff_1 + 1;
            true
        } else {
            false
        }
    }

    /// Starts the scroll of the back row of hills every fifth frame of the
    /// scenery. Returns whether it scrolls; the caller then shifts in the
    /// column at `BG_CURVES_SIZE - 1 + buff_2`.
    pub fn scroll_back_hills(&mut self) -> (scrolls: bool)
        requires
            old(self).buff_2 < usize::MAX,
        ensures
            scrolls == (old(self).bg_tick % 5 == 0),
            *final(self) == (RunnerState {
                buff_2: if scrolls {
                    (old(self).buff_2 + 1) as usize
                } else {
                    old(self).buff_2
                },
                ..*old(self)
            }),
    {
        if self.bg_tick % 5 == 0 {
            self.buff_2 = self.buff_2 + 1;
            true
        } else {
            false
        }
    }

    /// Advances the scenery by one frame: the scenery counter runs from 0 to
    /// 14, the background images move a pixel left on its tenth frame and
    /// wrap after a screen width, and the coin animation runs through 60
    /// frames.
    pub fn advance_animation(&mut self)
        requires
            old(self).wf(),
        ensures
            final(self).wf(),
            *final(self) == (RunnerState {
                bg_tick: ((old(self).bg_tick + 1) % 15) as i32,
                bg_buff: if old(self).bg_tick + 1 == 10 && old(self).bg_buff - 1 == -(CAM_W as int) {
                    0
                } else if old(self).bg_tick + 1 == 10 {
                    old(self).bg_buff - 1
                } else {
                    old(self).bg_buff as int
                } as i32,
                coin_anim: ((old(self).coin_anim + 1) % 60) as i32,
                ..*old(self)
            }),
    {
        self.bg_tick = self.bg_tick + 1;
        if self.bg_tick % 10 == 0 {
            self.bg_buff = self.bg_buff - 1;
        }
        if self.bg_tick % 3 == 0 && self.bg_tick % 5 == 0 {
            self.bg_tick = 0;
        }
        if -self.bg_buff == CAM_W as i32 {
            self.bg_buff = 0;
        }
        self.coin_anim = self.coin_anim + 1;
        self.coin_anim = self.coin_anim % 60;
    }
}

/// The points a frame earns: the points collected plus one, doubled by the
/// score multiplier.
pub open spec fn frame_points(step_score: int, multiplier: bool) -> int {
    if multiplier {
        (step_score + 1) * 2
    } else {
        step_score + 1
    }
}

/// One frame of the power-up timer: a running timer counts down, and a timer
/// at zero stops at -1.
pub open spec fn power_tick(timer: int) -> int {
    if timer >= 0 {
        timer - 1
    } else {
        timer
    }
}

/// Shifts every segment left by `travel_adj`.
pub fn travel_terrain(all_terrain: &mut Vec<TerrainSegment>, travel_adj: i32)
    requires
        forall|i: int|
            0 <= i < old(all_terrain)@.len() ==> (#[trigger] old(all_terrain)@[i])@.travel_fits(
                travel_adj as int,
            ),
    ensures
        final(all_terrain)@.len() == old(all_terrain)@.len(),
        forall|i: int|
            0 <= i < final(all_terrain)@.len() ==> (#[trigger] final(all_terrain)@[i])@ == old(
                all_terrain,
            )@[i]@.traveled(travel_adj as int),
{
    let ghost s0 = all_terrain@;
    let n = all_terrain.len();
    let mut i: usize = 0;
    while i < n
        invariant
            n == s0.len(),
            all_terrain@.len() == n,
            i <= n,
            forall|j: int| 0 <= j < n ==> (#[trigger] s0[j])@.travel_fits(travel_adj as int),
            forall|j: int|
                0 <= j < i ==> (#[trigger] all_terrain@[j])@ == s0[j]@.traveled(travel_adj as int),
            forall|j: int| i <= j < n ==> #[trigger] all_terrain@[j] == s0[j],
        decreases n - i,
    {
        all_terrain[i].travel_update(travel_adj);
        i = i + 1;
    }
}

/// Moves every segment by `(x_adj, y_adj)`.
pub fn camera_adj_terrain(all_terrain: &mut Vec<TerrainSegment>, x_adj: i32, y_adj: i32)
    requires
        forall|i: int|
            0 <= i < old(all_terrain)@.len() ==> (#[trigger] old(all_terrain)@[i])@.camera_fits(
                x_adj as int,
                y_adj as int,
            ),
    ensures
        final(all_terrain)@.len() == old(all_terrain)@.len(),
        forall|i: int|
            0 <= i < final(all_terrain)@.len() ==> (#[trigger] final(all_terrain)@[i])@ == old(
                all_terrain,
            )@[i]@.camera_moved(x_adj as int, y_adj as int),
{
    let ghost s0 = all_terrain@;
    let n = all_terrain.len();
    let mut i: usize = 0;
    while i < n
        invariant
            n == s0.len(),
            all_terrain@.len() == n,
            i <= n,
            forall|j: int|
                0 <= j < n ==> (#[trigger] s0[j])@.camera_fits(x_adj as int, y_adj as int),
            forall|j: int|
                0 <= j < i ==> (#[trigger] all_terrain@[j])@ == s0[j]@.camera_moved(
                    x_adj as int,
                    y_adj as int,
                ),
            forall|j: int| i <= j < n ==> #[trigger] all_terrain@[j] == s0[j],
        decreases n - i,
    {
        all_terrain[i].camera_adj(x_adj, y_adj);
        i = i + 1;
    }
}

/// Shifts every coin left by `travel_adj`.
pub fn travel_coins(all_coins: &mut Vec<Coin>, travel_adj: i32)
    requires
        forall|i: int|
            0 <= i < old(all_coins)@.len() ==> (#[trigger] old(all_coins)@[i])@.travel_fits(
                travel_adj as int,
            ),
    ensures
        final(all_coins)@.len() == old(all_coins)@.len(),
        forall|i: int|
            0 <= i < final(all_coins)@.len() ==> (#[trigger] final(all_coins)@[i])@ == old(
                all_coins,
            )@[i]@.traveled(travel_adj as int),
{
    let ghost s0 = all_coins@;
    let n = all_coins.len();
    let mut i: usize = 0;
    while i < n
        invariant
            n == s0.len(),
            all_coins@.len() == n,
            i <= n,
            forall|j: int| 0 <= j < n ==> (#[trigger] s0[j])@.travel_fits(travel_adj as int),
            forall|j: int|
                0 <= j < i ==> (#[trigger] all_coins@[j])@ == s0[j]@.traveled(travel_adj as int),
            forall|j: int| i <= j < n ==> #[trigger] all_coins@[j] == s0[j],
        decreases n - i,
    {
        all_coins[i].travel_update(travel_adj);
        i = i + 1;
    }
}

/// Moves every coin by `(x_adj, y_adj)`.
pub fn camera_adj_coins(all_coins: &mut Vec<Coin>, x_adj: i32, y_adj: i32)
    requires
        forall|i: int|
            0 <= i < old(all_coins)@.len() ==> (#[trigger] old(all_coins)@[i])@.camera_fits(
                x_adj as int,
                y_adj as int,
            ),
    ensures
        final(all_coins)@.len() == old(all_coins)@.len(),
        forall|i: int|
            0 <= i < final(all_coins)@.len() ==> (#[trigger] final(all_coins)@[i])@ == old(
                all_coins,
            )@[i]@.camera_moved(x_adj as int, y_adj as int),
{
    let ghost s0 = all_coins@;
    let n = all_coins.len();
    let mut i: usize = 0;
    while i < n
        invariant
            n == s0.len(),
            all_coins@.len() == n,
            i <= n,
            forall|j: int|
                0 <= j < n ==> (#[trigger] s0[j])@.camera_fits(x_adj as int, y_adj as int),
            forall|j: int|
                0 <= j < i ==> (#[trigger] all_coins@[j])@ == s0[j]@.camera_moved(
                    x_adj as int,
                    y_adj as int,
                ),
            forall|j: int| i <= j < n ==> #[trigger] all_coins@[j] == s0[j],
        decreases n - i,
    {
        all_coins[i].camera_adj(x_adj, y_adj);
        i = i + 1;
    }
}

/// Shifts every power-up left by `travel_adj`.
pub fn travel_powers(all_powers: &mut Vec<Power>, travel_adj: i32)
    requires
        forall|i: int|
            0 <= i < old(all_powers)@.len() ==> (#[trigger] old(all_powers)@[i])@.travel_fits(
                travel_adj as int,
            ),
    ensures
        final(all_powers)@.len() == old(all_powers)@.len(),
        forall|i: int|
            0 <= i < final(all_powers)@.len() ==> (#[trigger] final(all_powers)@[i])@ == old(
                all_powers,
            )@[i]@.traveled(travel_adj as int),
{
    let ghost s0 = all_powers@;
    let n = all_powers.len();
    let mut i: usize = 0;
    while i < n
        invariant
            n == s0.len(),
            all_powers@.len() == n,
            i <= n,
            forall|j: int| 0 <= j < n ==> (#[trigger] s0[j])@.travel_fits(travel_adj as int),
            forall|j: int|
                0 <= j < i ==> (#[trigger] all_powers@[j])@ == s0[j]@.traveled(travel_adj as int),
            forall|j: int| i <= j < n ==> #[trigger] all_powers@[j] == s0[j],
        decreases n - i,
    {
        all_powers[i].travel_update(travel_adj);
        i = i + 1;
    }
}

/// Moves every power-up by `(x_adj, y_adj)`.
pub fn camera_adj_powers(all_powers: &mut Vec<Power>, x_adj: i32, y_adj: i32)
    requires
        forall|i: int|
            0 <= i < old(all_powers)@.len() ==> (#[trigger] old(all_powers)@[i])@.camera_fits(
                x_adj as int,
                y_adj as int,
            ),
    ensures
        final(all_powers)@.len() == old(all_powers)@.len(),
        forall|i: int|
            0 <= i < final(all_powers)@.len() ==> (#[trigger] final(all_powers)@[i])@ == old(
                all_powers,
            )@[i]@.camera_moved(x_adj as int, y_adj as int),
{
    let ghost s0 = all_powers@;
    let n = all_powers.len();
    let mut i: usize = 0;
    while i < n
        invariant
            n == s0.len(),
            all_powers@.len() == n,
            i <= n,
            forall|j: int|
                0 <= j < n ==> (#[trigger] s0[j])@.camera_fits(x_adj as int, y_adj as int),
            forall|j: int|
                0 <= j < i ==> (#[trigger] all_powers@[j])@ == s0[j]@.camera_moved(
                    x_adj as int,
                    y_adj as int,
                ),
            forall|j: int| i <= j < n ==> #[trigger] all_powers@[j] == s0[j],
        decreases n - i,
    {
        all_powers[i].camera_adj(x_adj, y_adj);
        i = i + 1;
    }
}

/// An element whose right edge lies at `right` is still on the screen: it
/// lies less than a tile left of the screen's left edge.
pub open spec fn onscreen_right(right: int) -> bool {
    right > -(TILE_SIZE as int)
}

/// The elements among the first `n` of `s` whose right edge, given at the
/// same index of `rights`, is still on the screen, in their order.
pub open spec fn kept_onscreen<A>(s: Seq<A>, rights: Seq<i32>, n: int) -> Seq<A>
    decreases n,
{
    if n <= 0 {
        Seq::empty()
    } else if onscreen_right(rights[n - 1] as int) {
        kept_onscreen(s, rights, n - 1).push(s[n - 1])
    } else {
        kept_onscreen(s, rights, n - 1)
    }
}

proof fn lemma_kept_onscreen_len<A>(s: Seq<A>, rights: Seq<i32>, n: int)
    requires
        0 <= n,
    ensures
        kept_onscreen(s, rights, n).len() <= n,
    decreases n,
{
    if n > 0 {
        lemma_kept_onscreen_len(s, rights, n - 1);
    }
}

/// Removes every element whose right edge, given at the same index of
/// `rights`, lies at least a tile left of the screen; the others stay, in
/// their order.
pub fn remove_offscreen<T>(v: &mut Vec<T>, rights: &Vec<i32>)
    requires
        rights@.len() == old(v)@.len(),
    ensures
        final(v)@ == kept_onscreen(old(v)@, rights@, rights@.len() as int),
        final(v)@.len() <= old(v)@.len(),
{
    let ghost s0 = v@;
    let n = rights.len();
    let mut i: usize = 0;
    let mut j: usize = 0;
    assert(s0.skip(0) =~= s0);
    while j < n
        invariant
            n == s0.len(),
            n == rights@.len(),
            j <= n,
            i == kept_onscreen(s0, rights@, j as int).len(),
            v@ == kept_onscreen(s0, rights@, j as int) + s0.skip(j as int),
        decreases n - j,
    {
        let ghost k = kept_onscreen(s0, rights@, j as int);
        proof {
            lemma_kept_onscreen_len(s0, rights@, j as int);
        }
        assert(v@[i as int] == s0[j as int]);
        if rights[j] > -(TILE_SIZE as i32) {
            assert(k.push(s0[j as int]) + s0.skip(j + 1) =~= k + s0.skip(j as int));
            i = i + 1;
        } else {
            v.remove(i);
            assert(v@ =~= k + s0.skip(j + 1));
        }
        j = j + 1;
    }
    assert(s0.skip(n as int) =~= Seq::<T>::empty());
    assert(v@ =~= kept_onscreen(s0, rights@, n as int));
    proof {
        lemma_kept_onscreen_len(s0, rights@, n as int);
    }
}

/// Where each element's right edge is given at its index of `rights`,
/// keeping the elements still on the screen keeps exactly those for which
/// `keep` holds.
proof fn lemma_kept_is_filter<A>(s: Seq<A>, rights: Seq<i32>, keep: spec_fn(A) -> bool, n: int)
    requires
        0 <= n <= s.len(),
        rights.len() == s.len(),
        forall|k: int|
            0 <= k < s.len() ==> onscreen_right(rights[k] as int) == keep(#[trigger] s[k]),
    ensures
        kept_onscreen(s, rights, n) == s.take(n).filter(keep),
    decreases n,
{
    reveal(Seq::filter);
    if n > 0 {
        lemma_kept_is_filter(s, rights, keep, n - 1);
        assert(s.take(n).drop_last() =~= s.take(n - 1));
        assert(s.take(n).last() == s[n - 1]);
    } else {
        assert(s.take(0) =~= Seq::<A>::empty());
    }
}

/// Keeping the elements of the first `j + 1` for which `keep` holds is
/// keeping them among the first `j`, and then the element at `j` if it stays.
proof fn lemma_filter_step<A>(s: Seq<A>, keep: spec_fn(A) -> bool, j: int)
    requires
        0 <= j < s.len(),
    ensures
        s.take(j + 1).filter(keep) == (if keep(s[j]) {
            s.take(j).filter(keep).push(s[j])
        } else {
            s.take(j).filter(keep)
        }),
{
    reveal(Seq::filter);
    assert(s.take(j + 1).drop_last() =~= s.take(j));
    assert(s.take(j + 1).last() == s[j]);
}

proof fn lemma_filter_none<A>(s: Seq<A>, keep: spec_fn(A) -> bool)
    ensures
        s.take(0).filter(keep) == Seq::<A>::empty(),
{
    reveal(Seq::filter);
    assert(s.take(0) =~= Seq::<A>::empty());
}

/// A segment still on the screen: its right edge lies less than a tile left
/// of the screen.
pub open spec fn terrain_onscreen() -> spec_fn(TerrainSegment) -> bool {
    |t: TerrainSegment| onscreen_right(t@.pos.x + t@.pos.w)
}

/// Removes the segments whose right edge lies at least a tile left of the
/// screen; the others stay, in their order.
pub fn remove_offscreen_terrain(all_terrain: &mut Vec<TerrainSegment>)
    ensures
        final(all_terrain)@ == old(all_terrain)@.filter(terrain_onscreen()),
        final(all_terrain)@.len() <= old(all_terrain)@.len(),
{
    let ghost s0 = all_terrain@;
    let mut rights: Vec<i32> = Vec::new();
    let n = all_terrain.len();
    let mut i: usize = 0;
    while i < n
        invariant
            n == s0.len(),
            s0 == all_terrain@,
            i <= n,
            rights@.len() == i,
            forall|k: int| 0 <= k < i ==> rights@[k] == s0[k]@.pos.x + s0[k]@.pos.w,
        decreases n - i,
    {
        let x = all_terrain[i].x();
        let w = all_terrain[i].w();
        rights.push(x + w);
        i = i + 1;
    }
    proof {
        lemma_kept_is_filter(s0, rights@, terrain_onscreen(), n as int);
        assert(s0.take(n as int) =~= s0);
    }
    remove_offscreen(all_terrain, &rights);
}

/// A coin still on the screen: the right edge of its tile lies less than a
/// tile left of the screen.
pub open spec fn coin_onscreen() -> spec_fn(Coin) -> bool {
    |c: Coin| onscreen_right(c@.hitbox.x + TILE_SIZE)
}

/// Removes the coins whose tile lies at least a tile left of the screen; the
/// others stay, in their order.
pub fn remove_offscreen_coins(all_coins: &mut Vec<Coin>)
    ensures
        final(all_coins)@ == old(all_coins)@.filter(coin_onscreen()),
        final(all_coins)@.len() <= old(all_coins)@.len(),
{
    let ghost s0 = all_coins@;
    let mut rights: Vec<i32> = Vec::new();
    let n = all_coins.len();
    let mut i: usize = 0;
    while i < n
        invariant
            n == s0.len(),
            s0 == all_coins@,
            i <= n,
            rights@.len() == i,
            forall|k: int| 0 <= k < i ==> rights@[k] == s0[k]@.hitbox.x + TILE_SIZE,
        decreases n - i,
    {
        let hb = all_coins[i].hitbox();
        rights.push(hb.x() + TILE_SIZE as i32);
        i = i + 1;
    }
    proof {
        lemma_kept_is_filter(s0, rights@, coin_onscreen(), n as int);
        assert(s0.take(n as int) =~= s0);
    }
    remove_offscreen(all_coins, &rights);
}

/// A power-up still on the screen: the right edge of its tile lies less than
/// a tile left of the screen.
pub open spec fn power_onscreen() -> spec_fn(Power) -> bool {
    |q: Power| onscreen_right(q@.hitbox.x + TILE_SIZE)
}

/// Removes the power-ups whose tile lies at least a tile left of the screen;
/// the others stay, in their order.
pub fn remove_offscreen_powers(all_powers: &mut Vec<Power>)
    ensures
        final(all_powers)@ == old(all_powers)@.filter(power_onscreen()),
        final(all_powers)@.len() <= old(all_powers)@.len(),
{
    let ghost s0 = all_powers@;
    let mut rights: Vec<i32> = Vec::new();
    let n = all_powers.len();
    let mut i: usize = 0;
    while i < n
        invariant
            n == s0.len(),
            s0 == all_powers@,
            i <= n,
            rights@.len() == i,
            forall|k: int| 0 <= k < i ==> rights@[k] == s0[k]@.hitbox.x + TILE_SIZE,
        decreases n - i,
    {
        let hb = all_powers[i].hitbox();
        rights.push(hb.x() + TILE_SIZE as i32);
        i = i + 1;
    }
    proof {
        lemma_kept_is_filter(s0, rights@, power_onscreen(), n as int);
        assert(s0.take(n as int) =~= s0);
    }
    remove_offscreen(all_powers, &rights);
}

/// The player with hitbox `p` takes the coin now: touches it, and it had not
/// been collected.
pub open spec fn coin_taken(p: RectView, c: CoinView) -> bool {
    p.overlaps(c.hitbox) && !c.collected
}

/// The coins that stay when the player with hitbox `p` passes: those not
/// taken now.
pub open spec fn coin_stays(p: RectView) -> spec_fn(Coin) -> bool {
    |c: Coin| !coin_taken(p, c@)
}

/// The number of coins that the player with hitbox `p` takes among the first
/// `n`, and the sum of their values.
pub open spec fn coin_pass(p: RectView, s: Seq<Coin>, n: int) -> (int, int)
    decreases n,
{
    if n <= 0 {
        (0, 0)
    } else {
        let prev = coin_pass(p, s, n - 1);
        if coin_taken(p, s[n - 1]@) {
            (prev.0 + 1, prev.1 + s[n - 1]@.value)
        } else {
            prev
        }
    }
}

/// The player with hitbox `p` takes the power-up now: touches it, and it had
/// not been collected.
pub open spec fn power_taken(p: RectView, q: PowerView) -> bool {
    p.overlaps(q.hitbox) && !q.collected
}

/// The power-ups that stay when the player with hitbox `p` passes: those not
/// taken now.
pub open spec fn power_stays(p: RectView) -> spec_fn(Power) -> bool {
    |q: Power| !power_taken(p, q@)
}

/// The kind of the last power-up that the player with hitbox `p` takes among
/// the first `n`, if any.
pub open spec fn power_pass(p: RectView, s: Seq<Power>, n: int) -> Option<PowerType>
    decreases n,
{
    if n <= 0 {
        None
    } else if power_taken(p, s[n - 1]@) {
        Some(s[n - 1]@.power_type)
    } else {
        power_pass(p, s, n - 1)
    }
}

impl RunnerState {
    /// Collects the coins the player touches and that were not collected
    /// before: each adds one to the coin count and its value to the points of
    /// the frame, and leaves the terrain. The other coins stay, in their
    /// order. Returns the points of the frame.
    pub fn collect_coins(&mut self, player: &mut Player, all_coins: &mut Vec<Coin>, step_score: i32) -> (r: i32)
        requires
            forall|n: int|
                0 <= n <= old(all_coins)@.len() ==> {
                    let t = #[trigger] coin_pass(old(player)@.hitbox, old(all_coins)@, n);
                    &&& old(self).coin_count + t.0 <= i32::MAX
                    &&& i32::MIN <= step_score + t.1 <= i32::MAX
                },
        ensures
            ({
                let p = old(player)@.hitbox;
                let t = coin_pass(p, old(all_coins)@, old(all_coins)@.len() as int);
                &&& *final(self) == RunnerState {
                    coin_count: (old(self).coin_count + t.0) as i32,
                    ..*old(self)
                }
                &&& r == step_score + t.1
                &&& final(player)@ == old(player)@
                &&& final(all_coins)@ == old(all_coins)@.filter(coin_stays(p))
            }),
            final(all_coins)@.len() <= old(all_coins)@.len(),
    {
        let ghost p = player@.hitbox;
        let ghost s0 = all_coins@;
        let ghost st0 = *self;
        let mut score = step_score;
        let n = all_coins.len();
        let mut i: usize = 0;
        let mut j: usize = 0;
        proof {
            lemma_filter_none(s0, coin_stays(p));
            assert(s0.skip(0) =~= s0);
        }
        while j < n
            invariant
                n == s0.len(),
                j <= n,
                player@ == old(player)@,
                player@.hitbox == p,
                forall|m: int|
                    0 <= m <= n ==> {
                        let t = #[trigger] coin_pass(p, s0, m);
                        &&& st0.coin_count + t.0 <= i32::MAX
                        &&& i32::MIN <= step_score + t.1 <= i32::MAX
                    },
                i == s0.take(j as int).filter(coin_stays(p)).len(),
                all_coins@ == s0.take(j as int).filter(coin_stays(p)) + s0.skip(j as int),
                self.coin_count == st0.coin_count + coin_pass(p, s0, j as int).0,
                score == step_score + coin_pass(p, s0, j as int).1,
                *self == (RunnerState { coin_count: self.coin_count, ..st0 }),
            decreases n - j,
        {
            let ghost k = s0.take(j as int).filter(coin_stays(p));
            proof {
                lemma_filter_step(s0, coin_stays(p), j as int);
                let _ = coin_pass(p, s0, j + 1);
            }
            assert(all_coins@[i as int] == s0[j as int]);
            if Physics::check_collision(&*player, &all_coins[i]) && !all_coins[i].collected() {
                let mut coin = all_coins.remove(i);
                assert(all_coins@ =~= k + s0.skip(j + 1));
                if player.collide_coin(&mut coin) {
                    self.coin_count = self.coin_count + 1;
                    score = score + coin.value();
                }
            } else {
                assert(k.push(s0[j as int]) + s0.skip(j + 1) =~= k + s0.skip(j as int));
                i = i + 1;
            }
            j = j + 1;
        }
        proof {
            assert(s0.take(n as int) =~= s0);
            assert(s0.skip(n as int) =~= Seq::<Coin>::empty());
            assert(all_coins@ =~= s0.filter(coin_stays(p)));
            s0.lemma_filter_len(coin_stays(p));
        }
        score
    }

    /// Lets the player pick up the power-ups they touch and that were not
    /// collected before: each is received in turn, so that the player ends
    /// with the last one's kind, sets the power-up timer to its full duration,
    /// and leaves the terrain. The other power-ups stay, in their order.
    pub fn collect_powers(&mut self, player: &mut Player, all_powers: &mut Vec<Power>)
        ensures
            ({
                let p = old(player)@.hitbox;
                let t = power_pass(p, old(all_powers)@, old(all_powers)@.len() as int);
                &&& *final(self) == (if t is Some {
                    RunnerState { power_timer: POWER_DURATION, ..*old(self) }
                } else {
                    *old(self)
                })
                &&& final(player)@ == (if t is Some {
                    PlayerView { power_up: t, ..old(player)@ }
                } else {
                    old(player)@
                })
                &&& final(all_powers)@ == old(all_powers)@.filter(power_stays(p))
            }),
            final(all_powers)@.len() <= old(all_powers)@.len(),
    {
        let ghost p = player@.hitbox;
        let ghost s0 = all_powers@;
        let ghost st0 = *self;
        let ghost pl0 = player@;
        let n = all_powers.len();
        let mut i: usize = 0;
        let mut j: usize = 0;
        proof {
            lemma_filter_none(s0, power_stays(p));
            assert(s0.skip(0) =~= s0);
        }
        while j < n
            invariant
                n == s0.len(),
                j <= n,
                pl0 == old(player)@,
                pl0.hitbox == p,
                i == s0.take(j as int).filter(power_stays(p)).len(),
                all_powers@ == s0.take(j as int).filter(power_stays(p)) + s0.skip(j as int),
                player@ == (if power_pass(p, s0, j as int) is Some {
                    PlayerView { power_up: power_pass(p, s0, j as int), ..pl0 }
                } else {
                    pl0
                }),
                *self == (if power_pass(p, s0, j as int) is Some {
                    RunnerState { power_timer: POWER_DURATION, ..st0 }
                } else {
                    st0
                }),
            decreases n - j,
        {
            let ghost k = s0.take(j as int).filter(power_stays(p));
            proof {
                lemma_filter_step(s0, power_stays(p), j as int);
                let _ = power_pass(p, s0, j + 1);
            }
            assert(all_powers@[i as int] == s0[j as int]);
            if Physics::check_collision(&*player, &all_powers[i]) && !all_powers[i].collected() {
                let mut power = all_powers.remove(i);
                assert(all_powers@ =~= k + s0.skip(j + 1));
                if player.collide_power(&mut power) {
                    self.power_timer = POWER_DURATION;
                }
            } else {
                assert(k.push(s0[j as int]) + s0.skip(j + 1) =~= k + s0.skip(j as int));
                i = i + 1;
            }
            j = j + 1;
        }
        proof {
            assert(s0.take(n as int) =~= s0);
            assert(s0.skip(n as int) =~= Seq::<Power>::empty());
            assert(all_powers@ =~= s0.filter(power_stays(p)));
            s0.lemma_filter_len(power_stays(p));
        }
    }
}

/// The height of the flat ground the game starts on.
pub const START_GROUND_Y: i32 = 480;

/// A flat curve at the starting ground height over `CAM_W` columns from `x0`.
pub open spec fn flat_curve(x0: int) -> Seq<(i32, i32)> {
    Seq::new(CAM_W as nat, |i: int| ((x0 + i) as i32, START_GROUND_Y))
}

/// The flat grass segment the game starts with at column `x0`.
pub open spec fn start_segment(x0: int) -> TerrainView {
    TerrainView {
        pos: RectView::clamped(x0, START_GROUND_Y as int, CAM_W as int, START_GROUND_Y as int),
        curve: flat_curve(x0),
        terrain_type: TerrainType::Grass,
        control_points: seq![(-1i32, -1i32), (-1i32, -1i32), (-1i32, -1i32), (-1i32, -1i32)],
    }
}

fn flat_segment(x0: i32) -> (t: TerrainSegment)
    requires
        0 <= x0 <= CAM_W,
    ensures
        t@ == start_segment(x0 as int),
{
    let mut curve: Vec<(i32, i32)> = Vec::new();
    let mut i: i32 = 0;
    while i < CAM_W as i32
        invariant
            0 <= x0 <= CAM_W,
            0 <= i <= CAM_W,
            curve@ =~= flat_curve(x0 as int).take(i as int),
        decreases CAM_W - i,
    {
        curve.push((x0 + i, START_GROUND_Y));
        i = i + 1;
    }
    assert(curve@ =~= flat_curve(x0 as int));
    let ctrl = [(-1i32, -1i32), (-1i32, -1i32), (-1i32, -1i32), (-1i32, -1i32)];
    let t = TerrainSegment::new(
        Rect::new(x0, START_GROUND_Y, CAM_W, START_GROUND_Y as u32),
        curve,
        TerrainType::Grass,
        ctrl,
    );
    assert(t@.control_points =~= start_segment(x0 as int).control_points);
    t
}

/// The terrain the game starts on: two screens of flat grass.
pub fn initial_terrain() -> (r: Vec<TerrainSegment>)
    ensures
        r@.len() == 2,
        r@[0]@ == start_segment(0),
        r@[1]@ == start_segment(CAM_W as int),
{
    let mut all_terrain: Vec<TerrainSegment> = Vec::new();
    all_terrain.push(flat_segment(0));
    all_terrain.push(flat_segment(CAM_W as i32));
    all_terrain
}

/// Size of the table of gradients for the terrain noise.
pub const GRADIENT_TABLE_SIZE: usize = 256;

/// Entry `(i, j)` of the gradient table is random: every entry but those of
/// the last row and the last column, which stay `(0, 0)`.
pub open spec fn gradient_is_random(i: int, j: int) -> bool {
    i < GRADIENT_TABLE_SIZE - 1 && j < GRADIENT_TABLE_SIZE - 1
}

/// Whether `row` is row `i` of a gradient table: random entries lie in
/// `[0, 256)` on both axes and the others are `(0, 0)`.
pub open spec fn gradient_row(row: Seq<(i32, i32)>, i: int) -> bool {
    &&& row.len() == GRADIENT_TABLE_SIZE
    &&& forall|j: int|
        0 <= j < GRADIENT_TABLE_SIZE ==> if gradient_is_random(i, j) {
            0 <= (#[trigger] row[j]).0 < 256 && 0 <= row[j].1 < 256
        } else {
            row[j] == (0i32, 0i32)
        }
}

fn gradient_row_new(i: usize) -> (row: Vec<(i32, i32)>)
    requires
        i < GRADIENT_TABLE_SIZE,
    ensures
        gradient_row(row@, i as int),
{
    let mut row: Vec<(i32, i32)> = Vec::new();
    let mut j: usize = 0;
    while j < GRADIENT_TABLE_SIZE
        invariant
            i < GRADIENT_TABLE_SIZE,
            j <= GRADIENT_TABLE_SIZE,
            row@.len() == j,
            forall|k: int|
                0 <= k < j ==> if gradient_is_random(i as int, k) {
                    0 <= (#[trigger] row@[k]).0 < 256 && 0 <= row@[k].1 < 256
                } else {
                    row@[k] == (0i32, 0i32)
                },
        decreases GRADIENT_TABLE_SIZE - j,
    {
        if i < GRADIENT_TABLE_SIZE - 1 && j < GRADIENT_TABLE_SIZE - 1 {
            let a = crate::random::random_below(0, 256);
            let b = crate::random::random_below(0, 256);
            row.push((a, b));
        } else {
            row.push((0, 0));
        }
        j = j + 1;
    }
    row
}

/// A table of random gradients for the terrain noise: 256 rows of 256
/// entries, each random entry drawn from `[0, 256)` on both axes; the last
/// row and the last column are `(0, 0)`.
pub fn gradient_table() -> (t: Vec<Vec<(i32, i32)>>)
    ensures
        t@.len() == GRADIENT_TABLE_SIZE,
        forall|i: int| 0 <= i < GRADIENT_TABLE_SIZE ==> gradient_row((#[trigger] t@[i])@, i),
{
    let mut t: Vec<Vec<(i32, i32)>> = Vec::new();
    let mut i: usize = 0;
    while i < GRADIENT_TABLE_SIZE
        invariant
            i <= GRADIENT_TABLE_SIZE,
            t@.len() == i,
            forall|k: int| 0 <= k < i ==> gradient_row((#[trigger] t@[k])@, k),
        decreases GRADIENT_TABLE_SIZE - i,
    {
        t.push(gradient_row_new(i));
        i = i + 1;
    }
    t
}

} // verus!
