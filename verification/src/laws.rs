//! Properties of the game that hold across calls and across all inputs.
use vstd::prelude::*;
use crate::rect::{RectView, clamp_position, MAX_INT_VALUE, MIN_INT_VALUE};
use crate::types::{ObstacleType, PowerType, StaticObject, TerrainType};
use crate::physics::{
    CoinView, PowerView, PlayerView, ObstacleView, ObstacleResponse, obstacle_collision, side_hit,
    coin_collision, power_collision,
};
use crate::proceduralgen::{TerrainView, shifted, shift_fits, terrain_for_roll, object_for_roll};
use crate::runner::{
    spawn_gap, camera_shift, power_tick, frame_points, coin_pass, coin_taken, coin_stays,
    power_taken, power_stays, onscreen_right, terrain_onscreen, coin_onscreen, power_onscreen,
    TERRAIN_UPPER_BOUND, TERRAIN_LOWER_BOUND, POWER_DURATION, ground_index, ground_point,
    ground_type,
};
use crate::physics::{Coin, Power};
use crate::proceduralgen::TerrainSegment;
use crate::demo::{resisted, DemoView, TILE_SIZE, CAM_H, RTHIRD, LTHIRD};

verus! {

/// Collision is symmetric: `a` overlaps `b` exactly when `b` overlaps `a`.
pub proof fn lemma_overlap_symmetric(a: RectView, b: RectView)
    ensures
        a.overlaps(b) == b.overlaps(a),
{
}

/// Rectangles that only share an edge do not overlap.
pub proof fn lemma_touching_edges_do_not_overlap(a: RectView, b: RectView)
    requires
        a.right() == b.x || a.bottom() == b.y,
    ensures
        !a.overlaps(b),
{
}

/// The intersection of two overlapping rectangles is a rectangle of positive
/// size lying within both, and every point of both lies in it.
pub proof fn lemma_intersection_within_both(a: RectView, b: RectView, px: int, py: int)
    requires
        a.wf(),
        b.wf(),
        a.overlaps(b),
    ensures
        a.intersection(b).wf(),
        a.x <= a.intersection(b).x && a.intersection(b).right() <= a.right(),
        b.x <= a.intersection(b).x && a.intersection(b).right() <= b.right(),
        a.y <= a.intersection(b).y && a.intersection(b).bottom() <= a.bottom(),
        b.y <= a.intersection(b).y && a.intersection(b).bottom() <= b.bottom(),
        a.intersection(b).contains(px, py) <==> (a.contains(px, py) && b.contains(px, py)),
{
}

/// A coin counts once: colliding again with a coin the player has just
/// collected counts nothing and changes neither the player nor the coin.
pub proof fn lemma_coin_counts_once(p: PlayerView, c: CoinView)
    ensures
        ({
            let (p1, c1, _) = coin_collision(p, c);
            coin_collision(p1, c1) == (p1, c1, false)
        }),
{
}

/// A power-up is received once: colliding again with a power-up the player
/// has just picked up counts nothing and changes neither the player nor the
/// power-up.
pub proof fn lemma_power_received_once(p: PlayerView, q: PowerView)
    ensures
        ({
            let (p1, q1, _) = power_collision(p, q);
            power_collision(p1, q1) == (p1, q1, false)
        }),
{
}

/// With a shield the player survives every collision with an obstacle, a bad
/// landing on top of one included.
pub proof fn lemma_shield_protects(p: PlayerView, o: ObstacleView, descending: bool, upright: bool)
    requires
        p.power_up == Some(PowerType::Shield),
    ensures
        !obstacle_collision(p, o, descending, upright).2,
{
}

/// A balloon never ends the game.
pub proof fn lemma_balloon_harmless(p: PlayerView, o: ObstacleView, descending: bool, upright: bool)
    requires
        o.obstacle_type == ObstacleType::Balloon,
    ensures
        !obstacle_collision(p, o, descending, upright).2,
{
}

/// A chest or bench that has been run into already is ignored: it no longer
/// ends the game nor changes anything.
pub proof fn lemma_collided_chest_ignored(
    p: PlayerView,
    o: ObstacleView,
    descending: bool,
    upright: bool,
)
    requires
        o.obstacle_type == ObstacleType::Chest || o.obstacle_type == ObstacleType::Bench,
        o.collided,
    ensures
        obstacle_collision(p, o, descending, upright) == (p, o, false, ObstacleResponse::Pass),
{
}

/// Only a running jump that comes down can land on or bounce off an obstacle;
/// otherwise only the side of an obstacle matters.
pub proof fn lemma_top_needs_descent(p: PlayerView, o: ObstacleView, descending: bool, upright: bool)
    requires
        !side_hit(p.hitbox, o.hitbox),
        !(p.jumping && descending),
    ensures
        obstacle_collision(p, o, descending, upright) == (p, o, false, ObstacleResponse::Pass),
{
}

/// Moving points by an offset and back restores them.
pub proof fn lemma_shift_round_trip(s: Seq<(i32, i32)>, dx: int, dy: int)
    requires
        shift_fits(s, dx, dy),
    ensures
        shift_fits(shifted(s, dx, dy), -dx, -dy),
        shifted(shifted(s, dx, dy), -dx, -dy) == s,
{
    assert(shifted(shifted(s, dx, dy), -dx, -dy) =~= s);
}

/// Moving a terrain segment with the camera and back restores it, as long as
/// its box stays within the range of rectangles.
pub proof fn lemma_terrain_camera_round_trip(t: TerrainView, dx: int, dy: int)
    requires
        t.camera_fits(dx, dy),
        MIN_INT_VALUE <= t.pos.x + dx <= MAX_INT_VALUE,
        MIN_INT_VALUE <= t.pos.y + dy <= MAX_INT_VALUE,
        t.pos.wf(),
    ensures
        t.camera_moved(dx, dy).camera_fits(-dx, -dy),
        t.camera_moved(dx, dy).camera_moved(-dx, -dy) == t,
{
    lemma_shift_round_trip(t.curve, dx, dy);
    lemma_shift_round_trip(t.control_points, dx, dy);
}

/// Two shifts of a terrain segment to the left add up, as long as its box
/// stays within the range of rectangles.
pub proof fn lemma_terrain_travel_adds(t: TerrainView, a: int, b: int)
    requires
        t.travel_fits(a),
        t.traveled(a).travel_fits(b),
        MIN_INT_VALUE <= t.pos.x - a <= MAX_INT_VALUE,
    ensures
        t.travel_fits(a + b),
        t.traveled(a).traveled(b) == t.traveled(a + b),
{
    assert forall|i: int| 0 <= i < t.curve.len() implies i32::MIN <= #[trigger] t.curve[i].0 - (a + b)
        <= i32::MAX && i32::MIN <= t.curve[i].1 + 0 <= i32::MAX by {
        assert(t.traveled(a).curve[i].0 == t.curve[i].0 - a);
    }
    assert forall|i: int|
        0 <= i < t.control_points.len() implies i32::MIN <= #[trigger] t.control_points[i].0 - (a
        + b) <= i32::MAX && i32::MIN <= t.control_points[i].1 + 0 <= i32::MAX by {
        assert(t.traveled(a).control_points[i].0 == t.control_points[i].0 - a);
    }
    assert(t.traveled(a).traveled(b).curve =~= t.traveled(a + b).curve);
    assert(t.traveled(a).traveled(b).control_points =~= t.traveled(a + b).control_points);
}

/// Moving a coin with the camera and back restores its position, with its
/// hitbox aligned to that position.
pub proof fn lemma_coin_camera_round_trip(c: CoinView, dx: int, dy: int)
    requires
        c.camera_fits(dx, dy),
        i32::MIN <= c.pos.0 <= i32::MAX,
        i32::MIN <= c.pos.1 <= i32::MAX,
    ensures
        c.camera_moved(dx, dy).camera_fits(-dx, -dy),
        c.camera_moved(dx, dy).camera_moved(-dx, -dy) == (CoinView {
            hitbox: RectView {
                x: clamp_position(c.pos.0),
                y: clamp_position(c.pos.1),
                ..c.hitbox
            },
            ..c
        }),
{
}

/// Two shifts of a coin to the left add up.
pub proof fn lemma_coin_travel_adds(c: CoinView, a: int, b: int)
    ensures
        c.traveled(a).traveled(b) == c.traveled(a + b),
{
}

/// The gap between spawns shrinks as the score grows, from 500 frames down to
/// 300.
pub proof fn lemma_spawn_gap_shrinks(s1: int, s2: int)
    requires
        s1 <= s2,
    ensures
        spawn_gap(s2) <= spawn_gap(s1),
        300 <= spawn_gap(s1) <= 500,
{
    if s1 > 10000 && s2 <= 100000 {
        assert((s1 - 1) / 10000 <= (s2 - 1) / 10000) by (nonlinear_arith)
            requires
                s1 <= s2,
        ;
    }
    if 10000 < s1 <= 100000 {
        assert(1 <= (s1 - 1) / 10000 <= 9) by (nonlinear_arith)
            requires
                10000 < s1 <= 100000,
        ;
    }
    if 10000 < s2 <= 100000 {
        assert(1 <= (s2 - 1) / 10000 <= 9) by (nonlinear_arith)
            requires
                10000 < s2 <= 100000,
        ;
    }
}

/// After the camera adjustment the ground under the player lies between the
/// two bounds.
pub proof fn lemma_camera_keeps_ground_in_view(ground_y: int)
    ensures
        TERRAIN_UPPER_BOUND <= ground_y + camera_shift(ground_y) <= TERRAIN_LOWER_BOUND,
{
}

/// The power-up timer after `k` frames from `timer`.
pub open spec fn power_ticks(timer: int, k: nat) -> int
    decreases k,
{
    if k == 0 {
        timer
    } else {
        power_tick(power_ticks(timer, (k - 1) as nat))
    }
}

/// A power-up picked up lasts its full duration: its timer reaches zero after
/// `POWER_DURATION` frames, and the frame after that takes the power-up away
/// and stops the timer.
pub proof fn lemma_power_lasts(k: nat)
    requires
        k <= POWER_DURATION,
    ensures
        power_ticks(POWER_DURATION as int, k) == POWER_DURATION - k,
        power_ticks(POWER_DURATION as int, (POWER_DURATION + 1) as nat) == -1,
        power_ticks(POWER_DURATION as int, (POWER_DURATION + 2) as nat) == -1,
    decreases k,
{
    if k > 0 {
        lemma_power_lasts((k - 1) as nat);
    }
    lemma_power_ticks_down(POWER_DURATION as int, POWER_DURATION as nat);
    assert(power_ticks(POWER_DURATION as int, (POWER_DURATION + 1) as nat) == power_tick(
        power_ticks(POWER_DURATION as int, POWER_DURATION as nat),
    ));
    assert(power_ticks(POWER_DURATION as int, (POWER_DURATION + 2) as nat) == power_tick(
        power_ticks(POWER_DURATION as int, (POWER_DURATION + 1) as nat),
    ));
}

proof fn lemma_power_ticks_down(t: int, k: nat)
    requires
        0 <= k <= t,
    ensures
        power_ticks(t, k) == t - k,
    decreases k,
{
    if k > 0 {
        lemma_power_ticks_down(t, (k - 1) as nat);
    }
}

/// The score multiplier doubles the points of a frame.
pub proof fn lemma_multiplier_doubles(step_score: int)
    ensures
        frame_points(step_score, true) == 2 * frame_points(step_score, false),
{
}

/// Grass is picked exactly by the rolls above the three lowest, so the higher
/// the die's top, the more likely grass.
pub proof fn lemma_grass_rolls(roll: int)
    requires
        0 <= roll,
    ensures
        (terrain_for_roll(roll) == TerrainType::Grass) == (roll >= 3),
{
}

/// Without motion asked for, the change of velocity opposes the motion.
pub proof fn lemma_resist_opposes(vel: int)
    ensures
        vel > 0 ==> resisted(vel, 0) < 0,
        vel < 0 ==> resisted(vel, 0) > 0,
        vel == 0 ==> resisted(vel, 0) == 0,
{
}

/// The demo keeps the player within the level and above the bottom two tiles,
/// and its speeds within the limit.
pub proof fn lemma_demo_player_in_bounds(s: DemoView, jump_pressed: bool)
    requires
        s.wf(),
        s.step_ok(jump_pressed),
    ensures
        0 <= s.step(jump_pressed).pos.x <= s.step(jump_pressed).level_len - TILE_SIZE,
        0 <= s.step(jump_pressed).pos.y <= CAM_H - 2 * TILE_SIZE,
        s.step(jump_pressed).wf(),
{
}

/// When only one coin is touched and it had not been collected, its points
/// are gained and one coin is counted.
pub proof fn lemma_single_coin_counted(p: RectView, s: Seq<Coin>, i: int)
    requires
        0 <= i < s.len(),
        p.overlaps(s[i]@.hitbox),
        !s[i]@.collected,
        forall|j: int| 0 <= j < s.len() && j != i ==> !p.overlaps((#[trigger] s[j])@.hitbox),
    ensures
        coin_pass(p, s, s.len() as int) == (1int, s[i]@.value),
{
    lemma_coin_pass_single(p, s, i, s.len() as int);
}

proof fn lemma_coin_pass_single(p: RectView, s: Seq<Coin>, i: int, n: int)
    requires
        0 <= i < s.len(),
        0 <= n <= s.len(),
        p.overlaps(s[i]@.hitbox),
        !s[i]@.collected,
        forall|j: int| 0 <= j < s.len() && j != i ==> !p.overlaps((#[trigger] s[j])@.hitbox),
    ensures
        n <= i ==> coin_pass(p, s, n) == (0int, 0int),
        n > i ==> coin_pass(p, s, n) == (1int, s[i]@.value),
    decreases n,
{
    if n > 0 {
        lemma_coin_pass_single(p, s, i, n - 1);
        let _ = s[n - 1];
    }
}

/// What remains after keeping the elements for which `keep` holds: every
/// element that remains was there and is kept, and every element that was
/// there and is kept remains.
proof fn lemma_filter_exact<A>(s: Seq<A>, keep: spec_fn(A) -> bool)
    ensures
        forall|x: A| s.filter(keep).contains(x) <==> (s.contains(x) && keep(x)),
        s.filter(keep).len() <= s.len(),
{
    s.lemma_filter_len(keep);
    assert forall|x: A| s.filter(keep).contains(x) <==> (s.contains(x) && keep(x)) by {
        if s.filter(keep).contains(x) {
            s.lemma_filter_contains_rev(keep, x);
        }
        if s.contains(x) && keep(x) {
            let i = choose|i: int| 0 <= i < s.len() && s[i] == x;
            s.lemma_filter_contains(keep, i);
        }
    }
}

/// Collecting coins removes exactly the coins taken now: a coin remains
/// exactly when it was there and the player did not take it.
pub proof fn lemma_collected_coins_leave(p: RectView, s: Seq<Coin>)
    ensures
        forall|c: Coin|
            s.filter(coin_stays(p)).contains(c) <==> (s.contains(c) && !coin_taken(p, c@)),
{
    lemma_filter_exact(s, coin_stays(p));
}

/// Collecting power-ups removes exactly the power-ups taken now: a power-up
/// remains exactly when it was there and the player did not take it.
pub proof fn lemma_collected_powers_leave(p: RectView, s: Seq<Power>)
    ensures
        forall|q: Power|
            s.filter(power_stays(p)).contains(q) <==> (s.contains(q) && !power_taken(p, q@)),
{
    lemma_filter_exact(s, power_stays(p));
}

/// Removing what left the screen removes exactly that: a segment, coin or
/// power-up remains exactly when it was there and is still on the screen.
pub proof fn lemma_offscreen_removal_exact(t: Seq<TerrainSegment>, c: Seq<Coin>, q: Seq<Power>)
    ensures
        forall|x: TerrainSegment|
            t.filter(terrain_onscreen()).contains(x) <==> (t.contains(x) && onscreen_right(
                x@.pos.x + x@.pos.w,
            )),
        forall|x: Coin|
            c.filter(coin_onscreen()).contains(x) <==> (c.contains(x) && onscreen_right(
                x@.hitbox.x + TILE_SIZE,
            )),
        forall|x: Power|
            q.filter(power_onscreen()).contains(x) <==> (q.contains(x) && onscreen_right(
                x@.hitbox.x + TILE_SIZE,
            )),
{
    lemma_filter_exact(t, terrain_onscreen());
    lemma_filter_exact(c, coin_onscreen());
    lemma_filter_exact(q, power_onscreen());
}

/// Running into the side of a statue, chest or bench that nothing has hit
/// yet ends the game for a player without a shield, and knocks the player
/// back.
pub proof fn lemma_side_hit_ends_game(p: PlayerView, o: ObstacleView, descending: bool, upright: bool)
    requires
        side_hit(p.hitbox, o.hitbox),
        o.obstacle_type != ObstacleType::Balloon,
        !o.collided,
        p.power_up != Some(PowerType::Shield),
    ensures
        obstacle_collision(p, o, descending, upright).2,
        obstacle_collision(p, o, descending, upright).3 == (ObstacleResponse::Knock {
            player_moves: true,
        }),
        obstacle_collision(p, o, descending, upright).1.collided,
{
}

/// The camera's right checkpoint is at a screen boundary.
pub open spec fn at_right_checkpoint(scroll_offset: int) -> bool {
    (scroll_offset + RTHIRD) % (crate::demo::CAM_W as int) == 0
}

/// The camera's left checkpoint is at a screen boundary.
pub open spec fn at_left_checkpoint(scroll_offset: int) -> bool {
    (scroll_offset - LTHIRD) % (crate::demo::CAM_W as int) == 0
}

/// Once the camera's right checkpoint reaches a screen boundary (and the
/// left one does not), the next frame of the demo makes the level a screen
/// longer; at the left checkpoint alone it makes it a screen shorter;
/// elsewhere the level keeps its length.
pub proof fn lemma_demo_level_follows_checkpoints(s: DemoView, jump_pressed: bool)
    ensures
        (at_right_checkpoint(s.scroll_offset) && !at_left_checkpoint(s.scroll_offset)) ==> (
        s.step(jump_pressed).level_len == s.level_len + crate::demo::CAM_W),
        (!at_right_checkpoint(s.scroll_offset) && at_left_checkpoint(s.scroll_offset)) ==> (
        s.step(jump_pressed).level_len == s.level_len - crate::demo::CAM_W),
        (!at_right_checkpoint(s.scroll_offset) && !at_left_checkpoint(s.scroll_offset)) ==> (
        s.step(jump_pressed).level_len == s.level_len),
{
}

/// Every kind of object is the face of some roll of the object die over
/// `[0, 5]`, so every kind can spawn.
pub proof fn lemma_object_die_reaches_every_kind(o: StaticObject)
    ensures
        exists|roll: int| 0 <= roll <= 5 && object_for_roll(roll) == o,
{
    let roll: int = match o {
        StaticObject::Statue => 0,
        StaticObject::Balloon => 1,
        StaticObject::Chest => 2,
        StaticObject::Coin => 3,
        StaticObject::Power => 4,
        StaticObject::Bench => 5,
    };
    assert(object_for_roll(roll) == o);
}

/// The segment under column `x` among the first `n`: `k` starts at or before
/// `x`, and every later one starts after it.
proof fn lemma_ground_index_is_last_start(s: Seq<TerrainSegment>, x: int, k: int, n: int)
    requires
        0 <= k < n <= s.len(),
        s[k]@.pos.x <= x,
        forall|j: int| k < j < n ==> (#[trigger] s[j])@.pos.x > x,
    ensures
        ground_index(s, x, n) == k,
    decreases n,
{
    if n > k + 1 {
        lemma_ground_index_is_last_start(s, x, k, n - 1);
    }
}

proof fn lemma_ground_index_none(s: Seq<TerrainSegment>, x: int, n: int)
    requires
        0 <= n <= s.len(),
        forall|j: int| 0 <= j < n ==> (#[trigger] s[j])@.pos.x > x,
    ensures
        ground_index(s, x, n) == -1,
    decreases n,
{
    if n > 0 {
        lemma_ground_index_none(s, x, n - 1);
    }
}

/// The ground under column `x` lies on the curve of the segment under it:
/// where `s[k]` is the last segment starting at or before `x`, the ground
/// point is the point of its curve at column `x`; where no segment starts at
/// or before `x`, there is no ground, `(-1, -1)`.
pub proof fn lemma_ground_on_curve(s: Seq<TerrainSegment>, x: int, k: int)
    requires
        0 <= k < s.len(),
        s[k]@.pos.x <= x,
        forall|j: int| k < j < s.len() ==> (#[trigger] s[j])@.pos.x > x,
    ensures
        ground_point(s, x) == (
            clamp_position(s[k]@.curve[x - s[k]@.pos.x].0 as int),
            clamp_position(s[k]@.curve[x - s[k]@.pos.x].1 as int),
        ),
{
    lemma_ground_index_is_last_start(s, x, k, s.len() as int);
}

/// Left of every segment there is no ground: the ground point is `(-1, -1)`
/// and the surface defaults to grass.
pub proof fn lemma_no_ground_left_of_terrain(s: Seq<TerrainSegment>, x: int)
    requires
        forall|j: int| 0 <= j < s.len() ==> (#[trigger] s[j])@.pos.x > x,
    ensures
        ground_point(s, x) == (-1int, -1int),
        ground_type(s, x) == TerrainType::Grass,
{
    lemma_ground_index_none(s, x, s.len() as int);
}

/// The surface under column `x` is that of the segment under it: the last
/// segment starting at or before `x`.
pub proof fn lemma_ground_type_under_column(s: Seq<TerrainSegment>, x: int, k: int)
    requires
        0 <= k < s.len(),
        s[k]@.pos.x <= x,
        forall|j: int| k < j < s.len() ==> (#[trigger] s[j])@.pos.x > x,
    ensures
        ground_type(s, x) == s[k]@.terrain_type,
{
    lemma_ground_index_is_last_start(s, x, k, s.len() as int);
}

} // verus!
