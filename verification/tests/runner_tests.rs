use inf_runner::physics::{Coin, Collectible, Player, Power};
use inf_runner::proceduralgen::TerrainSegment;
use inf_runner::rect::{Point, Rect};
use inf_runner::runner::{
    camera_adj_coins, camera_adj_powers, camera_adj_terrain, camera_adj_y, get_ground_coord,
    remove_offscreen,
    get_ground_type, gradient_table, initial_terrain, min_spawn_gap, obstacle_for,
    remove_offscreen_coins, remove_offscreen_powers,
    remove_offscreen_terrain, shift_curve, spawn_box, spawn_plan, travel_coins, travel_powers,
    travel_terrain, Input, Key, PlayOutcome, Runner, RunnerState, SpawnPlan, BG_CURVES_SIZE,
    GAME_OVER_DELAY, POWER_DURATION, TERRAIN_LOWER_BOUND, TERRAIN_UPPER_BOUND,
};
use inf_runner::types::{GameStatus, ObstacleType, PowerType, StaticObject, TerrainType};

fn tile(x: i32, y: i32) -> Rect {
    Rect::new(x, y, 100, 100)
}

#[test]
fn runner_init() {
    assert!(Runner::init().is_ok());
}

#[test]
fn initial_terrain_is_flat_grass() {
    let t = initial_terrain();
    assert_eq!(t.len(), 2);
    assert_eq!(t[0].pos(), Rect::new(0, 480, 1280, 480));
    assert_eq!(t[1].pos(), Rect::new(1280, 480, 1280, 480));
    assert_eq!(t[0].curve().len(), 1280);
    assert_eq!(t[1].curve().len(), 1280);
    assert_eq!(t[0].curve()[0], (0, 480));
    assert_eq!(t[0].curve()[1279], (1279, 480));
    assert_eq!(t[1].curve()[0], (1280, 480));
    assert_eq!(t[1].curve()[1279], (2559, 480));
    assert_eq!(*t[0].get_type(), TerrainType::Grass);
    assert_eq!(t[0].get_ctrl_points(), [(-1, -1); 4]);
}

#[test]
fn ground_coord_picks_last_segment_at_or_before() {
    let t = initial_terrain();
    assert_eq!(get_ground_coord(&t, 200), Point::new(200, 480));
    assert_eq!(get_ground_coord(&t, 1279), Point::new(1279, 480));
    assert_eq!(get_ground_coord(&t, 1280), Point::new(1280, 480));
    assert_eq!(get_ground_coord(&t, 2000), Point::new(2000, 480));
    assert_eq!(get_ground_coord(&t, -1), Point::new(-1, -1));
}

#[test]
fn ground_type_defaults_to_grass() {
    let curve: Vec<(i32, i32)> = (0..10).map(|i| (50 + i, 300)).collect();
    let t = vec![TerrainSegment::new(
        Rect::new(50, 300, 10, 10),
        curve,
        TerrainType::Water,
        [(0, 0); 4],
    )];
    assert_eq!(get_ground_type(&t, 55), TerrainType::Water);
    assert_eq!(get_ground_type(&t, 49), TerrainType::Grass);
    assert_eq!(get_ground_coord(&t, 59), Point::new(59, 300));
}

#[test]
fn spawn_gap_ladder() {
    assert_eq!(min_spawn_gap(i32::MIN), 500);
    assert_eq!(min_spawn_gap(0), 500);
    assert_eq!(min_spawn_gap(10000), 500);
    assert_eq!(min_spawn_gap(10001), 480);
    assert_eq!(min_spawn_gap(20000), 480);
    assert_eq!(min_spawn_gap(20001), 460);
    assert_eq!(min_spawn_gap(55555), 400);
    assert_eq!(min_spawn_gap(100000), 320);
    assert_eq!(min_spawn_gap(100001), 300);
    assert_eq!(min_spawn_gap(i32::MAX), 300);
    let mut last = 500;
    for s in (0..200000).step_by(997) {
        let g = min_spawn_gap(s);
        assert!(g <= last && (300..=500).contains(&g));
        last = g;
    }
}

#[test]
fn camera_keeps_ground_in_view() {
    assert_eq!(camera_adj_y(Point::new(0, 150)), 50);
    assert_eq!(camera_adj_y(Point::new(0, 200)), 0);
    assert_eq!(camera_adj_y(Point::new(0, 420)), 0);
    assert_eq!(camera_adj_y(Point::new(0, 421)), 99);
    assert_eq!(camera_adj_y(Point::new(0, 700)), -180);
    for y in -500..1500 {
        let g = y + camera_adj_y(Point::new(0, y));
        assert!(TERRAIN_UPPER_BOUND <= g && g <= TERRAIN_LOWER_BOUND);
    }
}

#[test]
fn spawn_box_and_obstacles() {
    assert_eq!(spawn_box(Point::new(1279, 480)), Rect::new(1279, 380, 100, 100));
    assert_eq!(obstacle_for(StaticObject::Statue), Some(ObstacleType::Statue));
    assert_eq!(obstacle_for(StaticObject::Balloon), Some(ObstacleType::Balloon));
    assert_eq!(obstacle_for(StaticObject::Chest), Some(ObstacleType::Chest));
    assert_eq!(obstacle_for(StaticObject::Bench), None);
    assert_eq!(obstacle_for(StaticObject::Coin), None);
}

#[test]
fn spawn_plans() {
    assert_eq!(spawn_plan(3, 9, 0), SpawnPlan::Wait);
    assert_eq!(spawn_plan(0, 4, 4), SpawnPlan::Spawn);
    assert_eq!(spawn_plan(0, 3, 4), SpawnPlan::Reschedule);
}

#[test]
fn spawn_tick_counts_down_and_caps() {
    let mut st = RunnerState::new();
    assert_eq!(st.spawn_timer, 500);
    assert_eq!(st.spawn_tick(0), None);
    assert_eq!(st.spawn_timer, 499);
    st.spawn_timer = 0;
    for _ in 0..200 {
        st.spawn_timer = 0;
        assert_eq!(st.spawn_tick(10), None);
        assert!(st.spawn_timer < 500);
    }
    let mut spawned = 0;
    for _ in 0..200 {
        st.spawn_timer = 0;
        if st.spawn_tick(0).is_some() {
            spawned += 1;
            assert_eq!(st.spawn_timer, 500);
        }
    }
    assert_eq!(spawned, 200);
}

#[test]
fn rescheduled_wait_varies() {
    let mut st = RunnerState::new();
    let mut waits = Vec::new();
    for _ in 0..100 {
        st.spawn_timer = 0;
        assert_eq!(st.spawn_tick(10), None);
        if !waits.contains(&st.spawn_timer) {
            waits.push(st.spawn_timer);
        }
    }
    assert!(waits.len() > 1);
}

#[test]
fn score_per_frame() {
    let mut st = RunnerState::new();
    st.update_score(0, false);
    assert_eq!(st.total_score, 1);
    st.update_score(1000, false);
    assert_eq!(st.total_score, 1002);
    st.update_score(1000, true);
    assert_eq!(st.total_score, 3004);
    st.game_over = true;
    st.update_score(1000, true);
    assert_eq!(st.total_score, 3004);
}

#[test]
fn power_lasts_full_duration() {
    let mut st = RunnerState::new();
    let mut p = Player::new(tile(200, 300));
    st.tick_power(&mut p);
    assert_eq!(st.power_timer, -1);
    p.set_power_up(Some(PowerType::ScoreMultiplier));
    st.power_timer = POWER_DURATION;
    for _ in 0..POWER_DURATION {
        st.tick_power(&mut p);
        assert_eq!(p.power_up(), Some(PowerType::ScoreMultiplier));
    }
    assert_eq!(st.power_timer, 0);
    st.tick_power(&mut p);
    assert_eq!(p.power_up(), None);
    assert_eq!(st.power_timer, -1);
    st.tick_power(&mut p);
    assert_eq!(st.power_timer, -1);
}

#[test]
fn game_over_countdown() {
    let mut st = RunnerState::new();
    assert!(!st.count_down_game_over());
    assert_eq!(st.game_over_timer, GAME_OVER_DELAY);
    st.game_over = true;
    for _ in 0..(GAME_OVER_DELAY - 1) {
        assert!(!st.count_down_game_over());
    }
    assert!(st.count_down_game_over());
}

#[test]
fn pause_inputs() {
    let mut st = RunnerState::new();
    st.game_paused = true;
    assert!(!st.pause_event(Input::KeyDown(Key::W)));
    assert!(st.game_paused);
    assert!(!st.pause_event(Input::KeyDown(Key::Escape)));
    assert!(!st.game_paused);
    st.game_paused = true;
    assert!(!st.pause_event(Input::KeyUp(Key::Space)));
    assert!(!st.game_paused);
    assert!(st.pause_event(Input::KeyDown(Key::R)));
    assert_eq!(st.next_status, GameStatus::Game);
    assert!(st.pause_event(Input::KeyDown(Key::M)));
    assert_eq!(st.next_status, GameStatus::Main);
    assert!(st.pause_event(Input::Quit));
    assert_eq!(st.next_status, GameStatus::Credits);
    st.next_status = GameStatus::Main;
    assert!(st.pause_event(Input::KeyDown(Key::Q)));
    assert_eq!(st.next_status, GameStatus::Credits);
}

#[test]
fn play_inputs() {
    let mut st = RunnerState::new();
    let mut p = Player::new(tile(200, 300));
    let ground = Point::new(250, 380);
    assert_eq!(st.play_event(&mut p, ground, Input::KeyDown(Key::Space)), PlayOutcome::FlipResumed);
    assert!(p.is_flipping());
    assert!(p.update_pos(ground, false));
    assert_eq!(st.play_event(&mut p, ground, Input::KeyDown(Key::W)), PlayOutcome::MomentTaken);
    assert!(p.jumpmoment_lock());
    assert_eq!(st.play_event(&mut p, ground, Input::KeyDown(Key::Up)), PlayOutcome::Nothing);
    assert_eq!(
        st.play_event(&mut p, ground, Input::KeyUp(Key::Up)),
        PlayOutcome::Released { jumped: true }
    );
    assert!(p.is_jumping());
    assert!(!p.is_flipping());
    assert_eq!(st.play_event(&mut p, ground, Input::KeyDown(Key::Escape)), PlayOutcome::Nothing);
    assert!(st.game_paused && st.initial_pause);
    assert_eq!(st.play_event(&mut p, ground, Input::Quit), PlayOutcome::Exit);
    assert_eq!(st.play_event(&mut p, ground, Input::KeyDown(Key::Other)), PlayOutcome::Nothing);
}

#[test]
fn release_in_air_does_not_jump() {
    let mut st = RunnerState::new();
    let mut p = Player::new(tile(200, 100));
    assert!(p.update_pos(Point::new(250, 150), false));
    assert_eq!(
        st.play_event(&mut p, Point::new(250, 480), Input::KeyUp(Key::W)),
        PlayOutcome::Released { jumped: false }
    );
    assert!(!p.is_jumping());
}

#[test]
fn bouncy_shoes_jump_again() {
    let st = RunnerState::new();
    let mut p = Player::new(tile(200, 300));
    let ground = Point::new(250, 380);
    assert!(p.update_pos(ground, false));
    assert!(!st.apply_bouncy_shoes(&mut p, ground));
    p.set_power_up(Some(PowerType::BouncyShoes));
    assert!(st.apply_bouncy_shoes(&mut p, ground));
    assert!(p.is_jumping());
    assert!(!st.apply_bouncy_shoes(&mut p, ground));
}

#[test]
fn scenery_animation_cycles() {
    let mut st = RunnerState::new();
    for frame in 1..=15 * 1280 {
        st.advance_animation();
        assert!(st.bg_tick >= 0 && st.bg_tick < 15);
        assert!(st.coin_anim >= 0 && st.coin_anim < 60);
        assert!(st.bg_buff > -1280 && st.bg_buff <= 0);
        if frame == 10 {
            assert_eq!(st.bg_buff, -1);
        }
        if frame == 15 {
            assert_eq!(st.bg_tick, 0);
        }
    }
    assert_eq!(st.bg_buff, 0);
    assert_eq!(st.coin_anim, (15 * 1280) % 60);
}

#[test]
fn hills_scroll_every_third_and_fifth_frame() {
    let mut st = RunnerState::new();
    let mut mid = 0;
    let mut back = 0;
    for _ in 0..15 {
        if st.scroll_mid_hills() {
            mid += 1;
        }
        if st.scroll_back_hills() {
            back += 1;
        }
        st.advance_animation();
    }
    assert_eq!((mid, back), (5, 3));
    assert_eq!((st.buff_1, st.buff_2), (5, 3));
}

#[test]
fn shift_curve_moves_left() {
    let mut c = [0i16; BG_CURVES_SIZE];
    for (i, v) in c.iter_mut().enumerate() {
        *v = i as i16;
    }
    shift_curve(&mut c, 999);
    assert_eq!(c[0], 1);
    assert_eq!(c[126], 127);
    assert_eq!(c[127], 999);
}

#[test]
fn collect_coins_counts_and_removes() {
    let mut st = RunnerState::new();
    let mut p = Player::new(tile(200, 300));
    let mut coins = vec![
        Coin::new(tile(600, 300), 1000),
        Coin::new(tile(250, 300), 1000),
        Coin::new(tile(900, 300), 1000),
    ];
    let score = st.collect_coins(&mut p, &mut coins, 0);
    assert_eq!(score, 1000);
    assert_eq!(st.coin_count, 1);
    assert_eq!(coins.len(), 2);
    assert_eq!(coins[0].pos, (600, 300));
    assert_eq!(coins[1].pos, (900, 300));
    assert!(!coins[0].collected());
}

#[test]
fn collect_coins_removes_every_coin_taken() {
    let mut st = RunnerState::new();
    let mut p = Player::new(tile(200, 300));
    let mut already = Coin::new(tile(210, 300), 5);
    already.collect();
    let mut coins = vec![
        Coin::new(tile(150, 300), 11),
        already,
        Coin::new(tile(220, 300), 7),
        Coin::new(tile(900, 300), 9),
    ];
    let score = st.collect_coins(&mut p, &mut coins, 3);
    assert_eq!(score, 21);
    assert_eq!(st.coin_count, 2);
    assert_eq!(coins.len(), 2);
    assert_eq!(coins[0].pos, (210, 300));
    assert!(coins[0].collected());
    assert_eq!(coins[1].pos, (900, 300));
}

#[test]
fn collect_powers_gives_last_power() {
    let mut st = RunnerState::new();
    let mut p = Player::new(tile(200, 300));
    let mut powers = vec![
        Power::new(tile(800, 300), PowerType::Shield),
        Power::new(tile(150, 300), PowerType::SpeedBoost),
        Power::new(tile(250, 300), PowerType::LowerGravity),
    ];
    st.collect_powers(&mut p, &mut powers);
    assert_eq!(p.power_up(), Some(PowerType::LowerGravity));
    assert_eq!(st.power_timer, POWER_DURATION);
    assert_eq!(powers.len(), 1);
    assert_eq!(powers[0].power_type(), PowerType::Shield);
    let mut st2 = RunnerState::new();
    st2.collect_powers(&mut p, &mut powers);
    assert_eq!(st2.power_timer, 0);
    assert_eq!(powers.len(), 1);
}

#[test]
fn remove_offscreen_by_right_edges() {
    let mut v = vec!['a', 'b', 'c', 'd', 'e'];
    remove_offscreen(&mut v, &vec![-300, 50, -100, -99, -101]);
    assert_eq!(v, vec!['b', 'd']);
}

#[test]
fn remove_offscreen_single() {
    let mut coins = vec![Coin::new(tile(-250, 300), 1), Coin::new(tile(100, 300), 1)];
    remove_offscreen_coins(&mut coins);
    assert_eq!(coins.len(), 1);
    assert_eq!(coins[0].pos, (100, 300));
    let mut powers = vec![Power::new(tile(50, 0), PowerType::Shield), Power::new(tile(-200, 0), PowerType::Shield)];
    remove_offscreen_powers(&mut powers);
    assert_eq!(powers.len(), 1);
    assert_eq!(powers[0].pos, (50, 0));
    let mut t = initial_terrain();
    travel_terrain(&mut t, 1380);
    remove_offscreen_terrain(&mut t);
    assert_eq!(t.len(), 1);
    assert_eq!(t[0].x(), -100);
}

#[test]
fn remove_offscreen_removes_all_offscreen() {
    let mut coins = vec![
        Coin::new(tile(-500, 0), 1),
        Coin::new(tile(-400, 0), 2),
        Coin::new(tile(100, 0), 3),
        Coin::new(tile(-199, 0), 4),
    ];
    remove_offscreen_coins(&mut coins);
    assert_eq!(coins.len(), 2);
    assert_eq!(coins[0].value(), 3);
    assert_eq!(coins[1].value(), 4);
}

#[test]
fn travel_and_camera_over_all() {
    let mut t = initial_terrain();
    travel_terrain(&mut t, 10);
    assert_eq!(t[0].x(), -10);
    assert_eq!(t[1].curve()[0], (1270, 480));
    camera_adj_terrain(&mut t, 0, -30);
    assert_eq!(t[0].y(), 450);
    assert_eq!(get_ground_coord(&t, 200), Point::new(200, 450));
    let mut coins = vec![Coin::new(tile(10, 20), 1)];
    travel_coins(&mut coins, 5);
    camera_adj_coins(&mut coins, 0, 7);
    assert_eq!(coins[0].pos, (5, 27));
    let mut powers = vec![Power::new(tile(10, 20), PowerType::Shield)];
    travel_powers(&mut powers, 5);
    camera_adj_powers(&mut powers, 1, 1);
    assert_eq!(powers[0].pos, (6, 21));
}

#[test]
fn gradient_table_shape() {
    let t = gradient_table();
    assert_eq!(t.len(), 256);
    let mut distinct = Vec::new();
    for (i, row) in t.iter().enumerate() {
        assert_eq!(row.len(), 256);
        for (j, g) in row.iter().enumerate() {
            if i < 255 && j < 255 {
                assert!(g.0 >= 0 && g.0 < 256 && g.1 >= 0 && g.1 < 256);
                if distinct.len() < 3 && !distinct.contains(g) {
                    distinct.push(*g);
                }
            } else {
                assert_eq!(*g, (0, 0));
            }
        }
    }
    assert!(distinct.len() >= 3);
}

#[test]
fn objects_never_exceed_the_maximum() {
    let mut st = RunnerState::new();
    let mut coins: Vec<Coin> = Vec::new();
    for frame in 0..2000 {
        st.spawn_timer = 0;
        if let Some(_) = st.spawn_tick(coins.len()) {
            coins.push(Coin::new(tile(1200, 300), 1));
        }
        assert!(coins.len() <= 10);
        if frame % 97 == 0 && !coins.is_empty() {
            coins.remove(0);
        }
    }
    assert!(!coins.is_empty());
}
