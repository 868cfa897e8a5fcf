use inf_runner::objects::Objects;
use inf_runner::physics::{Collectible, Player};
use inf_runner::powers::{pickup_power, power_up_of_roll, PowerUps};
use inf_runner::rect::{Point, Rect};
use inf_runner::runner::{RunnerState, COIN_VALUE, MAX_NUM_OBJECTS};
use inf_runner::types::{ObstacleType, StaticObject};

fn make(b: Rect, t: ObstacleType) -> (Rect, ObstacleType) {
    (b, t)
}

#[test]
fn objects_start_empty() {
    let o: Objects<(Rect, ObstacleType)> = Objects::new();
    assert_eq!(o.len(), 0);
    assert!(o.coins().is_empty());
    assert!(o.powers().is_empty());
    assert!(o.obstacles().is_empty());
}

#[test]
fn spawning_never_passes_the_maximum() {
    let mut st = RunnerState::new();
    let mut o: Objects<(Rect, ObstacleType)> = Objects::new();
    let ground = Point::new(1279, 480);
    let mut spawned = 0;
    for _ in 0..3000 {
        st.spawn_timer = 0;
        let before = o.len();
        match o.spawn(&mut st, ground, make) {
            Some(StaticObject::Bench) => assert_eq!(o.len(), before),
            Some(_) => {
                spawned += 1;
                assert_eq!(o.len(), before + 1);
            }
            None => assert_eq!(o.len(), before),
        }
        assert!(o.len() <= MAX_NUM_OBJECTS as usize);
    }
    assert!(spawned > 0);
    assert!(o.len() >= 9);
    for c in o.coins().iter() {
        assert_eq!(c.value(), COIN_VALUE);
        assert_eq!(c.pos, (1279, 380));
        assert!(!c.collected());
    }
    for (b, t) in o.obstacles().iter() {
        assert_eq!((b.x(), b.y(), b.width(), b.height()), (1279, 380, 100, 100));
        assert!(*t != ObstacleType::Bench);
    }
}

#[test]
fn first_spawn_with_no_objects_always_places_something_chosen() {
    let mut st = RunnerState::new();
    st.spawn_timer = 0;
    let mut o: Objects<(Rect, ObstacleType)> = Objects::new();
    let r = o.spawn(&mut st, Point::new(500, 400), make);
    assert!(r.is_some());
    assert_eq!(st.spawn_timer, 500);
}

#[test]
fn spawn_waits_while_the_timer_runs() {
    let mut st = RunnerState::new();
    let mut o: Objects<(Rect, ObstacleType)> = Objects::new();
    assert_eq!(o.spawn(&mut st, Point::new(500, 400), make), None);
    assert_eq!(st.spawn_timer, 499);
    assert_eq!(o.len(), 0);
}

#[test]
fn collect_and_remove_through_objects() {
    let mut st = RunnerState::new();
    let mut o: Objects<(Rect, ObstacleType)> = Objects::new();
    for _ in 0..50 {
        st.spawn_timer = 0;
        o.spawn(&mut st, Point::new(250, 400), make);
    }
    let mut p = Player::new(Rect::new(200, 300, 100, 100));
    let coins_before = o.coins().len();
    let powers_before = o.powers().len();
    let score = o.collect(&mut st, &mut p, 0);
    assert_eq!(score, COIN_VALUE * coins_before as i32);
    assert_eq!(st.coin_count, coins_before as i32);
    assert!(o.coins().is_empty());
    assert!(o.powers().is_empty());
    assert_eq!(p.power_up().is_some(), powers_before > 0);
    o.travel(2000);
    o.remove_offscreen(&vec![-5000; o.obstacles().len()]);
    assert_eq!(o.len(), 0);
}

#[test]
fn pickup_rolls_each_power_up() {
    assert_eq!(power_up_of_roll(0), PowerUps::SpeedBoost);
    assert_eq!(power_up_of_roll(1), PowerUps::ScoreMultiplier);
    assert_eq!(power_up_of_roll(2), PowerUps::BouncyShoes);
    assert_eq!(power_up_of_roll(3), PowerUps::LowerGravity);
    assert_eq!(power_up_of_roll(4), PowerUps::Shield);
    let mut seen = Vec::new();
    for _ in 0..500 {
        let p = pickup_power();
        assert!(p.is_some());
        if !seen.contains(&p) {
            seen.push(p);
        }
    }
    assert_eq!(seen.len(), 5);
}
