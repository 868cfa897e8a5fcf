use inf_runner::physics::{
    Coin, Collectible, Entity, Obstacle, ObstacleResponse, Physics, Player, Power,
};
use inf_runner::rect::{Point, Rect};
use inf_runner::types::{ObstacleType, PowerType};

fn tile(x: i32, y: i32) -> Rect {
    Rect::new(x, y, 100, 100)
}

#[test]
fn coin_counts_once() {
    let mut player = Player::new(tile(200, 300));
    let mut coin = Coin::new(tile(250, 300), 1000);
    assert!(!coin.collected());
    assert!(player.collide_coin(&mut coin));
    assert!(coin.collected());
    assert!(!player.collide_coin(&mut coin));
    assert!(coin.collected());
    assert_eq!(coin.value(), 1000);
}

#[test]
fn power_received_once() {
    let mut player = Player::new(tile(200, 300));
    let mut power = Power::new(tile(250, 300), PowerType::Shield);
    assert_eq!(player.power_up(), None);
    assert!(player.collide_power(&mut power));
    assert_eq!(player.power_up(), Some(PowerType::Shield));
    player.set_power_up(Some(PowerType::SpeedBoost));
    assert!(!player.collide_power(&mut power));
    assert_eq!(player.power_up(), Some(PowerType::SpeedBoost));
}

#[test]
fn check_collision_uses_hitboxes() {
    let player = Player::new(tile(200, 300));
    let near = Coin::new(tile(299, 399), 5);
    let far = Coin::new(tile(300, 300), 5);
    assert!(Physics::check_collision(&player, &near));
    assert!(Physics::check_collision(&near, &player));
    assert!(!Physics::check_collision(&player, &far));
    assert!(!Physics::check_collision(&far, &player));
}

#[test]
fn coin_moves_and_aligns() {
    let mut coin = Coin::new(tile(500, 300), 1000);
    coin.travel_update(30);
    assert_eq!(coin.pos, (470, 300));
    assert_eq!(coin.x(), 500);
    coin.align_hitbox_to_pos();
    assert_eq!((coin.x(), coin.y()), (470, 300));
    coin.camera_adj(5, -20);
    assert_eq!(coin.pos, (475, 280));
    assert_eq!((coin.x(), coin.y()), (475, 280));
    coin.camera_adj(-5, 20);
    assert_eq!(coin.pos, (470, 300));
    coin.update_pos(1, 2);
    assert_eq!(coin.pos, (1, 2));
    assert_eq!(coin.x(), 470);
}

#[test]
fn coin_travel_adds_up() {
    let mut a = Coin::new(tile(500, 300), 1);
    let mut b = Coin::new(tile(500, 300), 1);
    a.travel_update(12);
    a.travel_update(-4);
    b.travel_update(8);
    assert_eq!(a.pos, b.pos);
}

#[test]
fn power_moves_and_aligns() {
    let mut p = Power::new(tile(500, 300), PowerType::BouncyShoes);
    assert_eq!(p.power_type(), PowerType::BouncyShoes);
    p.travel_update(100);
    assert_eq!(p.pos, (400, 300));
    p.camera_adj(0, 10);
    assert_eq!((p.x(), p.y()), (400, 310));
    p.collect();
    assert!(p.collected());
}

#[test]
fn entity_center_of_hitbox() {
    let player = Player::new(Rect::new(200, 300, 101, 100));
    assert_eq!(player.center(), Point::new(250, 350));
}

#[test]
fn player_flags() {
    let mut p = Player::new(tile(200, 300));
    assert!(p.is_jumping());
    assert!(!p.jumpmoment_lock());
    assert!(!p.is_flipping());
    assert!(!p.was_flipping());
    p.resume_flipping();
    assert!(p.is_flipping());
    assert!(p.was_flipping());
    p.stop_flipping();
    assert!(!p.is_flipping());
    assert!(p.was_flipping());
    p.set_jumpmoment();
    assert!(p.jumpmoment_lock());
}

#[test]
fn player_lands_on_ground_point() {
    let mut p = Player::new(tile(200, 300));
    p.set_jumpmoment();
    p.resume_flipping();
    assert!(!p.update_pos(Point::new(250, 400), false));
    assert!(p.is_jumping());
    assert!(!p.update_pos(Point::new(250, 350), true));
    assert!(p.is_jumping());
    assert!(p.update_pos(Point::new(250, 350), false));
    assert!(!p.is_jumping());
    assert!(!p.jumpmoment_lock());
    assert!(!p.was_flipping());
    assert!(p.is_flipping());
}

#[test]
fn player_jumps_with_give() {
    let mut p = Player::new(tile(200, 300));
    assert!(p.update_pos(Point::new(250, 399), false));
    // The bottom of the hitbox stretched by 5 pixels: 300 + 105 = 405.
    assert!(!p.jump(Point::new(250, 405)));
    assert!(!p.is_jumping());
    assert!(p.jump(Point::new(250, 404)));
    assert!(p.is_jumping());
}

#[test]
fn jump_reach_matches_scaled_height() {
    let mut heights: Vec<u32> = (1..=20000).collect();
    heights.extend([99_999, 1_000_001, 123_456_789, 1_073_741_823]);
    for h in heights {
        let scaled = (1.05 * h as f64) as i32;
        assert_eq!(scaled as u64, h as u64 * 21 / 20, "height {}", h);
    }
}

#[test]
fn upright_check_on_ground_and_in_air() {
    let mut p = Player::new(tile(200, 300));
    p.resume_flipping();
    assert!(Physics::check_player_upright(&mut p, Point::new(0, 0), false));
    assert!(p.was_flipping());
    assert!(!Physics::check_player_upright(&mut p, Point::new(250, 350), false));
    assert!(!p.was_flipping());
    assert!(Physics::check_player_upright(&mut p, Point::new(250, 350), true));
    p.set_power_up(Some(PowerType::Shield));
    assert!(Physics::check_player_upright(&mut p, Point::new(250, 350), false));
}

#[test]
fn side_impact_on_statue_ends_game() {
    let mut p = Player::new(tile(200, 300));
    let mut o = Obstacle::new(tile(280, 300), 0, ObstacleType::Statue);
    assert_eq!(p.collide_obstacle(&mut o, false, true), (true, ObstacleResponse::Knock { player_moves: true }));
    assert!(o.collided());
    assert_eq!(p.collide_obstacle(&mut o, false, true), (false, ObstacleResponse::Pass));
}

#[test]
fn shield_survives_side_impact() {
    let mut p = Player::new(tile(200, 300));
    p.set_power_up(Some(PowerType::Shield));
    let mut o = Obstacle::new(tile(280, 300), 0, ObstacleType::Chest);
    assert_eq!(p.collide_obstacle(&mut o, false, true), (false, ObstacleResponse::Knock { player_moves: false }));
    assert!(o.collided());
}

#[test]
fn balloon_side_is_harmless() {
    let mut p = Player::new(tile(200, 300));
    let mut o = Obstacle::new(tile(280, 300), 0, ObstacleType::Balloon);
    assert_eq!(p.collide_obstacle(&mut o, true, false), (false, ObstacleResponse::Pass));
    assert!(!o.collided());
    assert!(!o.collected());
}

#[test]
fn landing_on_chest() {
    let mut p = Player::new(tile(200, 210));
    p.set_jumpmoment();
    let mut o = Obstacle::new(tile(200, 300), 0, ObstacleType::Chest);
    assert_eq!(p.collide_obstacle(&mut o, true, true), (false, ObstacleResponse::Land { upright: true }));
    assert!(!p.is_jumping());
    assert!(!p.jumpmoment_lock());
    assert!(o.collided());
    assert!(o.collected());
    assert_eq!(p.collide_obstacle(&mut o, true, true), (false, ObstacleResponse::Pass));
}

#[test]
fn landing_on_bench_head_first_ends_game() {
    let mut p = Player::new(tile(200, 210));
    let mut o = Obstacle::new(tile(200, 300), 0, ObstacleType::Bench);
    assert_eq!(p.collide_obstacle(&mut o, true, false), (true, ObstacleResponse::Land { upright: false }));
}

#[test]
fn shield_survives_head_first_landing() {
    let mut p = Player::new(tile(200, 210));
    p.set_power_up(Some(PowerType::Shield));
    let mut o = Obstacle::new(tile(200, 300), 0, ObstacleType::Chest);
    assert_eq!(p.collide_obstacle(&mut o, true, false), (false, ObstacleResponse::Land { upright: false }));
    assert!(!p.is_jumping());
    assert!(o.collided());
}

#[test]
fn top_of_statue_and_balloon_bounce() {
    let mut p = Player::new(tile(200, 210));
    let mut statue = Obstacle::new(tile(200, 300), 0, ObstacleType::Statue);
    assert_eq!(p.collide_obstacle(&mut statue, true, true), (true, ObstacleResponse::Bounce));
    assert!(statue.collided());
    let mut balloon = Obstacle::new(tile(200, 300), 0, ObstacleType::Balloon);
    assert_eq!(p.collide_obstacle(&mut balloon, true, true), (false, ObstacleResponse::Bounce));
    assert!(balloon.collected());
    assert!(!balloon.collided());
    p.set_power_up(Some(PowerType::Shield));
    let mut statue2 = Obstacle::new(tile(200, 300), 0, ObstacleType::Statue);
    assert_eq!(p.collide_obstacle(&mut statue2, true, true), (false, ObstacleResponse::Bounce));
}

#[test]
fn top_needs_descent() {
    let mut p = Player::new(tile(200, 210));
    let mut o = Obstacle::new(tile(200, 300), 0, ObstacleType::Chest);
    assert_eq!(p.collide_obstacle(&mut o, false, true), (false, ObstacleResponse::Pass));
    assert!(!o.collided());
}

#[test]
fn obstacle_accessors() {
    let mut o = Obstacle::new(tile(10, 20), 7, ObstacleType::Statue);
    assert_eq!(o.value(), 7);
    assert_eq!(o.obstacle_type(), ObstacleType::Statue);
    o.align_hitbox_to_pos((15, 25));
    assert_eq!((o.x(), o.y()), (15, 25));
    assert_eq!(o.hitbox().width(), 100);
}
