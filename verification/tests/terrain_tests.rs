use inf_runner::proceduralgen::{
    choose_power_up, choose_static_object, choose_terrain_type, power_type_for_roll,
    static_object_for_roll, terrain_type_for_roll, ProceduralGen, TerrainSegment,
};
use inf_runner::rect::Rect;
use inf_runner::types::{PowerType, StaticObject, TerrainType};

fn segment(x: i32) -> TerrainSegment {
    let curve: Vec<(i32, i32)> = (0..5).map(|i| (x + i, 400 + i)).collect();
    TerrainSegment::new(
        Rect::new(x, 400, 5, 10),
        curve,
        TerrainType::Sand,
        [(x, 400), (x + 1, 390), (x + 3, 410), (x + 4, 404)],
    )
}

#[test]
fn segment_accessors() {
    let s = segment(10);
    assert_eq!((s.x(), s.y(), s.w(), s.h()), (10, 400, 5, 10));
    assert_eq!(s.pos(), Rect::new(10, 400, 5, 10));
    assert_eq!(*s.get_type(), TerrainType::Sand);
    assert_eq!(s.curve().len(), 5);
    assert_eq!(s.get_ctrl_points()[1], (11, 390));
}

#[test]
fn segment_camera_adj_moves_everything() {
    let mut s = segment(10);
    s.camera_adj(3, -7);
    assert_eq!((s.x(), s.y()), (13, 393));
    assert_eq!(s.curve()[0], (13, 393));
    assert_eq!(s.curve()[4], (17, 397));
    assert_eq!(s.get_ctrl_points(), [(13, 393), (14, 383), (16, 403), (17, 397)]);
    s.camera_adj(-3, 7);
    let t = segment(10);
    assert_eq!(s.curve(), t.curve());
    assert_eq!(s.get_ctrl_points(), t.get_ctrl_points());
    assert!(s == t);
}

#[test]
fn segment_travel_moves_left() {
    let mut s = segment(10);
    s.travel_update(4);
    assert_eq!((s.x(), s.y()), (6, 400));
    assert_eq!(s.curve()[2], (8, 402));
    assert_eq!(s.get_ctrl_points()[3], (10, 404));
}

#[test]
fn segment_travel_adds_up() {
    let mut a = segment(100);
    let mut b = segment(100);
    a.travel_update(30);
    a.travel_update(-12);
    b.travel_update(18);
    assert!(a == b);
    assert_eq!(a.curve(), b.curve());
    assert_eq!(a.get_ctrl_points(), b.get_ctrl_points());
}

#[test]
fn segments_equal_by_box() {
    let a = segment(10);
    let mut b = segment(10);
    b.travel_update(0);
    assert!(a == b);
    let c = segment(11);
    assert!(a != c);
}

#[test]
fn procedural_gen_init() {
    assert!(ProceduralGen::init().is_ok());
}

#[test]
fn terrain_rolls() {
    assert_eq!(terrain_type_for_roll(0), TerrainType::Asphalt);
    assert_eq!(terrain_type_for_roll(1), TerrainType::Sand);
    assert_eq!(terrain_type_for_roll(2), TerrainType::Water);
    for roll in 3..50 {
        assert_eq!(terrain_type_for_roll(roll), TerrainType::Grass);
    }
}

#[test]
fn object_rolls() {
    let expect = [
        StaticObject::Statue,
        StaticObject::Balloon,
        StaticObject::Chest,
        StaticObject::Coin,
        StaticObject::Power,
        StaticObject::Bench,
    ];
    for (roll, o) in expect.iter().enumerate() {
        assert_eq!(static_object_for_roll(roll as i32), *o);
    }
}

#[test]
fn power_rolls() {
    let expect = [
        PowerType::SpeedBoost,
        PowerType::ScoreMultiplier,
        PowerType::BouncyShoes,
        PowerType::LowerGravity,
        PowerType::Shield,
    ];
    for (roll, p) in expect.iter().enumerate() {
        assert_eq!(power_type_for_roll(roll as i32), *p);
    }
}

#[test]
fn random_choices_vary() {
    let mut terrains = Vec::new();
    let mut objects = Vec::new();
    let mut powers = Vec::new();
    for _ in 0..400 {
        let t = choose_terrain_type(3);
        if !terrains.contains(&t) {
            terrains.push(t);
        }
        let o = choose_static_object();
        if !objects.contains(&o) {
            objects.push(o);
        }
        let p = choose_power_up();
        if !powers.contains(&p) {
            powers.push(p);
        }
    }
    assert_eq!(terrains.len(), 4);
    assert_eq!(objects.len(), 6);
    assert_eq!(powers.len(), 5);
}

#[test]
fn terrain_die_has_at_least_four_faces() {
    let mut seen = Vec::new();
    for _ in 0..400 {
        let t = choose_terrain_type(-20);
        if !seen.contains(&t) {
            seen.push(t);
        }
    }
    assert_eq!(seen.len(), 4);
}
