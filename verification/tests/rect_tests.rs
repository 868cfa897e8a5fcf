use inf_runner::rect::{Point, Rect, MAX_INT_VALUE, MIN_INT_VALUE};

#[test]
fn rect_new_keeps_values_in_range() {
    let r = Rect::new(1, 2, 3, 4);
    assert_eq!((r.x(), r.y(), r.width(), r.height()), (1, 2, 3, 4));
}

#[test]
fn rect_new_clamps_sizes_and_positions() {
    let r = Rect::new(i32::MAX, i32::MIN, 0, u32::MAX);
    assert_eq!(r.x(), MAX_INT_VALUE);
    assert_eq!(r.y(), MIN_INT_VALUE);
    assert_eq!(r.width(), 1);
    assert_eq!(r.height(), MAX_INT_VALUE as u32);
}

#[test]
fn rect_setters_clamp() {
    let mut r = Rect::new(0, 0, 10, 10);
    r.set_x(i32::MIN);
    r.set_y(i32::MAX);
    assert_eq!(r.x(), MIN_INT_VALUE);
    assert_eq!(r.y(), MAX_INT_VALUE);
    r.set_x(-7);
    assert_eq!(r.x(), -7);
}

#[test]
fn point_new_clamps() {
    let p = Point::new(i32::MAX, -5);
    assert_eq!(p.x(), MAX_INT_VALUE);
    assert_eq!(p.y(), -5);
}

#[test]
fn rect_center_rounds_down() {
    let r = Rect::new(1, 0, 2, 3);
    assert_eq!(r.center(), Point::new(2, 1));
}

#[test]
fn rect_contains_point_edges() {
    let r = Rect::new(1, 2, 3, 4);
    assert!(r.contains_point(Point::new(1, 2)));
    assert!(!r.contains_point(Point::new(0, 1)));
    assert!(r.contains_point(Point::new(3, 5)));
    assert!(!r.contains_point(Point::new(4, 6)));
    assert!(!r.contains_point(Point::new(4, 2)));
}

#[test]
fn rect_has_intersection_examples() {
    let r = Rect::new(0, 0, 5, 5);
    assert!(r.has_intersection(r));
    assert!(r.has_intersection(Rect::new(2, 2, 5, 5)));
    assert!(!r.has_intersection(Rect::new(5, 0, 5, 5)));
    assert!(!r.has_intersection(Rect::new(0, 5, 5, 5)));
    assert!(r.has_intersection(Rect::new(-3, -3, 4, 4)));
}

#[test]
fn rect_intersection_examples() {
    let r = Rect::new(0, 0, 5, 5);
    assert_eq!(r.intersection(r), Some(r));
    assert_eq!(r.intersection(Rect::new(2, 2, 5, 5)), Some(Rect::new(2, 2, 3, 3)));
    assert_eq!(r.intersection(Rect::new(5, 0, 5, 5)), None);
    assert_eq!(Rect::new(2, 2, 5, 5).intersection(r), Some(Rect::new(2, 2, 3, 3)));
}

#[test]
fn rect_overlap_is_symmetric() {
    let a = Rect::new(10, 10, 20, 5);
    let b = Rect::new(25, 12, 30, 30);
    assert_eq!(a.has_intersection(b), b.has_intersection(a));
    let c = Rect::new(30, 0, 5, 5);
    assert_eq!(a.has_intersection(c), c.has_intersection(a));
    assert!(!a.has_intersection(c));
}

#[test]
fn rect_intersection_within_both() {
    let a = Rect::new(-10, 4, 30, 30);
    let b = Rect::new(0, -6, 15, 20);
    let i = a.intersection(b).unwrap();
    assert_eq!((i.x(), i.y(), i.width(), i.height()), (0, 4, 15, 10));
    for px in -12..40 {
        for py in -8..40 {
            let p = Point::new(px, py);
            assert_eq!(i.contains_point(p), a.contains_point(p) && b.contains_point(p));
        }
    }
}

#[test]
fn rect_touching_edges_do_not_overlap() {
    let a = Rect::new(0, 0, 10, 10);
    assert!(!a.has_intersection(Rect::new(10, 3, 4, 4)));
    assert!(!a.has_intersection(Rect::new(3, 10, 4, 4)));
    assert_eq!(a.intersection(Rect::new(10, 3, 4, 4)), None);
}

#[test]
fn rect_extreme_values_do_not_overflow() {
    let a = Rect::new(MAX_INT_VALUE, MAX_INT_VALUE, u32::MAX, u32::MAX);
    let b = Rect::new(MIN_INT_VALUE, MIN_INT_VALUE, u32::MAX, u32::MAX);
    assert!(a.has_intersection(a));
    assert!(!a.has_intersection(b));
    assert!(a.contains_point(Point::new(i32::MAX, i32::MAX)));
}
