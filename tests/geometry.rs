use autotrad::geometry::{Pos, Rect};

#[test]
fn rect_normalizes_each_drag_direction() {
    let a = Pos::new(10, 10);
    let b = Pos::new(100, 50);
    let c = Pos::new(10, 50);
    let d = Pos::new(100, 10);
    let expected = Rect { min: Pos::new(10, 10), max: Pos::new(100, 50) };
    assert_eq!(Rect::from_points(a, b), expected);
    assert_eq!(Rect::from_points(b, a), expected);
    assert_eq!(Rect::from_points(c, d), expected);
    assert_eq!(Rect::from_points(d, c), expected);
}

#[test]
fn rect_is_order_independent() {
    let a = Pos::new(-7, 300);
    let b = Pos::new(42, -12);
    assert_eq!(Rect::from_points(a, b), Rect::from_points(b, a));
    assert_eq!(Rect::from_points(a, b), Rect { min: Pos::new(-7, -12), max: Pos::new(42, 300) });
}

#[test]
fn rect_of_one_point_has_zero_area() {
    let p = Pos::new(5, 5);
    let r = Rect::from_points(p, p);
    assert_eq!(r.min, p);
    assert_eq!(r.max, p);
}

#[test]
fn rect_at_extreme_coordinates() {
    let a = Pos::new(i32::MAX, i32::MIN);
    let b = Pos::new(i32::MIN, i32::MAX);
    let r = Rect::from_points(a, b);
    assert_eq!(r.min, Pos::new(i32::MIN, i32::MIN));
    assert_eq!(r.max, Pos::new(i32::MAX, i32::MAX));
}

#[test]
fn pos_min_and_max_are_componentwise() {
    let a = Pos::new(3, 9);
    let b = Pos::new(8, 1);
    assert_eq!(a.min(b), Pos::new(3, 1));
    assert_eq!(a.max(b), Pos::new(8, 9));
    assert_eq!(Pos::zero(), Pos::new(0, 0));
}
