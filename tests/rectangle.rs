use geom::{Point, Rectangle, Size};

#[test]
fn new_keeps_fields() {
    let r = Rectangle::new(1, -2, 3, 4);
    assert_eq!(r.x, 1);
    assert_eq!(r.y, -2);
    assert_eq!(r.width, 3);
    assert_eq!(r.height, 4);
}

#[test]
fn empty_is_empty() {
    assert!(Rectangle::empty().is_empty());
    assert!(Rectangle::empty().is_empth());
    assert_eq!(Rectangle::empty(), Rectangle::new(0, 0, 0, 0));
}

#[test]
fn zero_area_away_from_origin_is_not_empty() {
    assert!(!Rectangle::new(5, 0, 0, 0).is_empty());
    assert!(!Rectangle::new(0, 5, 0, 0).is_empth());
    assert!(!Rectangle::new(0, 0, 1, 0).is_empth());
    assert!(!Rectangle::new(0, 0, 0, 1).is_empth());
}

#[test]
fn edges() {
    let r = Rectangle::new(3, 4, 10, 20);
    assert_eq!(r.get_left(), 3);
    assert_eq!(r.get_top(), 4);
    assert_eq!(r.get_right(), 13);
    assert_eq!(r.get_bottom(), 24);
}

#[test]
fn edges_with_negative_extent() {
    let r = Rectangle::new(10, 10, -4, -6);
    assert_eq!(r.get_right(), 6);
    assert_eq!(r.get_bottom(), 4);
}

#[test]
fn location_and_size() {
    let r = Rectangle::new(7, -8, 9, 10);
    assert_eq!(r.get_location(), Point::new(7, -8));
    assert_eq!(r.size(), Size::new(9, 10));
}

#[test]
fn center_truncates_toward_zero() {
    assert_eq!(Rectangle::new(0, 0, 10, 10).get_center(), Point::new(5, 5));
    assert_eq!(Rectangle::new(1, 2, 5, 7).get_center(), Point::new(3, 5));
    assert_eq!(Rectangle::new(0, 0, -3, -5).get_center(), Point::new(-1, -2));
}

#[test]
fn contains_origin_but_not_far_corner() {
    let r = Rectangle::new(2, 3, 4, 5);
    assert!(r.contains(r.x, r.y));
    assert!(!r.contains(r.get_right(), r.get_bottom()));
    assert!(r.contains(r.get_right() - 1, r.get_bottom() - 1));
    assert!(!r.contains(r.get_right(), r.y));
    assert!(!r.contains(r.x, r.get_bottom()));
    assert!(!r.contains(r.x - 1, r.y));
    assert!(!r.contains(r.x, r.y - 1));
}

#[test]
fn degenerate_rectangle_contains_nothing() {
    let r = Rectangle::new(0, 0, 0, 0);
    assert!(!r.contains(0, 0));
    let n = Rectangle::new(5, 5, -2, 3);
    assert!(!n.contains(5, 5));
    assert!(!n.contains(4, 5));
}

#[test]
fn contains_near_integer_limits() {
    let r = Rectangle::new(i32::MAX - 1, 0, 5, 1);
    assert!(r.contains(i32::MAX, 0));
    assert!(r.contains(i32::MAX - 1, 0));
    let s = Rectangle::new(i32::MIN, i32::MIN, 1, 1);
    assert!(s.contains(i32::MIN, i32::MIN));
    assert!(!s.contains(i32::MIN + 1, i32::MIN));
}

#[test]
fn touching_edges_do_not_intersect() {
    let a = Rectangle::new(0, 0, 1, 1);
    let b = Rectangle::new(1, 0, 1, 1);
    assert!(!a.intersects(&b));
    assert!(!b.intersects(&a));
    let c = Rectangle::new(0, 1, 1, 1);
    assert!(!a.intersects(&c));
}

#[test]
fn overlapping_rectangles_intersect() {
    let a = Rectangle::new(0, 0, 4, 4);
    let b = Rectangle::new(3, 3, 4, 4);
    assert!(a.intersects(&b));
    assert!(b.intersects(&a));
    let inner = Rectangle::new(1, 1, 1, 1);
    assert!(a.intersects(&inner));
    let apart = Rectangle::new(10, 10, 1, 1);
    assert!(!a.intersects(&apart));
}

#[test]
fn union_bounds_both() {
    let a = Rectangle::new(0, 0, 2, 3);
    let b = Rectangle::new(5, -1, 2, 2);
    let u = Rectangle::union(&a, &b);
    assert_eq!(u, Rectangle::new(0, -1, 7, 4));
    for r in [a, b] {
        assert!(u.contains(r.x, r.y));
        assert!(u.contains(r.get_right() - 1, r.y));
        assert!(u.contains(r.x, r.get_bottom() - 1));
        assert!(u.contains(r.get_right() - 1, r.get_bottom() - 1));
    }
}

#[test]
fn union_commutes() {
    let a = Rectangle::new(-3, 4, 8, 1);
    let b = Rectangle::new(2, -6, 1, 20);
    assert_eq!(Rectangle::union(&a, &b), Rectangle::union(&b, &a));
    assert_eq!(Rectangle::union(&a, &b), Rectangle::new(-3, -6, 8, 20));
}

#[test]
fn union_with_negative_extent() {
    let a = Rectangle::new(10, 10, -5, -5);
    let b = Rectangle::new(0, 0, 2, 2);
    let u = Rectangle::union(&a, &b);
    assert_eq!(u, Rectangle::new(0, 0, 5, 5));
}

#[test]
fn inflate_moves_origin_and_grows_extent() {
    let mut r = Rectangle::new(0, 0, 10, 10);
    r.inflate(2, 2);
    assert_eq!(r, Rectangle::new(-2, -2, 12, 12));
}

#[test]
fn inflate_by_different_amounts() {
    let mut r = Rectangle::new(5, 6, 7, 8);
    r.inflate(1, -3);
    assert_eq!(r, Rectangle::new(4, 9, 8, 5));
}

#[test]
fn rectangles_compare_by_fields() {
    assert_eq!(Rectangle::new(1, 2, 3, 4), Rectangle::new(1, 2, 3, 4));
    assert_ne!(Rectangle::new(1, 2, 3, 4), Rectangle::new(1, 2, 3, 5));
    assert_ne!(Rectangle::new(1, 2, 3, 4), Rectangle::new(0, 2, 3, 4));
}

#[test]
fn debug_text() {
    assert_eq!(Rectangle::new(1, 22, 333, 4444).debug_display_string(), "1 22 333 4444");
    assert_eq!(Rectangle::new(-5, 0, -10, 7).debug_display_string(), "-5 0 -10 7");
    let r = Rectangle::new(i32::MIN, i32::MAX, 0, -1);
    assert_eq!(
        r.debug_display_string(),
        format!("{} {} {} {}", i32::MIN, i32::MAX, 0, -1)
    );
}
