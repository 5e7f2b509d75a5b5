use tile_rs::structs::{Point, Rectangle, Size};

#[test]
fn new_and_accessors() {
    let r = Rectangle::new(10, 20, 30, 40);
    assert_eq!(r.left(), 10);
    assert_eq!(r.top(), 20);
    assert_eq!(r.right(), 40);
    assert_eq!(r.bottom(), 60);
    assert_eq!(r.location(), Point { x: 10, y: 20 });
    assert_eq!(r.size(), Size { width: 30, height: 40 });
}

#[test]
fn from_points_and_ltrb() {
    let a = Rectangle::from_points(Point { x: 1, y: 2 }, Size { width: 3, height: 4 });
    assert_eq!(a, Rectangle::new(1, 2, 3, 4));
    let b = Rectangle::from_ltrb(5, 6, 15, 26);
    assert_eq!(b, Rectangle::new(5, 6, 10, 20));
}

#[test]
fn is_empty_only_for_zero_rectangle() {
    assert!(Rectangle::new(0, 0, 0, 0).is_empty());
    assert!(!Rectangle::new(1, 0, 0, 0).is_empty());
    assert!(!Rectangle::new(0, 0, 5, 0).is_empty());
    assert!(Rectangle::default().is_empty());
}

#[test]
fn contains_points_and_rects() {
    let r = Rectangle::new(0, 0, 100, 50);
    assert!(r.contains(0, 0));
    assert!(r.contains(99, 49));
    assert!(!r.contains(100, 0));
    assert!(!r.contains(0, 50));
    assert!(r.contains_point(Point { x: 10, y: 10 }));
    assert!(r.contains_rect(Rectangle::new(10, 10, 20, 20)));
    assert!(!r.contains_rect(Rectangle::new(90, 40, 20, 20)));
}

#[test]
fn intersection_of_overlapping_rectangles() {
    let a = Rectangle::new(0, 0, 100, 100);
    let b = Rectangle::new(50, 50, 100, 100);
    let i = a.intersect_with(b);
    assert_eq!(i, Rectangle::new(50, 50, 50, 50));
    assert!(a.intersects_with(b));
}

#[test]
fn intersection_of_disjoint_rectangles_is_zero_rectangle() {
    let a = Rectangle::new(0, 0, 10, 10);
    let b = Rectangle::new(100, 100, 10, 10);
    let i = a.intersect_with(b);
    assert_eq!(i, Rectangle::new(0, 0, 0, 0));
    assert!(i.is_empty());
    assert!(!a.intersects_with(b));
}

#[test]
fn intersect_in_place_matches_intersect_with() {
    let mut a = Rectangle::new(0, 0, 60, 60);
    let b = Rectangle::new(30, 30, 60, 60);
    let expected = a.intersect_with(b);
    a.intersect(b);
    assert_eq!(a, expected);
    assert_eq!(a, Rectangle::new(30, 30, 30, 30));
}

#[test]
fn union_covers_both() {
    let a = Rectangle::new(0, 0, 10, 10);
    let b = Rectangle::new(20, 30, 10, 10);
    let u = a.union_with(b);
    assert_eq!(u, Rectangle::new(0, 0, 30, 40));
}

#[test]
fn inflate_and_offset() {
    let mut r = Rectangle::new(10, 10, 20, 20);
    r.inflate(5, 3);
    assert_eq!(r, Rectangle::new(5, 7, 30, 26));
    r.offset(-5, 13);
    assert_eq!(r, Rectangle::new(0, 20, 30, 26));
}
