use shape_editor::{Circle, Line, Rectangle, Shape, ShapeState, ShapeType};

fn line(ox: i32, oy: i32, ex: i32, ey: i32) -> Line {
    Line { origin: Some((ox, oy)), end: Some((ex, ey)), state: ShapeState::Complete }
}

fn rectangle(ox: i32, oy: i32, width: i32, height: i32) -> Rectangle {
    Rectangle { origin: Some((ox, oy)), width, height, state: ShapeState::Complete }
}

#[test]
fn circle_hit_test_boundary() {
    let mut circle = Circle::new();
    circle.add_point(100, 100);
    circle.add_point(150, 100);
    assert_eq!(circle.radius, 50);
    assert!(circle.contains(140, 100));
    assert!(!circle.contains(160, 100));
}

#[test]
fn circle_rim_is_inside() {
    let circle = Circle { origin: Some((100, 100)), radius: 50, state: ShapeState::Complete };
    assert!(circle.contains(150, 100));
    assert!(circle.contains(100, 50));
    assert!(circle.contains(130, 140));
    assert!(!circle.contains(151, 100));
    assert!(!circle.contains(131, 141));
}

#[test]
fn circle_without_centre_contains_nothing() {
    let circle = Circle { origin: None, radius: 50, state: ShapeState::Complete };
    assert!(!circle.contains(0, 0));
}

#[test]
fn circle_is_hit_in_any_state() {
    let circle = Circle { origin: Some((0, 0)), radius: 0, state: ShapeState::New };
    assert!(!circle.is_drawable());
    assert!(circle.contains(0, 0));
    assert!(!circle.contains(1, 0));
}

#[test]
fn circle_hit_far_from_the_centre() {
    let circle = Circle {
        origin: Some((i32::MIN, i32::MIN)),
        radius: u32::MAX,
        state: ShapeState::Complete,
    };
    assert!(circle.contains(i32::MAX, i32::MIN));
    assert!(!circle.contains(i32::MAX, i32::MAX));
}

#[test]
fn line_hit_test() {
    let mut l = Line::new();
    l.add_point(0, 0);
    l.add_point(100, 0);
    assert!(l.contains(50, 3));
    assert!(!l.contains(50, 10));
    assert!(!l.contains(-5, 0));
}

#[test]
fn line_tolerance_is_inclusive() {
    let l = line(0, 0, 100, 0);
    assert!(l.contains(50, 5));
    assert!(l.contains(50, -5));
    assert!(!l.contains(50, 6));
    assert!(!l.contains(50, -6));
}

#[test]
fn line_ends_are_hit_and_beyond_is_not() {
    let l = line(0, 0, 100, 0);
    assert!(l.contains(0, 0));
    assert!(l.contains(100, 0));
    assert!(l.contains(100, 5));
    assert!(!l.contains(101, 0));
    assert!(!l.contains(-1, 0));
}

#[test]
fn slanted_line_hit_test() {
    // The distance of (4, 3) from the line through (0, 0) and (30, 40) is
    // |4 * 40 - 3 * 30| / 50 = 1.4; that of (20, 10) is 10.
    let l = line(0, 0, 30, 40);
    assert!(l.contains(4, 3));
    assert!(l.contains(15, 20));
    assert!(!l.contains(20, 10));
    // (7, 1): |7 * 40 - 1 * 30| / 50 = 5 exactly.
    assert!(l.contains(7, 1));
    // (8, 1): |8 * 40 - 1 * 30| / 50 = 5.8.
    assert!(!l.contains(8, 1));
}

#[test]
fn line_of_no_length_is_never_hit() {
    let l = line(10, 10, 10, 10);
    assert!(!l.contains(10, 10));
}

#[test]
fn line_needs_both_points_and_a_started_drawing() {
    let mut l = Line::new();
    assert!(!l.contains(0, 0));
    l.add_point(0, 0);
    assert!(!l.is_drawable());
    assert!(!l.contains(0, 0));
    l.set_end(100, 0);
    assert!(l.is_drawable());
    assert!(l.contains(50, 0));
    l.set_state(ShapeState::New);
    assert!(!l.is_drawable());
    assert!(!l.contains(50, 0));
    let no_origin = Line { origin: None, end: Some((5, 5)), state: ShapeState::Complete };
    assert!(no_origin.is_drawable());
    assert!(!no_origin.contains(5, 5));
}

#[test]
fn line_hit_test_at_the_ends_of_the_range() {
    let l = line(i32::MIN, i32::MIN, i32::MAX, i32::MAX);
    assert!(l.contains(0, 0));
    assert!(l.contains(3, -3));
    assert!(!l.contains(4, -4));
    assert!(!l.contains(i32::MAX, i32::MIN));
    assert!(l.contains(i32::MAX, i32::MAX));
}

#[test]
fn rectangle_hit_test() {
    let mut r = Rectangle::new();
    r.add_point(10, 10);
    r.add_point(110, 60);
    assert_eq!(r.width, 100);
    assert_eq!(r.height, 50);
    assert!(r.contains(50, 30));
    assert!(!r.contains(200, 200));
    assert!(r.contains(10, 10));
}

#[test]
fn rectangle_border_is_inside() {
    let r = rectangle(10, 10, 100, 50);
    assert!(r.contains(110, 60));
    assert!(r.contains(110, 10));
    assert!(r.contains(10, 60));
    assert!(!r.contains(111, 60));
    assert!(!r.contains(110, 61));
    assert!(!r.contains(9, 10));
    assert!(!r.contains(10, 9));
}

#[test]
fn rectangle_grown_to_the_upper_left() {
    let r = rectangle(110, 60, -100, -50);
    assert!(r.contains(50, 30));
    assert!(r.contains(10, 10));
    assert!(r.contains(110, 60));
    assert!(!r.contains(9, 30));
    assert!(!r.contains(111, 30));
}

#[test]
fn rectangle_without_extent_contains_nothing() {
    assert!(!rectangle(10, 10, 0, 50).contains(10, 20));
    assert!(!rectangle(10, 10, 100, 0).contains(20, 10));
    let new = Rectangle { origin: Some((10, 10)), width: 100, height: 50, state: ShapeState::New };
    assert!(!new.contains(50, 30));
    let no_origin = Rectangle { origin: None, width: 100, height: 50, state: ShapeState::Complete };
    assert!(no_origin.is_drawable());
    assert!(!no_origin.contains(50, 30));
}

#[test]
fn rectangle_reaching_past_the_range() {
    let r = rectangle(i32::MAX, 0, i32::MAX, 10);
    assert!(r.contains(i32::MAX, 5));
    assert!(!r.contains(i32::MAX - 1, 5));
    assert_eq!(r.get_end(), Some((i32::MAX, 10)));
}

#[test]
fn shape_forwards_the_hit_test() {
    let mut shape = Shape::new(ShapeType::Circle);
    shape.add_point(100, 100);
    shape.add_point(150, 100);
    assert!(shape.contains(140, 100));
    assert!(!shape.contains(160, 100));
    let shape = Shape::Line(line(0, 0, 100, 0));
    assert!(shape.contains(50, 3));
    assert!(!shape.contains(50, 10));
    let shape = Shape::Rectangle(rectangle(10, 10, 100, 50));
    assert!(shape.contains(10, 10));
    assert!(!shape.contains(200, 200));
}
