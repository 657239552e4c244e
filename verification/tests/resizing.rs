use shape_editor::{Circle, Line, Rectangle, Shape, ShapeState};

fn rectangle() -> Rectangle {
    Rectangle { origin: Some((10, 10)), width: 100, height: 50, state: ShapeState::Complete }
}

fn resized(mut r: Rectangle, change: (i32, i32), anchor: (i32, i32)) -> (Option<(i32, i32)>, i32, i32) {
    r.resize(change, anchor);
    assert_eq!(r.state, ShapeState::Complete);
    (r.origin, r.width, r.height)
}

#[test]
fn rectangle_corners() {
    assert_eq!(resized(rectangle(), (3, 4), (10, 10)), (Some((13, 14)), 97, 46));
    assert_eq!(resized(rectangle(), (3, 4), (110, 10)), (Some((10, 14)), 103, 46));
    assert_eq!(resized(rectangle(), (3, 4), (10, 60)), (Some((13, 10)), 97, 54));
    assert_eq!(resized(rectangle(), (3, 4), (110, 60)), (Some((10, 10)), 103, 54));
}

#[test]
fn rectangle_edges() {
    assert_eq!(resized(rectangle(), (3, 4), (10, 35)), (Some((13, 10)), 97, 50));
    assert_eq!(resized(rectangle(), (3, 4), (110, 35)), (Some((10, 10)), 103, 50));
    assert_eq!(resized(rectangle(), (3, 4), (60, 10)), (Some((10, 14)), 100, 46));
    assert_eq!(resized(rectangle(), (3, 4), (60, 60)), (Some((10, 10)), 100, 54));
}

#[test]
fn rectangle_anchor_away_from_the_border() {
    assert_eq!(resized(rectangle(), (3, 4), (60, 35)), (Some((10, 10)), 100, 50));
    assert_eq!(resized(rectangle(), (3, 4), (500, 500)), (Some((10, 10)), 100, 50));
}

#[test]
fn rectangle_tolerance_is_exclusive() {
    assert_eq!(resized(rectangle(), (3, 4), (14, 35)), (Some((13, 10)), 97, 50));
    assert_eq!(resized(rectangle(), (3, 4), (6, 35)), (Some((13, 10)), 97, 50));
    assert_eq!(resized(rectangle(), (3, 4), (15, 35)), (Some((10, 10)), 100, 50));
    assert_eq!(resized(rectangle(), (3, 4), (5, 35)), (Some((10, 10)), 100, 50));
    assert_eq!(resized(rectangle(), (3, 4), (14, 14)), (Some((13, 14)), 97, 46));
    assert_eq!(resized(rectangle(), (3, 4), (15, 14)), (Some((10, 14)), 100, 46));
}

#[test]
fn narrow_rectangle_prefers_left_and_top() {
    // Both vertical sides are near the anchor, and so are both horizontal
    // ones: the top left corner is held.
    let r = Rectangle { origin: Some((10, 10)), width: 2, height: 2, state: ShapeState::Complete };
    assert_eq!(resized(r, (1, 1), (11, 11)), (Some((11, 11)), 1, 1));
    // Only the vertical sides are near: the left edge is held.
    let r = Rectangle { origin: Some((10, 10)), width: 2, height: 50, state: ShapeState::Complete };
    assert_eq!(resized(r, (1, 1), (11, 35)), (Some((11, 10)), 1, 50));
}

#[test]
fn rectangle_with_negative_extent() {
    // The rectangle reaches from (10, 10) to (110, 60); its origin is the
    // lower right corner. An anchor at the upper left corner moves the
    // origin and takes the change off the extents.
    let r = Rectangle { origin: Some((110, 60)), width: -100, height: -50, state: ShapeState::Complete };
    assert_eq!(resized(r, (3, 4), (10, 10)), (Some((113, 64)), -103, -54));
    assert_eq!(resized(r, (3, 4), (110, 60)), (Some((110, 60)), -97, -46));
}

#[test]
fn rectangle_without_origin_is_not_resized() {
    let mut r = Rectangle { origin: None, width: 100, height: 50, state: ShapeState::Complete };
    r.resize((3, 4), (0, 0));
    assert_eq!(r, Rectangle { origin: None, width: 100, height: 50, state: ShapeState::Complete });
}

#[test]
fn rectangle_resize_stops_at_the_edge_of_the_range() {
    let r = Rectangle { origin: Some((0, 0)), width: i32::MAX, height: 10, state: ShapeState::Complete };
    assert_eq!(resized(r, (5, 5), (i32::MAX, 10)), (Some((0, 0)), i32::MAX, 15));
}

#[test]
fn line_end_points() {
    let line = Line { origin: Some((0, 0)), end: Some((100, 0)), state: ShapeState::Complete };
    let mut l = line;
    l.resize((5, 6), (2, -2));
    assert_eq!(l, Line { origin: Some((5, 6)), end: Some((100, 0)), state: ShapeState::Complete });
    let mut l = line;
    l.resize((5, 6), (98, 4));
    assert_eq!(l, Line { origin: Some((0, 0)), end: Some((105, 6)), state: ShapeState::Complete });
    let mut l = line;
    l.resize((5, 6), (50, 0));
    assert_eq!(l, line);
    let mut l = line;
    l.resize((5, 6), (5, 0));
    assert_eq!(l, line);
    let mut l = line;
    l.resize((5, 6), (4, 4));
    assert_eq!(l.origin, Some((5, 6)));
}

#[test]
fn short_line_moves_both_ends() {
    let mut l = Line { origin: Some((0, 0)), end: Some((3, 3)), state: ShapeState::Complete };
    l.resize((10, 20), (1, 1));
    assert_eq!(l, Line { origin: Some((10, 20)), end: Some((13, 23)), state: ShapeState::Complete });
}

#[test]
fn line_with_one_point() {
    let mut l = Line { origin: Some((0, 0)), end: None, state: ShapeState::Drawing };
    l.resize((10, 20), (1, 1));
    assert_eq!(l, Line { origin: Some((10, 20)), end: None, state: ShapeState::Drawing });
}

#[test]
fn circle_radius_follows_the_dragged_point() {
    let circle = Circle { origin: Some((100, 100)), radius: 50, state: ShapeState::Complete };
    let mut c = circle;
    c.resize((10, 0), (150, 100));
    assert_eq!(c, Circle { origin: Some((100, 100)), radius: 60, state: ShapeState::Complete });
    let mut c = circle;
    c.resize((-10, 0), (150, 100));
    assert_eq!(c.radius, 40);
    let mut c = circle;
    c.resize((0, 0), (103, 104));
    assert_eq!(c.radius, 5);
    let mut c = circle;
    c.resize((1, 0), (100, 101));
    assert_eq!(c.radius, 2);
    let mut c = circle;
    c.resize((1, 0), (100, 100));
    assert_eq!(c.radius, 1);
    let mut c = circle;
    c.resize((-3, -4), (103, 104));
    assert_eq!(c.radius, 0);
}

#[test]
fn circle_without_centre_is_not_resized() {
    let mut c = Circle { origin: None, radius: 50, state: ShapeState::Complete };
    c.resize((10, 0), (150, 100));
    assert_eq!(c.radius, 50);
}

#[test]
fn circle_resize_over_the_whole_range() {
    let mut c = Circle { origin: Some((i32::MIN, 0)), radius: 1, state: ShapeState::Complete };
    c.resize((i32::MAX, 0), (i32::MAX, 0));
    assert_eq!(c.radius, u32::MAX);
}

#[test]
fn shape_forwards_the_resize() {
    let mut s = Shape::Rectangle(rectangle());
    s.resize((3, 4), (10, 10));
    assert_eq!(
        s,
        Shape::Rectangle(Rectangle {
            origin: Some((13, 14)),
            width: 97,
            height: 46,
            state: ShapeState::Complete
        })
    );
}
