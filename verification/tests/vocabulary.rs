use shape_editor::number::{add_coordinate, isqrt, isqrt_up, radius_of, saturate, sub_coordinate};
use shape_editor::{render_style, same_text, RenderStyle, ShapeError, ShapeState, ShapeType, StrokeColor};

#[test]
fn kind_names() {
    assert_eq!(ShapeType::Line.to_string(), "Line");
    assert_eq!(ShapeType::Rectangle.to_string(), "Rectangle");
    assert_eq!(ShapeType::Circle.to_string(), "Circle");
    assert_eq!(ShapeType::Line.tag_text(), "line");
    assert_eq!(ShapeType::Rectangle.tag_text(), "rectangle");
    assert_eq!(ShapeType::Circle.tag_text(), "circle");
}

#[test]
fn kind_tags_are_read_back() {
    for kind in [ShapeType::Line, ShapeType::Rectangle, ShapeType::Circle] {
        assert_eq!(ShapeType::from_tag(&kind.tag_text()), Some(kind));
    }
    assert_eq!(ShapeType::from_tag("triangle"), None);
    assert_eq!(ShapeType::from_tag("Line"), None);
    assert_eq!(ShapeType::from_tag(""), None);
}

#[test]
fn state_names() {
    assert_eq!(ShapeState::New.to_string(), "New");
    assert_eq!(ShapeState::Drawing.to_string(), "Drawing");
    assert_eq!(ShapeState::Complete.to_string(), "Complete");
}

#[test]
fn state_names_are_read_back() {
    assert_eq!(ShapeState::from_str("New"), Ok(ShapeState::New));
    assert_eq!(ShapeState::from_str("Drawing"), Ok(ShapeState::Drawing));
    assert_eq!(ShapeState::from_str("Complete"), Ok(ShapeState::Complete));
    for state in [ShapeState::New, ShapeState::Drawing, ShapeState::Complete] {
        assert_eq!(ShapeState::from_str(&state.to_string()), Ok(state));
    }
}

#[test]
fn other_state_names_are_invalid() {
    assert_eq!(ShapeState::from_str("new"), Err(ShapeError::InvalidState));
    assert_eq!(ShapeState::from_str("Done"), Err(ShapeError::InvalidState));
    assert_eq!(ShapeState::from_str(""), Err(ShapeError::InvalidState));
    assert_eq!(ShapeState::from_str("Complete "), Err(ShapeError::InvalidState));
}

#[test]
fn texts_are_compared_by_their_characters() {
    assert!(same_text("", ""));
    assert!(same_text("Origin x", "Origin x"));
    assert!(!same_text("Origin x", "Origin y"));
    assert!(!same_text("Origin x", "Origin"));
}

#[test]
fn styles() {
    assert_eq!(
        render_style(false, false),
        RenderStyle { line_width: 1, stroke_color: StrokeColor::Black }
    );
    assert_eq!(
        render_style(true, false),
        RenderStyle { line_width: 3, stroke_color: StrokeColor::Black }
    );
    assert_eq!(
        render_style(false, true),
        RenderStyle { line_width: 3, stroke_color: StrokeColor::Red }
    );
    assert_eq!(
        render_style(true, true),
        RenderStyle { line_width: 3, stroke_color: StrokeColor::Red }
    );
}

#[test]
fn coordinates_saturate() {
    assert_eq!(saturate(0), 0);
    assert_eq!(saturate(2147483647), 2147483647);
    assert_eq!(saturate(2147483648), 2147483647);
    assert_eq!(saturate(-2147483648), -2147483648);
    assert_eq!(saturate(-2147483649), -2147483648);
    assert_eq!(saturate(i64::MAX), i32::MAX);
    assert_eq!(saturate(i64::MIN), i32::MIN);
    assert_eq!(add_coordinate(3, 4), 7);
    assert_eq!(add_coordinate(i32::MAX, 1), i32::MAX);
    assert_eq!(add_coordinate(i32::MIN, -1), i32::MIN);
    assert_eq!(sub_coordinate(3, 4), -1);
    assert_eq!(sub_coordinate(i32::MIN, 1), i32::MIN);
    assert_eq!(sub_coordinate(i32::MAX, -1), i32::MAX);
    assert_eq!(sub_coordinate(0, i32::MIN), i32::MAX);
}

#[test]
fn whole_square_roots() {
    assert_eq!(isqrt(0), 0);
    assert_eq!(isqrt(1), 1);
    assert_eq!(isqrt(2), 1);
    assert_eq!(isqrt(3), 1);
    assert_eq!(isqrt(4), 2);
    assert_eq!(isqrt(24), 4);
    assert_eq!(isqrt(25), 5);
    assert_eq!(isqrt(26), 5);
    assert_eq!(isqrt(1u128 << 64), 1u64 << 32);
    assert_eq!(isqrt((1u128 << 64) - 1), (1u64 << 32) - 1);
    assert_eq!(isqrt(u128::MAX), u64::MAX);
}

#[test]
fn square_roots_rounded_up() {
    assert_eq!(isqrt_up(0), 0);
    assert_eq!(isqrt_up(1), 1);
    assert_eq!(isqrt_up(2), 2);
    assert_eq!(isqrt_up(4), 2);
    assert_eq!(isqrt_up(5), 3);
    assert_eq!(isqrt_up(9), 3);
    assert_eq!(isqrt_up(10), 4);
    assert_eq!(isqrt_up((1u128 << 64) + 1), (1u128 << 32) + 1);
    assert_eq!(isqrt_up(u128::MAX), 1u128 << 64);
}

#[test]
fn radii_from_offsets() {
    assert_eq!(radius_of(3, 4), 5);
    assert_eq!(radius_of(-3, -4), 5);
    assert_eq!(radius_of(0, 0), 0);
    assert_eq!(radius_of(1, 1), 2);
    assert_eq!(radius_of(2, 2), 3);
    assert_eq!(radius_of(0, -9), 9);
    assert_eq!(radius_of(4294967295, 0), 4294967295);
    assert_eq!(radius_of(4294967296, 0), 4294967295);
    assert_eq!(radius_of(i64::MIN, i64::MIN), u32::MAX);
    assert_eq!(radius_of(i64::MAX, i64::MIN), u32::MAX);
}
