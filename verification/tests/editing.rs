use shape_editor::{
    Circle, Editor, Line, Mode, Rectangle, Shape, ShapeError, ShapeState, ShapeType,
};

fn line(ox: i32, oy: i32, ex: i32, ey: i32) -> Shape {
    Shape::Line(Line { origin: Some((ox, oy)), end: Some((ex, ey)), state: ShapeState::Complete })
}

fn rectangle(ox: i32, oy: i32, width: i32, height: i32) -> Shape {
    Shape::Rectangle(Rectangle { origin: Some((ox, oy)), width, height, state: ShapeState::Complete })
}

fn circle(ox: i32, oy: i32, radius: u32) -> Shape {
    Shape::Circle(Circle { origin: Some((ox, oy)), radius, state: ShapeState::Complete })
}

/// An editor with a rectangle from (10, 10) to (110, 60) and a circle round
/// (200, 200) with the radius 50.
fn editor_with_two_shapes() -> Editor {
    let mut editor = Editor::new();
    editor.set_shape_type(ShapeType::Rectangle);
    editor.mouse_clicked(10, 10);
    editor.mouse_clicked(110, 60);
    editor.set_shape_type(ShapeType::Circle);
    editor.mouse_clicked(200, 200);
    editor.mouse_clicked(250, 200);
    assert_eq!(editor.storage().get_shapes(), &vec![rectangle(10, 10, 100, 50), circle(200, 200, 50)]);
    editor
}

#[test]
fn editor_starts_drawing_lines() {
    let editor = Editor::new();
    assert_eq!(editor.mode(), Mode::Draw);
    assert_eq!(editor.shape_type(), ShapeType::Line);
    assert_eq!(editor.json(), "");
    assert!(editor.storage().get_shapes().is_empty());
}

#[test]
fn clicks_draw() {
    let mut editor = Editor::new();
    editor.mouse_clicked(0, 0);
    assert_eq!(
        editor.storage().get_shapes(),
        &vec![Shape::Line(Line { origin: Some((0, 0)), end: None, state: ShapeState::Drawing })]
    );
    editor.mouse_clicked(100, 0);
    assert_eq!(editor.storage().get_shapes(), &vec![line(0, 0, 100, 0)]);
    editor.mouse_clicked(5, 5);
    assert_eq!(editor.storage().get_shapes().len(), 2);
    editor.set_shape_type(ShapeType::Circle);
    assert_eq!(editor.shape_type(), ShapeType::Circle);
    editor.mouse_clicked(50, 50);
    assert_eq!(editor.storage().get_shapes().len(), 3);
    assert_eq!(editor.storage().get_shapes()[1].get_state(), ShapeState::Drawing);
    assert_eq!(
        editor.storage().get_shapes()[2],
        Shape::Circle(Circle { origin: Some((50, 50)), radius: 0, state: ShapeState::Drawing })
    );
}

#[test]
fn end_follows_the_pointer_while_drawing() {
    let mut editor = Editor::new();
    editor.mouse_move(3, 3);
    assert!(editor.storage().get_shapes().is_empty());
    editor.mouse_clicked(0, 0);
    editor.mouse_move(30, 40);
    assert_eq!(
        editor.storage().get_shapes(),
        &vec![Shape::Line(Line { origin: Some((0, 0)), end: Some((30, 40)), state: ShapeState::Drawing })]
    );
    editor.mouse_clicked(60, 80);
    editor.mouse_move(1, 1);
    assert_eq!(editor.storage().get_shapes(), &vec![line(0, 0, 60, 80)]);
}

#[test]
fn pointer_highlights_and_clicks_select() {
    let mut editor = editor_with_two_shapes();
    editor.set_mode(Mode::Select);
    assert_eq!(editor.mode(), Mode::Select);
    editor.mouse_move(20, 20);
    assert_eq!(editor.storage().get_highlighted(), Some(&rectangle(10, 10, 100, 50)));
    editor.mouse_move(200, 210);
    assert_eq!(editor.storage().get_highlighted(), Some(&circle(200, 200, 50)));
    editor.mouse_move(500, 500);
    assert_eq!(editor.storage().get_highlighted(), None);
    editor.mouse_clicked(20, 20);
    assert_eq!(editor.storage().get_selected(), Some(&rectangle(10, 10, 100, 50)));
    editor.mouse_clicked(500, 500);
    assert_eq!(editor.storage().get_selected(), None);
    editor.mouse_down(20, 20);
    editor.mouse_move(30, 30);
    editor.mouse_up(30, 30);
    assert_eq!(editor.storage().get_shapes(), &vec![rectangle(10, 10, 100, 50), circle(200, 200, 50)]);
}

#[test]
fn dragging_moves_the_selected_shape() {
    let mut editor = editor_with_two_shapes();
    editor.set_mode(Mode::Move);
    editor.mouse_clicked(20, 20);
    editor.mouse_move(200, 200);
    assert_eq!(editor.storage().get_highlighted(), Some(&circle(200, 200, 50)));
    assert_eq!(editor.storage().get_shapes()[0], rectangle(10, 10, 100, 50));
    editor.mouse_down(20, 20);
    editor.mouse_move(25, 18);
    assert_eq!(editor.storage().get_shapes()[0], rectangle(15, 8, 100, 50));
    editor.mouse_move(35, 20);
    assert_eq!(editor.storage().get_shapes()[0], rectangle(25, 10, 100, 50));
    editor.mouse_up(35, 20);
    editor.mouse_move(300, 300);
    assert_eq!(
        editor.storage().get_shapes(),
        &vec![rectangle(25, 10, 100, 50), circle(200, 200, 50)]
    );
}

#[test]
fn dragging_resizes_the_selected_shape() {
    let mut editor = editor_with_two_shapes();
    editor.set_mode(Mode::Resize);
    editor.mouse_clicked(20, 20);
    editor.mouse_down(110, 60);
    editor.mouse_move(113, 64);
    assert_eq!(editor.storage().get_shapes()[0], rectangle(10, 10, 103, 54));
    // The anchor has moved along with the pointer: the corner is still held.
    editor.mouse_move(120, 70);
    assert_eq!(editor.storage().get_shapes()[0], rectangle(10, 10, 110, 60));
    editor.mouse_up(120, 70);
    editor.mouse_move(130, 80);
    assert_eq!(editor.storage().get_shapes()[0], rectangle(10, 10, 110, 60));

    editor.mouse_clicked(200, 200);
    editor.mouse_down(250, 200);
    editor.mouse_move(260, 200);
    assert_eq!(editor.storage().get_shapes()[1], circle(200, 200, 60));
}

#[test]
fn dragging_without_a_selection_does_nothing() {
    let mut editor = editor_with_two_shapes();
    editor.set_mode(Mode::Move);
    editor.mouse_clicked(500, 500);
    editor.mouse_down(20, 20);
    editor.mouse_move(25, 25);
    editor.set_mode(Mode::Resize);
    editor.mouse_move(30, 30);
    assert_eq!(editor.storage().get_shapes(), &vec![rectangle(10, 10, 100, 50), circle(200, 200, 50)]);
    assert_eq!(editor.storage().get_highlighted(), None);
    // The drag still starts at (20, 20): nothing has taken a step of it.
    editor.mouse_clicked(30, 30);
    editor.set_mode(Mode::Move);
    editor.mouse_move(30, 30);
    assert_eq!(editor.storage().get_shapes()[0], rectangle(20, 20, 100, 50));
}

#[test]
fn commands() {
    let mut editor = editor_with_two_shapes();
    editor.set_shape_type(ShapeType::Line);
    editor.new_shape();
    assert_eq!(editor.storage().get_shapes().len(), 3);
    assert_eq!(editor.storage().get_selected(), Some(&Shape::Line(Line::new())));
    assert_eq!(editor.value_changed("Origin x", "1"), Ok(()));
    assert_eq!(editor.value_changed("End y", "x"), Err(ShapeError::InvalidNumber));
    assert_eq!(editor.value_changed("End y", "2"), Ok(()));
    assert_eq!(editor.value_changed("Radius", "2"), Ok(()));
    editor.submit_shape();
    assert_eq!(editor.storage().get_shapes()[2], line(1, 0, 0, 2));
    editor.clear_screen();
    assert!(editor.storage().get_shapes().is_empty());
    assert_eq!(editor.value_changed("Origin x", "x"), Ok(()));
    editor.submit_shape();
    assert!(editor.storage().get_shapes().is_empty());
}

#[test]
fn saving_and_loading() {
    let mut editor = editor_with_two_shapes();
    editor.save_to_json();
    let saved = editor.json().clone();
    assert_eq!(
        saved,
        r#"[{"height":50,"origin_x":10,"origin_y":10,"state":"Complete","type":"rectangle","width":100},{"origin":[200,200],"radius":50,"state":"Complete","type":"circle"}]"#
    );
    let mut other = Editor::new();
    assert_eq!(other.load_from_json(saved.clone()), Ok(()));
    assert_eq!(other.json(), &saved);
    assert_eq!(other.storage().get_shapes(), editor.storage().get_shapes());
    assert_eq!(
        other.load_from_json(r#"[{"type":"triangle"}]"#.to_string()),
        Err(ShapeError::UnknownShapeKind)
    );
    assert_eq!(other.json(), r#"[{"type":"triangle"}]"#);
    assert_eq!(other.storage().get_shapes(), editor.storage().get_shapes());
    other.json_changed("[]".to_string());
    assert_eq!(other.json(), "[]");
}
