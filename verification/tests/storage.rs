use shape_editor::{
    Circle, Json, Line, Rectangle, Shape, ShapeError, ShapeState, ShapeStorage, ShapeType,
};

fn line(ox: i32, oy: i32, ex: i32, ey: i32) -> Shape {
    Shape::Line(Line { origin: Some((ox, oy)), end: Some((ex, ey)), state: ShapeState::Complete })
}

fn rectangle(ox: i32, oy: i32, width: i32, height: i32) -> Shape {
    Shape::Rectangle(Rectangle { origin: Some((ox, oy)), width, height, state: ShapeState::Complete })
}

fn circle(ox: i32, oy: i32, radius: u32) -> Shape {
    Shape::Circle(Circle { origin: Some((ox, oy)), radius, state: ShapeState::Complete })
}

fn storage_of(shapes: &[Shape]) -> ShapeStorage {
    let mut storage = ShapeStorage::new();
    let docs = Json::Array(shapes.iter().map(|s| s.to_document()).collect());
    assert_eq!(storage.add_document(&docs), Ok(()));
    storage
}

#[test]
fn new_storage_is_empty() {
    let mut storage = ShapeStorage::new();
    assert!(storage.get_shapes().is_empty());
    assert_eq!(storage.get_highlighted(), None);
    assert_eq!(storage.get_selected(), None);
    assert!(storage.get_selected_mut().is_none());
    assert!(storage.get_current_mut().is_none());
}

#[test]
fn get_or_create_shape_sequencing() {
    let mut storage = ShapeStorage::new();
    storage.get_or_create_shape(ShapeType::Line).add_point(0, 0);
    assert_eq!(storage.get_shapes().len(), 1);
    assert_eq!(storage.get_shapes()[0].get_state(), ShapeState::Drawing);
    storage.get_or_create_shape(ShapeType::Line).add_point(100, 0);
    assert_eq!(storage.get_shapes().len(), 1);
    assert_eq!(storage.get_shapes()[0], line(0, 0, 100, 0));
    let third = storage.get_or_create_shape(ShapeType::Line);
    assert_eq!(*third, Shape::Line(Line::new()));
    third.add_point(7, 7);
    assert_eq!(storage.get_shapes().len(), 2);
    assert_eq!(storage.get_shapes()[0], line(0, 0, 100, 0));
    assert_eq!(
        storage.get_shapes()[1],
        Shape::Line(Line { origin: Some((7, 7)), end: None, state: ShapeState::Drawing })
    );
    assert_eq!(storage.get_current_mut().map(|s| *s), Some(storage.get_shapes()[1]));
}

#[test]
fn get_or_create_shape_selects_the_shape_it_goes_on_with() {
    let mut storage = ShapeStorage::new();
    storage.get_or_create_shape(ShapeType::Circle).add_point(5, 5);
    assert_eq!(storage.get_selected(), None);
    storage.get_or_create_shape(ShapeType::Circle);
    assert_eq!(
        storage.get_selected(),
        Some(&Shape::Circle(Circle { origin: Some((5, 5)), radius: 0, state: ShapeState::Drawing }))
    );
}

#[test]
fn get_or_create_shape_starts_anew_for_another_kind() {
    let mut storage = ShapeStorage::new();
    storage.get_or_create_shape(ShapeType::Line).add_point(0, 0);
    let shape = storage.get_or_create_shape(ShapeType::Rectangle);
    assert_eq!(*shape, Shape::Rectangle(Rectangle::new()));
    shape.add_point(1, 1);
    assert_eq!(storage.get_shapes().len(), 2);
    assert_eq!(storage.get_shapes()[0].get_state(), ShapeState::Drawing);
    assert_eq!(storage.get_shapes()[1].get_origin(), Some((1, 1)));
    assert_eq!(storage.get_selected(), None);
}

#[test]
fn get_or_create_shape_continues_a_new_shape() {
    let mut storage = ShapeStorage::new();
    storage.new_shape(ShapeType::Line);
    storage.get_or_create_shape(ShapeType::Line).add_point(3, 3);
    assert_eq!(storage.get_shapes().len(), 1);
    assert_eq!(storage.get_shapes()[0].get_origin(), Some((3, 3)));
}

#[test]
fn new_shape_goes_to_the_end_whatever_is_current() {
    // After loading, the first shape is current. What is started then is
    // added at the end and is current from then on.
    let mut storage = storage_of(&[line(0, 0, 10, 0), circle(0, 0, 5), rectangle(0, 0, 5, 5)]);
    assert_eq!(storage.get_current_mut().map(|s| *s), Some(line(0, 0, 10, 0)));
    storage.get_or_create_shape(ShapeType::Circle).add_point(9, 9);
    assert_eq!(storage.get_shapes().len(), 4);
    assert_eq!(storage.get_shapes()[1], circle(0, 0, 5));
    assert_eq!(storage.get_shapes()[3].get_origin(), Some((9, 9)));
    assert_eq!(storage.get_current_mut().map(|s| s.get_origin()), Some(Some((9, 9))));
    storage.new_shape(ShapeType::Line);
    assert_eq!(storage.get_shapes().len(), 5);
    storage.get_or_create_shape(ShapeType::Rectangle);
    assert_eq!(storage.get_shapes().len(), 6);
    assert_eq!(storage.get_current_mut().map(|s| *s), Some(Shape::Rectangle(Rectangle::new())));
}

#[test]
fn new_shape() {
    let mut storage = storage_of(&[circle(0, 0, 5)]);
    assert!(storage.intersect_and_highlight(0, 0).is_some());
    storage.new_shape(ShapeType::Rectangle);
    assert_eq!(storage.get_shapes().len(), 2);
    assert_eq!(storage.get_shapes()[1], Shape::Rectangle(Rectangle::new()));
    assert_eq!(storage.get_highlighted(), None);
    assert_eq!(storage.get_selected(), Some(&Shape::Rectangle(Rectangle::new())));
    assert_eq!(storage.get_current_mut().map(|s| *s), Some(Shape::Rectangle(Rectangle::new())));
    storage.new_shape(ShapeType::Rectangle);
    assert_eq!(storage.get_shapes().len(), 3);
}

#[test]
fn submit_shape() {
    let mut storage = ShapeStorage::new();
    storage.submit_shape();
    assert!(storage.get_shapes().is_empty());
    storage.new_shape(ShapeType::Line);
    storage.submit_shape();
    assert_eq!(storage.get_selected().map(|s| s.get_state()), Some(ShapeState::New));
    assert_eq!(storage.get_selected_mut().map(|s| s.set_prop("Origin x", "1")), Some(Ok(())));
    storage.submit_shape();
    assert_eq!(storage.get_selected().map(|s| s.get_state()), Some(ShapeState::New));
    assert_eq!(storage.get_selected_mut().map(|s| s.set_prop("End x", "9")), Some(Ok(())));
    storage.submit_shape();
    assert_eq!(
        storage.get_selected(),
        Some(&Shape::Line(Line {
            origin: Some((1, 0)),
            end: Some((9, 0)),
            state: ShapeState::Complete
        }))
    );
}

#[test]
fn submit_shape_needs_an_origin() {
    let mut storage = ShapeStorage::new();
    storage.new_shape(ShapeType::Rectangle);
    assert_eq!(storage.get_selected_mut().map(|s| s.set_prop("Width", "4")), Some(Ok(())));
    storage.submit_shape();
    assert_eq!(storage.get_selected().map(|s| s.get_state()), Some(ShapeState::New));
    assert_eq!(storage.get_selected_mut().map(|s| s.set_prop("Origin y", "4")), Some(Ok(())));
    storage.submit_shape();
    assert_eq!(storage.get_selected().map(|s| s.get_state()), Some(ShapeState::Complete));
    storage.new_shape(ShapeType::Circle);
    storage.submit_shape();
    assert_eq!(storage.get_selected().map(|s| s.get_state()), Some(ShapeState::New));
    assert_eq!(storage.get_selected_mut().map(|s| s.set_prop("Origin x", "4")), Some(Ok(())));
    storage.submit_shape();
    assert_eq!(storage.get_selected().map(|s| s.get_state()), Some(ShapeState::Complete));
    assert_eq!(storage.get_shapes()[0].get_state(), ShapeState::Complete);
}

#[test]
fn first_hit_wins() {
    let shapes = [rectangle(0, 0, 100, 100), circle(50, 50, 10), line(200, 0, 300, 0)];
    let mut storage = storage_of(&shapes);
    assert_eq!(storage.intersect_and_highlight(50, 50), Some(&shapes[0]));
    assert_eq!(storage.get_highlighted(), Some(&shapes[0]));
    assert_eq!(storage.get_selected(), None);
    assert_eq!(storage.intersect_and_select(250, 2), Some(&shapes[2]));
    assert_eq!(storage.get_selected(), Some(&shapes[2]));
    assert_eq!(storage.get_highlighted(), Some(&shapes[0]));
    assert_eq!(storage.intersect_and_highlight(500, 500), None);
    assert_eq!(storage.get_highlighted(), None);
    assert_eq!(storage.get_selected(), Some(&shapes[2]));
    assert_eq!(storage.intersect_and_select(500, 500), None);
    assert_eq!(storage.get_selected(), None);

    let shapes = [circle(50, 50, 10), rectangle(0, 0, 100, 100)];
    let mut storage = storage_of(&shapes);
    assert_eq!(storage.intersect_and_select(50, 50), Some(&shapes[0]));
    assert_eq!(storage.intersect_and_select(5, 5), Some(&shapes[1]));
    assert_eq!(storage.intersect_and_highlight(55, 55), Some(&shapes[0]));
}

#[test]
fn hit_test_of_an_empty_storage() {
    let mut storage = ShapeStorage::new();
    assert_eq!(storage.intersect_and_highlight(0, 0), None);
    assert_eq!(storage.intersect_and_select(0, 0), None);
}

#[test]
fn selected_shape_can_be_changed() {
    let mut storage = storage_of(&[circle(50, 50, 10), rectangle(0, 0, 100, 100)]);
    assert!(storage.intersect_and_select(5, 5).is_some());
    storage.get_selected_mut().unwrap().move_by(1000, 1000);
    assert_eq!(storage.get_shapes()[0], circle(50, 50, 10));
    assert_eq!(storage.get_shapes()[1], rectangle(1000, 1000, 100, 100));
    storage.get_selected_mut().unwrap().resize((5, 5), (1000, 1000));
    assert_eq!(storage.get_shapes()[1], rectangle(1005, 1005, 95, 95));
    storage.get_current_mut().unwrap().set_end(50, 55);
    assert_eq!(storage.get_shapes()[0], circle(50, 50, 5));
}

#[test]
fn clear() {
    let mut storage = storage_of(&[circle(50, 50, 10), rectangle(0, 0, 100, 100)]);
    storage.new_shape(ShapeType::Line);
    assert!(storage.intersect_and_highlight(50, 50).is_some());
    storage.clear();
    assert!(storage.get_shapes().is_empty());
    assert_eq!(storage.get_highlighted(), None);
    assert_eq!(storage.get_selected(), None);
    assert!(storage.get_current_mut().is_none());
    assert_eq!(storage.serialize_to_json(), "[]");
    storage.get_or_create_shape(ShapeType::Line).add_point(1, 1);
    assert_eq!(storage.get_shapes().len(), 1);
}

#[test]
fn serialized_collection() {
    assert_eq!(ShapeStorage::new().serialize_to_json(), "[]");
    assert_eq!(ShapeStorage::new().to_document(), Json::Array(vec![]));
    let shapes = [line(0, 0, 100, 0), rectangle(10, 10, 100, 50), circle(100, 100, 50)];
    let storage = storage_of(&shapes);
    assert_eq!(
        storage.serialize_to_json(),
        concat_all(&[
            r#"[{"end_x":100,"end_y":0,"origin_x":0,"origin_y":0,"state":"Complete","type":"line"},"#,
            r#"{"height":50,"origin_x":10,"origin_y":10,"state":"Complete","type":"rectangle","width":100},"#,
            r#"{"origin":[100,100],"radius":50,"state":"Complete","type":"circle"}]"#,
        ])
    );
    assert_eq!(
        storage.to_document(),
        Json::Array(shapes.iter().map(|s| s.to_document()).collect())
    );
}

fn concat_all(parts: &[&str]) -> String {
    let mut all = String::new();
    for part in parts {
        all.push_str(part);
    }
    all
}

#[test]
fn collection_round_trip() {
    let mut drawn = ShapeStorage::new();
    let l = drawn.get_or_create_shape(ShapeType::Line);
    l.add_point(0, 0);
    l.add_point(100, 0);
    let r = drawn.get_or_create_shape(ShapeType::Rectangle);
    r.add_point(10, 10);
    r.add_point(110, 60);
    let c = drawn.get_or_create_shape(ShapeType::Circle);
    c.add_point(100, 100);
    c.add_point(150, 100);
    let json = drawn.serialize_to_json();

    let value: serde_json::Value = serde_json::from_str(&json).unwrap();
    assert_eq!(value.as_array().map(|a| a.len()), Some(3));

    let mut loaded = ShapeStorage::new();
    assert_eq!(loaded.deserialize_from_json(&json), Ok(()));
    assert_eq!(
        loaded.get_shapes(),
        &vec![line(0, 0, 100, 0), rectangle(10, 10, 100, 50), circle(100, 100, 50)]
    );
    assert_eq!(loaded.get_shapes(), drawn.get_shapes());
    assert_eq!(loaded.serialize_to_json(), json);
}

#[test]
fn loading_adds_at_the_end_and_keeps_the_cursors() {
    let mut storage = storage_of(&[circle(50, 50, 10)]);
    assert!(storage.intersect_and_select(50, 50).is_some());
    assert!(storage.intersect_and_highlight(50, 50).is_some());
    let json = storage_of(&[line(0, 0, 1, 1), rectangle(0, 0, 2, 2)]).serialize_to_json();
    assert_eq!(storage.deserialize_from_json(&json), Ok(()));
    assert_eq!(
        storage.get_shapes(),
        &vec![circle(50, 50, 10), line(0, 0, 1, 1), rectangle(0, 0, 2, 2)]
    );
    assert_eq!(storage.get_selected(), Some(&circle(50, 50, 10)));
    assert_eq!(storage.get_highlighted(), Some(&circle(50, 50, 10)));
    assert_eq!(storage.get_current_mut().map(|s| *s), Some(circle(50, 50, 10)));
    assert_eq!(storage.deserialize_from_json("[]"), Ok(()));
    assert_eq!(storage.get_shapes().len(), 3);
}

#[test]
fn malformed_document() {
    let shapes = [line(0, 0, 100, 0), circle(100, 100, 50)];
    let mut storage = storage_of(&shapes);
    assert!(storage.intersect_and_select(100, 100).is_some());
    assert_eq!(
        storage.deserialize_from_json(r#"[{"type":"triangle", "state": "New", "a": 1, "b": 2, "c": 3}]"#),
        Err(ShapeError::UnknownShapeKind)
    );
    assert_eq!(storage.get_shapes(), &shapes.to_vec());
    assert_eq!(storage.get_selected(), Some(&shapes[1]));
    assert_eq!(
        storage.deserialize_from_json(r#"{"type":"triangle"}"#),
        Err(ShapeError::MalformedDocument)
    );
    assert_eq!(storage.get_shapes(), &shapes.to_vec());
}

#[test]
fn loading_is_all_or_nothing() {
    let shapes = [line(0, 0, 100, 0)];
    let mut storage = storage_of(&shapes);
    let good = r#"{"type": "circle", "state": "Complete", "origin": [1, 2], "radius": 3}"#;
    for (bad, error) in [
        (r#"{"type": "hexagon", "state": "New"}"#, ShapeError::UnknownShapeKind),
        (r#"{"type": "circle", "state": "Old", "radius": 3}"#, ShapeError::InvalidState),
        (r#"{"type": "circle", "state": "New", "radius": 3.5}"#, ShapeError::InvalidNumber),
        (r#"{"type": "circle", "state": "New"}"#, ShapeError::MalformedDocument),
        (r#"{"state": "New"}"#, ShapeError::MalformedDocument),
        ("7", ShapeError::MalformedDocument),
    ] {
        for json in [
            format!("[{}]", bad),
            format!("[{}, {}]", good, bad),
            format!("[{}, {}]", bad, good),
            format!("[{}, {}, {}]", good, bad, good),
        ] {
            assert_eq!(storage.deserialize_from_json(&json), Err(error), "{}", json);
            assert_eq!(storage.get_shapes(), &shapes.to_vec());
        }
    }
    assert_eq!(storage.deserialize_from_json(&format!("[{}, {}]", good, good)), Ok(()));
    assert_eq!(storage.get_shapes().len(), 3);
}

#[test]
fn first_bad_document_decides_the_error() {
    let mut storage = ShapeStorage::new();
    assert_eq!(
        storage.deserialize_from_json(
            r#"[{"type": "line", "state": "Old"}, {"type": "hexagon", "state": "New"}]"#
        ),
        Err(ShapeError::InvalidState)
    );
    assert_eq!(
        storage.deserialize_from_json(
            r#"[{"type": "hexagon", "state": "New"}, {"type": "line", "state": "Old"}]"#
        ),
        Err(ShapeError::UnknownShapeKind)
    );
}

#[test]
fn text_has_to_be_a_json_array() {
    let mut storage = ShapeStorage::new();
    for bad in ["", "[", "{}", "null", "3", "\"[]\"", r#"{"type": "line", "state": "New"}"#] {
        assert_eq!(storage.deserialize_from_json(bad), Err(ShapeError::MalformedDocument));
    }
    assert_eq!(storage.add_document(&Json::Null), Err(ShapeError::MalformedDocument));
    assert_eq!(storage.add_document(&Json::Object(vec![])), Err(ShapeError::MalformedDocument));
    assert!(storage.get_shapes().is_empty());
}

#[test]
fn decode_all_reads_each_document() {
    let shapes = vec![line(0, 0, 1, 1), circle(1, 1, 1)];
    let docs: Vec<Json> = shapes.iter().map(|s| s.to_document()).collect();
    assert_eq!(ShapeStorage::decode_all(&docs), Ok(shapes));
    assert_eq!(ShapeStorage::decode_all(&Vec::new()), Ok(Vec::new()));
    assert_eq!(ShapeStorage::decode_all(&vec![Json::Null]), Err(ShapeError::MalformedDocument));
}
