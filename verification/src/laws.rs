//! What holds of the operations taken together.

use vstd::prelude::*;
use crate::circle::{Circle, RADIUS_KEY};
use crate::decimal::lemma_decimal_round_trip;
use crate::document::TYPE_KEY;
use crate::geometry::{hits_segment, near, TOLERANCE};
use crate::json::{field, JsonModel};
use crate::kind::{ShapeError, ShapeState, ShapeType};
use crate::line::{Line, END_X_KEY, END_Y_KEY};
use crate::number::{distance, lemma_root_up_exists, sat32};
use crate::props::{ORIGIN_X_KEY, ORIGIN_Y_KEY};
use crate::rectangle::{high_side, low_side, Rectangle, HEIGHT_KEY, WIDTH_KEY};
use crate::shape::Shape;
use crate::storage::{
    decoded_all, documents, lemma_decoded_all_fails_on, lemma_decoded_all_push, lemma_first_hit,
    StorageModel,
};

verus! {

/// Whether a point, if it is set, can be moved by `(dx, dy)` without leaving
/// the range of the coordinates.
pub open spec fn move_fits(p: Option<(i32, i32)>, dx: i32, dy: i32) -> bool {
    match p {
        Some(q) => {
            &&& i32::MIN <= q.0 + dx <= i32::MAX
            &&& i32::MIN <= q.1 + dy <= i32::MAX
        },
        None => true,
    }
}

/// Whether every point that a shape stores can be moved by `(dx, dy)`
/// without leaving the range of the coordinates.
pub open spec fn shape_move_fits(shape: Shape, dx: i32, dy: i32) -> bool {
    match shape {
        Shape::Line(line) => move_fits(line.origin, dx, dy) && move_fits(line.end, dx, dy),
        Shape::Rectangle(rectangle) => move_fits(rectangle.origin, dx, dy),
        Shape::Circle(circle) => move_fits(circle.origin, dx, dy),
    }
}

/// A shape is read back from its own document as it was: with its kind, its
/// state and its geometry.
pub proof fn lemma_document_round_trip(shape: Shape)
    ensures
        Shape::decoded(shape.document()) == Ok::<Shape, ShapeError>(shape),
{
    match shape {
        Shape::Line(line) => {
            line.lemma_document_round_trip();
        },
        Shape::Rectangle(rectangle) => {
            rectangle.lemma_document_round_trip();
        },
        Shape::Circle(circle) => {
            circle.lemma_document_round_trip();
        },
    }
    let entries = shape.document()->Object_0;
}

/// The shapes of a collection are read back from the documents of the
/// collection as they were, in their order.
pub proof fn lemma_documents_round_trip(shapes: Seq<Shape>)
    ensures
        decoded_all(documents(shapes)) == Ok::<Seq<Shape>, ShapeError>(shapes),
    decreases shapes.len(),
{
    if shapes.len() == 0 {
        assert(shapes =~= Seq::empty());
    } else {
        let front = shapes.drop_last();
        lemma_documents_round_trip(front);
        lemma_document_round_trip(shapes.last());
        assert(documents(shapes) =~= documents(front).push(shapes.last().document()));
        lemma_decoded_all_push(documents(front), shapes.last().document());
        assert(front.push(shapes.last()) =~= shapes);
    }
}

/// Loading the document of a collection into an empty collection gives the
/// shapes of the first, in their order.
pub proof fn lemma_collection_round_trip(storage: StorageModel)
    ensures
        StorageModel::empty().with_document(storage.document()) matches Ok(loaded)
            && loaded.shapes == storage.shapes,
{
    lemma_documents_round_trip(storage.shapes);
}

/// Moving a shape by `(dx, dy)` and then by `(-dx, -dy)` puts it back where
/// it was, provided the first move keeps every stored point inside the range
/// of the coordinates.
pub proof fn lemma_move_back(shape: Shape, dx: i32, dy: i32)
    requires
        dx > i32::MIN,
        dy > i32::MIN,
        shape_move_fits(shape, dx, dy),
    ensures
        shape.moved(dx, dy).moved((-dx) as i32, (-dy) as i32) == shape,
{
}

/// A move changes neither the kind nor the state of a shape, nor the size
/// of a rectangle or a circle.
pub proof fn lemma_move_keeps_size(shape: Shape, dx: i32, dy: i32)
    ensures
        shape.moved(dx, dy).kind() == shape.kind(),
        shape.moved(dx, dy).state() == shape.state(),
        shape matches Shape::Rectangle(r) ==> shape.moved(dx, dy) matches Shape::Rectangle(m)
            && m.width == r.width && m.height == r.height,
        shape matches Shape::Circle(c) ==> shape.moved(dx, dy) matches Shape::Circle(m) && m.radius
            == c.radius,
{
}

/// The next point of a drawing never takes a shape back to an earlier state:
/// the first point starts the drawing, every later one completes it.
pub proof fn lemma_point_advances(shape: Shape, x: i32, y: i32)
    ensures
        shape.with_point(x, y).kind() == shape.kind(),
        shape.origin() is None ==> shape.with_point(x, y).state() == ShapeState::Drawing
            && shape.with_point(x, y).origin() == Some((x, y)),
        shape.origin() is Some ==> shape.with_point(x, y).state() == ShapeState::Complete
            && shape.with_point(x, y).origin() == shape.origin(),
{
}

/// A document whose `type` is a text that names no kind is turned down as of
/// unknown kind, whatever else it holds.
pub proof fn lemma_unknown_kind(entries: Seq<(Seq<char>, JsonModel)>, tag: Seq<char>)
    requires
        field(entries, TYPE_KEY@) == Some(JsonModel::Text(tag)),
        ShapeType::tagged(tag) is None,
    ensures
        Shape::decoded(JsonModel::Object(entries)) == Err::<Shape, ShapeError>(
            ShapeError::UnknownShapeKind,
        ),
{
}

/// Loading is all or nothing: if one document of an array describes no
/// shape, loading the array fails, whatever the other documents hold.
pub proof fn lemma_one_bad_document(storage: StorageModel, items: Seq<JsonModel>, k: int)
    requires
        0 <= k < items.len(),
        Shape::decoded(items[k]) is Err,
    ensures
        storage.with_document(JsonModel::Array(items)) is Err,
{
    lemma_decoded_all_push(items.take(k), items[k]);
    lemma_decoded_all_fails_on(items, k + 1);
}

/// Every step of the collection keeps its cursors on shapes of the
/// collection.
pub proof fn lemma_steps_keep_valid(storage: StorageModel, kind: ShapeType, added: Seq<Shape>)
    requires
        storage.valid(),
    ensures
        StorageModel::empty().valid(),
        storage.with_new_shape(kind).valid(),
        storage.ready_for(kind).valid(),
        storage.submitted().valid(),
        storage.with_shapes(added).valid(),
        forall|x: int, y: int| (#[trigger] storage.highlighted_at(x, y)).valid(),
        forall|x: int, y: int| (#[trigger] storage.selected_at(x, y)).valid(),
{
    assert forall|x: int, y: int| (#[trigger] storage.highlighted_at(x, y)).valid() by {
        lemma_first_hit(storage.shapes, x, y);
    }
    assert forall|x: int, y: int| (#[trigger] storage.selected_at(x, y)).valid() by {
        lemma_first_hit(storage.shapes, x, y);
    }
}

/// A circle reaches the point that it is drawn through, unless that point is
/// farther from the centre than the greatest radius.
pub proof fn lemma_circle_reaches_its_point(circle: Circle, x: i32, y: i32)
    requires
        circle.origin matches Some(o) && distance(x - o.0, y - o.1) <= u32::MAX,
    ensures
        circle.with_end(x, y).hit(x as int, y as int),
{
    let o = circle.origin->0;
    let dx = x - o.0;
    let dy = y - o.1;
    assert(dx * dx + dy * dy >= 0) by (nonlinear_arith);
    lemma_root_up_exists(dx * dx + dy * dy);
}

/// Both ends of a drawable line of some length are hit.
pub proof fn lemma_line_ends_are_hit(line: Line)
    requires
        line.drawable(),
        line.origin is Some,
        line.origin != line.end,
    ensures
        line.origin matches Some(o) && line.hit(o.0 as int, o.1 as int),
        line.end matches Some(e) && line.hit(e.0 as int, e.1 as int),
{
    let o = line.origin->0;
    let e = line.end->0;
    let dx = e.0 - o.0;
    let dy = e.1 - o.1;
    assert(dx * dx + dy * dy > 0) by (nonlinear_arith)
        requires
            dx != 0 || dy != 0,
    ;
    assert(hits_segment(o, e, o.0 as int, o.1 as int)) by (nonlinear_arith)
        requires
            dx == e.0 - o.0,
            dy == e.1 - o.1,
            dx * dx + dy * dy > 0,
            TOLERANCE == 5,
    ;
    assert(hits_segment(o, e, e.0 as int, e.1 as int)) by (nonlinear_arith)
        requires
            dx == e.0 - o.0,
            dy == e.1 - o.1,
            dx * dx + dy * dy > 0,
            TOLERANCE == 5,
    ;
}

/// The two corners that define a drawable rectangle lie in it.
pub proof fn lemma_rectangle_corners_are_hit(rectangle: Rectangle)
    requires
        rectangle.drawable(),
        rectangle.origin is Some,
    ensures
        rectangle.origin matches Some(o) && rectangle.hit(o.0 as int, o.1 as int)
            && rectangle.hit(o.0 + rectangle.width, o.1 + rectangle.height),
{
}

/// What a resize does to a rectangle, case by case. The sides are those of
/// the rectangle as it lies: left and top have the smaller coordinates. A
/// corner is looked for first, in the order top left, top right, bottom
/// left, bottom right, then an edge, in the order left, right, top, bottom.
/// Dragging the left or the top side moves the origin along and takes the
/// change off the extent; dragging the right or the bottom side adds the
/// change to the extent; with no side near the anchor nothing changes.
pub proof fn lemma_resize_by_cases(rectangle: Rectangle, change: (i32, i32), anchor: (i32, i32))
    requires
        rectangle.origin is Some,
    ensures
        ({
            let o = rectangle.origin->0;
            let left = near(anchor.0 as int, low_side(o.0, rectangle.width));
            let right = near(anchor.0 as int, high_side(o.0, rectangle.width));
            let top = near(anchor.1 as int, low_side(o.1, rectangle.height));
            let bottom = near(anchor.1 as int, high_side(o.1, rectangle.height));
            let moved_x = sat32(o.0 + change.0);
            let moved_y = sat32(o.1 + change.1);
            let narrower = sat32(rectangle.width - change.0);
            let wider = sat32(rectangle.width + change.0);
            let lower = sat32(rectangle.height - change.1);
            let higher = sat32(rectangle.height + change.1);
            rectangle.resized(change, anchor) == if left && top {
                Rectangle { origin: Some((moved_x, moved_y)), width: narrower, height: lower, ..rectangle }
            } else if right && top {
                Rectangle { origin: Some((o.0, moved_y)), width: wider, height: lower, ..rectangle }
            } else if left && bottom {
                Rectangle { origin: Some((moved_x, o.1)), width: narrower, height: higher, ..rectangle }
            } else if right && bottom {
                Rectangle { width: wider, height: higher, ..rectangle }
            } else if left {
                Rectangle { origin: Some((moved_x, o.1)), width: narrower, ..rectangle }
            } else if right {
                Rectangle { width: wider, ..rectangle }
            } else if top {
                Rectangle { origin: Some((o.0, moved_y)), height: lower, ..rectangle }
            } else if bottom {
                Rectangle { height: higher, ..rectangle }
            } else {
                rectangle
            }
        }),
{
}

/// No two labels of properties are the same.
pub proof fn lemma_labels_differ()
    ensures
        ORIGIN_X_KEY@ != ORIGIN_Y_KEY@,
        ORIGIN_X_KEY@ != END_X_KEY@,
        ORIGIN_X_KEY@ != END_Y_KEY@,
        ORIGIN_X_KEY@ != WIDTH_KEY@,
        ORIGIN_X_KEY@ != HEIGHT_KEY@,
        ORIGIN_X_KEY@ != RADIUS_KEY@,
        ORIGIN_Y_KEY@ != END_X_KEY@,
        ORIGIN_Y_KEY@ != END_Y_KEY@,
        ORIGIN_Y_KEY@ != WIDTH_KEY@,
        ORIGIN_Y_KEY@ != HEIGHT_KEY@,
        ORIGIN_Y_KEY@ != RADIUS_KEY@,
        END_X_KEY@ != END_Y_KEY@,
        WIDTH_KEY@ != HEIGHT_KEY@,
{
    reveal_strlit("Origin x");
    reveal_strlit("Origin y");
    reveal_strlit("End x");
    reveal_strlit("End y");
    reveal_strlit("Width");
    reveal_strlit("Height");
    reveal_strlit("Radius");
    assert(ORIGIN_X_KEY@.len() == 8 && ORIGIN_X_KEY@[7] == 'x');
    assert(ORIGIN_Y_KEY@.len() == 8 && ORIGIN_Y_KEY@[7] == 'y');
    assert(END_X_KEY@.len() == 5 && END_X_KEY@[4] == 'x');
    assert(END_Y_KEY@.len() == 5 && END_Y_KEY@[4] == 'y');
    assert(WIDTH_KEY@.len() == 5 && WIDTH_KEY@[4] == 'h');
    assert(HEIGHT_KEY@.len() == 6);
    assert(RADIUS_KEY@.len() == 6);
}

/// What a shape shows of a property is accepted back for that property and
/// leaves the shape as it is, once the points of the shape are set.
pub proof fn lemma_shown_props_are_accepted(shape: Shape, i: int)
    requires
        0 <= i < shape.props().len(),
        shape.origin() is Some,
        shape matches Shape::Line(line) ==> line.end is Some,
    ensures
        shape.with_prop(shape.props()[i].0, shape.props()[i].1) == Ok::<Shape, ShapeError>(shape),
{
    lemma_labels_differ();
    let o = shape.origin()->0;
    lemma_decimal_round_trip(o.0 as int);
    lemma_decimal_round_trip(o.1 as int);
    match shape {
        Shape::Line(line) => {
            let e = line.end->0;
            lemma_decimal_round_trip(e.0 as int);
            lemma_decimal_round_trip(e.1 as int);
        },
        Shape::Rectangle(rectangle) => {
            lemma_decimal_round_trip(rectangle.width as int);
            lemma_decimal_round_trip(rectangle.height as int);
        },
        Shape::Circle(circle) => {
            lemma_decimal_round_trip(circle.radius as int);
        },
    }
}

/// The rule by which the next point of a drawing finds its shape. While the
/// current shape is of the kind that is drawn and not complete, the
/// collection stays as it is but for the selection, and the point goes to the
/// current shape. In every other case one shape is added, nothing else
/// changes, and the point goes to the new shape, which is current from then
/// on.
pub proof fn lemma_ready_for(storage: StorageModel, kind: ShapeType)
    requires
        storage.valid(),
    ensures
        storage.continues(kind) ==> {
            &&& storage.ready_for(kind).shapes == storage.shapes
            &&& storage.ready_for(kind).current == storage.current
            &&& storage.ready_for(kind).selected == storage.current
        },
        !storage.continues(kind) ==> {
            &&& storage.ready_for(kind).shapes.len() == storage.shapes.len() + 1
            &&& storage.ready_for(kind).shapes.take(storage.shapes.len() as int) == storage.shapes
            &&& storage.ready_for(kind).shapes.last() == Shape::fresh(kind)
            &&& storage.ready_for(kind).current == Some(storage.shapes.len() as int)
            &&& storage.ready_for(kind).selected == storage.selected
        },
        storage.ready_for(kind).highlighted == storage.highlighted,
{
    if !storage.continues(kind) {
        assert(storage.ready_for(kind).shapes.take(storage.shapes.len() as int) =~= storage.shapes);
    }
}

/// Whether the state of a shape fits its origin: only a new shape is without
/// an origin.
pub open spec fn origin_fits_state(shape: Shape) -> bool {
    shape.origin() is None ==> shape.state() == ShapeState::New
}

/// Drawing and editing keep the state of a shape in step with its origin:
/// a shape that has left the state new has an origin, whatever points are
/// added to it, wherever it is moved or dragged, and whichever of its
/// properties is edited. Only `set_state` and reading a document can put a
/// shape without an origin into a later state.
pub proof fn lemma_origin_fits_state(
    shape: Shape,
    p: (i32, i32),
    q: (i32, i32),
    key: Seq<char>,
    value: Seq<char>,
)
    requires
        origin_fits_state(shape),
    ensures
        origin_fits_state(Shape::fresh(shape.kind())),
        origin_fits_state(shape.with_point(p.0, p.1)),
        origin_fits_state(shape.with_end(p.0, p.1)),
        origin_fits_state(shape.with_points(p, q)),
        origin_fits_state(shape.moved(p.0, p.1)),
        origin_fits_state(shape.resized(p, q)),
        shape.with_prop(key, value) matches Ok(edited) ==> origin_fits_state(edited),
{
}

} // verus!
