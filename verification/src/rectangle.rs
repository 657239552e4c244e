//! Rectangles: a corner and a signed extent on each axis.

use vstd::prelude::*;
use crate::decimal::{coordinate_value, decimal, parse_coordinate};
use crate::document::{
    check_kind, header, kind_is, lemma_field_added, lemma_field_header, lemma_field_point,
    lemma_fields_differ, number_in, point_in, push_point_fields, push_whole, read_number,
    read_point, read_state, start_entries, state_in, whole, with_point_fields, HEIGHT_FIELD,
    ORIGIN_X_FIELD, ORIGIN_Y_FIELD, WIDTH_FIELD,
};
use crate::geometry::{is_near, near, shift, shifted_if_set};
use crate::json::{json_of_text, text_of_json, Json, JsonModel};
use crate::kind::{same_text, ShapeError, ShapeState, ShapeType};
use crate::number::{add_coordinate, sat32, sub_coordinate};
use crate::props::{
    get_x, get_y, number_line, point_line, push_number_line, push_point_line, push_prop, with_x,
    with_y, x_of, y_of, ORIGIN_X_KEY, ORIGIN_Y_KEY,
};

verus! {

/// A rectangle. `origin` is the corner that was set first; `width` and
/// `height` lead from it to the opposite corner and may be negative, so the
/// rectangle can grow from its origin in any direction.
#[derive(Debug, Clone, Copy, PartialEq, Eq)]
pub struct Rectangle {
    pub origin: Option<(i32, i32)>,
    pub width: i32,
    pub height: i32,
    pub state: ShapeState,
}

/// The side of one axis of a rectangle that a resize takes hold of.
pub enum Grip {
    /// The side with the smaller coordinate: the left or the top one.
    Low,
    /// The side with the greater coordinate: the right or the bottom one.
    High,
    /// Neither side.
    Free,
}

/// The smaller of the two coordinates that bound a rectangle on an axis
/// where it reaches from `start` over `extent`.
pub open spec fn low_side(start: i32, extent: i32) -> int {
    if extent > 0 {
        start as int
    } else {
        start + extent
    }
}

/// The greater of the two coordinates that bound a rectangle on an axis
/// where it reaches from `start` over `extent`.
pub open spec fn high_side(start: i32, extent: i32) -> int {
    if extent > 0 {
        start + extent
    } else {
        start as int
    }
}

/// The side that an anchor at `at` holds on an axis where the rectangle
/// reaches from `start` over `extent`: the low side if the anchor is near it,
/// else the high side if the anchor is near that, else none.
pub open spec fn grip_of(at: i32, start: i32, extent: i32) -> Grip {
    if near(at as int, low_side(start, extent)) {
        Grip::Low
    } else if near(at as int, high_side(start, extent)) {
        Grip::High
    } else {
        Grip::Free
    }
}

/// The start and extent of one axis after the held side was dragged by
/// `change`. Dragging the low side moves the start along and takes the change
/// off the extent; dragging the high side adds the change to the extent.
pub open spec fn dragged(start: i32, extent: i32, grip: Grip, change: i32) -> (i32, i32) {
    match grip {
        Grip::Low => (sat32(start + change), sat32(extent - change)),
        Grip::High => (start, sat32(extent + change)),
        Grip::Free => (start, extent),
    }
}

impl Rectangle {
    /// A rectangle that nothing has been drawn of yet.
    pub open spec fn fresh() -> Rectangle {
        Rectangle { origin: None, width: 0, height: 0, state: ShapeState::New }
    }

    /// Whether there is something to draw: the drawing has started and
    /// neither extent is zero.
    pub open spec fn drawable(self) -> bool {
        self.state.is_started() && self.width != 0 && self.height != 0
    }

    /// The corner opposite to the origin.
    pub open spec fn far_corner(self) -> Option<(i32, i32)> {
        match self.origin {
            Some(o) => Some((sat32(o.0 + self.width), sat32(o.1 + self.height))),
            None => None,
        }
    }

    /// Whether `(x, y)` lies in the rectangle, its border included. Only a
    /// drawable rectangle contains anything.
    pub open spec fn hit(self, x: int, y: int) -> bool {
        &&& self.drawable()
        &&& self.origin matches Some(o)
        &&& low_side(o.0, self.width) <= x <= high_side(o.0, self.width)
        &&& low_side(o.1, self.height) <= y <= high_side(o.1, self.height)
    }

    /// The rectangle with its far corner put at `(x, y)`. Without an origin
    /// there is nothing to measure from, and the rectangle stays as it is.
    pub open spec fn with_end(self, x: i32, y: i32) -> Rectangle {
        match self.origin {
            Some(o) => Rectangle { width: sat32(x - o.0), height: sat32(y - o.1), ..self },
            None => self,
        }
    }

    /// The rectangle after the next point of its drawing: the first point is
    /// its origin, the second its far corner.
    pub open spec fn with_point(self, x: i32, y: i32) -> Rectangle {
        match self.origin {
            Some(_) => Rectangle { state: ShapeState::Complete, ..self.with_end(x, y) },
            None => Rectangle { origin: Some((x, y)), state: ShapeState::Drawing, ..self },
        }
    }

    /// The rectangle between two corners, in the state it was in.
    pub open spec fn with_points(self, origin: (i32, i32), end: (i32, i32)) -> Rectangle {
        (Rectangle { origin: Some(origin), ..self }).with_end(end.0, end.1)
    }

    /// The rectangle moved by `(dx, dy)`: the origin carries it.
    pub open spec fn moved(self, dx: i32, dy: i32) -> Rectangle {
        Rectangle { origin: shifted_if_set(self.origin, dx, dy), ..self }
    }

    /// The rectangle after the corner or edge near `anchor` was dragged by
    /// `change`. On each axis the anchor holds the low side, the high side or
    /// none (`grip_of`), and the two axes are dragged apart from each other
    /// (`dragged`). That is the same as looking for a corner first, in the
    /// order top left, top right, bottom left, bottom right, and then for an
    /// edge, in the order left, right, top, bottom; with no hold on either
    /// axis nothing changes.
    pub open spec fn resized(self, change: (i32, i32), anchor: (i32, i32)) -> Rectangle {
        match self.origin {
            Some(o) => {
                let across = dragged(o.0, self.width, grip_of(anchor.0, o.0, self.width), change.0);
                let down = dragged(o.1, self.height, grip_of(anchor.1, o.1, self.height), change.1);
                Rectangle {
                    origin: Some((across.0, down.0)),
                    width: across.1,
                    height: down.1,
                    state: self.state,
                }
            },
            None => self,
        }
    }

    /// A rectangle that nothing has been drawn of yet.
    pub fn new() -> (r: Rectangle)
        ensures
            r == Rectangle::fresh(),
    {
        Rectangle { origin: None, width: 0, height: 0, state: ShapeState::New }
    }

    /// Takes the next point of the drawing. The first point is the origin and
    /// starts the drawing; any later point sets the end and completes it.
    pub fn add_point(&mut self, x: i32, y: i32)
        ensures
            *final(self) == old(self).with_point(x, y),
    {
        match self.origin {
            Some(_) => {
                self.set_end(x, y);
                self.state = ShapeState::Complete;
            },
            None => {
                self.origin = Some((x, y));
                self.state = ShapeState::Drawing;
            },
        }
    }

    /// The kind of the shape.
    pub fn get_type(&self) -> (kind: ShapeType)
        ensures
            kind == ShapeType::Rectangle,
    {
        ShapeType::Rectangle
    }

    /// Sets both defining points and leaves the state as it is.
    pub fn init_from_points(&mut self, origin: (i32, i32), end: (i32, i32))
        ensures
            *final(self) == old(self).with_points(origin, end),
    {
        self.origin = Some(origin);
        self.set_end(end.0, end.1);
    }

    /// Puts the far corner at `(x, y)`: the extents are measured from the
    /// origin.
    pub fn set_end(&mut self, x: i32, y: i32)
        ensures
            *final(self) == old(self).with_end(x, y),
    {
        if let Some((ox, oy)) = self.origin {
            self.width = sub_coordinate(x, ox);
            self.height = sub_coordinate(y, oy);
        }
    }

    /// How far the drawing has come.
    pub fn get_state(&self) -> (state: ShapeState)
        ensures
            state == self.state,
    {
        self.state
    }

    /// Whether there is something to draw.
    pub fn is_drawable(&self) -> (r: bool)
        ensures
            r == self.drawable(),
    {
        (self.state == ShapeState::Complete || self.state == ShapeState::Drawing) && self.width != 0
            && self.height != 0
    }

    /// The hit test: whether a pointer at `(x, y)` is in the rectangle.
    pub fn contains(&self, x: i32, y: i32) -> (r: bool)
        ensures
            r == self.hit(x as int, y as int),
    {
        if !self.is_drawable() {
            return false;
        }
        match self.origin {
            Some((ox, oy)) => {
                let ex: i64 = ox as i64 + self.width as i64;
                let ey: i64 = oy as i64 + self.height as i64;
                let (x1, x2) = if ex > ox as i64 {
                    (ox as i64, ex)
                } else {
                    (ex, ox as i64)
                };
                let (y1, y2) = if ey > oy as i64 {
                    (oy as i64, ey)
                } else {
                    (ey, oy as i64)
                };
                x as i64 >= x1 && x as i64 <= x2 && y as i64 >= y1 && y as i64 <= y2
            },
            None => false,
        }
    }

    /// The point that was set first, if it is set.
    pub fn get_origin(&self) -> (origin: Option<(i32, i32)>)
        ensures
            origin == self.origin,
    {
        self.origin
    }

    /// The far corner, if the origin is set.
    pub fn get_end(&self) -> (end: Option<(i32, i32)>)
        ensures
            end == self.far_corner(),
    {
        match self.origin {
            Some((ox, oy)) => Some((add_coordinate(ox, self.width), add_coordinate(oy, self.height))),
            None => None,
        }
    }

    /// Moves the rectangle by `(dx, dy)`.
    pub fn move_by(&mut self, dx: i32, dy: i32)
        ensures
            *final(self) == old(self).moved(dx, dy),
    {
        if let Some(o) = self.origin {
            self.origin = Some(shift(o, dx, dy));
        }
    }

    /// Drags the corner or the edge that is near `anchor` by `change`. A corner
    /// is looked for first, in the order top left, top right, bottom left,
    /// bottom right, then an edge, in the order left, right, top, bottom.
    pub fn resize(&mut self, change: (i32, i32), anchor: (i32, i32))
        ensures
            *final(self) == old(self).resized(change, anchor),
    {
        let (ox, oy) = match self.origin {
            Some(o) => o,
            None => {
                return ;
            },
        };
        let ex: i64 = ox as i64 + self.width as i64;
        let ey: i64 = oy as i64 + self.height as i64;
        let (x1, x2) = if ex > ox as i64 {
            (ox as i64, ex)
        } else {
            (ex, ox as i64)
        };
        let (y1, y2) = if ey > oy as i64 {
            (oy as i64, ey)
        } else {
            (ey, oy as i64)
        };
        let (x, y) = anchor;
        let left: bool = is_near(x as i64, x1);
        let right: bool = is_near(x as i64, x2);
        let top: bool = is_near(y as i64, y1);
        let bottom: bool = is_near(y as i64, y2);
        // A corner is held where the anchor is near a side on both axes.
        if left && top {
            self.origin = Some((add_coordinate(ox, change.0), add_coordinate(oy, change.1)));
            self.width = sub_coordinate(self.width, change.0);
            self.height = sub_coordinate(self.height, change.1);
        } else if right && top {
            self.origin = Some((ox, add_coordinate(oy, change.1)));
            self.width = add_coordinate(self.width, change.0);
            self.height = sub_coordinate(self.height, change.1);
        } else if left && bottom {
            self.origin = Some((add_coordinate(ox, change.0), oy));
            self.width = sub_coordinate(self.width, change.0);
            self.height = add_coordinate(self.height, change.1);
        } else if right && bottom {
            self.width = add_coordinate(self.width, change.0);
            self.height = add_coordinate(self.height, change.1);
        } else if left {
            // Otherwise an edge is held where it is near a side on one axis.
            self.origin = Some((add_coordinate(ox, change.0), oy));
            self.width = sub_coordinate(self.width, change.0);
        } else if right {
            self.width = add_coordinate(self.width, change.0);
        } else if top {
            self.origin = Some((ox, add_coordinate(oy, change.1)));
            self.height = sub_coordinate(self.height, change.1);
        } else if bottom {
            self.height = add_coordinate(self.height, change.1);
        }
    }

    /// Puts the shape into a state, whatever state it was in.
    pub fn set_state(&mut self, state: ShapeState)
        ensures
            *final(self) == (Rectangle { state, ..*old(self) }),
    {
        self.state = state;
    }
}

/// The label of the width.
pub const WIDTH_KEY: &'static str = "Width";

/// The label of the height.
pub const HEIGHT_KEY: &'static str = "Height";

impl Rectangle {
    /// The properties that can be edited, each with its value as decimal
    /// text. An origin that is not set shows as `(0, 0)`.
    pub open spec fn props(self) -> Seq<(Seq<char>, Seq<char>)> {
        seq![
            (ORIGIN_X_KEY@, decimal(x_of(self.origin) as int)),
            (ORIGIN_Y_KEY@, decimal(y_of(self.origin) as int)),
            (WIDTH_KEY@, decimal(self.width as int)),
            (HEIGHT_KEY@, decimal(self.height as int)),
        ]
    }

    /// Whether `key` is the label of a property of a rectangle.
    pub open spec fn has_prop(key: Seq<char>) -> bool {
        key == ORIGIN_X_KEY@ || key == ORIGIN_Y_KEY@ || key == WIDTH_KEY@ || key == HEIGHT_KEY@
    }

    /// The rectangle with the property `key` set to `v`. Setting one
    /// coordinate of an origin that is not set yet sets the origin, with 0 for
    /// the other.
    pub open spec fn with_number(self, key: Seq<char>, v: i32) -> Rectangle {
        if key == ORIGIN_X_KEY@ {
            Rectangle { origin: with_x(self.origin, v), ..self }
        } else if key == ORIGIN_Y_KEY@ {
            Rectangle { origin: with_y(self.origin, v), ..self }
        } else if key == WIDTH_KEY@ {
            Rectangle { width: v, ..self }
        } else if key == HEIGHT_KEY@ {
            Rectangle { height: v, ..self }
        } else {
            self
        }
    }

    /// What an edit of the property `key` to the text `value` leads to: a
    /// label that a rectangle does not have changes nothing, whatever the
    /// text; for a label that it has, the text has to spell a coordinate.
    pub open spec fn with_prop(self, key: Seq<char>, value: Seq<char>) -> Result<
        Rectangle,
        ShapeError,
    > {
        if Rectangle::has_prop(key) {
            match coordinate_value(value) {
                Some(v) => Ok(self.with_number(key, v)),
                None => Err(ShapeError::InvalidNumber),
            }
        } else {
            Ok(self)
        }
    }

    /// The summary: the kind, the origin if it is set, the width and the
    /// height, one per line.
    pub open spec fn summary(self) -> Seq<char> {
        "Type: Rectangle\n"@ + (match self.origin {
            Some(o) => point_line("Origin"@, o),
            None => Seq::empty(),
        }) + number_line("Width"@, self.width as int) + number_line("Height"@, self.height as int)
    }

    /// The properties that can be edited: label and value, in a fixed order.
    pub fn get_props(&self) -> (list: Vec<(String, String)>)
        ensures
            list.deep_view() == self.props(),
    {
        let mut list: Vec<(String, String)> = Vec::new();
        push_prop(&mut list, ORIGIN_X_KEY, get_x(self.origin) as i64);
        push_prop(&mut list, ORIGIN_Y_KEY, get_y(self.origin) as i64);
        push_prop(&mut list, WIDTH_KEY, self.width as i64);
        push_prop(&mut list, HEIGHT_KEY, self.height as i64);
        list
    }

    /// Edits one property. A label that the shape does not have is passed
    /// over; a value that is no number for the property is an `InvalidNumber`
    /// and changes nothing.
    pub fn set_prop(&mut self, key: &str, value: &str) -> (r: Result<(), ShapeError>)
        ensures
            match old(self).with_prop(key@, value@) {
                Ok(rectangle) => r is Ok && *final(self) == rectangle,
                Err(e) => r == Err::<(), ShapeError>(e) && *final(self) == *old(self),
            },
    {
        let on_origin_x: bool = same_text(key, ORIGIN_X_KEY);
        let on_origin_y: bool = same_text(key, ORIGIN_Y_KEY);
        let on_width: bool = same_text(key, WIDTH_KEY);
        let on_height: bool = same_text(key, HEIGHT_KEY);
        if !(on_origin_x || on_origin_y || on_width || on_height) {
            return Ok(());
        }
        let v: i32 = match parse_coordinate(value) {
            Some(v) => v,
            None => {
                return Err(ShapeError::InvalidNumber);
            },
        };
        if on_origin_x {
            self.origin = Some((v, get_y(self.origin)));
        } else if on_origin_y {
            self.origin = Some((get_x(self.origin), v));
        } else if on_width {
            self.width = v;
        } else {
            self.height = v;
        }
        Ok(())
    }

    /// A summary of the rectangle for a reader, one fact per line.
    pub fn get_prop_str(&self) -> (text: String)
        ensures
            text@ == self.summary(),
    {
        let mut text: String = "Type: Rectangle\n".to_owned();
        if let Some(o) = self.origin {
            push_point_line(&mut text, "Origin", o);
        }
        push_number_line(&mut text, "Width", self.width as i64);
        push_number_line(&mut text, "Height", self.height as i64);
        text
    }
}

impl Rectangle {
    /// The document of the rectangle.
    pub open spec fn document(self) -> JsonModel {
        JsonModel::Object(
            with_point_fields(
                header(ShapeType::Rectangle, self.state),
                ORIGIN_X_FIELD@,
                ORIGIN_Y_FIELD@,
                self.origin,
            ).push((WIDTH_FIELD@, whole(self.width as int))).push(
                (HEIGHT_FIELD@, whole(self.height as int)),
            ),
        )
    }

    /// The rectangle that a document describes. The document has to be an
    /// object that declares the kind rectangle and a state; its origin is
    /// either there with both coordinates or not there at all; its width
    /// and height have to be there. What is wrong first, in this order,
    /// decides the error.
    pub open spec fn decoded(doc: JsonModel) -> Result<Rectangle, ShapeError> {
        match doc {
            JsonModel::Object(entries) => match kind_is(entries, ShapeType::Rectangle) {
                Err(e) => Err(e),
                Ok(_) => match state_in(entries) {
                    Err(e) => Err(e),
                    Ok(state) => match point_in(entries, ORIGIN_X_FIELD@, ORIGIN_Y_FIELD@) {
                        Err(e) => Err(e),
                        Ok(origin) => match number_in(entries, WIDTH_FIELD@) {
                            Err(e) => Err(e),
                            Ok(width) => match number_in(entries, HEIGHT_FIELD@) {
                                Err(e) => Err(e),
                                Ok(height) => Ok(Rectangle { origin, width, height, state }),
                            },
                        },
                    },
                },
            },
            _ => Err(ShapeError::MalformedDocument),
        }
    }

    /// What reading a JSON text as a rectangle leads to: a text that is no
    /// JSON is a malformed document, any other is read as the document it is.
    pub open spec fn decoded_text(text: Seq<char>) -> Result<Rectangle, ShapeError> {
        match json_of_text(text) {
            Some(doc) => Rectangle::decoded(doc),
            None => Err(ShapeError::MalformedDocument),
        }
    }

    /// A rectangle is read back from its own document as it was.
    pub proof fn lemma_document_round_trip(self)
        ensures
            Rectangle::decoded(self.document()) == Ok::<Rectangle, ShapeError>(self),
    {
        let head = header(ShapeType::Rectangle, self.state);
        let mid = with_point_fields(head, ORIGIN_X_FIELD@, ORIGIN_Y_FIELD@, self.origin);
        let wide = mid.push((WIDTH_FIELD@, whole(self.width as int)));
        lemma_fields_differ();
        ShapeType::Rectangle.lemma_tag_round_trip();
        self.state.lemma_name_round_trip();
        lemma_field_header(ShapeType::Rectangle, self.state);
        lemma_field_point(head, ORIGIN_X_FIELD@, ORIGIN_Y_FIELD@, self.origin);
        lemma_field_added(mid, (WIDTH_FIELD@, whole(self.width as int)));
        lemma_field_added(wide, (HEIGHT_FIELD@, whole(self.height as int)));
    }

    /// Writes the rectangle as a document.
    pub fn to_document(&self) -> (doc: Json)
        ensures
            doc@ == self.document(),
    {
        let mut entries = start_entries(ShapeType::Rectangle, self.state);
        push_point_fields(&mut entries, ORIGIN_X_FIELD, ORIGIN_Y_FIELD, self.origin);
        push_whole(&mut entries, WIDTH_FIELD, self.width as i64);
        push_whole(&mut entries, HEIGHT_FIELD, self.height as i64);
        Json::Object(entries)
    }

    /// Reads a rectangle from a document.
    pub fn decode(doc: &Json) -> (r: Result<Rectangle, ShapeError>)
        ensures
            r == Rectangle::decoded(doc@),
    {
        let entries = match doc {
            Json::Object(entries) => entries,
            _ => {
                return Err(ShapeError::MalformedDocument);
            },
        };
        if let Err(e) = check_kind(entries, ShapeType::Rectangle) {
            return Err(e);
        }
        let state = match read_state(entries) {
            Ok(state) => state,
            Err(e) => {
                return Err(e);
            },
        };
        let origin = match read_point(entries, ORIGIN_X_FIELD, ORIGIN_Y_FIELD) {
            Ok(origin) => origin,
            Err(e) => {
                return Err(e);
            },
        };
        let width: i32 = match read_number(entries, WIDTH_FIELD) {
            Ok(width) => width,
            Err(e) => {
                return Err(e);
            },
        };
        let height: i32 = match read_number(entries, HEIGHT_FIELD) {
            Ok(height) => height,
            Err(e) => {
                return Err(e);
            },
        };
        Ok(Rectangle { origin, width, height, state })
    }

    /// Replaces the rectangle by the one that a document describes. A
    /// document that describes none leaves the rectangle as it was.
    pub fn from_document(&mut self, doc: &Json) -> (r: Result<(), ShapeError>)
        ensures
            match Rectangle::decoded(doc@) {
                Ok(rectangle) => r is Ok && *final(self) == rectangle,
                Err(e) => r == Err::<(), ShapeError>(e) && *final(self) == *old(self),
            },
    {
        match Rectangle::decode(doc) {
            Ok(rectangle) => {
                *self = rectangle;
                Ok(())
            },
            Err(e) => Err(e),
        }
    }

    /// The document of the rectangle as JSON text.
    pub fn get_json(&self) -> (text: String)
        ensures
            text@ == text_of_json(self.document()),
    {
        self.to_document().to_text()
    }

    /// Replaces the rectangle by the one that a JSON text describes. A text
    /// that describes none leaves the rectangle as it was.
    pub fn from_json(&mut self, json: &str) -> (r: Result<(), ShapeError>)
        ensures
            match Rectangle::decoded_text(json@) {
                Ok(rectangle) => r is Ok && *final(self) == rectangle,
                Err(e) => r == Err::<(), ShapeError>(e) && *final(self) == *old(self),
            },
    {
        match Json::from_text(json) {
            Ok(doc) => self.from_document(&doc),
            Err(e) => Err(e),
        }
    }
}

} // verus!
