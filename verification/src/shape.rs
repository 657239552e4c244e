//! A shape of any kind, with one set of operations for all of them.

use vstd::prelude::*;
use crate::circle::Circle;
use crate::document::{kind_in, read_kind};
use crate::json::{json_of_text, text_of_json, Json, JsonModel};
use crate::kind::{ShapeError, ShapeState, ShapeType};
use crate::line::Line;
use crate::rectangle::Rectangle;

verus! {

/// A line, a rectangle or a circle. Which of them a shape is never changes.
#[derive(Debug, Clone, Copy, PartialEq, Eq)]
pub enum Shape {
    Line(Line),
    Rectangle(Rectangle),
    Circle(Circle),
}

impl Shape {
    /// A shape of the given kind that nothing has been drawn of yet.
    pub open spec fn fresh(kind: ShapeType) -> Shape {
        match kind {
            ShapeType::Line => Shape::Line(Line::fresh()),
            ShapeType::Rectangle => Shape::Rectangle(Rectangle::fresh()),
            ShapeType::Circle => Shape::Circle(Circle::fresh()),
        }
    }

    /// The kind of the shape.
    pub open spec fn kind(self) -> ShapeType {
        match self {
            Shape::Line(_) => ShapeType::Line,
            Shape::Rectangle(_) => ShapeType::Rectangle,
            Shape::Circle(_) => ShapeType::Circle,
        }
    }

    /// How far the drawing has come.
    pub open spec fn state(self) -> ShapeState {
        match self {
            Shape::Line(s) => s.state,
            Shape::Rectangle(s) => s.state,
            Shape::Circle(s) => s.state,
        }
    }

    /// The point that was set first: an end of a line, a corner of a
    /// rectangle, the centre of a circle.
    pub open spec fn origin(self) -> Option<(i32, i32)> {
        match self {
            Shape::Line(s) => s.origin,
            Shape::Rectangle(s) => s.origin,
            Shape::Circle(s) => s.origin,
        }
    }

    /// The point that stands for the size: the other end of a line, the far
    /// corner of a rectangle, the point of a circle to the right of its
    /// centre.
    pub open spec fn end(self) -> Option<(i32, i32)> {
        match self {
            Shape::Line(s) => s.end,
            Shape::Rectangle(s) => s.far_corner(),
            Shape::Circle(s) => s.rim_point(),
        }
    }

    /// Whether there is something to draw, as the kind of the shape has it.
    pub open spec fn drawable(self) -> bool {
        match self {
            Shape::Line(s) => s.drawable(),
            Shape::Rectangle(s) => s.drawable(),
            Shape::Circle(s) => s.drawable(),
        }
    }

    /// Whether `(x, y)` hits the shape, as the kind of the shape has it.
    pub open spec fn hit(self, x: int, y: int) -> bool {
        match self {
            Shape::Line(s) => s.hit(x, y),
            Shape::Rectangle(s) => s.hit(x, y),
            Shape::Circle(s) => s.hit(x, y),
        }
    }

    /// The shape after the next point of its drawing.
    pub open spec fn with_point(self, x: i32, y: i32) -> Shape {
        match self {
            Shape::Line(s) => Shape::Line(s.with_point(x, y)),
            Shape::Rectangle(s) => Shape::Rectangle(s.with_point(x, y)),
            Shape::Circle(s) => Shape::Circle(s.with_point(x, y)),
        }
    }

    /// The shape with its end put at `(x, y)`.
    pub open spec fn with_end(self, x: i32, y: i32) -> Shape {
        match self {
            Shape::Line(s) => Shape::Line(s.with_end(x, y)),
            Shape::Rectangle(s) => Shape::Rectangle(s.with_end(x, y)),
            Shape::Circle(s) => Shape::Circle(s.with_end(x, y)),
        }
    }

    /// The shape with both its defining points set, in the state it was in.
    pub open spec fn with_points(self, origin: (i32, i32), end: (i32, i32)) -> Shape {
        match self {
            Shape::Line(s) => Shape::Line(s.with_points(origin, end)),
            Shape::Rectangle(s) => Shape::Rectangle(s.with_points(origin, end)),
            Shape::Circle(s) => Shape::Circle(s.with_points(origin, end)),
        }
    }

    /// The shape moved by `(dx, dy)`.
    pub open spec fn moved(self, dx: i32, dy: i32) -> Shape {
        match self {
            Shape::Line(s) => Shape::Line(s.moved(dx, dy)),
            Shape::Rectangle(s) => Shape::Rectangle(s.moved(dx, dy)),
            Shape::Circle(s) => Shape::Circle(s.moved(dx, dy)),
        }
    }

    /// The shape after what is near `anchor` was dragged by `change`.
    pub open spec fn resized(self, change: (i32, i32), anchor: (i32, i32)) -> Shape {
        match self {
            Shape::Line(s) => Shape::Line(s.resized(change, anchor)),
            Shape::Rectangle(s) => Shape::Rectangle(s.resized(change, anchor)),
            Shape::Circle(s) => Shape::Circle(s.resized(change, anchor)),
        }
    }

    /// The shape put into a state, whatever state it was in.
    pub open spec fn with_state(self, state: ShapeState) -> Shape {
        match self {
            Shape::Line(s) => Shape::Line(Line { state, ..s }),
            Shape::Rectangle(s) => Shape::Rectangle(Rectangle { state, ..s }),
            Shape::Circle(s) => Shape::Circle(Circle { state, ..s }),
        }
    }

    /// The properties that can be edited, each with its value as decimal text.
    pub open spec fn props(self) -> Seq<(Seq<char>, Seq<char>)> {
        match self {
            Shape::Line(s) => s.props(),
            Shape::Rectangle(s) => s.props(),
            Shape::Circle(s) => s.props(),
        }
    }

    /// What an edit of the property `key` to the text `value` leads to.
    pub open spec fn with_prop(self, key: Seq<char>, value: Seq<char>) -> Result<Shape, ShapeError> {
        match self {
            Shape::Line(s) => match s.with_prop(key, value) {
                Ok(t) => Ok(Shape::Line(t)),
                Err(e) => Err(e),
            },
            Shape::Rectangle(s) => match s.with_prop(key, value) {
                Ok(t) => Ok(Shape::Rectangle(t)),
                Err(e) => Err(e),
            },
            Shape::Circle(s) => match s.with_prop(key, value) {
                Ok(t) => Ok(Shape::Circle(t)),
                Err(e) => Err(e),
            },
        }
    }

    /// The summary of the shape.
    pub open spec fn summary(self) -> Seq<char> {
        match self {
            Shape::Line(s) => s.summary(),
            Shape::Rectangle(s) => s.summary(),
            Shape::Circle(s) => s.summary(),
        }
    }

    /// The document of the shape.
    pub open spec fn document(self) -> JsonModel {
        match self {
            Shape::Line(s) => s.document(),
            Shape::Rectangle(s) => s.document(),
            Shape::Circle(s) => s.document(),
        }
    }

    /// The shape of the kind `kind` that a document describes.
    pub open spec fn decoded_as(kind: ShapeType, doc: JsonModel) -> Result<Shape, ShapeError> {
        match kind {
            ShapeType::Line => match Line::decoded(doc) {
                Ok(s) => Ok(Shape::Line(s)),
                Err(e) => Err(e),
            },
            ShapeType::Rectangle => match Rectangle::decoded(doc) {
                Ok(s) => Ok(Shape::Rectangle(s)),
                Err(e) => Err(e),
            },
            ShapeType::Circle => match Circle::decoded(doc) {
                Ok(s) => Ok(Shape::Circle(s)),
                Err(e) => Err(e),
            },
        }
    }

    /// The shape that a document describes: of the kind that the document
    /// declares, read as that kind reads it. A document that is no object is
    /// malformed.
    pub open spec fn decoded(doc: JsonModel) -> Result<Shape, ShapeError> {
        match doc {
            JsonModel::Object(entries) => match kind_in(entries) {
                Ok(kind) => Shape::decoded_as(kind, doc),
                Err(e) => Err(e),
            },
            _ => Err(ShapeError::MalformedDocument),
        }
    }

    /// What reading a JSON text as a shape of the kind `kind` leads to.
    pub open spec fn decoded_text_as(kind: ShapeType, text: Seq<char>) -> Result<Shape, ShapeError> {
        match json_of_text(text) {
            Some(doc) => Shape::decoded_as(kind, doc),
            None => Err(ShapeError::MalformedDocument),
        }
    }

    /// A shape of the given kind that nothing has been drawn of yet.
    pub fn new(kind: ShapeType) -> (shape: Shape)
        ensures
            shape == Shape::fresh(kind),
    {
        match kind {
            ShapeType::Line => Shape::Line(Line::new()),
            ShapeType::Rectangle => Shape::Rectangle(Rectangle::new()),
            ShapeType::Circle => Shape::Circle(Circle::new()),
        }
    }

    /// Takes the next point of the drawing. The first point is the origin
    /// and starts the drawing; any later point sets the end and completes it.
    pub fn add_point(&mut self, x: i32, y: i32)
        ensures
            *final(self) == old(self).with_point(x, y),
    {
        match self {
            Shape::Line(s) => s.add_point(x, y),
            Shape::Rectangle(s) => s.add_point(x, y),
            Shape::Circle(s) => s.add_point(x, y),
        }
    }

    /// The kind of the shape.
    pub fn get_type(&self) -> (kind: ShapeType)
        ensures
            kind == self.kind(),
    {
        match self {
            Shape::Line(s) => s.get_type(),
            Shape::Rectangle(s) => s.get_type(),
            Shape::Circle(s) => s.get_type(),
        }
    }

    /// Sets both defining points and leaves the state as it is.
    pub fn init_from_points(&mut self, origin: (i32, i32), end: (i32, i32))
        ensures
            *final(self) == old(self).with_points(origin, end),
    {
        match self {
            Shape::Line(s) => s.init_from_points(origin, end),
            Shape::Rectangle(s) => s.init_from_points(origin, end),
            Shape::Circle(s) => s.init_from_points(origin, end),
        }
    }

    /// Sets the end: the end point of a line, the extents of a rectangle, the
    /// radius of a circle.
    pub fn set_end(&mut self, x: i32, y: i32)
        ensures
            *final(self) == old(self).with_end(x, y),
    {
        match self {
            Shape::Line(s) => s.set_end(x, y),
            Shape::Rectangle(s) => s.set_end(x, y),
            Shape::Circle(s) => s.set_end(x, y),
        }
    }

    /// A summary of the shape for a reader, one fact per line.
    pub fn get_prop_str(&self) -> (text: String)
        ensures
            text@ == self.summary(),
    {
        match self {
            Shape::Line(s) => s.get_prop_str(),
            Shape::Rectangle(s) => s.get_prop_str(),
            Shape::Circle(s) => s.get_prop_str(),
        }
    }

    /// How far the drawing has come.
    pub fn get_state(&self) -> (state: ShapeState)
        ensures
            state == self.state(),
    {
        match self {
            Shape::Line(s) => s.get_state(),
            Shape::Rectangle(s) => s.get_state(),
            Shape::Circle(s) => s.get_state(),
        }
    }

    /// Whether there is something to draw.
    pub fn is_drawable(&self) -> (r: bool)
        ensures
            r == self.drawable(),
    {
        match self {
            Shape::Line(s) => s.is_drawable(),
            Shape::Rectangle(s) => s.is_drawable(),
            Shape::Circle(s) => s.is_drawable(),
        }
    }

    /// The hit test: whether a pointer at `(x, y)` is on the shape.
    pub fn contains(&self, x: i32, y: i32) -> (r: bool)
        ensures
            r == self.hit(x as int, y as int),
    {
        match self {
            Shape::Line(s) => s.contains(x, y),
            Shape::Rectangle(s) => s.contains(x, y),
            Shape::Circle(s) => s.contains(x, y),
        }
    }

    /// The point that was set first, if it is set.
    pub fn get_origin(&self) -> (origin: Option<(i32, i32)>)
        ensures
            origin == self.origin(),
    {
        match self {
            Shape::Line(s) => s.get_origin(),
            Shape::Rectangle(s) => s.get_origin(),
            Shape::Circle(s) => s.get_origin(),
        }
    }

    /// The point that stands for the size, if there is one.
    pub fn get_end(&self) -> (end: Option<(i32, i32)>)
        ensures
            end == self.end(),
    {
        match self {
            Shape::Line(s) => s.get_end(),
            Shape::Rectangle(s) => s.get_end(),
            Shape::Circle(s) => s.get_end(),
        }
    }

    /// The properties that can be edited: label and value, in a fixed order.
    pub fn get_props(&self) -> (list: Vec<(String, String)>)
        ensures
            list.deep_view() == self.props(),
    {
        match self {
            Shape::Line(s) => s.get_props(),
            Shape::Rectangle(s) => s.get_props(),
            Shape::Circle(s) => s.get_props(),
        }
    }

    /// Edits one property. A label that the shape does not have is passed
    /// over; a value that is no number for the property is an
    /// `InvalidNumber` and changes nothing.
    pub fn set_prop(&mut self, key: &str, value: &str) -> (r: Result<(), ShapeError>)
        ensures
            match old(self).with_prop(key@, value@) {
                Ok(shape) => r is Ok && *final(self) == shape,
                Err(e) => r == Err::<(), ShapeError>(e) && *final(self) == *old(self),
            },
    {
        match self {
            Shape::Line(s) => s.set_prop(key, value),
            Shape::Rectangle(s) => s.set_prop(key, value),
            Shape::Circle(s) => s.set_prop(key, value),
        }
    }

    /// Moves the shape by `(dx, dy)`.
    pub fn move_by(&mut self, dx: i32, dy: i32)
        ensures
            *final(self) == old(self).moved(dx, dy),
    {
        match self {
            Shape::Line(s) => s.move_by(dx, dy),
            Shape::Rectangle(s) => s.move_by(dx, dy),
            Shape::Circle(s) => s.move_by(dx, dy),
        }
    }

    /// Drags what is near `anchor` by `change`.
    pub fn resize(&mut self, change: (i32, i32), anchor: (i32, i32))
        ensures
            *final(self) == old(self).resized(change, anchor),
    {
        match self {
            Shape::Line(s) => s.resize(change, anchor),
            Shape::Rectangle(s) => s.resize(change, anchor),
            Shape::Circle(s) => s.resize(change, anchor),
        }
    }

    /// Puts the shape into a state, whatever state it was in.
    pub fn set_state(&mut self, state: ShapeState)
        ensures
            *final(self) == old(self).with_state(state),
    {
        match self {
            Shape::Line(s) => s.set_state(state),
            Shape::Rectangle(s) => s.set_state(state),
            Shape::Circle(s) => s.set_state(state),
        }
    }

    /// Writes the shape as a document.
    pub fn to_document(&self) -> (doc: Json)
        ensures
            doc@ == self.document(),
    {
        match self {
            Shape::Line(s) => s.to_document(),
            Shape::Rectangle(s) => s.to_document(),
            Shape::Circle(s) => s.to_document(),
        }
    }

    /// Reads a shape from a document, of the kind that the document declares.
    pub fn decode(doc: &Json) -> (r: Result<Shape, ShapeError>)
        ensures
            r == Shape::decoded(doc@),
    {
        let kind = match doc {
            Json::Object(entries) => match read_kind(entries) {
                Ok(kind) => kind,
                Err(e) => {
                    return Err(e);
                },
            },
            _ => {
                return Err(ShapeError::MalformedDocument);
            },
        };
        Shape::decode_as(kind, doc)
    }

    /// Reads a shape of the kind `kind` from a document.
    pub fn decode_as(kind: ShapeType, doc: &Json) -> (r: Result<Shape, ShapeError>)
        ensures
            r == Shape::decoded_as(kind, doc@),
    {
        match kind {
            ShapeType::Line => match Line::decode(doc) {
                Ok(s) => Ok(Shape::Line(s)),
                Err(e) => Err(e),
            },
            ShapeType::Rectangle => match Rectangle::decode(doc) {
                Ok(s) => Ok(Shape::Rectangle(s)),
                Err(e) => Err(e),
            },
            ShapeType::Circle => match Circle::decode(doc) {
                Ok(s) => Ok(Shape::Circle(s)),
                Err(e) => Err(e),
            },
        }
    }

    /// Replaces the shape by the one of its own kind that a document
    /// describes. A document that describes none leaves the shape as it was.
    pub fn from_document(&mut self, doc: &Json) -> (r: Result<(), ShapeError>)
        ensures
            match Shape::decoded_as(old(self).kind(), doc@) {
                Ok(shape) => r is Ok && *final(self) == shape,
                Err(e) => r == Err::<(), ShapeError>(e) && *final(self) == *old(self),
            },
    {
        match Shape::decode_as(self.get_type(), doc) {
            Ok(shape) => {
                *self = shape;
                Ok(())
            },
            Err(e) => Err(e),
        }
    }

    /// The document of the shape as JSON text.
    pub fn get_json(&self) -> (text: String)
        ensures
            text@ == text_of_json(self.document()),
    {
        self.to_document().to_text()
    }

    /// Replaces the shape by the one of its own kind that a JSON text
    /// describes. A text that describes none leaves the shape as it was.
    pub fn from_json(&mut self, json: &str) -> (r: Result<(), ShapeError>)
        ensures
            match Shape::decoded_text_as(old(self).kind(), json@) {
                Ok(shape) => r is Ok && *final(self) == shape,
                Err(e) => r == Err::<(), ShapeError>(e) && *final(self) == *old(self),
            },
    {
        match Json::from_text(json) {
            Ok(doc) => self.from_document(&doc),
            Err(e) => Err(e),
        }
    }
}

} // verus!
