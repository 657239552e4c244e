//! Circles: a centre and a radius.

use vstd::prelude::*;
use vstd::string::StringExecFns;
use crate::decimal::{
    coordinate_value, decimal, format_decimal, parse_coordinate, parse_radius, radius_value,
};
use crate::document::{
    check_kind, header, kind_is, lemma_field_added, lemma_field_header, lemma_field_pair,
    lemma_fields_differ, pair_in, push_pair_field, push_whole, radius_under, read_pair,
    read_radius_under, read_state, start_entries, state_in, whole, with_pair_field, ORIGIN_FIELD,
    RADIUS_FIELD,
};
use crate::geometry::{shift_if_set, shifted_if_set};
use crate::json::{json_of_text, text_of_json, Json, JsonModel};
use crate::kind::{same_text, ShapeError, ShapeState, ShapeType};
use crate::number::{distance, radius_of, sat32, sat_u32, saturate};
use crate::props::{
    get_x, get_y, point_line, push_point_line, push_prop, with_x, with_y, x_of, y_of, ORIGIN_X_KEY,
    ORIGIN_Y_KEY,
};

verus! {

/// A circle round `origin`. The radius is a whole number: a distance that it
/// is measured from is rounded up, so that the circle reaches the point that
/// it is drawn through.
#[derive(Debug, Clone, Copy, PartialEq, Eq)]
pub struct Circle {
    pub origin: Option<(i32, i32)>,
    pub radius: u32,
    pub state: ShapeState,
}

impl Circle {
    /// A circle that nothing has been drawn of yet.
    pub open spec fn fresh() -> Circle {
        Circle { origin: None, radius: 0, state: ShapeState::New }
    }

    /// Whether there is something to draw: the drawing has started and the
    /// radius is not zero.
    pub open spec fn drawable(self) -> bool {
        self.state.is_started() && self.radius != 0
    }

    /// The point of the circle straight to the right of its centre.
    pub open spec fn rim_point(self) -> Option<(i32, i32)> {
        match self.origin {
            Some(o) => Some((sat32(o.0 + self.radius), o.1)),
            None => None,
        }
    }

    /// Whether `(x, y)` is at most the radius away from the centre. A circle
    /// without a centre contains nothing.
    pub open spec fn hit(self, x: int, y: int) -> bool {
        &&& self.origin matches Some(o)
        &&& (x - o.0) * (x - o.0) + (y - o.1) * (y - o.1) <= self.radius * self.radius
    }

    /// The circle with its rim put through `(x, y)`. Without a centre there
    /// is nothing to measure from, and the circle stays as it is.
    pub open spec fn with_end(self, x: i32, y: i32) -> Circle {
        match self.origin {
            Some(o) => Circle { radius: sat_u32(distance(x - o.0, y - o.1)), ..self },
            None => self,
        }
    }

    /// The circle after the next point of its drawing: the first point is its
    /// centre, the second lies on its rim.
    pub open spec fn with_point(self, x: i32, y: i32) -> Circle {
        match self.origin {
            Some(_) => Circle { state: ShapeState::Complete, ..self.with_end(x, y) },
            None => Circle { origin: Some((x, y)), state: ShapeState::Drawing, ..self },
        }
    }

    /// The circle round `origin` through `end`, in the state it was in.
    pub open spec fn with_points(self, origin: (i32, i32), end: (i32, i32)) -> Circle {
        (Circle { origin: Some(origin), ..self }).with_end(end.0, end.1)
    }

    /// The circle moved by `(dx, dy)`: the centre carries it.
    pub open spec fn moved(self, dx: i32, dy: i32) -> Circle {
        Circle { origin: shifted_if_set(self.origin, dx, dy), ..self }
    }

    /// The circle after the point at `anchor` was dragged by `change`: the
    /// new radius is the distance of the dragged point's new place,
    /// `anchor + change`, from the centre.
    pub open spec fn resized(self, change: (i32, i32), anchor: (i32, i32)) -> Circle {
        match self.origin {
            Some(o) => Circle {
                radius: sat_u32(
                    distance(anchor.0 - o.0 + change.0, anchor.1 - o.1 + change.1),
                ),
                ..self
            },
            None => self,
        }
    }

    /// A circle that nothing has been drawn of yet.
    pub fn new() -> (r: Circle)
        ensures
            r == Circle::fresh(),
    {
        Circle { origin: None, radius: 0, state: ShapeState::New }
    }

    /// Takes the next point of the drawing. The first point is the origin and
    /// starts the drawing; any later point sets the end and completes it.
    pub fn add_point(&mut self, x: i32, y: i32)
        ensures
            *final(self) == old(self).with_point(x, y),
    {
        match self.origin {
            Some(_) => {
                self.set_end(x, y);
                self.state = ShapeState::Complete;
            },
            None => {
                self.origin = Some((x, y));
                self.state = ShapeState::Drawing;
            },
        }
    }

    /// The kind of the shape.
    pub fn get_type(&self) -> (kind: ShapeType)
        ensures
            kind == ShapeType::Circle,
    {
        ShapeType::Circle
    }

    /// Sets both defining points and leaves the state as it is.
    pub fn init_from_points(&mut self, origin: (i32, i32), end: (i32, i32))
        ensures
            *final(self) == old(self).with_points(origin, end),
    {
        self.origin = Some(origin);
        self.set_end(end.0, end.1);
    }

    /// Puts the rim through `(x, y)`: the radius is the distance of that point
    /// from the centre.
    pub fn set_end(&mut self, x: i32, y: i32)
        ensures
            *final(self) == old(self).with_end(x, y),
    {
        if let Some((ox, oy)) = self.origin {
            self.radius = radius_of(x as i64 - ox as i64, y as i64 - oy as i64);
        }
    }

    /// How far the drawing has come.
    pub fn get_state(&self) -> (state: ShapeState)
        ensures
            state == self.state,
    {
        self.state
    }

    /// Whether there is something to draw.
    pub fn is_drawable(&self) -> (r: bool)
        ensures
            r == self.drawable(),
    {
        (self.state == ShapeState::Complete || self.state == ShapeState::Drawing)
            && self.radius != 0
    }

    /// The hit test: whether a pointer at `(x, y)` is in the circle.
    pub fn contains(&self, x: i32, y: i32) -> (r: bool)
        ensures
            r == self.hit(x as int, y as int),
    {
        match self.origin {
            Some((ox, oy)) => {
                let dx: i128 = x as i128 - ox as i128;
                let dy: i128 = y as i128 - oy as i128;
                let reach: i128 = self.radius as i128;
                assert(0 <= dx * dx <= 0x1_0000_0000 * 0x1_0000_0000) by (nonlinear_arith)
                    requires
                        -0x1_0000_0000 < dx < 0x1_0000_0000,
                ;
                assert(0 <= dy * dy <= 0x1_0000_0000 * 0x1_0000_0000) by (nonlinear_arith)
                    requires
                        -0x1_0000_0000 < dy < 0x1_0000_0000,
                ;
                assert(0 <= reach * reach <= 0x1_0000_0000 * 0x1_0000_0000) by (nonlinear_arith)
                    requires
                        0 <= reach < 0x1_0000_0000,
                ;
                dx * dx + dy * dy <= reach * reach
            },
            None => false,
        }
    }

    /// The point that was set first, if it is set.
    pub fn get_origin(&self) -> (origin: Option<(i32, i32)>)
        ensures
            origin == self.origin,
    {
        self.origin
    }

    /// The point of the rim to the right of the centre, if the centre is set.
    pub fn get_end(&self) -> (end: Option<(i32, i32)>)
        ensures
            end == self.rim_point(),
    {
        match self.origin {
            Some((ox, oy)) => {
                let reach: i64 = ox as i64 + self.radius as i64;
                Some((saturate(reach), oy))
            },
            None => None,
        }
    }

    /// Moves the circle by `(dx, dy)`.
    pub fn move_by(&mut self, dx: i32, dy: i32)
        ensures
            *final(self) == old(self).moved(dx, dy),
    {
        self.origin = shift_if_set(self.origin, dx, dy);
    }

    /// Drags the point at `anchor` by `change`: the radius becomes the distance
    /// of the dragged point from the centre.
    pub fn resize(&mut self, change: (i32, i32), anchor: (i32, i32))
        ensures
            *final(self) == old(self).resized(change, anchor),
    {
        if let Some((ox, oy)) = self.origin {
            let nx: i64 = anchor.0 as i64 - ox as i64 + change.0 as i64;
            let ny: i64 = anchor.1 as i64 - oy as i64 + change.1 as i64;
            self.radius = radius_of(nx, ny);
        }
    }

    /// Puts the shape into a state, whatever state it was in.
    pub fn set_state(&mut self, state: ShapeState)
        ensures
            *final(self) == (Circle { state, ..*old(self) }),
    {
        self.state = state;
    }
}

/// The label of the radius.
pub const RADIUS_KEY: &'static str = "Radius";

impl Circle {
    /// The properties that can be edited, each with its value as decimal
    /// text. A centre that is not set shows as `(0, 0)`.
    pub open spec fn props(self) -> Seq<(Seq<char>, Seq<char>)> {
        seq![
            (ORIGIN_X_KEY@, decimal(x_of(self.origin) as int)),
            (ORIGIN_Y_KEY@, decimal(y_of(self.origin) as int)),
            (RADIUS_KEY@, decimal(self.radius as int)),
        ]
    }

    /// What an edit of the property `key` to the text `value` leads to: a
    /// label that a circle does not have changes nothing, whatever the text;
    /// for a coordinate of the centre the text has to spell a coordinate, for
    /// the radius a radius, which is never negative. Setting one coordinate of
    /// a centre that is not set yet sets the centre, with 0 for the other.
    pub open spec fn with_prop(self, key: Seq<char>, value: Seq<char>) -> Result<
        Circle,
        ShapeError,
    > {
        if key == ORIGIN_X_KEY@ {
            match coordinate_value(value) {
                Some(v) => Ok(Circle { origin: with_x(self.origin, v), ..self }),
                None => Err(ShapeError::InvalidNumber),
            }
        } else if key == ORIGIN_Y_KEY@ {
            match coordinate_value(value) {
                Some(v) => Ok(Circle { origin: with_y(self.origin, v), ..self }),
                None => Err(ShapeError::InvalidNumber),
            }
        } else if key == RADIUS_KEY@ {
            match radius_value(value) {
                Some(v) => Ok(Circle { radius: v, ..self }),
                None => Err(ShapeError::InvalidNumber),
            }
        } else {
            Ok(self)
        }
    }

    /// The summary: the kind, the centre if it is set, and the radius with
    /// two decimal places, one per line.
    pub open spec fn summary(self) -> Seq<char> {
        "Type: Circle\n"@ + (match self.origin {
            Some(o) => point_line("Origin"@, o),
            None => Seq::empty(),
        }) + "Radius: "@ + decimal(self.radius as int) + ".00\n"@
    }

    /// The properties that can be edited: label and value, in a fixed order.
    pub fn get_props(&self) -> (list: Vec<(String, String)>)
        ensures
            list.deep_view() == self.props(),
    {
        let mut list: Vec<(String, String)> = Vec::new();
        push_prop(&mut list, ORIGIN_X_KEY, get_x(self.origin) as i64);
        push_prop(&mut list, ORIGIN_Y_KEY, get_y(self.origin) as i64);
        push_prop(&mut list, RADIUS_KEY, self.radius as i64);
        list
    }

    /// Edits one property. A label that the shape does not have is passed
    /// over; a value that is no number for the property is an `InvalidNumber`
    /// and changes nothing.
    pub fn set_prop(&mut self, key: &str, value: &str) -> (r: Result<(), ShapeError>)
        ensures
            match old(self).with_prop(key@, value@) {
                Ok(circle) => r is Ok && *final(self) == circle,
                Err(e) => r == Err::<(), ShapeError>(e) && *final(self) == *old(self),
            },
    {
        if same_text(key, ORIGIN_X_KEY) {
            match parse_coordinate(value) {
                Some(v) => {
                    self.origin = Some((v, get_y(self.origin)));
                    Ok(())
                },
                None => Err(ShapeError::InvalidNumber),
            }
        } else if same_text(key, ORIGIN_Y_KEY) {
            match parse_coordinate(value) {
                Some(v) => {
                    self.origin = Some((get_x(self.origin), v));
                    Ok(())
                },
                None => Err(ShapeError::InvalidNumber),
            }
        } else if same_text(key, RADIUS_KEY) {
            match parse_radius(value) {
                Some(v) => {
                    self.radius = v;
                    Ok(())
                },
                None => Err(ShapeError::InvalidNumber),
            }
        } else {
            Ok(())
        }
    }

    /// A summary of the circle for a reader, one fact per line.
    pub fn get_prop_str(&self) -> (text: String)
        ensures
            text@ == self.summary(),
    {
        let mut text: String = "Type: Circle\n".to_owned();
        if let Some(o) = self.origin {
            push_point_line(&mut text, "Origin", o);
        }
        text.append("Radius: ");
        text.append(format_decimal(self.radius as i64).as_str());
        text.append(".00\n");
        text
    }
}

impl Circle {
    /// The document of the circle.
    pub open spec fn document(self) -> JsonModel {
        JsonModel::Object(
            with_pair_field(header(ShapeType::Circle, self.state), ORIGIN_FIELD@, self.origin).push(
                (RADIUS_FIELD@, whole(self.radius as int)),
            ),
        )
    }

    /// The circle that a document describes. The document has to be an
    /// object that declares the kind circle and a state; its centre is either
    /// there as an array of two coordinates or not there at all; its radius
    /// has to be there. What is wrong first, in this order, decides the
    /// error.
    pub open spec fn decoded(doc: JsonModel) -> Result<Circle, ShapeError> {
        match doc {
            JsonModel::Object(entries) => match kind_is(entries, ShapeType::Circle) {
                Err(e) => Err(e),
                Ok(_) => match state_in(entries) {
                    Err(e) => Err(e),
                    Ok(state) => match pair_in(entries, ORIGIN_FIELD@) {
                        Err(e) => Err(e),
                        Ok(origin) => match radius_under(entries, RADIUS_FIELD@) {
                            Err(e) => Err(e),
                            Ok(radius) => Ok(Circle { origin, radius, state }),
                        },
                    },
                },
            },
            _ => Err(ShapeError::MalformedDocument),
        }
    }

    /// What reading a JSON text as a circle leads to: a text that is no JSON
    /// is a malformed document, any other is read as the document it is.
    pub open spec fn decoded_text(text: Seq<char>) -> Result<Circle, ShapeError> {
        match json_of_text(text) {
            Some(doc) => Circle::decoded(doc),
            None => Err(ShapeError::MalformedDocument),
        }
    }

    /// A circle is read back from its own document as it was.
    pub proof fn lemma_document_round_trip(self)
        ensures
            Circle::decoded(self.document()) == Ok::<Circle, ShapeError>(self),
    {
        let head = header(ShapeType::Circle, self.state);
        let mid = with_pair_field(head, ORIGIN_FIELD@, self.origin);
        lemma_fields_differ();
        ShapeType::Circle.lemma_tag_round_trip();
        self.state.lemma_name_round_trip();
        lemma_field_header(ShapeType::Circle, self.state);
        lemma_field_pair(head, ORIGIN_FIELD@, self.origin);
        lemma_field_added(mid, (RADIUS_FIELD@, whole(self.radius as int)));
    }

    /// Writes the circle as a document.
    pub fn to_document(&self) -> (doc: Json)
        ensures
            doc@ == self.document(),
    {
        let mut entries = start_entries(ShapeType::Circle, self.state);
        push_pair_field(&mut entries, ORIGIN_FIELD, self.origin);
        push_whole(&mut entries, RADIUS_FIELD, self.radius as i64);
        Json::Object(entries)
    }

    /// Reads a circle from a document.
    pub fn decode(doc: &Json) -> (r: Result<Circle, ShapeError>)
        ensures
            r == Circle::decoded(doc@),
    {
        let entries = match doc {
            Json::Object(entries) => entries,
            _ => {
                return Err(ShapeError::MalformedDocument);
            },
        };
        if let Err(e) = check_kind(entries, ShapeType::Circle) {
            return Err(e);
        }
        let state = match read_state(entries) {
            Ok(state) => state,
            Err(e) => {
                return Err(e);
            },
        };
        let origin = match read_pair(entries, ORIGIN_FIELD) {
            Ok(origin) => origin,
            Err(e) => {
                return Err(e);
            },
        };
        let radius: u32 = match read_radius_under(entries, RADIUS_FIELD) {
            Ok(radius) => radius,
            Err(e) => {
                return Err(e);
            },
        };
        Ok(Circle { origin, radius, state })
    }

    /// Replaces the circle by the one that a document describes. A document
    /// that describes none leaves the circle as it was.
    pub fn from_document(&mut self, doc: &Json) -> (r: Result<(), ShapeError>)
        ensures
            match Circle::decoded(doc@) {
                Ok(circle) => r is Ok && *final(self) == circle,
                Err(e) => r == Err::<(), ShapeError>(e) && *final(self) == *old(self),
            },
    {
        match Circle::decode(doc) {
            Ok(circle) => {
                *self = circle;
                Ok(())
            },
            Err(e) => Err(e),
        }
    }

    /// The document of the circle as JSON text.
    pub fn get_json(&self) -> (text: String)
        ensures
            text@ == text_of_json(self.document()),
    {
        self.to_document().to_text()
    }

    /// Replaces the circle by the one that a JSON text describes. A text
    /// that describes none leaves the circle as it was.
    pub fn from_json(&mut self, json: &str) -> (r: Result<(), ShapeError>)
        ensures
            match Circle::decoded_text(json@) {
                Ok(circle) => r is Ok && *final(self) == circle,
                Err(e) => r == Err::<(), ShapeError>(e) && *final(self) == *old(self),
            },
    {
        match Json::from_text(json) {
            Ok(doc) => self.from_document(&doc),
            Err(e) => Err(e),
        }
    }
}

} // verus!
