//! Lines: a segment between two points.

use vstd::prelude::*;
use crate::decimal::{coordinate_value, decimal, parse_coordinate};
use crate::document::{
    check_kind, header, kind_is, lemma_field_header, lemma_field_point, lemma_fields_differ,
    point_in, push_point_fields, read_point, read_state, start_entries, state_in,
    with_point_fields, END_X_FIELD, END_Y_FIELD, ORIGIN_X_FIELD, ORIGIN_Y_FIELD,
};
use crate::geometry::{
    hits_segment, is_near_point, near_point, segment_hit, shift, shift_if_set, shifted,
    shifted_if_set,
};
use crate::json::{json_of_text, text_of_json, Json, JsonModel};
use crate::kind::{same_text, ShapeError, ShapeState, ShapeType};
use crate::props::{
    get_x, get_y, point_line, push_point_line, push_prop, with_x, with_y, x_of, y_of, ORIGIN_X_KEY,
    ORIGIN_Y_KEY,
};

verus! {

/// A line from `origin` to `end`. Either point may still be unset.
#[derive(Debug, Clone, Copy, PartialEq, Eq)]
pub struct Line {
    pub origin: Option<(i32, i32)>,
    pub end: Option<(i32, i32)>,
    pub state: ShapeState,
}

/// An end point after a resize: it follows the change if it is set and near
/// the anchor, and stays otherwise.
pub open spec fn end_point_dragged(
    p: Option<(i32, i32)>,
    change: (i32, i32),
    anchor: (i32, i32),
) -> Option<(i32, i32)> {
    match p {
        Some(q) => if near_point(q, anchor) {
            Some(shifted(q, change.0, change.1))
        } else {
            p
        },
        None => None,
    }
}

impl Line {
    /// A line that nothing has been drawn of yet.
    pub open spec fn fresh() -> Line {
        Line { origin: None, end: None, state: ShapeState::New }
    }

    /// Whether there is something to draw: the drawing has started and the
    /// end point is set.
    pub open spec fn drawable(self) -> bool {
        self.state.is_started() && self.end is Some
    }

    /// Whether `(x, y)` hits the line: the line is drawable, both its points
    /// are set, and the point hits the segment between them.
    pub open spec fn hit(self, x: int, y: int) -> bool {
        &&& self.drawable()
        &&& self.origin matches Some(o)
        &&& self.end matches Some(e)
        &&& hits_segment(o, e, x, y)
    }

    /// The line with its end point put at `(x, y)`.
    pub open spec fn with_end(self, x: i32, y: i32) -> Line {
        Line { end: Some((x, y)), ..self }
    }

    /// The line after the next point of its drawing: the first point is its
    /// origin, the second its end.
    pub open spec fn with_point(self, x: i32, y: i32) -> Line {
        match self.origin {
            Some(_) => Line { state: ShapeState::Complete, ..self.with_end(x, y) },
            None => Line { origin: Some((x, y)), state: ShapeState::Drawing, ..self },
        }
    }

    /// The line between two points, in the state it was in.
    pub open spec fn with_points(self, origin: (i32, i32), end: (i32, i32)) -> Line {
        Line { origin: Some(origin), end: Some(end), ..self }
    }

    /// The line moved by `(dx, dy)`: both points move.
    pub open spec fn moved(self, dx: i32, dy: i32) -> Line {
        Line {
            origin: shifted_if_set(self.origin, dx, dy),
            end: shifted_if_set(self.end, dx, dy),
            ..self
        }
    }

    /// The line after the end points near `anchor` were dragged by `change`.
    /// Each end point is looked at by itself, so an anchor near both moves
    /// both.
    pub open spec fn resized(self, change: (i32, i32), anchor: (i32, i32)) -> Line {
        Line {
            origin: end_point_dragged(self.origin, change, anchor),
            end: end_point_dragged(self.end, change, anchor),
            ..self
        }
    }

    /// A line that nothing has been drawn of yet.
    pub fn new() -> (r: Line)
        ensures
            r == Line::fresh(),
    {
        Line { origin: None, end: None, state: ShapeState::New }
    }

    /// Takes the next point of the drawing. The first point is the origin and
    /// starts the drawing; any later point sets the end and completes it.
    pub fn add_point(&mut self, x: i32, y: i32)
        ensures
            *final(self) == old(self).with_point(x, y),
    {
        match self.origin {
            Some(_) => {
                self.end = Some((x, y));
                self.state = ShapeState::Complete;
            },
            None => {
                self.origin = Some((x, y));
                self.state = ShapeState::Drawing;
            },
        }
    }

    /// The kind of the shape.
    pub fn get_type(&self) -> (kind: ShapeType)
        ensures
            kind == ShapeType::Line,
    {
        ShapeType::Line
    }

    /// Sets both defining points and leaves the state as it is.
    pub fn init_from_points(&mut self, origin: (i32, i32), end: (i32, i32))
        ensures
            *final(self) == old(self).with_points(origin, end),
    {
        self.origin = Some(origin);
        self.end = Some(end);
    }

    /// Sets the end point.
    pub fn set_end(&mut self, x: i32, y: i32)
        ensures
            *final(self) == old(self).with_end(x, y),
    {
        self.end = Some((x, y));
    }

    /// How far the drawing has come.
    pub fn get_state(&self) -> (state: ShapeState)
        ensures
            state == self.state,
    {
        self.state
    }

    /// Whether there is something to draw.
    pub fn is_drawable(&self) -> (r: bool)
        ensures
            r == self.drawable(),
    {
        (self.state == ShapeState::Complete || self.state == ShapeState::Drawing)
            && self.end.is_some()
    }

    /// The hit test: whether a pointer at `(x, y)` is on the line, give or take
    /// the tolerance.
    pub fn contains(&self, x: i32, y: i32) -> (r: bool)
        ensures
            r == self.hit(x as int, y as int),
    {
        if !self.is_drawable() {
            return false;
        }
        match (self.origin, self.end) {
            (Some(o), Some(e)) => segment_hit(o, e, x, y),
            _ => false,
        }
    }

    /// The point that was set first, if it is set.
    pub fn get_origin(&self) -> (origin: Option<(i32, i32)>)
        ensures
            origin == self.origin,
    {
        self.origin
    }

    /// The end point, if it is set.
    pub fn get_end(&self) -> (end: Option<(i32, i32)>)
        ensures
            end == self.end,
    {
        self.end
    }

    /// Moves the line by `(dx, dy)`.
    pub fn move_by(&mut self, dx: i32, dy: i32)
        ensures
            *final(self) == old(self).moved(dx, dy),
    {
        self.origin = shift_if_set(self.origin, dx, dy);
        self.end = shift_if_set(self.end, dx, dy);
    }

    /// Drags the end points that are near `anchor` by `change`.
    pub fn resize(&mut self, change: (i32, i32), anchor: (i32, i32))
        ensures
            *final(self) == old(self).resized(change, anchor),
    {
        if let Some(o) = self.origin {
            if is_near_point(o, anchor) {
                self.origin = Some(shift(o, change.0, change.1));
            }
        }
        if let Some(e) = self.end {
            if is_near_point(e, anchor) {
                self.end = Some(shift(e, change.0, change.1));
            }
        }
    }

    /// Puts the shape into a state, whatever state it was in.
    pub fn set_state(&mut self, state: ShapeState)
        ensures
            *final(self) == (Line { state, ..*old(self) }),
    {
        self.state = state;
    }
}

/// The label of the x coordinate of the end point.
pub const END_X_KEY: &'static str = "End x";

/// The label of the y coordinate of the end point.
pub const END_Y_KEY: &'static str = "End y";

impl Line {
    /// The properties that can be edited, each with its value as decimal
    /// text. A point that is not set shows as `(0, 0)`.
    pub open spec fn props(self) -> Seq<(Seq<char>, Seq<char>)> {
        seq![
            (ORIGIN_X_KEY@, decimal(x_of(self.origin) as int)),
            (ORIGIN_Y_KEY@, decimal(y_of(self.origin) as int)),
            (END_X_KEY@, decimal(x_of(self.end) as int)),
            (END_Y_KEY@, decimal(y_of(self.end) as int)),
        ]
    }

    /// Whether `key` is the label of a property of a line.
    pub open spec fn has_prop(key: Seq<char>) -> bool {
        key == ORIGIN_X_KEY@ || key == ORIGIN_Y_KEY@ || key == END_X_KEY@ || key == END_Y_KEY@
    }

    /// The line with the property `key` set to `v`. Setting one coordinate of
    /// a point that is not set yet sets the point, with 0 for the other.
    pub open spec fn with_number(self, key: Seq<char>, v: i32) -> Line {
        if key == ORIGIN_X_KEY@ {
            Line { origin: with_x(self.origin, v), ..self }
        } else if key == ORIGIN_Y_KEY@ {
            Line { origin: with_y(self.origin, v), ..self }
        } else if key == END_X_KEY@ {
            Line { end: with_x(self.end, v), ..self }
        } else if key == END_Y_KEY@ {
            Line { end: with_y(self.end, v), ..self }
        } else {
            self
        }
    }

    /// What an edit of the property `key` to the text `value` leads to: a
    /// label that a line does not have changes nothing, whatever the text; for
    /// a label that it has, the text has to spell a coordinate.
    pub open spec fn with_prop(self, key: Seq<char>, value: Seq<char>) -> Result<Line, ShapeError> {
        if Line::has_prop(key) {
            match coordinate_value(value) {
                Some(v) => Ok(self.with_number(key, v)),
                None => Err(ShapeError::InvalidNumber),
            }
        } else {
            Ok(self)
        }
    }

    /// The summary: the kind, then each point that is set, one per line.
    pub open spec fn summary(self) -> Seq<char> {
        "Type: Line\n"@ + (match self.origin {
            Some(o) => point_line("Origin"@, o),
            None => Seq::empty(),
        }) + (match self.end {
            Some(e) => point_line("End"@, e),
            None => Seq::empty(),
        })
    }

    /// The properties that can be edited: label and value, in a fixed order.
    pub fn get_props(&self) -> (list: Vec<(String, String)>)
        ensures
            list.deep_view() == self.props(),
    {
        let mut list: Vec<(String, String)> = Vec::new();
        push_prop(&mut list, ORIGIN_X_KEY, get_x(self.origin) as i64);
        push_prop(&mut list, ORIGIN_Y_KEY, get_y(self.origin) as i64);
        push_prop(&mut list, END_X_KEY, get_x(self.end) as i64);
        push_prop(&mut list, END_Y_KEY, get_y(self.end) as i64);
        list
    }

    /// Edits one property. A label that the shape does not have is passed
    /// over; a value that is no number for the property is an `InvalidNumber`
    /// and changes nothing.
    pub fn set_prop(&mut self, key: &str, value: &str) -> (r: Result<(), ShapeError>)
        ensures
            match old(self).with_prop(key@, value@) {
                Ok(line) => r is Ok && *final(self) == line,
                Err(e) => r == Err::<(), ShapeError>(e) && *final(self) == *old(self),
            },
    {
        let on_origin_x: bool = same_text(key, ORIGIN_X_KEY);
        let on_origin_y: bool = same_text(key, ORIGIN_Y_KEY);
        let on_end_x: bool = same_text(key, END_X_KEY);
        let on_end_y: bool = same_text(key, END_Y_KEY);
        if !(on_origin_x || on_origin_y || on_end_x || on_end_y) {
            return Ok(());
        }
        let v: i32 = match parse_coordinate(value) {
            Some(v) => v,
            None => {
                return Err(ShapeError::InvalidNumber);
            },
        };
        if on_origin_x {
            self.origin = Some((v, get_y(self.origin)));
        } else if on_origin_y {
            self.origin = Some((get_x(self.origin), v));
        } else if on_end_x {
            self.end = Some((v, get_y(self.end)));
        } else {
            self.end = Some((get_x(self.end), v));
        }
        Ok(())
    }

    /// A summary of the line for a reader, one fact per line.
    pub fn get_prop_str(&self) -> (text: String)
        ensures
            text@ == self.summary(),
    {
        let mut text: String = "Type: Line\n".to_owned();
        if let Some(o) = self.origin {
            push_point_line(&mut text, "Origin", o);
        }
        if let Some(e) = self.end {
            push_point_line(&mut text, "End", e);
        }
        text
    }
}

impl Line {
    /// The document of the line.
    pub open spec fn document(self) -> JsonModel {
        JsonModel::Object(
            with_point_fields(
                with_point_fields(
                    header(ShapeType::Line, self.state),
                    ORIGIN_X_FIELD@,
                    ORIGIN_Y_FIELD@,
                    self.origin,
                ),
                END_X_FIELD@,
                END_Y_FIELD@,
                self.end,
            ),
        )
    }

    /// The line that a document describes. The document has to be an object
    /// that declares the kind line and a state; each of its two points is
    /// either there with both coordinates or not there at all. What is wrong
    /// first, in this order, decides the error.
    pub open spec fn decoded(doc: JsonModel) -> Result<Line, ShapeError> {
        match doc {
            JsonModel::Object(entries) => match kind_is(entries, ShapeType::Line) {
                Err(e) => Err(e),
                Ok(_) => match state_in(entries) {
                    Err(e) => Err(e),
                    Ok(state) => match point_in(entries, ORIGIN_X_FIELD@, ORIGIN_Y_FIELD@) {
                        Err(e) => Err(e),
                        Ok(origin) => match point_in(entries, END_X_FIELD@, END_Y_FIELD@) {
                            Err(e) => Err(e),
                            Ok(end) => Ok(Line { origin, end, state }),
                        },
                    },
                },
            },
            _ => Err(ShapeError::MalformedDocument),
        }
    }

    /// What reading a JSON text as a line leads to: a text that is no JSON is
    /// a malformed document, any other is read as the document it is.
    pub open spec fn decoded_text(text: Seq<char>) -> Result<Line, ShapeError> {
        match json_of_text(text) {
            Some(doc) => Line::decoded(doc),
            None => Err(ShapeError::MalformedDocument),
        }
    }

    /// A line is read back from its own document as it was.
    pub proof fn lemma_document_round_trip(self)
        ensures
            Line::decoded(self.document()) == Ok::<Line, ShapeError>(self),
    {
        let head = header(ShapeType::Line, self.state);
        let mid = with_point_fields(head, ORIGIN_X_FIELD@, ORIGIN_Y_FIELD@, self.origin);
        lemma_fields_differ();
        ShapeType::Line.lemma_tag_round_trip();
        self.state.lemma_name_round_trip();
        lemma_field_header(ShapeType::Line, self.state);
        lemma_field_point(head, ORIGIN_X_FIELD@, ORIGIN_Y_FIELD@, self.origin);
        lemma_field_point(mid, END_X_FIELD@, END_Y_FIELD@, self.end);
    }

    /// Writes the line as a document.
    pub fn to_document(&self) -> (doc: Json)
        ensures
            doc@ == self.document(),
    {
        let mut entries = start_entries(ShapeType::Line, self.state);
        push_point_fields(&mut entries, ORIGIN_X_FIELD, ORIGIN_Y_FIELD, self.origin);
        push_point_fields(&mut entries, END_X_FIELD, END_Y_FIELD, self.end);
        Json::Object(entries)
    }

    /// Reads a line from a document.
    pub fn decode(doc: &Json) -> (r: Result<Line, ShapeError>)
        ensures
            r == Line::decoded(doc@),
    {
        let entries = match doc {
            Json::Object(entries) => entries,
            _ => {
                return Err(ShapeError::MalformedDocument);
            },
        };
        if let Err(e) = check_kind(entries, ShapeType::Line) {
            return Err(e);
        }
        let state = match read_state(entries) {
            Ok(state) => state,
            Err(e) => {
                return Err(e);
            },
        };
        let origin = match read_point(entries, ORIGIN_X_FIELD, ORIGIN_Y_FIELD) {
            Ok(origin) => origin,
            Err(e) => {
                return Err(e);
            },
        };
        let end = match read_point(entries, END_X_FIELD, END_Y_FIELD) {
            Ok(end) => end,
            Err(e) => {
                return Err(e);
            },
        };
        Ok(Line { origin, end, state })
    }

    /// Replaces the line by the one that a document describes. A document
    /// that describes none leaves the line as it was.
    pub fn from_document(&mut self, doc: &Json) -> (r: Result<(), ShapeError>)
        ensures
            match Line::decoded(doc@) {
                Ok(line) => r is Ok && *final(self) == line,
                Err(e) => r == Err::<(), ShapeError>(e) && *final(self) == *old(self),
            },
    {
        match Line::decode(doc) {
            Ok(line) => {
                *self = line;
                Ok(())
            },
            Err(e) => Err(e),
        }
    }

    /// The document of the line as JSON text.
    pub fn get_json(&self) -> (text: String)
        ensures
            text@ == text_of_json(self.document()),
    {
        self.to_document().to_text()
    }

    /// Replaces the line by the one that a JSON text describes. A text that
    /// describes none leaves the line as it was.
    pub fn from_json(&mut self, json: &str) -> (r: Result<(), ShapeError>)
        ensures
            match Line::decoded_text(json@) {
                Ok(line) => r is Ok && *final(self) == line,
                Err(e) => r == Err::<(), ShapeError>(e) && *final(self) == *old(self),
            },
    {
        match Json::from_text(json) {
            Ok(doc) => self.from_document(&doc),
            Err(e) => Err(e),
        }
    }
}

} // verus!
