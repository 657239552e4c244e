//! The closed vocabularies of the editor: which kind a shape is, how far its
//! drawing has come, and the ways an input can be turned down.

use vstd::prelude::*;

verus! {

/// Why a property edit or a document was turned down. Every failure leaves the
/// value it was meant for as it was.
#[derive(Debug, Clone, Copy, PartialEq, Eq, Hash, Structural)]
pub enum ShapeError {
    /// A property value or a numeric field is no whole number in the range of
    /// the field it is meant for.
    InvalidNumber,
    /// The `type` field names none of line, rectangle and circle.
    UnknownShapeKind,
    /// The text is no JSON, the document has the wrong structure, or a field
    /// that its kind needs is missing.
    MalformedDocument,
    /// The `state` field names none of the three lifecycle states.
    InvalidState,
}

/// The kind of a shape. It never changes once the shape exists.
#[derive(Debug, Clone, Copy, PartialEq, Eq, Hash, Structural)]
pub enum ShapeType {
    Line,
    Rectangle,
    Circle,
}

impl ShapeType {
    /// The name shown to the user.
    pub open spec fn name(self) -> Seq<char> {
        match self {
            ShapeType::Line => "Line"@,
            ShapeType::Rectangle => "Rectangle"@,
            ShapeType::Circle => "Circle"@,
        }
    }

    /// The value of the `type` field of a document of this kind.
    pub open spec fn tag(self) -> Seq<char> {
        match self {
            ShapeType::Line => "line"@,
            ShapeType::Rectangle => "rectangle"@,
            ShapeType::Circle => "circle"@,
        }
    }

    /// The kind that a `type` field names, if it names one.
    pub open spec fn tagged(text: Seq<char>) -> Option<ShapeType> {
        if text == "line"@ {
            Some(ShapeType::Line)
        } else if text == "rectangle"@ {
            Some(ShapeType::Rectangle)
        } else if text == "circle"@ {
            Some(ShapeType::Circle)
        } else {
            None
        }
    }

    /// The name, as text.
    pub fn to_string(&self) -> (text: String)
        ensures
            text@ == self.name(),
    {
        match self {
            ShapeType::Line => "Line".to_owned(),
            ShapeType::Rectangle => "Rectangle".to_owned(),
            ShapeType::Circle => "Circle".to_owned(),
        }
    }

    /// The `type` field's value for this kind.
    pub fn tag_text(&self) -> (text: String)
        ensures
            text@ == self.tag(),
    {
        match self {
            ShapeType::Line => "line".to_owned(),
            ShapeType::Rectangle => "rectangle".to_owned(),
            ShapeType::Circle => "circle".to_owned(),
        }
    }

    /// Reads a `type` field's value.
    pub fn from_tag(text: &str) -> (kind: Option<ShapeType>)
        ensures
            kind == ShapeType::tagged(text@),
    {
        if same_text(text, "line") {
            Some(ShapeType::Line)
        } else if same_text(text, "rectangle") {
            Some(ShapeType::Rectangle)
        } else if same_text(text, "circle") {
            Some(ShapeType::Circle)
        } else {
            None
        }
    }

    /// Every kind is read back from its own tag.
    pub proof fn lemma_tag_round_trip(self)
        ensures
            ShapeType::tagged(self.tag()) == Some(self),
    {
        reveal_strlit("line");
        reveal_strlit("rectangle");
        reveal_strlit("circle");
        assert("line"@.len() == 4);
        assert("rectangle"@.len() == 9);
        assert("circle"@.len() == 6);
    }
}

/// How far the drawing of a shape has come. A shape starts `New`, is
/// `Drawing` once its first point is set and `Complete` once its second point
/// is set or it is submitted.
#[derive(Debug, Clone, Copy, PartialEq, Eq, Hash, Structural)]
pub enum ShapeState {
    New,
    Drawing,
    Complete,
}

impl ShapeState {
    /// The name of the state, as shown to the user and as written in the
    /// `state` field of a document.
    pub open spec fn name(self) -> Seq<char> {
        match self {
            ShapeState::New => "New"@,
            ShapeState::Drawing => "Drawing"@,
            ShapeState::Complete => "Complete"@,
        }
    }

    /// The state that a text names, if it names one.
    pub open spec fn named(text: Seq<char>) -> Option<ShapeState> {
        if text == "New"@ {
            Some(ShapeState::New)
        } else if text == "Drawing"@ {
            Some(ShapeState::Drawing)
        } else if text == "Complete"@ {
            Some(ShapeState::Complete)
        } else {
            None
        }
    }

    /// Whether a shape in this state has at least its first point.
    pub open spec fn is_started(self) -> bool {
        self == ShapeState::Drawing || self == ShapeState::Complete
    }

    /// The name, as text.
    pub fn to_string(&self) -> (text: String)
        ensures
            text@ == self.name(),
    {
        match self {
            ShapeState::New => "New".to_owned(),
            ShapeState::Drawing => "Drawing".to_owned(),
            ShapeState::Complete => "Complete".to_owned(),
        }
    }

    /// Reads the name of a state; any other text is an `InvalidState`.
    pub fn from_str(text: &str) -> (state: Result<ShapeState, ShapeError>)
        ensures
            state == match ShapeState::named(text@) {
                Some(s) => Ok::<ShapeState, ShapeError>(s),
                None => Err(ShapeError::InvalidState),
            },
    {
        if same_text(text, "New") {
            Ok(ShapeState::New)
        } else if same_text(text, "Drawing") {
            Ok(ShapeState::Drawing)
        } else if same_text(text, "Complete") {
            Ok(ShapeState::Complete)
        } else {
            Err(ShapeError::InvalidState)
        }
    }

    /// Every state is read back from its own name.
    pub proof fn lemma_name_round_trip(self)
        ensures
            ShapeState::named(self.name()) == Some(self),
    {
        reveal_strlit("New");
        reveal_strlit("Drawing");
        reveal_strlit("Complete");
        assert("New"@.len() == 3);
        assert("Drawing"@.len() == 7);
        assert("Complete"@.len() == 8);
    }
}

/// Whether two texts hold the same characters.
pub fn same_text(a: &str, b: &str) -> (same: bool)
    ensures
        same == (a@ == b@),
{
    let left = a.to_owned();
    let right = b.to_owned();
    left == right
}

} // verus!
