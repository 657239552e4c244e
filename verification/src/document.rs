//! The fields of a shape document, and how each is written and read.
//!
//! A shape document is a JSON object. It holds `type` and `state`, and the
//! geometry of its kind: a line its two points as `origin_x`, `origin_y`,
//! `end_x`, `end_y`; a rectangle its corner as `origin_x`, `origin_y`, and
//! `width` and `height`; a circle its centre as the array `origin`, and
//! `radius`. The fields of a point that is not set are left out. Numbers are
//! whole.

use vstd::prelude::*;
use crate::json::{
    entries_model, field, find, items_model, lemma_entries_model_push, lemma_field_push,
    lemma_items_model, Json, JsonModel,
};
use crate::kind::{ShapeError, ShapeState, ShapeType};

verus! {

/// The field that holds the kind.
pub const TYPE_KEY: &'static str = "type";

/// The field that holds the state.
pub const STATE_KEY: &'static str = "state";

/// The field that holds the x coordinate of the origin of a line or a
/// rectangle.
pub const ORIGIN_X_FIELD: &'static str = "origin_x";

/// The field that holds the y coordinate of the origin of a line or a
/// rectangle.
pub const ORIGIN_Y_FIELD: &'static str = "origin_y";

/// The field that holds the x coordinate of the end of a line.
pub const END_X_FIELD: &'static str = "end_x";

/// The field that holds the y coordinate of the end of a line.
pub const END_Y_FIELD: &'static str = "end_y";

/// The field that holds the width of a rectangle.
pub const WIDTH_FIELD: &'static str = "width";

/// The field that holds the height of a rectangle.
pub const HEIGHT_FIELD: &'static str = "height";

/// The field that holds the centre of a circle, as an array.
pub const ORIGIN_FIELD: &'static str = "origin";

/// The field that holds the radius of a circle.
pub const RADIUS_FIELD: &'static str = "radius";

/// The entries of an object.
pub type Entries = Seq<(Seq<char>, JsonModel)>;

/// A whole number as a JSON value.
pub open spec fn whole(v: int) -> JsonModel {
    JsonModel::Number(Some(v as i64))
}

/// The two entries that every shape document starts with.
pub open spec fn header(kind: ShapeType, state: ShapeState) -> Entries {
    Seq::empty().push((TYPE_KEY@, JsonModel::Text(kind.tag()))).push(
        (STATE_KEY@, JsonModel::Text(state.name())),
    )
}

/// The entries with a point added under two keys, if the point is set.
pub open spec fn with_point_fields(
    entries: Entries,
    x_key: Seq<char>,
    y_key: Seq<char>,
    p: Option<(i32, i32)>,
) -> Entries {
    match p {
        Some(q) => entries.push((x_key, whole(q.0 as int))).push((y_key, whole(q.1 as int))),
        None => entries,
    }
}

/// The entries with a point added under one key as an array of its two
/// coordinates, if the point is set.
pub open spec fn with_pair_field(entries: Entries, key: Seq<char>, p: Option<(i32, i32)>) -> Entries {
    match p {
        Some(q) => entries.push(
            (key, JsonModel::Array(Seq::empty().push(whole(q.0 as int)).push(whole(q.1 as int)))),
        ),
        None => entries,
    }
}

/// The coordinate that a value holds, if it is a whole number in the range
/// of a coordinate.
pub open spec fn coordinate_in(value: JsonModel) -> Option<i32> {
    match value {
        JsonModel::Number(Some(n)) => if i32::MIN <= n <= i32::MAX {
            Some(n as i32)
        } else {
            None
        },
        _ => None,
    }
}

/// The radius that a value holds, if it is a whole number in the range of a
/// radius; a negative number is none.
pub open spec fn radius_in(value: JsonModel) -> Option<u32> {
    match value {
        JsonModel::Number(Some(n)) => if 0 <= n <= u32::MAX {
            Some(n as u32)
        } else {
            None
        },
        _ => None,
    }
}

/// The kind that a document declares. Without a `type` the document is
/// malformed; a `type` that is no text, or names no kind, is unknown.
pub open spec fn kind_in(entries: Entries) -> Result<ShapeType, ShapeError> {
    match field(entries, TYPE_KEY@) {
        None => Err(ShapeError::MalformedDocument),
        Some(JsonModel::Text(tag)) => match ShapeType::tagged(tag) {
            Some(kind) => Ok(kind),
            None => Err(ShapeError::UnknownShapeKind),
        },
        Some(_) => Err(ShapeError::UnknownShapeKind),
    }
}

/// Whether a document declares the kind `kind`. A document that declares
/// another kind is malformed as a document of this one.
pub open spec fn kind_is(entries: Entries, kind: ShapeType) -> Result<(), ShapeError> {
    match kind_in(entries) {
        Ok(found) => if found == kind {
            Ok(())
        } else {
            Err(ShapeError::MalformedDocument)
        },
        Err(e) => Err(e),
    }
}

/// The state that a document declares. Without a `state` the document is
/// malformed; a `state` that is no text, or names no state, is invalid.
pub open spec fn state_in(entries: Entries) -> Result<ShapeState, ShapeError> {
    match field(entries, STATE_KEY@) {
        None => Err(ShapeError::MalformedDocument),
        Some(JsonModel::Text(name)) => match ShapeState::named(name) {
            Some(state) => Ok(state),
            None => Err(ShapeError::InvalidState),
        },
        Some(_) => Err(ShapeError::InvalidState),
    }
}

/// The point under two keys. With neither key the point is not set; with
/// only one of them the document is malformed; with both, each has to hold a
/// coordinate.
pub open spec fn point_in(entries: Entries, x_key: Seq<char>, y_key: Seq<char>) -> Result<
    Option<(i32, i32)>,
    ShapeError,
> {
    match (field(entries, x_key), field(entries, y_key)) {
        (None, None) => Ok(None),
        (Some(x), Some(y)) => match (coordinate_in(x), coordinate_in(y)) {
            (Some(a), Some(b)) => Ok(Some((a, b))),
            _ => Err(ShapeError::InvalidNumber),
        },
        _ => Err(ShapeError::MalformedDocument),
    }
}

/// The point under one key, as an array. Without the key the point is not
/// set; a value that is no array of two items makes the document malformed;
/// each of the two has to hold a coordinate.
pub open spec fn pair_in(entries: Entries, key: Seq<char>) -> Result<Option<(i32, i32)>, ShapeError> {
    match field(entries, key) {
        None => Ok(None),
        Some(JsonModel::Array(items)) => if items.len() == 2 {
            match (coordinate_in(items[0]), coordinate_in(items[1])) {
                (Some(a), Some(b)) => Ok(Some((a, b))),
                _ => Err(ShapeError::InvalidNumber),
            }
        } else {
            Err(ShapeError::MalformedDocument)
        },
        Some(_) => Err(ShapeError::MalformedDocument),
    }
}

/// The coordinate under a key that has to be there.
pub open spec fn number_in(entries: Entries, key: Seq<char>) -> Result<i32, ShapeError> {
    match field(entries, key) {
        None => Err(ShapeError::MalformedDocument),
        Some(value) => match coordinate_in(value) {
            Some(v) => Ok(v),
            None => Err(ShapeError::InvalidNumber),
        },
    }
}

/// The radius under a key that has to be there.
pub open spec fn radius_under(entries: Entries, key: Seq<char>) -> Result<u32, ShapeError> {
    match field(entries, key) {
        None => Err(ShapeError::MalformedDocument),
        Some(value) => match radius_in(value) {
            Some(v) => Ok(v),
            None => Err(ShapeError::InvalidNumber),
        },
    }
}

/// No two field names are the same.
pub proof fn lemma_fields_differ()
    ensures
        TYPE_KEY@ != STATE_KEY@,
        TYPE_KEY@ != ORIGIN_X_FIELD@,
        TYPE_KEY@ != ORIGIN_Y_FIELD@,
        TYPE_KEY@ != END_X_FIELD@,
        TYPE_KEY@ != END_Y_FIELD@,
        TYPE_KEY@ != WIDTH_FIELD@,
        TYPE_KEY@ != HEIGHT_FIELD@,
        TYPE_KEY@ != ORIGIN_FIELD@,
        TYPE_KEY@ != RADIUS_FIELD@,
        STATE_KEY@ != ORIGIN_X_FIELD@,
        STATE_KEY@ != ORIGIN_Y_FIELD@,
        STATE_KEY@ != END_X_FIELD@,
        STATE_KEY@ != END_Y_FIELD@,
        STATE_KEY@ != WIDTH_FIELD@,
        STATE_KEY@ != HEIGHT_FIELD@,
        STATE_KEY@ != ORIGIN_FIELD@,
        STATE_KEY@ != RADIUS_FIELD@,
        ORIGIN_X_FIELD@ != ORIGIN_Y_FIELD@,
        ORIGIN_X_FIELD@ != END_X_FIELD@,
        ORIGIN_X_FIELD@ != END_Y_FIELD@,
        ORIGIN_X_FIELD@ != WIDTH_FIELD@,
        ORIGIN_X_FIELD@ != HEIGHT_FIELD@,
        ORIGIN_Y_FIELD@ != END_X_FIELD@,
        ORIGIN_Y_FIELD@ != END_Y_FIELD@,
        ORIGIN_Y_FIELD@ != WIDTH_FIELD@,
        ORIGIN_Y_FIELD@ != HEIGHT_FIELD@,
        END_X_FIELD@ != END_Y_FIELD@,
        WIDTH_FIELD@ != HEIGHT_FIELD@,
        ORIGIN_FIELD@ != RADIUS_FIELD@,
{
    reveal_strlit("type");
    reveal_strlit("state");
    reveal_strlit("origin_x");
    reveal_strlit("origin_y");
    reveal_strlit("end_x");
    reveal_strlit("end_y");
    reveal_strlit("width");
    reveal_strlit("height");
    reveal_strlit("origin");
    reveal_strlit("radius");
    assert(TYPE_KEY@.len() == 4);
    assert(STATE_KEY@.len() == 5 && STATE_KEY@[0] == 's');
    assert(ORIGIN_X_FIELD@.len() == 8 && ORIGIN_X_FIELD@[7] == 'x');
    assert(ORIGIN_Y_FIELD@.len() == 8 && ORIGIN_Y_FIELD@[7] == 'y');
    assert(END_X_FIELD@.len() == 5 && END_X_FIELD@[0] == 'e' && END_X_FIELD@[4] == 'x');
    assert(END_Y_FIELD@.len() == 5 && END_Y_FIELD@[0] == 'e' && END_Y_FIELD@[4] == 'y');
    assert(WIDTH_FIELD@.len() == 5 && WIDTH_FIELD@[0] == 'w');
    assert(HEIGHT_FIELD@.len() == 6 && HEIGHT_FIELD@[0] == 'h');
    assert(ORIGIN_FIELD@.len() == 6 && ORIGIN_FIELD@[0] == 'o');
    assert(RADIUS_FIELD@.len() == 6 && RADIUS_FIELD@[0] == 'r');
}

/// What is found in the two entries that a document starts with.
pub proof fn lemma_field_header(kind: ShapeType, state: ShapeState)
    ensures
        forall|key: Seq<char>| #[trigger]
            field(header(kind, state), key) == if key == STATE_KEY@ {
                Some(JsonModel::Text(state.name()))
            } else if key == TYPE_KEY@ {
                Some(JsonModel::Text(kind.tag()))
            } else {
                None
            },
{
    let first = Seq::<(Seq<char>, JsonModel)>::empty().push((TYPE_KEY@, JsonModel::Text(kind.tag())));
    assert forall|key: Seq<char>| #[trigger]
        field(header(kind, state), key) == if key == STATE_KEY@ {
            Some(JsonModel::Text(state.name()))
        } else if key == TYPE_KEY@ {
            Some(JsonModel::Text(kind.tag()))
        } else {
            None
        } by {
        lemma_field_push(Seq::empty(), (TYPE_KEY@, JsonModel::Text(kind.tag())), key);
        lemma_field_push(first, (STATE_KEY@, JsonModel::Text(state.name())), key);
    }
}

/// What is found after one entry was added.
pub proof fn lemma_field_added(entries: Entries, entry: (Seq<char>, JsonModel))
    ensures
        forall|key: Seq<char>| #[trigger]
            field(entries.push(entry), key) == if key == entry.0 {
                Some(entry.1)
            } else {
                field(entries, key)
            },
{
    assert forall|key: Seq<char>| #[trigger]
        field(entries.push(entry), key) == if key == entry.0 {
            Some(entry.1)
        } else {
            field(entries, key)
        } by {
        lemma_field_push(entries, entry, key);
    }
}

/// What is found after a point was added under two keys.
pub proof fn lemma_field_point(
    entries: Entries,
    x_key: Seq<char>,
    y_key: Seq<char>,
    p: Option<(i32, i32)>,
)
    ensures
        forall|key: Seq<char>| #[trigger]
            field(with_point_fields(entries, x_key, y_key, p), key) == match p {
                Some(q) => if key == y_key {
                    Some(whole(q.1 as int))
                } else if key == x_key {
                    Some(whole(q.0 as int))
                } else {
                    field(entries, key)
                },
                None => field(entries, key),
            },
{
    if let Some(q) = p {
        lemma_field_added(entries, (x_key, whole(q.0 as int)));
        lemma_field_added(entries.push((x_key, whole(q.0 as int))), (y_key, whole(q.1 as int)));
    }
}

/// What is found after a point was added under one key.
pub proof fn lemma_field_pair(entries: Entries, pair_key: Seq<char>, p: Option<(i32, i32)>)
    ensures
        forall|key: Seq<char>| #[trigger]
            field(with_pair_field(entries, pair_key, p), key) == match p {
                Some(q) => if key == pair_key {
                    Some(
                        JsonModel::Array(
                            Seq::empty().push(whole(q.0 as int)).push(whole(q.1 as int)),
                        ),
                    )
                } else {
                    field(entries, key)
                },
                None => field(entries, key),
            },
{
    if let Some(q) = p {
        lemma_field_added(
            entries,
            (
                pair_key,
                JsonModel::Array(Seq::empty().push(whole(q.0 as int)).push(whole(q.1 as int))),
            ),
        );
    }
}

/// Reads the coordinate that a value holds.
pub fn read_coordinate(value: &Json) -> (r: Option<i32>)
    ensures
        r == coordinate_in(value@),
{
    match value {
        Json::Number(Some(n)) => if -2147483648 <= *n && *n <= 2147483647 {
            Some(*n as i32)
        } else {
            None
        },
        _ => None,
    }
}

/// Reads the radius that a value holds.
pub fn read_radius(value: &Json) -> (r: Option<u32>)
    ensures
        r == radius_in(value@),
{
    match value {
        Json::Number(Some(n)) => if 0 <= *n && *n <= 4294967295 {
            Some(*n as u32)
        } else {
            None
        },
        _ => None,
    }
}

/// Reads the kind that a document declares.
pub fn read_kind(entries: &Vec<(String, Json)>) -> (r: Result<ShapeType, ShapeError>)
    ensures
        r == kind_in(entries_model(entries@)),
{
    match find(entries, TYPE_KEY) {
        None => Err(ShapeError::MalformedDocument),
        Some(Json::Text(tag)) => match ShapeType::from_tag(tag.as_str()) {
            Some(kind) => Ok(kind),
            None => Err(ShapeError::UnknownShapeKind),
        },
        Some(_) => Err(ShapeError::UnknownShapeKind),
    }
}

/// Checks that a document declares the kind `kind`.
pub fn check_kind(entries: &Vec<(String, Json)>, kind: ShapeType) -> (r: Result<(), ShapeError>)
    ensures
        r == kind_is(entries_model(entries@), kind),
{
    match read_kind(entries) {
        Ok(found) => if found == kind {
            Ok(())
        } else {
            Err(ShapeError::MalformedDocument)
        },
        Err(e) => Err(e),
    }
}

/// Reads the state that a document declares.
pub fn read_state(entries: &Vec<(String, Json)>) -> (r: Result<ShapeState, ShapeError>)
    ensures
        r == state_in(entries_model(entries@)),
{
    match find(entries, STATE_KEY) {
        None => Err(ShapeError::MalformedDocument),
        Some(Json::Text(name)) => ShapeState::from_str(name.as_str()),
        Some(_) => Err(ShapeError::InvalidState),
    }
}

/// Reads the point under two keys.
pub fn read_point(entries: &Vec<(String, Json)>, x_key: &str, y_key: &str) -> (r: Result<
    Option<(i32, i32)>,
    ShapeError,
>)
    ensures
        r == point_in(entries_model(entries@), x_key@, y_key@),
{
    match (find(entries, x_key), find(entries, y_key)) {
        (None, None) => Ok(None),
        (Some(x), Some(y)) => match (read_coordinate(x), read_coordinate(y)) {
            (Some(a), Some(b)) => Ok(Some((a, b))),
            _ => Err(ShapeError::InvalidNumber),
        },
        _ => Err(ShapeError::MalformedDocument),
    }
}

/// Reads the point under one key, written as an array.
pub fn read_pair(entries: &Vec<(String, Json)>, key: &str) -> (r: Result<
    Option<(i32, i32)>,
    ShapeError,
>)
    ensures
        r == pair_in(entries_model(entries@), key@),
{
    match find(entries, key) {
        None => Ok(None),
        Some(Json::Array(items)) => {
            proof {
                lemma_items_model(items@);
            }
            if items.len() == 2 {
                match (read_coordinate(&items[0]), read_coordinate(&items[1])) {
                    (Some(a), Some(b)) => Ok(Some((a, b))),
                    _ => Err(ShapeError::InvalidNumber),
                }
            } else {
                Err(ShapeError::MalformedDocument)
            }
        },
        Some(_) => Err(ShapeError::MalformedDocument),
    }
}

/// Reads the coordinate under a key that has to be there.
pub fn read_number(entries: &Vec<(String, Json)>, key: &str) -> (r: Result<i32, ShapeError>)
    ensures
        r == number_in(entries_model(entries@), key@),
{
    match find(entries, key) {
        None => Err(ShapeError::MalformedDocument),
        Some(value) => match read_coordinate(value) {
            Some(v) => Ok(v),
            None => Err(ShapeError::InvalidNumber),
        },
    }
}

/// Reads the radius under a key that has to be there.
pub fn read_radius_under(entries: &Vec<(String, Json)>, key: &str) -> (r: Result<u32, ShapeError>)
    ensures
        r == radius_under(entries_model(entries@), key@),
{
    match find(entries, key) {
        None => Err(ShapeError::MalformedDocument),
        Some(value) => match read_radius(value) {
            Some(v) => Ok(v),
            None => Err(ShapeError::InvalidNumber),
        },
    }
}

/// Adds an entry.
pub fn push_entry(entries: &mut Vec<(String, Json)>, key: &str, value: Json)
    ensures
        entries_model(final(entries)@) == entries_model(old(entries)@).push((key@, value@)),
{
    let ghost before = entries@;
    let entry: (String, Json) = (key.to_owned(), value);
    proof {
        lemma_entries_model_push(before, entry);
    }
    entries.push(entry);
}

/// Adds a whole number under a key.
pub fn push_whole(entries: &mut Vec<(String, Json)>, key: &str, v: i64)
    ensures
        entries_model(final(entries)@) == entries_model(old(entries)@).push((key@, whole(v as int))),
{
    push_entry(entries, key, Json::Number(Some(v)));
}

/// Starts the entries of a shape document.
pub fn start_entries(kind: ShapeType, state: ShapeState) -> (entries: Vec<(String, Json)>)
    ensures
        entries_model(entries@) == header(kind, state),
{
    let mut entries: Vec<(String, Json)> = Vec::new();
    push_entry(&mut entries, TYPE_KEY, Json::Text(kind.tag_text()));
    push_entry(&mut entries, STATE_KEY, Json::Text(state.to_string()));
    entries
}

/// Adds a point under two keys, if it is set.
pub fn push_point_fields(
    entries: &mut Vec<(String, Json)>,
    x_key: &str,
    y_key: &str,
    p: Option<(i32, i32)>,
)
    ensures
        entries_model(final(entries)@) == with_point_fields(
            entries_model(old(entries)@),
            x_key@,
            y_key@,
            p,
        ),
{
    if let Some((x, y)) = p {
        push_whole(entries, x_key, x as i64);
        push_whole(entries, y_key, y as i64);
    }
}

/// Adds a point under one key as an array, if it is set.
pub fn push_pair_field(entries: &mut Vec<(String, Json)>, key: &str, p: Option<(i32, i32)>)
    ensures
        entries_model(final(entries)@) == with_pair_field(entries_model(old(entries)@), key@, p),
{
    if let Some((x, y)) = p {
        let mut items: Vec<Json> = Vec::new();
        items.push(Json::Number(Some(x as i64)));
        items.push(Json::Number(Some(y as i64)));
        proof {
            lemma_items_model(items@);
            assert(items_model(items@) =~= Seq::empty().push(whole(x as int)).push(
                whole(y as int),
            ));
        }
        push_entry(entries, key, Json::Array(items));
    }
}

} // verus!
