//! What the shapes share of their property lists and summaries.

use vstd::prelude::*;
use vstd::string::StringExecFns;
use crate::decimal::{decimal, format_decimal};

verus! {

/// The label of the x coordinate of the origin.
pub const ORIGIN_X_KEY: &'static str = "Origin x";

/// The label of the y coordinate of the origin.
pub const ORIGIN_Y_KEY: &'static str = "Origin y";

/// The x coordinate of an optional point, 0 if it is not set.
pub open spec fn x_of(p: Option<(i32, i32)>) -> i32 {
    match p {
        Some(q) => q.0,
        None => 0,
    }
}

/// The y coordinate of an optional point, 0 if it is not set.
pub open spec fn y_of(p: Option<(i32, i32)>) -> i32 {
    match p {
        Some(q) => q.1,
        None => 0,
    }
}

/// The point with its x coordinate replaced; a point that was not set
/// starts at `(0, 0)`.
pub open spec fn with_x(p: Option<(i32, i32)>, v: i32) -> Option<(i32, i32)> {
    Some((v, y_of(p)))
}

/// The point with its y coordinate replaced; a point that was not set
/// starts at `(0, 0)`.
pub open spec fn with_y(p: Option<(i32, i32)>, v: i32) -> Option<(i32, i32)> {
    Some((x_of(p), v))
}

/// A point as the summary shows it: `(x, y)`.
pub open spec fn point_text(p: (i32, i32)) -> Seq<char> {
    "("@ + decimal(p.0 as int) + ", "@ + decimal(p.1 as int) + ")"@
}

/// One line of a summary about a point, such as `Origin: (3, 4)`.
pub open spec fn point_line(label: Seq<char>, p: (i32, i32)) -> Seq<char> {
    label + ": "@ + point_text(p) + "\n"@
}

/// One line of a summary about a number, such as `Width: 30`.
pub open spec fn number_line(label: Seq<char>, v: int) -> Seq<char> {
    label + ": "@ + decimal(v) + "\n"@
}

/// The x coordinate of an optional point, 0 if it is not set.
pub fn get_x(p: Option<(i32, i32)>) -> (x: i32)
    ensures
        x == x_of(p),
{
    match p {
        Some(q) => q.0,
        None => 0,
    }
}

/// The y coordinate of an optional point, 0 if it is not set.
pub fn get_y(p: Option<(i32, i32)>) -> (y: i32)
    ensures
        y == y_of(p),
{
    match p {
        Some(q) => q.1,
        None => 0,
    }
}

/// Adds one labelled number to a property list.
pub fn push_prop(list: &mut Vec<(String, String)>, label: &str, v: i64)
    ensures
        final(list).deep_view() == old(list).deep_view().push((label@, decimal(v as int))),
{
    list.push((label.to_owned(), format_decimal(v)));
}

/// Adds a line about a point to a summary.
pub fn push_point_line(out: &mut String, label: &str, p: (i32, i32))
    ensures
        final(out)@ == old(out)@ + point_line(label@, p),
{
    out.append(label);
    out.append(": ");
    out.append("(");
    out.append(format_decimal(p.0 as i64).as_str());
    out.append(", ");
    out.append(format_decimal(p.1 as i64).as_str());
    out.append(")");
    out.append("\n");
}

/// Adds a line about a number to a summary.
pub fn push_number_line(out: &mut String, label: &str, v: i64)
    ensures
        final(out)@ == old(out)@ + number_line(label@, v as int),
{
    out.append(label);
    out.append(": ");
    out.append(format_decimal(v).as_str());
    out.append("\n");
}

} // verus!
