//! How a shape is to be stroked. The collection only says which shape is
//! highlighted and which is selected; drawing is the renderer's part.

use vstd::prelude::*;

verus! {

/// The colour of a stroke.
#[derive(Debug, Clone, Copy, PartialEq, Eq, Structural)]
pub enum StrokeColor {
    Black,
    Red,
}

/// The width and colour that a shape is stroked with.
#[derive(Debug, Clone, Copy, PartialEq, Eq)]
pub struct RenderStyle {
    pub line_width: u32,
    pub stroke_color: StrokeColor,
}

/// The style of a shape: the selected shape is stroked wide and red, a
/// highlighted shape wide and black, any other thin and black.
pub open spec fn style_of(highlighted: bool, selected: bool) -> RenderStyle {
    if selected {
        RenderStyle { line_width: 3, stroke_color: StrokeColor::Red }
    } else if highlighted {
        RenderStyle { line_width: 3, stroke_color: StrokeColor::Black }
    } else {
        RenderStyle { line_width: 1, stroke_color: StrokeColor::Black }
    }
}

/// The style to stroke a shape with.
pub fn render_style(highlighted: bool, selected: bool) -> (style: RenderStyle)
    ensures
        style == style_of(highlighted, selected),
{
    if selected {
        RenderStyle { line_width: 3, stroke_color: StrokeColor::Red }
    } else if highlighted {
        RenderStyle { line_width: 3, stroke_color: StrokeColor::Black }
    } else {
        RenderStyle { line_width: 1, stroke_color: StrokeColor::Black }
    }
}

} // verus!
